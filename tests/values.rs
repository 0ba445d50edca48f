use rust_hooking_utils::dinput8::DeviceType;
use rust_hooking_utils::launching::environment_block;
use rust_hooking_utils::pointer::{NonNullPtr, PointerParseError};
use rust_hooking_utils::system::{module_file_path_from, system_directory_from};
use rust_hooking_utils::text::{field_text, field_text_lossy, field_units};
use rust_hooking_utils::virtual_keys::VirtualKey;

#[test]
fn null_pointer_is_refused() {
    assert!(NonNullPtr::new(0).is_none());
    assert_eq!(NonNullPtr::new(0x1234).unwrap().address(), 0x1234);
    assert_eq!(NonNullPtr::from_address(8).address(), 8);
}

#[test]
fn pointer_text_round_trip() {
    let p = NonNullPtr::new(0xDEADBEEF).unwrap();
    assert_eq!(p.to_hex_string(), "0xDEADBEEF");
    assert_eq!(NonNullPtr::new(0xff).unwrap().to_hex_string(), "0xFF");
    assert_eq!(NonNullPtr::parse_hex("0xDEADBEEF"), Ok(p));
    assert_eq!(NonNullPtr::parse_hex("0x1a2b").unwrap().address(), 0x1a2b);
}

#[test]
fn pointer_text_errors() {
    assert_eq!(NonNullPtr::parse_hex("0x0"), Err(PointerParseError::Null));
    assert_eq!(NonNullPtr::parse_hex("0xZZ"), Err(PointerParseError::InvalidNumber));
    assert_eq!(NonNullPtr::parse_hex("0x"), Err(PointerParseError::InvalidNumber));
    assert_eq!(NonNullPtr::parse_hex("7"), Err(PointerParseError::InvalidNumber));
    assert_eq!(
        NonNullPtr::parse_hex("0x10000000000000000"),
        Err(PointerParseError::InvalidNumber)
    );
}

#[test]
fn virtual_key_codes() {
    assert_eq!(VirtualKey::VK_A.to_usize(), 0x41);
    assert_eq!(VirtualKey::VK_LBUTTON.to_usize(), 0x01);
    assert_eq!(u16::from(VirtualKey::VK_OEM_CLEAR), 0xFE);
    assert_eq!(VirtualKey::VK_HANGUL.code(), VirtualKey::VK_KANA.code());
    assert_eq!(VirtualKey::VK_F24.code(), 0x87);
}

#[test]
fn device_types_differ() {
    assert_ne!(DeviceType::Keyboard, DeviceType::Mouse);
}

#[test]
fn environment_block_layout() {
    let vars = vec![
        ("A".to_string(), "1".to_string()),
        ("PATH".to_string(), "C:\\é".to_string()),
    ];
    let expected: Vec<u16> = "A=1\0PATH=C:\\é\0\0".encode_utf16().collect();
    assert_eq!(environment_block(&vars), expected);
    assert_eq!(environment_block(&[]), vec![0]);
    let wide = vec![("K".to_string(), "\u{1F600}".to_string())];
    assert_eq!(environment_block(&wide), vec![0x4B, 0x3D, 0xD83D, 0xDE00, 0, 0]);
}

#[test]
fn system_directory_buffer_checks() {
    let buffer: Vec<u16> = "C:\\Windows\\system32".encode_utf16().collect();
    assert_eq!(system_directory_from(&buffer, 0), None);
    assert_eq!(system_directory_from(&buffer, buffer.len() as u32 + 1), None);
    assert_eq!(system_directory_from(&buffer, 10), Some(&buffer[..10]));
}

#[test]
fn module_file_path_decoding() {
    let buffer: Vec<u16> = "C:\\mod.dll\0\0\0".encode_utf16().collect();
    assert_eq!(module_file_path_from(&buffer, 10), Some("C:\\mod.dll".to_string()));
    assert_eq!(module_file_path_from(&[0xDC00, 0x41], 2), None);
}

#[test]
fn fixed_width_text_fields() {
    let field = [0x68u16, 0x69, 0, 0x78, 0];
    assert_eq!(field_units(&field), &[0x68, 0x69]);
    assert_eq!(field_text(&field), Some("hi".to_string()));
    assert_eq!(field_text(&[0xD83D, 0xDE00, 0]), Some("\u{1F600}".to_string()));
    assert_eq!(field_text(&[0xD83D, 0x41, 0]), None);
    assert_eq!(field_text_lossy(&[0xD83D, 0x41, 0]), "\u{FFFD}A");
    assert_eq!(field_text(&[0x41, 0x42]), Some("AB".to_string()));
}
