use rust_hooking_utils::pattern::{scan_all, scan_first, ScanError};

#[test]
fn first_and_all_matches_of_two_bytes() {
    let buffer = [0x90u8, 0x90, 0xAA, 0xBB, 0x90];
    assert_eq!(scan_first(&buffer, "AA BB"), Ok(Some(2)));
    assert_eq!(scan_all(&buffer, "AA BB"), Ok(vec![2]));
}

#[test]
fn smallest_offset_is_reported_first() {
    let buffer = [0x01u8, 0x02, 0x01, 0x02, 0x01];
    assert_eq!(scan_first(&buffer, "01 02"), Ok(Some(0)));
    assert_eq!(scan_all(&buffer, "01 02"), Ok(vec![0, 2]));
    assert_eq!(scan_all(&buffer, "01"), Ok(vec![0, 2, 4]));
}

#[test]
fn wildcards_match_any_byte() {
    let buffer = [0xffu8, 0xfe, 0x7c, 0x88, 0xfd, 0x90, 0x00];
    assert_eq!(scan_first(&buffer, "fe ? ? ? 90"), Ok(Some(1)));
    assert_eq!(scan_first(&buffer, "? ? ? ? fd"), Ok(Some(0)));
}

#[test]
fn no_match_is_none_not_an_error() {
    let buffer = [0x10u8, 0x20, 0x30, 0x40, 0x50];
    assert_eq!(scan_first(&buffer, "78 90 cc"), Ok(None));
    assert_eq!(scan_all(&buffer, "78 90 cc"), Ok(vec![]));
}

#[test]
fn pattern_must_fit_inside_the_buffer() {
    let buffer = [0x10u8, 0x20, 0x30, 0x40, 0x50];
    assert_eq!(scan_first(&buffer, "40 50 60"), Ok(None));
    assert_eq!(scan_first(&buffer, "50 00"), Ok(None));
    assert_eq!(scan_first(&buffer, "50 ?"), Ok(None));
    assert_eq!(scan_first(&[], "10"), Ok(None));
}

#[test]
fn malformed_patterns_are_errors() {
    let buffer = [0x10u8, 0x20];
    assert_eq!(scan_first(&buffer, "10 ZZ"), Err(ScanError::InvalidPattern));
    assert_eq!(scan_first(&buffer, "100"), Err(ScanError::InvalidPattern));
    assert_eq!(scan_first(&buffer, "??"), Err(ScanError::InvalidPattern));
    assert_eq!(scan_all(&buffer, "1G"), Err(ScanError::InvalidPattern));
}

#[test]
fn token_syntax_follows_base_sixteen_bytes() {
    let buffer = [0x00u8, 0x0a, 0xff];
    assert_eq!(scan_first(&buffer, "a"), Ok(Some(1)));
    assert_eq!(scan_first(&buffer, "+FF"), Ok(Some(2)));
    assert_eq!(scan_first(&buffer, "000a \t\n ff"), Ok(Some(1)));
}

#[test]
fn empty_pattern_matches_everywhere() {
    let buffer = [0x10u8, 0x20];
    assert_eq!(scan_first(&buffer, ""), Ok(Some(0)));
    assert_eq!(scan_all(&buffer, "  "), Ok(vec![0, 1, 2]));
}

#[test]
fn long_patterns_and_buffers() {
    let mut buffer = vec![0u8; 5000];
    for (i, b) in buffer.iter_mut().enumerate().skip(3000).take(1500) {
        *b = (i % 251) as u8 + 1;
    }
    let pattern: Vec<String> = buffer[3000..4500].iter().map(|b| format!("{:02X}", b)).collect();
    assert_eq!(scan_first(&buffer, &pattern.join(" ")), Ok(Some(3000)));
    assert_eq!(buffer[3000], 0xF0);
    assert_eq!(scan_first(&buffer, "00 00 00 F0"), Ok(Some(2997)));
}
