use rust_hooking_utils::pattern::ScanError;
use rust_hooking_utils::process::{
    read_result, write_result, GameProcess, LocalModule, Module, ModuleEntry, ProcessErrorKind,
    WindowInfo,
};

fn wide(s: &str, width: usize) -> Vec<u16> {
    let mut v: Vec<u16> = s.encode_utf16().collect();
    v.resize(width, 0);
    v
}

fn entry(name: &str, base: usize, size: u32) -> ModuleEntry {
    ModuleEntry {
        base_address: base,
        base_size: size,
        module_handle: base,
        module_name: wide(name, 256),
        exe_path: wide(&format!("C:\\Game\\{}", name), 260),
    }
}

fn modules(process: &GameProcess) -> Vec<Module> {
    process.modules_from_entries(vec![
        entry("game.exe", 0x400000, 0x1000),
        entry("kernel32.dll", 0x7000_0000, 0x2000),
        entry("user32.dll", 0x7100_0000, 0x3000),
    ])
}

#[test]
fn find_module_by_name_part() {
    let process = GameProcess::new(4, 1234);
    let found = GameProcess::find_module(modules(&process), "32.dll").unwrap();
    assert_eq!(found.name(), "kernel32.dll");
    assert_eq!(found.base(), 0x7000_0000);
    assert_eq!(found.size(), 0x2000);
    assert_eq!(found.parent, process);
}

#[test]
fn find_module_absent_name() {
    let process = GameProcess::new(4, 1234);
    let r = GameProcess::find_module(modules(&process), "steam_api.dll");
    assert!(matches!(r, Err(ProcessErrorKind::UnknownModule(ref s)) if s == "steam_api.dll"));
}

#[test]
fn find_module_is_case_sensitive() {
    let process = GameProcess::new(4, 1234);
    let r = GameProcess::find_module(modules(&process), "USER32");
    assert!(matches!(r, Err(ProcessErrorKind::UnknownModule(_))));
}

#[test]
fn module_fields_stop_at_nul() {
    let process = GameProcess::new(4, 1234);
    let m = Module::new(process, entry("game.exe", 0x400000, 0x1000)).unwrap();
    assert_eq!(m.name(), "game.exe");
    assert_eq!(m.path(), "C:\\Game\\game.exe");
    assert_eq!(m.module_handle(), 0x400000);
}

#[test]
fn undecodable_names_are_skipped() {
    let process = GameProcess::new(4, 1234);
    let mut bad = entry("bad.dll", 0x500000, 0x100);
    bad.module_name[0] = 0xD800;
    assert!(Module::new(process, entry("x", 0, 0)).is_ok());
    let mut bad2 = entry("bad2.dll", 0x600000, 0x100);
    bad2.module_name[3] = 0xDC00;
    assert!(matches!(Module::new(process, bad2), Err(ProcessErrorKind::Any(_))));
    let list = process.modules_from_entries(vec![
        entry("a.dll", 0x1000, 0x10),
        bad,
        entry("b.dll", 0x2000, 0x10),
    ]);
    let names: Vec<&str> = list.iter().map(|m| m.name()).collect();
    assert_eq!(names, vec!["a.dll", "b.dll"]);
}

#[test]
fn path_decoding_tolerates_unpaired_surrogates() {
    let process = GameProcess::new(4, 1234);
    let mut e = entry("game.exe", 0x400000, 0x1000);
    e.exe_path = vec![0x43, 0xD800, 0x44, 0];
    let m = Module::new(process, e).unwrap();
    assert_eq!(m.path(), "C\u{FFFD}D");
}

#[test]
fn to_local_in_current_process() {
    let process = GameProcess::new(4, 1234);
    assert!(process.is_current(1234));
    let m = Module::new(process, entry("game.exe", 0x400000, 0x1000)).unwrap();
    assert!(m.is_local(1234));
    let local = m.to_local(1234).unwrap();
    assert_eq!(local.as_module().name(), "game.exe");
}

#[test]
fn to_local_in_other_process() {
    let process = GameProcess::new(4, 1234);
    let m = Module::new(process, entry("game.exe", 0x400000, 0x1000)).unwrap();
    assert!(!process.is_current(5678));
    assert!(matches!(m.to_local(5678), Err(ProcessErrorKind::ModuleNotLocal)));
}

fn local_module() -> LocalModule {
    let process = GameProcess::new(4, 1234);
    let m = Module::new(process, entry("game.exe", 0x400000, 8)).unwrap();
    LocalModule::new(m, 1234).unwrap()
}

#[test]
fn local_module_scans_give_addresses() {
    let local = local_module();
    let image = [0x90u8, 0xAA, 0xBB, 0x90, 0xAA, 0xBB, 0x00, 0x00];
    assert_eq!(local.scan_for_pattern(&image, "AA BB"), Ok(0x400001));
    assert_eq!(local.scan_for_pattern_after(&image, 0x400002, "AA BB"), Ok(0x400004));
    assert_eq!(local.scan_for_pattern_after(&image, 0x400008, "AA"), Err(ScanError::NotFound));
    assert_eq!(local.scan_for_all_pattern(&image, "AA ?"), Ok(vec![0x400001, 0x400004]));
    assert_eq!(local.scan_for_pattern(&image, "CC"), Err(ScanError::NotFound));
    assert_eq!(local.scan_for_pattern(&image, "C"), Err(ScanError::NotFound));
    assert_eq!(local.scan_for_pattern(&image, "CCC"), Err(ScanError::InvalidPattern));
    assert_eq!(local.as_module().absolute_address(3), 0x400003);
    assert_eq!(local.as_module().relative_offset(0x400005), 5);
}

#[test]
fn complete_transfers_only() {
    assert_eq!(read_result(0x1000, 4, Some(4)), Ok(4));
    assert_eq!(read_result(0x1000, 4, Some(2)), Err(ProcessErrorKind::MemoryRead(0x1000)));
    assert_eq!(read_result(0x1000, 4, Some(0)), Err(ProcessErrorKind::MemoryRead(0x1000)));
    assert_eq!(read_result(0x1000, 4, None), Err(ProcessErrorKind::MemoryRead(0x1000)));
    assert_eq!(write_result(0x2000, 3, Some(3)), Ok(()));
    assert_eq!(write_result(0x2000, 3, Some(1)), Err(ProcessErrorKind::MemoryWrite(0x2000)));
    assert_eq!(write_result(0x2000, 3, None), Err(ProcessErrorKind::MemoryWrite(0x2000)));
}

fn window(handle: usize, process_id: u32, has_owner: bool, visible: bool) -> WindowInfo {
    WindowInfo { handle, process_id, has_owner, visible }
}

#[test]
fn main_window_is_first_unowned_visible_window() {
    let process = GameProcess::new(4, 10);
    let windows = [
        window(1, 11, false, true),
        window(2, 10, true, true),
        window(3, 10, false, false),
        window(4, 10, false, true),
        window(5, 10, false, true),
    ];
    assert_eq!(process.main_window_among(&windows, None), Some(4));
    assert_eq!(process.main_window_among(&windows, Some(4)), Some(5));
    assert_eq!(process.main_window_among(&windows[..3], None), None);
    assert_eq!(process.windows_among(&windows), vec![2, 3, 4, 5]);
}

#[test]
fn waiting_for_main_window_honours_timeout() {
    assert!(GameProcess::keep_waiting(50, Some(100)));
    assert!(GameProcess::keep_waiting(100, Some(100)));
    assert!(!GameProcess::keep_waiting(101, Some(100)));
    assert!(GameProcess::keep_waiting(u64::MAX, None));
}
