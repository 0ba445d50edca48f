use std::collections::HashMap;

use rust_hooking_utils::patching::{LocalPatcher, PendingWrite};

/// Simulated memory: every address in `0..0x2000` holds a byte.
fn memory() -> HashMap<usize, u8> {
    (0..0x2000usize).map(|a| (a, (a % 256) as u8)).collect()
}

fn read(mem: &HashMap<usize, u8>, address: usize, len: usize) -> Vec<u8> {
    (address..address + len).map(|a| mem[&a]).collect()
}

fn apply(mem: &mut HashMap<usize, u8>, w: &PendingWrite) {
    for (i, b) in w.bytes.iter().enumerate() {
        mem.insert(w.address + i, *b);
    }
}

fn patch(ledger: &mut LocalPatcher, mem: &mut HashMap<usize, u8>, address: usize, bytes: &[u8]) {
    let original = read(mem, address, bytes.len());
    let w = ledger.patch(address, bytes, &original);
    apply(mem, &w);
}

#[test]
fn patch_then_unpatch_restores_memory() {
    let mut mem = memory();
    let before = mem.clone();
    let mut ledger = LocalPatcher::new();
    patch(&mut ledger, &mut mem, 0x100, &[0xCC, 0xCC, 0x90]);
    assert_eq!(read(&mem, 0x100, 3), vec![0xCC, 0xCC, 0x90]);
    let w = ledger.unpatch(0x100).expect("a patch is recorded at 0x100");
    assert_eq!(w.address, 0x100);
    assert_eq!(w.bytes, vec![0x00, 0x01, 0x02]);
    apply(&mut mem, &w);
    assert_eq!(mem, before);
    assert_eq!(ledger.len(), 0);
}

#[test]
fn unpatch_without_patch_does_nothing() {
    let mut ledger = LocalPatcher::new();
    let original = [0x11u8];
    ledger.patch(0x10, &[0x22], &original);
    assert!(ledger.unpatch(0x20).is_none());
    assert_eq!(ledger.len(), 1);
}

#[test]
fn later_patch_at_same_address_is_removed_first() {
    let mut mem = memory();
    let before = mem.clone();
    let mut ledger = LocalPatcher::new();
    patch(&mut ledger, &mut mem, 0x200, &[0xAA, 0xAA]);
    patch(&mut ledger, &mut mem, 0x200, &[0xBB, 0xBB]);
    let w = ledger.unpatch(0x200).unwrap();
    apply(&mut mem, &w);
    assert_eq!(read(&mem, 0x200, 2), vec![0xAA, 0xAA]);
    assert_eq!(ledger.len(), 1);
    assert_eq!(ledger.patches()[0].patch_bytes(), &[0xAA, 0xAA]);
    let w = ledger.unpatch(0x200).unwrap();
    apply(&mut mem, &w);
    assert_eq!(mem, before);
}

#[test]
fn unpatch_keeps_the_order_of_the_other_patches() {
    let mut mem = memory();
    let mut ledger = LocalPatcher::new();
    patch(&mut ledger, &mut mem, 0x10, &[1]);
    patch(&mut ledger, &mut mem, 0x20, &[2]);
    patch(&mut ledger, &mut mem, 0x30, &[3]);
    patch(&mut ledger, &mut mem, 0x40, &[4]);
    ledger.unpatch(0x20).unwrap();
    let addresses: Vec<usize> = ledger.patches().iter().map(|p| p.address).collect();
    assert_eq!(addresses, vec![0x10, 0x30, 0x40]);
}

#[test]
fn closing_restores_all_outstanding_patches() {
    let mut mem = memory();
    let before = mem.clone();
    let mut ledger = LocalPatcher::new();
    patch(&mut ledger, &mut mem, 0x300, &[0xC3]);
    patch(&mut ledger, &mut mem, 0x301, &[0x90, 0x90, 0x90]);
    patch(&mut ledger, &mut mem, 0x400, &[0xE9, 0x00, 0x00, 0x00, 0x00]);
    patch(&mut ledger, &mut mem, 0x300, &[0xCC, 0xCC]);
    assert_ne!(mem, before);
    let writes = ledger.close();
    assert_eq!(writes.len(), 4);
    assert_eq!(writes[0].address, 0x300);
    for w in &writes {
        apply(&mut mem, w);
    }
    assert_eq!(mem, before);
    assert_eq!(read(&mem, 0x300, 4), vec![0x00, 0x01, 0x02, 0x03]);
    assert_eq!(read(&mem, 0x400, 5), vec![0x00, 0x01, 0x02, 0x03, 0x04]);
}

#[test]
fn disable_and_enable_keep_the_ledger() {
    let mut mem = memory();
    mem.insert(0x1000, 0x55);
    let mut ledger = LocalPatcher::new();
    let w = ledger.patch(0x1000, &[0xCC], &[0x55]);
    apply(&mut mem, &w);
    assert_eq!(mem[&0x1000], 0xCC);
    for w in ledger.disable_all_patches() {
        apply(&mut mem, &w);
    }
    assert_eq!(mem[&0x1000], 0x55);
    for w in ledger.enable_all_patches() {
        apply(&mut mem, &w);
    }
    assert_eq!(mem[&0x1000], 0xCC);
    assert_eq!(ledger.patches().len(), 1);
    assert_eq!(ledger.patches()[0].original_bytes(), &[0x55]);
}

#[test]
fn bulk_writes_come_newest_first() {
    let mut ledger = LocalPatcher::new();
    ledger.patch(0x10, &[1], &[7]);
    ledger.patch(0x20, &[2], &[8]);
    let off = ledger.disable_all_patches();
    assert_eq!(off.iter().map(|w| (w.address, w.bytes.clone())).collect::<Vec<_>>(), vec![
        (0x20, vec![8]),
        (0x10, vec![7])
    ]);
    let on = ledger.enable_all_patches();
    assert_eq!(on.iter().map(|w| (w.address, w.bytes.clone())).collect::<Vec<_>>(), vec![
        (0x20, vec![2]),
        (0x10, vec![1])
    ]);
}
