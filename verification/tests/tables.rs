use hartvm::memory::{MemoryLayout, VirtAddr, RAM_START};
use hartvm::page_table::{
    PageTable, PageTableEntry, PtError, RootPageTable, RootTableLock, vpn, PAGE_SHIFT, PTE_READ,
    PTE_VALID, PTE_WRITE,
};

#[test]
fn fresh_tables_decode_every_slot_as_invalid() {
    let t = PageTable::new();
    for i in 0..512u16 {
        assert_eq!(t.index(i).flags() & PTE_VALID, 0);
    }
    assert!(t.valid_indices().is_empty());

    let t = PageTable::new_static();
    for i in 0..512u16 {
        assert_eq!(t.index(i).flags() & PTE_VALID, 0);
    }
    assert!(t.valid_indices().is_empty());

    let r = RootPageTable::new_static();
    assert!(r.valid_indices().is_empty());
}

#[test]
fn second_set_on_a_leaf_slot_fails_as_leaf_and_changes_nothing() {
    let mut t = PageTable::new_static();
    let first = PageTableEntry::new(0x111, PTE_READ | PTE_WRITE);
    assert_eq!(t.set(42, first), Ok(()));
    let pattern = t.index(42).bits();

    let second = PageTableEntry::new(0x222, PTE_READ);
    assert_eq!(t.set(42, second), Err(PtError::AlreadyMappedLeaf));
    assert_eq!(t.index(42).bits(), pattern);
}

#[test]
fn second_set_on_an_intermediate_slot_fails_as_intermediate() {
    let mut t = PageTable::new();
    // no READ/WRITE/EXECUTE: an intermediate pointer to a next level
    let first = PageTableEntry::new(0x111, 0);
    assert_eq!(t.set(3, first), Ok(()));
    let pattern = t.index(3).bits();

    let second = PageTableEntry::new(0x222, PTE_READ | PTE_WRITE);
    assert_eq!(t.set(3, second), Err(PtError::AlreadyMappedIntermediate));
    assert_eq!(t.index(3).bits(), pattern);
}

#[test]
fn set_merges_into_the_marked_static_slot() {
    let mut t = PageTable::new_static();
    // slot 0 carries the static-storage marker out of band (bit 9)
    let e = PageTableEntry::new(0x7, PTE_READ);
    let e_bits = e.bits();
    assert_eq!(t.set(0, e), Ok(()));
    assert_eq!(t.index(0).bits(), e_bits | 0x200);
    // the marker does not disturb the decoded fields
    assert_eq!(t.index(0).ppn(), 0x7);
    assert_eq!(t.index(0).flags(), PTE_READ | PTE_VALID);
    assert!(!t.index(0).data());
}

#[test]
fn valid_indices_lists_exactly_the_valid_slots_in_order() {
    let mut t = PageTable::new();
    for &i in &[500u16, 3, 42] {
        t.set(i, PageTableEntry::new(1, PTE_READ)).unwrap();
    }
    assert_eq!(t.valid_indices(), vec![3u16, 42, 500]);
}

#[test]
fn vpn_slices_nine_bits_per_level() {
    let addr = 0xffffffff80000000u64;
    assert_eq!(vpn(addr, 3), 511);
    assert_eq!(vpn(addr, 2), 510);
    assert_eq!(vpn(addr, 1), 0);
    assert_eq!(vpn(0, 3), 0);
    // bits [20:12] select the level-0 table index
    assert_eq!(vpn(0x1ff000, 0), 511);
}

#[test]
fn table_ppn_comes_from_its_own_translated_address() {
    let l = MemoryLayout::new(0xffffffff80000000, 0xffffffff40000000);
    let t = PageTable::new();
    let ppn = t.ppn(VirtAddr::new(0xffffffff80003000), &l);
    assert_eq!(ppn, (RAM_START + 0x3000) >> PAGE_SHIFT);
}

#[test]
fn the_lock_carries_updates_through() {
    let mut lock = RootTableLock::new(RootPageTable::new_static());
    let e = PageTableEntry::new(0x55, 0);
    assert_eq!(lock.set(9, e), Ok(()));
    // single assignment holds through the lock as well
    assert_eq!(
        lock.set(9, PageTableEntry::new(0x66, 0)),
        Err(PtError::AlreadyMappedIntermediate)
    );
    let root = lock.into_inner();
    assert_eq!(root.valid_indices(), vec![9u16]);
    assert_eq!(root.index(9).ppn(), 0x55);
}
