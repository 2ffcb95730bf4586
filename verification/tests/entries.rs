use hartvm::page_table::{
    PageTableEntry, PTE_ACCESSED, PTE_DIRTY, PTE_EXECUTE, PTE_GLOBAL, PTE_READ, PTE_USER,
    PTE_VALID, PTE_WRITE,
};

#[test]
fn new_always_sets_valid_even_without_it() {
    let e = PageTableEntry::new(0x1234, 0);
    assert_eq!(e.flags() & PTE_VALID, PTE_VALID);

    let e = PageTableEntry::new(0x1234, PTE_READ | PTE_WRITE);
    assert_eq!(e.flags() & PTE_VALID, PTE_VALID);

    let e = PageTableEntry::new(0, PTE_EXECUTE);
    assert_eq!(e.flags() & PTE_VALID, PTE_VALID);
}

#[test]
fn decoding_is_lossless() {
    let flags = PTE_READ | PTE_WRITE | PTE_EXECUTE | PTE_USER | PTE_GLOBAL | PTE_ACCESSED
        | PTE_DIRTY;
    let e = PageTableEntry::with_data(0x3ffff_ffff_ffff, true, flags);
    assert_eq!(e.ppn(), 0x3ffff_ffff_ffff);
    assert!(e.data());
    assert_eq!(e.flags(), flags | PTE_VALID);

    let e = PageTableEntry::with_data(7, false, PTE_READ);
    assert_eq!(e.ppn(), 7);
    assert!(!e.data());
    assert_eq!(e.flags(), PTE_READ | PTE_VALID);
}

#[test]
fn bit_layout_matches_the_hardware_format() {
    // ppn in bits [63:10], data marker in bit 8, flag byte in bits [7:0]
    let e = PageTableEntry::with_data(1, true, PTE_READ);
    assert_eq!(e.bits(), (1 << 10) | (1 << 8) | 0x03);

    let e = PageTableEntry::new(0xabc, PTE_WRITE);
    assert_eq!(e.bits(), (0xabc << 10) | 0x05);
}
