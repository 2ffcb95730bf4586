use hartvm::memory::{MemoryLayout, VirtAddr, RAM_START, RAM_VIRTUAL_START};
use hartvm::page_table::{
    init, vpn, InitError, PageTable, RootPageTable, RootTableLock, PAGE_SHIFT, PTE_VALID,
    SATP_MODE,
};

const CODE: u64 = 0xffffffff80000000;
const STACK: u64 = 0xffffffff40000000;

// the three statically reserved tables, placed inside the kernel image
const HIGH_ADDR: u64 = CODE + 0x1000;
const STACK_ADDR: u64 = CODE + 0x2000;
const ROOT_ADDR: u64 = CODE + 0x3000;

#[test]
fn shared_top_level_slot_yields_exactly_two_root_entries() {
    let layout = MemoryLayout::new(CODE, STACK);
    assert_eq!(vpn(CODE, 3), vpn(STACK, 3));

    let mut root = RootTableLock::new(RootPageTable::new_static());
    let mut high = PageTable::new_static();
    let mut stack = PageTable::new_static();

    let activation = init(
        &mut root,
        &mut high,
        &mut stack,
        VirtAddr::new(ROOT_ADDR),
        VirtAddr::new(HIGH_ADDR),
        VirtAddr::new(STACK_ADDR),
        &layout,
    )
    .unwrap();

    let root_pt = root.into_inner();
    let valid = root_pt.valid_indices();
    assert_eq!(valid, vec![vpn(RAM_VIRTUAL_START, 3), vpn(CODE, 3)]);

    // the shared code/stack slot points at the second-level table
    let shared = root_pt.index(vpn(CODE, 3));
    assert_eq!(shared.ppn(), (RAM_START + 0x1000) >> PAGE_SHIFT);
    assert_eq!(shared.flags(), PTE_VALID);

    // the physical-window slot is a leaf: permission bits are set
    let window = root_pt.index(vpn(RAM_VIRTUAL_START, 3));
    assert_ne!(window.flags() & 0x0e, 0);
    assert_eq!(window.ppn(), 0);

    // second level: code leaf and pointer to the stack table
    assert_eq!(high.valid_indices(), vec![vpn(STACK, 2), vpn(CODE, 2)]);
    assert_eq!(high.index(vpn(CODE, 2)).ppn(), RAM_START >> PAGE_SHIFT);
    assert_eq!(
        high.index(vpn(STACK, 2)).ppn(),
        (RAM_START + 0x2000) >> PAGE_SHIFT
    );

    // third level: the stack leaf alone
    assert_eq!(stack.valid_indices(), vec![vpn(STACK, 1)]);

    // the register value names the root table and the addressing mode
    let root_ppn = (RAM_START + 0x3000) >> PAGE_SHIFT;
    assert_eq!(activation.satp(), SATP_MODE << 60 | root_ppn);
}

#[test]
fn different_top_level_slots_abort_before_any_activation() {
    // one full top-level stride below the code region
    let far_stack: u64 = CODE - (1 << 39);
    assert_ne!(vpn(CODE, 3), vpn(far_stack, 3));
    let layout = MemoryLayout::new(CODE, far_stack);

    let mut root = RootTableLock::new(RootPageTable::new_static());
    let mut high = PageTable::new_static();
    let mut stack = PageTable::new_static();

    let r = init(
        &mut root,
        &mut high,
        &mut stack,
        VirtAddr::new(ROOT_ADDR),
        VirtAddr::new(HIGH_ADDR),
        VirtAddr::new(STACK_ADDR),
        &layout,
    );

    // no Activation exists, so the translation-control register can
    // never be written, and no table was touched
    assert!(matches!(r, Err(InitError::TopLevelMismatch)));
    assert!(root.into_inner().valid_indices().is_empty());
    assert!(high.valid_indices().is_empty());
    assert!(stack.valid_indices().is_empty());
}
