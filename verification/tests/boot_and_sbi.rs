use hartvm::boot::{BootInfo, Region};
use hartvm::memory::{MemoryLayout, PhysAddr, RAM_START};
use hartvm::sbi::{sbi_ret, SbiError};

#[test]
fn region_end_adds_size_to_start() {
    let r = Region::new(PhysAddr::new(0x80000000), 0x8000000);
    assert_eq!(r.end(), PhysAddr::new(0x88000000));
    assert_eq!(r.size, 134217728);
}

#[test]
fn boot_info_keeps_the_handoff_values() {
    let b = BootInfo::new(0, PhysAddr::new(0x87e00000), Region::new(PhysAddr::new(RAM_START), 0x8000000));
    assert_eq!(b.hart_id, 0);
    assert_eq!(b.dtb_addr, PhysAddr::new(0x87e00000));
    assert_eq!(b.memory.size, 0x8000000);
}

#[test]
fn memory_region_starts_at_the_ram_base_and_clips_to_the_address_space() {
    let l = MemoryLayout::new(0xffffffff80000000, 0xffffffff40000000);
    let b = BootInfo::new(0, PhysAddr::new(RAM_START), Region::new(PhysAddr::new(RAM_START), 0x8000000));
    let r = b.memory_region(&l);
    assert_eq!(r.start, PhysAddr::new(RAM_START));
    // the raw size (the region start shrunk by its gap to the RAM base)
    // exceeds what the code-region translation can address, so it is
    // clipped to the distance left below the top of the address space
    assert_eq!(r.size, u64::MAX - 0xffffffff80000000);
}

#[test]
fn memory_region_keeps_the_gap_formula_when_it_fits() {
    // a layout whose code region sits low leaves room for the full size
    let l = MemoryLayout::new(0x40000000, 0x20000000);
    let b = BootInfo::new(0, PhysAddr::new(RAM_START), Region::new(PhysAddr::new(0x7fff0000), 0x8000000));
    let r = b.memory_region(&l);
    assert_eq!(r.start, PhysAddr::new(RAM_START));
    // start minus the gap: 0x7fff0000 - (RAM_START - 0x7fff0000)
    assert_eq!(r.size, 0x7ffe0000);
}

#[test]
fn known_codes_map_to_their_own_errors() {
    assert_eq!(SbiError::new(-1), SbiError::Failed);
    assert_eq!(SbiError::new(-2), SbiError::NotSupported);
    assert_eq!(SbiError::new(-3), SbiError::InvalidParameter);
    assert_eq!(SbiError::new(-4), SbiError::Denied);
    assert_eq!(SbiError::new(-5), SbiError::InvalidAddress);
    assert_eq!(SbiError::new(-6), SbiError::AlreadyAvailable);
    assert_eq!(SbiError::new(-7), SbiError::AlreadyStarted);
    assert_eq!(SbiError::new(-8), SbiError::AlreadyStopped);

    let known: Vec<SbiError> = (-8..=-1).map(SbiError::new).collect();
    for (i, a) in known.iter().enumerate() {
        for (j, b) in known.iter().enumerate() {
            assert_eq!(i == j, a == b);
        }
        assert!(!matches!(a, SbiError::Unknown(_)));
    }
}

#[test]
fn other_codes_keep_their_value_in_the_catch_all() {
    assert_eq!(SbiError::new(-9), SbiError::Unknown(-9));
    assert_eq!(SbiError::new(-1000), SbiError::Unknown(-1000));
    assert_eq!(SbiError::new(1), SbiError::Unknown(1));
    assert_eq!(SbiError::new(42), SbiError::Unknown(42));
}

#[test]
fn sbi_ret_splits_on_the_status_word() {
    assert_eq!(sbi_ret(0, 7u64), Ok(7));
    assert_eq!(sbi_ret(-2, 7u64), Err(SbiError::NotSupported));
    assert_eq!(sbi_ret(99, ()), Err(SbiError::Unknown(99)));
}

#[test]
fn errors_carry_their_diagnostic_text() {
    assert_eq!(SbiError::Failed.message(), "call to SBI failed");
    assert_eq!(SbiError::Denied.message(), "SBI implementation denied execution");
    assert_eq!(SbiError::Unknown(-42).message(), "unknown SBI error code");
}
