//! Boot-time virtual-memory core of a bare-metal RISC-V kernel: typed
//! physical and virtual addresses with their offset translation, the
//! bit-level page-table-entry encoding, single-assignment page tables,
//! and the one-shot algorithm that wires three table levels together and
//! yields the value to load into the translation-control register.

pub mod boot;
pub mod memory;
pub mod page_table;
pub mod sbi;
