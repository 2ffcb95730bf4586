//! Boot-time description of the machine's memory, as this core consumes it.
//!
//! The hardware description blob itself is parsed by an external
//! collaborator; what reaches this library is the first memory region it
//! reports, as plain values. From that, [`BootInfo::memory_region`] derives
//! the region the mapping initializer and the allocator reason about,
//! clipped so that its virtual-translated end stays representable.

use vstd::prelude::*;

use crate::memory::{
    phys_translatable, spec_phys_to_virt, MemoryLayout, PhysAddr, RAM_START,
};

verus! {

/// A contiguous physical range, read-only after creation.
#[derive(Copy, Clone, Debug, PartialEq, Eq, Structural, Hash)]
pub struct Region {
    pub start: PhysAddr,
    pub size: u64,
}

impl Region {
    pub fn new(start: PhysAddr, size: u64) -> (r: Self)
        ensures
            r.start == start,
            r.size == size,
    {
        Self { start, size }
    }

    /// One past the last byte of the region.
    pub fn end(&self) -> (e: PhysAddr)
        requires
            self.start@ + self.size <= u64::MAX,
        ensures
            e@ == self.start@ + self.size,
    {
        self.start.add_offset(self.size)
    }
}

/// What the boot handoff establishes: the hart we run on, where the
/// hardware description blob sits in physical memory, and the first memory
/// region that blob reports.
pub struct BootInfo {
    pub hart_id: u64,
    pub dtb_addr: PhysAddr,
    /// First memory region of the hardware description blob, verbatim.
    pub memory: Region,
}

impl BootInfo {
    pub fn new(hart_id: u64, dtb_addr: PhysAddr, memory: Region) -> (b: Self)
        ensures
            b.hart_id == hart_id,
            b.dtb_addr == dtb_addr,
            b.memory == memory,
    {
        Self { hart_id, dtb_addr, memory }
    }

    /// The size `memory_region` computes before clipping: the reported
    /// region start, shrunk by the gap between it and the RAM base.
    pub open spec fn spec_raw_size(&self) -> int {
        self.memory.start@ - (RAM_START - self.memory.start@)
    }

    /// The physical region handed to the mapping initializer and the
    /// allocator. It starts at the RAM base; its size is the reported
    /// region start shrunk by the gap between that start and the RAM base,
    /// clipped so that the region's virtual-translated end never exceeds
    /// the addressable range.
    pub fn memory_region(&self, layout: &MemoryLayout) -> (r: Region)
        requires
            layout.wf(),
            phys_translatable(*layout, RAM_START as int),
            self.memory.start@ <= RAM_START,
            RAM_START <= 2 * self.memory.start@,
        ensures
            r.start@ == RAM_START,
            r.size == if self.spec_raw_size() <= u64::MAX - spec_phys_to_virt(
                *layout,
                RAM_START as int,
            ) {
                self.spec_raw_size()
            } else {
                u64::MAX - spec_phys_to_virt(*layout, RAM_START as int)
            },
    {
        let start = PhysAddr::new(RAM_START);
        let size = self.memory.start.as_u64() - (RAM_START - self.memory.start.as_u64());
        let max_size = u64::MAX - start.to_virt(layout).as_u64();

        Region { start, size: if size <= max_size { size } else { max_size } }
    }
}

} // verus!
