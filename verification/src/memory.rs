//! Typed physical and virtual addresses, and the offset translation
//! between them.
//!
//! Translation is a pure offset computation against two link-time region
//! bases: an address in the kernel code/data region maps into physical RAM
//! starting at [`RAM_START`], and an address in the kernel stack region maps
//! into the stack backing starting at [`PHYSICAL_STACK_START`]. Any address
//! below both region bases has no translation.

use vstd::prelude::*;

verus! {

/// Base of physical RAM on the target platform.
pub const RAM_START: u64 = 0x80000000;

/// Base of the physical memory backing the kernel stack region. It lies
/// inside RAM, above the space reserved for the kernel image.
pub const PHYSICAL_STACK_START: u64 = 0x80000000 + 0x2000000 + 16 * 1024 * 1024;

/// Virtual base of the direct physical-memory window: the fixed virtual
/// range through which the kernel addresses arbitrary physical frames at
/// offset zero, without walking through the code-region mapping. Mapped by
/// the hardware table the initializer builds, not by the offset
/// translation in this module.
pub const RAM_VIRTUAL_START: u64 = 0xffff800000000000;

/// The two link-time virtual region bases that translation is defined
/// against: the start of the kernel code/data region and the start of the
/// kernel stack region.
pub struct MemoryLayout {
    pub virtual_code_start: u64,
    pub virtual_stack_start: u64,
}

impl MemoryLayout {
    /// The stack region sits below the code/data region, so the branch
    /// order of the translation functions resolves every address at or
    /// above the stack base.
    pub open spec fn wf(self) -> bool {
        self.virtual_stack_start <= self.virtual_code_start
    }

    pub fn new(virtual_code_start: u64, virtual_stack_start: u64) -> (l: Self)
        requires
            virtual_stack_start <= virtual_code_start,
        ensures
            l.virtual_code_start == virtual_code_start,
            l.virtual_stack_start == virtual_stack_start,
            l.wf(),
    {
        MemoryLayout { virtual_code_start, virtual_stack_start }
    }
}

/// The physical address a virtual address translates to: distance from the
/// region base, rebased onto that region's physical backing.
pub open spec fn spec_virt_to_phys(l: MemoryLayout, addr: int) -> int {
    if addr >= l.virtual_code_start {
        RAM_START + (addr - l.virtual_code_start)
    } else {
        PHYSICAL_STACK_START + (addr - l.virtual_stack_start)
    }
}

/// A virtual address translates exactly when it is at or above one of the
/// two region bases and the rebased result still fits in a machine word.
pub open spec fn virt_translatable(l: MemoryLayout, addr: int) -> bool {
    &&& addr >= l.virtual_code_start || addr >= l.virtual_stack_start
    &&& spec_virt_to_phys(l, addr) <= u64::MAX
}

/// The virtual address a physical address translates to: the exact inverse
/// of [`spec_virt_to_phys`], selected by comparing against the physical
/// bases.
pub open spec fn spec_phys_to_virt(l: MemoryLayout, addr: int) -> int {
    if addr >= RAM_START {
        l.virtual_code_start + (addr - RAM_START)
    } else {
        l.virtual_stack_start + (addr - PHYSICAL_STACK_START)
    }
}

/// A physical address translates exactly when it is at or above one of the
/// two physical bases and the rebased result still fits in a machine word.
pub open spec fn phys_translatable(l: MemoryLayout, addr: int) -> bool {
    &&& addr >= RAM_START || addr >= PHYSICAL_STACK_START
    &&& spec_phys_to_virt(l, addr) <= u64::MAX
}

/// A location in the currently-active address space (or, before translation
/// is on, a link-time address). Never dereferenced here: the library only
/// computes with it.
#[derive(Clone, Copy, Debug, PartialEq, Eq, Structural, PartialOrd, Ord, Hash)]
pub struct VirtAddr(u64);

impl View for VirtAddr {
    type V = u64;

    closed spec fn view(&self) -> u64 {
        self.0
    }
}

impl VirtAddr {
    pub fn new(addr: u64) -> (v: Self)
        ensures
            v@ == addr,
    {
        VirtAddr(addr)
    }

    pub fn as_u64(self) -> (r: u64)
        ensures
            r == self@,
    {
        self.0
    }

    /// Translate into the physical address space. Addresses outside both
    /// link-time regions have no translation and are ruled out up front:
    /// producing a wrong address in a kernel is worse than stopping.
    pub fn to_phys(self, layout: &MemoryLayout) -> (p: PhysAddr)
        requires
            layout.wf(),
            virt_translatable(*layout, self@ as int),
        ensures
            p@ == spec_virt_to_phys(*layout, self@ as int),
    {
        PhysAddr::new(virt_to_phys_addr(self.0, layout))
    }

    pub fn add_offset(self, rhs: u64) -> (v: VirtAddr)
        requires
            self@ + rhs <= u64::MAX,
        ensures
            v@ == self@ + rhs,
    {
        VirtAddr(self.0 + rhs)
    }

    pub fn sub_offset(self, rhs: u64) -> (v: VirtAddr)
        requires
            rhs <= self@,
        ensures
            v@ == self@ - rhs,
    {
        VirtAddr(self.0 - rhs)
    }

    /// Byte distance down to another virtual address.
    pub fn offset_from(self, rhs: VirtAddr) -> (d: u64)
        requires
            rhs@ <= self@,
        ensures
            d == self@ - rhs@,
    {
        self.0 - rhs.0
    }
}

/// A location in physical memory. Never dereferenced here; it must be
/// translated to a virtual address (or used as a raw frame number) first.
#[derive(Clone, Copy, Debug, PartialEq, Eq, Structural, PartialOrd, Ord, Hash)]
pub struct PhysAddr(u64);

impl View for PhysAddr {
    type V = u64;

    closed spec fn view(&self) -> u64 {
        self.0
    }
}

impl PhysAddr {
    pub fn new(addr: u64) -> (p: Self)
        ensures
            p@ == addr,
    {
        PhysAddr(addr)
    }

    pub fn as_u64(self) -> (r: u64)
        ensures
            r == self@,
    {
        self.0
    }

    /// Translate into the virtual address space; the exact inverse of
    /// [`VirtAddr::to_phys`] on translatable addresses.
    pub fn to_virt(self, layout: &MemoryLayout) -> (v: VirtAddr)
        requires
            layout.wf(),
            phys_translatable(*layout, self@ as int),
        ensures
            v@ == spec_phys_to_virt(*layout, self@ as int),
    {
        VirtAddr::new(phys_to_virt_addr(self.0, layout))
    }

    pub fn add_offset(self, rhs: u64) -> (p: PhysAddr)
        requires
            self@ + rhs <= u64::MAX,
        ensures
            p@ == self@ + rhs,
    {
        PhysAddr(self.0 + rhs)
    }

    pub fn sub_offset(self, rhs: u64) -> (p: PhysAddr)
        requires
            rhs <= self@,
        ensures
            p@ == self@ - rhs,
    {
        PhysAddr(self.0 - rhs)
    }

    /// Byte distance down to another physical address.
    pub fn offset_from(self, rhs: PhysAddr) -> (d: u64)
        requires
            rhs@ <= self@,
        ensures
            d == self@ - rhs@,
    {
        self.0 - rhs.0
    }
}

/// Virtual-to-physical translation of a raw address. The caller must stay
/// inside the two link-time regions; anything else is a translation-model
/// error with no meaningful recovery at boot time.
pub fn virt_to_phys_addr(addr: u64, layout: &MemoryLayout) -> (r: u64)
    requires
        layout.wf(),
        virt_translatable(*layout, addr as int),
    ensures
        r == spec_virt_to_phys(*layout, addr as int),
{
    if addr >= layout.virtual_code_start {
        let offset = addr - layout.virtual_code_start;
        RAM_START + offset
    } else {
        let offset = addr - layout.virtual_stack_start;
        PHYSICAL_STACK_START + offset
    }
}

/// Total version of [`virt_to_phys_addr`]: `None` exactly on the addresses
/// that have no translation (below both region bases, or rebased past the
/// top of the address space).
pub fn virt_to_phys_addr_checked(addr: u64, layout: &MemoryLayout) -> (r: Option<u64>)
    requires
        layout.wf(),
    ensures
        virt_translatable(*layout, addr as int) ==> r == Some(
            spec_virt_to_phys(*layout, addr as int) as u64,
        ),
        !virt_translatable(*layout, addr as int) ==> r is None,
        addr < layout.virtual_stack_start && addr < layout.virtual_code_start ==> r is None,
{
    if addr >= layout.virtual_code_start {
        RAM_START.checked_add(addr - layout.virtual_code_start)
    } else if addr >= layout.virtual_stack_start {
        PHYSICAL_STACK_START.checked_add(addr - layout.virtual_stack_start)
    } else {
        None
    }
}

/// Physical-to-virtual translation of a raw address; inverse of
/// [`virt_to_phys_addr`].
pub fn phys_to_virt_addr(addr: u64, layout: &MemoryLayout) -> (r: u64)
    requires
        layout.wf(),
        phys_translatable(*layout, addr as int),
    ensures
        r == spec_phys_to_virt(*layout, addr as int),
{
    if addr >= RAM_START {
        let offset = addr - RAM_START;
        layout.virtual_code_start + offset
    } else {
        let offset = addr - PHYSICAL_STACK_START;
        layout.virtual_stack_start + offset
    }
}

/// Total version of [`phys_to_virt_addr`]: `None` exactly on the addresses
/// that have no translation.
pub fn phys_to_virt_addr_checked(addr: u64, layout: &MemoryLayout) -> (r: Option<u64>)
    requires
        layout.wf(),
    ensures
        phys_translatable(*layout, addr as int) ==> r == Some(
            spec_phys_to_virt(*layout, addr as int) as u64,
        ),
        !phys_translatable(*layout, addr as int) ==> r is None,
        addr < RAM_START && addr < PHYSICAL_STACK_START ==> r is None,
{
    if addr >= RAM_START {
        layout.virtual_code_start.checked_add(addr - RAM_START)
    } else if addr >= PHYSICAL_STACK_START {
        layout.virtual_stack_start.checked_add(addr - PHYSICAL_STACK_START)
    } else {
        None
    }
}

/// Translating to physical, back to virtual, and to physical again lands on
/// the same physical address as the single translation. For code-region
/// addresses the inner round trip is the identity; for stack-region
/// addresses it lands on the code-region alias of the stack backing (the
/// backing lies inside RAM), and that alias translates back to the same
/// physical address.
pub proof fn lemma_translation_round_trip(l: MemoryLayout, a: int)
    requires
        l.wf(),
        a >= l.virtual_stack_start,
    ensures
        spec_virt_to_phys(l, spec_phys_to_virt(l, spec_virt_to_phys(l, a))) == spec_virt_to_phys(
            l,
            a,
        ),
        a >= l.virtual_code_start ==> spec_phys_to_virt(l, spec_virt_to_phys(l, a)) == a,
{
}

} // verus!
