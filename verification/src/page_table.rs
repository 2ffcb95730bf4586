//! Page tables and their bit-level entry encoding.
//!
//! One table is 512 entries of 64 bits each. An entry carries a physical
//! page number in bits [63:10], a "static storage" marker in bit 9, a
//! "data" marker in bit 8, and a flag byte in bits [7:0] with VALID as bit
//! 0. An entry with VALID clear is logically empty regardless of its other
//! bits; a valid entry is a leaf exactly when any of READ, WRITE or
//! EXECUTE is set, and otherwise points at the next table level.
//!
//! Mutation is single-assignment: [`PageTable::set`] refuses to overwrite
//! a slot that is already valid, because silently replacing a translation
//! is a correctness hazard, not a normal update.

use vstd::prelude::*;

use crate::memory::{
    spec_virt_to_phys, virt_translatable, virt_to_phys_addr, MemoryLayout, VirtAddr,
    PHYSICAL_STACK_START, RAM_START, RAM_VIRTUAL_START,
};

verus! {

/// Log2 of the hardware page size.
pub const PAGE_SHIFT: u64 = 12;

pub const PTE_VALID: u8 = 0x01;
pub const PTE_READ: u8 = 0x02;
pub const PTE_WRITE: u8 = 0x04;
pub const PTE_EXECUTE: u8 = 0x08;
pub const PTE_USER: u8 = 0x10;
pub const PTE_GLOBAL: u8 = 0x20;
pub const PTE_ACCESSED: u8 = 0x40;
pub const PTE_DIRTY: u8 = 0x80;

/// Marker (bit 9, outside the hardware flag byte) for entries whose
/// backing storage was reserved at link time rather than obtained from a
/// runtime allocator; such entries must never be mistaken for
/// dynamically-owned mappings later.
pub const STATIC_ALLOC: u64 = 0x200;

/// Why a slot could not be assigned: it already held a leaf mapping, or it
/// already pointed at an intermediate table. Distinguished for diagnostic
/// clarity only; during initialization either one is fatal to the caller.
#[derive(Debug, Clone, Copy, PartialEq, Eq, Structural)]
pub enum PtError {
    AlreadyMappedLeaf,
    AlreadyMappedIntermediate,
}

/// The physical page number of an entry: bits [63:10].
pub open spec fn spec_ppn(e: u64) -> u64 {
    e >> 10
}

/// The data marker of an entry: bit 8.
pub open spec fn spec_data(e: u64) -> bool {
    (e >> 8) & 1 == 1
}

/// The flag byte of an entry: bits [7:0].
pub open spec fn spec_flags(e: u64) -> u8 {
    (e & 0xff) as u8
}

/// An entry exists only if its VALID bit is set.
pub open spec fn spec_valid(e: u64) -> bool {
    e & 1 == 1
}

/// An entry is a leaf exactly when any of READ, WRITE or EXECUTE is set.
pub open spec fn spec_leaf(e: u64) -> bool {
    e & 0xe != 0
}

/// The bit pattern an entry is constructed with. VALID is forced on, so
/// "the entry exists" and "the entry was built" are inseparable.
pub open spec fn spec_encode(ppn: u64, data: bool, flags: u8) -> u64 {
    (ppn << 10) | (if data {
        0x100u64
    } else {
        0u64
    }) | ((flags | PTE_VALID) as u64)
}

/// One translation entry, as the hardware reads it.
pub struct PageTableEntry(u64);

impl View for PageTableEntry {
    type V = u64;

    closed spec fn view(&self) -> u64 {
        self.0
    }
}

impl PageTableEntry {
    /// Build an entry with the data marker clear. VALID is always forced
    /// on, whether or not `flags` included it.
    pub fn new(ppn: u64, flags: u8) -> (e: Self)
        requires
            ppn < 0x40000000000000,
        ensures
            e@ == spec_encode(ppn, false, flags),
            spec_ppn(e@) == ppn,
            spec_data(e@) == false,
            spec_flags(e@) == flags | PTE_VALID,
            spec_valid(e@),
            spec_leaf(e@) == (flags & 0x0e != 0),
    {
        Self::with_data(ppn, false, flags)
    }

    /// Build an entry, choosing the data marker. VALID is always forced
    /// on. The page number must fit its 54-bit field.
    pub fn with_data(ppn: u64, data: bool, flags: u8) -> (e: Self)
        requires
            ppn < 0x40000000000000,
        ensures
            e@ == spec_encode(ppn, data, flags),
            spec_ppn(e@) == ppn,
            spec_data(e@) == data,
            spec_flags(e@) == flags | PTE_VALID,
            spec_valid(e@),
            spec_leaf(e@) == (flags & 0x0e != 0),
    {
        let bits: u64 = ppn << 10 | (data as u64 & 0b1) << 8 | (flags | PTE_VALID) as u64;
        proof {
            lemma_encode_decode(ppn, data, flags);
            assert(ppn << 10 | (data as u64 & 0b1) << 8 | ((flags | PTE_VALID) as u64)
                == spec_encode(ppn, data, flags)) by (bit_vector);
        }
        PageTableEntry(bits)
    }

    pub fn ppn(&self) -> (r: u64)
        ensures
            r == spec_ppn(self@),
    {
        self.0 >> 10
    }

    pub fn data(&self) -> (r: bool)
        ensures
            r == spec_data(self@),
    {
        self.0 >> 8 & 0b1 == 1
    }

    pub fn flags(&self) -> (r: u8)
        ensures
            r == spec_flags(self@),
    {
        (self.0 & 0xff) as u8
    }

    /// The raw 64-bit pattern.
    pub fn bits(&self) -> (r: u64)
        ensures
            r == self@,
    {
        self.0
    }
}

/// A table as it comes out of link-time (or fresh) storage: every slot is
/// all-zero, except that the first slot of a statically reserved table
/// carries the storage marker. In particular no slot is valid and no slot
/// has any permission bit set.
pub open spec fn fresh_table(t: Seq<u64>) -> bool {
    &&& t.len() == 512
    &&& forall|i: int| 0 <= i < 512 ==> t[i] == 0 || t[i] == STATIC_ALLOC
}

/// One level of the translation radix tree: 512 contiguous entries,
/// indexed by one 9-bit slice of the virtual page number.
pub struct PageTable {
    entries: Vec<PageTableEntry>,
}

impl View for PageTable {
    type V = Seq<u64>;

    closed spec fn view(&self) -> Seq<u64> {
        self.entries@.map_values(|e: PageTableEntry| e@)
    }
}

impl PageTable {
    /// A fresh table: every slot decodes as invalid.
    pub fn new() -> (t: Self)
        ensures
            t@.len() == 512,
            forall|i: int| 0 <= i < 512 ==> t@[i] == 0,
            forall|i: int| 0 <= i < 512 ==> !spec_valid(t@[i]) && !spec_leaf(t@[i]),
            fresh_table(t@),
    {
        let mut entries: Vec<PageTableEntry> = Vec::new();
        let mut i: usize = 0;
        while i < 512
            invariant
                i <= 512,
                entries@.len() == i,
                forall|j: int| 0 <= j < i ==> entries@[j]@ == 0,
            decreases 512 - i,
        {
            entries.push(PageTableEntry(0));
            i += 1;
        }
        let t = PageTable { entries };
        proof {
            assert(!spec_valid(0) && !spec_leaf(0)) by (bit_vector);
        }
        t
    }

    /// A fresh table in statically reserved storage: every slot decodes as
    /// invalid, and the first slot carries the storage marker that
    /// protects the table from ever being handed back to an allocator.
    pub fn new_static() -> (t: Self)
        ensures
            t@.len() == 512,
            t@[0] == STATIC_ALLOC,
            forall|i: int| 1 <= i < 512 ==> t@[i] == 0,
            forall|i: int| 0 <= i < 512 ==> !spec_valid(t@[i]) && !spec_leaf(t@[i]),
            fresh_table(t@),
    {
        let mut t = Self::new();
        let ghost before = t@;
        t.entries[0] = PageTableEntry(STATIC_ALLOC);
        proof {
            assert(t@ =~= before.update(0, STATIC_ALLOC));
            assert(!spec_valid(STATIC_ALLOC) && !spec_leaf(STATIC_ALLOC)) by (bit_vector);
        }
        t
    }

    pub fn index(&self, idx: u16) -> (e: &PageTableEntry)
        requires
            idx < 512,
            self@.len() == 512,
        ensures
            e@ == self@[idx as int],
    {
        &self.entries[idx as usize]
    }

    /// This table's own physical frame number, computed from the virtual
    /// address its storage lives at; a parent level points at a child
    /// level through this number.
    pub fn ppn(&self, table_addr: VirtAddr, layout: &MemoryLayout) -> (r: u64)
        requires
            layout.wf(),
            virt_translatable(*layout, table_addr@ as int),
        ensures
            r == spec_table_ppn(*layout, table_addr@),
    {
        virt_to_phys_addr(table_addr.as_u64(), layout) >> PAGE_SHIFT
    }

    /// Single-assignment update. A slot that is already valid is never
    /// overwritten: the call fails and reports whether the occupant is a
    /// leaf or an intermediate pointer, and the table is unchanged. Into a
    /// still-empty slot the new entry's bits are merged, which preserves
    /// the out-of-band storage marker the slot may carry.
    pub fn set(&mut self, idx: u16, value: PageTableEntry) -> (r: Result<(), PtError>)
        requires
            idx < 512,
            old(self)@.len() == 512,
        ensures
            final(self)@.len() == 512,
            match spec_set(old(self)@, idx as int, value@) {
                Ok(t) => r == Ok::<(), PtError>(()) && final(self)@ == t,
                Err(e) => r == Err::<(), PtError>(e) && final(self)@ == old(self)@,
            },
    {
        proof {
            let slot = old(self)@[idx as int];
            assert((((slot & 0xff) as u8) & 0x01 != 0) == (slot & 1 == 1)) by (bit_vector);
            assert((slot >> 1 & 0b111 == 0) == !(slot & 0xe != 0)) by (bit_vector);
        }
        if self.index(idx).flags() & PTE_VALID != 0 {
            return Err(
                if self.index(idx).bits() >> 1 & 0b111 == 0 {
                    PtError::AlreadyMappedIntermediate
                } else {
                    PtError::AlreadyMappedLeaf
                },
            );
        }
        let merged = PageTableEntry(self.index(idx).bits() | value.bits());
        self.entries[idx as usize] = merged;
        proof {
            assert(self@ =~= old(self)@.update(idx as int, old(self)@[idx as int] | value@));
        }
        Ok(())
    }
}

impl PageTable {
    /// The indices of the valid slots, in increasing order: the entries
    /// that exist as far as the hardware is concerned. Invalid slots are
    /// noise, not structure, so an enumeration of the table lists only
    /// these.
    pub fn valid_indices(&self) -> (r: Vec<u16>)
        requires
            self@.len() == 512,
        ensures
            forall|k: u16| k < 512 ==> (r@.contains(k) <==> spec_valid(self@[k as int])),
            forall|a: int, b: int| 0 <= a < b < r@.len() ==> r@[a] < r@[b],
            forall|a: int| 0 <= a < r@.len() ==> r@[a] < 512,
    {
        let mut r: Vec<u16> = Vec::new();
        let mut i: u16 = 0;
        while i < 512
            invariant
                i <= 512,
                self@.len() == 512,
                forall|k: u16| k < i ==> (r@.contains(k) <==> spec_valid(self@[k as int])),
                forall|a: int, b: int| 0 <= a < b < r@.len() ==> r@[a] < r@[b],
                forall|a: int| 0 <= a < r@.len() ==> r@[a] < i,
            decreases 512 - i,
        {
            proof {
                let slot = self@[i as int];
                assert((((slot & 0xff) as u8) & 0x01 != 0) == (slot & 1 == 1)) by (bit_vector);
            }
            if self.index(i).flags() & PTE_VALID != 0 {
                let ghost prev = r@;
                r.push(i);
                proof {
                    assert forall|k: u16| k < i + 1 implies (r@.contains(k) <==> spec_valid(
                        self@[k as int],
                    )) by {
                        if k == i {
                            assert(r@[r@.len() - 1] == k);
                        } else {
                            if prev.contains(k) {
                                let j = choose|j: int| 0 <= j < prev.len() && prev[j] == k;
                                assert(r@[j] == k);
                            }
                            if r@.contains(k) {
                                let j = choose|j: int| 0 <= j < r@.len() && r@[j] == k;
                                assert(j < prev.len() && prev[j] == k);
                            }
                        }
                    }
                }
            }
            i += 1;
        }
        r
    }
}

/// The frame number of the table whose storage sits at the given virtual
/// address.
pub open spec fn spec_table_ppn(l: MemoryLayout, addr: u64) -> u64 {
    (spec_virt_to_phys(l, addr as int) as u64) >> PAGE_SHIFT
}

/// What [`PageTable::set`] does to a table, at the model level: the
/// updated table, or the error that classifies the occupant of a slot
/// that was already valid.
pub open spec fn spec_set(t: Seq<u64>, idx: int, v: u64) -> Result<Seq<u64>, PtError> {
    if spec_valid(t[idx]) {
        Err(
            if spec_leaf(t[idx]) {
                PtError::AlreadyMappedLeaf
            } else {
                PtError::AlreadyMappedIntermediate
            },
        )
    } else {
        Ok(t.update(idx, t[idx] | v))
    }
}

/// The single-assignment law. Assigning a valid entry to a still-empty
/// slot succeeds; assigning to the same slot a second time fails, the
/// failure kind classifies the first entry (leaf flags present or
/// absent), and — by [`spec_set`] returning the error without a table —
/// the table keeps the bit pattern the first assignment gave it.
pub proof fn lemma_set_single_assignment(t: Seq<u64>, idx: int, first: u64, second: u64)
    requires
        t.len() == 512,
        0 <= idx < 512,
        !spec_valid(t[idx]),
        !spec_leaf(t[idx]),
        spec_valid(first),
    ensures
        spec_set(t, idx, first) is Ok,
        spec_set(spec_set(t, idx, first)->Ok_0, idx, second) == Err::<Seq<u64>, PtError>(
            if spec_leaf(first) {
                PtError::AlreadyMappedLeaf
            } else {
                PtError::AlreadyMappedIntermediate
            },
        ),
{
    let slot = t[idx];
    assert(slot & 1 != 1 && slot & 0xe == 0 && first & 1 == 1 ==> ((slot | first) & 1 == 1 && ((
    slot | first) & 0xe != 0) == (first & 0xe != 0))) by (bit_vector);
}

/// One 9-bit slice of a virtual address: the index into the table at the
/// given level. Level 3 is the root stride; level 0 would be the 4 KiB
/// page itself.
pub open spec fn spec_vpn(addr: u64, level: u8) -> u16 {
    ((addr >> ((12 + 9 * level) as u64)) & 0x1ff) as u16
}

/// The table index the address selects at the given level.
pub fn vpn(addr: u64, level: u8) -> (r: u16)
    requires
        level <= 5,
    ensures
        r == spec_vpn(addr, level),
        r < 512,
{
    let shift: u64 = 12 + 9 * (level as u64);
    let r = ((addr >> shift) & 0x1ff) as u16;
    proof {
        let sh = shift;
        assert((((addr >> sh) & 0x1ff) as u16) < 512) by (bit_vector);
    }
    r
}

/// The top-level table: the one the hardware translation-control register
/// is pointed at. Exactly one exists for the kernel's lifetime, behind
/// [`RootTableLock`].
pub struct RootPageTable {
    table: PageTable,
}

impl View for RootPageTable {
    type V = Seq<u64>;

    closed spec fn view(&self) -> Seq<u64> {
        self.table@
    }
}

impl RootPageTable {
    /// A fresh root table in statically reserved storage; every slot
    /// decodes as invalid.
    pub fn new_static() -> (t: Self)
        ensures
            t@.len() == 512,
            t@[0] == STATIC_ALLOC,
            forall|i: int| 1 <= i < 512 ==> t@[i] == 0,
            forall|i: int| 0 <= i < 512 ==> !spec_valid(t@[i]) && !spec_leaf(t@[i]),
            fresh_table(t@),
    {
        RootPageTable { table: PageTable::new_static() }
    }

    pub fn index(&self, idx: u16) -> (e: &PageTableEntry)
        requires
            idx < 512,
            self@.len() == 512,
        ensures
            e@ == self@[idx as int],
    {
        self.table.index(idx)
    }

    /// The root table's own physical frame number; this is what gets
    /// loaded, with the mode selector, into the translation-control
    /// register.
    pub fn ppn(&self, table_addr: VirtAddr, layout: &MemoryLayout) -> (r: u64)
        requires
            layout.wf(),
            virt_translatable(*layout, table_addr@ as int),
        ensures
            r == spec_table_ppn(*layout, table_addr@),
    {
        self.table.ppn(table_addr, layout)
    }

    /// Single-assignment update of a root slot; see [`PageTable::set`].
    pub fn set(&mut self, idx: u16, value: PageTableEntry) -> (r: Result<(), PtError>)
        requires
            idx < 512,
            old(self)@.len() == 512,
        ensures
            final(self)@.len() == 512,
            match spec_set(old(self)@, idx as int, value@) {
                Ok(t) => r == Ok::<(), PtError>(()) && final(self)@ == t,
                Err(e) => r == Err::<(), PtError>(e) && final(self)@ == old(self)@,
            },
    {
        self.table.set(idx, value)
    }

    /// The indices of the valid root slots, in increasing order; see
    /// [`PageTable::valid_indices`].
    pub fn valid_indices(&self) -> (r: Vec<u16>)
        requires
            self@.len() == 512,
        ensures
            forall|k: u16| k < 512 ==> (r@.contains(k) <==> spec_valid(self@[k as int])),
            forall|a: int, b: int| 0 <= a < b < r@.len() ==> r@[a] < r@[b],
            forall|a: int| 0 <= a < r@.len() ==> r@[a] < 512,
    {
        self.table.valid_indices()
    }
}

/// Decoding gives back exactly what construction put in.
pub proof fn lemma_encode_decode(ppn: u64, data: bool, flags: u8)
    requires
        ppn < 0x40000000000000,
    ensures
        spec_ppn(spec_encode(ppn, data, flags)) == ppn,
        spec_data(spec_encode(ppn, data, flags)) == data,
        spec_flags(spec_encode(ppn, data, flags)) == flags | PTE_VALID,
        spec_valid(spec_encode(ppn, data, flags)),
        spec_leaf(spec_encode(ppn, data, flags)) == (flags & 0x0e != 0),
{
    assert(ppn < 0x40000000000000 ==> (spec_encode(ppn, data, flags) >> 10 == ppn
        && ((spec_encode(ppn, data, flags) >> 8) & 1 == 1) == data && (spec_encode(ppn, data, flags)
        & 0xff) as u8 == (flags | 1) && spec_encode(ppn, data, flags) & 1 == 1 && (spec_encode(
        ppn,
        data,
        flags,
    ) & 0xe != 0) == (flags & 0x0e != 0))) by (bit_vector);
}

/// Merging an entry into a still-empty slot (all-zero, or carrying only
/// the static-storage marker in bit 9) leaves the entry's whole decoding
/// unchanged: the marker sits outside the page number, the data bit and
/// the flag byte.
pub proof fn lemma_merge_into_fresh(slot: u64, e: u64)
    requires
        slot == 0 || slot == STATIC_ALLOC,
    ensures
        spec_valid(slot | e) == spec_valid(e),
        spec_leaf(slot | e) == spec_leaf(e),
        spec_ppn(slot | e) == spec_ppn(e),
        spec_flags(slot | e) == spec_flags(e),
        spec_data(slot | e) == spec_data(e),
{
    assert(slot == 0 || slot == 0x200 ==> (((slot | e) & 1 == 1) == (e & 1 == 1) && ((slot | e)
        & 0xe != 0) == (e & 0xe != 0) && (slot | e) >> 10 == e >> 10 && ((slot | e) & 0xff) as u8
        == (e & 0xff) as u8 && (((slot | e) >> 8) & 1 == 1) == ((e >> 8) & 1 == 1))) by (bit_vector);
}

/// The mutual-exclusion guard around the root table, so that concurrent
/// mapping changes serialize in a future multi-hart extension; on the
/// current single-hart boot path it degrades to a no-contention lock.
/// The spin lock itself comes from an outside crate and is held in a
/// field this library does not look into; everything the contracts say
/// about it goes through [`lock_contents`].
#[verifier::external_body]
pub struct RootTableLock {
    inner: spinning_top::Spinlock<RootPageTable>,
}

/// The table a [`RootTableLock`] currently guards.
pub uninterp spec fn lock_contents(l: RootTableLock) -> Seq<u64>;

impl RootTableLock {
    /// Relies on spinning_top::Spinlock::new: the new lock guards exactly
    /// the value it was built from.
    #[verifier::external_body]
    pub fn new(table: RootPageTable) -> (l: Self)
        ensures
            lock_contents(l) == table@,
    {
        RootTableLock { inner: spinning_top::Spinlock::new(table) }
    }

    /// Relies on spinning_top::Spinlock::lock and core::mem::replace: the
    /// lock is acquired, the guarded table exchanged for the given one,
    /// and the lock released. Exclusive access to the lock value means no
    /// guard is outstanding, so the acquisition cannot spin forever.
    #[verifier::external_body]
    pub fn swap(&mut self, table: RootPageTable) -> (prev: RootPageTable)
        ensures
            lock_contents(*final(self)) == table@,
            prev@ == lock_contents(*old(self)),
    {
        core::mem::replace(&mut *self.inner.lock(), table)
    }

    /// Relies on lock_api::Mutex::into_inner: consuming the lock hands
    /// back the guarded table.
    #[verifier::external_body]
    pub fn into_inner(self) -> (t: RootPageTable)
        ensures
            t@ == lock_contents(self),
    {
        self.inner.into_inner()
    }

    /// Single-assignment update of a root slot, performed while the lock
    /// is held; see [`PageTable::set`]. This is the only way a root slot
    /// changes after activation.
    pub fn set(&mut self, idx: u16, value: PageTableEntry) -> (r: Result<(), PtError>)
        requires
            idx < 512,
            lock_contents(*old(self)).len() == 512,
        ensures
            match spec_set(lock_contents(*old(self)), idx as int, value@) {
                Ok(t) => r == Ok::<(), PtError>(()) && lock_contents(*final(self)) == t,
                Err(e) => r == Err::<(), PtError>(e) && lock_contents(*final(self))
                    == lock_contents(*old(self)),
            },
    {
        // a fresh table stands in while the guarded one is worked on
        let mut table = self.swap(RootPageTable::new_static());
        let r = table.set(idx, value);
        let _stand_in = self.swap(table);
        r
    }
}

/// The initializer found the static layout assumptions violated before
/// touching any table: the code and stack regions do not share a
/// top-level slot. Only one statically reserved second-level table
/// exists, so it could not represent both regions, and activation must
/// not happen.
#[derive(Debug, Clone, Copy, PartialEq, Eq, Structural)]
pub enum InitError {
    TopLevelMismatch,
}

/// The addressing-mode selector written, together with the root frame
/// number, into the translation-control register.
pub const SATP_MODE: u64 = 9;

/// The translation-control register value that activates the given root
/// table.
pub open spec fn spec_satp(root_ppn: u64) -> u64 {
    (SATP_MODE << 60) | root_ppn
}

/// Witness that the one-way transition from untranslated to translated
/// execution has been prepared: it carries the exact value for the
/// translation-control register, and only [`init`] constructs one.
/// Writing that value to the register is the irreversible step and is
/// hardware glue outside this library.
pub struct Activation {
    satp: u64,
}

impl View for Activation {
    type V = u64;

    closed spec fn view(&self) -> u64 {
        self.satp
    }
}

impl Activation {
    /// The value to load into the translation-control register.
    pub fn satp(&self) -> (r: u64)
        ensures
            r == self@,
    {
        self.satp
    }
}

/// A frame number obtained by dropping the page-offset bits always fits
/// the 54-bit field of an entry.
proof fn lemma_frame_number_fits(x: u64)
    by (bit_vector)
    ensures
        x >> 12 < 0x40000000000000,
{
}

/// The one-time algorithm that builds and hands over the kernel's address
/// translation. In the root table (behind its lock) it installs an
/// intermediate entry wiring the shared code/stack top-level slot to the
/// second-level table `high`, and a large leaf entry that maps the direct
/// physical-memory window at offset zero. In `high` it installs a
/// read+write+execute leaf covering the kernel image from the RAM base,
/// and an intermediate entry wiring the stack slot to `stack`; in
/// `stack`, a read+write leaf over the physical stack backing.
///
/// The code and stack regions must share one top-level slot, because only
/// one statically reserved second-level table exists. If they do not, the
/// initializer reports the mismatch before touching any table, and no
/// activation value exists — the translation-control register stays
/// unwritten. On success the returned [`Activation`] carries the exact
/// register value for the root table; writing it to the hardware is the
/// caller's one irreversible step.
pub fn init(
    root: &mut RootTableLock,
    high: &mut PageTable,
    stack: &mut PageTable,
    root_addr: VirtAddr,
    high_addr: VirtAddr,
    stack_addr: VirtAddr,
    layout: &MemoryLayout,
) -> (r: Result<Activation, InitError>)
    requires
        layout.wf(),
        virt_translatable(*layout, root_addr@ as int),
        virt_translatable(*layout, high_addr@ as int),
        virt_translatable(*layout, stack_addr@ as int),
        fresh_table(lock_contents(*old(root))),
        fresh_table(old(high)@),
        fresh_table(old(stack)@),
        spec_vpn(layout.virtual_code_start, 3) != spec_vpn(RAM_VIRTUAL_START, 3),
        spec_vpn(layout.virtual_code_start, 2) != spec_vpn(layout.virtual_stack_start, 2),
    ensures
        r is Err <==> spec_vpn(layout.virtual_code_start, 3) != spec_vpn(
            layout.virtual_stack_start,
            3,
        ),
        r is Err ==> {
            &&& r == Err::<Activation, InitError>(InitError::TopLevelMismatch)
            &&& lock_contents(*final(root)) == lock_contents(*old(root))
            &&& final(high)@ == old(high)@
            &&& final(stack)@ == old(stack)@
        },
        r is Ok ==> ({
            let c = lock_contents(*final(root));
            let h = final(high)@;
            let s = final(stack)@;
            let i_code3 = spec_vpn(layout.virtual_code_start, 3) as int;
            let i_win3 = spec_vpn(RAM_VIRTUAL_START, 3) as int;
            let i_code2 = spec_vpn(layout.virtual_code_start, 2) as int;
            let i_stack2 = spec_vpn(layout.virtual_stack_start, 2) as int;
            let i_stack1 = spec_vpn(layout.virtual_stack_start, 1) as int;
            &&& c.len() == 512 && h.len() == 512 && s.len() == 512
            // the root decodes exactly two valid entries: the shared
            // code/stack slot and the physical-window slot
            &&& forall|i: int|
                0 <= i < 512 ==> (spec_valid(c[i]) <==> (i == i_code3 || i == i_win3))
            &&& !spec_leaf(c[i_code3]) && spec_ppn(c[i_code3]) == spec_table_ppn(
                *layout,
                high_addr@,
            )
            &&& spec_leaf(c[i_win3]) && spec_ppn(c[i_win3]) == 0
            &&& spec_flags(c[i_win3]) == PTE_READ | PTE_WRITE | PTE_VALID
            // the second level: the code-region leaf and the pointer to
            // the stack-region table
            &&& forall|i: int|
                0 <= i < 512 ==> (spec_valid(h[i]) <==> (i == i_code2 || i == i_stack2))
            &&& spec_leaf(h[i_code2]) && spec_ppn(h[i_code2]) == RAM_START >> PAGE_SHIFT
            &&& spec_flags(h[i_code2]) == PTE_EXECUTE | PTE_READ | PTE_WRITE | PTE_VALID
            &&& !spec_leaf(h[i_stack2]) && spec_ppn(h[i_stack2]) == spec_table_ppn(
                *layout,
                stack_addr@,
            )
            // the third level: the stack leaf alone
            &&& forall|i: int| 0 <= i < 512 ==> (spec_valid(s[i]) <==> i == i_stack1)
            &&& spec_leaf(s[i_stack1]) && spec_ppn(s[i_stack1]) == PHYSICAL_STACK_START
                >> PAGE_SHIFT
            &&& spec_flags(s[i_stack1]) == PTE_READ | PTE_WRITE | PTE_VALID
            // the register value that would activate this root table
            &&& r->Ok_0@ == spec_satp(spec_table_ppn(*layout, root_addr@))
        }),
{
    let i_code3 = vpn(layout.virtual_code_start, 3);
    let i_stack3 = vpn(layout.virtual_stack_start, 3);
    if i_code3 != i_stack3 {
        return Err(InitError::TopLevelMismatch);
    }
    let i_win3 = vpn(RAM_VIRTUAL_START, 3);
    let i_code2 = vpn(layout.virtual_code_start, 2);
    let i_stack2 = vpn(layout.virtual_stack_start, 2);
    let i_stack1 = vpn(layout.virtual_stack_start, 1);

    let mut root_pt = root.swap(RootPageTable::new_static());
    let ghost c0 = root_pt@;

    let high_ppn = high.ppn(high_addr, layout);
    let stack_ppn = stack.ppn(stack_addr, layout);
    let root_ppn = root_pt.ppn(root_addr, layout);
    proof {
        lemma_frame_number_fits(spec_virt_to_phys(*layout, high_addr@ as int) as u64);
        lemma_frame_number_fits(spec_virt_to_phys(*layout, stack_addr@ as int) as u64);
        lemma_frame_number_fits(RAM_START);
        lemma_frame_number_fits(PHYSICAL_STACK_START);
        assert(!spec_valid(0u64) && !spec_leaf(0u64) && !spec_valid(0x200u64) && !spec_leaf(
            0x200u64,
        )) by (bit_vector);
    }

    // wire the shared code/stack slot to the second level
    let e_high = PageTableEntry::new(high_ppn, PTE_VALID);
    proof {
        assert(0x01u8 & 0x0e == 0) by (bit_vector);
        lemma_merge_into_fresh(c0[i_code3 as int], e_high@);
    }
    let r1 = root_pt.set(i_code3, e_high);
    assert(r1 is Ok);
    let ghost c1 = root_pt@;

    // map the physical window: a large leaf at offset zero
    let e_window = PageTableEntry::new(0, PTE_READ | PTE_WRITE);
    proof {
        assert((0x02u8 | 0x04) & 0x0e != 0) by (bit_vector);
        lemma_merge_into_fresh(c1[i_win3 as int], e_window@);
    }
    let r2 = root_pt.set(i_win3, e_window);
    assert(r2 is Ok);

    // the code-region leaf: read+write+execute over the kernel image
    let e_code = PageTableEntry::new(RAM_START >> PAGE_SHIFT, PTE_EXECUTE | PTE_READ | PTE_WRITE);
    proof {
        assert((0x08u8 | 0x02 | 0x04) & 0x0e != 0) by (bit_vector);
        lemma_merge_into_fresh(old(high)@[i_code2 as int], e_code@);
    }
    let r3 = high.set(i_code2, e_code);
    assert(r3 is Ok);
    let ghost h1 = high@;

    // wire the stack slot of the second level to the third
    let e_stack_ptr = PageTableEntry::new(stack_ppn, 0);
    proof {
        assert(0x00u8 & 0x0e == 0) by (bit_vector);
        lemma_merge_into_fresh(h1[i_stack2 as int], e_stack_ptr@);
    }
    let r4 = high.set(i_stack2, e_stack_ptr);
    assert(r4 is Ok);

    // the stack leaf: read+write over the physical stack backing
    let e_stack = PageTableEntry::new(PHYSICAL_STACK_START >> PAGE_SHIFT, PTE_READ | PTE_WRITE);
    proof {
        lemma_merge_into_fresh(old(stack)@[i_stack1 as int], e_stack@);
    }
    let r5 = stack.set(i_stack1, e_stack);
    assert(r5 is Ok);

    let satp = SATP_MODE << 60 | root_ppn;
    let _previous = root.swap(root_pt);

    proof {
        let c = lock_contents(*final(root));
        assert forall|i: int|
            0 <= i < 512 implies (spec_valid(c[i]) <==> (i == i_code3 as int
            || i == i_win3 as int)) by {
            if i != i_code3 as int && i != i_win3 as int {
                assert(c[i] == c0[i]);
            }
        }
        let h = final(high)@;
        assert forall|i: int|
            0 <= i < 512 implies (spec_valid(h[i]) <==> (i == i_code2 as int
            || i == i_stack2 as int)) by {
            if i != i_code2 as int && i != i_stack2 as int {
                assert(h[i] == old(high)@[i]);
            }
        }
        let s = final(stack)@;
        assert forall|i: int| 0 <= i < 512 implies (spec_valid(s[i]) <==> i
            == i_stack1 as int) by {
            if i != i_stack1 as int {
                assert(s[i] == old(stack)@[i]);
            }
        }
    }

    Ok(Activation { satp })
}

} // verus!

