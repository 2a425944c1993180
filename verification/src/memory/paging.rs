//! Page-table entries, tables and the 4-level walker.
//!
//! An entry is a 64-bit word: bits 0..11 and bit 63 are flags, bits 12..51
//! hold the physical address of a frame. A table is 512 entries. The tables of
//! one address space live in a [`FrameStore`], an arena in which the table that
//! backs a physical frame is found by the frame's address.

use super::address::{
    lemma_index_fields, p1_index_of, p2_index_of, p3_index_of, p4_index_of, page_offset_of, Page,
    PhysAddr, PhysFrame, VirtAddr,
};
use vstd::prelude::*;
use vstd::std_specs::ops::BitOrSpecImpl;

verus! {

/// Bit 0: the entry maps something.
pub const PRESENT: u64 = 0x1;

/// Bit 1: writes are allowed.
pub const WRITABLE: u64 = 0x2;

/// Bit 2: user mode may access.
pub const USER_ACCESSIBLE: u64 = 0x4;

/// Bit 3: write-through caching.
pub const WRITE_THROUGH: u64 = 0x8;

/// Bit 4: caching disabled.
pub const NO_CACHE: u64 = 0x10;

/// Bit 5: set by the CPU on access.
pub const ACCESSED: u64 = 0x20;

/// Bit 6: set by the CPU on write.
pub const DIRTY: u64 = 0x40;

/// Bit 7: the entry maps a 2 MiB or 1 GiB page.
pub const HUGE_PAGE: u64 = 0x80;

/// Bit 8: the translation survives a CR3 reload.
pub const GLOBAL: u64 = 0x100;

/// Bit 63: instruction fetches are refused.
pub const NO_EXECUTE: u64 = 0x8000_0000_0000_0000;

/// Every bit that names a flag.
pub const ALL_FLAGS: u64 = 0x8000_0000_0000_01FF;

/// Bits 12..51 of an entry: the frame's physical address.
pub const ADDRESS_MASK: u64 = 0x000F_FFFF_FFFF_F000;

/// A set of page-table flags. Only bits that name a flag can be set.
#[derive(Debug, Clone, Copy, PartialEq, Eq)]
pub struct PageTableFlags {
    bits: u64,
}

impl View for PageTableFlags {
    type V = u64;

    closed spec fn view(&self) -> u64 {
        self.bits
    }
}

/// The facts about flag words that the functions below need.
proof fn lemma_flag_bits(a: u64, b: u64)
    by (bit_vector)
    ensures
        (a & 0x8000_0000_0000_01FFu64) & !0x8000_0000_0000_01FFu64 == 0,
        (a & !0x8000_0000_0000_01FFu64 == 0 && b & !0x8000_0000_0000_01FFu64 == 0) ==> (a | b)
            & !0x8000_0000_0000_01FFu64 == 0,
        a & !0x8000_0000_0000_01FFu64 == 0 ==> a & 0x8000_0000_0000_01FFu64 == a,
        (a | b) & b == b,
        (a | b) & a == a,
        a & 0x000F_FFFF_FFFF_F000u64 <= 0x000F_FFFF_FFFF_F000u64,
        (a & 0x000F_FFFF_FFFF_F000u64) % 4096 == 0,
        (a | 1) != 0,
        (a | 1) & 1 == 1,
        a & 1 == 0 || a & 1 == 1,
{
}

/// Each named flag is one of the bits of `ALL_FLAGS`.
proof fn lemma_flag_constants()
    by (bit_vector)
    ensures
        PRESENT & ALL_FLAGS == PRESENT,
        WRITABLE & ALL_FLAGS == WRITABLE,
        USER_ACCESSIBLE & ALL_FLAGS == USER_ACCESSIBLE,
        WRITE_THROUGH & ALL_FLAGS == WRITE_THROUGH,
        NO_CACHE & ALL_FLAGS == NO_CACHE,
        ACCESSED & ALL_FLAGS == ACCESSED,
        DIRTY & ALL_FLAGS == DIRTY,
        HUGE_PAGE & ALL_FLAGS == HUGE_PAGE,
        GLOBAL & ALL_FLAGS == GLOBAL,
        NO_EXECUTE & ALL_FLAGS == NO_EXECUTE,
{
}

impl PageTableFlags {
    /// Only bits that name a flag are set.
    #[verifier::type_invariant]
    pub open spec fn wf(self) -> bool {
        self@ & !ALL_FLAGS == 0
    }

    /// The flag set with the bits `bits`, as a specification term.
    pub closed spec fn of(bits: u64) -> PageTableFlags {
        PageTableFlags { bits }
    }

    /// `of` is the inverse of the view.
    pub broadcast proof fn lemma_of_view(bits: u64)
        ensures
            (#[trigger] PageTableFlags::of(bits))@ == bits,
    {
    }

    /// Every flag of `other` is in `self`.
    pub open spec fn has_all(self, other: PageTableFlags) -> bool {
        self@ & other@ == other@
    }

    /// The empty set.
    pub fn empty() -> (r: Self)
        ensures
            r@ == 0,
            r.wf(),
    {
        assert(0u64 & !0x8000_0000_0000_01FFu64 == 0) by (bit_vector);
        Self { bits: 0 }
    }

    /// The set of the flags whose bits are set in `bits`; bits that name no
    /// flag are dropped.
    pub fn from_bits_truncate(bits: u64) -> (r: Self)
        ensures
            r@ == bits & ALL_FLAGS,
            r.wf(),
    {
        proof {
            lemma_flag_bits(bits, 0);
        }
        Self { bits: bits & ALL_FLAGS }
    }

    /// The set as a word.
    pub fn bits(&self) -> (r: u64)
        ensures
            r == self@,
            r & !ALL_FLAGS == 0,
    {
        proof {
            use_type_invariant(self);
        }
        self.bits
    }

    /// Whether every flag of `other` is in the set.
    pub fn contains(&self, other: PageTableFlags) -> (r: bool)
        ensures
            r == self.has_all(other),
    {
        self.bits & other.bits == other.bits
    }

    /// PRESENT alone.
    pub fn present() -> (r: Self)
        ensures
            r@ == PRESENT,
    {
        proof {
            lemma_flag_constants();
        }
        Self::from_bits_truncate(PRESENT)
    }

    /// WRITABLE alone.
    pub fn writable() -> (r: Self)
        ensures
            r@ == WRITABLE,
    {
        proof {
            lemma_flag_constants();
        }
        Self::from_bits_truncate(WRITABLE)
    }

    /// USER_ACCESSIBLE alone.
    pub fn user_accessible() -> (r: Self)
        ensures
            r@ == USER_ACCESSIBLE,
    {
        proof {
            lemma_flag_constants();
        }
        Self::from_bits_truncate(USER_ACCESSIBLE)
    }

    /// WRITE_THROUGH alone.
    pub fn write_through() -> (r: Self)
        ensures
            r@ == WRITE_THROUGH,
    {
        proof {
            lemma_flag_constants();
        }
        Self::from_bits_truncate(WRITE_THROUGH)
    }

    /// NO_CACHE alone.
    pub fn no_cache() -> (r: Self)
        ensures
            r@ == NO_CACHE,
    {
        proof {
            lemma_flag_constants();
        }
        Self::from_bits_truncate(NO_CACHE)
    }

    /// ACCESSED alone.
    pub fn accessed() -> (r: Self)
        ensures
            r@ == ACCESSED,
    {
        proof {
            lemma_flag_constants();
        }
        Self::from_bits_truncate(ACCESSED)
    }

    /// DIRTY alone.
    pub fn dirty() -> (r: Self)
        ensures
            r@ == DIRTY,
    {
        proof {
            lemma_flag_constants();
        }
        Self::from_bits_truncate(DIRTY)
    }

    /// HUGE_PAGE alone.
    pub fn huge_page() -> (r: Self)
        ensures
            r@ == HUGE_PAGE,
    {
        proof {
            lemma_flag_constants();
        }
        Self::from_bits_truncate(HUGE_PAGE)
    }

    /// GLOBAL alone.
    pub fn global() -> (r: Self)
        ensures
            r@ == GLOBAL,
    {
        proof {
            lemma_flag_constants();
        }
        Self::from_bits_truncate(GLOBAL)
    }

    /// NO_EXECUTE alone.
    pub fn no_execute() -> (r: Self)
        ensures
            r@ == NO_EXECUTE,
    {
        proof {
            lemma_flag_constants();
        }
        Self::from_bits_truncate(NO_EXECUTE)
    }
}

impl BitOrSpecImpl for PageTableFlags {
    open spec fn obeys_bitor_spec() -> bool {
        true
    }

    open spec fn bitor_req(self, rhs: PageTableFlags) -> bool {
        true
    }

    open spec fn bitor_spec(self, rhs: PageTableFlags) -> PageTableFlags {
        PageTableFlags::of(self@ | rhs@)
    }
}

impl core::ops::BitOr for PageTableFlags {
    type Output = PageTableFlags;

    /// The union of the two sets.
    fn bitor(self, rhs: PageTableFlags) -> PageTableFlags {
        proof {
            use_type_invariant(self);
            use_type_invariant(rhs);
            lemma_flag_bits(self.bits, rhs.bits);
        }
        PageTableFlags { bits: self.bits | rhs.bits }
    }
}

/// One entry of a page table.
#[derive(Debug, Clone, Copy, PartialEq, Eq)]
pub struct PageTableEntry {
    entry: u64,
}

impl View for PageTableEntry {
    type V = u64;

    closed spec fn view(&self) -> u64 {
        self.entry
    }
}

/// The entry word that maps `frame_addr` with `flags`: PRESENT is always set.
pub open spec fn entry_word(frame_addr: u64, flags: u64) -> u64 {
    frame_addr | flags | PRESENT
}

impl PageTableEntry {
    /// The entry with the word `bits`, as a specification term.
    pub closed spec fn of(bits: u64) -> PageTableEntry {
        PageTableEntry { entry: bits }
    }

    /// `of` is the inverse of the view.
    pub broadcast proof fn lemma_of_view(bits: u64)
        ensures
            (#[trigger] PageTableEntry::of(bits))@ == bits,
    {
    }

    /// Two entries with the same word are the same entry.
    pub proof fn lemma_view_injective(a: PageTableEntry, b: PageTableEntry)
        requires
            a@ == b@,
        ensures
            a == b,
    {
    }

    /// The entry is all zeros.
    pub open spec fn unused(self) -> bool {
        self@ == 0
    }

    /// The PRESENT bit is set.
    pub open spec fn is_present(self) -> bool {
        self@ & PRESENT != 0
    }

    /// The physical address in bits 12..51.
    pub open spec fn address(self) -> u64 {
        self@ & ADDRESS_MASK
    }

    /// The frame that the entry maps, if it is present.
    pub open spec fn mapped_frame(self) -> Option<PhysFrame> {
        if self.is_present() {
            Some(PhysFrame::at(self.address()))
        } else {
            None
        }
    }

    /// An unused entry.
    pub fn new() -> (r: Self)
        ensures
            r@ == 0,
            r.unused(),
    {
        Self { entry: 0 }
    }

    /// The entry with the word `bits`, as read from a table in memory.
    pub fn from_bits(bits: u64) -> (r: Self)
        ensures
            r@ == bits,
            r == PageTableEntry::of(bits),
    {
        Self { entry: bits }
    }

    /// The word of the entry, as it stands in a table in memory.
    pub fn bits(&self) -> (r: u64)
        ensures
            r == self@,
    {
        self.entry
    }

    /// Whether the entry is all zeros.
    pub fn is_unused(&self) -> (r: bool)
        ensures
            r == self.unused(),
    {
        self.entry == 0
    }

    /// The flags of the entry: its word without the address bits and
    /// without bits that name no flag.
    pub fn flags(&self) -> (r: PageTableFlags)
        ensures
            r@ == self@ & ALL_FLAGS,
    {
        PageTableFlags::from_bits_truncate(self.entry)
    }

    /// The frame whose address stands in bits 12..51, if PRESENT is set.
    pub fn frame(&self) -> (r: Option<PhysFrame>)
        ensures
            r == self.mapped_frame(),
            r is Some <==> self.is_present(),
            r is Some ==> r.unwrap().start()@ == self.address(),
    {
        proof {
            lemma_flag_bits(self.entry, 0);
            lemma_index_fields(self.entry & ADDRESS_MASK);
            PhysFrame::lemma_at_start(self.address());
        }
        if self.entry & PRESENT != 0 {
            let addr = self.entry & ADDRESS_MASK;
            let frame = PhysFrame::containing_address(PhysAddr::new(addr));
            proof {
                PhysFrame::lemma_start_injective(frame, PhysFrame::at(self.address()));
            }
            Some(frame)
        } else {
            None
        }
    }

    /// Stores `frame` with `flags`. PRESENT is set whether or not `flags`
    /// holds it, so the entry is in use afterwards.
    pub fn set_frame(&mut self, frame: PhysFrame, flags: PageTableFlags)
        ensures
            final(self)@ == entry_word(frame.start()@, flags@),
            !final(self).unused(),
            final(self).is_present(),
    {
        proof {
            lemma_flag_bits(frame.start()@ | flags@, 0);
        }
        self.entry = frame.start_address().as_u64() | flags.bits() | PRESENT;
    }

    /// Clears the entry.
    pub fn set_unused(&mut self)
        ensures
            final(self)@ == 0,
            final(self).unused(),
    {
        self.entry = 0;
    }

    /// Replaces the flags and keeps the address bits.
    pub fn set_flags(&mut self, flags: PageTableFlags)
        ensures
            final(self)@ == old(self).address() | flags@,
    {
        let addr = self.entry & ADDRESS_MASK;
        self.entry = addr | flags.bits();
    }
}

/// After `set_frame(frame, flags)` on any entry, `frame()` gives `frame` back
/// and `flags()` holds PRESENT and every flag of `flags`, provided the frame
/// lies below 2^52, where the address field of an entry ends.
pub proof fn lemma_set_frame_then_frame(frame: PhysFrame, flags: PageTableFlags)
    requires
        frame.wf(),
        flags.wf(),
        frame.start()@ < 0x0010_0000_0000_0000,
    ensures
        PageTableEntry::of(entry_word(frame.start()@, flags@)).mapped_frame() == Some(frame),
        PageTableFlags::of(
            PageTableEntry::of(entry_word(frame.start()@, flags@))@ & ALL_FLAGS,
        ).has_all(PageTableFlags::of(flags@ | PRESENT)),
        !PageTableEntry::of(entry_word(frame.start()@, flags@)).unused(),
{
    let a = frame.start()@;
    let f = flags@;
    lemma_index_fields(a);
    assert(a & 0xFFF == 0);
    assert(((a | f | 1) & 0x000F_FFFF_FFFF_F000u64 == a) && ((a | f | 1) & 1 != 0) && ((a | f | 1)
        != 0) && (((a | f | 1) & 0x8000_0000_0000_01FFu64) & (f | 1) == (f | 1))) by (bit_vector)
        requires
            a & 0xFFF == 0,
            a < 0x0010_0000_0000_0000u64,
            f & !0x8000_0000_0000_01FFu64 == 0,
    ;
    PageTableEntry::lemma_of_view(entry_word(a, f));
    PageTableFlags::lemma_of_view(entry_word(a, f) & ALL_FLAGS);
    PageTableFlags::lemma_of_view(f | PRESENT);
    PhysFrame::lemma_at_start(a);
    PhysFrame::lemma_start_injective(PhysFrame::at(a), frame);
}

/// A page table: 512 entries.
#[derive(Debug)]
pub struct PageTable {
    entries: [PageTableEntry; 512],
}

impl View for PageTable {
    type V = Seq<PageTableEntry>;

    closed spec fn view(&self) -> Seq<PageTableEntry> {
        self.entries@
    }
}

impl vstd::std_specs::core::IndexSpecImpl<usize> for PageTable {
    open spec fn index_req(&self, index: &usize) -> bool {
        *index < 512
    }
}

impl core::ops::Index<usize> for PageTable {
    type Output = PageTableEntry;

    /// The entry at `index`, which is below 512.
    fn index(&self, index: usize) -> (r: &PageTableEntry)
        ensures
            *r == self@[index as int],
    {
        &self.entries[index]
    }
}

impl PageTable {
    /// A table has 512 entries.
    pub proof fn lemma_len(self)
        ensures
            self@.len() == 512,
    {
    }

    /// Every entry is unused.
    pub open spec fn all_unused(self) -> bool {
        forall|i: int| 0 <= i < 512 ==> (#[trigger] self@[i]).unused()
    }

    /// A table whose entries are all unused.
    pub fn new() -> (r: Self)
        ensures
            r@.len() == 512,
            r.all_unused(),
    {
        Self { entries: [PageTableEntry::new();512] }
    }

    /// Clears every entry.
    pub fn zero(&mut self)
        ensures
            final(self).all_unused(),
    {
        let mut i: usize = 0;
        while i < 512
            invariant
                i <= 512,
                forall|j: int| 0 <= j < i ==> (#[trigger] self@[j]).unused(),
            decreases 512 - i,
        {
            let ghost before = self@;
            self.entries[i] = PageTableEntry::new();
            assert(self@ == before.update(i as int, PageTableEntry::of(0)));
            assert forall|j: int| 0 <= j < i + 1 implies (#[trigger] self@[j]).unused() by {
                if j < i {
                    assert(self@[j] == before[j]);
                }
            }
            i += 1;
        }
    }

    /// An iterator over the 512 entries, in order.
    pub fn iter(&self) -> (r: core::slice::Iter<'_, PageTableEntry>)
        ensures
            vstd::std_specs::slice::into_iter_elts(r) == self@,
    {
        let it = self.entries.as_slice().iter();
        it
    }

    /// The entry at `index`.
    pub fn entry(&self, index: usize) -> (r: &PageTableEntry)
        requires
            index < 512,
        ensures
            *r == self@[index as int],
    {
        &self.entries[index]
    }

    /// Exclusive access to the entry at `index`.
    pub fn entry_mut(&mut self, index: usize) -> (r: &mut PageTableEntry)
        requires
            index < 512,
        ensures
            *r == old(self)@[index as int],
            final(self)@ == old(self)@.update(index as int, *final(r)),
    {
        &mut self.entries[index]
    }
}

/// First physical address that no entry can name: the address field of an
/// entry ends at bit 51.
pub const PHYS_ADDR_LIMIT: u64 = 0x0010_0000_0000_0000;

/// The arena that holds the page tables of an address space.
///
/// The tables back consecutive physical frames: the table in slot `i` backs
/// the frame at `base + 4096 * i`. A slot, once handed out, keeps its frame.
#[derive(Debug)]
pub struct FrameStore {
    base: u64,
    tables: Vec<PageTable>,
}

impl FrameStore {
    /// Physical address of the frame that slot 0 backs.
    pub closed spec fn base(self) -> u64 {
        self.base
    }

    /// The tables, by slot.
    pub closed spec fn tables(self) -> Seq<PageTable> {
        self.tables@
    }

    /// The base is frame-aligned and every frame of the arena can be named
    /// by an entry.
    pub open spec fn wf(self) -> bool {
        &&& self.base() % 4096 == 0
        &&& self.tables().len() > 0 ==> self.base() + 4096 * self.tables().len()
            <= PHYS_ADDR_LIMIT
    }

    /// `addr` is the address of a frame that the arena backs.
    pub open spec fn holds(self, addr: u64) -> bool {
        &&& addr % 4096 == 0
        &&& self.base() <= addr
        &&& addr < self.base() + 4096 * self.tables().len()
    }

    /// The slot of the frame at `addr`.
    pub open spec fn slot(self, addr: u64) -> int {
        (addr - self.base()) / 4096
    }

    /// The table that backs the frame at `addr`.
    pub open spec fn table_at(self, addr: u64) -> PageTable {
        self.tables()[self.slot(addr)]
    }

    /// Entry `index` of the table that backs the frame at `addr`.
    pub open spec fn entry(self, addr: u64, index: int) -> PageTableEntry {
        self.table_at(addr)@[index]
    }

    /// `other` backs the same frames as `self`, and its entries are those of
    /// `self` but for entry `index` of the table at `addr`.
    pub open spec fn differs_only_at(self, other: FrameStore, addr: u64, index: int) -> bool {
        &&& other.base() == self.base()
        &&& other.tables().len() == self.tables().len()
        &&& forall|t: u64, i: int|
            self.holds(t) && 0 <= i < 512 && !(t == addr && i == index) ==> #[trigger] other.entry(
                t,
                i,
            ) == self.entry(t, i)
    }

    /// A frame of the arena has a slot below the number of tables.
    pub proof fn lemma_slot_in_range(self, addr: u64)
        requires
            self.wf(),
            self.holds(addr),
        ensures
            0 <= self.slot(addr) < self.tables().len(),
            self.base() + 4096 * self.slot(addr) == addr,
    {
        let b = self.base() as int;
        let a = addr as int;
        let n = self.tables().len() as int;
        assert(0 <= (a - b) / 4096 < n && b + 4096 * ((a - b) / 4096) == a) by (nonlinear_arith)
            requires
                b <= a,
                a < b + 4096 * n,
                (a - b) % 4096 == 0,
        ;
    }

    /// Frames of the arena with the same slot are the same frame.
    pub proof fn lemma_slot_injective(self, a: u64, b: u64)
        requires
            self.wf(),
            self.holds(a),
            self.holds(b),
            self.slot(a) == self.slot(b),
        ensures
            a == b,
    {
        self.lemma_slot_in_range(a);
        self.lemma_slot_in_range(b);
    }

    /// An empty arena whose first slot will back `base`.
    pub fn new(base: PhysFrame) -> (r: Self)
        ensures
            r.base() == base.start()@,
            r.tables().len() == 0,
            r.wf(),
    {
        Self { base: base.start_address().as_u64(), tables: Vec::new() }
    }

    /// The frame that slot 0 backs.
    pub fn base_frame(&self) -> (r: PhysFrame)
        requires
            self.wf(),
        ensures
            r.start()@ == self.base(),
    {
        PhysFrame::from_start_address(PhysAddr::new(self.base))
    }

    /// Number of tables in the arena.
    pub fn len(&self) -> (r: usize)
        ensures
            r == self.tables().len(),
    {
        self.tables.len()
    }

    /// Whether the arena backs `frame`.
    pub fn contains(&self, frame: PhysFrame) -> (r: bool)
        requires
            self.wf(),
        ensures
            r == self.holds(frame.start()@),
    {
        let addr = frame.start_address().as_u64();
        if addr < self.base {
            return false;
        }
        let ghost b = self.base as int;
        let ghost a = addr as int;
        let ghost n = self.tables@.len() as int;
        let slot = (addr - self.base) / 4096;
        proof {
            assert((a < b + 4096 * n) <==> ((a - b) / 4096 < n)) by (nonlinear_arith)
                requires
                    b <= a,
                    n >= 0,
            ;
        }
        slot < self.tables.len() as u64
    }

    /// Adds a table with 512 unused entries and returns the frame that it
    /// backs, the next one after the frames backed so far. Nothing is added
    /// when that frame would end above the physical address limit.
    pub fn add_table(&mut self) -> (r: Option<PhysFrame>)
        requires
            old(self).wf(),
        ensures
            final(self).base() == old(self).base(),
            final(self).wf(),
            match r {
                Some(frame) => {
                    &&& frame.start()@ == old(self).base() + 4096 * old(self).tables().len()
                    &&& final(self).tables().len() == old(self).tables().len() + 1
                    &&& final(self).holds(frame.start()@)
                    &&& final(self).table_at(frame.start()@).all_unused()
                    &&& forall|i: int|
                        0 <= i < old(self).tables().len() ==> final(self).tables()[i] == old(
                            self,
                        ).tables()[i]
                },
                None => {
                    &&& final(self).tables() == old(self).tables()
                    &&& old(self).base() + 4096 * (old(self).tables().len() + 1)
                        > PHYS_ADDR_LIMIT
                },
            },
    {
        let n = self.tables.len();
        if self.base > PHYS_ADDR_LIMIT || n as u64 >= (PHYS_ADDR_LIMIT - self.base) / 4096 {
            proof {
                let b = self.base as int;
                let k = n as int;
                if b <= PHYS_ADDR_LIMIT {
                    assert(b + 4096 * (k + 1) > 0x0010_0000_0000_0000) by (nonlinear_arith)
                        requires
                            k >= (0x0010_0000_0000_0000 - b) / 4096,
                            b % 4096 == 0,
                            0 <= b <= 0x0010_0000_0000_0000,
                    ;
                }
            }
            return None;
        }
        proof {
            let b = self.base as int;
            let k = n as int;
            assert(b + 4096 * (k + 1) <= 0x0010_0000_0000_0000) by (nonlinear_arith)
                requires
                    k < (0x0010_0000_0000_0000 - b) / 4096,
                    0 <= b <= 0x0010_0000_0000_0000,
            ;
        }
        let addr = self.base + 4096 * (n as u64);
        let ghost before = self.tables@;
        self.tables.push(PageTable::new());
        let frame = PhysFrame::from_start_address(PhysAddr::new(addr));
        proof {
            let b = self.base as int;
            let k = n as int;
            assert((b + 4096 * k - b) / 4096 == k) by (nonlinear_arith);
            assert(self.slot(addr) == k);
            assert(self.tables@ == before.push(self.tables@[k]));
        }
        Some(frame)
    }

    /// The table that backs `frame`, if the arena backs it.
    pub fn table(&self, frame: PhysFrame) -> (r: Option<&PageTable>)
        requires
            self.wf(),
        ensures
            r is Some <==> self.holds(frame.start()@),
            r is Some ==> *r.unwrap() == self.table_at(frame.start()@),
    {
        if self.contains(frame) {
            proof {
                self.lemma_slot_in_range(frame.start()@);
            }
            let slot = (frame.start_address().as_u64() - self.base) / 4096;
            let n = self.tables.len();
            assert(slot == self.slot(frame.start()@));
            assert(slot < n);
            Some(&self.tables[slot as usize])
        } else {
            None
        }
    }

    /// Exclusive access to the table that backs `frame`, if the arena backs
    /// it. What is written through the reference is the table afterwards; no
    /// other table changes.
    pub fn table_mut(&mut self, frame: PhysFrame) -> (r: Option<&mut PageTable>)
        requires
            old(self).wf(),
        ensures
            final(self).wf(),
            final(self).base() == old(self).base(),
            final(self).tables().len() == old(self).tables().len(),
            r is Some <==> old(self).holds(frame.start()@),
            r is None ==> final(self).tables() == old(self).tables(),
            r is Some ==> {
                &&& *r.unwrap() == old(self).table_at(frame.start()@)
                &&& final(self).tables() == old(self).tables().update(
                    old(self).slot(frame.start()@),
                    *final(r.unwrap()),
                )
            },
    {
        if self.contains(frame) {
            proof {
                self.lemma_slot_in_range(frame.start()@);
            }
            let slot = (frame.start_address().as_u64() - self.base) / 4096;
            let n = self.tables.len();
            assert(slot == self.slot(frame.start()@));
            assert(slot < n);
            Some(&mut self.tables[slot as usize])
        } else {
            None
        }
    }
}

/// What following one entry of a table leads to.
pub enum Step {
    /// The entry is present and names a frame of the arena: the next table.
    Table(u64),
    /// The entry is all zeros.
    Unused,
    /// The entry is in use but leads to no table: it is not present, or its
    /// frame lies outside the arena.
    Unreachable,
}

/// The level of a table below the root.
#[derive(Debug, Clone, Copy, PartialEq, Eq)]
pub enum TableLevel {
    /// Level 3, found through the root.
    Three,
    /// Level 2.
    Two,
    /// Level 1, whose entries map pages.
    One,
}

/// Where the walk for a virtual address ends.
pub enum Walk {
    /// At the level-1 table that backs the given frame.
    Leaf(u64),
    /// Before the table of the given level, for the given reason.
    Stopped(TableLevel, Step),
}

impl FrameStore {
    /// Follows entry `index` of the table at `table`.
    pub open spec fn step(self, table: u64, index: int) -> Step {
        let e = self.entry(table, index);
        if e.unused() {
            Step::Unused
        } else if e.is_present() && self.holds(e.address()) {
            Step::Table(e.address())
        } else {
            Step::Unreachable
        }
    }

    /// Walks from the root table at `root` down to the level-1 table for the
    /// virtual address `va`.
    pub open spec fn walk(self, root: u64, va: u64) -> Walk {
        match self.step(root, p4_index_of(va)) {
            Step::Table(p3) => match self.step(p3, p3_index_of(va)) {
                Step::Table(p2) => match self.step(p2, p2_index_of(va)) {
                    Step::Table(p1) => Walk::Leaf(p1),
                    s => Walk::Stopped(TableLevel::One, s),
                },
                s => Walk::Stopped(TableLevel::Two, s),
            },
            s => Walk::Stopped(TableLevel::Three, s),
        }
    }
}

/// Why a paging operation failed.
#[derive(Debug, Clone, Copy, PartialEq, Eq)]
pub enum PagingError {
    /// The level-1 entry of the page is already in use.
    PageAlreadyMapped,
    /// The level-1 entry of the page is unused.
    PageNotMapped,
    /// The level-1 entry of the page is in use but not present.
    EntryNotPresent,
    /// The walk found no table of the given level.
    TableNotPresent(TableLevel),
    /// A table would have to be created, and no frame allocator is at hand.
    FrameAllocationUnavailable,
    /// An entry on the way is in use but leads to no table.
    NextTableUnavailable,
}

impl PagingError {
    /// The text of the error.
    pub open spec fn message(self) -> Seq<char> {
        match self {
            PagingError::PageAlreadyMapped => "Page already mapped"@,
            PagingError::PageNotMapped => "Page not mapped"@,
            PagingError::EntryNotPresent => "Entry not present"@,
            PagingError::TableNotPresent(TableLevel::Three) => "P3 table not present"@,
            PagingError::TableNotPresent(TableLevel::Two) => "P2 table not present"@,
            PagingError::TableNotPresent(TableLevel::One) => "P1 table not present"@,
            PagingError::FrameAllocationUnavailable => "Frame allocation not implemented"@,
            PagingError::NextTableUnavailable => "Failed to get next table"@,
        }
    }

    /// The text of the error.
    pub fn as_str(&self) -> (r: &'static str)
        ensures
            r@ == self.message(),
    {
        match self {
            PagingError::PageAlreadyMapped => "Page already mapped",
            PagingError::PageNotMapped => "Page not mapped",
            PagingError::EntryNotPresent => "Entry not present",
            PagingError::TableNotPresent(TableLevel::Three) => "P3 table not present",
            PagingError::TableNotPresent(TableLevel::Two) => "P2 table not present",
            PagingError::TableNotPresent(TableLevel::One) => "P1 table not present",
            PagingError::FrameAllocationUnavailable => "Frame allocation not implemented",
            PagingError::NextTableUnavailable => "Failed to get next table",
        }
    }
}

/// A TLB maintenance operation that the platform has to carry out.
#[derive(Debug, Clone, Copy, PartialEq, Eq)]
pub enum TlbOp {
    /// Invalidate the translation of the page at this address (`invlpg`).
    InvalidatePage(VirtAddr),
    /// Invalidate every non-global translation (reload CR3).
    FlushAll,
}

/// The paging hierarchy of one address space: its tables, the frame of its
/// root table, and the TLB operations that its changes have made necessary
/// and that nobody has collected yet.
#[derive(Debug)]
pub struct PageTableManager {
    frames: FrameStore,
    p4: PhysFrame,
    tlb: Vec<TlbOp>,
}

impl PageTableManager {
    /// The arena of tables.
    pub closed spec fn frames(self) -> FrameStore {
        self.frames
    }

    /// Physical address of the root (level-4) table.
    pub closed spec fn root(self) -> u64 {
        self.p4.start()@
    }

    /// The TLB operations not yet collected, oldest first.
    pub closed spec fn tlb_ops(self) -> Seq<TlbOp> {
        self.tlb@
    }

    /// The arena is well formed and backs the root table.
    pub open spec fn wf(self) -> bool {
        &&& self.frames().wf()
        &&& self.frames().holds(self.root())
    }

    /// Where the walk for `va` ends.
    pub open spec fn walk(self, va: u64) -> Walk {
        self.frames().walk(self.root(), va)
    }

    /// The level-1 entry for `va`, where the walk reaches level 1.
    pub open spec fn leaf(self, va: u64) -> PageTableEntry
        recommends
            self.walk(va) is Leaf,
    {
        self.frames().entry(self.walk(va)->Leaf_0, p1_index_of(va))
    }

    /// What `map_page` answers for the page at `va`.
    pub open spec fn map_outcome(self, va: u64) -> Result<(), PagingError> {
        match self.walk(va) {
            Walk::Stopped(_, Step::Unused) => Err(PagingError::FrameAllocationUnavailable),
            Walk::Stopped(_, _) => Err(PagingError::NextTableUnavailable),
            Walk::Leaf(_) => if self.leaf(va).unused() {
                Ok(())
            } else {
                Err(PagingError::PageAlreadyMapped)
            },
        }
    }

    /// What `unmap_page` answers for the page at `va`.
    pub open spec fn unmap_outcome(self, va: u64) -> Result<PhysFrame, PagingError> {
        match self.walk(va) {
            Walk::Stopped(level, _) => Err(PagingError::TableNotPresent(level)),
            Walk::Leaf(_) => if self.leaf(va).unused() {
                Err(PagingError::PageNotMapped)
            } else if !self.leaf(va).is_present() {
                Err(PagingError::EntryNotPresent)
            } else {
                Ok(PhysFrame::at(self.leaf(va).address()))
            },
        }
    }

    /// The physical address that `va` translates to.
    pub open spec fn translation(self, va: u64) -> Option<u64> {
        match self.walk(va) {
            Walk::Stopped(_, _) => None,
            Walk::Leaf(_) => if self.leaf(va).is_present() {
                Some((self.leaf(va).address() + page_offset_of(va)) as u64)
            } else {
                None
            },
        }
    }

    /// `next` is `self` after the level-1 entry for `va` was replaced by
    /// `entry`: nothing else in the tables differs, and the root is the same.
    pub open spec fn leaf_replaced(self, next: PageTableManager, va: u64, entry: u64) -> bool
        recommends
            self.walk(va) is Leaf,
    {
        let p1 = self.walk(va)->Leaf_0;
        &&& next.root() == self.root()
        &&& self.frames().differs_only_at(next.frames(), p1, p1_index_of(va))
        &&& next.frames().entry(p1, p1_index_of(va))@ == entry
    }

    /// The hierarchy rooted at the frame named by bits 12..51 of `cr3`, if the
    /// arena backs that frame.
    pub fn current(frames: FrameStore, cr3: u64) -> (r: Option<Self>)
        requires
            frames.wf(),
        ensures
            r is Some <==> frames.holds(cr3 & ADDRESS_MASK),
            r is Some ==> {
                &&& r.unwrap().wf()
                &&& r.unwrap().frames() == frames
                &&& r.unwrap().root() == cr3 & ADDRESS_MASK
                &&& r.unwrap().tlb_ops().len() == 0
            },
    {
        proof {
            lemma_index_fields(cr3 & ADDRESS_MASK);
            lemma_flag_bits(cr3, 0);
        }
        let p4 = PhysFrame::containing_address(PhysAddr::new(cr3 & ADDRESS_MASK));
        Self::from_p4_table(frames, p4)
    }

    /// The hierarchy rooted at `p4`, if the arena backs that frame.
    pub fn from_p4_table(frames: FrameStore, p4: PhysFrame) -> (r: Option<Self>)
        requires
            frames.wf(),
        ensures
            r is Some <==> frames.holds(p4.start()@),
            r is Some ==> {
                &&& r.unwrap().wf()
                &&& r.unwrap().frames() == frames
                &&& r.unwrap().root() == p4.start()@
                &&& r.unwrap().tlb_ops().len() == 0
            },
    {
        if frames.contains(p4) {
            Some(Self { frames, p4, tlb: Vec::new() })
        } else {
            None
        }
    }

    /// The arena of tables.
    pub fn frame_store(&self) -> (r: &FrameStore)
        ensures
            *r == self.frames(),
    {
        &self.frames
    }

    /// The frame of the root table.
    pub fn p4_frame(&self) -> (r: PhysFrame)
        ensures
            r.start()@ == self.root(),
    {
        self.p4
    }

    /// Hands over the TLB operations that are due, oldest first, and leaves
    /// none behind.
    pub fn take_tlb_ops(&mut self) -> (r: Vec<TlbOp>)
        ensures
            r@ == old(self).tlb_ops(),
            final(self).tlb_ops().len() == 0,
            final(self).frames() == old(self).frames(),
            final(self).root() == old(self).root(),
    {
        let mut ops: Vec<TlbOp> = Vec::new();
        core::mem::swap(&mut ops, &mut self.tlb);
        ops
    }

    /// The table that entry `index` of the table at `table` leads to.
    fn next_table(&self, table: PhysFrame, index: usize) -> (r: Option<PhysFrame>)
        requires
            self.wf(),
            self.frames().holds(table.start()@),
            index < 512,
        ensures
            match self.frames().step(table.start()@, index as int) {
                Step::Table(t) => r is Some && r.unwrap().start()@ == t && self.frames().holds(t),
                _ => r is None,
            },
    {
        let entry = self.frames.table(table).unwrap().entry(index);
        if entry.is_unused() {
            return None;
        }
        match entry.frame() {
            Some(frame) => if self.frames.contains(frame) {
                Some(frame)
            } else {
                None
            },
            None => None,
        }
    }

    /// The table that entry `index` of the table at `table` leads to. Where
    /// there is none, one would have to be created, which fails for want of a
    /// frame allocator.
    fn next_table_create(&self, table: PhysFrame, index: usize) -> (r: Result<
        PhysFrame,
        PagingError,
    >)
        requires
            self.wf(),
            self.frames().holds(table.start()@),
            index < 512,
        ensures
            match self.frames().step(table.start()@, index as int) {
                Step::Table(t) => r is Ok && r.unwrap().start()@ == t && self.frames().holds(t),
                Step::Unused => r == Err::<PhysFrame, PagingError>(
                    PagingError::FrameAllocationUnavailable,
                ),
                Step::Unreachable => r == Err::<PhysFrame, PagingError>(
                    PagingError::NextTableUnavailable,
                ),
            },
    {
        let unused = self.frames.table(table).unwrap().entry(index).is_unused();
        if !unused {
            return match self.next_table(table, index) {
                Some(next) => Ok(next),
                None => Err(PagingError::NextTableUnavailable),
            };
        }
        Err(PagingError::FrameAllocationUnavailable)
    }

    /// Records that the translation of the page at `addr` has to be
    /// invalidated.
    fn flush_tlb(&mut self, addr: VirtAddr)
        ensures
            final(self).tlb_ops() == old(self).tlb_ops().push(TlbOp::InvalidatePage(addr)),
            final(self).frames() == old(self).frames(),
            final(self).root() == old(self).root(),
    {
        self.tlb.push(TlbOp::InvalidatePage(addr));
    }

    /// Records that every non-global translation has to be invalidated, as
    /// after a broad change to the tables.
    pub fn flush_tlb_all(&mut self)
        ensures
            final(self).tlb_ops() == old(self).tlb_ops().push(TlbOp::FlushAll),
            final(self).frames() == old(self).frames(),
            final(self).root() == old(self).root(),
    {
        self.tlb.push(TlbOp::FlushAll);
    }

    /// Replaces entry `index` of the table at `table`.
    fn write_entry(&mut self, table: PhysFrame, index: usize, entry: PageTableEntry)
        requires
            old(self).wf(),
            old(self).frames().holds(table.start()@),
            index < 512,
        ensures
            final(self).wf(),
            final(self).root() == old(self).root(),
            final(self).tlb_ops() == old(self).tlb_ops(),
            old(self).frames().differs_only_at(
                final(self).frames(),
                table.start()@,
                index as int,
            ),
            final(self).frames().entry(table.start()@, index as int) == entry,
    {
        let ghost before = self.frames;
        let ghost addr = table.start()@;
        let slot_table = self.frames.table_mut(table).unwrap();
        let slot_entry = slot_table.entry_mut(index);
        *slot_entry = entry;
        proof {
            let after = self.frames;
            before.lemma_slot_in_range(addr);
            assert forall|t: u64, i: int|
                before.holds(t) && 0 <= i < 512 && !(t == addr && i == index as int) implies (
            #[trigger] after.entry(t, i)) == before.entry(t, i) by {
                before.lemma_slot_in_range(t);
                if t != addr {
                    if before.slot(t) == before.slot(addr) {
                        before.lemma_slot_injective(t, addr);
                    }
                }
            }
        }
    }

    /// Maps `page` to `frame` with `flags` and PRESENT.
    ///
    /// The walk has to reach the level-1 table: where an entry on the way is
    /// unused, a table would have to be created, and the call fails with
    /// `FrameAllocationUnavailable`; where it is in use but leads to no table,
    /// with `NextTableUnavailable`. A level-1 entry that is already in use is
    /// never overwritten: the call fails with `PageAlreadyMapped`. On success
    /// that entry alone is written and the invalidation of the page is due.
    /// On failure nothing changes.
    pub fn map_page(&mut self, page: Page, frame: PhysFrame, flags: PageTableFlags) -> (r: Result<
        (),
        PagingError,
    >)
        requires
            old(self).wf(),
        ensures
            final(self).wf(),
            r == old(self).map_outcome(page.start()@),
            match r {
                Ok(_) => {
                    &&& old(self).leaf_replaced(
                        *final(self),
                        page.start()@,
                        entry_word(frame.start()@, flags@),
                    )
                    &&& final(self).tlb_ops() == old(self).tlb_ops().push(
                        TlbOp::InvalidatePage(page.start()),
                    )
                },
                Err(_) => {
                    &&& final(self).frames() == old(self).frames()
                    &&& final(self).root() == old(self).root()
                    &&& final(self).tlb_ops() == old(self).tlb_ops()
                },
            },
    {
        let p3 = match self.next_table_create(self.p4, page.p4_index()) {
            Ok(t) => t,
            Err(e) => {
                return Err(e);
            },
        };
        let p2 = match self.next_table_create(p3, page.p3_index()) {
            Ok(t) => t,
            Err(e) => {
                return Err(e);
            },
        };
        let p1 = match self.next_table_create(p2, page.p2_index()) {
            Ok(t) => t,
            Err(e) => {
                return Err(e);
            },
        };
        let index = page.p1_index();
        let unused = self.frames.table(p1).unwrap().entry(index).is_unused();
        if !unused {
            return Err(PagingError::PageAlreadyMapped);
        }
        let mut entry = PageTableEntry::new();
        entry.set_frame(frame, flags);
        self.write_entry(p1, index, entry);
        self.flush_tlb(page.start_address());
        Ok(())
    }

    /// Removes the mapping of `page` and returns the frame that it was mapped
    /// to.
    ///
    /// The walk only reads: where it finds no table of some level the call
    /// fails with `TableNotPresent` of that level. An unused level-1 entry
    /// gives `PageNotMapped`, one in use but not present `EntryNotPresent`. On
    /// success that entry alone is cleared and the invalidation of the page is
    /// due. On failure nothing changes.
    pub fn unmap_page(&mut self, page: Page) -> (r: Result<PhysFrame, PagingError>)
        requires
            old(self).wf(),
        ensures
            final(self).wf(),
            r == old(self).unmap_outcome(page.start()@),
            match r {
                Ok(_) => {
                    &&& old(self).leaf_replaced(*final(self), page.start()@, 0)
                    &&& final(self).tlb_ops() == old(self).tlb_ops().push(
                        TlbOp::InvalidatePage(page.start()),
                    )
                },
                Err(_) => {
                    &&& final(self).frames() == old(self).frames()
                    &&& final(self).root() == old(self).root()
                    &&& final(self).tlb_ops() == old(self).tlb_ops()
                },
            },
    {
        let p3 = match self.next_table(self.p4, page.p4_index()) {
            Some(t) => t,
            None => {
                return Err(PagingError::TableNotPresent(TableLevel::Three));
            },
        };
        let p2 = match self.next_table(p3, page.p3_index()) {
            Some(t) => t,
            None => {
                return Err(PagingError::TableNotPresent(TableLevel::Two));
            },
        };
        let p1 = match self.next_table(p2, page.p2_index()) {
            Some(t) => t,
            None => {
                return Err(PagingError::TableNotPresent(TableLevel::One));
            },
        };
        let index = page.p1_index();
        let entry = *self.frames.table(p1).unwrap().entry(index);
        if entry.is_unused() {
            return Err(PagingError::PageNotMapped);
        }
        let frame = match entry.frame() {
            Some(f) => f,
            None => {
                return Err(PagingError::EntryNotPresent);
            },
        };
        self.write_entry(p1, index, PageTableEntry::new());
        self.flush_tlb(page.start_address());
        Ok(frame)
    }

    /// The physical address that `addr` translates to: the frame of its page
    /// plus the offset in the page. There is none where the walk finds a table
    /// missing or the level-1 entry is not present.
    pub fn translate_addr(&self, addr: VirtAddr) -> (r: Option<PhysAddr>)
        requires
            self.wf(),
        ensures
            r is Some <==> self.translation(addr@) is Some,
            r is Some ==> r.unwrap()@ == self.translation(addr@).unwrap(),
    {
        let p3 = match self.next_table(self.p4, addr.p4_index()) {
            Some(t) => t,
            None => {
                return None;
            },
        };
        let p2 = match self.next_table(p3, addr.p3_index()) {
            Some(t) => t,
            None => {
                return None;
            },
        };
        let p1 = match self.next_table(p2, addr.p2_index()) {
            Some(t) => t,
            None => {
                return None;
            },
        };
        let entry = self.frames.table(p1).unwrap().entry(addr.p1_index());
        let frame = match entry.frame() {
            Some(f) => f,
            None => {
                return None;
            },
        };
        let offset = addr.page_offset() as u64;
        proof {
            lemma_flag_bits(entry@, 0);
            lemma_index_fields(addr@);
            PhysAddr::lemma_at_view((frame.start()@ + offset) as u64);
        }
        Some(frame.start_address() + offset)
    }
}

impl FrameStore {
    /// A walk that reaches level 1 is the same in a store that differs only
    /// in an entry that the walk does not read.
    pub proof fn lemma_walk_kept(
        self,
        other: FrameStore,
        root: u64,
        va: u64,
        table: u64,
        index: int,
    )
        requires
            self.wf(),
            self.holds(root),
            self.differs_only_at(other, table, index),
            self.walk(root, va) is Leaf,
            !(table == root && index == p4_index_of(va)),
            self.step(root, p4_index_of(va)) matches Step::Table(p3) && !(table == p3 && index
                == p3_index_of(va)) && (self.step(p3, p3_index_of(va)) matches Step::Table(p2)
                && !(table == p2 && index == p2_index_of(va))),
        ensures
            other.walk(root, va) == self.walk(root, va),
    {
        lemma_index_fields(va);
        let p3 = self.step(root, p4_index_of(va))->Table_0;
        let p2 = self.step(p3, p3_index_of(va))->Table_0;
        assert(other.entry(root, p4_index_of(va)) == self.entry(root, p4_index_of(va)));
        assert(other.entry(p3, p3_index_of(va)) == self.entry(p3, p3_index_of(va)));
        assert(other.entry(p2, p2_index_of(va)) == self.entry(p2, p2_index_of(va)));
    }
}

/// Mapping a page and then unmapping it gives back exactly the frame that was
/// mapped, and unmapping it once more fails with `PageNotMapped`.
///
/// `m1` is the hierarchy `m0` after a successful `map_page(page, frame,
/// flags)`, `m2` is `m1` after the `unmap_page(page)` that follows. The frame
/// lies below 2^52, so that an entry can name it. In between, the page
/// translates to the frame.
pub proof fn lemma_map_then_unmap(
    m0: PageTableManager,
    m1: PageTableManager,
    m2: PageTableManager,
    page: Page,
    frame: PhysFrame,
    flags: PageTableFlags,
)
    requires
        m0.wf(),
        page.wf(),
        frame.wf(),
        flags.wf(),
        frame.start()@ < PHYS_ADDR_LIMIT,
        m0.map_outcome(page.start()@) is Ok,
        m0.leaf_replaced(m1, page.start()@, entry_word(frame.start()@, flags@)),
        m1.leaf_replaced(m2, page.start()@, 0),
    ensures
        m1.unmap_outcome(page.start()@) == Ok::<PhysFrame, PagingError>(frame),
        m1.translation(page.start()@) == Some(frame.start()@),
        m2.unmap_outcome(page.start()@) == Err::<PhysFrame, PagingError>(
            PagingError::PageNotMapped,
        ),
{
    let va = page.start()@;
    let root = m0.root();
    let f0 = m0.frames();
    let f1 = m1.frames();
    let f2 = m2.frames();
    lemma_index_fields(va);
    let p3 = f0.step(root, p4_index_of(va))->Table_0;
    let p2 = f0.step(p3, p3_index_of(va))->Table_0;
    let p1 = f0.step(p2, p2_index_of(va))->Table_0;
    let i1 = p1_index_of(va);
    assert(f0.entry(p1, i1).unused());
    f0.lemma_walk_kept(f1, root, va, p1, i1);
    assert(m1.walk(va) == Walk::Leaf(p1));
    lemma_set_frame_then_frame(frame, flags);
    PageTableEntry::lemma_view_injective(
        f1.entry(p1, i1),
        PageTableEntry::of(entry_word(frame.start()@, flags@)),
    );
    PhysFrame::lemma_at_start(f1.entry(p1, i1).address());
    PhysFrame::lemma_start_injective(PhysFrame::at(f1.entry(p1, i1).address()), frame);
    assert(page_offset_of(va) == 0);
    assert(f1.wf() && f1.holds(root));
    assert(f1.step(root, p4_index_of(va)) == Step::Table(p3));
    assert(f1.step(p3, p3_index_of(va)) == Step::Table(p2));
    f1.lemma_walk_kept(f2, root, va, p1, i1);
    assert(m2.walk(va) == Walk::Leaf(p1));
}

/// After a page was mapped, every address in it translates to the frame's
/// address plus the offset of the address in the page.
///
/// `m1` is the hierarchy `m0` after a successful `map_page(page, frame,
/// flags)`, and `va` is an address of the page: it has the four table indices
/// of the page's first address. The frame lies below 2^52.
pub proof fn lemma_mapped_page_translates(
    m0: PageTableManager,
    m1: PageTableManager,
    page: Page,
    frame: PhysFrame,
    flags: PageTableFlags,
    va: u64,
)
    requires
        m0.wf(),
        page.wf(),
        frame.wf(),
        flags.wf(),
        frame.start()@ < PHYS_ADDR_LIMIT,
        m0.map_outcome(page.start()@) is Ok,
        m0.leaf_replaced(m1, page.start()@, entry_word(frame.start()@, flags@)),
        p4_index_of(va) == p4_index_of(page.start()@),
        p3_index_of(va) == p3_index_of(page.start()@),
        p2_index_of(va) == p2_index_of(page.start()@),
        p1_index_of(va) == p1_index_of(page.start()@),
    ensures
        m1.translation(va) == Some((frame.start()@ + page_offset_of(va)) as u64),
        frame.start()@ + page_offset_of(va) < PHYS_ADDR_LIMIT,
{
    let start = page.start()@;
    let root = m0.root();
    let f0 = m0.frames();
    let f1 = m1.frames();
    lemma_index_fields(start);
    lemma_index_fields(va);
    lemma_index_fields(frame.start()@);
    let p3 = f0.step(root, p4_index_of(start))->Table_0;
    let p2 = f0.step(p3, p3_index_of(start))->Table_0;
    let p1 = f0.step(p2, p2_index_of(start))->Table_0;
    f0.lemma_walk_kept(f1, root, start, p1, p1_index_of(start));
    assert(m1.walk(va) == m1.walk(start));
    lemma_set_frame_then_frame(frame, flags);
    PageTableEntry::lemma_view_injective(
        f1.entry(p1, p1_index_of(start)),
        PageTableEntry::of(entry_word(frame.start()@, flags@)),
    );
    PhysFrame::lemma_at_start(f1.entry(p1, p1_index_of(start)).address());
    let a = frame.start()@;
    let o = va & 0xFFF;
    assert(a + o < 0x0010_0000_0000_0000) by (bit_vector)
        requires
            a & 0xFFF == 0,
            a < 0x0010_0000_0000_0000u64,
            o == va & 0xFFF,
    ;
}

/// Replacing a level-1 entry leaves alone the translation of every address
/// whose walk neither passes through that entry nor ends at it.
///
/// `m1` is `m0` after the level-1 entry for `changed` was replaced, as
/// `map_page` and `unmap_page` do. The walk for `va` reaches level 1 in `m0`.
pub proof fn lemma_other_translations_kept(
    m0: PageTableManager,
    m1: PageTableManager,
    changed: u64,
    entry: u64,
    va: u64,
)
    requires
        m0.wf(),
        m0.walk(changed) is Leaf,
        m0.leaf_replaced(m1, changed, entry),
        m0.walk(va) is Leaf,
        ({
            let table = m0.walk(changed)->Leaf_0;
            let index = p1_index_of(changed);
            let root = m0.root();
            let p3 = m0.frames().step(root, p4_index_of(va))->Table_0;
            let p2 = m0.frames().step(p3, p3_index_of(va))->Table_0;
            let p1 = m0.walk(va)->Leaf_0;
            &&& !(table == root && index == p4_index_of(va))
            &&& !(table == p3 && index == p3_index_of(va))
            &&& !(table == p2 && index == p2_index_of(va))
            &&& !(table == p1 && index == p1_index_of(va))
        }),
    ensures
        m1.walk(va) == m0.walk(va),
        m1.leaf(va) == m0.leaf(va),
        m1.translation(va) == m0.translation(va),
        m1.unmap_outcome(va) == m0.unmap_outcome(va),
        m1.map_outcome(va) == m0.map_outcome(va),
{
    lemma_index_fields(va);
    let table = m0.walk(changed)->Leaf_0;
    m0.frames().lemma_walk_kept(m1.frames(), m0.root(), va, table, p1_index_of(changed));
    let p1 = m0.walk(va)->Leaf_0;
    assert(m1.frames().entry(p1, p1_index_of(va)) == m0.frames().entry(p1, p1_index_of(va)));
}

} // verus!
