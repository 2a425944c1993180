//! Physical and virtual addresses, pages and frames.
//!
//! An address is modelled by its 64-bit value. Alignment is stated
//! arithmetically (`addr % align`), table indices by the architectural bit
//! fields of a virtual address.

use vstd::arithmetic::power2::{lemma2_to64, lemma2_to64_rest, pow2};
use vstd::bits::{lemma_u64_low_bits_mask_is_mod, low_bits_mask};
use vstd::prelude::*;
use vstd::std_specs::ops::{AddSpecImpl, SubSpecImpl};

verus! {

/// Size of a page and of a frame in bytes.
pub const PAGE_SIZE: u64 = 4096;

/// `align` has exactly one bit set.
pub open spec fn is_power_of_two(align: u64) -> bool {
    align != 0 && align & ((align - 1) as u64) == 0
}

/// The 48-bit canonical form of `addr`: bits 48..63 are copies of bit 47.
pub open spec fn canonicalize(addr: u64) -> u64 {
    if addr & 0x0000_8000_0000_0000 != 0 {
        addr | 0xFFFF_0000_0000_0000
    } else {
        addr & 0x0000_FFFF_FFFF_FFFF
    }
}

/// `addr` is its own canonical form.
pub open spec fn is_canonical(addr: u64) -> bool {
    canonicalize(addr) == addr
}

/// The largest multiple of `align` that is not above `addr`.
pub open spec fn align_down_spec(addr: u64, align: u64) -> int {
    addr - addr % align
}

/// The smallest multiple of `align` that is not below `addr`.
pub open spec fn align_up_spec(addr: u64, align: u64) -> int {
    if addr % align == 0 {
        addr as int
    } else {
        addr - addr % align + align
    }
}

/// Index into the level-4 table: bits 39..47.
pub open spec fn p4_index_of(addr: u64) -> int {
    ((addr >> 39) & 0x1FF) as int
}

/// Index into the level-3 table: bits 30..38.
pub open spec fn p3_index_of(addr: u64) -> int {
    ((addr >> 30) & 0x1FF) as int
}

/// Index into the level-2 table: bits 21..29.
pub open spec fn p2_index_of(addr: u64) -> int {
    ((addr >> 21) & 0x1FF) as int
}

/// Index into the level-1 table: bits 12..20.
pub open spec fn p1_index_of(addr: u64) -> int {
    ((addr >> 12) & 0x1FF) as int
}

/// Offset inside the page: bits 0..11.
pub open spec fn page_offset_of(addr: u64) -> int {
    (addr & 0xFFF) as int
}

proof fn lemma_single_bit_values(a: u64)
    by (bit_vector)
    requires
        a != 0,
        a & ((a - 1) as u64) == 0,
    ensures
        a == 0x1 || a == 0x2 || a == 0x4 || a == 0x8
        || a == 0x10 || a == 0x20 || a == 0x40 || a == 0x80
        || a == 0x100 || a == 0x200 || a == 0x400 || a == 0x800
        || a == 0x1000 || a == 0x2000 || a == 0x4000 || a == 0x8000
        || a == 0x10000 || a == 0x20000 || a == 0x40000 || a == 0x80000
        || a == 0x100000 || a == 0x200000 || a == 0x400000 || a == 0x800000
        || a == 0x1000000 || a == 0x2000000 || a == 0x4000000 || a == 0x8000000
        || a == 0x10000000 || a == 0x20000000 || a == 0x40000000 || a == 0x80000000
        || a == 0x100000000 || a == 0x200000000 || a == 0x400000000 || a == 0x800000000
        || a == 0x1000000000 || a == 0x2000000000 || a == 0x4000000000 || a == 0x8000000000
        || a == 0x10000000000 || a == 0x20000000000 || a == 0x40000000000 || a == 0x80000000000
        || a == 0x100000000000 || a == 0x200000000000 || a == 0x400000000000 || a == 0x800000000000
        || a == 0x1000000000000 || a == 0x2000000000000 || a == 0x4000000000000 || a == 0x8000000000000
        || a == 0x10000000000000 || a == 0x20000000000000 || a == 0x40000000000000 || a == 0x80000000000000
        || a == 0x100000000000000 || a == 0x200000000000000 || a == 0x400000000000000 || a == 0x800000000000000
        || a == 0x1000000000000000 || a == 0x2000000000000000 || a == 0x4000000000000000 || a == 0x8000000000000000,
{
}

/// A power of two below 2^64 is `pow2(n)` for some `n < 64`.
pub proof fn lemma_power_of_two_exponent(align: u64)
    requires
        is_power_of_two(align),
    ensures
        exists|n: nat| n < 64 && align == #[trigger] pow2(n),
{
    lemma_single_bit_values(align);
    lemma2_to64();
    lemma2_to64_rest();
}

/// Masking with `!(align - 1)` rounds down to a multiple of `align`.
pub proof fn lemma_mask_rounds_down(addr: u64, align: u64)
    requires
        is_power_of_two(align),
    ensures
        addr & !((align - 1) as u64) == align_down_spec(addr, align),
        align_down_spec(addr, align) % (align as int) == 0,
        0 <= align_down_spec(addr, align) <= addr,
        addr - align_down_spec(addr, align) < align,
{
    lemma_power_of_two_exponent(align);
    let n = choose|n: nat| n < 64 && align == #[trigger] pow2(n);
    lemma_u64_low_bits_mask_is_mod(addr, n);
    let mask = (align - 1) as u64;
    assert(low_bits_mask(n) as u64 == mask);
    assert(addr & !mask == addr - (addr & mask)) by (bit_vector);
    let a = align as int;
    let x = addr as int;
    assert((x - x % a) % a == 0) by (nonlinear_arith)
        requires
            a > 0,
            x >= 0,
    ;
}

/// The rounding-up formula `(addr + align - 1) & !(align - 1)` yields the
/// smallest multiple of `align` that is not below `addr`.
pub proof fn lemma_mask_rounds_up(addr: u64, align: u64)
    requires
        is_power_of_two(align),
        addr + align - 1 <= u64::MAX,
    ensures
        ((addr + align - 1) as u64) & !((align - 1) as u64) == align_up_spec(addr, align),
        align_up_spec(addr, align) % (align as int) == 0,
        addr <= align_up_spec(addr, align) <= u64::MAX,
        align_up_spec(addr, align) - addr < align,
{
    let y = (addr + align - 1) as u64;
    lemma_mask_rounds_down(y, align);
    lemma_mask_rounds_down(addr, align);
    let a = align as int;
    let x = addr as int;
    let r = x % a;
    let base = x - r;
    assert(base % a == 0);
    if r == 0 {
        assert((x + a - 1) % a == a - 1) by (nonlinear_arith)
            requires
                a > 0,
                x >= 0,
                x % a == 0,
        ;
    } else {
        assert((x + a - 1) % a == x % a - 1) by (nonlinear_arith)
            requires
                a > 0,
                x >= 0,
                x % a != 0,
        ;
        assert((base + a) % a == 0) by (nonlinear_arith)
            requires
                a > 0,
                base % a == 0,
        ;
    }
}

/// Facts about the canonical form that the address types rely on.
pub proof fn lemma_canonical_form(addr: u64)
    by (bit_vector)
    ensures
        canonicalize(canonicalize(addr)) == canonicalize(addr),
        canonicalize(addr) & 0xFFF == addr & 0xFFF,
        canonicalize(addr) & 0x0000_FFFF_FFFF_FFFF == addr & 0x0000_FFFF_FFFF_FFFF,
        canonicalize(addr) == addr <==> (addr < 0x0000_8000_0000_0000 || addr
            >= 0xFFFF_8000_0000_0000),
        canonicalize(addr) == addr ==> canonicalize(addr & !0xFFFu64) == addr & !0xFFFu64,
{
}

/// The index and offset fields are 9 and 12 bits wide, and rounding down to a
/// page boundary keeps the four indices.
pub proof fn lemma_index_fields(addr: u64)
    by (bit_vector)
    ensures
        (addr >> 39) & 0x1FF < 512,
        (addr >> 30) & 0x1FF < 512,
        (addr >> 21) & 0x1FF < 512,
        (addr >> 12) & 0x1FF < 512,
        addr & 0xFFF < 4096,
        addr & 0xFFF == addr % 4096,
        addr & !0xFFFu64 == addr - addr % 4096,
        ((addr & !0xFFFu64) >> 39) & 0x1FF == (addr >> 39) & 0x1FF,
        ((addr & !0xFFFu64) >> 30) & 0x1FF == (addr >> 30) & 0x1FF,
        ((addr & !0xFFFu64) >> 21) & 0x1FF == (addr >> 21) & 0x1FF,
        ((addr & !0xFFFu64) >> 12) & 0x1FF == (addr >> 12) & 0x1FF,
        (addr & !0xFFFu64) & 0xFFF == 0,
{
}

/// A physical address: any 64-bit value.
#[derive(Debug, Clone, Copy, PartialEq, Eq, PartialOrd, Ord)]
pub struct PhysAddr(u64);

impl View for PhysAddr {
    type V = u64;

    closed spec fn view(&self) -> u64 {
        self.0
    }
}

impl PhysAddr {
    /// The address with the given value. No range check is made.
    pub fn new(addr: u64) -> (r: Self)
        ensures
            r@ == addr,
    {
        Self(addr)
    }

    /// The address as a number.
    pub fn as_u64(self) -> (r: u64)
        ensures
            r == self@,
    {
        self.0
    }

    /// Whether the address is a multiple of `align`.
    pub fn is_aligned(self, align: u64) -> (r: bool)
        requires
            align != 0,
        ensures
            r == (self@ % align == 0),
    {
        self.0 % align == 0
    }

    /// The largest multiple of the power of two `align` not above the address.
    pub fn align_down(self, align: u64) -> (r: Self)
        requires
            is_power_of_two(align),
        ensures
            r@ == align_down_spec(self@, align),
            r@ % align == 0,
            r@ <= self@ < r@ + align,
    {
        proof {
            lemma_mask_rounds_down(self.0, align);
        }
        Self(self.0 & !(align - 1))
    }

    /// The smallest multiple of the power of two `align` not below the
    /// address, which has to fit in 64 bits.
    pub fn align_up(self, align: u64) -> (r: Self)
        requires
            is_power_of_two(align),
            self@ + align - 1 <= u64::MAX,
        ensures
            r@ == align_up_spec(self@, align),
            r@ % align == 0,
            self@ <= r@ < self@ + align,
    {
        proof {
            lemma_mask_rounds_up(self.0, align);
        }
        Self((self.0 + (align - 1)) & !(align - 1))
    }
}

impl AddSpecImpl<u64> for PhysAddr {
    open spec fn obeys_add_spec() -> bool {
        true
    }

    open spec fn add_req(self, rhs: u64) -> bool {
        self@ + rhs <= u64::MAX
    }

    open spec fn add_spec(self, rhs: u64) -> PhysAddr {
        PhysAddr::at((self@ + rhs) as u64)
    }
}

impl core::ops::Add<u64> for PhysAddr {
    type Output = PhysAddr;

    fn add(self, rhs: u64) -> PhysAddr {
        Self(self.0 + rhs)
    }
}

impl SubSpecImpl<u64> for PhysAddr {
    open spec fn obeys_sub_spec() -> bool {
        true
    }

    open spec fn sub_req(self, rhs: u64) -> bool {
        rhs <= self@
    }

    open spec fn sub_spec(self, rhs: u64) -> PhysAddr {
        PhysAddr::at((self@ - rhs) as u64)
    }
}

impl core::ops::Sub<u64> for PhysAddr {
    type Output = PhysAddr;

    fn sub(self, rhs: u64) -> PhysAddr {
        Self(self.0 - rhs)
    }
}

impl PhysAddr {
    /// The address whose value is `addr`, as a specification term.
    pub closed spec fn at(addr: u64) -> PhysAddr {
        PhysAddr(addr)
    }

    /// `at` is the inverse of the view.
    pub broadcast proof fn lemma_at_view(addr: u64)
        ensures
            (#[trigger] PhysAddr::at(addr))@ == addr,
    {
    }

    /// Two physical addresses with the same value are the same address.
    pub proof fn lemma_view_injective(a: PhysAddr, b: PhysAddr)
        requires
            a@ == b@,
        ensures
            a == b,
    {
    }
}

/// A virtual address, always in 48-bit canonical form.
#[derive(Debug, Clone, Copy, PartialEq, Eq, PartialOrd, Ord)]
pub struct VirtAddr(u64);

impl View for VirtAddr {
    type V = u64;

    closed spec fn view(&self) -> u64 {
        self.0
    }
}

impl VirtAddr {
    /// Every virtual address is canonical.
    #[verifier::type_invariant]
    pub open spec fn wf(self) -> bool {
        is_canonical(self@)
    }

    /// The virtual address whose value is `addr`, as a specification term.
    pub closed spec fn at(addr: u64) -> VirtAddr {
        VirtAddr(addr)
    }

    /// `at` is the inverse of the view.
    pub broadcast proof fn lemma_at_view(addr: u64)
        ensures
            (#[trigger] VirtAddr::at(addr))@ == addr,
    {
    }

    /// The canonical form of `addr`. A value outside the canonical range is
    /// not rejected: its upper 16 bits are replaced by copies of bit 47.
    pub fn new(addr: u64) -> (r: Self)
        ensures
            r@ == canonicalize(addr),
            r.wf(),
            is_canonical(addr) ==> r@ == addr,
    {
        proof {
            lemma_canonical_form(addr);
        }
        if addr & 0x0000_8000_0000_0000 != 0 {
            Self(addr | 0xFFFF_0000_0000_0000)
        } else {
            Self(addr & 0x0000_FFFF_FFFF_FFFF)
        }
    }

    /// The address as a number.
    pub fn as_u64(self) -> (r: u64)
        ensures
            r == self@,
            is_canonical(r),
    {
        proof {
            use_type_invariant(self);
        }
        self.0
    }

    /// Index into the level-4 table (bits 39..47).
    pub fn p4_index(self) -> (r: usize)
        ensures
            r == p4_index_of(self@),
            r < 512,
    {
        proof {
            lemma_index_fields(self.0);
        }
        ((self.0 >> 39) & 0x1FF) as usize
    }

    /// Index into the level-3 table (bits 30..38).
    pub fn p3_index(self) -> (r: usize)
        ensures
            r == p3_index_of(self@),
            r < 512,
    {
        proof {
            lemma_index_fields(self.0);
        }
        ((self.0 >> 30) & 0x1FF) as usize
    }

    /// Index into the level-2 table (bits 21..29).
    pub fn p2_index(self) -> (r: usize)
        ensures
            r == p2_index_of(self@),
            r < 512,
    {
        proof {
            lemma_index_fields(self.0);
        }
        ((self.0 >> 21) & 0x1FF) as usize
    }

    /// Index into the level-1 table (bits 12..20).
    pub fn p1_index(self) -> (r: usize)
        ensures
            r == p1_index_of(self@),
            r < 512,
    {
        proof {
            lemma_index_fields(self.0);
        }
        ((self.0 >> 12) & 0x1FF) as usize
    }

    /// Offset inside the page (bits 0..11).
    pub fn page_offset(self) -> (r: usize)
        ensures
            r == page_offset_of(self@),
            r == self@ % 4096,
    {
        proof {
            lemma_index_fields(self.0);
        }
        (self.0 & 0xFFF) as usize
    }

    /// Whether the address is a multiple of `align`.
    pub fn is_aligned(self, align: u64) -> (r: bool)
        requires
            align != 0,
        ensures
            r == (self@ % align == 0),
    {
        self.0 % align == 0
    }

    /// The canonical form of the largest multiple of the power of two `align`
    /// not above the address.
    pub fn align_down(self, align: u64) -> (r: Self)
        requires
            is_power_of_two(align),
        ensures
            r@ == canonicalize(align_down_spec(self@, align) as u64),
    {
        proof {
            lemma_mask_rounds_down(self.0, align);
        }
        Self::new(self.0 & !(align - 1))
    }

    /// The canonical form of the smallest multiple of the power of two
    /// `align` not below the address; that multiple has to fit in 64 bits.
    pub fn align_up(self, align: u64) -> (r: Self)
        requires
            is_power_of_two(align),
            self@ + align - 1 <= u64::MAX,
        ensures
            r@ == canonicalize(align_up_spec(self@, align) as u64),
    {
        proof {
            lemma_mask_rounds_up(self.0, align);
        }
        Self::new((self.0 + (align - 1)) & !(align - 1))
    }
}

impl AddSpecImpl<u64> for VirtAddr {
    open spec fn obeys_add_spec() -> bool {
        true
    }

    open spec fn add_req(self, rhs: u64) -> bool {
        self@ + rhs <= u64::MAX
    }

    open spec fn add_spec(self, rhs: u64) -> VirtAddr {
        VirtAddr::at(canonicalize((self@ + rhs) as u64))
    }
}

impl core::ops::Add<u64> for VirtAddr {
    type Output = VirtAddr;

    fn add(self, rhs: u64) -> VirtAddr {
        Self::new(self.0 + rhs)
    }
}

impl SubSpecImpl<u64> for VirtAddr {
    open spec fn obeys_sub_spec() -> bool {
        true
    }

    open spec fn sub_req(self, rhs: u64) -> bool {
        rhs <= self@
    }

    open spec fn sub_spec(self, rhs: u64) -> VirtAddr {
        VirtAddr::at(canonicalize((self@ - rhs) as u64))
    }
}

impl core::ops::Sub<u64> for VirtAddr {
    type Output = VirtAddr;

    fn sub(self, rhs: u64) -> VirtAddr {
        Self::new(self.0 - rhs)
    }
}

/// A 4 KiB page of virtual memory, named by its first address.
#[derive(Debug, Clone, Copy, PartialEq, Eq, PartialOrd, Ord)]
pub struct Page {
    start_address: VirtAddr,
}

impl Page {
    /// Page size in bytes.
    pub const SIZE: u64 = 4096;

    /// The first address of the page, as a specification term.
    pub closed spec fn start(self) -> VirtAddr {
        self.start_address
    }

    /// A page starts at a canonical address that is a multiple of 4096.
    #[verifier::type_invariant]
    pub open spec fn wf(self) -> bool {
        self.start().wf() && self.start()@ % 4096 == 0
    }

    /// The page that holds `addr`: its start is `addr` rounded down to a
    /// multiple of 4096.
    pub fn containing_address(addr: VirtAddr) -> (r: Self)
        ensures
            r.wf(),
            r.start()@ == addr@ - addr@ % 4096,
            r.start()@ <= addr@ < r.start()@ + 4096,
            p4_index_of(r.start()@) == p4_index_of(addr@),
            p3_index_of(r.start()@) == p3_index_of(addr@),
            p2_index_of(r.start()@) == p2_index_of(addr@),
            p1_index_of(r.start()@) == p1_index_of(addr@),
    {
        let raw = addr.as_u64();
        proof {
            lemma_canonical_form(raw);
            lemma_index_fields(raw);
        }
        Self { start_address: VirtAddr::new(raw & !0xFFF) }
    }

    /// The page that starts at `addr`, which the caller knows to be a
    /// multiple of 4096.
    pub fn from_start_address(addr: VirtAddr) -> (r: Self)
        requires
            addr@ % 4096 == 0,
        ensures
            r.wf(),
            r.start() == addr,
    {
        proof {
            use_type_invariant(addr);
        }
        Self { start_address: addr }
    }

    /// The first address of the page.
    pub fn start_address(self) -> (r: VirtAddr)
        ensures
            r == self.start(),
            r.wf(),
            r@ % 4096 == 0,
    {
        proof {
            use_type_invariant(self);
        }
        self.start_address
    }

    /// Index into the level-4 table for this page.
    pub fn p4_index(self) -> (r: usize)
        ensures
            r == p4_index_of(self.start()@),
            r < 512,
    {
        self.start_address.p4_index()
    }

    /// Index into the level-3 table for this page.
    pub fn p3_index(self) -> (r: usize)
        ensures
            r == p3_index_of(self.start()@),
            r < 512,
    {
        self.start_address.p3_index()
    }

    /// Index into the level-2 table for this page.
    pub fn p2_index(self) -> (r: usize)
        ensures
            r == p2_index_of(self.start()@),
            r < 512,
    {
        self.start_address.p2_index()
    }

    /// Index into the level-1 table for this page.
    pub fn p1_index(self) -> (r: usize)
        ensures
            r == p1_index_of(self.start()@),
            r < 512,
    {
        self.start_address.p1_index()
    }

    /// The page `count` pages further up, as a specification term.
    pub closed spec fn offset_by(self, count: u64) -> Page {
        Page { start_address: VirtAddr::at(canonicalize((self.start()@ + count * 4096) as u64)) }
    }

    /// Where `offset_by` lands.
    pub proof fn lemma_offset_by(self, count: u64)
        ensures
            self.offset_by(count).start()@ == canonicalize(
                (self.start()@ + count * 4096) as u64,
            ),
    {
    }
}

impl AddSpecImpl<u64> for Page {
    open spec fn obeys_add_spec() -> bool {
        true
    }

    open spec fn add_req(self, rhs: u64) -> bool {
        self.start()@ + rhs * 4096 <= u64::MAX
    }

    open spec fn add_spec(self, rhs: u64) -> Page {
        self.offset_by(rhs)
    }
}

impl core::ops::Add<u64> for Page {
    type Output = Page;

    /// The page `rhs` pages further up; its start is brought to canonical
    /// form, which keeps it a multiple of 4096.
    fn add(self, rhs: u64) -> Page {
        proof {
            use_type_invariant(self);
        }
        let base = self.start_address.as_u64();
        assert(rhs * 4096 <= u64::MAX) by (nonlinear_arith)
            requires
                base + rhs * 4096 <= u64::MAX,
                base >= 0,
        ;
        let raw = base + rhs * Self::SIZE;
        proof {
            lemma_canonical_form(raw);
            lemma_index_fields(raw);
            lemma_index_fields(canonicalize(raw));
            assert(raw % 4096 == 0) by (nonlinear_arith)
                requires
                    raw == base + rhs * 4096,
                    base % 4096 == 0,
            ;
        }
        Page { start_address: VirtAddr::new(raw) }
    }
}

/// A 4 KiB frame of physical memory, named by its first address.
#[derive(Debug, Clone, Copy, PartialEq, Eq, PartialOrd, Ord)]
pub struct PhysFrame {
    start_address: PhysAddr,
}

impl PhysFrame {
    /// Frame size in bytes.
    pub const SIZE: u64 = 4096;

    /// The first address of the frame, as a specification term.
    pub closed spec fn start(self) -> PhysAddr {
        self.start_address
    }

    /// A frame starts at a multiple of 4096.
    #[verifier::type_invariant]
    pub open spec fn wf(self) -> bool {
        self.start()@ % 4096 == 0
    }

    /// The frame that starts at `addr`, as a specification term.
    pub closed spec fn at(addr: u64) -> PhysFrame {
        PhysFrame { start_address: PhysAddr::at(addr) }
    }

    /// `at` names the frame by its first address.
    pub broadcast proof fn lemma_at_start(addr: u64)
        ensures
            (#[trigger] PhysFrame::at(addr)).start()@ == addr,
    {
    }

    /// Two frames with the same first address are the same frame.
    pub proof fn lemma_start_injective(a: PhysFrame, b: PhysFrame)
        requires
            a.start()@ == b.start()@,
        ensures
            a == b,
    {
        PhysAddr::lemma_view_injective(a.start_address, b.start_address);
    }

    /// The frame that holds `addr`: its start is `addr` rounded down to a
    /// multiple of 4096.
    pub fn containing_address(addr: PhysAddr) -> (r: Self)
        ensures
            r.wf(),
            r.start()@ == addr@ - addr@ % 4096,
            r.start()@ <= addr@ < r.start()@ + 4096,
            r == PhysFrame::at((addr@ - addr@ % 4096) as u64),
    {
        let raw = addr.as_u64();
        proof {
            lemma_index_fields(raw);
        }
        Self { start_address: PhysAddr::new(raw & !0xFFF) }
    }

    /// The frame that starts at `addr`, which the caller knows to be a
    /// multiple of 4096.
    pub fn from_start_address(addr: PhysAddr) -> (r: Self)
        requires
            addr@ % 4096 == 0,
        ensures
            r.wf(),
            r.start() == addr,
    {
        Self { start_address: addr }
    }

    /// The first address of the frame.
    pub fn start_address(self) -> (r: PhysAddr)
        ensures
            r == self.start(),
            r@ % 4096 == 0,
    {
        proof {
            use_type_invariant(self);
        }
        self.start_address
    }
}

impl AddSpecImpl<u64> for PhysFrame {
    open spec fn obeys_add_spec() -> bool {
        true
    }

    open spec fn add_req(self, rhs: u64) -> bool {
        self.start()@ + rhs * 4096 <= u64::MAX
    }

    open spec fn add_spec(self, rhs: u64) -> PhysFrame {
        PhysFrame::at((self.start()@ + rhs * 4096) as u64)
    }
}

impl core::ops::Add<u64> for PhysFrame {
    type Output = PhysFrame;

    /// The frame `rhs` frames further up.
    fn add(self, rhs: u64) -> PhysFrame {
        proof {
            use_type_invariant(self);
        }
        let base = self.start_address.as_u64();
        assert(rhs * 4096 <= u64::MAX) by (nonlinear_arith)
            requires
                base + rhs * 4096 <= u64::MAX,
                base >= 0,
        ;
        let raw = base + rhs * Self::SIZE;
        proof {
            assert(raw % 4096 == 0) by (nonlinear_arith)
                requires
                    raw == base + rhs * 4096,
                    base % 4096 == 0,
            ;
        }
        PhysFrame { start_address: PhysAddr::new(raw) }
    }
}

} // verus!
