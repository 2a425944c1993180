//! The global descriptor table: a null descriptor, the flat code and data
//! segments of long mode, and the descriptor of the task state segment.

use super::tss::TSS_SIZE;
use vstd::prelude::*;

verus! {

/// Selector of the kernel code segment.
pub const CODE_SELECTOR: u16 = 0x08;

/// Selector of the kernel data segment.
pub const DATA_SELECTOR: u16 = 0x10;

/// Selector of the task state segment.
pub const TSS_SELECTOR: u16 = 0x18;

/// Size of the table in bytes: three descriptors of 8 bytes and one of 16.
pub const GDT_SIZE: u16 = 40;

/// Access byte of the code segment: present, ring 0, executable, readable.
pub const CODE_ACCESS: u8 = 0x9A;

/// Access byte of the data segment: present, ring 0, writable.
pub const DATA_ACCESS: u8 = 0x92;

/// Access byte of the task state segment: present, available 64-bit TSS.
pub const TSS_ACCESS: u8 = 0x89;

/// Granularity byte of the code segment: long mode.
pub const LONG_MODE: u8 = 0xA0;

/// The 64-bit word of a segment descriptor with the given fields.
pub open spec fn descriptor_word(
    limit_low: u16,
    base_low: u16,
    base_middle: u8,
    access: u8,
    granularity: u8,
    base_high: u8,
) -> u64 {
    (limit_low as u64) | ((base_low as u64) << 16) | ((base_middle as u64) << 32) | ((
    access as u64) << 40) | ((granularity as u64) << 48) | ((base_high as u64) << 56)
}

/// A segment descriptor of 8 bytes.
#[derive(Debug, Clone, Copy, PartialEq, Eq)]
struct GdtEntry {
    limit_low: u16,
    base_low: u16,
    base_middle: u8,
    access: u8,
    granularity: u8,
    base_high: u8,
}

impl GdtEntry {
    /// The descriptor as the CPU reads it.
    spec fn word(self) -> u64 {
        descriptor_word(
            self.limit_low,
            self.base_low,
            self.base_middle,
            self.access,
            self.granularity,
            self.base_high,
        )
    }

    /// The null descriptor.
    fn null() -> (r: Self)
        ensures
            r.word() == 0,
    {
        assert(descriptor_word(0, 0, 0, 0, 0, 0) == 0) by (bit_vector);
        Self { limit_low: 0, base_low: 0, base_middle: 0, access: 0, granularity: 0, base_high: 0 }
    }

    /// The code segment of long mode.
    fn code_segment() -> (r: Self)
        ensures
            r.word() == 0x00A0_9A00_0000_0000,
    {
        assert(descriptor_word(0, 0, 0, 0x9A, 0xA0, 0) == 0x00A0_9A00_0000_0000) by (bit_vector);
        Self {
            limit_low: 0,
            base_low: 0,
            base_middle: 0,
            access: CODE_ACCESS,
            granularity: LONG_MODE,
            base_high: 0,
        }
    }

    /// The data segment.
    fn data_segment() -> (r: Self)
        ensures
            r.word() == 0x0000_9200_0000_0000,
    {
        assert(descriptor_word(0, 0, 0, 0x92, 0, 0) == 0x0000_9200_0000_0000) by (bit_vector);
        Self {
            limit_low: 0,
            base_low: 0,
            base_middle: 0,
            access: DATA_ACCESS,
            granularity: 0,
            base_high: 0,
        }
    }

    /// The descriptor as the CPU reads it.
    fn encode(&self) -> (r: u64)
        ensures
            r == self.word(),
    {
        (self.limit_low as u64) | ((self.base_low as u64) << 16) | ((self.base_middle as u64)
            << 32) | ((self.access as u64) << 40) | ((self.granularity as u64) << 48) | ((
        self.base_high as u64) << 56)
    }
}

/// The low word of the descriptor of a task state segment at `base`: limit
/// 103, base bits 0..23, the access byte, base bits 24..31.
pub open spec fn tss_low_word(base: u64) -> u64 {
    0x67 | ((base & 0xFF_FFFF) << 16) | (0x89u64 << 40) | (((base >> 24) & 0xFF) << 56)
}

/// The high word of the descriptor of a task state segment at `base`: base
/// bits 32..63, then 32 reserved zero bits.
pub open spec fn tss_high_word(base: u64) -> u64 {
    base >> 32
}

/// How the address of the segment is cut up for its descriptor.
proof fn lemma_tss_pieces(base: u64)
    by (bit_vector)
    ensures
        base & 0xFFFF <= 0xFFFF,
        (base >> 16) & 0xFF <= 0xFF,
        (base >> 24) & 0xFF <= 0xFF,
        base >> 32 <= 0xFFFF_FFFF,
        (base & 0xFFFF) | (((base >> 16) & 0xFF) << 16) | (((base >> 24) & 0xFF) << 24) | ((base
            >> 32) << 32) == base,
        0x67 | ((base & 0xFFFF) << 16) | (((base >> 16) & 0xFF) << 32) | (0x89u64 << 40) | (0u64
            << 48) | (((base >> 24) & 0xFF) << 56) == 0x67 | ((base & 0xFF_FFFF) << 16) | (0x89u64
            << 40) | (((base >> 24) & 0xFF) << 56),
        (base >> 32) | (0u64 << 32) == base >> 32,
{
}

/// The descriptor of the task state segment: 16 bytes.
#[derive(Debug, Clone, Copy, PartialEq, Eq)]
struct TssDescriptor {
    length: u16,
    base_low: u16,
    base_middle: u8,
    access: u8,
    granularity: u8,
    base_high: u8,
    base_upper: u32,
    reserved: u32,
}

impl TssDescriptor {
    /// Address of the segment that the descriptor names.
    spec fn base(self) -> u64 {
        (self.base_low as u64) | ((self.base_middle as u64) << 16) | ((self.base_high as u64)
            << 24) | ((self.base_upper as u64) << 32)
    }

    /// The two words of the descriptor as the CPU reads them.
    spec fn words(self) -> (u64, u64) {
        (
            descriptor_word(
                self.length,
                self.base_low,
                self.base_middle,
                self.access,
                self.granularity,
                self.base_high,
            ),
            (self.base_upper as u64) | ((self.reserved as u64) << 32),
        )
    }

    /// The descriptor of no segment: all zeros.
    fn empty() -> (r: Self)
        ensures
            r.words() == (0u64, 0u64),
            r.base() == 0,
    {
        assert(descriptor_word(0, 0, 0, 0, 0, 0) == 0 && (0u64 | (0u64 << 32)) == 0 && (0u64 | (
        0u64 << 16) | (0u64 << 24) | (0u64 << 32)) == 0) by (bit_vector);
        Self {
            length: 0,
            base_low: 0,
            base_middle: 0,
            access: 0,
            granularity: 0,
            base_high: 0,
            base_upper: 0,
            reserved: 0,
        }
    }

    /// The descriptor of the task state segment that lies at `tss_addr`.
    fn new(tss_addr: u64) -> (r: Self)
        ensures
            r.base() == tss_addr,
            r.words() == (tss_low_word(tss_addr), tss_high_word(tss_addr)),
    {
        proof {
            lemma_tss_pieces(tss_addr);
        }
        Self {
            length: TSS_SIZE - 1,
            base_low: (tss_addr & 0xFFFF) as u16,
            base_middle: ((tss_addr >> 16) & 0xFF) as u8,
            access: TSS_ACCESS,
            granularity: 0,
            base_high: ((tss_addr >> 24) & 0xFF) as u8,
            base_upper: (tss_addr >> 32) as u32,
            reserved: 0,
        }
    }

    /// The two words of the descriptor as the CPU reads them.
    fn encode(&self) -> (r: (u64, u64))
        ensures
            r == self.words(),
    {
        let low = (self.length as u64) | ((self.base_low as u64) << 16) | ((
        self.base_middle as u64) << 32) | ((self.access as u64) << 40) | ((
        self.granularity as u64) << 48) | ((self.base_high as u64) << 56);
        let high = (self.base_upper as u64) | ((self.reserved as u64) << 32);
        (low, high)
    }
}

/// Operand of `lgdt`: size of the table in bytes minus one, and its address.
#[derive(Debug, Clone, Copy, PartialEq, Eq, Structural)]
pub struct GdtPointer {
    /// Size of the table in bytes, minus one.
    pub limit: u16,
    /// Linear address of the table.
    pub base: u64,
}

/// The five words of a table whose task state segment lies at `tss_base`, or
/// has not been set where `tss_base` is `None`.
pub open spec fn gdt_words(tss_base: Option<u64>) -> Seq<u64> {
    seq![
        0u64,
        0x00A0_9A00_0000_0000u64,
        0x0000_9200_0000_0000u64,
        match tss_base {
            Some(base) => tss_low_word(base),
            None => 0,
        },
        match tss_base {
            Some(base) => tss_high_word(base),
            None => 0,
        },
    ]
}

/// The global descriptor table.
#[derive(Debug, Clone, Copy, PartialEq, Eq)]
pub struct Gdt {
    null: GdtEntry,
    code: GdtEntry,
    data: GdtEntry,
    tss: TssDescriptor,
}

impl Gdt {
    /// The five 64-bit words of the table as the CPU reads them: null, code,
    /// data, and the two words of the TSS descriptor.
    pub closed spec fn words(self) -> Seq<u64> {
        seq![
            self.null.word(),
            self.code.word(),
            self.data.word(),
            self.tss.words().0,
            self.tss.words().1,
        ]
    }

    /// Address of the task state segment that the table names.
    pub closed spec fn tss_base(self) -> u64 {
        self.tss.base()
    }

    /// The table with its three fixed descriptors and no task state segment
    /// yet.
    pub fn new() -> (r: Self)
        ensures
            r.words() == gdt_words(None),
    {
        Self {
            null: GdtEntry::null(),
            code: GdtEntry::code_segment(),
            data: GdtEntry::data_segment(),
            tss: TssDescriptor::empty(),
        }
    }

    /// Names the task state segment that lies at `tss_addr`. The other
    /// descriptors stay.
    pub fn set_tss(&mut self, tss_addr: u64)
        ensures
            final(self).tss_base() == tss_addr,
            final(self).words() == old(self).words().update(3, tss_low_word(tss_addr)).update(
                4,
                tss_high_word(tss_addr),
            ),
    {
        self.tss = TssDescriptor::new(tss_addr);
        assert(self.words() =~= old(self).words().update(3, tss_low_word(tss_addr)).update(
            4,
            tss_high_word(tss_addr),
        ));
    }

    /// The five words of the table as the CPU reads them.
    pub fn encode(&self) -> (r: Vec<u64>)
        ensures
            r@ == self.words(),
    {
        let mut words: Vec<u64> = Vec::new();
        words.push(self.null.encode());
        words.push(self.code.encode());
        words.push(self.data.encode());
        let (low, high) = self.tss.encode();
        words.push(low);
        words.push(high);
        assert(words@ =~= self.words());
        words
    }
}

/// What has to be loaded once the table is in place: the table itself, then
/// the code segment, the data segments and the task register, in this order.
#[derive(Debug, Clone, Copy, PartialEq, Eq, Structural)]
pub struct GdtLoad {
    /// Operand of `lgdt`.
    pub pointer: GdtPointer,
    /// Selector for CS.
    pub code_selector: u16,
    /// Selector for DS, ES, FS, GS and SS.
    pub data_selector: u16,
    /// Selector for the task register.
    pub tss_selector: u16,
}

/// Completes the table with the descriptor of the task state segment at
/// `tss_addr` and says what to load for a table that lies at `gdt_addr`.
pub fn init(gdt: &mut Gdt, tss_addr: u64, gdt_addr: u64) -> (r: GdtLoad)
    ensures
        final(gdt).tss_base() == tss_addr,
        final(gdt).words() == old(gdt).words().update(3, tss_low_word(tss_addr)).update(
            4,
            tss_high_word(tss_addr),
        ),
        r == (GdtLoad {
            pointer: GdtPointer { limit: 39, base: gdt_addr },
            code_selector: CODE_SELECTOR,
            data_selector: DATA_SELECTOR,
            tss_selector: TSS_SELECTOR,
        }),
{
    gdt.set_tss(tss_addr);
    GdtLoad {
        pointer: GdtPointer { limit: GDT_SIZE - 1, base: gdt_addr },
        code_selector: CODE_SELECTOR,
        data_selector: DATA_SELECTOR,
        tss_selector: TSS_SELECTOR,
    }
}

} // verus!
