//! The task state segment: the stack pointers that the CPU loads when the
//! privilege level changes, and the table of dedicated interrupt stacks.

use vstd::prelude::*;

verus! {

/// Size in bytes of the stack on which the double-fault handler runs.
pub const DOUBLE_FAULT_STACK_SIZE: u64 = 16384;

/// Size in bytes of the segment in memory.
pub const TSS_SIZE: u16 = 104;

/// Index of the interrupt stack of the double-fault handler, as a gate names
/// it. It is slot 0 of the table.
pub const DOUBLE_FAULT_IST_INDEX: u16 = 1;

/// Number of 32-bit words of the segment in memory.
pub const TSS_WORDS: usize = 26;

/// Low 32 bits of `value` for `half == 0`, high 32 bits else.
pub open spec fn half_of(value: u64, half: int) -> u32 {
    if half == 0 {
        (value & 0xFFFF_FFFF) as u32
    } else {
        (value >> 32) as u32
    }
}

/// The task state segment.
#[derive(Debug, Clone, Copy, PartialEq, Eq)]
pub struct TaskStateSegment {
    reserved_1: u32,
    /// Stack pointers for the privilege levels 0 to 2.
    pub privilege_stack_table: [u64; 3],
    reserved_2: u64,
    /// Stack pointers of the interrupt stacks 1 to 7.
    pub interrupt_stack_table: [u64; 7],
    reserved_3: u64,
    reserved_4: u16,
    /// Offset of the I/O permission bitmap from the start of the segment.
    pub iomap_base: u16,
}

impl TaskStateSegment {
    /// The reserved fields are zero.
    pub closed spec fn wf(self) -> bool {
        self.reserved_1 == 0 && self.reserved_2 == 0 && self.reserved_3 == 0 && self.reserved_4
            == 0
    }

    /// The stack pointers for the privilege levels 0 to 2.
    pub closed spec fn privilege_stacks(self) -> Seq<u64> {
        self.privilege_stack_table@
    }

    /// The stack pointers of the interrupt stacks 1 to 7, at the indices 0 to
    /// 6.
    pub closed spec fn interrupt_stacks(self) -> Seq<u64> {
        self.interrupt_stack_table@
    }

    /// Offset of the I/O permission bitmap.
    pub closed spec fn iomap(self) -> u16 {
        self.iomap_base
    }

    /// Word `i` of the segment as it lies in memory: a reserved word, the
    /// three privilege stacks, two reserved words, the seven interrupt stacks,
    /// two reserved words, and a word whose upper half is the I/O map base.
    /// Each stack pointer takes two words, the low half first.
    pub open spec fn word(self, i: int) -> u32
        recommends
            0 <= i < 26,
    {
        if 1 <= i <= 6 {
            half_of(self.privilege_stacks()[(i - 1) / 2], (i - 1) % 2)
        } else if 9 <= i <= 22 {
            half_of(self.interrupt_stacks()[(i - 9) / 2], (i - 9) % 2)
        } else if i == 25 {
            (self.iomap() as u32) << 16
        } else {
            0
        }
    }

    /// A segment with every field zero.
    pub fn new() -> (r: Self)
        ensures
            r.wf(),
            r.iomap() == 0,
            r.privilege_stacks() == Seq::new(3, |i: int| 0u64),
            r.interrupt_stacks() == Seq::new(7, |i: int| 0u64),
    {
        let r = Self {
            reserved_1: 0,
            privilege_stack_table: [0;3],
            reserved_2: 0,
            interrupt_stack_table: [0;7],
            reserved_3: 0,
            reserved_4: 0,
            iomap_base: 0,
        };
        assert(r.privilege_stacks() =~= Seq::new(3, |i: int| 0u64));
        assert(r.interrupt_stacks() =~= Seq::new(7, |i: int| 0u64));
        r
    }

    /// The 26 words of the segment as they lie in memory.
    pub fn encode(&self) -> (r: Vec<u32>)
        requires
            self.wf(),
        ensures
            r@.len() == 26,
            forall|i: int| 0 <= i < 26 ==> #[trigger] r@[i] == self.word(i),
    {
        let mut words: Vec<u32> = Vec::new();
        words.push(self.reserved_1);
        let mut k: usize = 0;
        while k < 3
            invariant
                k <= 3,
                self.wf(),
                words@.len() == 1 + 2 * k,
                forall|i: int| 0 <= i < words@.len() ==> #[trigger] words@[i] == self.word(i),
            decreases 3 - k,
        {
            let value = self.privilege_stack_table[k];
            proof {
                lemma_halves(value);
            }
            words.push((value & 0xFFFF_FFFF) as u32);
            words.push((value >> 32) as u32);
            k += 1;
        }
        words.push(0);
        words.push(0);
        k = 0;
        while k < 7
            invariant
                k <= 7,
                self.wf(),
                words@.len() == 9 + 2 * k,
                forall|i: int| 0 <= i < words@.len() ==> #[trigger] words@[i] == self.word(i),
            decreases 7 - k,
        {
            let value = self.interrupt_stack_table[k];
            proof {
                lemma_halves(value);
            }
            words.push((value & 0xFFFF_FFFF) as u32);
            words.push((value >> 32) as u32);
            k += 1;
        }
        words.push(0);
        words.push(0);
        let base = self.iomap_base as u32;
        assert(base << 16 == (self.iomap_base as u32) << 16);
        words.push(base << 16);
        words
    }
}

/// Both halves of a 64-bit value fit in 32 bits.
proof fn lemma_halves(value: u64)
    by (bit_vector)
    ensures
        value & 0xFFFF_FFFF <= 0xFFFF_FFFF,
        value >> 32 <= 0xFFFF_FFFF,
{
}

/// Prepares the segment: interrupt stack 1, on which the double-fault handler
/// runs, gets the end of the 16 KiB buffer that starts at `stack_start`, since
/// stacks grow downwards; the I/O map base is set to the size of the segment,
/// which means that there is no I/O permission bitmap.
pub fn init(tss: &mut TaskStateSegment, stack_start: u64)
    requires
        old(tss).wf(),
        stack_start + DOUBLE_FAULT_STACK_SIZE <= u64::MAX,
    ensures
        final(tss).wf(),
        final(tss).interrupt_stacks() == old(tss).interrupt_stacks().update(
            0,
            (stack_start + DOUBLE_FAULT_STACK_SIZE) as u64,
        ),
        final(tss).privilege_stacks() == old(tss).privilege_stacks(),
        final(tss).iomap() == TSS_SIZE,
{
    let stack_end = stack_start + DOUBLE_FAULT_STACK_SIZE;
    tss.interrupt_stack_table[0] = stack_end;
    tss.iomap_base = TSS_SIZE;
}

} // verus!
