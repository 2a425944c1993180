//! The kernel heap: a fixed region served by the bump allocator.

use super::allocator::{BumpAllocator, HeapUsage};
use vstd::prelude::*;

verus! {

/// Size of the kernel heap in bytes: 100 KiB.
pub const HEAP_SIZE: usize = 102400;

/// Gives `allocator` the heap that lies at `heap_start` and ends inside the
/// address space.
pub fn init_heap(allocator: &mut BumpAllocator, heap_start: usize)
    requires
        heap_start + HEAP_SIZE <= usize::MAX,
    ensures
        final(allocator).wf(),
        final(allocator).start() == heap_start,
        final(allocator).end() == heap_start + HEAP_SIZE,
        final(allocator).next() == heap_start,
        final(allocator).live() == old(allocator).live(),
{
    allocator.init(heap_start, HEAP_SIZE);
}

/// How much of the heap is in use.
pub fn heap_usage(allocator: &BumpAllocator) -> (r: HeapUsage)
    requires
        allocator.wf(),
    ensures
        r == (HeapUsage {
            total: (allocator.end() - allocator.start()) as usize,
            used: (allocator.next() - allocator.start()) as usize,
            allocations: allocator.live(),
        }),
{
    allocator.usage()
}

} // verus!
