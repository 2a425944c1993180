//! The bump allocator of the kernel heap.
//!
//! The allocator hands out memory by moving a pointer forward through one
//! region. It cannot give single blocks back; once every block has been
//! returned it starts again at the beginning of the region.
//!
//! [`BumpAllocator`] is the bookkeeping, with exact contracts. [`Locked`]
//! puts it behind the spin lock of the `spin` crate, so that it can serve as
//! the one allocator of the kernel. Whoever held the lock last decides what
//! is found behind it, so the contracts of the locked operations state only
//! what holds in every case.

use super::address::{is_power_of_two, lemma_mask_rounds_up, align_up_spec};
use vstd::prelude::*;

verus! {

/// The bookkeeping of the bump allocator.
#[derive(Debug, Clone, Copy, PartialEq, Eq)]
pub struct BumpAllocator {
    heap_start: usize,
    heap_end: usize,
    next: usize,
    allocations: usize,
}

/// How much of the heap is in use.
#[derive(Debug, Clone, Copy, PartialEq, Eq, Structural)]
pub struct HeapUsage {
    /// Size of the heap in bytes.
    pub total: usize,
    /// Bytes between the start of the heap and the bump pointer.
    pub used: usize,
    /// Number of blocks handed out and not returned.
    pub allocations: usize,
}

/// The smallest multiple of the power of two `align` that is not below
/// `addr`, which has to fit in a `usize`.
pub fn align_up(addr: usize, align: usize) -> (r: usize)
    requires
        is_power_of_two(align as u64),
        addr + align - 1 <= usize::MAX,
    ensures
        r == align_up_spec(addr as u64, align as u64),
        r % align == 0,
        addr <= r < addr + align,
{
    proof {
        lemma_mask_rounds_up(addr as u64, align as u64);
    }
    let wide = (addr as u64 + (align as u64 - 1)) & !(align as u64 - 1);
    wide as usize
}

impl BumpAllocator {
    /// First address of the heap.
    pub closed spec fn start(self) -> usize {
        self.heap_start
    }

    /// First address after the heap.
    pub closed spec fn end(self) -> usize {
        self.heap_end
    }

    /// The bump pointer: where the next block starts at the earliest.
    pub closed spec fn next(self) -> usize {
        self.next
    }

    /// Number of blocks handed out and not returned.
    pub closed spec fn live(self) -> usize {
        self.allocations
    }

    /// The bump pointer lies inside the heap.
    pub open spec fn wf(self) -> bool {
        self.start() <= self.next() <= self.end()
    }

    /// Where a block of alignment `align` would start.
    pub open spec fn block_start(self, align: usize) -> int {
        align_up_spec(self.next() as u64, align as u64)
    }

    /// A block of `size` bytes with alignment `align` fits.
    pub open spec fn fits(self, size: usize, align: usize) -> bool {
        self.block_start(align) + size <= self.end()
    }

    /// A request of alignment `align` can be worked on: the bookkeeping is
    /// sound and neither the rounding nor the count of blocks would overflow.
    pub open spec fn serves(self, align: usize) -> bool {
        self.wf() && self.next() + align - 1 <= usize::MAX && self.live() < usize::MAX
    }

    /// The usage that `usage` reports.
    pub open spec fn usage_of(self) -> HeapUsage {
        HeapUsage {
            total: (self.end() - self.start()) as usize,
            used: (self.next() - self.start()) as usize,
            allocations: self.live(),
        }
    }

    /// An allocator without a heap. Every request fails until `init`.
    pub fn new() -> (r: Self)
        ensures
            r.wf(),
            r.start() == 0,
            r.end() == 0,
            r.next() == 0,
            r.live() == 0,
    {
        Self { heap_start: 0, heap_end: 0, next: 0, allocations: 0 }
    }

    /// Gives the allocator the region of `heap_size` bytes at `heap_start`,
    /// which has to end inside the address space.
    pub fn init(&mut self, heap_start: usize, heap_size: usize)
        requires
            heap_start + heap_size <= usize::MAX,
        ensures
            final(self).wf(),
            final(self).start() == heap_start,
            final(self).end() == heap_start + heap_size,
            final(self).next() == heap_start,
            final(self).live() == old(self).live(),
    {
        self.heap_start = heap_start;
        self.heap_end = heap_start + heap_size;
        self.next = heap_start;
    }

    /// Whether the bump pointer lies inside the heap.
    pub fn is_sound(&self) -> (r: bool)
        ensures
            r == self.wf(),
    {
        self.heap_start <= self.next && self.next <= self.heap_end
    }

    /// Whether a request of alignment `align` can be worked on: the
    /// bookkeeping is sound and neither the rounding nor the count of blocks
    /// would overflow.
    pub fn can_serve(&self, align: usize) -> (r: bool)
        requires
            align > 0,
        ensures
            r == self.serves(align),
    {
        self.heap_start <= self.next && self.next <= self.heap_end && self.next <= usize::MAX - (
        align - 1) && self.allocations < usize::MAX
    }

    /// The bump pointer.
    pub fn bump_pointer(&self) -> (r: usize)
        ensures
            r == self.next(),
    {
        self.next
    }

    /// How much of the heap is in use.
    pub fn usage(&self) -> (r: HeapUsage)
        requires
            self.wf(),
        ensures
            r == (HeapUsage {
                total: (self.end() - self.start()) as usize,
                used: (self.next() - self.start()) as usize,
                allocations: self.live(),
            }),
    {
        HeapUsage {
            total: self.heap_end - self.heap_start,
            used: self.next - self.heap_start,
            allocations: self.allocations,
        }
    }

    /// Hands out a block of `size` bytes whose address is a multiple of the
    /// power of two `align`: the first such address from the bump pointer on.
    /// Where the block does not fit in the heap there is none, and nothing
    /// changes.
    pub fn allocate(&mut self, size: usize, align: usize) -> (r: Option<usize>)
        requires
            old(self).wf(),
            is_power_of_two(align as u64),
            old(self).next() + align - 1 <= usize::MAX,
            old(self).live() < usize::MAX,
        ensures
            final(self).wf(),
            final(self).start() == old(self).start(),
            final(self).end() == old(self).end(),
            r is Some <==> old(self).fits(size, align),
            match r {
                Some(addr) => {
                    &&& addr == old(self).block_start(align)
                    &&& addr % align == 0
                    &&& final(self).next() == addr + size
                    &&& final(self).live() == old(self).live() + 1
                },
                None => final(self).next() == old(self).next() && final(self).live() == old(
                    self,
                ).live(),
            },
    {
        let alloc_start = align_up(self.next, align);
        let alloc_end = match alloc_start.checked_add(size) {
            Some(end) => end,
            None => {
                return None;
            },
        };
        if alloc_end > self.heap_end {
            None
        } else {
            self.next = alloc_end;
            self.allocations += 1;
            Some(alloc_start)
        }
    }

    /// Takes back one block. The memory is free again only when no block is
    /// left: then the bump pointer returns to the start of the heap.
    pub fn deallocate(&mut self)
        requires
            old(self).wf(),
            old(self).live() > 0,
        ensures
            final(self).wf(),
            final(self).start() == old(self).start(),
            final(self).end() == old(self).end(),
            final(self).live() == old(self).live() - 1,
            final(self).next() == if old(self).live() == 1 {
                old(self).start()
            } else {
                old(self).next()
            },
    {
        self.allocations -= 1;
        if self.allocations == 0 {
            self.next = self.heap_start;
        }
    }

    /// Hands out a block as `allocate` does, for an allocator in any state,
    /// such as one found behind a lock. There is a block exactly where the
    /// request can be worked on and the block fits in the heap; it is the one
    /// that `allocate` gives. Else there is none and the allocator stays as
    /// it is.
    pub fn try_allocate(&mut self, size: usize, align: usize) -> (r: Option<usize>)
        requires
            is_power_of_two(align as u64),
        ensures
            r is Some <==> old(self).serves(align) && old(self).fits(size, align),
            match r {
                Some(addr) => {
                    &&& addr == old(self).block_start(align)
                    &&& addr % align == 0
                    &&& addr + size <= old(self).end()
                    &&& final(self).wf()
                    &&& final(self).start() == old(self).start()
                    &&& final(self).end() == old(self).end()
                    &&& final(self).next() == addr + size
                    &&& final(self).live() == old(self).live() + 1
                },
                None => *final(self) == *old(self),
            },
    {
        if !self.can_serve(align) {
            return None;
        }
        self.allocate(size, align)
    }

    /// Takes back one block as `deallocate` does, for an allocator in any
    /// state, and says whether it did: it does where the bookkeeping is sound
    /// and a block is out. Else the allocator stays as it is.
    pub fn try_deallocate(&mut self) -> (r: bool)
        ensures
            r == (old(self).wf() && old(self).live() > 0),
            r ==> {
                &&& final(self).wf()
                &&& final(self).start() == old(self).start()
                &&& final(self).end() == old(self).end()
                &&& final(self).live() == old(self).live() - 1
                &&& final(self).next() == if old(self).live() == 1 {
                    old(self).start()
                } else {
                    old(self).next()
                }
            },
            !r ==> *final(self) == *old(self),
    {
        if !self.is_sound() || self.allocations == 0 {
            return false;
        }
        self.deallocate();
        true
    }

    /// The usage as `usage` reports it, for an allocator in any state: there
    /// is one exactly where the bookkeeping is sound.
    pub fn try_usage(&self) -> (r: Option<HeapUsage>)
        ensures
            r == if self.wf() {
                Some(self.usage_of())
            } else {
                None
            },
    {
        if !self.is_sound() {
            return None;
        }
        Some(self.usage())
    }
}

/// The spin lock of the `spin` crate.
#[verifier::external_type_specification]
#[verifier::external_body]
#[verifier::reject_recursive_types(T)]
#[verifier::reject_recursive_types(R)]
pub struct ExMutex<T: ?Sized, R>(spin::mutex::Mutex<T, R>);

/// The relax strategy of the spin lock: busy waiting.
#[verifier::external_type_specification]
#[verifier::external_body]
pub struct ExSpin(spin::relax::Spin);

/// The guard through which the value behind a spin lock is reached.
#[verifier::external_type_specification]
#[verifier::external_body]
#[verifier::reject_recursive_types(T)]
pub struct ExMutexGuard<'a, T: 'a + ?Sized>(spin::mutex::MutexGuard<'a, T>);

/// A value behind a spin lock, so that a shared allocator can be changed.
#[verifier::reject_recursive_types(A)]
pub struct Locked<A> {
    inner: spin::mutex::Mutex<A, spin::relax::Spin>,
}

impl<A> Locked<A> {
    /// Puts `inner` behind a lock. This is `spin::Mutex::new`.
    #[verifier::external_body]
    pub fn new(inner: A) -> (r: Self) {
        Self { inner: spin::mutex::Mutex::new(inner) }
    }

    /// Waits for the lock and hands out the guard. This is
    /// `spin::Mutex::lock`. What the value behind the lock is depends on who
    /// held the lock before, so nothing is said of it.
    #[verifier::external_body]
    pub fn lock(&self) -> (r: spin::mutex::MutexGuard<'_, A>) {
        self.inner.lock()
    }
}

/// The value behind the lock that `guard` holds, for changing it. This is the
/// `DerefMut` of `spin::MutexGuard`.
#[verifier::external_body]
fn locked_value<'a, 'b, A>(guard: &'a mut spin::mutex::MutexGuard<'b, A>) -> (r: &'a mut A) {
    &mut **guard
}

impl Locked<BumpAllocator> {
    /// Hands out a block of `size` bytes from the allocator behind the lock:
    /// the result is that of `BumpAllocator::try_allocate` on the allocator
    /// found there. Which allocator that is depends on who held the lock
    /// before; whatever it is, a block handed out is aligned as asked.
    pub fn allocate(&self, size: usize, align: usize) -> (r: Option<usize>)
        requires
            is_power_of_two(align as u64),
        ensures
            r is Some ==> r.unwrap() % align == 0,
    {
        let mut guard = self.lock();
        let allocator = locked_value(&mut guard);
        allocator.try_allocate(size, align)
    }

    /// Takes back one block: the result is that of
    /// `BumpAllocator::try_deallocate` on the allocator found behind the
    /// lock.
    pub fn deallocate(&self) -> (r: bool)
    {
        let mut guard = self.lock();
        let allocator = locked_value(&mut guard);
        allocator.try_deallocate()
    }

    /// The usage of the allocator found behind the lock: the result is that
    /// of `BumpAllocator::try_usage` on it. What is in use never exceeds the
    /// heap.
    pub fn usage(&self) -> (r: Option<HeapUsage>)
        ensures
            r is Some ==> r.unwrap().used <= r.unwrap().total,
    {
        let mut guard = self.lock();
        let allocator = locked_value(&mut guard);
        allocator.try_usage()
    }
}

} // verus!
