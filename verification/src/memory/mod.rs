//! Address types, page-table entries, the page-table walker and the kernel
//! heap.

pub mod address;
pub mod allocator;
pub mod heap;
pub mod paging;

pub use address::{Page, PhysAddr, PhysFrame, VirtAddr, PAGE_SIZE};
pub use allocator::{BumpAllocator, HeapUsage, Locked};
pub use heap::{heap_usage, init_heap, HEAP_SIZE};
pub use paging::{PageTable, PageTableEntry, PageTableFlags, PageTableManager};
