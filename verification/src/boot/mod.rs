//! What the boot loader hands over.

pub mod multiboot2;

pub use multiboot2::{MemoryRegion, MemoryRegionType, Multiboot2Info};
