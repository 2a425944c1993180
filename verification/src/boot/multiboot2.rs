//! The Multiboot2 hand-over: the magic number that shows that a compliant
//! loader started the kernel, and the address of its information structure.
//!
//! The structure itself is not read yet: the queries answer that nothing is
//! known.

use vstd::prelude::*;

verus! {

/// The value that a Multiboot2 loader leaves in EAX.
pub const MULTIBOOT2_MAGIC: u32 = 0x36d76289;

/// The boot information of a Multiboot2 loader.
#[derive(Debug, Clone, Copy, PartialEq, Eq)]
pub struct Multiboot2Info {
    info_addr: usize,
}

/// The kinds of memory that a loader reports.
#[derive(Debug, Clone, Copy, PartialEq, Eq, Structural)]
pub enum MemoryRegionType {
    /// RAM that the kernel may use.
    Usable,
    /// Reserved by hardware or firmware.
    Reserved,
    /// Holds ACPI tables and may be used once they are read.
    AcpiReclaimable,
    /// ACPI non-volatile storage.
    AcpiNvs,
    /// Defective.
    BadMemory,
}

impl MemoryRegionType {
    /// The number under which the loader reports the kind.
    pub open spec fn code_of(self) -> u32 {
        match self {
            MemoryRegionType::Usable => 1,
            MemoryRegionType::Reserved => 2,
            MemoryRegionType::AcpiReclaimable => 3,
            MemoryRegionType::AcpiNvs => 4,
            MemoryRegionType::BadMemory => 5,
        }
    }

    /// The number under which the loader reports the kind.
    pub fn code(self) -> (r: u32)
        ensures
            r == self.code_of(),
    {
        match self {
            MemoryRegionType::Usable => 1,
            MemoryRegionType::Reserved => 2,
            MemoryRegionType::AcpiReclaimable => 3,
            MemoryRegionType::AcpiNvs => 4,
            MemoryRegionType::BadMemory => 5,
        }
    }
}

/// A region of physical memory.
#[derive(Debug, Clone, Copy, PartialEq, Eq)]
pub struct MemoryRegion {
    /// First physical address.
    pub base_addr: u64,
    /// Length in bytes.
    pub length: u64,
    /// Kind of memory.
    pub region_type: MemoryRegionType,
}

/// The kinds of framebuffer.
#[derive(Debug, Clone, Copy, PartialEq, Eq, Structural)]
pub enum FramebufferType {
    /// Colours are indices into a palette.
    Indexed,
    /// Direct RGB colour.
    Rgb,
    /// EGA text mode.
    EgaText,
}

impl FramebufferType {
    /// The number under which the loader reports the kind.
    pub fn code(self) -> (r: u8)
        ensures
            r == match self {
                FramebufferType::Indexed => 0u8,
                FramebufferType::Rgb => 1u8,
                FramebufferType::EgaText => 2u8,
            },
    {
        match self {
            FramebufferType::Indexed => 0,
            FramebufferType::Rgb => 1,
            FramebufferType::EgaText => 2,
        }
    }
}

/// The framebuffer that the loader set up.
#[derive(Debug, Clone, Copy, PartialEq, Eq)]
pub struct FramebufferInfo {
    /// Physical address.
    pub addr: u64,
    /// Bytes per line.
    pub pitch: u32,
    /// Width in pixels.
    pub width: u32,
    /// Height in pixels.
    pub height: u32,
    /// Bits per pixel.
    pub bpp: u8,
    /// Kind of framebuffer.
    pub fb_type: FramebufferType,
}

impl Multiboot2Info {
    /// Address of the information structure.
    pub closed spec fn addr(self) -> usize {
        self.info_addr
    }

    /// The boot information at `info_addr`, if `magic` is the Multiboot2
    /// magic number. The caller vouches for the address.
    pub fn from_ptr(magic: u32, info_addr: usize) -> (r: Option<Self>)
        ensures
            r is Some <==> magic == MULTIBOOT2_MAGIC,
            r is Some ==> r.unwrap().addr() == info_addr,
    {
        if magic == MULTIBOOT2_MAGIC {
            Some(Self { info_addr })
        } else {
            None
        }
    }

    /// Address of the information structure.
    pub fn info_addr(&self) -> (r: usize)
        ensures
            r == self.addr(),
    {
        self.info_addr
    }

    /// The memory map. It is not read yet: there are no regions.
    pub fn memory_map(&self) -> (r: Vec<MemoryRegion>)
        ensures
            r@.len() == 0,
    {
        Vec::new()
    }

    /// The framebuffer. It is not read yet: there is none.
    pub fn framebuffer_info(&self) -> (r: Option<FramebufferInfo>)
        ensures
            r is None,
    {
        None
    }

    /// The size of memory. It is not read yet: it is unknown.
    pub fn total_memory(&self) -> (r: Option<usize>)
        ensures
            r is None,
    {
        None
    }
}

} // verus!
