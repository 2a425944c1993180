//! Process identifiers.

use vstd::prelude::*;

verus! {

/// The identifier of a process. 0 names the kernel.
#[derive(Debug, Clone, Copy, PartialEq, Eq, PartialOrd, Ord, Hash, Structural)]
pub struct ProcessId(u64);

impl View for ProcessId {
    type V = u64;

    closed spec fn view(&self) -> u64 {
        self.0
    }
}

impl ProcessId {
    /// The identifier of the kernel.
    pub fn kernel() -> (r: Self)
        ensures
            r@ == 0,
    {
        Self(0)
    }

    /// The identifier with the value `id`.
    pub fn new(id: u64) -> (r: Self)
        ensures
            r@ == id,
    {
        Self(id)
    }

    /// The value of the identifier.
    pub fn as_u64(self) -> (r: u64)
        ensures
            r == self@,
    {
        self.0
    }

    /// Whether the identifier names the kernel.
    pub fn is_kernel(self) -> (r: bool)
        ensures
            r == (self@ == 0),
    {
        self.0 == 0
    }
}

} // verus!
