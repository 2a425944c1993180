//! The capabilities that a process holds.

use vstd::prelude::*;

verus! {

/// The kinds of objects that a capability can refer to.
#[derive(Debug, Clone, Copy, PartialEq, Eq, Structural)]
pub enum CapabilityType {
    /// A region of memory.
    Memory,
    /// An IPC endpoint.
    Endpoint,
    /// A process.
    Process,
    /// A device.
    Device,
}

/// A token that grants permissions on one object.
#[derive(Debug, Clone, Copy, PartialEq, Eq, Structural)]
pub struct Capability {
    /// Kind of the object.
    pub cap_type: CapabilityType,
    /// The object.
    pub object_id: u64,
    /// The permissions granted.
    pub permissions: u64,
}

/// The capabilities of a process, in the order in which they were added.
#[derive(Debug, Clone, PartialEq, Eq)]
pub struct CapabilitySet {
    capabilities: Vec<Capability>,
}

impl View for CapabilitySet {
    type V = Seq<Capability>;

    closed spec fn view(&self) -> Seq<Capability> {
        self.capabilities@
    }
}

/// `i` is the index of the first element of `s` that equals `cap`.
pub open spec fn is_first_index(s: Seq<Capability>, cap: Capability, i: int) -> bool {
    0 <= i < s.len() && s[i] == cap && forall|j: int| 0 <= j < i ==> s[j] != cap
}

/// The index of the first element of `s` that equals `cap`.
pub open spec fn first_index(s: Seq<Capability>, cap: Capability) -> int {
    choose|i: int| is_first_index(s, cap, i)
}

impl CapabilitySet {
    /// Some capability of the set has the type `cap_type`.
    pub open spec fn has_type(self, cap_type: CapabilityType) -> bool {
        exists|i: int| 0 <= i < self@.len() && (#[trigger] self@[i]).cap_type == cap_type
    }

    /// The empty set.
    pub fn new() -> (r: Self)
        ensures
            r@ == Seq::<Capability>::empty(),
    {
        Self { capabilities: Vec::new() }
    }

    /// The set that holds `caps`, as they are.
    pub fn with_capabilities(caps: Vec<Capability>) -> (r: Self)
        ensures
            r@ == caps@,
    {
        Self { capabilities: caps }
    }

    /// Index of the first capability equal to `cap`, if there is one.
    fn position(&self, cap: &Capability) -> (r: Option<usize>)
        ensures
            match r {
                Some(i) => is_first_index(self@, *cap, i as int) && first_index(self@, *cap) == i,
                None => !self@.contains(*cap),
            },
    {
        let mut i: usize = 0;
        while i < self.capabilities.len()
            invariant
                i <= self@.len(),
                forall|j: int| 0 <= j < i ==> self@[j] != *cap,
            decreases self@.len() - i,
        {
            if self.capabilities[i] == *cap {
                assert(is_first_index(self@, *cap, i as int));
                return Some(i);
            }
            i += 1;
        }
        None
    }

    /// Adds `cap` at the end, unless the set holds it already.
    pub fn add(&mut self, cap: Capability)
        ensures
            final(self)@ == if old(self)@.contains(cap) {
                old(self)@
            } else {
                old(self)@.push(cap)
            },
            final(self)@.contains(cap),
    {
        if self.position(&cap).is_none() {
            self.capabilities.push(cap);
            assert(self@[self@.len() - 1] == cap);
        }
    }

    /// Removes the first capability equal to `cap` and says whether there was
    /// one.
    pub fn remove(&mut self, cap: &Capability) -> (r: bool)
        ensures
            r == old(self)@.contains(*cap),
            !r ==> final(self)@ == old(self)@,
            r ==> final(self)@ == old(self)@.remove(first_index(old(self)@, *cap)),
            r ==> final(self)@.len() == old(self)@.len() - 1,
    {
        match self.position(cap) {
            Some(pos) => {
                self.capabilities.remove(pos);
                true
            },
            None => false,
        }
    }

    /// Whether the set holds `cap`.
    pub fn contains(&self, cap: &Capability) -> (r: bool)
        ensures
            r == self@.contains(*cap),
    {
        self.position(cap).is_some()
    }

    /// Whether the set holds a capability of the type `cap_type`.
    pub fn has_capability_type(&self, cap_type: CapabilityType) -> (r: bool)
        ensures
            r == self.has_type(cap_type),
    {
        let mut i: usize = 0;
        while i < self.capabilities.len()
            invariant
                i <= self@.len(),
                forall|j: int| 0 <= j < i ==> (#[trigger] self@[j]).cap_type != cap_type,
            decreases self@.len() - i,
        {
            if self.capabilities[i].cap_type == cap_type {
                return true;
            }
            i += 1;
        }
        false
    }

    /// Number of capabilities.
    pub fn len(&self) -> (r: usize)
        ensures
            r == self@.len(),
    {
        self.capabilities.len()
    }

    /// Whether the set is empty.
    pub fn is_empty(&self) -> (r: bool)
        ensures
            r == (self@.len() == 0),
    {
        self.capabilities.len() == 0
    }

    /// An iterator over the capabilities, in the order in which they were
    /// added.
    pub fn iter(&self) -> (r: core::slice::Iter<'_, Capability>)
        ensures
            vstd::std_specs::slice::into_iter_elts(r) == self@,
    {
        self.capabilities.iter()
    }

    /// Removes every capability.
    pub fn clear(&mut self)
        ensures
            final(self)@ == Seq::<Capability>::empty(),
    {
        self.capabilities.clear();
    }
}

impl Default for CapabilitySet {
    fn default() -> (r: Self)
        ensures
            r@ == Seq::<Capability>::empty(),
    {
        Self::new()
    }
}

} // verus!
