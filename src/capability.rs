use vstd::prelude::*;

verus! {

/// A named build capability that can gate a declaration.
#[derive(Clone, Copy, Debug, PartialEq, Eq, Structural)]
pub enum Capability {
    /// Support for shared-memory buffers.
    SharedMemory,
    /// API surface that is not yet stabilized.
    Unstable,
}

/// A set of capabilities: those active in a build, or those a declaration
/// requires.
#[derive(Clone, Copy, Debug, PartialEq, Eq, Structural)]
pub struct Capabilities {
    shared_memory: bool,
    unstable: bool,
}

impl View for Capabilities {
    type V = Set<Capability>;

    closed spec fn view(&self) -> Set<Capability> {
        Set::new(
            |c: Capability|
                match c {
                    Capability::SharedMemory => self.shared_memory,
                    Capability::Unstable => self.unstable,
                },
        )
    }
}

impl Capabilities {
    /// The empty set: no capability.
    pub fn none() -> (r: Capabilities)
        ensures
            r@ == Set::<Capability>::empty(),
    {
        let r = Capabilities { shared_memory: false, unstable: false };
        assert(r@ =~= Set::<Capability>::empty());
        r
    }

    /// Every capability.
    pub fn all() -> (r: Capabilities)
        ensures
            r@ == Set::<Capability>::full(),
    {
        let r = Capabilities { shared_memory: true, unstable: true };
        assert(r@ =~= Set::<Capability>::full());
        r
    }

    /// Whether `c` is in the set.
    pub fn contains(&self, c: Capability) -> (r: bool)
        ensures
            r == self@.contains(c),
    {
        match c {
            Capability::SharedMemory => self.shared_memory,
            Capability::Unstable => self.unstable,
        }
    }

    /// The set with `c` added.
    pub fn with(&self, c: Capability) -> (r: Capabilities)
        ensures
            r@ == self@.insert(c),
    {
        let r = match c {
            Capability::SharedMemory => Capabilities { shared_memory: true, unstable: self.unstable },
            Capability::Unstable => Capabilities { shared_memory: self.shared_memory, unstable: true },
        };
        assert(r@ =~= self@.insert(c));
        r
    }

    /// The set with `c` removed.
    pub fn without(&self, c: Capability) -> (r: Capabilities)
        ensures
            r@ == self@.remove(c),
    {
        let r = match c {
            Capability::SharedMemory => Capabilities { shared_memory: false, unstable: self.unstable },
            Capability::Unstable => Capabilities { shared_memory: self.shared_memory, unstable: false },
        };
        assert(r@ =~= self@.remove(c));
        r
    }

    /// Whether every capability of `self` is also in `active`.
    pub fn is_subset_of(&self, active: &Capabilities) -> (r: bool)
        ensures
            r == self@.subset_of(active@),
    {
        let r = (!self.shared_memory || active.shared_memory) && (!self.unstable || active.unstable);
        assert(r == self@.subset_of(active@)) by {
            if !r {
                if self.shared_memory && !active.shared_memory {
                    assert(self@.contains(Capability::SharedMemory));
                } else {
                    assert(self@.contains(Capability::Unstable));
                }
            }
        }
        r
    }
}

} // verus!
