//! Handles for resources.

use vstd::prelude::*;

verus! {

/// A handle for a resource: a number that is given out once and stands for
/// the same resource ever after. Zero is no handle.
#[derive(Clone, Copy, PartialEq, Eq, Structural, Hash, Debug)]
pub struct Entity(pub u64);

/// Gives out the handles, counting up from one.
#[derive(Debug)]
pub struct EntityManager {
    next: Entity,
}

impl View for EntityManager {
    type V = nat;

    /// The number of the handle that is given out next: every handle given
    /// out so far has a smaller number, and every later one a greater.
    closed spec fn view(&self) -> nat {
        self.next.0 as nat
    }
}

impl EntityManager {
    /// Zero is never given out.
    #[verifier::type_invariant]
    spec fn inv(self) -> bool {
        self.next.0 >= 1
    }

    /// A manager that has given out no handle yet.
    pub fn new() -> (manager: EntityManager)
        ensures
            manager@ == 1,
    {
        EntityManager { next: Entity(1) }
    }

    /// Whether every handle has been given out.
    pub fn exhausted(&self) -> (spent: bool)
        ensures
            spent == (self@ >= u64::MAX),
    {
        self.next.0 == u64::MAX
    }

    /// Gives out a handle that was never given out before: the numbers count
    /// up, and none is zero.
    pub fn next(&mut self) -> (handle: Entity)
        requires
            old(self)@ < u64::MAX,
        ensures
            handle.0 == old(self)@,
            handle.0 != 0,
            final(self)@ == old(self)@ + 1,
    {
        proof {
            use_type_invariant(&*self);
        }
        let next = self.next;
        self.next = Entity(self.next.0 + 1);
        next
    }
}

} // verus!
