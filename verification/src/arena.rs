//! Accounting for the fixed-capacity memory arena that every model buffer is
//! drawn from: a byte budget reserved once, never grown, never returned.

use vstd::prelude::*;

verus! {

/// The byte budget of the pre-reserved memory region. Reservations only ever
/// grow `used`; the arena never gives memory back and never resizes.
pub struct Arena {
    capacity: usize,
    used: usize,
}

impl Arena {
    /// The total byte budget the arena was created with.
    pub closed spec fn spec_capacity(self) -> nat {
        self.capacity as nat
    }

    /// How many bytes of the budget are spoken for.
    pub closed spec fn spec_used(self) -> nat {
        self.used as nat
    }

    /// The bytes still available for reservation.
    pub open spec fn spec_available(self) -> int {
        self.spec_capacity() - self.spec_used()
    }

    /// Creates the arena over a region of `capacity` bytes, all of it free.
    pub fn new(capacity: usize) -> (arena: Arena)
        ensures
            arena.spec_capacity() == capacity,
            arena.spec_used() == 0,
    {
        Arena { capacity, used: 0 }
    }

    /// The total byte budget.
    pub fn capacity(&self) -> (r: usize)
        ensures
            r == self.spec_capacity(),
    {
        self.capacity
    }

    /// How many bytes are currently reserved.
    pub fn used(&self) -> (r: usize)
        ensures
            r == self.spec_used(),
    {
        self.used
    }

    /// Reserves `bytes` from the budget. Succeeds exactly when the request
    /// still fits; on failure the arena is left unchanged.
    pub fn try_reserve(&mut self, bytes: usize) -> (ok: bool)
        ensures
            ok <==> old(self).spec_used() + bytes <= old(self).spec_capacity(),
            ok ==> final(self).spec_used() == old(self).spec_used() + bytes,
            !ok ==> *final(self) == *old(self),
            final(self).spec_capacity() == old(self).spec_capacity(),
    {
        if bytes <= self.capacity && self.used <= self.capacity - bytes {
            self.used = self.used + bytes;
            true
        } else {
            false
        }
    }
}

/// Both counters are machine words: the budget and the bytes spoken for fit
/// the machine's address range.
pub proof fn lemma_arena_bounds(a: Arena)
    ensures
        a.spec_capacity() <= usize::MAX,
        a.spec_used() <= usize::MAX,
{
}

} // verus!
