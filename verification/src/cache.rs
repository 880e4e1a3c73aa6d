//! Per-frame scratch arenas.
//!
//! Rendering may not allocate without bound: all transient buffers are
//! accounted against two fixed-capacity arenas that are reset once per
//! rendering pass. An arena hands out byte budgets bump-style; `claim`
//! fails when the budget would overrun the capacity, and nothing is given
//! back before the next reset.

use vstd::prelude::*;

verus! {

/// A fixed-capacity bump arena: a byte budget that only grows within one
/// rendering pass and is reset between passes.
pub struct Arena {
    capacity: usize,
    used: usize,
}

impl Arena {
    /// Used bytes never exceed the capacity.
    pub closed spec fn wf(self) -> bool {
        self.used <= self.capacity
    }

    pub closed spec fn spec_capacity(self) -> int {
        self.capacity as int
    }

    pub closed spec fn spec_used(self) -> int {
        self.used as int
    }

    pub fn new(capacity: usize) -> (a: Arena)
        ensures
            a.wf(),
            a.spec_capacity() == capacity,
            a.spec_used() == 0,
    {
        Arena { capacity, used: 0 }
    }

    pub fn capacity(&self) -> (c: usize)
        ensures
            c == self.spec_capacity(),
    {
        self.capacity
    }

    pub fn used(&self) -> (u: usize)
        ensures
            u == self.spec_used(),
    {
        self.used
    }

    /// Logically empties the arena; the capacity is untouched.
    pub fn reset(&mut self)
        ensures
            final(self).wf(),
            final(self).spec_capacity() == old(self).spec_capacity(),
            final(self).spec_used() == 0,
    {
        self.used = 0;
    }

    /// Claims `n` more bytes. Succeeds exactly when the claim fits in the
    /// remaining capacity; on failure the arena is unchanged.
    pub fn claim(&mut self, n: usize) -> (ok: bool)
        requires
            old(self).wf(),
        ensures
            final(self).wf(),
            final(self).spec_capacity() == old(self).spec_capacity(),
            ok <==> old(self).spec_used() + n <= old(self).spec_capacity(),
            ok ==> final(self).spec_used() == old(self).spec_used() + n,
            !ok ==> *final(self) == *old(self),
    {
        if n <= self.capacity - self.used {
            self.used = self.used + n;
            true
        } else {
            false
        }
    }
}

/// Law: however an arena has been used, what it has handed out never
/// exceeds its declared capacity.
pub proof fn lemma_arena_bounded(a: Arena)
    requires
        a.wf(),
    ensures
        a.spec_used() <= a.spec_capacity(),
{
}

/// The two scratch arenas of one rendering pass. The blur engine draws its
/// row window from the second, smaller arena.
pub struct DrawingCache {
    arena_a: Arena,
    arena_b: Arena,
}

impl DrawingCache {
    pub closed spec fn wf(self) -> bool {
        self.arena_a.wf() && self.arena_b.wf()
    }

    pub closed spec fn spec_capacity_a(self) -> int {
        self.arena_a.spec_capacity()
    }

    pub closed spec fn spec_capacity_b(self) -> int {
        self.arena_b.spec_capacity()
    }

    pub closed spec fn spec_used_a(self) -> int {
        self.arena_a.spec_used()
    }

    pub closed spec fn spec_used_b(self) -> int {
        self.arena_b.spec_used()
    }

    pub fn new(capacity_a: usize, capacity_b: usize) -> (c: DrawingCache)
        ensures
            c.wf(),
            c.spec_capacity_a() == capacity_a,
            c.spec_capacity_b() == capacity_b,
            c.spec_used_a() == 0,
            c.spec_used_b() == 0,
    {
        DrawingCache { arena_a: Arena::new(capacity_a), arena_b: Arena::new(capacity_b) }
    }

    /// Resets both arenas at the start of a rendering pass.
    pub fn reset(&mut self)
        ensures
            final(self).wf(),
            final(self).spec_capacity_a() == old(self).spec_capacity_a(),
            final(self).spec_capacity_b() == old(self).spec_capacity_b(),
            final(self).spec_used_a() == 0,
            final(self).spec_used_b() == 0,
    {
        self.arena_a.reset();
        self.arena_b.reset();
    }

    /// Claims `n` bytes of general scratch from the first arena.
    pub fn claim_scratch(&mut self, n: usize) -> (ok: bool)
        requires
            old(self).wf(),
        ensures
            final(self).wf(),
            final(self).spec_capacity_a() == old(self).spec_capacity_a(),
            final(self).spec_capacity_b() == old(self).spec_capacity_b(),
            final(self).spec_used_b() == old(self).spec_used_b(),
            ok <==> old(self).spec_used_a() + n <= old(self).spec_capacity_a(),
            ok ==> final(self).spec_used_a() == old(self).spec_used_a() + n,
            !ok ==> *final(self) == *old(self),
    {
        self.arena_a.claim(n)
    }

    /// Claims `n` bytes of blur scratch from the second arena.
    pub fn claim_blur(&mut self, n: usize) -> (ok: bool)
        requires
            old(self).wf(),
        ensures
            final(self).wf(),
            final(self).spec_capacity_a() == old(self).spec_capacity_a(),
            final(self).spec_capacity_b() == old(self).spec_capacity_b(),
            final(self).spec_used_a() == old(self).spec_used_a(),
            ok <==> old(self).spec_used_b() + n <= old(self).spec_capacity_b(),
            ok ==> final(self).spec_used_b() == old(self).spec_used_b() + n,
            !ok ==> *final(self) == *old(self),
    {
        self.arena_b.claim(n)
    }
}

} // verus!
