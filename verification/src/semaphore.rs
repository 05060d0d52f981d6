//! Counting semaphore state for limiting concurrent git operations.
//!
//! The semaphore keeps the permit count; a caller that gets no permit waits
//! (on a condition variable, outside this module) and asks again after a
//! release.

use vstd::prelude::*;

verus! {

/// A counting semaphore for limiting concurrency: `permits` permits, of
/// which `available` are free and `in_use` are held by guards.
pub struct Semaphore {
    permits: usize,
    available: usize,
    in_use: usize,
}

/// A held permit; it goes back to the semaphore through `release`.
pub struct SemaphoreGuard {
    _private: (),
}

impl Semaphore {
    /// Every permit is either free or held.
    #[verifier::type_invariant]
    spec fn conserved(self) -> bool {
        self.available + self.in_use == self.permits
    }

    /// The number of permits the semaphore was made with.
    pub closed spec fn spec_permits(self) -> nat {
        self.permits as nat
    }

    /// The number of free permits.
    pub closed spec fn spec_available(self) -> nat {
        self.available as nat
    }

    /// The number of held permits.
    pub closed spec fn spec_in_use(self) -> nat {
        self.in_use as nat
    }

    /// Create a new semaphore with the given number of permits.
    pub fn new(permits: usize) -> (s: Self)
        ensures
            s.spec_permits() == permits,
            s.spec_available() == permits,
            s.spec_in_use() == 0,
            s.spec_available() + s.spec_in_use() == s.spec_permits(),
    {
        Semaphore { permits, available: permits, in_use: 0 }
    }

    /// Take a permit if one is free; `None` means the caller has to wait for
    /// a release.
    pub fn acquire(&mut self) -> (g: Option<SemaphoreGuard>)
        ensures
            g is Some <==> old(self).spec_available() > 0,
            final(self).spec_available() + final(self).spec_in_use() == final(self).spec_permits(),
            final(self).spec_permits() == old(self).spec_permits(),
            g is Some ==> final(self).spec_available() == old(self).spec_available() - 1
                && final(self).spec_in_use() == old(self).spec_in_use() + 1,
            g is None ==> final(self).spec_available() == old(self).spec_available()
                && final(self).spec_in_use() == old(self).spec_in_use(),
    {
        proof { use_type_invariant(&*self); }
        if self.available == 0 {
            None
        } else {
            *self = Semaphore { permits: self.permits, available: self.available - 1, in_use: self.in_use + 1 };
            Some(SemaphoreGuard { _private: () })
        }
    }

    /// Give a held permit back. (A guard only comes from `acquire`, so some
    /// permit is held; with none held, nothing changes.)
    pub fn release(&mut self, guard: SemaphoreGuard)
        ensures
            final(self).spec_permits() == old(self).spec_permits(),
            old(self).spec_in_use() > 0 ==> final(self).spec_available() == old(self).spec_available() + 1
                && final(self).spec_in_use() == old(self).spec_in_use() - 1,
            old(self).spec_in_use() == 0 ==> final(self).spec_available() == old(self).spec_available()
                && final(self).spec_in_use() == 0,
            final(self).spec_available() + final(self).spec_in_use() == final(self).spec_permits(),
    {
        proof { use_type_invariant(&*self); }
        let SemaphoreGuard { _private } = guard;
        if self.in_use > 0 {
            *self = Semaphore { permits: self.permits, available: self.available + 1, in_use: self.in_use - 1 };
        }
    }
}

/// An acquire followed by a release gives back the state it started from.
pub proof fn lemma_acquire_release_restores(before: Semaphore, taken: Semaphore, after: Semaphore)
    requires
        before.spec_available() > 0,
        taken.spec_permits() == before.spec_permits(),
        taken.spec_available() == before.spec_available() - 1,
        taken.spec_in_use() == before.spec_in_use() + 1,
        after.spec_permits() == taken.spec_permits(),
        after.spec_available() == taken.spec_available() + 1,
        after.spec_in_use() == taken.spec_in_use() - 1,
    ensures
        after.spec_permits() == before.spec_permits(),
        after.spec_available() == before.spec_available(),
        after.spec_in_use() == before.spec_in_use(),
{
}

} // verus!
