//! Admission control: at most a configured number of connections are active
//! at any instant.
//!
//! This is the sequential model of the shared slot pool: one acquisition or
//! release happens at a time, which is how the surrounding program drives it
//! (its accept path takes one permit per accepted connection). `acquire`
//! here never suspends: a full limiter admits nobody, and the caller waits
//! and asks again once a release has made room.

use vstd::prelude::*;

verus! {

/// What one attempt to take a slot does to the active count: below capacity
/// it admits and counts up, at capacity it refuses and changes nothing.
pub open spec fn spec_admit(active: nat, max: nat) -> (nat, bool) {
    if active < max {
        ((active + 1) as nat, true)
    } else {
        (active, false)
    }
}

/// The active count after `n` successive attempts to take a slot.
pub open spec fn spec_admit_n(active: nat, max: nat, n: nat) -> nat
    decreases n,
{
    if n == 0 {
        active
    } else {
        spec_admit(spec_admit_n(active, max, (n - 1) as nat), max).0
    }
}

/// What a release does to the active count.
pub open spec fn spec_release(active: nat) -> nat
    recommends
        active >= 1,
{
    (active - 1) as nat
}

/// The active count after `n` releases.
pub open spec fn spec_release_n(active: nat, n: nat) -> nat
    recommends
        n <= active,
    decreases n,
{
    if n == 0 {
        active
    } else {
        spec_release(spec_release_n(active, (n - 1) as nat))
    }
}

/// Law: an idle limiter of capacity `max` admits `n` concurrent permits for
/// every `n <= max` — each attempt succeeds, so the count reaches exactly
/// `n` — and at capacity the next attempt is refused.
pub proof fn lemma_admits_up_to_capacity(max: nat, n: nat)
    requires
        n <= max,
    ensures
        spec_admit_n(0, max, n) == n,
        n < max ==> spec_admit(n, max).1,
        !spec_admit(max, max).1,
    decreases n,
{
    if n > 0 {
        lemma_admits_up_to_capacity(max, (n - 1) as nat);
    }
}

/// Law: when every one of `n` admitted permits is released — no matter in
/// what order the tasks holding them finish — the active count returns to
/// what it was before any was acquired.
pub proof fn lemma_balanced_release(active: nat, max: nat, n: nat)
    requires
        spec_admit_n(active, max, n) == active + n,
    ensures
        spec_release_n((active + n) as nat, n) == active,
    decreases n,
{
    if n > 0 {
        lemma_release_n_of_sum(active, n);
    }
}

proof fn lemma_release_n_of_sum(active: nat, n: nat)
    ensures
        spec_release_n((active + n) as nat, n) == active,
    decreases n,
{
    if n > 0 {
        lemma_release_n_of_sum((active + 1) as nat, (n - 1) as nat);
    }
}

/// Bounds the number of concurrently active connections.
pub struct ConnectionLimiter {
    active: usize,
    max: usize,
}

/// Exclusive occupancy of one connection slot.
///
/// The value can neither be copied nor made up: the only source is
/// `ConnectionLimiter::acquire`, and `ConnectionLimiter::release` consumes
/// it. A permit is therefore released at most once, and holding it is proof
/// that the slot is occupied.
pub struct ConnectionGuard {
    _slot: (),
}

impl ConnectionLimiter {
    /// The number of permits outstanding.
    pub closed spec fn spec_active(self) -> nat {
        self.active as nat
    }

    /// The capacity the limiter was built with.
    pub closed spec fn spec_max(self) -> nat {
        self.max as nat
    }

    /// The limiter's one invariant: capacity is never exceeded.
    pub open spec fn wf(self) -> bool {
        self.spec_active() <= self.spec_max()
    }

    /// A fresh limiter with the given capacity and no permit outstanding.
    pub fn new(max_connections: usize) -> (r: Self)
        ensures
            r.wf(),
            r.spec_active() == 0,
            r.spec_max() == max_connections,
    {
        ConnectionLimiter { active: 0, max: max_connections }
    }

    /// Takes one slot if fewer than the capacity are outstanding.
    ///
    /// Succeeds — and counts the permit — exactly when a slot is free. The
    /// caller that is refused must wait for a release and try again; that
    /// wait is the suspension the surrounding program performs.
    pub fn acquire(&mut self) -> (r: Option<ConnectionGuard>)
        requires
            old(self).wf(),
        ensures
            final(self).wf(),
            final(self).spec_max() == old(self).spec_max(),
            (final(self).spec_active(), r is Some) == spec_admit(
                old(self).spec_active(),
                old(self).spec_max(),
            ),
            r is Some <==> old(self).spec_active() < old(self).spec_max(),
            r is Some ==> final(self).spec_active() == old(self).spec_active() + 1,
            r is None ==> final(self).spec_active() == old(self).spec_active(),
    {
        if self.active < self.max {
            self.active = self.active + 1;
            Some(ConnectionGuard { _slot: () })
        } else {
            None
        }
    }

    /// Gives one slot back, consuming the permit.
    ///
    /// Exactly one release per acquire: the permit is moved in and ceases to
    /// exist, so no path — success, protocol error, transport error — can
    /// release the same acquisition twice.
    pub fn release(&mut self, permit: ConnectionGuard)
        requires
            old(self).wf(),
            old(self).spec_active() >= 1,
        ensures
            final(self).wf(),
            final(self).spec_max() == old(self).spec_max(),
            final(self).spec_active() == spec_release(old(self).spec_active()),
    {
        let _ = permit;
        self.active = self.active - 1;
    }

    /// How many permits are outstanding right now.
    pub fn active_count(&self) -> (r: usize)
        ensures
            r == self.spec_active(),
    {
        self.active
    }

    /// The capacity the limiter was built with.
    pub fn max_count(&self) -> (r: usize)
        ensures
            r == self.spec_max(),
    {
        self.max
    }
}

} // verus!
