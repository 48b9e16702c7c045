//! The counting gate that bounds how many claims of pending inbound
//! transfers run at once: a fixed pool of claim slots.
use vstd::prelude::*;

verus! {

pub struct ClaimGate {
    max_concurrent_claims: usize,
    in_flight: usize,
}

impl ClaimGate {
    /// Number of slots.
    pub closed spec fn limit(&self) -> nat {
        self.max_concurrent_claims as nat
    }

    /// Number of slots taken.
    pub closed spec fn active(&self) -> nat {
        self.in_flight as nat
    }

    /// At least one slot, and never more taken than there are.
    pub open spec fn wf(&self) -> bool {
        1 <= self.limit() && self.active() <= self.limit()
    }

    /// A gate of `max_concurrent_claims` free slots.
    pub fn new(max_concurrent_claims: usize) -> (r: ClaimGate)
        requires
            max_concurrent_claims >= 1,
        ensures
            r.wf(),
            r.limit() == max_concurrent_claims,
            r.active() == 0,
    {
        ClaimGate { max_concurrent_claims, in_flight: 0 }
    }

    /// Takes a slot if one is free; returns whether it did.
    pub fn try_acquire(&mut self) -> (r: bool)
        requires
            old(self).wf(),
        ensures
            final(self).wf(),
            final(self).limit() == old(self).limit(),
            r == (old(self).active() < old(self).limit()),
            final(self).active() == if r {
                old(self).active() + 1
            } else {
                old(self).active()
            },
    {
        if self.in_flight < self.max_concurrent_claims {
            self.in_flight = self.in_flight + 1;
            true
        } else {
            false
        }
    }

    /// Gives a taken slot back, whether its claim succeeded or failed.
    pub fn release(&mut self)
        requires
            old(self).wf(),
            old(self).active() > 0,
        ensures
            final(self).wf(),
            final(self).limit() == old(self).limit(),
            final(self).active() == old(self).active() - 1,
    {
        self.in_flight = self.in_flight - 1;
    }

    /// Number of claims running.
    pub fn in_flight(&self) -> (r: usize)
        ensures
            r == self.active(),
    {
        self.in_flight
    }

    /// Number of slots.
    pub fn max_concurrent_claims(&self) -> (r: usize)
        ensures
            r == self.limit(),
    {
        self.max_concurrent_claims
    }
}

} // verus!
