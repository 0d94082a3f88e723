//! Waiting on a hardware status bit with a bound on the number of polls, for
//! callers that would rather report a fault than spin forever.
use vstd::prelude::*;

verus! {

/// What to do after one look at the awaited condition.
#[derive(Clone, Copy, Debug, PartialEq, Eq, Structural)]
pub enum WaitStep {
    /// The condition holds: stop waiting.
    Ready,
    /// The condition does not hold yet: look again.
    Poll,
    /// The condition never came within the bound: the hardware is at fault.
    Fault,
}

/// A wait that gives up after `limit` further looks.
pub struct BoundedWait {
    pub polls: u32,
    pub limit: u32,
}

impl BoundedWait {
    /// Never more polls than the limit.
    pub open spec fn wf(&self) -> bool {
        self.polls <= self.limit
    }

    /// A wait that allows `limit` polls after the first look.
    pub fn new(limit: u32) -> (r: BoundedWait)
        ensures
            r.wf(),
            r.polls == 0,
            r.limit == limit,
    {
        BoundedWait { polls: 0, limit }
    }

    /// Decides the next step from whether the awaited condition holds now.
    pub fn step(&mut self, ready: bool) -> (r: WaitStep)
        requires
            old(self).wf(),
        ensures
            final(self).wf(),
            final(self).limit == old(self).limit,
            ready ==> r == WaitStep::Ready && final(self).polls == old(self).polls,
            !ready && old(self).polls < old(self).limit ==> r == WaitStep::Poll
                && final(self).polls == old(self).polls + 1,
            !ready && old(self).polls == old(self).limit ==> r == WaitStep::Fault
                && final(self).polls == old(self).polls,
    {
        if ready {
            WaitStep::Ready
        } else if self.polls < self.limit {
            self.polls = self.polls + 1;
            WaitStep::Poll
        } else {
            WaitStep::Fault
        }
    }
}

} // verus!
