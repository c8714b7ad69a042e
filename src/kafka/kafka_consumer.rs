use vstd::prelude::*;

verus! {

/// The concurrency limit a consumer uses unless told otherwise.
pub const DEFAULT_CONCURRENCY_LIMIT: usize = 100;

/// The handler slots of one consumer: at most `limit` handler invocations are
/// in flight at once.
pub struct ConcurrencyGate {
    limit: usize,
    in_flight: usize,
}

impl ConcurrencyGate {
    pub closed spec fn limit_spec(&self) -> nat {
        self.limit as nat
    }

    pub closed spec fn in_flight_spec(&self) -> nat {
        self.in_flight as nat
    }

    /// In-flight invocations never exceed the limit.
    pub open spec fn wf(&self) -> bool {
        self.in_flight_spec() <= self.limit_spec()
    }

    /// A gate with `limit` slots, none taken.
    pub fn new(limit: usize) -> (r: Self)
        ensures
            r.wf(),
            r.limit_spec() == limit,
            r.in_flight_spec() == 0,
    {
        ConcurrencyGate { limit, in_flight: 0 }
    }

    pub fn limit(&self) -> (r: usize)
        ensures
            r == self.limit_spec(),
    {
        self.limit
    }

    pub fn in_flight(&self) -> (r: usize)
        ensures
            r == self.in_flight_spec(),
    {
        self.in_flight
    }

    /// Takes a slot if one is free; a message that gets none waits.
    pub fn try_acquire(&mut self) -> (r: bool)
        requires
            old(self).wf(),
        ensures
            final(self).wf(),
            final(self).limit_spec() == old(self).limit_spec(),
            r == (old(self).in_flight_spec() < old(self).limit_spec()),
            final(self).in_flight_spec() == if r {
                old(self).in_flight_spec() + 1
            } else {
                old(self).in_flight_spec()
            },
    {
        if self.in_flight < self.limit {
            self.in_flight = self.in_flight + 1;
            true
        } else {
            false
        }
    }

    /// Gives back the slot of an invocation that finished.
    pub fn release(&mut self)
        requires
            old(self).wf(),
            old(self).in_flight_spec() > 0,
        ensures
            final(self).wf(),
            final(self).limit_spec() == old(self).limit_spec(),
            final(self).in_flight_spec() == old(self).in_flight_spec() - 1,
    {
        self.in_flight = self.in_flight - 1;
    }
}

} // verus!
