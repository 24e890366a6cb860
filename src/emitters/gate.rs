//! The rate gate of an emitter: at most one send per minimum interval.

use vstd::prelude::*;

verus! {

/// When an emitter last sent, and how long it waits between sends. Times are
/// milliseconds since the Unix epoch.
#[derive(Copy, Clone, Debug, PartialEq, Eq, Structural)]
pub struct RateGate {
    pub last_emit: u64,
    pub min_interval: u64,
}

/// Whether gate `g` lets a send at time `now` go ahead: the minimum interval
/// has passed since the last send.
pub open spec fn passes(g: RateGate, now: u64) -> bool {
    now >= g.last_emit + g.min_interval
}

/// The state of gate `g` once it has decided on time `now`: when that
/// passes, `now` is the new time of the latest send.
pub open spec fn after(g: RateGate, now: u64) -> RateGate {
    if passes(g, now) {
        RateGate { last_emit: now, ..g }
    } else {
        g
    }
}

impl RateGate {
    /// A gate that has never sent (its last send stands at the epoch).
    pub fn new(min_interval: u64) -> (r: RateGate)
        ensures
            r == (RateGate { last_emit: 0, min_interval }),
    {
        RateGate { last_emit: 0, min_interval }
    }

    /// Decides whether a send at time `now` goes ahead, and if so records
    /// `now` as the last send.
    pub fn try_pass(&mut self, now: u64) -> (r: bool)
        ensures
            r == passes(*old(self), now),
            *final(self) == after(*old(self), now),
    {
        if now < self.last_emit || now - self.last_emit < self.min_interval {
            false
        } else {
            self.last_emit = now;
            true
        }
    }
}

/// Of two calls less than the minimum interval apart, at most one passes;
/// when the interval has elapsed since the latest send, exactly the earlier
/// call passes. Of two calls at least the interval apart, the later one
/// passes whenever the earlier one did.
pub proof fn lemma_gate_two_calls(g: RateGate, t1: u64, t2: u64)
    requires
        t1 <= t2,
    ensures
        t2 < t1 + g.min_interval ==> !(passes(g, t1) && passes(after(g, t1), t2)),
        t2 < t1 + g.min_interval && passes(g, t1) ==> !passes(after(g, t1), t2),
        t2 >= t1 + g.min_interval && passes(g, t1) ==> passes(after(g, t1), t2),
{
}

} // verus!
