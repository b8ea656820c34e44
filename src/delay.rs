use vstd::prelude::*;

verus! {

/// What a poll of a `Delay` answers.
#[derive(Clone, Copy, Debug, PartialEq, Eq, Structural)]
pub enum DelayPoll {
    /// The deadline has passed: the future is done.
    Ready,
    /// Not yet: start one timer that wakes the task after this many time units.
    Arm(u64),
    /// Not yet, and a timer for this future already runs: nothing to start.
    Wait,
}

/// A timer future's state: the instant at which it completes, on a clock
/// that the caller reads, and whether a timer that will wake it was started.
#[derive(Clone, Copy, Debug, PartialEq, Eq, Structural)]
pub struct Delay {
    pub deadline: u64,
    pub armed: bool,
}

impl Delay {
    pub open spec fn poll_of(self, now: u64) -> DelayPoll {
        if now >= self.deadline {
            DelayPoll::Ready
        } else if self.armed {
            DelayPoll::Wait
        } else {
            DelayPoll::Arm((self.deadline - now) as u64)
        }
    }

    pub open spec fn after_poll(self, now: u64) -> Delay {
        Delay { deadline: self.deadline, armed: self.armed || now < self.deadline }
    }

    /// A delay that completes at `deadline`, with no timer started yet.
    pub fn new(deadline: u64) -> (r: Delay)
        ensures
            r == (Delay { deadline, armed: false }),
    {
        Delay { deadline, armed: false }
    }

    /// Polls the delay at time `now`. Before the deadline, the first poll asks
    /// for a timer that fires exactly at the deadline; later ones rely on it.
    pub fn poll(&mut self, now: u64) -> (r: DelayPoll)
        ensures
            r == old(self).poll_of(now),
            *final(self) == old(self).after_poll(now),
            r == DelayPoll::Ready <==> now >= old(self).deadline,
            r matches DelayPoll::Arm(wait) ==> now + wait == old(self).deadline && wait > 0,
    {
        if now >= self.deadline {
            DelayPoll::Ready
        } else if self.armed {
            DelayPoll::Wait
        } else {
            self.armed = true;
            DelayPoll::Arm(self.deadline - now)
        }
    }
}

/// A delay that is polled once before its deadline, woken by its timer and
/// polled again at or after the deadline completes then, and starts exactly
/// one timer on the way, however many further polls come before the deadline.
pub proof fn law_delay_single_timer(d: Delay, early: u64, extra: u64, late: u64)
    requires
        !d.armed,
        early < d.deadline,
        extra < d.deadline,
        late >= d.deadline,
    ensures
        d.poll_of(early) == DelayPoll::Arm((d.deadline - early) as u64),
        d.after_poll(early).poll_of(extra) == DelayPoll::Wait,
        d.after_poll(early).after_poll(extra).poll_of(late) == DelayPoll::Ready,
        d.after_poll(early).poll_of(late) == DelayPoll::Ready,
{
}

} // verus!
