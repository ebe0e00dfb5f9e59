//! The request rate limiter: a number of requests may start in each period; later ones
//! queue up and are let through, oldest first, when the period ends.

use std::collections::VecDeque;
use vstd::prelude::*;

verus! {

/// What `wait` decided.
#[derive(Clone, Copy, PartialEq, Eq, Debug, Structural)]
pub enum WaitDecision {
    /// The request may go now. When `schedule_reset` holds, the caller must schedule the end
    /// of the period and report its timeout id with `reset_scheduled`.
    Proceed { schedule_reset: bool },
    /// No slot is free: the caller must queue a waiter with `enqueue` and wait for it to be released.
    Queue,
}

/// What `reset` decided.
pub struct ResetOutcome<W> {
    /// The waiters let through, oldest first; each must be signalled.
    pub released: Vec<W>,
    /// Whether the caller must schedule the end of the new period.
    pub schedule_reset: bool,
}

/// Rate limiter state; `W` is what a queued request waits on.
pub struct RateLimiter<W> {
    current_timeout_id: Option<i32>,
    capacity_used: u8,
    max_capacity: u8,
    queue: VecDeque<W>,
}

impl<W> RateLimiter<W> {
    /// The timeout that ends the current period, if one is scheduled.
    pub closed spec fn timeout(&self) -> Option<i32> {
        self.current_timeout_id
    }

    /// Slots taken in the current period.
    pub closed spec fn used(&self) -> u8 {
        self.capacity_used
    }

    /// Slots available per period.
    pub closed spec fn max(&self) -> u8 {
        self.max_capacity
    }

    /// The waiters, oldest first.
    pub closed spec fn waiting(&self) -> Seq<W> {
        self.queue@
    }

    /// At least one slot per period, and never more slots taken than there are.
    pub closed spec fn wf(&self) -> bool {
        1 <= self.max_capacity && self.capacity_used <= self.max_capacity
    }

    /// The limiter's invariant between calls, once the caller has scheduled every period end
    /// it was asked to, except perhaps the timer: at least one slot per period, no more taken
    /// than there are, and nobody waits while a slot is free.
    pub open spec fn steady_but_timer(&self) -> bool {
        &&& 1 <= self.max()
        &&& self.used() <= self.max()
        &&& self.waiting().len() > 0 ==> self.used() == self.max()
    }

    /// The limiter's invariant between calls: as `steady_but_timer`, and a period end is
    /// scheduled whenever a slot is taken. It holds from `new` on through any interleaving of
    /// `wait` (followed by `reset_scheduled` when asked to schedule, and by `enqueue` when told
    /// to queue) and `reset_rate_limit` (followed by `reset_scheduled` when asked): so at most
    /// `max` requests start in each period, and queued ones are let through oldest first.
    pub open spec fn steady(&self) -> bool {
        &&& self.steady_but_timer()
        &&& self.used() > 0 ==> self.timeout() is Some
    }

    /// A limiter of 10 requests per period, with nothing taken and nobody waiting.
    pub fn new() -> (r: Self)
        ensures
            r.wf(),
            r.steady(),
            r.timeout() is None,
            r.used() == 0,
            r.max() == 10,
            r.waiting().len() == 0,
    {
        RateLimiter { current_timeout_id: None, capacity_used: 0, max_capacity: 10, queue: VecDeque::new() }
    }

    /// Asks for a slot: takes one if any is free in this period, else tells the caller to queue.
    pub fn wait(&mut self) -> (d: WaitDecision)
        requires
            old(self).wf(),
        ensures
            final(self).wf(),
            final(self).max() == old(self).max(),
            final(self).timeout() == old(self).timeout(),
            final(self).waiting() == old(self).waiting(),
            if old(self).used() < old(self).max() {
                &&& final(self).used() == old(self).used() + 1
                &&& d == WaitDecision::Proceed { schedule_reset: old(self).timeout() is None }
            } else {
                &&& final(self).used() == old(self).used()
                &&& d == WaitDecision::Queue
            },
            old(self).steady() ==> final(self).steady_but_timer(),
            old(self).steady() && d == (WaitDecision::Proceed { schedule_reset: false }) ==> final(self).steady(),
            old(self).steady() && d == WaitDecision::Queue ==> final(self).steady(),
    {
        if self.capacity_used < self.max_capacity {
            self.capacity_used += 1;
            WaitDecision::Proceed { schedule_reset: self.current_timeout_id.is_none() }
        } else {
            WaitDecision::Queue
        }
    }

    /// Queues a waiter behind the others.
    pub fn enqueue(&mut self, waiter: W)
        ensures
            final(self).waiting() == old(self).waiting().push(waiter),
            final(self).used() == old(self).used(),
            final(self).max() == old(self).max(),
            final(self).timeout() == old(self).timeout(),
            old(self).wf() ==> final(self).wf(),
            old(self).steady() && old(self).used() == old(self).max() ==> final(self).steady(),
    {
        self.queue.push_back(waiter);
    }

    /// Records the timeout that ends the current period.
    pub fn reset_scheduled(&mut self, timeout_id: i32)
        ensures
            final(self).timeout() == Some(timeout_id),
            final(self).used() == old(self).used(),
            final(self).max() == old(self).max(),
            final(self).waiting() == old(self).waiting(),
            old(self).wf() ==> final(self).wf(),
            old(self).steady_but_timer() ==> final(self).steady(),
    {
        self.current_timeout_id = Some(timeout_id);
    }
}

/// Ends the period: lets through the oldest waiters, up to the capacity, which they take
/// in the new period; a new period is scheduled if any slot was taken.
pub fn reset_rate_limit<W>(limiter: &mut RateLimiter<W>) -> (r: ResetOutcome<W>)
    requires
        old(limiter).wf(),
    ensures
        final(limiter).wf(),
        ({
            let k = if old(limiter).waiting().len() < old(limiter).max() { old(limiter).waiting().len() } else { old(limiter).max() as nat };
            &&& r.released@ == old(limiter).waiting().take(k as int)
            &&& final(limiter).waiting() == old(limiter).waiting().skip(k as int)
            &&& final(limiter).used() == k
            &&& final(limiter).timeout() is None
            &&& r.schedule_reset == (k != 0)
        }),
        final(limiter).max() == old(limiter).max(),
        final(limiter).steady_but_timer(),
        !r.schedule_reset ==> final(limiter).steady(),
{
    let ghost q0 = limiter.queue@;
    limiter.capacity_used = 0;
    limiter.current_timeout_id = None;
    let mut released: Vec<W> = Vec::new();
    while limiter.capacity_used < limiter.max_capacity
        invariant
            1 <= limiter.max_capacity,
            limiter.max_capacity == old(limiter).max_capacity,
            limiter.capacity_used <= limiter.max_capacity,
            limiter.capacity_used as int <= q0.len(),
            released@ == q0.take(limiter.capacity_used as int),
            limiter.queue@ == q0.skip(limiter.capacity_used as int),
            limiter.current_timeout_id is None,
        ensures
            limiter.capacity_used == limiter.max_capacity || limiter.capacity_used as int == q0.len(),
            1 <= limiter.max_capacity,
            limiter.max_capacity == old(limiter).max_capacity,
            limiter.capacity_used <= limiter.max_capacity,
            limiter.capacity_used as int <= q0.len(),
            released@ == q0.take(limiter.capacity_used as int),
            limiter.queue@ == q0.skip(limiter.capacity_used as int),
            limiter.current_timeout_id is None,
        decreases limiter.max_capacity - limiter.capacity_used,
    {
        match limiter.queue.pop_front() {
            Some(w) => {
                proof {
                    assert(q0.take(limiter.capacity_used + 1) =~= q0.take(limiter.capacity_used as int).push(w));
                    assert(q0.skip(limiter.capacity_used + 1) =~= q0.skip(limiter.capacity_used as int).subrange(1, q0.skip(limiter.capacity_used as int).len() as int));
                }
                released.push(w);
                limiter.capacity_used += 1;
            },
            None => {
                break;
            },
        }
    }
    ResetOutcome { released, schedule_reset: limiter.capacity_used != 0 }
}

/// The number of waiters a period's end lets through: as many as wait, up to the capacity.
pub open spec fn released_count(waiting: nat, max: u8) -> nat {
    if waiting < max { waiting } else { max as nat }
}

/// One step of the limiter as its caller drives it, from state `a` to state `c`:
/// - a `wait` that proceeds, followed by `reset_scheduled` when it asks for one (a slot is
///   taken, and a period end is then scheduled);
/// - a `wait` that queues, followed by `enqueue` (one more waiter, nothing else changes);
/// - `reset_rate_limit`, followed by `reset_scheduled` when it asks for one (the oldest
///   waiters, up to the capacity, take the new period's slots; a period end is scheduled
///   exactly when some were let through).
/// The contracts of those functions state exactly these changes.
pub open spec fn protocol_step<W>(a: RateLimiter<W>, c: RateLimiter<W>) -> bool {
    &&& c.max() == a.max()
    &&& {
        ||| (a.used() < a.max() && c.used() == a.used() + 1 && c.waiting() == a.waiting() && c.timeout() is Some)
        ||| (a.used() >= a.max() && c.used() == a.used() && c.timeout() == a.timeout()
            && c.waiting().len() == a.waiting().len() + 1 && c.waiting().drop_last() == a.waiting())
        ||| ({
            let k = released_count(a.waiting().len(), a.max());
            &&& c.used() == k
            &&& c.waiting() == a.waiting().skip(k as int)
            &&& (k > 0 <==> c.timeout() is Some)
        })
    }
}

/// A step keeps the limiter steady.
pub proof fn lemma_step_keeps_steady<W>(a: RateLimiter<W>, c: RateLimiter<W>)
    requires
        a.steady(),
        protocol_step(a, c),
    ensures
        c.steady(),
{
}

/// Every state the limiter reaches is steady: whatever interleaving of waits and period ends
/// `trace` records, starting from a steady state such as `new` makes, the capacity used stays
/// within the maximum, waiters queue only while every slot is taken, and a period end is
/// scheduled whenever a slot is taken.
pub proof fn lemma_reachable_states_steady<W>(trace: Seq<RateLimiter<W>>)
    requires
        trace.len() > 0,
        trace[0].steady(),
        forall|i: int| 0 <= i < trace.len() - 1 ==> protocol_step(#[trigger] trace[i], trace[i + 1]),
    ensures
        forall|i: int| 0 <= i < trace.len() ==> (#[trigger] trace[i]).steady(),
    decreases trace.len(),
{
    if trace.len() > 1 {
        let init = trace.drop_last();
        assert forall|i: int| 0 <= i < init.len() - 1 implies protocol_step(#[trigger] init[i], init[i + 1]) by {
            assert(init[i] == trace[i] && init[i + 1] == trace[i + 1]);
            assert(protocol_step(trace[i], trace[i + 1]));
        }
        lemma_reachable_states_steady(init);
        let n = trace.len() - 1;
        assert(init[n - 1] == trace[n - 1]);
        assert(protocol_step(trace[n - 1], trace[n]));
        lemma_step_keeps_steady(trace[n - 1], trace[n]);
        assert forall|i: int| 0 <= i < trace.len() implies (#[trigger] trace[i]).steady() by {
            if i < n {
                assert(init[i] == trace[i]);
            }
        }
    }
}

} // verus!
