//! The heartbeat scheduler, as a value advanced by clock ticks.
use vstd::prelude::*;

verus! {

/// What the scheduler decides on a tick.
#[derive(Clone, Copy, Debug, PartialEq, Eq, Structural)]
pub enum Beat {
    /// Nothing is due yet, or the scheduler is stopped.
    Idle,
    /// Send a heartbeat frame now.
    Send,
    /// The previous heartbeat was never acknowledged: the connection is degraded.
    Missed,
}

/// Times are milliseconds on a monotonic clock.
#[derive(Clone, Copy, Debug, PartialEq, Eq, Structural)]
pub struct Heartbeat {
    pub running: bool,
    pub interval: u64,
    /// When the next tick is due.
    pub due: u64,
    /// A heartbeat was sent and no acknowledgement has come since.
    pub awaiting_ack: bool,
}

/// The sum of two clock values, held at the largest value instead of wrapping.
pub open spec fn later(t: u64, d: u64) -> u64 {
    if t as int + d as int > u64::MAX as int { u64::MAX } else { (t + d) as u64 }
}

/// What a tick at `now` does: the decision and the scheduler after it.
pub open spec fn tick_spec(h: Heartbeat, now: u64) -> (Beat, Heartbeat) {
    if !h.running || now < h.due {
        (Beat::Idle, h)
    } else if h.awaiting_ack {
        (Beat::Missed, Heartbeat { running: false, ..h })
    } else {
        (Beat::Send, Heartbeat { due: later(now, h.interval), awaiting_ack: true, ..h })
    }
}

impl Heartbeat {
    /// A scheduler that does nothing.
    pub fn stopped() -> (r: Heartbeat)
        ensures
            !r.running,
            !r.awaiting_ack,
    {
        Heartbeat { running: false, interval: 0, due: 0, awaiting_ack: false }
    }

    /// A scheduler with the given interval whose first beat is due at `now`.
    pub fn start(interval: u64, now: u64) -> (r: Heartbeat)
        ensures
            r == (Heartbeat { running: true, interval, due: now, awaiting_ack: false }),
    {
        Heartbeat { running: true, interval, due: now, awaiting_ack: false }
    }

    /// Advances the scheduler to `now`.
    pub fn tick(&mut self, now: u64) -> (r: Beat)
        ensures
            (r, *final(self)) == tick_spec(*old(self), now),
    {
        if !self.running || now < self.due {
            Beat::Idle
        } else if self.awaiting_ack {
            self.running = false;
            Beat::Missed
        } else {
            self.due = if now > u64::MAX - self.interval { u64::MAX } else { now + self.interval };
            self.awaiting_ack = true;
            Beat::Send
        }
    }

    /// Records an acknowledgement from the server.
    pub fn acknowledge(&mut self)
        ensures
            *final(self) == (Heartbeat { awaiting_ack: false, ..*old(self) }),
    {
        self.awaiting_ack = false;
    }

    /// Stops the scheduler; no tick sends after this.
    pub fn stop(&mut self)
        ensures
            *final(self) == (Heartbeat { running: false, ..*old(self) }),
    {
        self.running = false;
    }
}

/// The scheduler after a run of ticks with no acknowledgement between them,
/// and whether one of them reported a missed acknowledgement.
pub open spec fn run_ticks(h: Heartbeat, times: Seq<u64>) -> (Heartbeat, bool)
    decreases times.len(),
{
    if times.len() == 0 {
        (h, false)
    } else {
        let (b, h2) = tick_spec(h, times[0]);
        if b == Beat::Missed {
            (h2, true)
        } else {
            run_ticks(h2, times.drop_first())
        }
    }
}

/// With no acknowledgement arriving after a heartbeat sent at `sent`, ticks
/// before `sent + interval` change nothing and report nothing.
pub proof fn lemma_no_missed_before_interval(h: Heartbeat, sent: u64, times: Seq<u64>)
    requires
        h.running,
        h.awaiting_ack,
        h.due as int == sent as int + h.interval as int,
        forall|i: int| 0 <= i < times.len() ==> #[trigger] times[i] < h.due,
    ensures
        run_ticks(h, times) == (h, false),
    decreases times.len(),
{
    if times.len() > 0 {
        assert(tick_spec(h, times[0]) == (Beat::Idle, h));
        let rest = times.drop_first();
        assert forall|i: int| 0 <= i < rest.len() implies #[trigger] rest[i] < h.due by {
            assert(rest[i] == times[i + 1]);
        }
        lemma_no_missed_before_interval(h, sent, rest);
    }
}

/// With no acknowledgement arriving, a run of ticks that reaches the deadline
/// reports the missed acknowledgement: the first tick at or after the
/// deadline does, whatever ticks came before it.
pub proof fn lemma_missed_reported(h: Heartbeat, times: Seq<u64>, k: int)
    requires
        h.running,
        h.awaiting_ack,
        0 <= k < times.len(),
        times[k] >= h.due,
    ensures
        run_ticks(h, times).1,
        !run_ticks(h, times).0.running,
    decreases times.len(),
{
    if times[0] >= h.due {
        assert(tick_spec(h, times[0]).0 == Beat::Missed);
    } else {
        assert(tick_spec(h, times[0]) == (Beat::Idle, h));
        let rest = times.drop_first();
        assert(rest[k - 1] == times[k]);
        lemma_missed_reported(h, rest, k - 1);
    }
}

/// With no acknowledgement arriving after a heartbeat sent at `sent`, the
/// first tick at or after `sent + interval` reports a missed acknowledgement;
/// the scheduler's own deadline is exactly `sent + interval`, so a tick that
/// fires at the deadline or within one more interval reports it between one
/// and two intervals after the send.
pub proof fn lemma_missed_ack_window(h: Heartbeat, sent: u64, now: u64)
    requires
        h.running,
        h.awaiting_ack,
        h.due as int == sent as int + h.interval as int,
    ensures
        (tick_spec(h, now).0 == Beat::Missed) == (now as int >= sent as int + h.interval as int),
        tick_spec(h, now).0 != Beat::Send,
        tick_spec(h, h.due).0 == Beat::Missed,
        h.interval as int <= h.due as int - sent as int <= 2 * h.interval as int,
{
}

/// A heartbeat sent on a tick puts the next deadline exactly one interval
/// later, unless the clock would overflow.
pub proof fn lemma_send_sets_deadline(h: Heartbeat, now: u64)
    requires
        tick_spec(h, now).0 == Beat::Send,
        now as int + h.interval as int <= u64::MAX as int,
    ensures
        tick_spec(h, now).1.due as int == now as int + h.interval as int,
        tick_spec(h, now).1.awaiting_ack,
        tick_spec(h, now).1.running,
{
}

} // verus!
