use vstd::prelude::*;

verus! {

/// The time between two keepalives, in seconds.
pub const HEARTBEAT_PERIOD: u64 = 10;

/// The time between two looks at the clock, in seconds.
pub const HEARTBEAT_TICK: u64 = 1;

/// Whether a keepalive is due at `now`, when the last one went out at
/// `last_sent`: a whole period has passed.
pub open spec fn spec_is_due(last_sent: int, period: int, now: int) -> bool {
    now - last_sent >= period
}

/// What becomes of a scheduler that is asked the time at each of `polls` in
/// turn: when it last called for a keepalive, and how many keepalives it
/// called for.
pub open spec fn spec_run(last_sent: int, period: int, polls: Seq<int>) -> (int, nat)
    decreases polls.len(),
{
    if polls.len() == 0 {
        (last_sent, 0)
    } else {
        let (last, count) = spec_run(last_sent, period, polls.drop_last());
        if spec_is_due(last, period, polls.last()) {
            (polls.last(), count + 1)
        } else {
            (last, count)
        }
    }
}

/// The times in `polls` never go back, and none is before `start`.
pub open spec fn spec_monotone_from(start: int, polls: Seq<int>) -> bool {
    &&& forall|i: int| 0 <= i < polls.len() ==> start <= #[trigger] polls[i]
    &&& forall|i: int, j: int| 0 <= i <= j < polls.len() ==> polls[i] <= polls[j]
}

/// The times in `polls` leave out no tick after `start`: each is the one
/// before it or the tick after that.
pub open spec fn spec_gapless_from(start: int, polls: Seq<int>) -> bool {
    &&& polls.len() > 0 ==> start <= polls[0] <= start + 1
    &&& forall|i: int|
        0 < i < polls.len() ==> polls[i - 1] <= #[trigger] polls[i] <= polls[i - 1] + 1
}

/// Says when a keepalive is due. It only tells the time to send; building
/// and writing the keepalive is the dispatcher's work.
pub struct HeartbeatScheduler {
    period: u64,
    last_sent: u64,
}

impl HeartbeatScheduler {
    pub closed spec fn spec_period(&self) -> u64 {
        self.period
    }

    pub closed spec fn spec_last_sent(&self) -> u64 {
        self.last_sent
    }

    /// A scheduler that calls for a keepalive every `period` ticks, started
    /// at `now`.
    pub fn new(period: u64, now: u64) -> (scheduler: Self)
        ensures
            scheduler.spec_period() == period,
            scheduler.spec_last_sent() == now,
    {
        HeartbeatScheduler { period, last_sent: now }
    }

    #[verifier::when_used_as_spec(spec_period)]
    pub fn period(&self) -> (period: u64)
        ensures
            period == self.spec_period(),
    {
        self.period
    }

    #[verifier::when_used_as_spec(spec_last_sent)]
    pub fn last_sent(&self) -> (last_sent: u64)
        ensures
            last_sent == self.spec_last_sent(),
    {
        self.last_sent
    }

    /// Asks whether a keepalive is due at `now`. If one is, the scheduler
    /// counts it as sent at `now`.
    pub fn poll(&mut self, now: u64) -> (due: bool)
        ensures
            due == spec_is_due(
                old(self).spec_last_sent() as int,
                old(self).spec_period() as int,
                now as int,
            ),
            final(self).spec_period() == old(self).spec_period(),
            final(self).spec_last_sent() == if due {
                now
            } else {
                old(self).spec_last_sent()
            },
    {
        if now >= self.last_sent && now - self.last_sent >= self.period {
            self.last_sent = now;
            true
        } else {
            false
        }
    }
}

/// However often and however unevenly a scheduler is polled, it calls for no
/// more than one keepalive for every whole period that has passed since it
/// was started, and it never counts a keepalive as sent later than the last
/// poll.
pub proof fn lemma_at_most_one_per_period(last_sent: int, period: int, polls: Seq<int>)
    requires
        period > 0,
        spec_monotone_from(last_sent, polls),
    ensures
        ({
            let (last, count) = spec_run(last_sent, period, polls);
            &&& last_sent <= last
            &&& polls.len() > 0 ==> last <= polls.last()
            &&& count * period <= last - last_sent
        }),
    decreases polls.len(),
{
    if polls.len() > 0 {
        let earlier = polls.drop_last();
        lemma_at_most_one_per_period(last_sent, period, earlier);
        let (last, count) = spec_run(last_sent, period, earlier);
        if earlier.len() > 0 {
            assert(earlier.last() == polls[polls.len() - 2]);
        }
        assert((count + 1) * period == count * period + period) by (nonlinear_arith);
    }
}

/// A scheduler that is polled at every tick, any number of times within a
/// tick, calls for exactly one keepalive for every whole period that has
/// passed since it was started.
pub proof fn lemma_exactly_one_per_period(last_sent: int, period: int, polls: Seq<int>)
    requires
        period > 0,
        polls.len() > 0,
        spec_gapless_from(last_sent, polls),
    ensures
        ({
            let (last, count) = spec_run(last_sent, period, polls);
            &&& last == last_sent + count * period
            &&& last <= polls.last() < last + period
            &&& count == (polls.last() - last_sent) / period
        }),
    decreases polls.len(),
{
    let earlier = polls.drop_last();
    let now = polls.last();
    if earlier.len() == 0 {
        assert(spec_run(last_sent, period, earlier) == (last_sent, 0nat));
        assert(0 * period == 0) by (nonlinear_arith);
        assert(1 * period == period) by (nonlinear_arith);
    } else {
        assert(earlier.last() == polls[polls.len() - 2]);
        assert(earlier[0] == polls[0]);
        assert forall|i: int| 0 < i < earlier.len() implies earlier[i - 1] <= #[trigger] earlier[i]
            <= earlier[i - 1] + 1 by {
            assert(earlier[i] == polls[i]);
            assert(earlier[i - 1] == polls[i - 1]);
        }
        lemma_exactly_one_per_period(last_sent, period, earlier);
    }
    let (last, count) = spec_run(last_sent, period, earlier);
    let (last_after, count_after) = spec_run(last_sent, period, polls);
    assert((count + 1) * period == count * period + period) by (nonlinear_arith);
    assert(count_after == (now - last_sent) / period) by (nonlinear_arith)
        requires
            period > 0,
            0 <= now - last_sent - count_after * period < period,
    {
    }
}

} // verus!
