//! The background ticker: a fixed-interval clock that, once per elapsed
//! interval, asks the frontend to check for due items and then reports the
//! round as completed. Times are milliseconds on a monotonic clock.
use vstd::prelude::*;
use crate::events::{FrontendEvent, ShellAction};

verus! {

/// Interval of the ticker that the application starts, in milliseconds.
pub const TICK_INTERVAL_MS: u64 = 60000;

/// What one round of the ticker emits, in order.
pub open spec fn round_spec() -> Seq<ShellAction> {
    seq![
        ShellAction::Emit(FrontendEvent::CheckDueActionItems),
        ShellAction::Emit(FrontendEvent::BackgroundTaskCompleted),
    ]
}

/// Emissions of a poll at time `now` of a ticker whose next round is due at `due`.
pub open spec fn poll_emits(due: u64, now: u64) -> Seq<ShellAction> {
    if now >= due {
        round_spec()
    } else {
        seq![]
    }
}

/// Due time after a poll at `now`: a round that fires sets the next one a
/// full interval later; missed rounds are not caught up.
pub open spec fn poll_next_due(period: u64, due: u64, now: u64) -> int {
    if now >= due {
        now + period
    } else {
        due as int
    }
}

/// A ticker that started at some time and has a fixed interval.
pub struct Ticker {
    period: u64,
    next_due: u64,
}

impl Ticker {
    pub closed spec fn spec_period(&self) -> u64 {
        self.period
    }

    pub closed spec fn spec_next_due(&self) -> u64 {
        self.next_due
    }

    pub open spec fn wf(&self) -> bool {
        self.spec_period() > 0
    }

    /// A ticker started at `start`: its first round is due one full interval later.
    pub fn new(start: u64, period: u64) -> (r: Ticker)
        requires
            period > 0,
            start + period <= u64::MAX,
        ensures
            r.wf(),
            r.spec_period() == period,
            r.spec_next_due() == start + period,
    {
        Ticker { period, next_due: start + period }
    }

    pub fn period(&self) -> (r: u64)
        ensures
            r == self.spec_period(),
    {
        self.period
    }

    /// When the next round is due; the host sleeps until then.
    pub fn next_due(&self) -> (r: u64)
        ensures
            r == self.spec_next_due(),
    {
        self.next_due
    }

    /// Polls the ticker at time `now` and returns what it emits.
    pub fn poll(&mut self, now: u64) -> (r: Vec<ShellAction>)
        requires
            old(self).wf(),
            now + old(self).spec_period() <= u64::MAX,
        ensures
            final(self).wf(),
            final(self).spec_period() == old(self).spec_period(),
            r@ == poll_emits(old(self).spec_next_due(), now),
            final(self).spec_next_due() == poll_next_due(
                old(self).spec_period(),
                old(self).spec_next_due(),
                now,
            ),
    {
        if now >= self.next_due {
            self.next_due = now + self.period;
            let r = vec![
                ShellAction::Emit(FrontendEvent::CheckDueActionItems),
                ShellAction::Emit(FrontendEvent::BackgroundTaskCompleted),
            ];
            assert(r@ =~= round_spec());
            r
        } else {
            let r: Vec<ShellAction> = Vec::new();
            assert(r@ =~= Seq::<ShellAction>::empty());
            r
        }
    }
}

/// Everything a ticker emits when polled at each of `times` in turn, starting
/// with its next round due at `due`.
pub open spec fn emitted_over(period: u64, due: u64, times: Seq<u64>) -> Seq<ShellAction>
    decreases times.len(),
{
    if times.len() == 0 {
        seq![]
    } else {
        let next = poll_next_due(period, due, times[0]);
        if next <= u64::MAX {
            poll_emits(due, times[0]) + emitted_over(period, next as u64, times.drop_first())
        } else {
            poll_emits(due, times[0])
        }
    }
}

/// Nothing is emitted before the first full interval has elapsed, however
/// often the ticker is polled.
pub proof fn lemma_quiet_before_first_interval(start: u64, period: u64, times: Seq<u64>)
    requires
        period > 0,
        start + period <= u64::MAX,
        forall|i: int| 0 <= i < times.len() ==> times[i] < start + period,
    ensures
        emitted_over(period, (start + period) as u64, times) == Seq::<ShellAction>::empty(),
    decreases times.len(),
{
    if times.len() > 0 {
        let rest = times.drop_first();
        assert forall|i: int| 0 <= i < rest.len() implies rest[i] < start + period by {
            assert(rest[i] == times[i + 1]);
        }
        lemma_quiet_before_first_interval(start, period, rest);
        assert(poll_emits((start + period) as u64, times[0]) =~= Seq::<ShellAction>::empty());
        assert(Seq::<ShellAction>::empty() + Seq::<ShellAction>::empty() =~= Seq::<ShellAction>::empty());
    }
}

/// Once a round fires at `t1`, a later poll emits nothing until a full
/// interval has elapsed, and then emits exactly one round: the request to
/// check due items followed by the completion report.
pub proof fn lemma_one_round_per_interval(period: u64, due: u64, t1: u64, t2: u64)
    requires
        period > 0,
        t1 >= due,
        t1 + period <= u64::MAX,
        t2 >= t1,
    ensures
        poll_emits(due, t1) == round_spec(),
        poll_next_due(period, due, t1) == t1 + period,
        t2 < t1 + period ==> poll_emits((t1 + period) as u64, t2) == Seq::<ShellAction>::empty(),
        t2 >= t1 + period ==> poll_emits((t1 + period) as u64, t2) == round_spec(),
        round_spec()[0] == ShellAction::Emit(FrontendEvent::CheckDueActionItems),
        round_spec()[1] == ShellAction::Emit(FrontendEvent::BackgroundTaskCompleted),
        round_spec().len() == 2,
{
}

} // verus!
