use crate::interval::{Interval, NANOS_PER_SEC};
use vstd::prelude::*;

verus! {

/// Seconds between the start of the loop and its first report.
pub const WARM_UP_SECS: u64 = 10;

/// Where the reporting loop stands.
#[derive(Clone, Copy, Debug, PartialEq, Eq, Structural)]
pub enum Phase {
    /// Waiting before the first report.
    WarmingUp,
    /// Making the report of a cycle.
    Reporting,
    /// Waiting half an interval after a failed report.
    AwaitingRetry,
    /// Making the one extra report of a cycle.
    Retrying,
    /// Waiting a full interval before the next cycle.
    Resting,
}

/// What the loop's driver tells the schedule.
#[derive(Clone, Copy, Debug, PartialEq, Eq, Structural)]
pub enum Event {
    /// The requested wait is over.
    Slept,
    /// The requested report was made; `true` where it succeeded.
    Reported(bool),
}

/// What the schedule asks the loop's driver to do next.
#[derive(Clone, Copy, Debug, PartialEq, Eq)]
pub enum Action {
    /// Wait for the given span.
    Sleep(Interval),
    /// Make one report.
    Report,
}

/// The nanoseconds that `a` asks to wait, or `None` where it asks for a report.
pub open spec fn delay_of(a: Action) -> Option<nat> {
    match a {
        Action::Sleep(d) => Some(d@),
        Action::Report => None,
    }
}

/// The nanoseconds waited in `phase` with an interval of `interval`
/// nanoseconds, or `None` where a report is made in it.
pub open spec fn phase_delay(interval: nat, phase: Phase) -> Option<nat> {
    match phase {
        Phase::WarmingUp => Some(WARM_UP_SECS as nat * NANOS_PER_SEC as nat),
        Phase::Reporting => None,
        Phase::AwaitingRetry => Some(interval / 2),
        Phase::Retrying => None,
        Phase::Resting => Some(interval),
    }
}

/// The phase that follows `phase` on `event`.  An event that does not answer
/// the phase's action leaves the phase as it is.
pub open spec fn next_phase(phase: Phase, event: Event) -> Phase {
    match (phase, event) {
        (Phase::WarmingUp, Event::Slept) => Phase::Reporting,
        (Phase::Reporting, Event::Reported(true)) => Phase::Resting,
        (Phase::Reporting, Event::Reported(false)) => Phase::AwaitingRetry,
        (Phase::AwaitingRetry, Event::Slept) => Phase::Retrying,
        (Phase::Retrying, Event::Reported(_)) => Phase::Resting,
        (Phase::Resting, Event::Slept) => Phase::Reporting,
        _ => phase,
    }
}

/// The phase and time that follow the wait of `phase`, entered at time `t`;
/// `phase` and `t` themselves where no wait is made in it.
pub open spec fn after_wait(interval: nat, phase: Phase, t: nat) -> (Phase, nat) {
    match phase_delay(interval, phase) {
        Some(d) => (next_phase(phase, Event::Slept), t + d),
        None => (phase, t),
    }
}

/// 1 in a phase that waits, 0 in one that reports.
pub open spec fn wait_rank(interval: nat, phase: Phase) -> nat {
    if phase_delay(interval, phase) is Some {
        1
    } else {
        0
    }
}

/// The times of the first `n` reports when every report succeeds, from
/// `phase` entered at time `t`; reports take no time.
pub open spec fn report_times_all_succeed(interval: nat, phase: Phase, t: nat, n: nat) -> Seq<nat>
    decreases n, wait_rank(interval, phase),
{
    if n == 0 {
        Seq::empty()
    } else if phase_delay(interval, phase) is None {
        seq![t] + report_times_all_succeed(
            interval,
            next_phase(phase, Event::Reported(true)),
            t,
            (n - 1) as nat,
        )
    } else {
        let (p, t2) = after_wait(interval, phase, t);
        report_times_all_succeed(interval, p, t2, n)
    }
}

/// The reporting loop's schedule: the configured interval and the phase.
pub struct Schedule {
    pub interval: Interval,
    pub phase: Phase,
}

impl Schedule {
    /// The schedule of a loop that has just started, and its first action.
    pub fn new(interval: Interval) -> (r: (Schedule, Action))
        ensures
            r.0.interval == interval,
            r.0.phase == Phase::WarmingUp,
            delay_of(r.1) == phase_delay(interval@, Phase::WarmingUp),
    {
        let s = Schedule { interval, phase: Phase::WarmingUp };
        let a = s.action();
        (s, a)
    }

    /// The action of the current phase.
    pub fn action(&self) -> (a: Action)
        ensures
            delay_of(a) == phase_delay(self.interval@, self.phase),
    {
        match self.phase {
            Phase::WarmingUp => Action::Sleep(Interval::from_secs(WARM_UP_SECS)),
            Phase::Reporting => Action::Report,
            Phase::AwaitingRetry => Action::Sleep(self.interval.half()),
            Phase::Retrying => Action::Report,
            Phase::Resting => Action::Sleep(self.interval),
        }
    }

    /// Moves the schedule on by `event` and returns the next action.
    pub fn step(&mut self, event: Event) -> (a: Action)
        ensures
            final(self).interval == old(self).interval,
            final(self).phase == next_phase(old(self).phase, event),
            delay_of(a) == phase_delay(final(self).interval@, final(self).phase),
    {
        let next = match (self.phase, event) {
            (Phase::WarmingUp, Event::Slept) => Phase::Reporting,
            (Phase::Reporting, Event::Reported(true)) => Phase::Resting,
            (Phase::Reporting, Event::Reported(false)) => Phase::AwaitingRetry,
            (Phase::AwaitingRetry, Event::Slept) => Phase::Retrying,
            (Phase::Retrying, Event::Reported(_)) => Phase::Resting,
            (Phase::Resting, Event::Slept) => Phase::Reporting,
            (p, _) => p,
        };
        self.phase = next;
        self.action()
    }
}

/// A cycle starts with a report at time 0.  Where that report succeeds, the
/// next cycle's report follows one full interval later.  Where it fails, one
/// extra report is made half an interval later, and whatever its outcome the
/// next cycle's report follows one full interval after that extra report.
pub proof fn lemma_retry_timing(interval: nat, first_succeeded: bool, retry_succeeded: bool)
    ensures
        ({
            let (p1, t1) = after_wait(
                interval,
                next_phase(Phase::Reporting, Event::Reported(first_succeeded)),
                0,
            );
            if first_succeeded {
                p1 == Phase::Reporting && t1 == interval
            } else {
                &&& p1 == Phase::Retrying
                &&& t1 == interval / 2
                &&& after_wait(interval, next_phase(p1, Event::Reported(retry_succeeded)), t1)
                    == (Phase::Reporting, interval / 2 + interval)
            }
        }),
{
}

proof fn lemma_cadence_from_report(interval: nat, t: nat, n: nat)
    ensures
        report_times_all_succeed(interval, Phase::Reporting, t, n).len() == n,
        forall|k: int|
            0 <= k < n ==> #[trigger] report_times_all_succeed(interval, Phase::Reporting, t, n)[k]
                == t + k * interval,
    decreases n,
{
    if n > 0 {
        let rest = report_times_all_succeed(interval, Phase::Reporting, t + interval, (n - 1) as nat);
        lemma_cadence_from_report(interval, t + interval, (n - 1) as nat);
        assert(report_times_all_succeed(interval, Phase::Resting, t, (n - 1) as nat) == rest);
        let all = report_times_all_succeed(interval, Phase::Reporting, t, n);
        assert(all == seq![t] + rest);
        assert forall|k: int| 0 <= k < n implies #[trigger] all[k] == t + k * interval by {
            if k > 0 {
                assert(all[k] == rest[k - 1]);
                assert(t + interval + (k - 1) * interval == t + k * interval) by (nonlinear_arith);
            }
        }
    }
}

/// Where every report succeeds, the loop never retries: its first report
/// comes after the warm-up and each later one a full interval after the one
/// before.
pub proof fn lemma_steady_cadence(interval: nat, n: nat)
    ensures
        report_times_all_succeed(interval, Phase::WarmingUp, 0, n).len() == n,
        forall|k: int|
            0 <= k < n ==> #[trigger] report_times_all_succeed(interval, Phase::WarmingUp, 0, n)[k]
                == WARM_UP_SECS * NANOS_PER_SEC + k * interval,
{
    let warm_up = WARM_UP_SECS as nat * NANOS_PER_SEC as nat;
    lemma_cadence_from_report(interval, warm_up, n);
    if n > 0 {
        assert(report_times_all_succeed(interval, Phase::WarmingUp, 0, n)
            == report_times_all_succeed(interval, Phase::Reporting, warm_up, n));
    }
}

} // verus!
