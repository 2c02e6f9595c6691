//! Runs of the coordinator over whole sequences of signals, and what holds of
//! every such run.

use crate::coordinator::{
    action_for, next_phase, Action, BuildFailed, Coordinator, Phase, Signal,
};
use vstd::prelude::*;

verus! {

/// The phase reached from `start` after taking in `signals` in order.
pub open spec fn phase_after(start: Phase, signals: Seq<Signal>) -> Phase
    decreases signals.len(),
{
    if signals.len() == 0 {
        start
    } else {
        next_phase(phase_after(start, signals.drop_last()), signals.last())
    }
}

/// How many builds the coordinator starts while taking in `signals` from
/// `start`.
pub open spec fn builds_started(start: Phase, signals: Seq<Signal>) -> nat
    decreases signals.len(),
{
    if signals.len() == 0 {
        0
    } else {
        let before = signals.drop_last();
        let started_here: nat = if action_for(phase_after(start, before), signals.last())
            is StartBuild {
            1
        } else {
            0
        };
        builds_started(start, before) + started_here
    }
}

/// How many build completions `signals` reports.
pub open spec fn builds_finished(signals: Seq<Signal>) -> nat
    decreases signals.len(),
{
    if signals.len() == 0 {
        0
    } else {
        let finished_here: nat = if signals.last() is BuildFinished {
            1
        } else {
            0
        };
        builds_finished(signals.drop_last()) + finished_here
    }
}

/// Every completion in `signals` is reported while a build is running, as is
/// the case when completions are reported only for builds that were started.
pub open spec fn completions_are_real(start: Phase, signals: Seq<Signal>) -> bool {
    forall|i: int|
        0 <= i < signals.len() && signals[i] is BuildFinished ==> #[trigger] phase_after(
            start,
            signals.take(i),
        ).building()
}

/// The number of builds running in `phase`.
pub open spec fn running(phase: Phase) -> nat {
    if phase.building() {
        1
    } else {
        0
    }
}

/// Every signal in `signals` comes from the watcher and warrants a rebuild.
pub open spec fn all_warrant_rebuild(signals: Seq<Signal>) -> bool {
    forall|i: int|
        0 <= i < signals.len() ==> (#[trigger] signals[i] matches Signal::Watch(w)
            && w.warrants_rebuild())
}

/// Every signal in `signals` comes from the watcher and warrants no rebuild.
pub open spec fn none_warrants_rebuild(signals: Seq<Signal>) -> bool {
    forall|i: int|
        0 <= i < signals.len() ==> (#[trigger] signals[i] matches Signal::Watch(w)
            && !w.warrants_rebuild())
}

/// Running a sequence extended by one signal is running the sequence and
/// then taking one step.
pub proof fn lemma_run_push(start: Phase, signals: Seq<Signal>, signal: Signal)
    ensures
        phase_after(start, signals.push(signal)) == next_phase(
            phase_after(start, signals),
            signal,
        ),
        builds_started(start, signals.push(signal)) == builds_started(start, signals) + (
        if action_for(phase_after(start, signals), signal) is StartBuild {
            1nat
        } else {
            0nat
        }),
{
    assert(signals.push(signal).drop_last() =~= signals);
}

/// A run starts at most one build per signal.
pub proof fn lemma_starts_are_bounded(start: Phase, signals: Seq<Signal>)
    ensures
        builds_started(start, signals) <= signals.len(),
    decreases signals.len(),
{
    if signals.len() > 0 {
        lemma_starts_are_bounded(start, signals.drop_last());
    }
}

impl Coordinator {
    /// Takes in `signals` one after the other and returns how many builds
    /// they asked for.
    pub fn replay(&mut self, signals: &Vec<Signal>) -> (started: usize)
        ensures
            final(self)@ == phase_after(old(self)@, signals@),
            started == builds_started(old(self)@, signals@),
    {
        let ghost start = self@;
        let mut started: usize = 0;
        let mut i: usize = 0;
        while i < signals.len()
            invariant
                i <= signals.len(),
                self@ == phase_after(start, signals@.take(i as int)),
                started == builds_started(start, signals@.take(i as int)),
            decreases signals.len() - i,
        {
            proof {
                let taken = signals@.take(i as int);
                lemma_starts_are_bounded(start, taken);
                lemma_run_push(start, taken, signals@[i as int]);
                assert(taken.push(signals@[i as int]) =~= signals@.take(i + 1));
            }
            match self.handle(signals[i]) {
                Action::StartBuild => {
                    started = started + 1;
                },
                Action::Nothing => {},
            }
            i = i + 1;
        }
        assert(signals@.take(signals@.len() as int) =~= signals@);
        started
    }
}

/// However many changes arrive while a build is running, they start no build
/// themselves and leave exactly one build owed.
pub proof fn lemma_changes_during_build_collapse(start: Phase, burst: Seq<Signal>)
    requires
        start.building(),
        burst.len() >= 1,
        all_warrant_rebuild(burst),
    ensures
        phase_after(start, burst) == Phase::BuildingAndOwed,
        builds_started(start, burst) == 0,
    decreases burst.len(),
{
    let before = burst.drop_last();
    if before.len() == 0 {
        assert(builds_started(start, before) == 0);
    } else {
        assert(all_warrant_rebuild(before)) by {
            assert(forall|i: int| 0 <= i < before.len() ==> before[i] == burst[i]);
        }
        lemma_changes_during_build_collapse(start, before);
    }
}

/// A burst of one or more changes that warrant a rebuild, delivered while a
/// build is running, leads to exactly one further build. None starts during
/// the burst, one starts when the running build completes, and none when
/// that one completes in turn.
pub proof fn lemma_burst_yields_one_build(
    start: Phase,
    burst: Seq<Signal>,
    first: Result<(), BuildFailed>,
    second: Result<(), BuildFailed>,
)
    requires
        start.building(),
        burst.len() >= 1,
        all_warrant_rebuild(burst),
    ensures
        builds_started(start, burst) == 0,
        builds_started(start, burst.push(Signal::BuildFinished(first))) == 1,
        phase_after(start, burst.push(Signal::BuildFinished(first))) == Phase::Building,
        builds_started(
            start,
            burst.push(Signal::BuildFinished(first)).push(Signal::BuildFinished(second)),
        ) == 1,
        phase_after(
            start,
            burst.push(Signal::BuildFinished(first)).push(Signal::BuildFinished(second)),
        ) == Phase::Idle,
{
    lemma_changes_during_build_collapse(start, burst);
    lemma_run_push(start, burst, Signal::BuildFinished(first));
    lemma_run_push(
        start,
        burst.push(Signal::BuildFinished(first)),
        Signal::BuildFinished(second),
    );
}

/// No two builds run at once: over any run in which completions are real,
/// the builds started less the builds completed are, at every point `n` of
/// the run, the one build of a building phase or none.
pub proof fn lemma_at_most_one_build_running(start: Phase, signals: Seq<Signal>, n: int)
    requires
        completions_are_real(start, signals),
        0 <= n <= signals.len(),
    ensures
        running(start) + builds_started(start, signals.take(n)) - builds_finished(
            signals.take(n),
        ) == running(phase_after(start, signals.take(n))),
        running(phase_after(start, signals.take(n))) <= 1,
    decreases n,
{
    let prefix = signals.take(n);
    if n > 0 {
        lemma_at_most_one_build_running(start, signals, n - 1);
        assert(prefix.drop_last() =~= signals.take(n - 1));
    }
}

/// Signals that warrant no rebuild are no-ops: each leaves the phase as it
/// was, sets no owed mark and starts no build.
pub proof fn lemma_ignorable_signal_is_noop(phase: Phase, signal: Signal)
    requires
        signal matches Signal::Watch(w) && !w.warrants_rebuild(),
    ensures
        next_phase(phase, signal) == phase,
        action_for(phase, signal) == Action::Nothing,
{
}

/// A whole run of signals that warrant no rebuild changes nothing and starts
/// no build.
pub proof fn lemma_ignorable_run_is_noop(start: Phase, signals: Seq<Signal>)
    requires
        none_warrants_rebuild(signals),
    ensures
        phase_after(start, signals) == start,
        builds_started(start, signals) == 0,
    decreases signals.len(),
{
    if signals.len() > 0 {
        let before = signals.drop_last();
        assert(none_warrants_rebuild(before)) by {
            assert(forall|i: int| 0 <= i < before.len() ==> before[i] == signals[i]);
        }
        lemma_ignorable_run_is_noop(start, before);
    }
}

/// A failed build is taken as a completed one: the coordinator moves on as
/// it would after a success, and starts a build only if one was owed.
pub proof fn lemma_failure_is_not_retried(phase: Phase, failure: BuildFailed)
    ensures
        next_phase(phase, Signal::BuildFinished(Err(failure))) == next_phase(
            phase,
            Signal::BuildFinished(Ok(())),
        ),
        action_for(phase, Signal::BuildFinished(Err(failure))) == action_for(
            phase,
            Signal::BuildFinished(Ok(())),
        ),
        !phase.owed() ==> action_for(phase, Signal::BuildFinished(Err(failure)))
            == Action::Nothing,
{
}

/// No change is lost: after a change that warrants a rebuild a build is
/// running, and it was either started by that change or has one more build
/// owed after it.
pub proof fn lemma_change_is_never_lost(phase: Phase, signal: Signal)
    requires
        signal matches Signal::Watch(w) && w.warrants_rebuild(),
    ensures
        next_phase(phase, signal).building(),
        action_for(phase, signal) == Action::StartBuild || next_phase(phase, signal).owed(),
{
}

/// A build is started only when none is running, or at the very moment the
/// running one completes.
pub proof fn lemma_start_only_when_free(phase: Phase, signal: Signal)
    requires
        action_for(phase, signal) == Action::StartBuild,
    ensures
        !phase.building() || signal is BuildFinished,
        next_phase(phase, signal) == Phase::Building,
{
}

} // verus!
