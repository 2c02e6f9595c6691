//! The rebuild coordinator: turns change notifications and build completions
//! into serialized build starts, with at most one build running and at most
//! one further build owed.

use crate::watcher::{delivered, signal_of, WatchSignal};
use notify::{Error, Event};
use vstd::prelude::*;

verus! {

/// Where the coordinator stands.
#[derive(Clone, Copy, Debug, PartialEq, Eq, Structural)]
pub enum Phase {
    /// No build is running.
    Idle,
    /// A build is running and the sources have not changed since it began.
    Building,
    /// A build is running and the sources changed meanwhile, so one more
    /// build is owed.
    BuildingAndOwed,
}

impl Phase {
    /// A build is in progress.
    pub open spec fn building(self) -> bool {
        self is Building || self is BuildingAndOwed
    }

    /// One more build is owed once the running one completes.
    pub open spec fn owed(self) -> bool {
        self is BuildingAndOwed
    }
}

/// Why a build did not produce documentation.
#[derive(Clone, Copy, Debug, PartialEq, Eq, Structural)]
pub enum BuildFailed {
    /// The generator process could not be started at all.
    NotLaunched,
    /// The generator ran and reported failure.
    ExitedWithError,
}

/// What the coordinator is told.
#[derive(Clone, Copy, Debug)]
pub enum Signal {
    /// Something arrived from the change watcher.
    Watch(WatchSignal),
    /// The running build completed with the given outcome.
    BuildFinished(Result<(), BuildFailed>),
}

/// What the coordinator asks its caller to do.
#[derive(Clone, Copy, Debug, PartialEq, Eq, Structural)]
pub enum Action {
    /// Nothing; keep waiting.
    Nothing,
    /// Start a build now.
    StartBuild,
}

/// The phase that follows `phase` on `signal`.
///
/// A change that warrants a rebuild starts a build when none is running and
/// otherwise marks one as owed. A completion clears the owed mark by moving
/// on to the owed build, or returns to idle. A completion reported while no
/// build is running has no effect.
pub open spec fn next_phase(phase: Phase, signal: Signal) -> Phase {
    match signal {
        Signal::Watch(w) => if !w.warrants_rebuild() {
            phase
        } else if phase is Idle {
            Phase::Building
        } else {
            Phase::BuildingAndOwed
        },
        Signal::BuildFinished(_) => if phase is BuildingAndOwed {
            Phase::Building
        } else {
            Phase::Idle
        },
    }
}

/// The action that `signal` calls for in `phase`: a build is started either
/// from idle on a change that warrants one, or on completion of a build
/// during which one became owed.
pub open spec fn action_for(phase: Phase, signal: Signal) -> Action {
    match signal {
        Signal::Watch(w) => if w.warrants_rebuild() && phase is Idle {
            Action::StartBuild
        } else {
            Action::Nothing
        },
        Signal::BuildFinished(_) => if phase is BuildingAndOwed {
            Action::StartBuild
        } else {
            Action::Nothing
        },
    }
}

/// The coordinator's state.
#[derive(Clone, Copy, Debug)]
pub struct Coordinator {
    phase: Phase,
}

impl View for Coordinator {
    type V = Phase;

    closed spec fn view(&self) -> Phase {
        self.phase
    }
}

impl Coordinator {
    /// A coordinator with no build running.
    pub fn new() -> (c: Self)
        ensures
            c@ == Phase::Idle,
    {
        Coordinator { phase: Phase::Idle }
    }

    /// The current phase.
    pub fn phase(&self) -> (p: Phase)
        ensures
            p == self@,
    {
        self.phase
    }

    /// Whether a build is in progress.
    pub fn is_building(&self) -> (b: bool)
        ensures
            b == self@.building(),
    {
        match self.phase {
            Phase::Idle => false,
            Phase::Building | Phase::BuildingAndOwed => true,
        }
    }

    /// Whether one more build is owed after the running one.
    pub fn rebuild_owed(&self) -> (b: bool)
        ensures
            b == self@.owed(),
    {
        match self.phase {
            Phase::BuildingAndOwed => true,
            Phase::Idle | Phase::Building => false,
        }
    }

    /// Takes in one read from the watcher's channel. Returns what the read
    /// amounted to, for the caller to report, and what to do.
    pub fn on_notification(&mut self, read: &Result<Event, Error>) -> (r: (WatchSignal, Action))
        ensures
            r.0 == delivered(*read),
            final(self)@ == next_phase(old(self)@, Signal::Watch(r.0)),
            r.1 == action_for(old(self)@, Signal::Watch(r.0)),
    {
        let signal = signal_of(read);
        let action = self.handle(Signal::Watch(signal));
        (signal, action)
    }

    /// Takes in the outcome of the build that was running.
    pub fn on_build_finished(&mut self, outcome: Result<(), BuildFailed>) -> (action: Action)
        ensures
            final(self)@ == next_phase(old(self)@, Signal::BuildFinished(outcome)),
            action == action_for(old(self)@, Signal::BuildFinished(outcome)),
    {
        self.handle(Signal::BuildFinished(outcome))
    }

    /// Takes in one signal, moves to the next phase and says what to do.
    pub fn handle(&mut self, signal: Signal) -> (action: Action)
        ensures
            final(self)@ == next_phase(old(self)@, signal),
            action == action_for(old(self)@, signal),
    {
        match signal {
            Signal::Watch(w) => {
                if !w.asks_for_rebuild() {
                    Action::Nothing
                } else {
                    match self.phase {
                        Phase::Idle => {
                            self.phase = Phase::Building;
                            Action::StartBuild
                        },
                        Phase::Building | Phase::BuildingAndOwed => {
                            self.phase = Phase::BuildingAndOwed;
                            Action::Nothing
                        },
                    }
                }
            },
            Signal::BuildFinished(_) => {
                match self.phase {
                    Phase::BuildingAndOwed => {
                        self.phase = Phase::Building;
                        Action::StartBuild
                    },
                    Phase::Idle | Phase::Building => {
                        self.phase = Phase::Idle;
                        Action::Nothing
                    },
                }
            },
        }
    }
}

} // verus!
