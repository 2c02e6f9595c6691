//! The process orchestrator: the resolved project together with the rebuild
//! coordinator, and the policy for the failures that can occur around them.

use crate::coordinator::{action_for, next_phase, Action, BuildFailed, Coordinator, Phase, Signal};
use crate::project::{ProjectReference, ProjectView};
use crate::server::{redirect_target, redirect_target_of};
use crate::trace::phase_after;
use crate::watcher::{delivered, WatchSignal};
use notify::{Error, Event};
use vstd::prelude::*;

verus! {

/// What can go wrong while the server runs.
#[derive(Clone, Copy, Debug, PartialEq, Eq, Structural)]
pub enum Failure {
    /// The project's metadata could not be resolved.
    ResolveProject,
    /// The watch on the source directory could not be set up.
    EstablishWatch,
    /// The server's address could not be bound.
    BindAddress,
    /// The serving loop ended after it had started.
    ServeRequests,
    /// A background task ended.
    TaskEnded,
    /// A build failed or could not be launched.
    Build,
    /// One read from the notification mechanism failed.
    ReadNotification,
    /// The browser could not be opened.
    OpenBrowser,
}

/// How a failure is met.
#[derive(Clone, Copy, Debug, PartialEq, Eq, Structural)]
pub enum Severity {
    /// The process stops with a diagnostic.
    Fatal,
    /// The failure is logged; what was served before stays served and the
    /// loop goes on. Nothing is retried before the sources change again.
    Recoverable,
    /// The failure is logged and otherwise ignored.
    BestEffort,
}

impl Failure {
    /// Failures of the one-time setup and of the background tasks are fatal,
    /// a failed build is recoverable, and the rest is best effort.
    pub open spec fn severity_of(self) -> Severity {
        match self {
            Failure::ResolveProject
            | Failure::EstablishWatch
            | Failure::BindAddress
            | Failure::ServeRequests
            | Failure::TaskEnded => Severity::Fatal,
            Failure::Build => Severity::Recoverable,
            Failure::ReadNotification | Failure::OpenBrowser => Severity::BestEffort,
        }
    }

    /// How this failure is met.
    pub fn severity(&self) -> (severity: Severity)
        ensures
            severity == self.severity_of(),
    {
        match self {
            Failure::ResolveProject
            | Failure::EstablishWatch
            | Failure::BindAddress
            | Failure::ServeRequests
            | Failure::TaskEnded => Severity::Fatal,
            Failure::Build => Severity::Recoverable,
            Failure::ReadNotification | Failure::OpenBrowser => Severity::BestEffort,
        }
    }

    /// Whether the process stops on this failure.
    pub fn is_fatal(&self) -> (fatal: bool)
        ensures
            fatal == (self.severity_of() == Severity::Fatal),
    {
        match self.severity() {
            Severity::Fatal => true,
            Severity::Recoverable | Severity::BestEffort => false,
        }
    }
}

/// The resolved project and the coordinator of its rebuilds.
pub struct Orchestrator {
    project: ProjectReference,
    coordinator: Coordinator,
}

/// What an [`Orchestrator`] holds.
pub struct OrchestratorView {
    pub project: ProjectView,
    pub phase: Phase,
}

impl OrchestratorView {
    /// The state after `signal`: the coordinator moves, the project stays.
    pub open spec fn step(self, signal: Signal) -> OrchestratorView {
        OrchestratorView { project: self.project, phase: next_phase(self.phase, signal) }
    }

    /// The state after `signals`, taken in order.
    pub open spec fn run(self, signals: Seq<Signal>) -> OrchestratorView
        decreases signals.len(),
    {
        if signals.len() == 0 {
            self
        } else {
            self.run(signals.drop_last()).step(signals.last())
        }
    }

    /// Where a request for `/` is redirected to in this state.
    pub open spec fn redirect_target(self) -> Seq<char> {
        redirect_target_of(self.project.unit)
    }
}

impl View for Orchestrator {
    type V = OrchestratorView;

    closed spec fn view(&self) -> OrchestratorView {
        OrchestratorView { project: self.project@, phase: self.coordinator@ }
    }
}

impl Orchestrator {
    /// An orchestrator for `project`, with no build running.
    pub fn new(project: ProjectReference) -> (orchestrator: Self)
        ensures
            orchestrator@.project == project@,
            orchestrator@.phase == Phase::Idle,
    {
        Orchestrator { project, coordinator: Coordinator::new() }
    }

    /// The project being served.
    pub fn project(&self) -> (project: &ProjectReference)
        ensures
            project@ == self@.project,
    {
        &self.project
    }

    /// The coordinator's current phase.
    pub fn phase(&self) -> (phase: Phase)
        ensures
            phase == self@.phase,
    {
        self.coordinator.phase()
    }

    /// Where a request for `/` is redirected to.
    pub fn redirect_target(&self) -> (target: String)
        ensures
            target@ == self@.redirect_target(),
    {
        redirect_target(self.project.unit_name())
    }

    /// Takes in one signal; see [`Coordinator::handle`].
    pub fn handle(&mut self, signal: Signal) -> (action: Action)
        ensures
            final(self)@ == old(self)@.step(signal),
            action == action_for(old(self)@.phase, signal),
    {
        self.coordinator.handle(signal)
    }

    /// Takes in one read from the watcher's channel; see
    /// [`Coordinator::on_notification`].
    pub fn on_notification(&mut self, read: &Result<Event, Error>) -> (r: (WatchSignal, Action))
        ensures
            r.0 == delivered(*read),
            final(self)@ == old(self)@.step(Signal::Watch(r.0)),
            r.1 == action_for(old(self)@.phase, Signal::Watch(r.0)),
    {
        self.coordinator.on_notification(read)
    }

    /// Takes in the outcome of the build that was running.
    pub fn on_build_finished(&mut self, outcome: Result<(), BuildFailed>) -> (action: Action)
        ensures
            final(self)@ == old(self)@.step(Signal::BuildFinished(outcome)),
            action == action_for(old(self)@.phase, Signal::BuildFinished(outcome)),
    {
        self.coordinator.on_build_finished(outcome)
    }
}

/// Whatever signals arrive, and however many builds they lead to, the
/// project stays the one resolved at startup and the coordinator moves as it
/// would on its own.
pub proof fn lemma_project_is_fixed(start: OrchestratorView, signals: Seq<Signal>)
    ensures
        start.run(signals).project == start.project,
        start.run(signals).phase == phase_after(start.phase, signals),
    decreases signals.len(),
{
    if signals.len() > 0 {
        lemma_project_is_fixed(start, signals.drop_last());
    }
}

/// After any run of signals, a request for `/` is redirected to `/<unit>/`,
/// where the unit is the one resolved at startup.
pub proof fn lemma_redirect_is_fixed(start: OrchestratorView, signals: Seq<Signal>)
    ensures
        start.run(signals).redirect_target() == seq!['/'] + start.project.unit + seq!['/'],
{
    lemma_project_is_fixed(start, signals);
}

} // verus!
