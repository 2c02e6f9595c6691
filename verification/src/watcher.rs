//! Classification of filesystem notifications coming from the watched source
//! tree.

use notify::{Error, Event, EventKind};
use vstd::prelude::*;

verus! {

/// `notify::Event`, a filesystem notification; nothing inside it is visible
/// to proofs.
#[verifier::external_type_specification]
#[verifier::external_body]
pub struct ExEvent(Event);

/// `notify::Error`, a failure of the notification mechanism; nothing inside
/// it is visible to proofs.
#[verifier::external_type_specification]
#[verifier::external_body]
pub struct ExError(Error);

/// The top-level kind of a filesystem notification.
#[derive(Clone, Copy, Debug, PartialEq, Eq, Structural)]
pub enum ChangeKind {
    /// The backend could not tell what happened.
    Any,
    /// A file was opened, read or closed; nothing changed.
    Access,
    /// A file or directory came into being.
    Create,
    /// Content, name or metadata of a file changed.
    Modify,
    /// A file or directory went away.
    Remove,
    /// Something that fits none of the above.
    Other,
}

impl ChangeKind {
    /// Creations, modifications and removals are the kinds that can change
    /// the generated documentation.
    pub open spec fn interesting(self) -> bool {
        self is Create || self is Modify || self is Remove
    }

    /// Whether a notification of this kind warrants a rebuild.
    pub fn is_interesting(&self) -> (b: bool)
        ensures
            b == self.interesting(),
    {
        match self {
            ChangeKind::Create | ChangeKind::Modify | ChangeKind::Remove => true,
            ChangeKind::Any | ChangeKind::Access | ChangeKind::Other => false,
        }
    }
}

/// What one read from the notification channel produced.
#[derive(Clone, Copy, Debug, PartialEq, Eq, Structural)]
pub enum WatchSignal {
    /// A notification of the given kind.
    Change(ChangeKind),
    /// The notification mechanism reported an error for this read.
    Error,
}

impl WatchSignal {
    /// Only an interesting change warrants a rebuild; an error from the
    /// notification mechanism never does.
    pub open spec fn warrants_rebuild(self) -> bool {
        match self {
            WatchSignal::Change(kind) => kind.interesting(),
            WatchSignal::Error => false,
        }
    }

    /// Whether this signal asks for the documentation to be rebuilt.
    pub fn asks_for_rebuild(&self) -> (b: bool)
        ensures
            b == self.warrants_rebuild(),
    {
        match self {
            WatchSignal::Change(kind) => kind.is_interesting(),
            WatchSignal::Error => false,
        }
    }
}

/// What `read`, one item of the watcher's channel, amounts to.
pub uninterp spec fn delivered(read: Result<Event, Error>) -> WatchSignal;

/// Reads one item of the watcher's channel: of a `notify::Event` the `kind`
/// field, variant for variant and without its sub-kind; of a `notify::Error`
/// only that it is one. The contract gives the outcome its name.
#[verifier::external_body]
pub(crate) fn signal_of(read: &Result<Event, Error>) -> (signal: WatchSignal)
    ensures
        signal == delivered(*read),
{
    match read {
        Ok(event) => WatchSignal::Change(match event.kind {
            EventKind::Any => ChangeKind::Any,
            EventKind::Access(_) => ChangeKind::Access,
            EventKind::Create(_) => ChangeKind::Create,
            EventKind::Modify(_) => ChangeKind::Modify,
            EventKind::Remove(_) => ChangeKind::Remove,
            EventKind::Other => ChangeKind::Other,
        }),
        Err(_) => WatchSignal::Error,
    }
}

} // verus!
