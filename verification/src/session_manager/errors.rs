//! Errors of session management.

use vstd::prelude::*;

use crate::ids::SessionId;
use crate::scheduler::config::CapacityError;
use crate::text::{concat2, concat3};

verus! {

/// Errors of session lifecycle and restore. Errors of the store, of the
/// replay, of the migration and of the restore policy are kept as text.
#[derive(Debug)]
pub enum SessionManagerError {
    /// The session is not active.
    NotFound(SessionId),
    /// No store is configured to restore from.
    RestoreNotSupported,
    /// The store failed.
    Store(String),
    /// There is no snapshot to restore from.
    NoSnapshot(SessionId),
    /// The stored events failed validation.
    RestoreValidation(String),
    /// The stored snapshot cannot be brought to the current version.
    SnapshotMigration(String),
    /// The host lacks something that the snapshot depends on.
    RestoreRejected(String),
    /// A backend could not be made again.
    BackendCreation { integration: String, message: String },
    /// The session was removed, but its last checkpoint could not be saved.
    CloseCheckpointFailed { session: SessionId, error: String },
    /// No slot became free within the admission timeout.
    AtCapacity(CapacityError),
}

impl SessionManagerError {
    /// The message shown to a caller; `session` is how the session's
    /// identifier is printed.
    pub open spec fn message_view(self, session: Seq<char>) -> Seq<char> {
        match self {
            SessionManagerError::NotFound(_) => "session "@ + session + " not found"@,
            SessionManagerError::RestoreNotSupported => "session restore requires a configured session store"@,
            SessionManagerError::Store(error) => "session store error: "@ + error@,
            SessionManagerError::NoSnapshot(_) => "session "@ + session
                + " has no stored snapshot to restore from"@,
            SessionManagerError::RestoreValidation(error) => "stored session failed replay validation: "@
                + error@,
            SessionManagerError::SnapshotMigration(error) => "stored snapshot is not migratable: "@
                + error@,
            SessionManagerError::RestoreRejected(error) => "restore rejected: "@ + error@,
            SessionManagerError::BackendCreation { integration, message } => "failed to re-create backend for integration "@
                + integration@ + ": "@ + message@,
            SessionManagerError::CloseCheckpointFailed { session: _, error } => "session "@
                + session + " was removed but its final checkpoint failed to persist: "@ + error@,
            SessionManagerError::AtCapacity(error) => "session admission rejected: "@
                + error.message_view(),
        }
    }

    /// The message shown to a caller; `session` is how the session's
    /// identifier is printed.
    pub fn message(&self, session: &str) -> (r: String)
        ensures
            r@ == self.message_view(session@),
    {
        match self {
            SessionManagerError::NotFound(_) => concat3("session ", session, " not found"),
            SessionManagerError::RestoreNotSupported => "session restore requires a configured session store".to_owned(),
            SessionManagerError::Store(error) => concat2("session store error: ", error.as_str()),
            SessionManagerError::NoSnapshot(_) => concat3(
                "session ",
                session,
                " has no stored snapshot to restore from",
            ),
            SessionManagerError::RestoreValidation(error) => concat2(
                "stored session failed replay validation: ",
                error.as_str(),
            ),
            SessionManagerError::SnapshotMigration(error) => concat2(
                "stored snapshot is not migratable: ",
                error.as_str(),
            ),
            SessionManagerError::RestoreRejected(error) => concat2(
                "restore rejected: ",
                error.as_str(),
            ),
            SessionManagerError::BackendCreation { integration, message } => concat2(
                concat3(
                    "failed to re-create backend for integration ",
                    integration.as_str(),
                    ": ",
                ).as_str(),
                message.as_str(),
            ),
            SessionManagerError::CloseCheckpointFailed { session: _, error } => concat2(
                concat3(
                    "session ",
                    session,
                    " was removed but its final checkpoint failed to persist: ",
                ).as_str(),
                error.as_str(),
            ),
            SessionManagerError::AtCapacity(error) => concat2(
                "session admission rejected: ",
                error.message().as_str(),
            ),
        }
    }
}

} // verus!
