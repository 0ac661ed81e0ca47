//! Session lifecycle: creation under admission control, closing, draining.

use vstd::prelude::*;

use crate::ids::SessionId;
use crate::scheduler::config::CapacityError;
use crate::session_manager::contracts::{
    RestoreStart, SessionHost, SessionLifecycle, SessionRegistry, SessionRestorer,
};
use crate::session_manager::errors::SessionManagerError;
use crate::session_manager::registry::ActiveSessionRegistry;
use crate::text::concat2;

verus! {

/// Coordinates the sessions of a host. `R` is a handle on a session's
/// runtime, `P` a capacity permit.
pub struct SessionManager<R, P> {
    pub registry: ActiveSessionRegistry<R, P>,
    /// Whether a durable store is configured.
    pub stored: bool,
}

/// How closing one session of a drain ended.
#[derive(Clone, Copy, Debug, PartialEq, Eq, Structural)]
pub enum CloseOutcome {
    /// It closed cleanly.
    Closed,
    /// Closing it failed.
    Failed,
    /// It did not close within the grace period.
    TimedOut,
}

impl<R, P> SessionManager<R, P> {
    /// No session is active and no store is configured.
    pub fn new() -> (r: Self)
        ensures
            r.registry.wf(),
            r.registry.sessions() == Map::<u128, R>::empty(),
            r.registry.permits() == Map::<u128, P>::empty(),
            !r.stored,
    {
        Self::new_with_store(false)
    }

    /// No session is active; `stored` tells whether a store is configured.
    pub fn new_with_store(stored: bool) -> (r: Self)
        ensures
            r.registry.wf(),
            r.registry.sessions() == Map::<u128, R>::empty(),
            r.registry.permits() == Map::<u128, P>::empty(),
            r.stored == stored,
    {
        SessionManager { registry: ActiveSessionRegistry::new(), stored }
    }

    /// Configures a store.
    pub fn with_session_store(self) -> (r: Self)
        ensures
            r.registry == self.registry,
            r.stored,
    {
        SessionManager { stored: true, ..self }
    }
}

impl<R, P> SessionHost<R> for SessionManager<R, P> {
    open spec fn valid(&self) -> bool {
        self.registry.wf()
    }
}

impl<R, P> SessionRegistry<R> for SessionManager<R, P> {
    fn session_handle(&self, id: SessionId) -> (r: Option<&R>)
        ensures
            match r {
                Some(runtime) => self.registry.sessions().contains_key(id.0)
                    && self.registry.sessions()[id.0] == *runtime,
                None => !self.registry.sessions().contains_key(id.0),
            },
    {
        self.registry.get(id)
    }

    fn active_session_count(&self) -> (r: usize)
        ensures
            r == self.registry.sessions().len(),
    {
        self.registry.count()
    }

    fn active_session_ids(&self) -> (r: Vec<SessionId>)
        ensures
            r@.len() == self.registry.sessions().len(),
            r@.no_duplicates(),
            forall|id: SessionId| #[trigger]
                r@.contains(id) <==> self.registry.sessions().contains_key(id.0),
    {
        self.registry.ids()
    }
}

impl<R, P> SessionLifecycle<R, P> for SessionManager<R, P> {
    /// Registers a fresh session under the permit that its admission gave; a
    /// rejected admission leaves everything as it was.
    fn create_session(
        &mut self,
        id: SessionId,
        admission: Result<P, CapacityError>,
        runtime: R,
    ) -> (r: Result<(), SessionManagerError>)
        ensures
            final(self).stored == old(self).stored,
            match admission {
                Ok(permit) => {
                    &&& r == Ok::<(), SessionManagerError>(())
                    &&& final(self).registry.sessions() == old(self).registry.sessions().insert(
                        id.0,
                        runtime,
                    )
                    &&& final(self).registry.permits() == old(self).registry.permits().insert(
                        id.0,
                        permit,
                    )
                },
                Err(error) => {
                    &&& r == Err::<(), SessionManagerError>(SessionManagerError::AtCapacity(error))
                    &&& *final(self) == *old(self)
                },
            },
    {
        match admission {
            Ok(permit) => {
                self.registry.register(id, runtime, permit);
                Ok(())
            },
            Err(error) => Err(SessionManagerError::AtCapacity(error)),
        }
    }

    /// Takes a session out: it leaves the registry with its permit, whatever
    /// happens to its last checkpoint.
    fn close_session(&mut self, id: SessionId) -> (r: Result<(R, Option<P>), SessionManagerError>)
        ensures
            final(self).stored == old(self).stored,
            final(self).registry.sessions() == old(self).registry.sessions().remove(id.0),
            final(self).registry.permits() == old(self).registry.permits().remove(id.0),
            if old(self).registry.sessions().contains_key(id.0) {
                r == Ok::<(R, Option<P>), SessionManagerError>(
                    (
                        old(self).registry.sessions()[id.0],
                        Some(old(self).registry.permits()[id.0]),
                    ),
                )
            } else {
                r == Err::<(R, Option<P>), SessionManagerError>(SessionManagerError::NotFound(id))
            },
    {
        match self.registry.remove(id) {
            Some(removed) => Ok(removed),
            None => Err(SessionManagerError::NotFound(id)),
        }
    }
}

impl<R, P> SessionRestorer<R, P> for SessionManager<R, P> {
    /// Decides how a restore starts: without a store it is not supported, and
    /// a session that is active is not loaded again.
    fn restore_session(&self, id: SessionId) -> (r: Result<RestoreStart<R>, SessionManagerError>)
        ensures
            if !self.stored {
                r matches Err(SessionManagerError::RestoreNotSupported)
            } else if self.registry.sessions().contains_key(id.0) {
                r matches Ok(RestoreStart::Active(runtime)) && *runtime
                    == self.registry.sessions()[id.0]
            } else {
                r matches Ok(RestoreStart::Load)
            },
    {
        if !self.stored {
            return Err(SessionManagerError::RestoreNotSupported);
        }
        match self.registry.get(id) {
            Some(runtime) => Ok(RestoreStart::Active(runtime)),
            None => Ok(RestoreStart::Load),
        }
    }

    /// Registers a restored session under its permit.
    fn finish_restore(&mut self, id: SessionId, runtime: R, permit: P)
        ensures
            final(self).stored == old(self).stored,
            final(self).registry.sessions() == old(self).registry.sessions().insert(id.0, runtime),
            final(self).registry.permits() == old(self).registry.permits().insert(id.0, permit),
    {
        self.registry.register(id, runtime, permit);
    }
}

/// The error with which a fresh session is marked as failed: its first
/// checkpoint could not be saved.
pub fn initial_checkpoint_failure(stored: bool, checkpoint: Result<(), String>) -> (r: Option<
    String,
>)
    ensures
        match checkpoint {
            Err(error) if stored => r matches Some(text) && text@
                == "initial durable checkpoint failed: "@ + error@,
            _ => r is None,
        },
{
    if !stored {
        return None;
    }
    match checkpoint {
        Ok(_) => None,
        Err(error) => Some(concat2("initial durable checkpoint failed: ", error.as_str())),
    }
}

/// The answer to closing a session, from its last checkpoint.
pub fn finish_close(id: SessionId, checkpoint: Result<(), String>) -> (r: Result<
    (),
    SessionManagerError,
>)
    ensures
        match checkpoint {
            Ok(_) => r == Ok::<(), SessionManagerError>(()),
            Err(error) => r == Err::<(), SessionManagerError>(
                SessionManagerError::CloseCheckpointFailed { session: id, error },
            ),
        },
{
    match checkpoint {
        Ok(_) => Ok(()),
        Err(error) => Err(SessionManagerError::CloseCheckpointFailed { session: id, error }),
    }
}

/// The sessions of a drain that did not close cleanly, in order.
pub open spec fn unclosed(ids: Seq<SessionId>, outcomes: Seq<CloseOutcome>) -> Seq<SessionId>
    decreases ids.len(),
{
    if ids.len() == 0 {
        Seq::empty()
    } else {
        let rest = unclosed(ids.drop_last(), outcomes);
        if outcomes[ids.len() - 1] == CloseOutcome::Closed {
            rest
        } else {
            rest.push(ids.last())
        }
    }
}

/// Lists the sessions of a drain that did not close cleanly. `outcomes[i]` is
/// how closing `ids[i]` ended.
pub fn close_all_sessions(ids: &Vec<SessionId>, outcomes: &Vec<CloseOutcome>) -> (r: Vec<SessionId>)
    requires
        ids@.len() == outcomes@.len(),
    ensures
        r@ == unclosed(ids@, outcomes@),
{
    let mut left: Vec<SessionId> = Vec::new();
    let mut i: usize = 0;
    assert(ids@.take(0) =~= Seq::empty());
    while i < ids.len()
        invariant
            i <= ids@.len(),
            ids@.len() == outcomes@.len(),
            left@ == unclosed(ids@.take(i as int), outcomes@),
        decreases ids@.len() - i,
    {
        proof {
            assert(ids@.take(i + 1).drop_last() =~= ids@.take(i as int));
            assert(ids@.take(i + 1).last() == ids@[i as int]);
        }
        if outcomes[i] != CloseOutcome::Closed {
            left.push(ids[i]);
        }
        i = i + 1;
    }
    assert(ids@.take(ids@.len() as int) =~= ids@);
    left
}

/// A drain in which every session closes cleanly leaves nothing behind.
pub proof fn a_clean_drain_leaves_nothing(ids: Seq<SessionId>, outcomes: Seq<CloseOutcome>)
    requires
        ids.len() <= outcomes.len(),
        forall|i: int| 0 <= i < ids.len() ==> (#[trigger] outcomes[i]) == CloseOutcome::Closed,
    ensures
        unclosed(ids, outcomes).len() == 0,
    decreases ids.len(),
{
    if ids.len() > 0 {
        a_clean_drain_leaves_nothing(ids.drop_last(), outcomes);
        assert(outcomes[ids.len() - 1] == CloseOutcome::Closed);
    }
}

} // verus!
