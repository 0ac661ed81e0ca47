//! What a session manager offers, split by responsibility.

use vstd::prelude::*;

use crate::ids::SessionId;
use crate::scheduler::config::CapacityError;
use crate::session_manager::errors::SessionManagerError;

verus! {

/// How a restore starts.
pub enum RestoreStart<'a, R> {
    /// The session is active already; its runtime is used.
    Active(&'a R),
    /// The session is loaded from the store.
    Load,
}

/// Something that hosts sessions. `R` is a handle on a session's runtime.
pub trait SessionHost<R> {
    /// Whether the host is in a state that its operations keep.
    spec fn valid(&self) -> bool;
}

/// Looking up and counting active sessions.
pub trait SessionRegistry<R>: SessionHost<R> {
    /// The runtime of an active session.
    fn session_handle(&self, id: SessionId) -> Option<&R>;

    /// The number of active sessions.
    fn active_session_count(&self) -> usize;

    /// The identifiers of the active sessions.
    fn active_session_ids(&self) -> Vec<SessionId>;
}

/// Creating and closing sessions. `P` is a capacity permit.
pub trait SessionLifecycle<R, P>: SessionHost<R> {
    /// Registers a fresh session under the permit that its admission gave.
    fn create_session(
        &mut self,
        id: SessionId,
        admission: Result<P, CapacityError>,
        runtime: R,
    ) -> (r: Result<(), SessionManagerError>)
        requires
            old(self).valid(),
        ensures
            final(self).valid(),
    ;

    /// Takes a session out, to be shut down and saved.
    fn close_session(&mut self, id: SessionId) -> (r: Result<
        (R, Option<P>),
        SessionManagerError,
    >)
        requires
            old(self).valid(),
        ensures
            final(self).valid(),
    ;
}

/// Restoring sessions from a durable store.
pub trait SessionRestorer<R, P>: SessionHost<R> {
    /// Decides how a restore starts.
    fn restore_session(&self, id: SessionId) -> Result<RestoreStart<R>, SessionManagerError>;

    /// Registers a restored session under its permit.
    fn finish_restore(&mut self, id: SessionId, runtime: R, permit: P)
        requires
            old(self).valid(),
        ensures
            final(self).valid(),
    ;
}

/// Everything that a session manager offers.
pub trait SessionService<R, P>: SessionRegistry<R> + SessionLifecycle<R, P> + SessionRestorer<
    R,
    P,
> {

}

impl<R, P, T> SessionService<R, P> for T where
    T: SessionRegistry<R> + SessionLifecycle<R, P> + SessionRestorer<R, P>,
 {

}

} // verus!
