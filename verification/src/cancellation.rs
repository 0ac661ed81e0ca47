//! Hierarchical cancellation of a session.
//!
//! Each session holds a root token; every agent runner, backend execution and
//! tool call derives a child token from it. Cancelling the root cancels every
//! descendant.

use tokio_util::sync::CancellationToken;
use vstd::prelude::*;

use crate::outside::{cancel_token, child_token, clone_token, new_token, token_is_cancelled};

verus! {

/// The root of a session's cancellation hierarchy.
///
/// Handles are cheap: a clone refers to the same root.
pub struct SessionCancellation {
    root: CancellationToken,
}

impl SessionCancellation {
    /// The root token.
    pub closed spec fn root(&self) -> CancellationToken {
        self.root
    }

    /// Whether the session is known to be cancelled. Cancellation is never
    /// undone.
    pub open spec fn known_cancelled(&self) -> bool {
        crate::outside::known_cancelled(self.root())
    }

    /// Whether a token is cancelled together with the session.
    pub open spec fn governs(&self, token: CancellationToken) -> bool {
        crate::outside::descends(token, self.root())
    }

    /// Whether the root is a root: no token is above it.
    pub open spec fn wf(&self) -> bool {
        crate::outside::is_root(self.root())
    }

    /// Whether this is what cancelling `before` leaves: the session is
    /// cancelled, the same tokens are below it, and a session that was
    /// cancelled already is as it was.
    pub open spec fn cancelled_from(&self, before: SessionCancellation) -> bool {
        &&& self.known_cancelled()
        &&& before.known_cancelled() ==> *self == before
        &&& before.wf() ==> self.wf()
        &&& forall|token: CancellationToken| #[trigger]
            self.governs(token) <==> before.governs(token)
    }

    /// A root of its own, not cancelled.
    pub fn new() -> (r: Self)
        ensures
            r.wf(),
            !r.known_cancelled(),
            r.governs(r.root()),
    {
        SessionCancellation { root: new_token() }
    }

    /// A token that is cancelled whenever the root is; cancelled from the
    /// start where, and only where, the root is known to be cancelled.
    pub fn child_token(&self) -> (r: CancellationToken)
        ensures
            self.governs(r),
            crate::outside::descends(r, r),
            forall|ancestor: CancellationToken| #[trigger]
                crate::outside::descends(self.root(), ancestor) ==> crate::outside::descends(
                    r,
                    ancestor,
                ),
            crate::outside::known_cancelled(r) <==> self.known_cancelled(),
    {
        child_token(&self.root)
    }

    /// Cancels the root and every token derived from it. Cancelling again has
    /// no further effect.
    pub fn cancel(&mut self)
        ensures
            final(self).cancelled_from(*old(self)),
    {
        cancel_token(&mut self.root);
    }

    /// Tells whether cancellation has been requested. Where the session is
    /// not known to be cancelled through this handle, the answer rests on what
    /// has been done through other handles on the root by then.
    pub fn is_cancelled(&self) -> (r: bool)
        ensures
            self.known_cancelled() ==> r,
            r ==> crate::outside::cancel_requested(self.root()),
    {
        token_is_cancelled(&self.root, &self.root)
    }

    /// Tells whether a token has been cancelled, by itself or through the
    /// session: once the session is cancelled, every token below it is.
    /// Of a token of which neither is known, the answer rests on what has been
    /// done through other handles by then.
    pub fn has_cancelled(&self, token: &CancellationToken) -> (r: bool)
        ensures
            crate::outside::known_cancelled(*token) ==> r,
            self.wf() && self.known_cancelled() && self.governs(*token) ==> r,
            r ==> crate::outside::cancel_requested(*token),
    {
        token_is_cancelled(token, &self.root)
    }
}

impl Clone for SessionCancellation {
    /// Another handle on the same root.
    fn clone(&self) -> (r: Self)
        ensures
            r.wf() <==> self.wf(),
            r.known_cancelled() <==> self.known_cancelled(),
            forall|token: CancellationToken| #[trigger]
                r.governs(token) <==> self.governs(token),
    {
        SessionCancellation { root: clone_token(&self.root) }
    }
}

impl Default for SessionCancellation {
    fn default() -> (r: Self)
        ensures
            r.wf(),
            !r.known_cancelled(),
            r.governs(r.root()),
    {
        SessionCancellation::new()
    }
}

/// Cancelling a session reaches every token below it, however deep, and
/// cancelling it again changes nothing.
pub proof fn cancelling_twice_is_cancelling_once(
    before: SessionCancellation,
    once: SessionCancellation,
    twice: SessionCancellation,
    token: CancellationToken,
    below: CancellationToken,
)
    requires
        once.cancelled_from(before),
        twice.cancelled_from(once),
        before.governs(token),
        forall|ancestor: CancellationToken| #[trigger]
            crate::outside::descends(token, ancestor) ==> crate::outside::descends(
                below,
                ancestor,
            ),
    ensures
        twice == once,
        once.known_cancelled(),
        once.governs(token),
        once.governs(below),
{
    assert(crate::outside::descends(token, once.root())) by {
        assert(once.governs(token));
    }
}

} // verus!
