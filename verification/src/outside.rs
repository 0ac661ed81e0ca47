//! Types of outside crates that values of the library carry, and the few
//! functions of those types that the library calls.

use vstd::prelude::*;

verus! {

/// A `tokio` semaphore.
#[verifier::external_type_specification]
#[verifier::external_body]
pub struct ExSemaphore(tokio::sync::Semaphore);

/// A `tokio_util` cancellation token.
#[verifier::external_type_specification]
#[verifier::external_body]
pub struct ExCancellationToken(tokio_util::sync::CancellationToken);

/// The number of permits that a semaphore was made with.
pub uninterp spec fn initial_permits(semaphore: tokio::sync::Semaphore) -> nat;

/// Largest number of permits that a semaphore can be made with.
pub open spec fn max_permits() -> int {
    usize::MAX as int / 8
}

/// Whether the token is known to be cancelled: it was cancelled through this
/// handle, or the handle was made from one of which that was already known.
/// Cancellation is never undone.
pub uninterp spec fn known_cancelled(token: tokio_util::sync::CancellationToken) -> bool;

/// Calls `tokio::sync::Semaphore::new`, which makes a semaphore with that many
/// permits and panics above `Semaphore::MAX_PERMITS`, an eighth of `usize::MAX`.
#[verifier::external_body]
pub(crate) fn new_semaphore(permits: usize) -> (r: tokio::sync::Semaphore)
    requires
        permits <= max_permits(),
    ensures
        initial_permits(r) == permits,
{
    tokio::sync::Semaphore::new(permits)
}

/// Whether the semaphore reports that many available permits at some time.
pub uninterp spec fn reported(semaphore: tokio::sync::Semaphore, count: usize) -> bool;

/// Calls `tokio::sync::Semaphore::available_permits`: the count is one that
/// this semaphore reports. Which one rests on the time of the call: it changes
/// with every permit that is taken or handed back.
#[verifier::external_body]
pub(crate) fn available_permits(semaphore: &tokio::sync::Semaphore) -> (r: usize)
    ensures
        reported(*semaphore, r),
{
    semaphore.available_permits()
}

/// Whether cancelling `ancestor` cancels `token`: it is a handle on the same
/// token, or on one derived from it.
pub uninterp spec fn descends(
    token: tokio_util::sync::CancellationToken,
    ancestor: tokio_util::sync::CancellationToken,
) -> bool;

/// Whether whatever is below `before` is below `after` too.
pub open spec fn covers(
    after: tokio_util::sync::CancellationToken,
    before: tokio_util::sync::CancellationToken,
) -> bool {
    forall|token: tokio_util::sync::CancellationToken| #[trigger]
        descends(token, before) ==> descends(token, after)
}

/// Whether the token was made on its own: nothing is above it but handles on
/// the token itself.
pub open spec fn is_root(token: tokio_util::sync::CancellationToken) -> bool {
    forall|ancestor: tokio_util::sync::CancellationToken| #[trigger]
        descends(token, ancestor) ==> descends(ancestor, token)
}

/// Whether cancellation of the token is requested at some time, through any
/// handle on it or on a token above it.
pub uninterp spec fn cancel_requested(token: tokio_util::sync::CancellationToken) -> bool;

/// Calls `CancellationToken::new`, which makes a token of its own that is not
/// cancelled.
#[verifier::external_body]
pub(crate) fn new_token() -> (r: tokio_util::sync::CancellationToken)
    ensures
        !known_cancelled(r),
        descends(r, r),
        is_root(r),
{
    tokio_util::sync::CancellationToken::new()
}

/// Calls `CancellationToken::child_token`: the child is below the token and
/// below everything that the token is below. The child of a cancelled token
/// is cancelled from the start; any other one is not.
#[verifier::external_body]
pub(crate) fn child_token(token: &tokio_util::sync::CancellationToken) -> (r:
    tokio_util::sync::CancellationToken)
    ensures
        descends(r, r),
        descends(r, *token),
        forall|ancestor: tokio_util::sync::CancellationToken| #[trigger]
            descends(*token, ancestor) ==> descends(r, ancestor),
        known_cancelled(r) <==> known_cancelled(*token),
{
    token.child_token()
}

/// Calls `Clone::clone` of a `CancellationToken`: the clone is another handle
/// on the same token, below and above what the token is, and as cancelled as
/// the token is.
#[verifier::external_body]
pub(crate) fn clone_token(token: &tokio_util::sync::CancellationToken) -> (r:
    tokio_util::sync::CancellationToken)
    ensures
        covers(r, *token),
        covers(*token, r),
        forall|ancestor: tokio_util::sync::CancellationToken|
            #![trigger descends(*token, ancestor)]
            #![trigger descends(r, ancestor)]
            descends(*token, ancestor) <==> descends(r, ancestor),
        known_cancelled(r) <==> known_cancelled(*token),
{
    token.clone()
}

/// Calls `CancellationToken::cancel`: the token is cancelled when the call
/// returns, and for good. It stays where it is among the other tokens, and
/// cancelling it again changes nothing.
#[verifier::external_body]
pub(crate) fn cancel_token(token: &mut tokio_util::sync::CancellationToken)
    ensures
        known_cancelled(*final(token)),
        known_cancelled(*old(token)) ==> *final(token) == *old(token),
        covers(*final(token), *old(token)),
        covers(*old(token), *final(token)),
        forall|ancestor: tokio_util::sync::CancellationToken|
            #![trigger descends(*old(token), ancestor)]
            #![trigger descends(*final(token), ancestor)]
            descends(*old(token), ancestor) <==> descends(*final(token), ancestor),
{
    token.cancel();
}

/// Calls `CancellationToken::is_cancelled`: a token known to be cancelled
/// reports it, and so does one below a root that is known to be cancelled. A
/// token reports cancellation only where it is requested. Beyond that the
/// answer rests on what other handles have done by the time of the call, and
/// below a token that is no root also on how far another cancellation, further
/// up, has got. The call does not look at `ancestor`: handing the handle in
/// says that it was cancelled before the call, not after it.
#[verifier::external_body]
pub(crate) fn token_is_cancelled(
    token: &tokio_util::sync::CancellationToken,
    ancestor: &tokio_util::sync::CancellationToken,
) -> (r: bool)
    ensures
        known_cancelled(*token) ==> r,
        known_cancelled(*ancestor) && is_root(*ancestor) && descends(*token, *ancestor) ==> r,
        r ==> cancel_requested(*token),
{
    let _ = ancestor;
    token.is_cancelled()
}

} // verus!
