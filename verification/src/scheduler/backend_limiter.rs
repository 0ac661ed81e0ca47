//! Per-backend concurrency and sliding-window rate limiting.
//!
//! A backend without configured limits is not throttled here; one with limits
//! makes a request wait until the sliding window admits it, and then for a
//! slot of the backend's own semaphore. How many tokens a request takes is not
//! known when it is admitted: they are counted once it has ended, and hold
//! later requests back.

use std::collections::HashMap;
use std::sync::Arc;

use vstd::prelude::*;

use crate::ids::BackendId;
use crate::outside::new_semaphore;
use crate::scheduler::rate_window::{self, RateWindow};

verus! {

broadcast use vstd::std_specs::hash::group_hash_axioms;

/// How long a request sleeps before it asks the window again.
pub const BACKOFF_MILLIS: u64 = 100;

/// Per-backend rate and concurrency limits.
#[derive(Clone, Copy, Debug)]
pub struct BackendRateLimits {
    /// Maximum number of concurrent requests to this backend.
    pub max_concurrent_requests: usize,
    /// Maximum number of requests per minute; `None` means unlimited.
    pub requests_per_minute: Option<u32>,
    /// Maximum number of tokens per minute; `None` means unlimited.
    pub tokens_per_minute: Option<u64>,
}

/// Semaphore and sliding window of one configured backend.
pub struct BackendLimiterState {
    concurrency: Arc<tokio::sync::Semaphore>,
    window: RateWindow,
    limits: BackendRateLimits,
}

impl BackendLimiterState {
    /// The recorded requests.
    pub closed spec fn window(&self) -> Seq<(u64, u64)> {
        self.window@
    }

    /// The configured limits.
    pub closed spec fn limits(&self) -> BackendRateLimits {
        self.limits
    }

    /// The backend's own semaphore.
    pub closed spec fn semaphore(&self) -> tokio::sync::Semaphore {
        *self.concurrency
    }

    /// The semaphore has the configured size.
    pub open spec fn wf(&self) -> bool {
        crate::outside::initial_permits(self.semaphore()) == self.limits().max_concurrent_requests
    }

    fn new(limits: BackendRateLimits) -> (r: Self)
        requires
            limits.max_concurrent_requests <= crate::outside::max_permits(),
        ensures
            r.wf(),
            r.limits() == limits,
            r.window() == Seq::<(u64, u64)>::empty(),
    {
        BackendLimiterState {
            concurrency: Arc::new(new_semaphore(limits.max_concurrent_requests)),
            window: RateWindow::new(),
            limits,
        }
    }

    /// Asks the window for one more request at time `now`.
    fn ask_window(&mut self, now: u64) -> (r: bool)
        requires
            old(self).wf(),
        ensures
            final(self).wf(),
            final(self).limits() == old(self).limits(),
            final(self).semaphore() == old(self).semaphore(),
            r == window_admits(old(self).window(), old(self).limits(), now),
            final(self).window() == window_after(old(self).window(), old(self).limits(), now),
    {
        self.window.check_and_record(
            now,
            0,
            self.limits.requests_per_minute,
            self.limits.tokens_per_minute,
        )
    }

    /// Counts the tokens of the request that was admitted at time `at`.
    fn settle(&mut self, at: u64, tokens: u64)
        requires
            old(self).wf(),
        ensures
            final(self).wf(),
            final(self).limits() == old(self).limits(),
            final(self).semaphore() == old(self).semaphore(),
            rate_window::settled(old(self).window(), final(self).window(), at, tokens),
    {
        self.window.settle(at, tokens);
    }
}

/// Whether the window admits one more request at time `now`.
pub open spec fn window_admits(
    window: Seq<(u64, u64)>,
    limits: BackendRateLimits,
    now: u64,
) -> bool {
    rate_window::admits(
        rate_window::purge(window, now - rate_window::WINDOW_NANOS),
        0,
        limits.requests_per_minute,
        limits.tokens_per_minute,
    )
}

/// The window after it was asked for one more request at time `now`.
pub open spec fn window_after(
    window: Seq<(u64, u64)>,
    limits: BackendRateLimits,
    now: u64,
) -> Seq<(u64, u64)> {
    rate_window::recorded(
        window,
        now,
        0,
        limits.requests_per_minute,
        limits.tokens_per_minute,
    )
}

/// Where a request for a backend permit stands.
#[derive(Clone, Copy, Debug, PartialEq, Eq, Structural)]
pub enum AcquireState {
    /// The window has to be asked.
    Checking,
    /// The window refused; the request sleeps for [`BACKOFF_MILLIS`].
    Sleeping,
    /// The window admitted the request; it waits for a concurrency slot.
    Queued,
    /// The request holds a slot of the backend's semaphore.
    Granted,
    /// No limits are configured; the request goes ahead without a slot.
    Unthrottled,
    /// The request was abandoned because its token was cancelled.
    Cancelled,
}

impl AcquireState {
    /// Whether nothing is left to wait for.
    pub open spec fn finished(self) -> bool {
        self == AcquireState::Granted || self == AcquireState::Unthrottled || self
            == AcquireState::Cancelled
    }
}

/// What a waiting request observed. A request without a cancellation token
/// always reports `cancelled` as `false`.
#[derive(Clone, Copy, Debug, PartialEq, Eq, Structural)]
pub struct AcquireEvent {
    /// Whether the request's token is cancelled. Where the sleep or the slot
    /// came at the same time, cancellation goes first.
    pub cancelled: bool,
    /// The time of the observation, in nanoseconds of a monotonic clock.
    pub now: u64,
}

/// Where a request stands after `event`, given the backend's window.
pub open spec fn acquire_next(
    window: Seq<(u64, u64)>,
    limits: BackendRateLimits,
    state: AcquireState,
    event: AcquireEvent,
) -> AcquireState {
    if state.finished() {
        state
    } else if event.cancelled {
        AcquireState::Cancelled
    } else {
        match state {
            AcquireState::Checking => if window_admits(window, limits, event.now) {
                AcquireState::Queued
            } else {
                AcquireState::Sleeping
            },
            AcquireState::Sleeping => AcquireState::Checking,
            _ => AcquireState::Granted,
        }
    }
}

/// Whether handling `event` in `state` asks the window.
pub open spec fn asks_window(state: AcquireState, event: AcquireEvent) -> bool {
    state == AcquireState::Checking && !event.cancelled
}

/// The per-backend limiters. A request refers to the limiter that was
/// configured when it started by its index, so that reconfiguring a backend
/// never changes the limits of a request that already waits.
pub struct BackendLimiters {
    states: Vec<BackendLimiterState>,
    current: HashMap<u128, usize>,
}

impl BackendLimiters {
    /// Every limiter ever configured.
    pub closed spec fn states(&self) -> Seq<BackendLimiterState> {
        self.states@
    }

    /// For each backend, the index of the limiter that new requests use.
    pub closed spec fn current(&self) -> Map<u128, usize> {
        self.current@
    }

    /// Every index names a limiter, and every limiter is well-formed.
    pub open spec fn wf(&self) -> bool {
        &&& forall|id: u128|
            #[trigger] self.current().contains_key(id) ==> self.current()[id] < self.states().len()
        &&& forall|i: int| 0 <= i < self.states().len() ==> (#[trigger] self.states()[i]).wf()
    }

    /// No backend is limited.
    pub fn new() -> (r: Self)
        ensures
            r.wf(),
            r.states() == Seq::<BackendLimiterState>::empty(),
            r.current() == Map::<u128, usize>::empty(),
    {
        BackendLimiters { states: Vec::new(), current: HashMap::new() }
    }

    /// Configures limits for a backend, replacing earlier ones for requests
    /// that start from now on.
    pub fn configure(&mut self, backend: BackendId, limits: BackendRateLimits)
        requires
            old(self).wf(),
            limits.max_concurrent_requests <= crate::outside::max_permits(),
        ensures
            final(self).wf(),
            final(self).states().len() == old(self).states().len() + 1,
            final(self).states().drop_last() == old(self).states(),
            final(self).states().last().limits() == limits,
            final(self).states().last().window() == Seq::<(u64, u64)>::empty(),
            final(self).current() == old(self).current().insert(
                backend.0,
                old(self).states().len() as usize,
            ),
    {
        let index: usize = self.states.len();
        let ghost before = self.states();
        self.states.push(BackendLimiterState::new(limits));
        self.current.insert(backend.0, index);
        assert(self.states().drop_last() == before);
        assert forall|id: u128| #[trigger] self.current().contains_key(id) implies self.current()[id]
            < self.states().len() by {
            if id != backend.0 {
                assert(old(self).current().contains_key(id));
            }
        }
        assert forall|i: int| 0 <= i < self.states().len() implies (#[trigger] self.states()[i]).wf() by {
            if i < before.len() {
                assert(self.states()[i] == before[i]);
            }
        }
    }

    /// Starts a request: the limiter it has to wait at, if the backend has one.
    pub fn begin(&self, backend: BackendId) -> (r: Option<usize>)
        requires
            self.wf(),
        ensures
            match r {
                Some(index) => self.current().contains_key(backend.0) && self.current()[backend.0]
                    == index && index < self.states().len(),
                None => !self.current().contains_key(backend.0),
            },
    {
        match self.current.get(&backend.0) {
            Some(index) => Some(*index),
            None => None,
        }
    }

    /// The state in which a request starts.
    pub fn initial(limiter: Option<usize>) -> (r: AcquireState)
        ensures
            r == (if limiter is Some {
                AcquireState::Checking
            } else {
                AcquireState::Unthrottled
            }),
    {
        match limiter {
            Some(_) => AcquireState::Checking,
            None => AcquireState::Unthrottled,
        }
    }

    /// The semaphore from which a request at limiter `index` takes its slot.
    pub fn slots(&self, index: usize) -> (r: &Arc<tokio::sync::Semaphore>)
        requires
            index < self.states().len(),
        ensures
            **r == self.states()[index as int].semaphore(),
    {
        &self.states[index].concurrency
    }

    /// Advances a request that waits at limiter `index`.
    ///
    /// Only a request that checks the window touches it: it is recorded when
    /// it is admitted, so waiting for the window occupies no slot, and waiting
    /// for a slot records nothing twice.
    pub fn acquire_step(
        &mut self,
        index: usize,
        state: AcquireState,
        event: AcquireEvent,
    ) -> (r: AcquireState)
        requires
            old(self).wf(),
            index < old(self).states().len(),
        ensures
            final(self).wf(),
            final(self).current() == old(self).current(),
            final(self).states().len() == old(self).states().len(),
            forall|i: int|
                0 <= i < old(self).states().len() && i != index ==> #[trigger] final(self).states()[i]
                    == old(self).states()[i],
            ({
                let before = old(self).states()[index as int];
                let after = final(self).states()[index as int];
                &&& r == acquire_next(before.window(), before.limits(), state, event)
                &&& after.limits() == before.limits()
                &&& after.semaphore() == before.semaphore()
                &&& after.window() == if asks_window(state, event) {
                    window_after(before.window(), before.limits(), event.now)
                } else {
                    before.window()
                }
            }),
    {
        match state {
            AcquireState::Granted => AcquireState::Granted,
            AcquireState::Unthrottled => AcquireState::Unthrottled,
            AcquireState::Cancelled => AcquireState::Cancelled,
            AcquireState::Checking => {
                if event.cancelled {
                    AcquireState::Cancelled
                } else {
                    let ghost before = self.states();
                    let admitted = self.states[index].ask_window(event.now);
                    assert forall|i: int| 0 <= i < self.states().len() implies (
                    #[trigger] self.states()[i]).wf() by {
                        if i != index {
                            assert(self.states()[i] == before[i]);
                        }
                    }
                    assert forall|id: u128| #[trigger] self.current().contains_key(id) implies self.current()[id]
                        < self.states().len() by {
                        assert(old(self).current().contains_key(id));
                    }
                    if admitted {
                        AcquireState::Queued
                    } else {
                        AcquireState::Sleeping
                    }
                }
            },
            AcquireState::Sleeping => {
                if event.cancelled {
                    AcquireState::Cancelled
                } else {
                    AcquireState::Checking
                }
            },
            AcquireState::Queued => {
                if event.cancelled {
                    AcquireState::Cancelled
                } else {
                    AcquireState::Granted
                }
            },
        }
    }

    /// Counts the tokens that a request took, once it has ended. `at` is the
    /// time at which limiter `index` admitted it; where that is more than a
    /// minute ago, they no longer count.
    pub fn settle(&mut self, index: usize, at: u64, tokens: u64)
        requires
            old(self).wf(),
            index < old(self).states().len(),
        ensures
            final(self).wf(),
            final(self).current() == old(self).current(),
            final(self).states().len() == old(self).states().len(),
            forall|i: int|
                0 <= i < old(self).states().len() && i != index ==> #[trigger] final(self).states()[i]
                    == old(self).states()[i],
            ({
                let before = old(self).states()[index as int];
                let after = final(self).states()[index as int];
                &&& after.limits() == before.limits()
                &&& after.semaphore() == before.semaphore()
                &&& rate_window::settled(before.window(), after.window(), at, tokens)
            }),
    {
        let ghost before = self.states();
        self.states[index].settle(at, tokens);
        assert forall|i: int| 0 <= i < self.states().len() implies (
        #[trigger] self.states()[i]).wf() by {
            if i != index {
                assert(self.states()[i] == before[i]);
            }
        }
        assert forall|id: u128| #[trigger] self.current().contains_key(id) implies self.current()[id]
            < self.states().len() by {
            assert(old(self).current().contains_key(id));
        }
    }
}

/// A waiting request ends as cancelled on, and only on, an event that reports
/// cancellation.
pub proof fn only_cancellation_abandons_a_request(
    window: Seq<(u64, u64)>,
    limits: BackendRateLimits,
    state: AcquireState,
    event: AcquireEvent,
)
    requires
        !state.finished(),
    ensures
        acquire_next(window, limits, state, event) == AcquireState::Cancelled <==> event.cancelled,
{
}

/// A request holds a slot only after the window admitted it: no event takes a
/// request that has not been admitted straight to a slot.
pub proof fn a_slot_is_taken_only_after_admission(
    window: Seq<(u64, u64)>,
    limits: BackendRateLimits,
    state: AcquireState,
    event: AcquireEvent,
)
    requires
        acquire_next(window, limits, state, event) == AcquireState::Granted,
    ensures
        state == AcquireState::Queued || state == AcquireState::Granted,
{
}

/// Once the requests admitted in the last minute have taken more tokens than
/// the limit, the next one is held back: it sleeps, without a slot and without
/// a place in the window. Below the limit the tokens hold nothing back.
pub proof fn tokens_over_the_limit_hold_a_request_back(
    window: Seq<(u64, u64)>,
    limits: BackendRateLimits,
    limit: u64,
    now: u64,
)
    requires
        limits.tokens_per_minute == Some(limit),
        limit < u64::MAX,
    ensures
        ({
            let kept = rate_window::purge(window, now - rate_window::WINDOW_NANOS);
            let event = AcquireEvent { cancelled: false, now };
            if rate_window::token_sum(kept) > limit {
                &&& !window_admits(window, limits, now)
                &&& window_after(window, limits, now) == kept
                &&& acquire_next(window, limits, AcquireState::Checking, event)
                    == AcquireState::Sleeping
            } else {
                window_admits(window, limits, now) == rate_window::requests_admit(
                    kept,
                    limits.requests_per_minute,
                )
            }
        }),
{
}

/// Tokens that are counted for a request hold the next ones back as long as
/// the request is in the window: where they take the window over the limit, it
/// admits nothing more.
pub proof fn settled_tokens_count_against_the_limit(
    before: Seq<(u64, u64)>,
    after: Seq<(u64, u64)>,
    limits: BackendRateLimits,
    limit: u64,
    at: u64,
    tokens: u64,
    i: int,
    now: u64,
)
    requires
        limits.tokens_per_minute == Some(limit),
        limit < u64::MAX,
        rate_window::settled(before, after, at, tokens),
        rate_window::first_at(before, at, i),
        before[i].1 + tokens <= u64::MAX,
        at >= now - rate_window::WINDOW_NANOS,
        rate_window::token_sum(rate_window::purge(before, now - rate_window::WINDOW_NANOS))
            + tokens > limit,
    ensures
        !window_admits(after, limits, now),
{
    rate_window::settling_counts_in_the_last_minute(
        before,
        after,
        at,
        tokens,
        i,
        now - rate_window::WINDOW_NANOS,
    );
}

/// The window never holds more requests than the limit per minute, whatever
/// it is asked: the bound is kept by every question.
pub proof fn the_window_stays_within_the_request_limit(
    window: Seq<(u64, u64)>,
    limits: BackendRateLimits,
    now: u64,
)
    requires
        limits.requests_per_minute matches Some(limit) ==> window.len() <= limit,
    ensures
        limits.requests_per_minute matches Some(limit) ==> window_after(window, limits, now).len()
            <= limit,
{
    rate_window::purge_is_no_larger(window, now - rate_window::WINDOW_NANOS);
}

// ---------------------------------------------------------------------------
// A whole history of one limiter
// ---------------------------------------------------------------------------

/// What happens to a limiter's window.
pub enum WindowEvent {
    /// It is asked for one more request at time `now`.
    Asked { now: u64 },
    /// Tokens are counted for the request that was admitted at time `at`.
    Settled { at: u64, tokens: u64 },
}

/// Whether an event takes the window from `before` to `after`.
pub open spec fn window_step(
    before: Seq<(u64, u64)>,
    event: WindowEvent,
    after: Seq<(u64, u64)>,
    limits: BackendRateLimits,
) -> bool {
    match event {
        WindowEvent::Asked { now } => after == window_after(before, limits, now),
        WindowEvent::Settled { at, tokens } => rate_window::settled(before, after, at, tokens),
    }
}

/// Whether `windows` are what the events make of an empty window, one by one.
pub open spec fn window_history(
    windows: Seq<Seq<(u64, u64)>>,
    events: Seq<WindowEvent>,
    limits: BackendRateLimits,
) -> bool {
    &&& windows.len() == events.len() + 1
    &&& windows[0] == Seq::<(u64, u64)>::empty()
    &&& forall|i: int|
        0 <= i < events.len() ==> window_step(
            windows[i],
            #[trigger] events[i],
            windows[i + 1],
            limits,
        )
}

/// The time by which the first `n` events have come: that of the last question
/// among them.
pub open spec fn latest_question(events: Seq<WindowEvent>, n: int) -> u64
    decreases n,
{
    if n <= 0 {
        0
    } else {
        match events[n - 1] {
            WindowEvent::Asked { now } => now,
            WindowEvent::Settled { .. } => latest_question(events, n - 1),
        }
    }
}

/// Whether no question is asked at an earlier time than the one before.
pub open spec fn questions_in_time_order(events: Seq<WindowEvent>) -> bool {
    forall|i: int|
        0 <= i < events.len() ==> ((#[trigger] events[i]) matches WindowEvent::Asked { now }
            ==> latest_question(events, i) <= now)
}

/// The requests that the first `n` events admitted, in order, without their
/// tokens.
pub open spec fn admitted_requests(
    windows: Seq<Seq<(u64, u64)>>,
    events: Seq<WindowEvent>,
    limits: BackendRateLimits,
    n: int,
) -> Seq<(u64, u64)>
    decreases n,
{
    if n <= 0 {
        Seq::empty()
    } else {
        let earlier = admitted_requests(windows, events, limits, n - 1);
        match events[n - 1] {
            WindowEvent::Asked { now } => if window_admits(windows[n - 1], limits, now) {
                earlier.push((now, 0))
            } else {
                earlier
            },
            WindowEvent::Settled { .. } => earlier,
        }
    }
}

/// The entries without their tokens.
pub open spec fn times_of(entries: Seq<(u64, u64)>) -> Seq<(u64, u64)> {
    Seq::new(entries.len(), |i: int| (entries[i].0, 0u64))
}

proof fn purge_looks_at_times_only(entries: Seq<(u64, u64)>, cutoff: int)
    ensures
        rate_window::purge(times_of(entries), cutoff) == times_of(
            rate_window::purge(entries, cutoff),
        ),
    decreases entries.len(),
{
    if entries.len() > 0 && entries[0].0 < cutoff {
        assert(times_of(entries).drop_first() =~= times_of(entries.drop_first()));
        purge_looks_at_times_only(entries.drop_first(), cutoff);
    }
}

proof fn settling_keeps_the_times(
    before: Seq<(u64, u64)>,
    after: Seq<(u64, u64)>,
    at: u64,
    tokens: u64,
)
    requires
        rate_window::settled(before, after, at, tokens),
    ensures
        times_of(after) == times_of(before),
{
    if exists|i: int| rate_window::first_at(before, at, i) {
        let i = choose|i: int| rate_window::first_at(before, at, i);
        assert(rate_window::first_at(before, at, i));
        assert(times_of(after) =~= times_of(before));
    }
}

/// After any number of events the window holds the admitted requests of the
/// last minute.
proof fn the_window_holds_the_admitted_requests(
    windows: Seq<Seq<(u64, u64)>>,
    events: Seq<WindowEvent>,
    limits: BackendRateLimits,
    n: int,
)
    requires
        window_history(windows, events, limits),
        questions_in_time_order(events),
        0 <= n <= events.len(),
    ensures
        ({
            let admitted = admitted_requests(windows, events, limits, n);
            let latest = latest_question(events, n);
            &&& times_of(windows[n]) == rate_window::purge(
                admitted,
                latest - rate_window::WINDOW_NANOS,
            )
            &&& rate_window::in_time_order(admitted)
            &&& forall|i: int| 0 <= i < admitted.len() ==> (#[trigger] admitted[i]).0 <= latest
        }),
    decreases n,
{
    if n == 0 {
        assert(times_of(windows[0]) =~= Seq::empty());
    } else {
        the_window_holds_the_admitted_requests(windows, events, limits, n - 1);
        let before = windows[n - 1];
        let earlier = admitted_requests(windows, events, limits, n - 1);
        assert(window_step(before, events[n - 1], windows[n], limits));
        match events[n - 1] {
            WindowEvent::Asked { now } => {
                let cutoff = now - rate_window::WINDOW_NANOS;
                let kept = rate_window::purge(before, cutoff);
                purge_looks_at_times_only(before, cutoff);
                rate_window::purge_twice(
                    earlier,
                    latest_question(events, n - 1) - rate_window::WINDOW_NANOS,
                    cutoff,
                );
                assert(times_of(kept) == rate_window::purge(earlier, cutoff));
                rate_window::purge_keeps_a_recent_last(earlier, (now, 0), cutoff);
                assert(times_of(kept.push((now, 0))) =~= times_of(kept).push((now, 0)));
            },
            WindowEvent::Settled { at, tokens } => {
                settling_keeps_the_times(before, windows[n], at, tokens);
            },
        }
    }
}

/// Over the whole history of a limiter, whatever is counted for its requests
/// in between, at most `requests_per_minute` requests are admitted in the
/// minute before any instant.
pub proof fn every_minute_stays_within_the_request_limit(
    windows: Seq<Seq<(u64, u64)>>,
    events: Seq<WindowEvent>,
    limits: BackendRateLimits,
    n: int,
    x: int,
)
    requires
        window_history(windows, events, limits),
        questions_in_time_order(events),
        0 <= n <= events.len(),
    ensures
        limits.requests_per_minute matches Some(limit) ==> rate_window::in_the_minute_before(
            admitted_requests(windows, events, limits, n),
            x,
        ).len() <= limit,
    decreases n,
{
    reveal(Seq::filter);
    if n > 0 {
        every_minute_stays_within_the_request_limit(windows, events, limits, n - 1, x);
        let before = windows[n - 1];
        let earlier = admitted_requests(windows, events, limits, n - 1);
        let all = admitted_requests(windows, events, limits, n);
        assert(window_step(before, events[n - 1], windows[n], limits));
        if let WindowEvent::Asked { now } = events[n - 1] {
            if window_admits(before, limits, now) {
                assert(all.drop_last() =~= earlier);
                if now <= x {
                    the_window_holds_the_admitted_requests(windows, events, limits, n);
                    let cutoff = x - rate_window::WINDOW_NANOS;
                    rate_window::filters_agree(
                        all,
                        |e: (u64, u64)| x - rate_window::WINDOW_NANOS <= e.0 <= x,
                        |e: (u64, u64)| e.0 >= cutoff,
                    );
                    rate_window::purge_keeps_exactly_the_recent(all, cutoff);
                    rate_window::purge_twice(all, now - rate_window::WINDOW_NANOS, cutoff);
                    rate_window::purge_is_no_larger(
                        rate_window::purge(all, now - rate_window::WINDOW_NANOS),
                        cutoff,
                    );
                    assert(times_of(windows[n]).len() == windows[n].len());
                }
            }
        }
    }
}

} // verus!
