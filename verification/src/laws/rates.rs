//! Laws of rate limits.

use vstd::prelude::*;

use crate::ids::BackendId;
use crate::scheduler::backend_limiter::{
    AcquireEvent, AcquireState, BackendLimiters, BackendRateLimits,
};
use crate::scheduler::rate_window::{self, RateWindow};

verus! {

/// One minute, in nanoseconds.
pub open spec fn minute() -> int {
    60 * 1_000_000_000int
}

/// Whether requests come in the order of their times, none later than `now`.
pub open spec fn come_in_order(requests: Seq<(u64, u64)>, now: int) -> bool {
    &&& forall|i: int, j: int|
        0 <= i <= j < requests.len() ==> (#[trigger] requests[i]).0 <= (#[trigger] requests[j]).0
    &&& forall|i: int| 0 <= i < requests.len() ==> (#[trigger] requests[i]).0 <= now
}

/// How many of the requests came at or after a time.
pub open spec fn count_since(requests: Seq<(u64, u64)>, from: int) -> int
    decreases requests.len(),
{
    if requests.len() == 0 {
        0
    } else {
        count_since(requests.drop_last(), from) + if requests.last().0 >= from { 1int } else { 0 }
    }
}

/// How many tokens the requests took that came at or after a time.
pub open spec fn tokens_since(requests: Seq<(u64, u64)>, from: int) -> int
    decreases requests.len(),
{
    if requests.len() == 0 {
        0
    } else {
        tokens_since(requests.drop_last(), from) + if requests.last().0 >= from {
            requests.last().1 as int
        } else {
            0
        }
    }
}

/// Whether a window remembers the requests from a time on: it holds the last
/// ones, in order, and those that it left out are older.
pub open spec fn remembers(
    window: Seq<(u64, u64)>,
    requests: Seq<(u64, u64)>,
    from: int,
) -> bool {
    exists|k: int| #[trigger] remembers_from(window, requests, from, k)
}

/// Whether a window holds the requests from number `k` on, those before being
/// older than a time.
pub open spec fn remembers_from(
    window: Seq<(u64, u64)>,
    requests: Seq<(u64, u64)>,
    from: int,
    k: int,
) -> bool {
    &&& 0 <= k <= requests.len()
    &&& window == requests.skip(k)
    &&& forall|j: int| 0 <= j < k ==> (#[trigger] requests[j]).0 < from
}

/// Purging what remembers the requests from a time on leaves exactly those of
/// a later time on.
proof fn purging_leaves_the_recent(
    window: Seq<(u64, u64)>,
    requests: Seq<(u64, u64)>,
    now: int,
    from: int,
    cutoff: int,
    k: int,
) -> (m: int)
    requires
        come_in_order(requests, now),
        remembers_from(window, requests, from, k),
        from <= cutoff,
    ensures
        remembers_from(rate_window::purge(window, cutoff), requests, cutoff, m),
        forall|j: int| m <= j < requests.len() ==> (#[trigger] requests[j]).0 >= cutoff,
    decreases requests.len() - k,
{
    if window.len() > 0 && window[0].0 < cutoff {
        assert(window[0] == requests[k]);
        assert(window.drop_first() =~= requests.skip(k + 1));
        assert forall|j: int| 0 <= j < k + 1 implies (#[trigger] requests[j]).0 < cutoff by {
            if j < k {
                assert(requests[j].0 < from);
            }
        }
        assert(remembers_from(window.drop_first(), requests, cutoff, k + 1));
        purging_leaves_the_recent(window.drop_first(), requests, now, cutoff, cutoff, k + 1)
    } else {
        assert forall|j: int| k <= j < requests.len() implies (#[trigger] requests[j]).0
            >= cutoff by {
            assert(window[0] == requests[k]);
            assert(requests[k].0 <= requests[j].0);
        }
        assert forall|j: int| 0 <= j < k implies (#[trigger] requests[j]).0 < cutoff by {}
        k
    }
}

proof fn a_split_counts_the_rest(requests: Seq<(u64, u64)>, from: int, m: int)
    requires
        0 <= m <= requests.len(),
        forall|j: int| 0 <= j < m ==> (#[trigger] requests[j]).0 < from,
        forall|j: int| m <= j < requests.len() ==> (#[trigger] requests[j]).0 >= from,
    ensures
        count_since(requests, from) == requests.len() - m,
        tokens_since(requests, from) == rate_window::token_sum(requests.skip(m)),
    decreases requests.len(),
{
    if requests.len() > 0 {
        let rest = requests.drop_last();
        if m < requests.len() {
            a_split_counts_the_rest(rest, from, m);
            assert(requests.skip(m).drop_last() =~= rest.skip(m));
            assert(requests.skip(m).last() == requests.last());
            assert(requests[requests.len() - 1].0 >= from);
        } else {
            a_split_counts_the_rest(rest, from, m - 1);
            assert(requests[requests.len() - 1].0 < from);
            assert(rest.skip(m - 1) =~= Seq::empty());
            assert(requests.skip(m) =~= Seq::empty());
        }
    } else {
        assert(requests.skip(m) =~= Seq::empty());
    }
}

/// A request is admitted exactly when the limits leave room for it in the
/// minute before it: fewer requests than the limit were admitted in it, and
/// with its own tokens they took no more than the limit, unless that is the
/// largest of all. A window that remembers the requests of the last minute
/// goes on to remember them, with this one where it was admitted.
pub proof fn a_request_is_admitted_while_there_is_room(
    window: &mut RateWindow,
    now: u64,
    tokens: u64,
    max_requests: Option<u32>,
    max_tokens: Option<u64>,
    r: bool,
    requests: Seq<(u64, u64)>,
    last: int,
)
    requires
        call_ensures(
            RateWindow::check_and_record,
            (window, now, tokens, max_requests, max_tokens),
            r,
        ),
        last <= now,
        come_in_order(requests, now as int),
        remembers(old(window)@, requests, last - minute()),
    ensures
        r <==> {
            &&& max_requests is Some ==> count_since(requests, now - minute()) < max_requests->0
            &&& max_tokens is Some && max_tokens->0 < u64::MAX ==> tokens_since(
                requests,
                now - minute(),
            ) + tokens <= max_tokens->0
        },
        remembers(
            final(window)@,
            if r {
                requests.push((now, tokens))
            } else {
                requests
            },
            now - minute(),
        ),
{
    let from = last - minute();
    let cutoff = now - minute();
    let k = choose|k: int| #[trigger] remembers_from(old(window)@, requests, from, k);
    let m = purging_leaves_the_recent(old(window)@, requests, now as int, from, cutoff, k);
    a_split_counts_the_rest(requests, cutoff, m);
    assert(requests.skip(m).len() == requests.len() - m);
    if r {
        let all = requests.push((now, tokens));
        assert(requests.skip(m).push((now, tokens)) =~= all.skip(m));
        assert forall|j: int| 0 <= j < m implies (#[trigger] all[j]).0 < cutoff by {
            assert(all[j] == requests[j]);
        }
        assert(remembers_from(final(window)@, all, cutoff, m));
    } else {
        assert(remembers_from(final(window)@, requests, cutoff, m));
    }
}

/// An empty window remembers that there were no requests.
pub proof fn a_fresh_window_remembers_nothing(window: RateWindow, from: int)
    requires
        call_ensures(RateWindow::new, (), window),
    ensures
        window@.len() == 0,
        remembers(window@, Seq::empty(), from),
{
    assert(window@ =~= Seq::<(u64, u64)>::empty().skip(0));
    assert(remembers_from(window@, Seq::empty(), from, 0));
}

/// Those of the first `n` requests that were answered with yes, in order.
pub open spec fn accepted(requests: Seq<(u64, u64)>, answers: Seq<bool>, n: int) -> Seq<(u64, u64)>
    decreases n,
{
    if n <= 0 {
        Seq::empty()
    } else if answers[n - 1] {
        accepted(requests, answers, n - 1).push(requests[n - 1])
    } else {
        accepted(requests, answers, n - 1)
    }
}

/// The time of the request before number `n`.
pub open spec fn time_before(requests: Seq<(u64, u64)>, n: int) -> int {
    if n <= 0 {
        0
    } else {
        requests[n - 1].0 as int
    }
}

proof fn accepted_requests_come_in_order(
    requests: Seq<(u64, u64)>,
    answers: Seq<bool>,
    n: int,
)
    requires
        forall|i: int, j: int|
            0 <= i <= j < requests.len() ==> (#[trigger] requests[i]).0 <= (
            #[trigger] requests[j]).0,
        0 <= n <= requests.len(),
    ensures
        come_in_order(accepted(requests, answers, n), time_before(requests, n)),
    decreases n,
{
    if n > 0 {
        accepted_requests_come_in_order(requests, answers, n - 1);
        if n > 1 {
            assert(requests[n - 2].0 <= requests[n - 1].0);
        }
    }
}

proof fn a_run_remembers_what_it_accepted(
    calls: Seq<&mut RateWindow>,
    requests: Seq<(u64, u64)>,
    answers: Seq<bool>,
    max_requests: Option<u32>,
    max_tokens: Option<u64>,
    n: int,
)
    requires
        calls.len() == requests.len(),
        answers.len() == requests.len(),
        forall|i: int, j: int|
            0 <= i <= j < requests.len() ==> (#[trigger] requests[i]).0 <= (
            #[trigger] requests[j]).0,
        forall|i: int|
            #![trigger answers[i]]
            0 <= i < requests.len() ==> call_ensures(
                RateWindow::check_and_record,
                (calls[i], requests[i].0, requests[i].1, max_requests, max_tokens),
                answers[i],
            ) && (i > 0 ==> *calls[i] == *final(calls[i - 1])),
        calls.len() > 0 ==> call_ensures(RateWindow::new, (), *calls[0]),
        0 <= n < requests.len(),
    ensures
        remembers(
            calls[n]@,
            accepted(requests, answers, n),
            time_before(requests, n) - minute(),
        ),
    decreases n,
{
    if n == 0 {
        a_fresh_window_remembers_nothing(*calls[0], 0 - minute());
    } else {
        a_run_remembers_what_it_accepted(
            calls,
            requests,
            answers,
            max_requests,
            max_tokens,
            n - 1,
        );
        accepted_requests_come_in_order(requests, answers, n - 1);
        let before = accepted(requests, answers, n - 1);
        if n > 1 {
            assert(requests[n - 2].0 <= requests[n - 1].0);
        }
        assert(come_in_order(before, requests[n - 1].0 as int));
        assert(call_ensures(
            RateWindow::check_and_record,
            (calls[n], requests[n].0, requests[n].1, max_requests, max_tokens),
            answers[n],
        ));
        a_request_is_admitted_while_there_is_room(
            calls[n - 1],
            requests[n - 1].0,
            requests[n - 1].1,
            max_requests,
            max_tokens,
            answers[n - 1],
            before,
            time_before(requests, n - 1),
        );
        let request = requests[n - 1];
        assert((request.0, request.1) == request);
        assert(*calls[n] == *final(calls[n - 1]));
        assert(calls[n]@ == final(calls[n - 1])@);
    }
}

/// Over any history of requests in time order under limits that stay the same,
/// a request is admitted exactly when fewer requests than the limit were
/// admitted in the minute before it, and with its own tokens they took no more
/// than the limit on tokens, unless that is the largest of all.
pub proof fn a_history_admits_whatever_there_is_room_for(
    calls: Seq<&mut RateWindow>,
    requests: Seq<(u64, u64)>,
    answers: Seq<bool>,
    max_requests: Option<u32>,
    max_tokens: Option<u64>,
    n: int,
)
    requires
        calls.len() == requests.len(),
        answers.len() == requests.len(),
        forall|i: int, j: int|
            0 <= i <= j < requests.len() ==> (#[trigger] requests[i]).0 <= (
            #[trigger] requests[j]).0,
        forall|i: int|
            #![trigger answers[i]]
            0 <= i < requests.len() ==> call_ensures(
                RateWindow::check_and_record,
                (calls[i], requests[i].0, requests[i].1, max_requests, max_tokens),
                answers[i],
            ) && (i > 0 ==> *calls[i] == *final(calls[i - 1])),
        calls.len() > 0 ==> call_ensures(RateWindow::new, (), *calls[0]),
        0 <= n < requests.len(),
    ensures
        answers[n] <==> {
            let earlier = accepted(requests, answers, n);
            let from = requests[n].0 - minute();
            &&& max_requests is Some ==> count_since(earlier, from) < max_requests->0
            &&& max_tokens is Some && max_tokens->0 < u64::MAX ==> tokens_since(earlier, from)
                + requests[n].1 <= max_tokens->0
        },
{
    a_run_remembers_what_it_accepted(calls, requests, answers, max_requests, max_tokens, n);
    accepted_requests_come_in_order(requests, answers, n);
    let before = accepted(requests, answers, n);
    if n > 0 {
        assert(requests[n - 1].0 <= requests[n].0);
    }
    assert(come_in_order(before, requests[n].0 as int));
    a_request_is_admitted_while_there_is_room(
        calls[n],
        requests[n].0,
        requests[n].1,
        max_requests,
        max_tokens,
        answers[n],
        before,
        time_before(requests, n),
    );
}

/// A sum of token counts, which stops at the largest count.
pub open spec fn stopped_sum(a: u64, b: u64) -> int {
    if a + b > u64::MAX {
        u64::MAX as int
    } else {
        a + b
    }
}

/// Tokens are counted for the first request that was recorded at that time,
/// on top of what was counted for it; every request keeps its time and its
/// place, and every other one its tokens. Where no request of that time is
/// left, nothing changes.
pub proof fn tokens_are_counted_for_their_request(
    window: &mut RateWindow,
    at: u64,
    tokens: u64,
    i: int,
)
    requires
        call_ensures(RateWindow::settle, (window, at, tokens), ()),
        0 <= i < old(window)@.len(),
    ensures
        final(window)@.len() == old(window)@.len(),
        final(window)@[i].0 == old(window)@[i].0,
        old(window)@[i].0 == at && (forall|j: int|
            0 <= j < i ==> (#[trigger] old(window)@[j]).0 != at) ==> final(window)@[i].1
            == stopped_sum(old(window)@[i].1, tokens),
        old(window)@[i].0 != at || (exists|j: int|
            0 <= j < i && (#[trigger] old(window)@[j]).0 == at) ==> final(window)@[i]
            == old(window)@[i],
{
    let before = old(window)@;
    let after = final(window)@;
    if exists|k: int| rate_window::first_at(before, at, k) {
        let k = choose|k: int| rate_window::first_at(before, at, k);
        assert(rate_window::first_at(before, at, k));
        assert(after == before.update(k, (at, rate_window::saturated(before[k].1, tokens))));
    } else {
        if before[i].0 == at {
            if forall|j: int| 0 <= j < i ==> (#[trigger] before[j]).0 != at {
                assert(rate_window::first_at(before, at, i));
            }
        }
        assert(after == before);
    }
}

/// Counting tokens for a request of the last minute is remembered: the window
/// goes on to remember the same requests, with those tokens added to that one.
pub proof fn counted_tokens_are_remembered(
    window: &mut RateWindow,
    at: u64,
    tokens: u64,
    requests: Seq<(u64, u64)>,
    i: int,
    now: int,
    from: int,
)
    requires
        call_ensures(RateWindow::settle, (window, at, tokens), ()),
        come_in_order(requests, now),
        remembers(old(window)@, requests, from),
        0 <= i < requests.len(),
        requests[i].0 == at,
        forall|j: int| 0 <= j < i ==> (#[trigger] requests[j]).0 != at,
        at >= from,
    ensures
        remembers(
            final(window)@,
            requests.update(i, (at, stopped_sum(requests[i].1, tokens) as u64)),
            from,
        ),
{
    let before = old(window)@;
    let k = choose|k: int| #[trigger] remembers_from(before, requests, from, k);
    let after = requests.update(i, (at, stopped_sum(requests[i].1, tokens) as u64));
    if i < k {
        assert(requests[i].0 < from);
    }
    assert(before[i - k] == requests[i]);
    assert forall|j: int| 0 <= j < i - k implies (#[trigger] before[j]).0 != at by {
        assert(before[j] == requests[j + k]);
    }
    assert(rate_window::first_at(before, at, i - k));
    assert(final(window)@ =~= after.skip(k));
    assert forall|j: int| 0 <= j < k implies (#[trigger] after[j]).0 < from by {
        assert(after[j] == requests[j]);
    }
    assert(remembers_from(final(window)@, after, from, k));
}

// ---------------------------------------------------------------------------
// Backends
// ---------------------------------------------------------------------------

/// A request that asks is let through, to wait for a slot, exactly when its
/// backend admitted fewer requests in the last minute than the limit and they
/// took no more tokens than the limit, unless that is the largest of all;
/// otherwise it sleeps. It is recorded exactly when it is let through.
pub proof fn a_backend_lets_requests_through_while_there_is_room(
    limiters: &mut BackendLimiters,
    index: usize,
    event: AcquireEvent,
    r: AcquireState,
    requests: Seq<(u64, u64)>,
    last: int,
)
    requires
        old(limiters).wf(),
        index < old(limiters).states().len(),
        !event.cancelled,
        call_ensures(
            BackendLimiters::acquire_step,
            (limiters, index, AcquireState::Checking, event),
            r,
        ),
        last <= event.now,
        come_in_order(requests, event.now as int),
        remembers(old(limiters).states()[index as int].window(), requests, last - minute()),
    ensures
        r == AcquireState::Queued || r == AcquireState::Sleeping,
        r == AcquireState::Queued <==> {
            let limits = old(limiters).states()[index as int].limits();
            &&& limits.requests_per_minute is Some ==> count_since(requests, event.now - minute())
                < limits.requests_per_minute->0
            &&& limits.tokens_per_minute is Some && limits.tokens_per_minute->0 < u64::MAX
                ==> tokens_since(requests, event.now - minute()) <= limits.tokens_per_minute->0
        },
        remembers(
            final(limiters).states()[index as int].window(),
            if r == AcquireState::Queued {
                requests.push((event.now, 0))
            } else {
                requests
            },
            event.now - minute(),
        ),
{
    let now = event.now;
    let before = old(limiters).states()[index as int].window();
    let after = final(limiters).states()[index as int].window();
    let from = last - minute();
    let cutoff = now - minute();
    let k = choose|k: int| #[trigger] remembers_from(before, requests, from, k);
    let m = purging_leaves_the_recent(before, requests, now as int, from, cutoff, k);
    a_split_counts_the_rest(requests, cutoff, m);
    assert(requests.skip(m).len() == requests.len() - m);
    if r == AcquireState::Queued {
        let all = requests.push((now, 0));
        assert(requests.skip(m).push((now, 0)) =~= all.skip(m));
        assert forall|j: int| 0 <= j < m implies (#[trigger] all[j]).0 < cutoff by {
            assert(all[j] == requests[j]);
        }
        assert(remembers_from(after, all, cutoff, m));
    } else {
        assert(remembers_from(after, requests, cutoff, m));
    }
}

/// A request waits in order: it asks again after its sleep, takes its slot
/// once it was let through, and gives up exactly when it is cancelled while it
/// waits. One that is done stays as it is. Only asking touches the window of
/// its limiter, and no other limiter is touched at all; limits never change
/// under a request.
pub proof fn a_waiting_request_moves_one_step_at_a_time(
    limiters: &mut BackendLimiters,
    index: usize,
    state: AcquireState,
    event: AcquireEvent,
    r: AcquireState,
    other: int,
)
    requires
        old(limiters).wf(),
        index < old(limiters).states().len(),
        call_ensures(BackendLimiters::acquire_step, (limiters, index, state, event), r),
        0 <= other < old(limiters).states().len(),
    ensures
        ({
            let done = state == AcquireState::Granted || state == AcquireState::Unthrottled || state
                == AcquireState::Cancelled;
            &&& done ==> r == state
            &&& !done && event.cancelled ==> r == AcquireState::Cancelled
            &&& !done && !event.cancelled && state == AcquireState::Sleeping ==> r
                == AcquireState::Checking
            &&& !done && !event.cancelled && state == AcquireState::Queued ==> r
                == AcquireState::Granted
            &&& r == AcquireState::Granted ==> state == AcquireState::Queued || state
                == AcquireState::Granted
            &&& r == AcquireState::Cancelled ==> state == AcquireState::Cancelled || event.cancelled
            &&& r == AcquireState::Unthrottled ==> state == AcquireState::Unthrottled
        }),
        final(limiters).states().len() == old(limiters).states().len(),
        final(limiters).states()[other].limits() == old(limiters).states()[other].limits(),
        final(limiters).states()[other].semaphore() == old(limiters).states()[other].semaphore(),
        other != index || state != AcquireState::Checking || event.cancelled
            ==> final(limiters).states()[other].window() == old(limiters).states()[other].window(),
        final(limiters).current() == old(limiters).current(),
{
}

/// Counting tokens touches the window of the one limiter it names, as a window
/// counts them.
pub proof fn tokens_are_counted_at_their_limiter(
    limiters: &mut BackendLimiters,
    index: usize,
    at: u64,
    tokens: u64,
    i: int,
    other: int,
)
    requires
        old(limiters).wf(),
        index < old(limiters).states().len(),
        call_ensures(BackendLimiters::settle, (limiters, index, at, tokens), ()),
        0 <= other < old(limiters).states().len(),
        0 <= i < old(limiters).states()[index as int].window().len(),
    ensures
        final(limiters).states().len() == old(limiters).states().len(),
        other != index ==> final(limiters).states()[other] == old(limiters).states()[other],
        final(limiters).states()[other].limits() == old(limiters).states()[other].limits(),
        final(limiters).current() == old(limiters).current(),
        ({
            let before = old(limiters).states()[index as int].window();
            let after = final(limiters).states()[index as int].window();
            &&& after.len() == before.len()
            &&& after[i].0 == before[i].0
            &&& before[i].0 == at && (forall|j: int| 0 <= j < i ==> (#[trigger] before[j]).0 != at)
                ==> after[i].1 == stopped_sum(before[i].1, tokens)
            &&& before[i].0 != at ==> after[i] == before[i]
        }),
{
    let before = old(limiters).states()[index as int].window();
    let after = final(limiters).states()[index as int].window();
    if exists|k: int| rate_window::first_at(before, at, k) {
        let k = choose|k: int| rate_window::first_at(before, at, k);
        assert(rate_window::first_at(before, at, k));
        assert(after == before.update(k, (at, rate_window::saturated(before[k].1, tokens))));
    } else {
        if before[i].0 == at {
            if forall|j: int| 0 <= j < i ==> (#[trigger] before[j]).0 != at {
                assert(rate_window::first_at(before, at, i));
            }
        }
        assert(after == before);
    }
}

/// A backend that was configured is limited by just those limits, from an
/// empty window, with as many slots as they say; requests of other backends
/// start where they did before, and requests under way keep their limiters.
pub proof fn a_backend_is_limited_as_configured(
    limiters: &mut BackendLimiters,
    backend: BackendId,
    limits: BackendRateLimits,
    other: BackendId,
    before: Option<usize>,
    after: Option<usize>,
    start: AcquireState,
    slots: &std::sync::Arc<tokio::sync::Semaphore>,
    i: int,
)
    requires
        old(limiters).wf(),
        old(limiters).states().len() < usize::MAX,
        limits.max_concurrent_requests <= crate::outside::max_permits(),
        call_ensures(BackendLimiters::configure, (limiters, backend, limits), ()),
        call_ensures(BackendLimiters::begin, (old(limiters), other), before),
        call_ensures(BackendLimiters::begin, (final(limiters), other), after),
        call_ensures(BackendLimiters::initial, (after,), start),
        after is Some ==> call_ensures(BackendLimiters::slots, (final(limiters), after->0), slots),
    ensures
        other != backend ==> after == before,
        other == backend ==> {
            &&& after is Some
            &&& after->0 < final(limiters).states().len()
            &&& final(limiters).states()[after->0 as int].limits() == limits
            &&& final(limiters).states()[after->0 as int].window().len() == 0
            &&& crate::outside::initial_permits(**slots) == limits.max_concurrent_requests
        },
        start == AcquireState::Checking <==> after is Some,
        start == AcquireState::Unthrottled <==> after is None,
        0 <= i < old(limiters).states().len() ==> final(limiters).states()[i]
            == old(limiters).states()[i],
{
    assert(other != backend ==> other.0 != backend.0);
    let n = old(limiters).states().len() as int;
    if 0 <= i < n {
        assert(final(limiters).states().drop_last()[i] == final(limiters).states()[i]);
    }
    assert(final(limiters).states()[n] == final(limiters).states().last());
    assert(final(limiters).states()[n].wf());
}

/// Without limits no backend holds a request back.
pub proof fn without_limits_nothing_waits(
    limiters: BackendLimiters,
    backend: BackendId,
    found: Option<usize>,
    start: AcquireState,
)
    requires
        call_ensures(BackendLimiters::new, (), limiters),
        call_ensures(BackendLimiters::begin, (&limiters, backend), found),
        call_ensures(BackendLimiters::initial, (found,), start),
    ensures
        found is None,
        start == AcquireState::Unthrottled,
{
}

} // verus!
