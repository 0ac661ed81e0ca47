//! Sliding-window rate bookkeeping used by per-backend rate limits.

use std::collections::VecDeque;

use vstd::prelude::*;

verus! {

/// Length of the sliding window in nanoseconds: one minute.
pub const WINDOW_NANOS: u64 = 60_000_000_000;

/// The entries that are left once every leading entry older than `cutoff` is
/// dropped.
pub open spec fn purge(entries: Seq<(u64, u64)>, cutoff: int) -> Seq<(u64, u64)>
    decreases entries.len(),
{
    if entries.len() > 0 && entries[0].0 < cutoff {
        purge(entries.drop_first(), cutoff)
    } else {
        entries
    }
}

/// Total of the token counts of `entries`.
pub open spec fn token_sum(entries: Seq<(u64, u64)>) -> int
    decreases entries.len(),
{
    if entries.len() == 0 {
        0
    } else {
        token_sum(entries.drop_last()) + entries.last().1
    }
}

/// Whether the request-count limit leaves room for one more request.
pub open spec fn requests_admit(kept: Seq<(u64, u64)>, max_requests: Option<u32>) -> bool {
    max_requests matches Some(limit) ==> kept.len() < limit
}

/// Whether the token limit leaves room for `tokens` more tokens. The total
/// saturates, so the largest limit of all leaves room for any number.
pub open spec fn tokens_admit(kept: Seq<(u64, u64)>, tokens: u64, max_tokens: Option<u64>) -> bool {
    max_tokens matches Some(limit) ==> token_sum(kept) + tokens <= limit || limit == u64::MAX
}

/// Whether both limits admit a request of `tokens` on top of `kept`.
pub open spec fn admits(
    kept: Seq<(u64, u64)>,
    tokens: u64,
    max_requests: Option<u32>,
    max_tokens: Option<u64>,
) -> bool {
    requests_admit(kept, max_requests) && tokens_admit(kept, tokens, max_tokens)
}

/// The window after a request of `tokens` at time `now`: the entries of the
/// last minute, and the request itself where the limits admit it.
pub open spec fn recorded(
    window: Seq<(u64, u64)>,
    now: u64,
    tokens: u64,
    max_requests: Option<u32>,
    max_tokens: Option<u64>,
) -> Seq<(u64, u64)> {
    let kept = purge(window, now - WINDOW_NANOS);
    if admits(kept, tokens, max_requests, max_tokens) {
        kept.push((now, tokens))
    } else {
        kept
    }
}

/// Whether `entries[i]` is the first entry of time `at`.
pub open spec fn first_at(entries: Seq<(u64, u64)>, at: u64, i: int) -> bool {
    &&& 0 <= i < entries.len()
    &&& entries[i].0 == at
    &&& forall|j: int| 0 <= j < i ==> (#[trigger] entries[j]).0 != at
}

/// The sum of two token counts, or the largest count where it is larger.
pub open spec fn saturated(a: u64, b: u64) -> u64 {
    if a + b <= u64::MAX {
        (a + b) as u64
    } else {
        u64::MAX
    }
}

/// Whether `after` is `before` with `tokens` more tokens counted for the
/// request that was recorded at time `at`; nothing is counted for a request
/// that has left the window.
pub open spec fn settled(
    before: Seq<(u64, u64)>,
    after: Seq<(u64, u64)>,
    at: u64,
    tokens: u64,
) -> bool {
    &&& forall|i: int| #[trigger]
        first_at(before, at, i) ==> after == before.update(
            i,
            (at, saturated(before[i].1, tokens)),
        )
    &&& (forall|i: int| !#[trigger] first_at(before, at, i)) ==> after == before
}

/// Whether the entries were recorded at non-decreasing times.
pub open spec fn in_time_order(entries: Seq<(u64, u64)>) -> bool {
    forall|i: int, j: int|
        0 <= i <= j < entries.len() ==> (#[trigger] entries[i]).0 <= (#[trigger] entries[j]).0
}

/// Sliding-window rate tracker: a queue of `(time, tokens)` entries, with
/// times in nanoseconds of a monotonic clock.
pub struct RateWindow {
    entries: VecDeque<(u64, u64)>,
}

impl View for RateWindow {
    type V = Seq<(u64, u64)>;

    closed spec fn view(&self) -> Seq<(u64, u64)> {
        self.entries@
    }
}

impl RateWindow {
    /// An empty window.
    pub fn new() -> (r: Self)
        ensures
            r@ == Seq::<(u64, u64)>::empty(),
    {
        RateWindow { entries: VecDeque::new() }
    }

    /// Drops the leading entries older than `cutoff`.
    fn purge_before(&mut self, cutoff: u64)
        ensures
            final(self)@ == purge(old(self)@, cutoff as int),
    {
        let ghost start = self.entries@;
        while self.entries.len() > 0 && self.entries[0].0 < cutoff
            invariant
                purge(self.entries@, cutoff as int) == purge(start, cutoff as int),
            decreases self.entries@.len(),
        {
            let ghost before = self.entries@;
            let _ = self.entries.pop_front();
            assert(self.entries@ == before.drop_first());
        }
    }

    /// Total of the recorded token counts, or the largest count where it is
    /// larger.
    fn tokens(&self) -> (r: u64)
        ensures
            r == if token_sum(self@) <= u64::MAX {
                token_sum(self@)
            } else {
                u64::MAX as int
            },
    {
        let n: usize = self.entries.len();
        let mut sum: u64 = 0;
        let mut i: usize = 0;
        while i < n
            invariant
                n == self.entries@.len(),
                i <= n,
                sum == if token_sum(self.entries@.take(i as int)) <= u64::MAX {
                    token_sum(self.entries@.take(i as int))
                } else {
                    u64::MAX as int
                },
            decreases n - i,
        {
            proof {
                let next = self.entries@.take(i + 1);
                assert(next.drop_last() == self.entries@.take(i as int));
            }
            sum = sum.saturating_add(self.entries[i].1);
            i = i + 1;
        }
        assert(self.entries@.take(n as int) == self.entries@);
        sum
    }

    /// Checks whether a request with `tokens` falls within the limits and
    /// records it if so.
    ///
    /// Entries older than one minute are dropped first. Returns `true` when
    /// the request was recorded; a rejected request adds no entry.
    pub fn check_and_record(
        &mut self,
        now: u64,
        tokens: u64,
        max_requests: Option<u32>,
        max_tokens: Option<u64>,
    ) -> (r: bool)
        ensures
            r == admits(
                purge(old(self)@, now - WINDOW_NANOS),
                tokens,
                max_requests,
                max_tokens,
            ),
            final(self)@ == recorded(old(self)@, now, tokens, max_requests, max_tokens),
    {
        proof {
            if now < WINDOW_NANOS {
                assert(purge(self@, now - WINDOW_NANOS) == self@);
            }
        }
        if now >= WINDOW_NANOS {
            self.purge_before(now - WINDOW_NANOS);
        }
        if let Some(limit) = max_requests {
            if self.entries.len() >= limit as usize {
                return false;
            }
        }
        if let Some(limit) = max_tokens {
            let sum: u64 = self.tokens();
            proof {
                token_sum_is_not_negative(self@);
            }
            if sum.saturating_add(tokens) > limit {
                return false;
            }
        }
        self.entries.push_back((now, tokens));
        true
    }

    /// Counts the tokens of a request that was recorded at time `at`, once they
    /// are known.
    pub fn settle(&mut self, at: u64, tokens: u64)
        ensures
            settled(old(self)@, final(self)@, at, tokens),
    {
        let n: usize = self.entries.len();
        let mut i: usize = 0;
        while i < n
            invariant
                n == self.entries@.len(),
                self@ == old(self)@,
                i <= n,
                forall|j: int| 0 <= j < i ==> (#[trigger] self@[j]).0 != at,
            decreases n - i,
        {
            if self.entries[i].0 == at {
                let count: u64 = self.entries[i].1;
                let _ = self.entries.remove(i);
                self.entries.insert(i, (at, count.saturating_add(tokens)));
                proof {
                    assert(self@ =~= old(self)@.update(
                        i as int,
                        (at, saturated(old(self)@[i as int].1, tokens)),
                    ));
                    assert forall|k: int| #[trigger] first_at(old(self)@, at, k) implies k == i by {
                        if k < i {
                            assert(old(self)@[k].0 != at);
                        } else if i < k {
                            assert(old(self)@[i as int].0 != at);
                        }
                    }
                    assert(first_at(old(self)@, at, i as int));
                }
                return;
            }
            i = i + 1;
        }
    }
}

proof fn token_sum_is_not_negative(entries: Seq<(u64, u64)>)
    ensures
        0 <= token_sum(entries),
    decreases entries.len(),
{
    if entries.len() > 0 {
        token_sum_is_not_negative(entries.drop_last());
    }
}

/// While entries are recorded in time order, dropping the leading stale
/// entries leaves exactly the entries that are not older than the cutoff.
pub proof fn purge_keeps_exactly_the_recent(entries: Seq<(u64, u64)>, cutoff: int)
    requires
        in_time_order(entries),
    ensures
        purge(entries, cutoff) == entries.filter(|e: (u64, u64)| e.0 >= cutoff),
        in_time_order(purge(entries, cutoff)),
    decreases entries.len(),
{
    let recent = |e: (u64, u64)| e.0 >= cutoff;
    if entries.len() > 0 && entries[0].0 < cutoff {
        let rest = entries.drop_first();
        assert(in_time_order(rest));
        purge_keeps_exactly_the_recent(rest, cutoff);
        assert(entries == seq![entries[0]] + rest);
        Seq::filter_distributes_over_add(seq![entries[0]], rest, recent);
        reveal_with_fuel(Seq::filter, 2);
        assert(seq![entries[0]].filter(recent) =~= Seq::empty());
        assert(Seq::<(u64, u64)>::empty() + rest.filter(recent) =~= rest.filter(recent));
    } else {
        filter_all(entries, recent);
    }
}

/// Filtering by a predicate that every item meets changes nothing.
proof fn filter_all(s: Seq<(u64, u64)>, p: spec_fn((u64, u64)) -> bool)
    requires
        forall|i: int| 0 <= i < s.len() ==> p(#[trigger] s[i]),
    ensures
        s.filter(p) == s,
    decreases s.len(),
{
    reveal(Seq::filter);
    if s.len() > 0 {
        assert forall|i: int| 0 <= i < s.drop_last().len() implies p(
            #[trigger] s.drop_last()[i],
        ) by {
            assert(s.drop_last()[i] == s[i]);
        }
        filter_all(s.drop_last(), p);
        assert(s == s.drop_last().push(s.last()));
        assert(p(s[s.len() - 1]));
    }
}

/// No recorded request ever takes the window over its limits: right after a
/// recorded request the window holds at most `max_requests` entries and, below
/// the largest limit of all, at most `max_tokens` tokens.
pub proof fn recorded_requests_stay_within_limits(
    entries: Seq<(u64, u64)>,
    now: u64,
    tokens: u64,
    max_requests: Option<u32>,
    max_tokens: Option<u64>,
)
    requires
        admits(purge(entries, now - WINDOW_NANOS), tokens, max_requests, max_tokens),
    ensures
        ({
            let after = purge(entries, now - WINDOW_NANOS).push((now, tokens));
            &&& max_requests matches Some(limit) ==> after.len() <= limit
            &&& max_tokens matches Some(limit) ==> limit < u64::MAX ==> token_sum(after) <= limit
        }),
{
    let kept = purge(entries, now - WINDOW_NANOS);
    assert(kept.push((now, tokens)).drop_last() == kept);
}

/// Counting tokens for a request that is no older than `cutoff` adds them to
/// the total of what is left there, and takes no request out of its place.
pub proof fn settling_counts_in_the_last_minute(
    before: Seq<(u64, u64)>,
    after: Seq<(u64, u64)>,
    at: u64,
    tokens: u64,
    i: int,
    cutoff: int,
)
    requires
        settled(before, after, at, tokens),
        first_at(before, at, i),
        before[i].1 + tokens <= u64::MAX,
        at >= cutoff,
    ensures
        token_sum(purge(after, cutoff)) == token_sum(purge(before, cutoff)) + tokens,
        after.len() == before.len(),
        forall|k: int| 0 <= k < before.len() ==> (#[trigger] after[k]).0 == before[k].0,
{
    purge_of_update(before, i, (at, saturated(before[i].1, tokens)), cutoff);
}

proof fn purge_of_update(entries: Seq<(u64, u64)>, i: int, entry: (u64, u64), cutoff: int)
    requires
        0 <= i < entries.len(),
        entry.0 == entries[i].0,
        entry.0 >= cutoff,
    ensures
        token_sum(purge(entries.update(i, entry), cutoff)) == token_sum(purge(entries, cutoff))
            - entries[i].1 + entry.1,
    decreases entries.len(),
{
    let changed = entries.update(i, entry);
    if entries[0].0 < cutoff {
        assert(changed.drop_first() =~= entries.drop_first().update(i - 1, entry));
        purge_of_update(entries.drop_first(), i - 1, entry, cutoff);
    } else {
        token_sum_of_update(entries, i, entry);
    }
}

proof fn token_sum_of_update(entries: Seq<(u64, u64)>, i: int, entry: (u64, u64))
    requires
        0 <= i < entries.len(),
    ensures
        token_sum(entries.update(i, entry)) == token_sum(entries) - entries[i].1 + entry.1,
    decreases entries.len(),
{
    let changed = entries.update(i, entry);
    if i == entries.len() - 1 {
        assert(changed.drop_last() =~= entries.drop_last());
    } else {
        assert(changed.drop_last() =~= entries.drop_last().update(i, entry));
        token_sum_of_update(entries.drop_last(), i, entry);
    }
}

/// Recording at a time no earlier than the last entry keeps the time order.
pub proof fn recording_keeps_time_order(entries: Seq<(u64, u64)>, now: u64, tokens: u64)
    requires
        in_time_order(entries),
        entries.len() > 0 ==> entries.last().0 <= now,
    ensures
        in_time_order(purge(entries, now - WINDOW_NANOS)),
        in_time_order(purge(entries, now - WINDOW_NANOS).push((now, tokens))),
{
    purge_keeps_exactly_the_recent(entries, now - WINDOW_NANOS);
    purge_keeps_the_tail(entries, now - WINDOW_NANOS);
}

/// What the purge leaves is a suffix.
proof fn purge_keeps_the_tail(entries: Seq<(u64, u64)>, cutoff: int)
    ensures
        purge(entries, cutoff).len() > 0 ==> entries.len() > 0 && purge(entries, cutoff).last()
            == entries.last(),
    decreases entries.len(),
{
    if entries.len() > 0 && entries[0].0 < cutoff {
        purge_keeps_the_tail(entries.drop_first(), cutoff);
    }
}

// ---------------------------------------------------------------------------
// A whole history of requests
// ---------------------------------------------------------------------------

/// The window after requests at the given times, with the given tokens, under
/// limits that stay the same.
pub open spec fn window_after_all(
    requests: Seq<(u64, u64)>,
    max_requests: Option<u32>,
    max_tokens: Option<u64>,
) -> Seq<(u64, u64)>
    decreases requests.len(),
{
    if requests.len() == 0 {
        Seq::empty()
    } else {
        recorded(
            window_after_all(requests.drop_last(), max_requests, max_tokens),
            requests.last().0,
            requests.last().1,
            max_requests,
            max_tokens,
        )
    }
}

/// Those of the requests that were admitted, in order.
pub open spec fn admitted(
    requests: Seq<(u64, u64)>,
    max_requests: Option<u32>,
    max_tokens: Option<u64>,
) -> Seq<(u64, u64)>
    decreases requests.len(),
{
    if requests.len() == 0 {
        Seq::empty()
    } else {
        let earlier = admitted(requests.drop_last(), max_requests, max_tokens);
        let window = window_after_all(requests.drop_last(), max_requests, max_tokens);
        if admits(
            purge(window, requests.last().0 - WINDOW_NANOS),
            requests.last().1,
            max_requests,
            max_tokens,
        ) {
            earlier.push(requests.last())
        } else {
            earlier
        }
    }
}

/// The requests of the minute that ends at `x`.
pub open spec fn in_the_minute_before(requests: Seq<(u64, u64)>, x: int) -> Seq<(u64, u64)> {
    requests.filter(|e: (u64, u64)| x - WINDOW_NANOS <= e.0 <= x)
}

/// Purging twice is purging at the later time.
pub(crate) proof fn purge_twice(entries: Seq<(u64, u64)>, first: int, second: int)
    requires
        first <= second,
    ensures
        purge(purge(entries, first), second) == purge(entries, second),
    decreases entries.len(),
{
    if entries.len() > 0 && entries[0].0 < first {
        purge_twice(entries.drop_first(), first, second);
    }
}

/// An entry that is recent enough is not purged.
pub(crate) proof fn purge_keeps_a_recent_last(entries: Seq<(u64, u64)>, entry: (u64, u64), cutoff: int)
    requires
        entry.0 >= cutoff,
    ensures
        purge(entries.push(entry), cutoff) == purge(entries, cutoff).push(entry),
    decreases entries.len(),
{
    let longer = entries.push(entry);
    if entries.len() > 0 {
        assert(longer.drop_first() =~= entries.drop_first().push(entry));
        if entries[0].0 < cutoff {
            purge_keeps_a_recent_last(entries.drop_first(), entry, cutoff);
        }
    }
}

proof fn token_sum_of_rest(entries: Seq<(u64, u64)>)
    requires
        entries.len() > 0,
    ensures
        token_sum(entries) == entries[0].1 + token_sum(entries.drop_first()),
    decreases entries.len(),
{
    if entries.len() == 1 {
        assert(entries.drop_last() =~= Seq::empty());
        assert(entries.drop_first() =~= Seq::empty());
    } else {
        token_sum_of_rest(entries.drop_last());
        assert(entries.drop_first().drop_last() =~= entries.drop_last().drop_first());
    }
}

/// Purging takes requests and tokens away, and adds none.
pub proof fn purge_is_no_larger(entries: Seq<(u64, u64)>, cutoff: int)
    ensures
        purge(entries, cutoff).len() <= entries.len(),
        token_sum(purge(entries, cutoff)) <= token_sum(entries),
    decreases entries.len(),
{
    if entries.len() > 0 && entries[0].0 < cutoff {
        purge_is_no_larger(entries.drop_first(), cutoff);
        token_sum_of_rest(entries);
    }
}

/// The admitted requests are in time order and no later than the last request,
/// and the window holds those of the last minute.
proof fn the_window_holds_the_last_minute(
    requests: Seq<(u64, u64)>,
    max_requests: Option<u32>,
    max_tokens: Option<u64>,
)
    requires
        in_time_order(requests),
        requests.len() > 0,
    ensures
        window_after_all(requests, max_requests, max_tokens) == purge(
            admitted(requests, max_requests, max_tokens),
            requests.last().0 - WINDOW_NANOS,
        ),
        in_time_order(admitted(requests, max_requests, max_tokens)),
        forall|i: int|
            0 <= i < admitted(requests, max_requests, max_tokens).len() ==> (
            #[trigger] admitted(requests, max_requests, max_tokens)[i]).0 <= requests.last().0,
    decreases requests.len(),
{
    let earlier = requests.drop_last();
    let before = admitted(earlier, max_requests, max_tokens);
    let window = window_after_all(earlier, max_requests, max_tokens);
    let cutoff = requests.last().0 - WINDOW_NANOS;
    assert(in_time_order(earlier));
    if earlier.len() > 0 {
        the_window_holds_the_last_minute(earlier, max_requests, max_tokens);
        assert(earlier.last() == requests[requests.len() - 2]);
        assert(requests.last() == requests[requests.len() - 1]);
        purge_twice(before, earlier.last().0 - WINDOW_NANOS, cutoff);
    }
    assert(purge(window, cutoff) == purge(before, cutoff));
    purge_keeps_a_recent_last(before, requests.last(), cutoff);
}

/// Filtering by predicates that agree on every item gives the same items.
pub(crate) proof fn filters_agree(
    s: Seq<(u64, u64)>,
    p: spec_fn((u64, u64)) -> bool,
    q: spec_fn((u64, u64)) -> bool,
)
    requires
        forall|i: int| 0 <= i < s.len() ==> p(#[trigger] s[i]) == q(s[i]),
    ensures
        s.filter(p) == s.filter(q),
    decreases s.len(),
{
    reveal(Seq::filter);
    if s.len() > 0 {
        let rest = s.drop_last();
        assert forall|i: int| 0 <= i < rest.len() implies p(#[trigger] rest[i]) == q(rest[i]) by {
            assert(rest[i] == s[i]);
        }
        filters_agree(rest, p, q);
        assert(p(s[s.len() - 1]) == q(s[s.len() - 1]));
    }
}

/// Over a whole history of requests under limits that stay the same, every
/// minute keeps to them: of the requests that were admitted in the minute
/// before any instant there are at most `max_requests`, with at most
/// `max_tokens` tokens in all, below the largest limit of all.
pub proof fn every_minute_stays_within_limits(
    requests: Seq<(u64, u64)>,
    max_requests: Option<u32>,
    max_tokens: Option<u64>,
    x: int,
)
    requires
        in_time_order(requests),
    ensures
        ({
            let minute = in_the_minute_before(admitted(requests, max_requests, max_tokens), x);
            &&& max_requests matches Some(limit) ==> minute.len() <= limit
            &&& max_tokens matches Some(limit) ==> limit < u64::MAX ==> token_sum(minute) <= limit
        }),
    decreases requests.len(),
{
    reveal(Seq::filter);
    if requests.len() > 0 {
        let earlier = requests.drop_last();
        let before = admitted(earlier, max_requests, max_tokens);
        let all = admitted(requests, max_requests, max_tokens);
        let window = window_after_all(earlier, max_requests, max_tokens);
        let last = requests.last();
        assert(in_time_order(earlier));
        every_minute_stays_within_limits(earlier, max_requests, max_tokens, x);
        if admits(purge(window, last.0 - WINDOW_NANOS), last.1, max_requests, max_tokens) {
            assert(all == before.push(last));
            assert(all.drop_last() =~= before);
            if last.0 <= x {
                the_window_holds_the_last_minute(requests, max_requests, max_tokens);
                recorded_requests_stay_within_limits(
                    window,
                    last.0,
                    last.1,
                    max_requests,
                    max_tokens,
                );
                let cutoff = x - WINDOW_NANOS;
                filters_agree(
                    all,
                    |e: (u64, u64)| x - WINDOW_NANOS <= e.0 <= x,
                    |e: (u64, u64)| e.0 >= cutoff,
                );
                purge_keeps_exactly_the_recent(all, cutoff);
                purge_twice(all, last.0 - WINDOW_NANOS, cutoff);
                purge_is_no_larger(purge(all, last.0 - WINDOW_NANOS), cutoff);
            }
        }
    }
}

} // verus!
