//! Session-wide event aggregation: the streams of all agents become one
//! ordered stream.
//!
//! An event that the session's committer already numbered keeps its number,
//! so that stored and observed order agree. Any other event gets the next
//! number of the bus.

use vstd::prelude::*;

use crate::protocol::AgentEventEnvelope;

verus! {

/// Capacity of the channel to subscribers.
pub const SUBSCRIBER_CAPACITY: usize = 256;

/// How long the bus sleeps when no agent had an event.
pub const IDLE_MILLIS: u64 = 10;

/// What polling an agent's stream gave.
pub enum Received {
    /// An event.
    Event(AgentEventEnvelope),
    /// Nothing for now.
    Empty,
    /// The agent is gone.
    Closed,
    /// The stream dropped that many events.
    Lagged(u64),
}

/// What is done about it.
pub enum PollStep {
    /// Forward the event to the subscribers and poll on.
    Forward(AgentEventEnvelope),
    /// Poll on.
    Continue,
    /// Go to the next stream and keep this one.
    KeepStream,
    /// Go to the next stream and forget this one.
    DropStream,
}

/// The numbering of a session's events.
#[derive(Debug)]
pub struct SessionEventBus {
    next_sequence: u64,
}

/// The number that an event carries once it is forwarded.
pub open spec fn sequence_of(next: u64, envelope: AgentEventEnvelope) -> u64 {
    match envelope.session_sequence {
        Some(sequence) => sequence,
        None => next,
    }
}

/// The next number of the bus after an event was forwarded.
pub open spec fn next_after(next: u64, envelope: AgentEventEnvelope) -> u64 {
    if envelope.session_sequence is Some {
        next
    } else if next == u64::MAX {
        0
    } else {
        (next + 1) as u64
    }
}

/// The next number of the bus after a list of events was forwarded.
pub open spec fn next_after_all(next: u64, envelopes: Seq<AgentEventEnvelope>) -> u64
    decreases envelopes.len(),
{
    if envelopes.len() == 0 {
        next
    } else {
        next_after(next_after_all(next, envelopes.drop_last()), envelopes.last())
    }
}

/// The number that event `i` of a list carries once it is forwarded.
pub open spec fn sequence_at(next: u64, envelopes: Seq<AgentEventEnvelope>, i: int) -> u64 {
    sequence_of(next_after_all(next, envelopes.take(i)), envelopes[i])
}

impl SessionEventBus {
    /// The next number of the bus.
    pub closed spec fn next(&self) -> u64 {
        self.next_sequence
    }

    /// A bus that starts to number at zero.
    pub fn new() -> (r: Self)
        ensures
            r.next() == 0,
    {
        SessionEventBus { next_sequence: 0 }
    }

    /// Handles what polling an agent's stream gave.
    pub fn poll(&mut self, received: Received) -> (r: PollStep)
        ensures
            match received {
                Received::Event(envelope) => {
                    &&& r == PollStep::Forward(
                        (AgentEventEnvelope {
                            session_sequence: Some(sequence_of(old(self).next(), envelope)),
                            ..envelope
                        }),
                    )
                    &&& final(self).next() == next_after(old(self).next(), envelope)
                },
                Received::Empty => r == PollStep::KeepStream && final(self).next() == old(self).next(),
                Received::Closed => r == PollStep::DropStream && final(self).next() == old(
                    self).next(),
                Received::Lagged(_) => r == PollStep::Continue && final(self).next() == old(
                    self).next(),
            },
    {
        match received {
            Received::Event(envelope) => {
                let mut envelope = envelope;
                if envelope.session_sequence.is_none() {
                    envelope.session_sequence = Some(self.next_sequence);
                    if self.next_sequence == u64::MAX {
                        self.next_sequence = 0;
                    } else {
                        self.next_sequence = self.next_sequence + 1;
                    }
                }
                PollStep::Forward(envelope)
            },
            Received::Empty => PollStep::KeepStream,
            Received::Closed => PollStep::DropStream,
            Received::Lagged(_) => PollStep::Continue,
        }
    }
}

/// What the bus does after one round over all streams.
#[derive(Clone, Copy, Debug, PartialEq, Eq, Structural)]
pub enum BusStep {
    /// Poll once more to drain what is left, then stop.
    DrainAndStop,
    /// Poll again soon.
    Yield,
    /// Sleep for [`IDLE_MILLIS`], then poll again.
    Sleep,
}

/// Decides what the bus does next.
pub fn bus_step(cancelled: bool, had_data: bool) -> (r: BusStep)
    ensures
        r == (if cancelled {
            BusStep::DrainAndStop
        } else if had_data {
            BusStep::Yield
        } else {
            BusStep::Sleep
        }),
{
    if cancelled {
        BusStep::DrainAndStop
    } else if had_data {
        BusStep::Yield
    } else {
        BusStep::Sleep
    }
}

/// Without a committer the numbers of a list of events count up one by one,
/// until they run out.
pub proof fn bus_numbers_count_up(next: u64, envelopes: Seq<AgentEventEnvelope>, i: int)
    requires
        forall|k: int|
            0 <= k < envelopes.len() ==> (#[trigger] envelopes[k]).session_sequence is None,
        0 <= i < envelopes.len(),
        next + envelopes.len() <= u64::MAX,
    ensures
        sequence_at(next, envelopes, i) == next + i,
{
    numbers_up_to(next, envelopes, i);
}

proof fn numbers_up_to(next: u64, envelopes: Seq<AgentEventEnvelope>, n: int)
    requires
        forall|k: int|
            0 <= k < envelopes.len() ==> (#[trigger] envelopes[k]).session_sequence is None,
        0 <= n <= envelopes.len(),
        next + envelopes.len() <= u64::MAX,
    ensures
        next_after_all(next, envelopes.take(n)) == next + n,
    decreases n,
{
    if n > 0 {
        numbers_up_to(next, envelopes, n - 1);
        assert(envelopes.take(n).drop_last() =~= envelopes.take(n - 1));
        assert(envelopes.take(n).last() == envelopes[n - 1]);
    } else {
        assert(envelopes.take(0) =~= Seq::empty());
    }
}

/// A number that the committer assigned is never changed, and numbering it
/// does not use up a number of the bus.
pub proof fn committed_numbers_are_kept(next: u64, envelope: AgentEventEnvelope, sequence: u64)
    requires
        envelope.session_sequence == Some(sequence),
    ensures
        sequence_of(next, envelope) == sequence,
        next_after(next, envelope) == next,
{
}

/// With a committer that numbers strictly upwards, observers see the numbers
/// strictly upwards.
pub proof fn committed_order_is_observed(
    next: u64,
    envelopes: Seq<AgentEventEnvelope>,
    i: int,
    j: int,
)
    requires
        forall|k: int|
            0 <= k < envelopes.len() ==> (#[trigger] envelopes[k]).session_sequence is Some,
        forall|a: int, b: int|
            0 <= a < b < envelopes.len() ==> (#[trigger] envelopes[a]).session_sequence->0 < (
            #[trigger] envelopes[b]).session_sequence->0,
        0 <= i < j < envelopes.len(),
    ensures
        sequence_at(next, envelopes, i) < sequence_at(next, envelopes, j),
{
    assert(envelopes[i].session_sequence is Some);
    assert(envelopes[j].session_sequence is Some);
}

} // verus!
