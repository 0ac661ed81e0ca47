//! Helpers for tables keyed by an identifier.

use std::collections::HashMap;

use tokio_util::sync::CancellationToken;
use vstd::prelude::*;

use crate::outside::cancel_token;

verus! {

broadcast use vstd::std_specs::hash::group_hash_axioms;

/// The keys of a table, each once, in no particular order.
pub fn keys_of<V>(table: &HashMap<u128, V>) -> (r: Vec<u128>)
    ensures
        r@.no_duplicates(),
        r@.to_set() == table@.dom(),
        r@.len() == table@.dom().len(),
{
    let mut keys: Vec<u128> = Vec::new();
    let ghost all = vstd::std_specs::iter::IteratorSpec::remaining(
        &vstd::std_specs::hash::spec_keys_iter(table),
    ).unref();
    for key in it: table.keys()
        invariant
            all == it.seq().unref(),
            keys@ == all.take(it.index()),
    {
        keys.push(*key);
    }
    assert(keys@ =~= all);
    keys
}

/// Turns a vector around.
pub fn reversed<T>(v: Vec<T>) -> (r: Vec<T>)
    ensures
        r@ == v@.reverse(),
{
    let ghost all = v@;
    let mut from = v;
    let mut to: Vec<T> = Vec::new();
    assert(from@ =~= all.take(all.len() as int));
    assert(to@ =~= all.skip(all.len() as int).reverse());
    while from.len() > 0
        invariant
            from@.len() <= all.len(),
            from@ == all.take(from@.len() as int),
            to@ == all.skip(from@.len() as int).reverse(),
        decreases from@.len(),
    {
        let ghost n = from@.len();
        match from.pop() {
            Some(item) => {
                to.push(item);
                assert(from@ =~= all.take(n - 1));
                assert(to@ =~= all.skip(n - 1).reverse());
            },
            None => {},
        }
    }
    assert(all.skip(0) =~= all);
    to
}

/// Cancellation tokens of work in flight, each under the identifier of the
/// work.
pub struct TokenTable {
    tokens: HashMap<u128, CancellationToken>,
}

impl View for TokenTable {
    type V = Map<u128, CancellationToken>;

    closed spec fn view(&self) -> Map<u128, CancellationToken> {
        self.tokens@
    }
}

/// Whether one of the handles governs whatever `token` governs.
pub open spec fn among(handles: Seq<CancellationToken>, token: CancellationToken) -> bool {
    exists|i: int| 0 <= i < handles.len() && crate::outside::covers(#[trigger] handles[i], token)
}

impl TokenTable {
    /// Nothing is in flight.
    pub fn new() -> (r: Self)
        ensures
            r@ == Map::<u128, CancellationToken>::empty(),
    {
        TokenTable { tokens: HashMap::new() }
    }

    /// Files the token of work that starts.
    pub fn insert(&mut self, key: u128, token: CancellationToken)
        ensures
            final(self)@ == old(self)@.insert(key, token),
    {
        self.tokens.insert(key, token);
    }

    /// Cancels the work under `key`, if it is in flight, and forgets it. The
    /// cancelled handle is handed back.
    pub fn cancel(&mut self, key: u128) -> (r: Option<CancellationToken>)
        ensures
            final(self)@ == old(self)@.remove(key),
            r is Some <==> old(self)@.contains_key(key),
            r matches Some(token) ==> crate::outside::known_cancelled(token)
                && crate::outside::covers(token, old(self)@[key]),
    {
        match self.tokens.remove(&key) {
            Some(token) => {
                let mut token = token;
                cancel_token(&mut token);
                Some(token)
            },
            None => {
                assert(self@ =~= old(self)@.remove(key));
                None
            },
        }
    }

    /// Cancels everything in flight and forgets it. The cancelled handles are
    /// handed back.
    pub fn cancel_all(&mut self) -> (r: Vec<CancellationToken>)
        ensures
            final(self)@ == Map::<u128, CancellationToken>::empty(),
            r@.len() == old(self)@.dom().len(),
            forall|i: int|
                0 <= i < r@.len() ==> crate::outside::known_cancelled(#[trigger] r@[i]),
            forall|key: u128| #[trigger]
                old(self)@.contains_key(key) ==> among(r@, old(self)@[key]),
    {
        let keys = keys_of(&self.tokens);
        let mut cancelled: Vec<CancellationToken> = Vec::new();
        let mut i: usize = 0;
        let ghost start = self@;
        while i < keys.len()
            invariant
                i <= keys@.len(),
                keys@.no_duplicates(),
                keys@.to_set() == start.dom(),
                keys@.len() == start.dom().len(),
                cancelled@.len() == i,
                forall|k: u128| #[trigger] self@.contains_key(k) <==> start.contains_key(k) && !keys@.take(
                    i as int,
                ).contains(k),
                forall|j: int|
                    0 <= j < i ==> crate::outside::known_cancelled(#[trigger] cancelled@[j]),
                forall|j: int|
                    0 <= j < i ==> crate::outside::covers(
                        #[trigger] cancelled@[j],
                        start[keys@[j]],
                    ),
                forall|k: u128| #[trigger] self@.contains_key(k) ==> self@[k] == start[k],
                start == old(self)@,
            decreases keys@.len() - i,
        {
            let key = keys[i];
            proof {
                assert(keys@.to_set().contains(key));
                assert(!keys@.take(i as int).contains(key)) by {
                    if keys@.take(i as int).contains(key) {
                        let j = choose|j: int| 0 <= j < i && keys@.take(i as int)[j] == key;
                        assert(keys@[j] == keys@[i as int]);
                    }
                }
                assert(self@.contains_key(key));
                assert(keys@.take(i + 1) =~= keys@.take(i as int).push(key));
            }
            match self.cancel(key) {
                Some(token) => {
                    cancelled.push(token);
                },
                None => {},
            }
            proof {
                assert forall|k: u128| #[trigger] self@.contains_key(k) <==> start.contains_key(k)
                    && !keys@.take(i + 1).contains(k) by {
                    let before = keys@.take(i as int);
                    if before.contains(k) {
                        let j = choose|j: int| 0 <= j < before.len() && before[j] == k;
                        assert(keys@.take(i + 1)[j] == k);
                    }
                    if k == key {
                        assert(keys@.take(i + 1)[i as int] == k);
                    }
                }
            }
            i = i + 1;
        }
        proof {
            assert(keys@.take(keys@.len() as int) =~= keys@);
            assert forall|k: u128| !(#[trigger] self@.contains_key(k)) by {
                if start.contains_key(k) {
                    assert(keys@.to_set().contains(k));
                }
            }
            assert(self@ =~= Map::<u128, CancellationToken>::empty());
            assert forall|k: u128| #[trigger] old(self)@.contains_key(k) implies among(
                cancelled@,
                old(self)@[k],
            ) by {
                assert(keys@.to_set().contains(k));
                let j = choose|j: int| 0 <= j < keys@.len() && keys@[j] == k;
                assert(crate::outside::covers(cancelled@[j], start[keys@[j]]));
            }
        }
        cancelled
    }
}

} // verus!
