//! Registry of integrations: the factories from which backends are made.

use vstd::prelude::*;

use crate::text::str_eq;

verus! {

/// Errors raised when an integration is looked up or a backend is made.
#[derive(Debug)]
pub enum IntegrationError {
    /// No factory is registered under the identifier.
    NotRegistered(String),
    /// The registry was left in an unusable state by a panicking thread.
    RegistryPoisoned,
    /// The factory rejected its configuration or failed.
    Creation { integration: String, message: String },
}

impl IntegrationError {
    /// The message shown to a caller.
    pub open spec fn message_view(self) -> Seq<char> {
        match self {
            IntegrationError::NotRegistered(id) => "integration is not registered: "@ + id@,
            IntegrationError::RegistryPoisoned => "integration registry lock was poisoned"@,
            IntegrationError::Creation { integration, message } => "failed to create integration "@
                + integration@ + ": "@ + message@,
        }
    }

    /// The message shown to a caller.
    pub fn message(&self) -> (r: String)
        ensures
            r@ == self.message_view(),
    {
        match self {
            IntegrationError::NotRegistered(id) => crate::text::concat2(
                "integration is not registered: ",
                id.as_str(),
            ),
            IntegrationError::RegistryPoisoned => "integration registry lock was poisoned".to_owned(),
            IntegrationError::Creation { integration, message } => crate::text::concat3(
                "failed to create integration ",
                integration.as_str(),
                ": ",
            ).concat(message.as_str()),
        }
    }
}

/// A registered factory: its stable identifier, the name in its backend
/// descriptor, and the factory itself.
#[derive(Debug)]
pub struct FactoryEntry<F> {
    pub id: String,
    pub descriptor_name: String,
    pub factory: F,
}

/// Registry of factories, at most one per identifier.
#[derive(Debug)]
pub struct IntegrationRegistry<F> {
    factories: Vec<FactoryEntry<F>>,
}

/// Whether no identifier occurs twice.
pub open spec fn distinct_ids<F>(entries: Seq<FactoryEntry<F>>) -> bool {
    forall|i: int, j: int|
        0 <= i < j < entries.len() ==> (#[trigger] entries[i]).id@ != (#[trigger] entries[j]).id@
}

/// Whether an entry is registered under `id`.
pub open spec fn has_id<F>(entries: Seq<FactoryEntry<F>>, id: Seq<char>) -> bool {
    exists|i: int| 0 <= i < entries.len() && (#[trigger] entries[i]).id@ == id
}

/// `entries` with `entry` in the place of the entry of the same identifier,
/// or at the end where there is none.
pub open spec fn with_entry<F>(entries: Seq<FactoryEntry<F>>, entry: FactoryEntry<F>) -> Seq<
    FactoryEntry<F>,
>
    decreases entries.len(),
{
    if entries.len() == 0 {
        seq![entry]
    } else if entries[0].id@ == entry.id@ {
        seq![entry] + entries.drop_first()
    } else {
        seq![entries[0]] + with_entry(entries.drop_first(), entry)
    }
}

/// `entries` with every entry of `others` put in, in order.
pub open spec fn with_entries<F>(
    entries: Seq<FactoryEntry<F>>,
    others: Seq<FactoryEntry<F>>,
) -> Seq<FactoryEntry<F>>
    decreases others.len(),
{
    if others.len() == 0 {
        entries
    } else {
        with_entry(with_entries(entries, others.drop_last()), others.last())
    }
}

impl<F> View for IntegrationRegistry<F> {
    type V = Seq<FactoryEntry<F>>;

    closed spec fn view(&self) -> Seq<FactoryEntry<F>> {
        self.factories@
    }
}

/// How an update at position `k` relates to [`with_entry`].
proof fn with_entry_at<F>(entries: Seq<FactoryEntry<F>>, entry: FactoryEntry<F>, k: int)
    requires
        0 <= k < entries.len(),
        entries[k].id@ == entry.id@,
        forall|j: int| 0 <= j < k ==> (#[trigger] entries[j]).id@ != entry.id@,
    ensures
        with_entry(entries, entry) == entries.update(k, entry),
    decreases entries.len(),
{
    if k == 0 {
        assert(with_entry(entries, entry) =~= entries.update(0, entry));
    } else {
        assert(entries[0].id@ != entry.id@);
        let rest = entries.drop_first();
        assert forall|j: int| 0 <= j < k - 1 implies (#[trigger] rest[j]).id@ != entry.id@ by {
            assert(rest[j] == entries[j + 1]);
        }
        with_entry_at(rest, entry, k - 1);
        assert(with_entry(entries, entry) =~= entries.update(k, entry));
    }
}

/// How an addition at the end relates to [`with_entry`].
proof fn with_entry_at_end<F>(entries: Seq<FactoryEntry<F>>, entry: FactoryEntry<F>)
    requires
        !has_id(entries, entry.id@),
    ensures
        with_entry(entries, entry) == entries.push(entry),
    decreases entries.len(),
{
    if entries.len() == 0 {
        assert(with_entry(entries, entry) =~= entries.push(entry));
    } else {
        assert(entries[0].id@ != entry.id@);
        let rest = entries.drop_first();
        assert forall|j: int| 0 <= j < rest.len() implies (#[trigger] rest[j]).id@ != entry.id@ by {
            assert(rest[j] == entries[j + 1]);
        }
        with_entry_at_end(rest, entry);
        assert(with_entry(entries, entry) =~= entries.push(entry));
    }
}

/// Putting an entry in keeps identifiers distinct, makes the entry the one of
/// its identifier, and leaves every other identifier alone.
pub proof fn putting_an_entry_in<F>(entries: Seq<FactoryEntry<F>>, entry: FactoryEntry<F>)
    requires
        distinct_ids(entries),
    ensures
        distinct_ids(with_entry(entries, entry)),
        with_entry(entries, entry).contains(entry),
        forall|id: Seq<char>|
            id != entry.id@ ==> (#[trigger] has_id(with_entry(entries, entry), id) <==> has_id(
                entries,
                id,
            )),
        has_id(with_entry(entries, entry), entry.id@),
        forall|other: FactoryEntry<F>|
            other.id@ != entry.id@ ==> (#[trigger] with_entry(entries, entry).contains(other)
                <==> entries.contains(other)),
{
    let after = with_entry(entries, entry);
    let at: int = if has_id(entries, entry.id@) {
        choose|i: int| 0 <= i < entries.len() && (#[trigger] entries[i]).id@ == entry.id@
    } else {
        entries.len() as int
    };
    if has_id(entries, entry.id@) {
        assert forall|j: int| 0 <= j < at implies (#[trigger] entries[j]).id@ != entry.id@ by {
            assert(entries[j].id@ != entries[at].id@);
        }
        with_entry_at(entries, entry, at);
    } else {
        with_entry_at_end(entries, entry);
    }
    assert(after[at] == entry);
    assert forall|i: int| 0 <= i < entries.len() && i != at implies after[i] == entries[i] by {}
    assert forall|id: Seq<char>| id != entry.id@ implies (#[trigger] has_id(after, id) <==> has_id(
        entries,
        id,
    )) by {
        if has_id(after, id) {
            let i = choose|i: int| 0 <= i < after.len() && (#[trigger] after[i]).id@ == id;
            assert(entries[i].id@ == id);
        }
        if has_id(entries, id) {
            let i = choose|i: int| 0 <= i < entries.len() && (#[trigger] entries[i]).id@ == id;
            assert(after[i].id@ == id);
        }
    }
    assert forall|other: FactoryEntry<F>| other.id@ != entry.id@ implies (
    #[trigger] after.contains(other) <==> entries.contains(other)) by {
        if after.contains(other) {
            let i = choose|i: int| 0 <= i < after.len() && after[i] == other;
            assert(entries[i] == other);
        }
        if entries.contains(other) {
            let i = choose|i: int| 0 <= i < entries.len() && entries[i] == other;
            assert(after[i] == other);
        }
    }
}

impl<F> IntegrationRegistry<F> {
    /// Identifiers are distinct.
    pub open spec fn wf(&self) -> bool {
        distinct_ids(self@)
    }

    /// The factory registered under `id`.
    pub open spec fn factory(&self, id: Seq<char>) -> Option<F> {
        if has_id(self@, id) {
            Some(self@[choose|i: int| 0 <= i < self@.len() && (#[trigger] self@[i]).id@ == id].factory)
        } else {
            None
        }
    }

    /// An empty registry.
    pub fn new() -> (r: Self)
        ensures
            r@ == Seq::<FactoryEntry<F>>::empty(),
            r.wf(),
    {
        IntegrationRegistry { factories: Vec::new() }
    }

    fn position(&self, id: &str) -> (r: Option<usize>)
        ensures
            match r {
                Some(i) => i < self@.len() && self@[i as int].id@ == id@ && forall|j: int|
                    0 <= j < i ==> (#[trigger] self@[j]).id@ != id@,
                None => !has_id(self@, id@),
            },
    {
        let mut i: usize = 0;
        while i < self.factories.len()
            invariant
                i <= self.factories@.len(),
                forall|j: int| 0 <= j < i ==> (#[trigger] self.factories@[j]).id@ != id@,
            decreases self.factories@.len() - i,
        {
            if str_eq(self.factories[i].id.as_str(), id) {
                return Some(i);
            }
            i = i + 1;
        }
        None
    }

    /// Registers a factory, replacing the one of the same identifier.
    pub fn register(&mut self, entry: FactoryEntry<F>)
        requires
            old(self).wf(),
        ensures
            final(self)@ == with_entry(old(self)@, entry),
            final(self).wf(),
    {
        proof {
            putting_an_entry_in(self@, entry);
        }
        match self.position(entry.id.as_str()) {
            Some(i) => {
                proof {
                    with_entry_at(self@, entry, i as int);
                }
                self.factories.set(i, entry);
            },
            None => {
                proof {
                    with_entry_at_end(self@, entry);
                }
                self.factories.push(entry);
            },
        }
    }

    /// Takes in every factory of another registry; one of the same identifier
    /// is replaced.
    pub fn extend_from(&mut self, other: Self)
        requires
            old(self).wf(),
        ensures
            final(self)@ == with_entries(old(self)@, other@),
            final(self).wf(),
    {
        let ghost all = other@;
        let ghost start = self@;
        let mut rest = crate::tables::reversed(other.factories);
        let ghost mut done: int = 0;
        assert(all.take(0) =~= Seq::empty());
        assert(rest@ =~= all.skip(0).reverse());
        while rest.len() > 0
            invariant
                0 <= done <= all.len(),
                rest@ == all.skip(done).reverse(),
                self@ == with_entries(start, all.take(done)),
                self.wf(),
            decreases rest@.len(),
        {
            proof {
                assert(all.take(done + 1).drop_last() =~= all.take(done));
                assert(all.take(done + 1).last() == all[done]);
                assert(rest@.last() == all[done]);
                assert(rest@.drop_last() =~= all.skip(done + 1).reverse());
            }
            match rest.pop() {
                Some(entry) => {
                    self.register(entry);
                    proof {
                        done = done + 1;
                    }
                },
                None => {},
            }
        }
        assert(all.take(all.len() as int) =~= all);
        assert(done == all.len());
    }

    /// Looks a factory up by its identifier.
    pub fn get(&self, id: &str) -> (r: Option<&F>)
        requires
            self.wf(),
        ensures
            match r {
                Some(factory) => self.factory(id@) == Some(*factory),
                None => self.factory(id@) is None,
            },
    {
        match self.position(id) {
            Some(i) => {
                proof {
                    let k = choose|k: int| 0 <= k < self@.len() && (#[trigger] self@[k]).id@ == id@;
                    assert(self@[i as int].id@ == id@);
                    if k < i {
                        assert(self@[k].id@ != self@[i as int].id@);
                    } else if i < k {
                        assert(self@[i as int].id@ != self@[k].id@);
                    }
                }
                Some(&self.factories[i].factory)
            },
            None => None,
        }
    }

    /// Tells whether a factory is registered under `id`.
    pub fn contains(&self, id: &str) -> (r: bool)
        ensures
            r == has_id(self@, id@),
    {
        match self.position(id) {
            Some(i) => {
                assert(self@[i as int].id@ == id@);
                true
            },
            None => false,
        }
    }

    /// Whether `self@[i]` is the first factory whose backend is called `name`.
    pub open spec fn first_described(&self, name: Seq<char>, i: int) -> bool {
        &&& 0 <= i < self@.len()
        &&& self@[i].descriptor_name@ == name
        &&& forall|j: int| 0 <= j < i ==> (#[trigger] self@[j]).descriptor_name@ != name
    }

    /// Whether a factory makes backends called `name`.
    pub open spec fn describes(&self, name: Seq<char>) -> bool {
        exists|i: int| 0 <= i < self@.len() && (#[trigger] self@[i]).descriptor_name@ == name
    }

    /// The identifier of the first factory whose backend is called `name`.
    pub fn id_for_descriptor_name(&self, name: &str) -> (r: Option<String>)
        ensures
            match r {
                Some(id) => exists|i: int|
                    #[trigger] self.first_described(name@, i) && self@[i].id == id,
                None => !self.describes(name@),
            },
    {
        let mut i: usize = 0;
        while i < self.factories.len()
            invariant
                i <= self.factories@.len(),
                forall|j: int| 0 <= j < i ==> (#[trigger] self.factories@[j]).descriptor_name@ != name@,
            decreases self.factories@.len() - i,
        {
            if str_eq(self.factories[i].descriptor_name.as_str(), name) {
                assert(self.first_described(name@, i as int));
                return Some(self.factories[i].id.clone());
            }
            i = i + 1;
        }
        None
    }
}

/// What making a backend answers: the backend, the missing registration, or
/// the factory's own failure.
pub fn creation_outcome<B>(id: &str, registered: bool, made: Result<B, String>) -> (r: Result<
    B,
    IntegrationError,
>)
    ensures
        if !registered {
            r matches Err(IntegrationError::NotRegistered(text)) && text@ == id@
        } else {
            match made {
                Ok(backend) => r == Ok::<B, IntegrationError>(backend),
                Err(error) => r matches Err(IntegrationError::Creation { integration, message })
                    && integration@ == id@ && message == error,
            }
        },
{
    if !registered {
        return Err(IntegrationError::NotRegistered(id.to_owned()));
    }
    match made {
        Ok(backend) => Ok(backend),
        Err(error) => Err(
            IntegrationError::Creation { integration: id.to_owned(), message: error },
        ),
    }
}

} // verus!
