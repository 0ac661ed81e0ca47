//! Access control for named resources.
//!
//! A resource is held by any number of sessions in shared mode, or by one
//! session in exclusive mode, never both.

use vstd::prelude::*;

use crate::ids::SessionId;
use crate::paths::{self, paths_equal};
use crate::text::{self, concat3, quoted, str_eq};

verus! {

/// Identifies a resource.
#[derive(Debug)]
pub enum ResourceKey {
    /// A file, by its path.
    File(String),
    /// A working tree of a repository, by its root path.
    GitRepository(String),
    /// A logical workspace.
    Workspace(String),
    /// A terminal.
    Terminal(String),
    /// Any other resource.
    Custom(String),
}

/// The identity of a resource: paths count by their components.
pub enum KeyView {
    File(Seq<Seq<char>>),
    GitRepository(Seq<Seq<char>>),
    Workspace(Seq<char>),
    Terminal(Seq<char>),
    Custom(Seq<char>),
}

impl View for ResourceKey {
    type V = KeyView;

    open spec fn view(&self) -> KeyView {
        match self {
            ResourceKey::File(path) => KeyView::File(paths::components(path@)),
            ResourceKey::GitRepository(path) => KeyView::GitRepository(paths::components(path@)),
            ResourceKey::Workspace(name) => KeyView::Workspace(name@),
            ResourceKey::Terminal(name) => KeyView::Terminal(name@),
            ResourceKey::Custom(name) => KeyView::Custom(name@),
        }
    }
}

impl ResourceKey {
    /// The key as a message shows it.
    pub open spec fn shown(self) -> Seq<char> {
        match self {
            ResourceKey::File(path) => "File("@ + text::debug_text(path@) + ")"@,
            ResourceKey::GitRepository(path) => "GitRepository("@ + text::debug_text(path@)
                + ")"@,
            ResourceKey::Workspace(name) => "Workspace("@ + text::debug_text(name@) + ")"@,
            ResourceKey::Terminal(name) => "Terminal("@ + text::debug_text(name@) + ")"@,
            ResourceKey::Custom(name) => "Custom("@ + text::debug_text(name@) + ")"@,
        }
    }

    /// Tells whether two keys identify the same resource.
    pub fn same(&self, other: &ResourceKey) -> (r: bool)
        ensures
            r == (self@ == other@),
    {
        match (self, other) {
            (ResourceKey::File(a), ResourceKey::File(b)) => paths_equal(a.as_str(), b.as_str()),
            (ResourceKey::GitRepository(a), ResourceKey::GitRepository(b)) => paths_equal(
                a.as_str(),
                b.as_str(),
            ),
            (ResourceKey::Workspace(a), ResourceKey::Workspace(b)) => str_eq(
                a.as_str(),
                b.as_str(),
            ),
            (ResourceKey::Terminal(a), ResourceKey::Terminal(b)) => str_eq(a.as_str(), b.as_str()),
            (ResourceKey::Custom(a), ResourceKey::Custom(b)) => str_eq(a.as_str(), b.as_str()),
            _ => false,
        }
    }

    /// Shows the key for a message.
    fn show(&self) -> (r: String)
        ensures
            r@ == self.shown(),
    {
        match self {
            ResourceKey::File(path) => concat3("File(", quoted(path.as_str()).as_str(), ")"),
            ResourceKey::GitRepository(path) => concat3(
                "GitRepository(",
                quoted(path.as_str()).as_str(),
                ")",
            ),
            ResourceKey::Workspace(name) => concat3(
                "Workspace(",
                quoted(name.as_str()).as_str(),
                ")",
            ),
            ResourceKey::Terminal(name) => concat3(
                "Terminal(",
                quoted(name.as_str()).as_str(),
                ")",
            ),
            ResourceKey::Custom(name) => concat3("Custom(", quoted(name.as_str()).as_str(), ")"),
        }
    }
}

impl Clone for ResourceKey {
    fn clone(&self) -> (r: Self)
        ensures
            r == *self,
    {
        match self {
            ResourceKey::File(path) => ResourceKey::File(path.clone()),
            ResourceKey::GitRepository(path) => ResourceKey::GitRepository(path.clone()),
            ResourceKey::Workspace(name) => ResourceKey::Workspace(name.clone()),
            ResourceKey::Terminal(name) => ResourceKey::Terminal(name.clone()),
            ResourceKey::Custom(name) => ResourceKey::Custom(name.clone()),
        }
    }
}

/// How a resource is asked for.
#[derive(Clone, Copy, Debug, PartialEq, Eq, Structural)]
pub enum AccessMode {
    /// Along with other sessions.
    Shared,
    /// By one session alone.
    Exclusive,
}

/// Errors of resource acquisition.
#[derive(Debug)]
pub enum ResourceError {
    /// The resource is held exclusively, or it is asked for exclusively while
    /// it is held.
    ExclusivelyHeld(ResourceKey),
}

impl ResourceError {
    /// The message shown to a caller.
    pub open spec fn message_view(self) -> Seq<char> {
        match self {
            ResourceError::ExclusivelyHeld(key) => "resource "@ + key.shown()
                + " is exclusively held by another session"@,
        }
    }

    /// The message shown to a caller.
    pub fn message(&self) -> (r: String)
        ensures
            r@ == self.message_view(),
    {
        match self {
            ResourceError::ExclusivelyHeld(key) => concat3(
                "resource ",
                key.show().as_str(),
                " is exclusively held by another session",
            ),
        }
    }
}

/// The sessions that hold a resource.
#[derive(Debug)]
struct Holders {
    key: ResourceKey,
    shared: Vec<SessionId>,
    exclusive: Option<SessionId>,
}

/// The sessions that hold a resource, as a value.
pub struct HoldersView {
    /// The shared holders, one entry for each acquisition, oldest first.
    pub shared: Seq<SessionId>,
    /// The exclusive holder.
    pub exclusive: Option<SessionId>,
}

/// Nobody holds the resource.
pub open spec fn unheld() -> HoldersView {
    HoldersView { shared: Seq::empty(), exclusive: None }
}

/// Whether a resource can be acquired in a mode.
pub open spec fn obtainable(holders: HoldersView, mode: AccessMode) -> bool {
    &&& holders.exclusive is None
    &&& mode == AccessMode::Exclusive ==> holders.shared.len() == 0
}

/// The holders after an acquisition.
pub open spec fn with_holder(
    holders: HoldersView,
    mode: AccessMode,
    holder: SessionId,
) -> HoldersView {
    match mode {
        AccessMode::Shared => HoldersView { shared: holders.shared.push(holder), ..holders },
        AccessMode::Exclusive => HoldersView { exclusive: Some(holder), ..holders },
    }
}

/// A list of sessions without one of them.
pub open spec fn without(sessions: Seq<SessionId>, holder: SessionId) -> Seq<SessionId>
    decreases sessions.len(),
{
    if sessions.len() == 0 {
        Seq::empty()
    } else {
        let rest = without(sessions.drop_last(), holder);
        if sessions.last() == holder {
            rest
        } else {
            rest.push(sessions.last())
        }
    }
}

/// The holders after a session released the resource: it is no holder any
/// more, however often it had acquired it.
pub open spec fn without_holder(holders: HoldersView, holder: SessionId) -> HoldersView {
    HoldersView {
        shared: without(holders.shared, holder),
        exclusive: if holders.exclusive == Some(holder) {
            None
        } else {
            holders.exclusive
        },
    }
}

/// Coordinates access to resources.
#[derive(Debug)]
pub struct ResourceManager {
    entries: Vec<Holders>,
}

impl Holders {
    spec fn view(&self) -> HoldersView {
        HoldersView { shared: self.shared@, exclusive: self.exclusive }
    }
}

/// Whether entry `i` is that of a resource.
spec fn entry_at(entries: Seq<Holders>, key: KeyView, i: int) -> bool {
    0 <= i < entries.len() && entries[i].key@ == key
}

impl ResourceManager {
    /// Who holds a resource.
    pub closed spec fn holders(&self, key: KeyView) -> HoldersView {
        if exists|i: int| entry_at(self.entries@, key, i) {
            self.entries@[choose|i: int| entry_at(self.entries@, key, i)].view()
        } else {
            unheld()
        }
    }

    /// Every resource has one entry.
    pub closed spec fn distinct(&self) -> bool {
        forall|i: int, j: int|
            0 <= i < j < self.entries@.len() ==> (#[trigger] self.entries@[i]).key@ != (
            #[trigger] self.entries@[j]).key@
    }

    /// A resource that is held exclusively has no shared holders.
    pub open spec fn wf(&self) -> bool {
        &&& self.distinct()
        &&& forall|key: KeyView|
            (#[trigger] self.holders(key)).exclusive is Some ==> self.holders(key).shared.len()
                == 0
    }

    /// No resource is held.
    pub fn new() -> (r: Self)
        ensures
            r.wf(),
            forall|key: KeyView| #[trigger] r.holders(key) == unheld(),
    {
        let r = ResourceManager { entries: Vec::new() };
        assert forall|key: KeyView| #[trigger] r.holders(key) == unheld() by {
            assert(forall|i: int| !(#[trigger] entry_at(r.entries@, key, i)));
        }
        r
    }

    proof fn entry_is_holders(&self, key: KeyView, i: int)
        requires
            self.distinct(),
            entry_at(self.entries@, key, i),
        ensures
            self.holders(key) == self.entries@[i].view(),
    {
        let k = choose|k: int| entry_at(self.entries@, key, k);
        assert(entry_at(self.entries@, key, k));
        if k < i {
            assert(self.entries@[k].key@ != self.entries@[i].key@);
        } else if i < k {
            assert(self.entries@[i].key@ != self.entries@[k].key@);
        }
    }

    /// Finds the entry of a resource.
    fn find(&self, key: &ResourceKey) -> (r: Option<usize>)
        requires
            self.distinct(),
        ensures
            match r {
                Some(i) => entry_at(self.entries@, key@, i as int) && self.holders(key@)
                    == self.entries@[i as int].view(),
                None => forall|i: int| !(#[trigger] entry_at(self.entries@, key@, i)),
            },
    {
        let mut i: usize = 0;
        while i < self.entries.len()
            invariant
                self.distinct(),
                i <= self.entries@.len(),
                forall|j: int| 0 <= j < i ==> (#[trigger] self.entries@[j]).key@ != key@,
            decreases self.entries@.len() - i,
        {
            if self.entries[i].key.same(key) {
                proof {
                    self.entry_is_holders(key@, i as int);
                }
                return Some(i);
            }
            i = i + 1;
        }
        None
    }

    /// Entries that differ at one place only hold other resources alike.
    proof fn others_stay(&self, after: &ResourceManager, key: KeyView, i: int)
        requires
            self.distinct(),
            after.distinct(),
            0 <= i < after.entries@.len(),
            self.entries@.len() <= after.entries@.len() <= self.entries@.len() + 1,
            self.entries@.len() < after.entries@.len() ==> i == self.entries@.len(),
            after.entries@[i].key@ == key,
            forall|j: int|
                0 <= j < self.entries@.len() ==> (#[trigger] after.entries@[j]).key@
                    == self.entries@[j].key@,
            forall|j: int|
                0 <= j < self.entries@.len() && j != i ==> (#[trigger] after.entries@[j])
                    == self.entries@[j],
        ensures
            forall|other: KeyView| other != key ==> #[trigger] after.holders(other)
                == self.holders(other),
    {
        assert forall|other: KeyView| other != key implies #[trigger] after.holders(other)
            == self.holders(other) by {
            if exists|j: int| entry_at(self.entries@, other, j) {
                let j = choose|j: int| entry_at(self.entries@, other, j);
                assert(after.entries@[j].key@ == self.entries@[j].key@);
                assert(entry_at(after.entries@, other, j));
                self.entry_is_holders(other, j);
                after.entry_is_holders(other, j);
            } else {
                assert forall|j: int| !(#[trigger] entry_at(after.entries@, other, j)) by {
                    assert(!entry_at(self.entries@, other, j));
                    if 0 <= j < self.entries@.len() {
                        assert(after.entries@[j].key@ == self.entries@[j].key@);
                    }
                }
            }
        }
    }

    /// Acquires a resource for a session.
    pub fn acquire(&mut self, key: ResourceKey, mode: AccessMode, holder: SessionId) -> (r: Result<
        (),
        ResourceError,
    >)
        requires
            old(self).wf(),
        ensures
            final(self).wf(),
            forall|other: KeyView| other != key@ ==> #[trigger] final(self).holders(other)
                == old(self).holders(other),
            if obtainable(old(self).holders(key@), mode) {
                &&& r == Ok::<(), ResourceError>(())
                &&& final(self).holders(key@) == with_holder(
                    old(self).holders(key@),
                    mode,
                    holder,
                )
            } else {
                &&& r == Err::<(), ResourceError>(ResourceError::ExclusivelyHeld(key))
                &&& final(self).holders(key@) == old(self).holders(key@)
            },
    {
        let ghost before = *self;
        let found = self.find(&key);
        let i: usize = match found {
            Some(i) => i,
            None => {
                let i: usize = self.entries.len();
                self.entries.push(
                    Holders { key: key.clone(), shared: Vec::new(), exclusive: None },
                );
                proof {
                    assert forall|a: int, b: int|
                        0 <= a < b < self.entries@.len() implies (#[trigger] self.entries@[a]).key@
                        != (#[trigger] self.entries@[b]).key@ by {
                        assert(!entry_at(before.entries@, key@, a));
                    }
                    assert(entry_at(self.entries@, key@, i as int));
                    self.entry_is_holders(key@, i as int);
                    assert(before.holders(key@) == unheld());
                    assert(self.entries@[i as int].view().shared =~= Seq::empty());
                    before.others_stay(self, key@, i as int);
                }
                i
            },
        };
        let ghost mid = *self;
        let held = self.entries[i].exclusive.is_some();
        let shared: usize = self.entries[i].shared.len();
        if held || (mode == AccessMode::Exclusive && shared > 0) {
            proof {
                assert forall|k: KeyView|
                    (#[trigger] self.holders(k)).exclusive is Some implies self.holders(
                    k,
                ).shared.len() == 0 by {
                    assert(self.holders(k) == before.holders(k));
                }
            }
            return Err(ResourceError::ExclusivelyHeld(key));
        }
        match mode {
            AccessMode::Shared => {
                self.entries[i].shared.push(holder);
            },
            AccessMode::Exclusive => {
                self.entries[i].exclusive = Some(holder);
            },
        }
        proof {
            assert forall|a: int, b: int|
                0 <= a < b < self.entries@.len() implies (#[trigger] self.entries@[a]).key@ != (
            #[trigger] self.entries@[b]).key@ by {
                assert(mid.entries@[a].key@ != mid.entries@[b].key@);
            }
            assert(entry_at(self.entries@, key@, i as int));
            self.entry_is_holders(key@, i as int);
            mid.others_stay(self, key@, i as int);
            assert forall|k: KeyView|
                (#[trigger] self.holders(k)).exclusive is Some implies self.holders(k).shared.len()
                == 0 by {
                assert(mid.holders(k) == before.holders(k));
                if k != key@ {
                    assert(self.holders(k) == mid.holders(k));
                }
            }
        }
        Ok(())
    }

    /// Releases a resource that a session holds. Nothing happens where the
    /// session does not hold it.
    pub fn release(&mut self, key: &ResourceKey, holder: SessionId)
        requires
            old(self).wf(),
        ensures
            final(self).wf(),
            forall|other: KeyView| other != key@ ==> #[trigger] final(self).holders(other)
                == old(self).holders(other),
            final(self).holders(key@) == without_holder(old(self).holders(key@), holder),
    {
        let ghost before = *self;
        match self.find(key) {
            Some(i) => {
                let kept = keep_others(&self.entries[i].shared, holder);
                self.entries[i].shared = kept;
                let exclusive = self.entries[i].exclusive;
                if let Some(current) = exclusive {
                    if current == holder {
                        self.entries[i].exclusive = None;
                    }
                }
                proof {
                    assert forall|a: int, b: int|
                        0 <= a < b < self.entries@.len() implies (#[trigger] self.entries@[a]).key@
                        != (#[trigger] self.entries@[b]).key@ by {
                        assert(before.entries@[a].key@ != before.entries@[b].key@);
                    }
                    assert(entry_at(self.entries@, key@, i as int));
                    self.entry_is_holders(key@, i as int);
                    before.others_stay(self, key@, i as int);
                    assert forall|k: KeyView|
                        (#[trigger] self.holders(k)).exclusive is Some implies self.holders(
                        k,
                    ).shared.len() == 0 by {
                        if k != key@ {
                            assert(self.holders(k) == before.holders(k));
                        }
                    }
                }
            },
            None => {
                assert(before.holders(key@) == unheld());
            },
        }
    }
}

/// The sessions of a list other than one of them.
fn keep_others(sessions: &Vec<SessionId>, holder: SessionId) -> (r: Vec<SessionId>)
    ensures
        r@ == without(sessions@, holder),
{
    let mut kept: Vec<SessionId> = Vec::new();
    let mut i: usize = 0;
    assert(sessions@.take(0) =~= Seq::empty());
    while i < sessions.len()
        invariant
            i <= sessions@.len(),
            kept@ == without(sessions@.take(i as int), holder),
        decreases sessions@.len() - i,
    {
        proof {
            assert(sessions@.take(i + 1).drop_last() =~= sessions@.take(i as int));
        }
        if sessions[i] != holder {
            kept.push(sessions[i]);
        }
        i = i + 1;
    }
    assert(sessions@.take(sessions@.len() as int) =~= sessions@);
    kept
}

impl Default for ResourceManager {
    fn default() -> (r: Self)
        ensures
            r.wf(),
            forall|key: KeyView| #[trigger] r.holders(key) == unheld(),
    {
        ResourceManager::new()
    }
}

/// While a resource is held exclusively nobody else can obtain it, in either
/// mode.
pub proof fn exclusive_excludes_everyone(holders: HoldersView, holder: SessionId, mode: AccessMode)
    requires
        obtainable(holders, AccessMode::Exclusive),
    ensures
        !obtainable(with_holder(holders, AccessMode::Exclusive, holder), mode),
{
}

/// Shared holders keep an exclusive one away, and let further shared ones in.
pub proof fn shared_excludes_exclusive_only(holders: HoldersView, holder: SessionId)
    requires
        obtainable(holders, AccessMode::Shared),
    ensures
        !obtainable(
            with_holder(holders, AccessMode::Shared, holder),
            AccessMode::Exclusive,
        ),
        obtainable(with_holder(holders, AccessMode::Shared, holder), AccessMode::Shared),
{
}

proof fn without_absent(sessions: Seq<SessionId>, holder: SessionId)
    requires
        !sessions.contains(holder),
    ensures
        without(sessions, holder) == sessions,
    decreases sessions.len(),
{
    if sessions.len() > 0 {
        assert(sessions[sessions.len() - 1] == sessions.last());
        assert forall|s: SessionId| sessions.drop_last().contains(s) implies sessions.contains(
            s,
        ) by {
            let i = choose|i: int|
                0 <= i < sessions.drop_last().len() && sessions.drop_last()[i] == s;
            assert(sessions[i] == s);
        }
        without_absent(sessions.drop_last(), holder);
        assert(sessions.drop_last().push(sessions.last()) =~= sessions);
    } else {
        assert(sessions =~= Seq::empty());
    }
}

/// Releasing undoes an acquisition by a session that did not hold the
/// resource before.
pub proof fn release_undoes_acquire(holders: HoldersView, mode: AccessMode, holder: SessionId)
    requires
        obtainable(holders, mode),
        !holders.shared.contains(holder),
    ensures
        without_holder(with_holder(holders, mode, holder), holder) == holders,
{
    without_absent(holders.shared, holder);
    let held = with_holder(holders, mode, holder);
    if mode == AccessMode::Shared {
        assert(held.shared.drop_last() =~= holders.shared);
    }
    assert(without_holder(held, holder).shared =~= holders.shared);
}

proof fn without_removes(sessions: Seq<SessionId>, holder: SessionId)
    ensures
        !without(sessions, holder).contains(holder),
    decreases sessions.len(),
{
    if sessions.len() > 0 {
        without_removes(sessions.drop_last(), holder);
        let rest = without(sessions.drop_last(), holder);
        let all = without(sessions, holder);
        if all.contains(holder) {
            let i = choose|i: int| 0 <= i < all.len() && all[i] == holder;
            assert(i < rest.len());
            assert(rest[i] == holder);
        }
    }
}

/// After a session released a resource it holds it in neither mode, and a
/// second release changes nothing.
pub proof fn released_is_not_held(holders: HoldersView, holder: SessionId)
    ensures
        !without_holder(holders, holder).shared.contains(holder),
        without_holder(holders, holder).exclusive != Some(holder),
        without_holder(without_holder(holders, holder), holder) == without_holder(holders, holder),
{
    without_removes(holders.shared, holder);
    without_absent(without(holders.shared, holder), holder);
}

} // verus!
