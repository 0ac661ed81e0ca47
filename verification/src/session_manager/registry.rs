//! The active sessions and their capacity permits.

use std::collections::HashMap;

use vstd::prelude::*;

use crate::ids::SessionId;
use crate::tables::keys_of;

verus! {

broadcast use vstd::std_specs::hash::group_hash_axioms;

/// The active sessions. `R` is a handle on a session's runtime, `P` the
/// capacity permit that the session holds.
pub struct ActiveSessionRegistry<R, P> {
    sessions: HashMap<u128, R>,
    session_permits: HashMap<u128, P>,
}

impl<R, P> ActiveSessionRegistry<R, P> {
    /// The active sessions.
    pub closed spec fn sessions(&self) -> Map<u128, R> {
        self.sessions@
    }

    /// The permits that active sessions hold.
    pub closed spec fn permits(&self) -> Map<u128, P> {
        self.session_permits@
    }

    /// Every active session holds a permit, and no other one does.
    pub open spec fn wf(&self) -> bool {
        self.sessions().dom() == self.permits().dom()
    }

    /// No session is active.
    pub fn new() -> (r: Self)
        ensures
            r.wf(),
            r.sessions() == Map::<u128, R>::empty(),
            r.permits() == Map::<u128, P>::empty(),
    {
        let r = ActiveSessionRegistry { sessions: HashMap::new(), session_permits: HashMap::new() };
        assert(r.sessions().dom() =~= r.permits().dom());
        r
    }

    /// Registers a session with its permit.
    pub fn register(&mut self, id: SessionId, runtime: R, permit: P)
        requires
            old(self).wf(),
        ensures
            final(self).wf(),
            final(self).sessions() == old(self).sessions().insert(id.0, runtime),
            final(self).permits() == old(self).permits().insert(id.0, permit),
    {
        self.sessions.insert(id.0, runtime);
        self.session_permits.insert(id.0, permit);
        assert(self.sessions().dom() =~= self.permits().dom());
    }

    /// Looks an active session up.
    pub fn get(&self, id: SessionId) -> (r: Option<&R>)
        ensures
            match r {
                Some(runtime) => self.sessions().contains_key(id.0) && self.sessions()[id.0]
                    == *runtime,
                None => !self.sessions().contains_key(id.0),
            },
    {
        self.sessions.get(&id.0)
    }

    /// Tells whether a session is active.
    pub fn contains(&self, id: SessionId) -> (r: bool)
        ensures
            r == self.sessions().contains_key(id.0),
    {
        self.sessions.contains_key(&id.0)
    }

    /// Removes a session and its permit.
    pub fn remove(&mut self, id: SessionId) -> (r: Option<(R, Option<P>)>)
        requires
            old(self).wf(),
        ensures
            final(self).wf(),
            final(self).sessions() == old(self).sessions().remove(id.0),
            final(self).permits() == old(self).permits().remove(id.0),
            match r {
                Some((runtime, permit)) => {
                    &&& old(self).sessions().contains_key(id.0)
                    &&& runtime == old(self).sessions()[id.0]
                    &&& permit == Some(old(self).permits()[id.0])
                },
                None => !old(self).sessions().contains_key(id.0),
            },
    {
        match self.sessions.remove(&id.0) {
            Some(runtime) => {
                assert(old(self).sessions().dom().contains(id.0));
                assert(old(self).permits().dom().contains(id.0));
                let permit = self.session_permits.remove(&id.0);
                assert(self.sessions().dom() =~= self.permits().dom());
                Some((runtime, permit))
            },
            None => {
                assert(!old(self).sessions().dom().contains(id.0));
                assert(self.sessions() =~= old(self).sessions().remove(id.0));
                assert(self.permits() =~= old(self).permits().remove(id.0));
                None
            },
        }
    }

    /// The number of active sessions.
    pub fn count(&self) -> (r: usize)
        ensures
            r == self.sessions().len(),
    {
        self.sessions.len()
    }

    /// The identifiers of the active sessions, each once.
    pub fn ids(&self) -> (r: Vec<SessionId>)
        ensures
            r@.len() == self.sessions().len(),
            forall|id: SessionId| #[trigger]
                r@.contains(id) <==> self.sessions().contains_key(id.0),
            r@.no_duplicates(),
    {
        let keys = keys_of(&self.sessions);
        let mut ids: Vec<SessionId> = Vec::new();
        let mut i: usize = 0;
        while i < keys.len()
            invariant
                i <= keys@.len(),
                ids@.len() == i,
                forall|j: int| 0 <= j < i ==> (#[trigger] ids@[j]).0 == keys@[j],
            decreases keys@.len() - i,
        {
            ids.push(SessionId(keys[i]));
            i = i + 1;
        }
        proof {
            assert forall|id: SessionId| #[trigger] ids@.contains(id) <==> self.sessions().contains_key(
                id.0,
            ) by {
                if ids@.contains(id) {
                    let j = choose|j: int| 0 <= j < ids@.len() && ids@[j] == id;
                    assert(keys@[j] == id.0);
                    assert(keys@.to_set().contains(id.0));
                }
                if self.sessions().contains_key(id.0) {
                    assert(keys@.to_set().contains(id.0));
                    let j = choose|j: int| 0 <= j < keys@.len() && keys@[j] == id.0;
                    assert(ids@[j] == id);
                }
            }
        }
        ids
    }
}

/// A registered session is found, and after its removal it is gone together
/// with its permit; every other session stays as it was.
pub proof fn removing_undoes_registering<R, P>(
    sessions: Map<u128, R>,
    permits: Map<u128, P>,
    id: SessionId,
    runtime: R,
    permit: P,
)
    requires
        !sessions.contains_key(id.0),
        !permits.contains_key(id.0),
    ensures
        sessions.insert(id.0, runtime).remove(id.0) == sessions,
        permits.insert(id.0, permit).remove(id.0) == permits,
{
    assert(sessions.insert(id.0, runtime).remove(id.0) =~= sessions);
    assert(permits.insert(id.0, permit).remove(id.0) =~= permits);
}

} // verus!
