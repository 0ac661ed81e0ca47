//! Laws of named resources.

use vstd::prelude::*;

use crate::ids::SessionId;
use crate::paths::paths_equal;
use crate::resource_manager::{
    self, AccessMode, KeyView, ResourceError, ResourceKey, ResourceManager,
};
use crate::text;

verus! {

/// A resource is obtained exactly when no session holds it exclusively and,
/// for a session that wants it alone, when nobody holds it at all. Then the
/// session holds it, and whoever held it before still does; no other resource
/// changes hands. A refusal names the resource and changes nothing.
pub proof fn a_resource_is_held_by_many_or_by_one(
    manager: &mut ResourceManager,
    key: ResourceKey,
    mode: AccessMode,
    holder: SessionId,
    r: Result<(), ResourceError>,
    other: KeyView,
)
    requires
        old(manager).wf(),
        call_ensures(ResourceManager::acquire, (manager, key, mode, holder), r),
    ensures
        ({
            let before = old(manager).holders(key@);
            let after = final(manager).holders(key@);
            &&& r is Ok <==> before.exclusive is None && (mode == AccessMode::Shared
                || before.shared.len() == 0)
            &&& r is Err ==> r->Err_0 == ResourceError::ExclusivelyHeld(key) && after == before
            &&& r is Ok && mode == AccessMode::Exclusive ==> after.exclusive == Some(holder)
                && after.shared == before.shared
            &&& r is Ok && mode == AccessMode::Shared ==> after.exclusive is None && after.shared
                == before.shared.push(holder)
            &&& after.exclusive is Some ==> after.shared.len() == 0
        }),
        other != key@ ==> final(manager).holders(other) == old(manager).holders(other),
{
}

proof fn those_left_behind(sessions: Seq<SessionId>, holder: SessionId)
    ensures
        forall|other: SessionId| #[trigger]
            resource_manager::without(sessions, holder).contains(other) <==> sessions.contains(
                other,
            ) && other != holder,
        resource_manager::without(sessions, holder).len() <= sessions.len(),
        !sessions.contains(holder) ==> resource_manager::without(sessions, holder) == sessions,
        resource_manager::without(sessions, holder) == sessions.filter(
            |session: SessionId| session != holder,
        ),
    decreases sessions.len(),
{
    reveal(Seq::filter);
    let left = resource_manager::without(sessions, holder);
    if sessions.len() > 0 {
        let rest = sessions.drop_last();
        let before = resource_manager::without(rest, holder);
        those_left_behind(rest, holder);
        assert forall|other: SessionId| #[trigger] left.contains(other)
            <==> sessions.contains(other)
            && other != holder by {
            if left.contains(other) {
                let k = choose|k: int| 0 <= k < left.len() && left[k] == other;
                if k < before.len() {
                    assert(before[k] == other);
                    assert(before.contains(other));
                    let m = choose|m: int| 0 <= m < rest.len() && rest[m] == other;
                    assert(sessions[m] == other);
                } else {
                    assert(sessions[sessions.len() - 1] == other);
                }
            }
            if sessions.contains(other) && other != holder {
                let m = choose|m: int| 0 <= m < sessions.len() && sessions[m] == other;
                if m < rest.len() {
                    assert(rest[m] == other);
                    assert(before.contains(other));
                    let k = choose|k: int| 0 <= k < before.len() && before[k] == other;
                    assert(left[k] == other);
                } else {
                    assert(left[left.len() - 1] == other);
                }
            }
        }
        if !sessions.contains(holder) {
            assert(sessions[sessions.len() - 1] == sessions.last());
            assert(!rest.contains(holder)) by {
                if rest.contains(holder) {
                    let m = choose|m: int| 0 <= m < rest.len() && rest[m] == holder;
                    assert(sessions[m] == holder);
                }
            }
            assert(rest.push(sessions.last()) =~= sessions);
        }
    } else {
        assert(left =~= sessions);
    }
}

/// A session that releases a resource no longer holds it in any way, and every
/// other session holds it as before; no other resource is touched. Where the
/// session did not hold it, nothing changes.
pub proof fn a_release_is_complete(
    manager: &mut ResourceManager,
    key: &ResourceKey,
    holder: SessionId,
    other: SessionId,
    elsewhere: KeyView,
)
    requires
        old(manager).wf(),
        call_ensures(ResourceManager::release, (manager, key, holder), ()),
    ensures
        ({
            let before = old(manager).holders(key@);
            let after = final(manager).holders(key@);
            &&& !after.shared.contains(holder)
            &&& after.shared == before.shared.filter(|session: SessionId| session != holder)
            &&& after.exclusive != Some(holder)
            &&& other != holder ==> (after.shared.contains(other) <==> before.shared.contains(
                other,
            ))
            &&& other != holder ==> (after.exclusive == Some(other) <==> before.exclusive == Some(
                other,
            ))
            &&& after.exclusive is Some ==> after.exclusive == before.exclusive
            &&& !before.shared.contains(holder) && before.exclusive != Some(holder) ==> after
                == before
        }),
        elsewhere != key@ ==> final(manager).holders(elsewhere) == old(manager).holders(elsewhere),
{
    those_left_behind(old(manager).holders(key@).shared, holder);
}

/// Acquiring a resource and releasing it again leaves its holders as they
/// were, for a session that did not hold it before.
pub proof fn releasing_undoes_acquiring(
    acquired: &mut ResourceManager,
    key: ResourceKey,
    mode: AccessMode,
    holder: SessionId,
    r: Result<(), ResourceError>,
    released: &mut ResourceManager,
    any: KeyView,
)
    requires
        old(acquired).wf(),
        call_ensures(ResourceManager::acquire, (acquired, key, mode, holder), r),
        r is Ok,
        !old(acquired).holders(key@).shared.contains(holder),
        *old(released) == *final(acquired),
        call_ensures(ResourceManager::release, (released, &key, holder), ()),
    ensures
        final(released).holders(any) == old(acquired).holders(any),
{
    let before = old(acquired).holders(key@);
    resource_manager::release_undoes_acquire(before, mode, holder);
    assert(final(released).holders(key@) == before);
}

/// Nothing is held at first.
pub proof fn nothing_is_held_at_first(
    fresh: ResourceManager,
    default: ResourceManager,
    key: KeyView,
)
    requires
        call_ensures(ResourceManager::new, (), fresh),
        call_ensures(ResourceManager::default, (), default),
    ensures
        fresh.wf() && default.wf(),
        fresh.holders(key).exclusive is None && fresh.holders(key).shared.len() == 0,
        default.holders(key).exclusive is None && default.holders(key).shared.len() == 0,
{
}

/// Two keys are the same resource exactly when they are of one kind and of one
/// name; files and repositories go by their paths.
pub proof fn keys_are_the_same_by_kind_and_name(
    a: &ResourceKey,
    b: &ResourceKey,
    r: bool,
    left: &str,
    right: &str,
    same_path: bool,
)
    requires
        call_ensures(ResourceKey::same, (a, b), r),
        call_ensures(paths_equal, (left, right), same_path),
    ensures
        r ==> (a is File <==> b is File) && (a is GitRepository <==> b is GitRepository) && (a
            is Workspace <==> b is Workspace) && (a is Terminal <==> b is Terminal) && (a is Custom
            <==> b is Custom),
        a is File && b is File && a->File_0@ == left@ && b->File_0@ == right@ ==> r == same_path,
        a is GitRepository && b is GitRepository && a->GitRepository_0@ == left@
            && b->GitRepository_0@ == right@ ==> r == same_path,
        a is Workspace && b is Workspace ==> (r <==> a->Workspace_0@ == b->Workspace_0@),
        a is Terminal && b is Terminal ==> (r <==> a->Terminal_0@ == b->Terminal_0@),
        a is Custom && b is Custom ==> (r <==> a->Custom_0@ == b->Custom_0@),
{
}

/// A refusal says which resource is held.
pub proof fn a_refusal_says_which_resource_is_held(error: &ResourceError, r: String)
    requires
        call_ensures(ResourceError::message, (error,), r),
    ensures
        ({
            let key = error->ExclusivelyHeld_0;
            let held = " is exclusively held by another session"@;
            &&& key is File ==> r@ == "resource "@ + ("File("@ + text::debug_text(key->File_0@)
                + ")"@) + held
            &&& key is GitRepository ==> r@ == "resource "@ + ("GitRepository("@ + text::debug_text(
                key->GitRepository_0@,
            ) + ")"@) + held
            &&& key is Workspace ==> r@ == "resource "@ + ("Workspace("@ + text::debug_text(
                key->Workspace_0@,
            ) + ")"@) + held
            &&& key is Terminal ==> r@ == "resource "@ + ("Terminal("@ + text::debug_text(
                key->Terminal_0@,
            ) + ")"@) + held
            &&& key is Custom ==> r@ == "resource "@ + ("Custom("@ + text::debug_text(
                key->Custom_0@,
            ) + ")"@) + held
        }),
{
}

} // verus!
