use harness_runtime::ids::SessionId;
use harness_runtime::resource_manager::{AccessMode, ResourceError, ResourceKey, ResourceManager};

fn file(path: &str) -> ResourceKey {
    ResourceKey::File(path.to_string())
}

#[test]
fn shared_holders_get_along() {
    let mut mgr = ResourceManager::new();
    assert!(mgr.acquire(file("/tmp/data.json"), AccessMode::Shared, SessionId(1)).is_ok());
    assert!(mgr.acquire(file("/tmp/data.json"), AccessMode::Shared, SessionId(2)).is_ok());
    assert!(mgr.acquire(file("/tmp/data.json"), AccessMode::Exclusive, SessionId(3)).is_err());
}

#[test]
fn an_exclusive_holder_keeps_everyone_away() {
    let mut mgr = ResourceManager::default();
    assert!(mgr.acquire(file("/a"), AccessMode::Exclusive, SessionId(1)).is_ok());
    let shared = mgr.acquire(file("/a"), AccessMode::Shared, SessionId(2));
    let again = mgr.acquire(file("/a"), AccessMode::Exclusive, SessionId(1));
    assert!(matches!(shared, Err(ResourceError::ExclusivelyHeld(ResourceKey::File(p))) if p == "/a"));
    assert!(again.is_err());
    assert!(mgr.acquire(file("/b"), AccessMode::Exclusive, SessionId(2)).is_ok());
}

#[test]
fn releasing_makes_room() {
    let mut mgr = ResourceManager::new();
    mgr.acquire(file("/a"), AccessMode::Exclusive, SessionId(1)).expect("acquire");
    mgr.release(&file("/a"), SessionId(2));
    assert!(mgr.acquire(file("/a"), AccessMode::Shared, SessionId(2)).is_err());
    mgr.release(&file("/a"), SessionId(1));
    assert!(mgr.acquire(file("/a"), AccessMode::Shared, SessionId(2)).is_ok());
}

#[test]
fn one_release_ends_every_shared_hold_of_a_session() {
    let mut mgr = ResourceManager::new();
    mgr.acquire(file("/a"), AccessMode::Shared, SessionId(1)).expect("acquire");
    mgr.acquire(file("/a"), AccessMode::Shared, SessionId(1)).expect("acquire");
    mgr.release(&file("/a"), SessionId(1));
    assert!(mgr.acquire(file("/a"), AccessMode::Exclusive, SessionId(2)).is_ok());
}

#[test]
fn releasing_what_is_not_held_does_nothing() {
    let mut mgr = ResourceManager::new();
    mgr.release(&file("/a"), SessionId(1));
    assert!(mgr.acquire(file("/a"), AccessMode::Exclusive, SessionId(1)).is_ok());
}

#[test]
fn keys_of_different_kinds_are_different_resources() {
    let mut mgr = ResourceManager::new();
    let keys = vec![
        ResourceKey::File("x".to_string()),
        ResourceKey::GitRepository("x".to_string()),
        ResourceKey::Workspace("x".to_string()),
        ResourceKey::Terminal("x".to_string()),
        ResourceKey::Custom("x".to_string()),
    ];
    for key in keys {
        assert!(mgr.acquire(key.clone(), AccessMode::Exclusive, SessionId(1)).is_ok());
        assert!(mgr.acquire(key, AccessMode::Exclusive, SessionId(1)).is_err());
    }
}

#[test]
fn paths_identify_a_resource_by_component() {
    let mut mgr = ResourceManager::new();
    mgr.acquire(file("/a//b/"), AccessMode::Exclusive, SessionId(1)).expect("acquire");
    assert!(mgr.acquire(file("/a/./b"), AccessMode::Shared, SessionId(2)).is_err());
    let repo = |p: &str| ResourceKey::GitRepository(p.to_string());
    mgr.acquire(repo("r/"), AccessMode::Exclusive, SessionId(1)).expect("acquire");
    assert!(mgr.acquire(repo("r"), AccessMode::Shared, SessionId(2)).is_err());
    let custom = |p: &str| ResourceKey::Custom(p.to_string());
    mgr.acquire(custom("c/"), AccessMode::Exclusive, SessionId(1)).expect("acquire");
    assert!(mgr.acquire(custom("c"), AccessMode::Shared, SessionId(2)).is_ok());
}

#[test]
fn the_message_shows_the_key() {
    let error = ResourceError::ExclusivelyHeld(ResourceKey::Terminal("t\"1".to_string()));
    assert_eq!(
        error.message(),
        "resource Terminal(\"t\\\"1\") is exclusively held by another session"
    );
    let error = ResourceError::ExclusivelyHeld(ResourceKey::GitRepository("/r".to_string()));
    assert_eq!(
        error.message(),
        "resource GitRepository(\"/r\") is exclusively held by another session"
    );
}
