use harness_runtime::cancellation::SessionCancellation;
use harness_runtime::tables::TokenTable;

#[test]
fn new_token_is_not_cancelled() {
    let sc = SessionCancellation::new();
    assert!(!sc.is_cancelled());
}

#[test]
fn cancel_triggers_is_cancelled() {
    let mut sc = SessionCancellation::new();
    sc.cancel();
    assert!(sc.is_cancelled());
}

#[test]
fn child_token_cascades_cancellation() {
    let mut root = SessionCancellation::new();
    let child = root.child_token();
    let grandchild = child.child_token();

    assert!(!child.is_cancelled());
    assert!(!grandchild.is_cancelled());

    root.cancel();

    assert!(child.is_cancelled());
    assert!(grandchild.is_cancelled());
}

#[test]
fn cancel_is_idempotent() {
    let mut sc = SessionCancellation::new();
    sc.cancel();
    sc.cancel();
    assert!(sc.is_cancelled());
}

#[test]
fn default_is_uncancelled() {
    let sc = SessionCancellation::default();
    assert!(!sc.is_cancelled());
}

#[test]
fn a_clone_refers_to_the_same_root() {
    let mut sc = SessionCancellation::new();
    let other = sc.clone();
    let child = other.child_token();
    sc.cancel();
    assert!(other.is_cancelled());
    assert!(child.is_cancelled());
}

#[test]
fn a_session_sees_that_its_tokens_are_cancelled() {
    let mut sc = SessionCancellation::new();
    let child = sc.child_token();
    let stranger = SessionCancellation::new().child_token();
    assert!(!sc.has_cancelled(&child));
    sc.cancel();
    assert!(sc.has_cancelled(&child));
    assert!(!sc.has_cancelled(&stranger));
}

#[test]
fn a_child_of_a_cancelled_session_starts_cancelled() {
    let mut sc = SessionCancellation::new();
    sc.cancel();
    assert!(sc.child_token().is_cancelled());
}

#[test]
fn cancelling_a_child_leaves_the_session_alone() {
    let sc = SessionCancellation::new();
    let child = sc.child_token();
    child.cancel();
    assert!(sc.has_cancelled(&child));
    assert!(!sc.is_cancelled());
}

#[test]
fn a_table_cancels_what_is_filed_and_nothing_else() {
    let sc = SessionCancellation::new();
    let first = sc.child_token();
    let second = sc.child_token();
    let third = sc.child_token();
    let mut table = TokenTable::new();
    table.insert(1, first.clone());
    table.insert(2, second.clone());
    assert!(table.cancel(9).is_none());
    let cancelled = table.cancel(1).expect("work is in flight");
    assert!(cancelled.is_cancelled());
    assert!(first.is_cancelled());
    assert!(!second.is_cancelled());
    assert!(table.cancel(1).is_none());
    table.insert(3, third.clone());
    assert_eq!(table.cancel_all().len(), 2);
    assert!(second.is_cancelled());
    assert!(third.is_cancelled());
    assert_eq!(table.cancel_all().len(), 0);
}
