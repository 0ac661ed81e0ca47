//! Supervision of a session's root task.

use vstd::prelude::*;

verus! {

/// How a session's root task ended.
#[derive(Debug)]
pub enum RootTaskEnd {
    /// It returned.
    Returned,
    /// It panicked or was aborted.
    Died(String),
}

/// Watches the root task of an active session.
#[derive(Debug)]
pub struct SessionSupervisor;

impl SessionSupervisor {
    /// The error with which a session is marked as failed when its root task
    /// ends: only a task that died fails its session.
    pub fn supervise(end: RootTaskEnd) -> (r: Option<String>)
        ensures
            match end {
                RootTaskEnd::Returned => r is None,
                RootTaskEnd::Died(error) => r == Some(error),
            },
    {
        match end {
            RootTaskEnd::Returned => None,
            RootTaskEnd::Died(error) => Some(error),
        }
    }
}

} // verus!
