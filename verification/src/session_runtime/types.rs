//! Session-level values: status, commands, errors and snapshots.

use std::collections::HashMap;

use vstd::prelude::*;

use crate::agent::{Agent, ExecutionParams, UserInput};
use crate::ids::{AgentId, SessionId};
use crate::protocol::SpawnAgentSpec;
use crate::text::{concat2, concat3};

verus! {

/// The high-level status of a session.
#[derive(Clone, Copy, Debug, PartialEq, Eq, Structural)]
pub enum SessionStatus {
    /// Ready to accept commands.
    Idle,
    /// A run is in progress.
    Running,
    /// The last run completed successfully.
    Completed,
    /// The session was cancelled.
    Cancelled,
    /// The root task died or met an unrecoverable error.
    Failed,
}

/// A command that drives a session.
#[derive(Debug)]
pub enum SessionCommand {
    /// Start a run with the given input.
    Prompt(UserInput),
    /// Spawn a child of the root agent.
    SpawnChild(SpawnAgentSpec),
    /// Cancel the entire session.
    Cancel,
    /// Pause the session.
    Pause,
    /// Resume a paused session.
    Resume,
    /// Change the root agent's default execution settings.
    ConfigureExecution(ExecutionParams),
}

/// Errors of session operations.
#[derive(Debug)]
pub enum SessionError {
    SessionNotFound,
    InvalidState { expected: String, actual: String },
    Cancelled,
    ChannelClosed,
}

impl SessionError {
    /// The message shown to a caller.
    pub open spec fn message_view(self) -> Seq<char> {
        match self {
            SessionError::SessionNotFound => "session not found"@,
            SessionError::InvalidState { expected, actual } => "invalid state: expected "@
                + expected@ + ", actual "@ + actual@,
            SessionError::Cancelled => "operation cancelled"@,
            SessionError::ChannelClosed => "command channel closed"@,
        }
    }

    /// The message shown to a caller.
    pub fn message(&self) -> (r: String)
        ensures
            r@ == self.message_view(),
    {
        match self {
            SessionError::SessionNotFound => "session not found".to_owned(),
            SessionError::InvalidState { expected, actual } => concat2(
                concat3("invalid state: expected ", expected.as_str(), ", actual ").as_str(),
                actual.as_str(),
            ),
            SessionError::Cancelled => "operation cancelled".to_owned(),
            SessionError::ChannelClosed => "command channel closed".to_owned(),
        }
    }
}

/// A lightweight view of a session at a point in time.
#[derive(Debug)]
pub struct SessionSnapshot {
    pub session_id: SessionId,
    pub status: SessionStatus,
    pub root_agent_id: AgentId,
    pub agent_count: usize,
    /// What went wrong, if anything did.
    pub error: Option<String>,
}

/// The state of a session.
#[derive(Debug)]
pub struct SessionState {
    /// All agents of the session, by identifier.
    pub agents: HashMap<u128, Agent>,
    pub root_agent_id: AgentId,
    pub status: SessionStatus,
    /// What went wrong, where the session failed.
    pub error: Option<String>,
}

} // verus!
