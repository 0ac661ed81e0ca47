//! Identifiers of the entities that the runtime keeps track of.
//!
//! Every identifier is a 128-bit value, wide enough for a UUID. The two
//! identifiers that become part of a durable reference key are kept as text.

use vstd::prelude::*;

verus! {

/// Identifies one agent.
#[derive(Clone, Copy, Debug, PartialEq, Eq, Structural)]
pub struct AgentId(pub u128);

/// Identifies one session.
#[derive(Clone, Copy, Debug, PartialEq, Eq, Structural)]
pub struct SessionId(pub u128);

/// Identifies one run of an agent.
#[derive(Clone, Copy, Debug, PartialEq, Eq, Structural)]
pub struct RunId(pub u128);

/// Identifies one request to a backend.
#[derive(Clone, Copy, Debug, PartialEq, Eq, Structural)]
pub struct RequestId(pub u128);

/// Identifies one tool call.
#[derive(Clone, Copy, Debug, PartialEq, Eq, Structural)]
pub struct ToolCallId(pub u128);

/// Identifies one tool of a toolset.
#[derive(Clone, Copy, Debug, PartialEq, Eq, Structural)]
pub struct ToolId(pub u128);

/// Identifies one backend instance.
#[derive(Clone, Copy, Debug, PartialEq, Eq, Structural)]
pub struct BackendId(pub u128);

/// Identifies one pending permission request.
#[derive(Clone, Copy, Debug, PartialEq, Eq, Structural)]
pub struct PermissionId(pub u128);

/// Identifies one published event.
#[derive(Clone, Copy, Debug, PartialEq, Eq, Structural)]
pub struct EventId(pub u128);

} // verus!
