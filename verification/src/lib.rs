//! Verified core of an agent-harness runtime: scheduling, supervision,
//! sessions, permissions and workspaces as plain state machines.

pub mod agent;
pub mod agent_runner;
pub mod agent_supervisor;
pub mod budget;
pub mod cancellation;
pub mod ids;
pub mod integration;
pub mod json;
pub mod laws;
pub mod outside;
pub mod paths;
pub mod permissions;
pub mod protocol;
pub mod resource_manager;
pub mod restore;
pub mod scheduler;
pub mod session_client;
pub mod session_manager;
pub mod session_runtime;
pub mod sorting;
pub mod spawn_tool;
pub mod tables;
pub mod text;
pub mod tools;
pub mod traits;
pub mod workspace;
