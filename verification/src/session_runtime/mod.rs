//! Session runtime: session state, lifecycle, projections and event ordering.

pub mod construction;
pub mod event_bus;
pub mod live_state;
pub mod projection;
pub mod restoration;
pub mod runtime;
pub mod types;

pub use event_bus::SessionEventBus;
pub use live_state::{AgentLiveState, LiveStateTable};
pub use projection::AgentProjectionTable;
pub use runtime::SessionRuntime;
pub use types::{SessionCommand, SessionError, SessionSnapshot, SessionState, SessionStatus};
