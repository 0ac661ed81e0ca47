//! Session lifecycle management, tracking of active sessions, and restore.

pub mod contracts;
pub mod errors;
pub mod manager;
pub mod registry;
pub mod restorer;
pub mod supervisor;

pub use contracts::{SessionLifecycle, SessionRegistry, SessionRestorer, SessionService};
pub use errors::SessionManagerError;
pub use manager::SessionManager;
pub use registry::ActiveSessionRegistry;
pub use restorer::backend_reference_key;
pub use supervisor::SessionSupervisor;
