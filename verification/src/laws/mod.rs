//! What holds of the library as a whole.
//!
//! Every law is about calls: it takes the arguments and the result of one
//! call or of several, and says how they relate.

pub mod agents;
pub mod budgets;
pub mod capacity;
pub mod delegation;
pub mod hosts;
pub mod permissions;
pub mod rates;
pub mod requests;
pub mod resources;
pub mod runner;
pub mod sessions;
pub mod stored;
pub mod supervision;
pub mod texts;
pub mod workspaces;
