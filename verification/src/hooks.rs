//! Hooks: code run at fixed points of the server's operations.
pub mod traits;
pub mod context;
pub mod registry;
pub mod dispatch;
