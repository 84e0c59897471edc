//! Verified core of the Lore server: the hook subsystem (hook points,
//! errors, contexts, the factory registry and the dispatcher's decisions),
//! the revision-list paging walk, and request validation rules.
pub mod environment;
pub mod external;
pub mod hooks;
pub mod legacy_revision_list;
pub mod notification;
pub mod outcomes;
pub mod replication;
pub mod response_trace;
pub mod revision_info;
pub mod revision_list;
pub mod state_history;
pub mod status;
pub mod storage;
pub mod validation;
