//! A runtime core for hot-swapping dynamically loaded modules: the path a
//! freshly built module is moved to, the steps that load it, the registry of
//! state that survives a reload, and the messages between runner and host.

pub mod artifact_path;
pub mod capability;
pub mod handle;
pub mod message;
pub mod reload;
