//! Node bring-up and protocol dispatch for a peer-to-peer folder synchronisation daemon:
//! the configuration document and the identity it carries, and the supervision of the
//! endpoint and its three protocol handlers.

pub mod config;
pub mod document;
pub mod error;
pub mod identity;
pub mod node;
pub mod router;

pub use config::SyncifyConfig;
pub use node::Syncify;
