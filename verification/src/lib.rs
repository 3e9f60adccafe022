//! Identities for authenticating against a network service, and requests that
//! are signed now and sent later.
//!
//! Nothing here touches the file system, the environment or the network. The
//! functions take what their caller found there and return what to do there.

pub mod canister;
pub mod configuration;
pub mod error;
pub mod first_run;
pub mod hex_text;
pub mod identity;
pub mod identity_laws;
pub mod identity_manager;
pub mod key_file;
pub mod keys;
pub mod layout;
pub mod paths;
pub mod plan;
pub mod replica_config;
pub mod sign_transport;
pub mod signed_message;
pub mod text;
