//! Core of a sidecar that runs sandboxed filter modules for an HTTP proxy:
//! the wire protocol's data and decisions, the execution coordinator's rules
//! and the host ABI's logic, each stated and proved.

pub mod abi;
pub mod additional;
pub mod action;
pub mod connection;
pub mod entry;
pub mod guest;
pub mod handshake;
pub mod host;
pub mod list;
pub mod property;
pub mod proxy;
pub mod server;
pub mod stats;
pub mod store;
pub mod trace;
pub mod wire;
