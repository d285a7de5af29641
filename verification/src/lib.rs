//! Transport core of a device-to-device file sharing system: the framed
//! binary packet protocol, fingerprint pinning, and the state machines that
//! drive a connection, its router, its file transfers and its sessions.

pub mod binary;
pub mod client;
pub mod config;
pub mod connection;
pub mod device;
pub mod digest;
pub mod error;
pub mod ids;
pub mod key;
pub mod listing;
pub mod manager;
pub mod protocol;
pub mod registry;
pub mod router;
pub mod search;
pub mod sender;
pub mod server;
pub mod session;
pub mod text;
pub mod tls;
pub mod transfer;
