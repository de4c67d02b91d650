//! Fenris: a client/server system for manipulating files over an
//! authenticated, encrypted, length-framed channel.
//!
//! The library holds the verified core: the wire protocol, the crypto and
//! compression plumbing around their outside providers, the secure channel,
//! the path sandbox, the request handler, and the pure decision logic of the
//! server engine.  Socket and filesystem I/O live with the binaries that use
//! the library.

pub mod app;
pub mod client_info;
pub mod compression;
pub mod config;
pub mod connection;
pub mod connection_manager;
pub mod crypto;
pub mod error;
pub mod file_ops;
pub mod network;
pub mod proto;
pub mod request_handler;
pub mod request_manager;
pub mod response_manager;
pub mod secure_channel;
pub mod server;
pub mod text;
