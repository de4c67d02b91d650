//! Where the client connects: the server's address and port.
//!
//! The live connection itself — sockets, the handshake exchange, the
//! request/response loop — runs with the binary that owns the terminal.

use vstd::prelude::*;
use vstd::string::{StringExecFns, StringSliceAdditionalSpecFns};
use crate::text::{spec_dec_chars, u64_to_dec_string};

verus! {

/// The server's address and port as the user entered them.
#[derive(Clone, Debug)]
pub struct ServerInfo {
    pub address: String,
    pub port: u16,
}

impl ServerInfo {
    pub fn new(address: String, port: u16) -> (r: ServerInfo)
        ensures
            r.address@ == address@,
            r.port == port,
    {
        ServerInfo { address, port }
    }

    /// The `address:port` form a socket connect call takes.
    pub fn to_socket_addr(&self) -> (r: String)
        ensures
            r@ == self.address@ + ":"@ + spec_dec_chars(self.port as nat),
    {
        let mut out = self.address.clone();
        out.append(":");
        out.append(u64_to_dec_string(self.port as u64).as_str());
        out
    }
}

} // verus!
