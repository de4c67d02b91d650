//! The server engine's decisions: configuration, client-id assignment, and
//! connection-capacity admission.
//!
//! The accept loop itself — sockets, tasks, timers, the shutdown signal —
//! runs outside the library and consults these functions at each step.

use vstd::prelude::*;

verus! {

/// Server tuning; timeouts are in seconds, `0` or `None` disables one.
#[derive(Clone, Debug)]
pub struct ServerConfig {
    pub max_connections: usize,
    pub handshake_timeout_secs: u64,
    pub idle_timeout_secs: Option<u64>,
    pub reject_when_full: bool,
    pub tcp_keepalive_secs: Option<u64>,
}

impl ServerConfig {
    pub fn builder() -> (r: ServerConfigBuilder)
        ensures
            r.max_connections is None,
            r.handshake_timeout_secs is None,
            r.idle_timeout_secs is None,
            r.reject_when_full is None,
            r.tcp_keepalive_secs is None,
    {
        ServerConfigBuilder {
            max_connections: None,
            handshake_timeout_secs: None,
            idle_timeout_secs: None,
            reject_when_full: None,
            tcp_keepalive_secs: None,
        }
    }
}

impl Default for ServerConfig {
    /// 1024 connections, 10 s handshake limit, 300 s idle limit, reject
    /// when full, 60 s keepalive.
    fn default() -> (r: ServerConfig)
        ensures
            r.max_connections == 1024,
            r.handshake_timeout_secs == 10,
            r.idle_timeout_secs == Some(300u64),
            r.reject_when_full == true,
            r.tcp_keepalive_secs == Some(60u64),
    {
        ServerConfig {
            max_connections: 1024,
            handshake_timeout_secs: 10,
            idle_timeout_secs: Some(300),
            reject_when_full: true,
            tcp_keepalive_secs: Some(60),
        }
    }
}

/// Collects overrides; `build` fills the rest from the defaults.
pub struct ServerConfigBuilder {
    pub max_connections: Option<usize>,
    pub handshake_timeout_secs: Option<u64>,
    pub idle_timeout_secs: Option<u64>,
    pub reject_when_full: Option<bool>,
    pub tcp_keepalive_secs: Option<u64>,
}

impl ServerConfigBuilder {
    pub fn max_connections(self, max: usize) -> (r: ServerConfigBuilder)
        ensures
            r.max_connections == Some(max),
            r.handshake_timeout_secs == self.handshake_timeout_secs,
            r.idle_timeout_secs == self.idle_timeout_secs,
            r.reject_when_full == self.reject_when_full,
            r.tcp_keepalive_secs == self.tcp_keepalive_secs,
    {
        ServerConfigBuilder { max_connections: Some(max), ..self }
    }

    pub fn handshake_timeout(self, timeout_secs: u64) -> (r: ServerConfigBuilder)
        ensures
            r.handshake_timeout_secs == Some(timeout_secs),
            r.max_connections == self.max_connections,
            r.idle_timeout_secs == self.idle_timeout_secs,
            r.reject_when_full == self.reject_when_full,
            r.tcp_keepalive_secs == self.tcp_keepalive_secs,
    {
        ServerConfigBuilder { handshake_timeout_secs: Some(timeout_secs), ..self }
    }

    pub fn idle_timeout(self, timeout_secs: Option<u64>) -> (r: ServerConfigBuilder)
        ensures
            r.idle_timeout_secs == Some(
                match timeout_secs {
                    Some(t) => t,
                    None => 0u64,
                },
            ),
            r.max_connections == self.max_connections,
            r.handshake_timeout_secs == self.handshake_timeout_secs,
            r.reject_when_full == self.reject_when_full,
            r.tcp_keepalive_secs == self.tcp_keepalive_secs,
    {
        let t = match timeout_secs {
            Some(t) => t,
            None => 0,
        };
        ServerConfigBuilder { idle_timeout_secs: Some(t), ..self }
    }

    pub fn reject_when_full(self, reject: bool) -> (r: ServerConfigBuilder)
        ensures
            r.reject_when_full == Some(reject),
            r.max_connections == self.max_connections,
            r.handshake_timeout_secs == self.handshake_timeout_secs,
            r.idle_timeout_secs == self.idle_timeout_secs,
            r.tcp_keepalive_secs == self.tcp_keepalive_secs,
    {
        ServerConfigBuilder { reject_when_full: Some(reject), ..self }
    }

    pub fn tcp_keepalive(self, keepalive_secs: Option<u64>) -> (r: ServerConfigBuilder)
        ensures
            r.tcp_keepalive_secs == Some(
                match keepalive_secs {
                    Some(t) => t,
                    None => 0u64,
                },
            ),
            r.max_connections == self.max_connections,
            r.handshake_timeout_secs == self.handshake_timeout_secs,
            r.idle_timeout_secs == self.idle_timeout_secs,
            r.reject_when_full == self.reject_when_full,
    {
        let t = match keepalive_secs {
            Some(t) => t,
            None => 0,
        };
        ServerConfigBuilder { tcp_keepalive_secs: Some(t), ..self }
    }

    /// The finished configuration: overrides where given, defaults
    /// elsewhere.
    pub fn build(self) -> (r: ServerConfig)
        ensures
            r.max_connections == match self.max_connections {
                Some(m) => m,
                None => 1024usize,
            },
            r.handshake_timeout_secs == match self.handshake_timeout_secs {
                Some(t) => t,
                None => 10u64,
            },
            r.idle_timeout_secs == match self.idle_timeout_secs {
                Some(t) => Some(t),
                None => Some(300u64),
            },
            r.reject_when_full == match self.reject_when_full {
                Some(b) => b,
                None => true,
            },
            r.tcp_keepalive_secs == match self.tcp_keepalive_secs {
                Some(t) => Some(t),
                None => Some(60u64),
            },
    {
        ServerConfig {
            max_connections: match self.max_connections {
                Some(m) => m,
                None => 1024,
            },
            handshake_timeout_secs: match self.handshake_timeout_secs {
                Some(t) => t,
                None => 10,
            },
            idle_timeout_secs: match self.idle_timeout_secs {
                Some(t) => Some(t),
                None => Some(300),
            },
            reject_when_full: match self.reject_when_full {
                Some(b) => b,
                None => true,
            },
            tcp_keepalive_secs: match self.tcp_keepalive_secs {
                Some(t) => Some(t),
                None => Some(60),
            },
        }
    }
}

/// What the acceptor does with a new connection at the current load.
#[derive(Clone, Copy, Debug, PartialEq, Eq, Structural)]
pub enum AdmitDecision {
    /// A slot is free: take it.
    Accept,
    /// Full, and configured to reject: drop the socket.
    Reject,
    /// Full, and configured to queue: wait for a slot to free.
    Wait,
}

/// The monotonic counters of a running server: the next client id and the
/// number of sessions currently holding a capacity slot.
pub struct ServerState {
    pub next_id: u64,
    pub active: usize,
}

/// Capacity is never exceeded.
pub open spec fn spec_server_state_wf(s: ServerState, config: ServerConfig) -> bool {
    s.active <= config.max_connections
}

impl ServerState {
    /// A fresh server: ids start at 1, no sessions.
    pub fn new() -> (r: ServerState)
        ensures
            r.next_id == 1,
            r.active == 0,
    {
        ServerState { next_id: 1, active: 0 }
    }

    /// The admission rule: a free slot admits; a full house drops or
    /// queues according to `reject_when_full`.
    pub fn admission(&self, config: &ServerConfig) -> (r: AdmitDecision)
        ensures
            self.active < config.max_connections <==> r == AdmitDecision::Accept,
            self.active >= config.max_connections && config.reject_when_full <==> r
                == AdmitDecision::Reject,
            self.active >= config.max_connections && !config.reject_when_full <==> r
                == AdmitDecision::Wait,
    {
        if self.active < config.max_connections {
            AdmitDecision::Accept
        } else if config.reject_when_full {
            AdmitDecision::Reject
        } else {
            AdmitDecision::Wait
        }
    }

    /// Takes a capacity slot and assigns the next client id; ids are
    /// strictly increasing, so no two sessions ever share one.
    pub fn register_connection(&mut self, config: &ServerConfig) -> (r: u64)
        requires
            old(self).active < config.max_connections,
            old(self).next_id < u64::MAX,
        ensures
            r == old(self).next_id,
            final(self).next_id == old(self).next_id + 1,
            final(self).active == old(self).active + 1,
            spec_server_state_wf(*final(self), *config),
    {
        let id = self.next_id;
        self.next_id = self.next_id + 1;
        self.active = self.active + 1;
        id
    }

    /// Releases a capacity slot when a connection task ends.
    pub fn release_connection(&mut self)
        ensures
            final(self).active == if old(self).active > 0 {
                (old(self).active - 1) as usize
            } else {
                0usize
            },
            final(self).next_id == old(self).next_id,
    {
        if self.active > 0 {
            self.active = self.active - 1;
        }
    }
}

} // verus!
