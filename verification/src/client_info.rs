//! Per-session metadata kept by the server.
//!
//! Times are seconds since an epoch the caller chooses; the clock itself
//! lives outside the library and hands its readings in.

use vstd::prelude::*;
use crate::file_ops::SEP;

verus! {

pub type ClientId = u64;

/// One connected client's bookkeeping entry.
#[derive(Clone, Debug)]
pub struct ClientInfo {
    pub id: ClientId,
    pub addr: String,
    pub current_dir: Vec<u8>,
    pub connected_at: u64,
    pub last_activity: u64,
}

impl ClientInfo {
    /// A fresh session record: current directory at the root, both
    /// timestamps at the accept time.
    pub fn new(id: ClientId, addr: String, now: u64) -> (r: ClientInfo)
        ensures
            r.id == id,
            r.addr@ == addr@,
            r.current_dir@ == seq![SEP],
            r.connected_at == now,
            r.last_activity == now,
    {
        let mut root: Vec<u8> = Vec::new();
        root.push(SEP);
        proof {
            assert(root@ =~= seq![SEP]);
        }
        ClientInfo { id, addr, current_dir: root, connected_at: now, last_activity: now }
    }

    /// Advances the activity clock to the given reading.
    pub fn update_activity(&mut self, now: u64)
        ensures
            final(self).last_activity == now,
            final(self).id == old(self).id,
            final(self).addr@ == old(self).addr@,
            final(self).current_dir@ == old(self).current_dir@,
            final(self).connected_at == old(self).connected_at,
    {
        self.last_activity = now;
    }

    /// Seconds since the last received request, zero if the clock reading
    /// is older than the last activity.
    pub fn idle_duration(&self, now: u64) -> (r: u64)
        ensures
            r == if now >= self.last_activity {
                now - self.last_activity
            } else {
                0
            },
    {
        if now >= self.last_activity {
            now - self.last_activity
        } else {
            0
        }
    }

    /// Seconds since the connection was accepted, zero for an older
    /// clock reading.
    pub fn connection_duration(&self, now: u64) -> (r: u64)
        ensures
            r == if now >= self.connected_at {
                now - self.connected_at
            } else {
                0
            },
    {
        if now >= self.connected_at {
            now - self.connected_at
        } else {
            0
        }
    }

    /// Whether an idle limit has run out: a session is expired once it has
    /// been quiet for more than the limit; a limit of zero never expires.
    pub fn idle_expired(&self, now: u64, idle_timeout: u64) -> (r: bool)
        ensures
            r == (idle_timeout > 0 && now >= self.last_activity && now - self.last_activity
                > idle_timeout),
    {
        idle_timeout > 0 && now >= self.last_activity && now - self.last_activity > idle_timeout
    }
}

} // verus!
