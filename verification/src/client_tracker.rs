//! Track active D-Bus clients and choose between the active and idle
//! polling intervals.
//!
//! When at least one client is connected, the engine uses the faster
//! `active_poll_ms` interval. When all clients disconnect, a grace period
//! (`idle_timeout`) prevents oscillation before switching to the slower
//! `idle_poll_ms` interval. Times are milliseconds on a monotonic clock
//! that the caller reads.
use vstd::prelude::*;

verus! {

/// Tracks D-Bus client connections and determines polling mode.
pub struct ClientTracker {
    active_clients: usize,
    idle_timeout_ms: u64,
    /// When the last client disconnected; `None` while clients are
    /// connected or before any disconnected.
    last_disconnect_ms: Option<u64>,
}

impl ClientTracker {
    /// The number of connected clients.
    pub closed spec fn count(&self) -> nat {
        self.active_clients as nat
    }

    /// The grace period after the last disconnect, in milliseconds.
    pub closed spec fn timeout(&self) -> u64 {
        self.idle_timeout_ms
    }

    /// When the last client disconnected, if the grace period is running.
    pub closed spec fn disconnected_at(&self) -> Option<u64> {
        self.last_disconnect_ms
    }

    /// Whether the tracker is in active mode at time `now`: clients are
    /// connected, or the last one disconnected less than the grace period
    /// ago.
    pub open spec fn active_at(&self, now: u64) -> bool {
        self.count() > 0 || (match self.disconnected_at() {
            Some(t) => (if now >= t {
                now - t
            } else {
                0
            }) < self.timeout(),
            None => false,
        })
    }

    /// A tracker without clients.
    pub fn new(idle_timeout_ms: u64) -> (r: Self)
        ensures
            r.count() == 0,
            r.timeout() == idle_timeout_ms,
            r.disconnected_at() is None,
    {
        ClientTracker { active_clients: 0, idle_timeout_ms, last_disconnect_ms: None }
    }

    /// A D-Bus client connected — switch to active immediately.
    /// (The count wraps around like the atomic counter it models.)
    pub fn on_client_connected(&mut self)
        ensures
            final(self).count() == (if old(self).count() == usize::MAX {
                0
            } else {
                old(self).count() + 1
            }),
            final(self).disconnected_at() is None,
            final(self).timeout() == old(self).timeout(),
    {
        self.active_clients = if self.active_clients == usize::MAX {
            0
        } else {
            self.active_clients + 1
        };
        self.last_disconnect_ms = None;
    }

    /// A D-Bus client disconnected at time `now` — start the grace period
    /// if no clients remain. Without connected clients this does nothing.
    pub fn on_client_disconnected(&mut self, now: u64)
        ensures
            old(self).count() == 0 ==> final(self).count() == 0 && final(self).disconnected_at()
                == old(self).disconnected_at(),
            old(self).count() > 0 ==> final(self).count() == old(self).count() - 1,
            old(self).count() == 1 ==> final(self).disconnected_at() == Some(now),
            old(self).count() > 1 ==> final(self).disconnected_at() == old(self).disconnected_at(),
            final(self).timeout() == old(self).timeout(),
    {
        let prev = self.active_clients;
        if prev == 0 {
            return;
        }
        self.active_clients = prev - 1;
        if prev == 1 {
            self.last_disconnect_ms = Some(now);
        }
    }

    /// Whether any clients are currently connected.
    pub fn has_active_clients(&self) -> (r: bool)
        ensures
            r == (self.count() > 0),
    {
        self.active_clients > 0
    }

    /// Whether the tracker is in active mode at time `now` (clients
    /// connected, or still within the grace period after the last
    /// disconnect).
    pub fn is_active(&self, now: u64) -> (r: bool)
        ensures
            r == self.active_at(now),
    {
        if self.active_clients > 0 {
            return true;
        }
        match self.last_disconnect_ms {
            Some(t) => {
                let elapsed = if now >= t {
                    now - t
                } else {
                    0
                };
                elapsed < self.idle_timeout_ms
            },
            None => false,
        }
    }

    /// The poll interval at time `now`: `active_ms` in active mode,
    /// `idle_ms` otherwise.
    pub fn poll_interval_ms(&self, now: u64, active_ms: u64, idle_ms: u64) -> (r: u64)
        ensures
            r == (if self.active_at(now) {
                active_ms
            } else {
                idle_ms
            }),
    {
        if self.is_active(now) {
            active_ms
        } else {
            idle_ms
        }
    }

    /// Current number of active clients.
    pub fn client_count(&self) -> (r: usize)
        ensures
            r == self.count(),
    {
        self.active_clients
    }
}

/// Law: while a client is connected, the tracker is active at every time.
pub proof fn law_connected_is_active(t: ClientTracker, now: u64)
    requires
        t.count() > 0,
    ensures
        t.active_at(now),
{
}

/// Law: once the grace period after the last disconnect has passed, the
/// tracker is idle; before that it is active.
pub proof fn law_grace_period(t: ClientTracker, disconnect: u64, now: u64)
    requires
        t.count() == 0,
        t.disconnected_at() == Some(disconnect),
        disconnect <= now,
    ensures
        t.active_at(now) <==> now - disconnect < t.timeout(),
{
}

} // verus!
