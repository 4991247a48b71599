//! Liveness supervision of one connection.
use vstd::prelude::*;

verus! {

/// Milliseconds between two heartbeat ticks; each tick sends a ping.
pub const HEARTBEAT_INTERVAL_MS: u64 = 5000;

/// Milliseconds of silence after which a connection is considered dead.
pub const CLIENT_TIMEOUT_MS: u64 = 10000;

/// What a heartbeat tick asks the session to do.
#[derive(Debug, Clone, Copy, PartialEq, Eq, Structural)]
pub enum Tick {
    /// The peer is alive: send it a ping.
    SendPing,
    /// The peer has been silent too long: close the connection.
    TimedOut,
}

/// The liveness state of one connection: the time of its last sign of life.
#[derive(Debug, Clone, Copy, PartialEq, Eq, Structural)]
pub struct Heartbeat {
    /// Time (ms, monotonic clock) of the last ping or pong from the peer.
    pub last_beat_ms: u64,
}

/// Whether a connection last heard from at `last` is dead at time `now`.
pub open spec fn timed_out(last: u64, now: u64) -> bool {
    now > last + CLIENT_TIMEOUT_MS
}

/// With ticks every heartbeat interval from `start` on, a peer silent since `last` is
/// found dead by the first tick that comes after `last` plus the timeout, no earlier
/// tick closes it, and that tick comes at most one interval after the timeout passed.
pub proof fn lemma_silent_peer_closed_within_interval(last: u64, start: u64, k: nat)
    requires
        k >= 1,
        start + k * HEARTBEAT_INTERVAL_MS <= u64::MAX,
        start + (k - 1) * HEARTBEAT_INTERVAL_MS <= last + CLIENT_TIMEOUT_MS,
        start + k * HEARTBEAT_INTERVAL_MS > last + CLIENT_TIMEOUT_MS,
    ensures
        timed_out(last, (start + k * HEARTBEAT_INTERVAL_MS) as u64),
        start + k * HEARTBEAT_INTERVAL_MS <= last + CLIENT_TIMEOUT_MS + HEARTBEAT_INTERVAL_MS,
        forall|j: nat|
            j < k ==> !timed_out(last, #[trigger] (start + j * HEARTBEAT_INTERVAL_MS) as u64),
{
    assert forall|j: nat| j < k implies !timed_out(
        last,
        #[trigger] (start + j * HEARTBEAT_INTERVAL_MS) as u64,
    ) by {
        assert(j * HEARTBEAT_INTERVAL_MS <= (k - 1) * HEARTBEAT_INTERVAL_MS) by (nonlinear_arith)
            requires
                j <= k - 1,
        ;
    }
}

impl Heartbeat {
    /// Starts supervising a connection at `now`.
    pub fn new(now_ms: u64) -> (r: Heartbeat)
        ensures
            r.last_beat_ms == now_ms,
    {
        Heartbeat { last_beat_ms: now_ms }
    }

    /// Records a sign of life (a ping or a pong) at `now`.
    pub fn refresh(&mut self, now_ms: u64)
        ensures
            final(self).last_beat_ms == now_ms,
    {
        self.last_beat_ms = now_ms;
    }

    /// Decides what a tick at `now` does.
    pub fn tick(&self, now_ms: u64) -> (r: Tick)
        ensures
            r == (if timed_out(self.last_beat_ms, now_ms) { Tick::TimedOut } else { Tick::SendPing }),
    {
        if now_ms > self.last_beat_ms && now_ms - self.last_beat_ms > CLIENT_TIMEOUT_MS {
            Tick::TimedOut
        } else {
            Tick::SendPing
        }
    }
}

} // verus!
