use vstd::prelude::*;

use crate::session::{AppState, SessionModel};

verus! {

/// Milliseconds between two checks of the keep-alive watchdog.
pub const KEEP_ALIVE_CHECK_MILLIS: u64 = 1000;

/// What the watchdog reads of the session at the start of a check.
#[derive(Clone, Copy, PartialEq, Eq, Structural)]
pub struct KeepAliveSnapshot {
    pub requested: bool,
    pub last_keep_alive: u64,
}

/// Seconds from `last` to `now`; none when the clock went back.
pub open spec fn seconds_since(last: u64, now: u64) -> nat {
    if now >= last {
        (now - last) as nat
    } else {
        0
    }
}

/// The session of the snapshot was requested and its client was silent for
/// at least `timeout` seconds by `now`.
pub open spec fn keep_alive_expired_spec(snap: KeepAliveSnapshot, now: u64, timeout: u64) -> bool {
    snap.requested && seconds_since(snap.last_keep_alive, now) >= timeout
}

impl SessionModel {
    pub open spec fn keep_alive_snapshot(self) -> KeepAliveSnapshot {
        KeepAliveSnapshot { requested: self.requested, last_keep_alive: self.last_keep_alive }
    }

    /// The state after a watchdog check: an expired session is no longer requested.
    pub open spec fn after_keep_alive_check(self, snap: KeepAliveSnapshot, now: u64, timeout: u64) -> SessionModel {
        if keep_alive_expired_spec(snap, now, timeout) {
            self.stopped()
        } else {
            self
        }
    }
}

/// Whether the watchdog stops the session of `snap` at `now`.
pub fn keep_alive_expired(snap: &KeepAliveSnapshot, now: u64, timeout: u64) -> (r: bool)
    ensures
        r == keep_alive_expired_spec(*snap, now, timeout),
{
    let elapsed: u64 = if now >= snap.last_keep_alive { now - snap.last_keep_alive } else { 0 };
    snap.requested && elapsed >= timeout
}

impl AppState {
    pub fn keep_alive_snapshot(&self) -> (r: KeepAliveSnapshot)
        ensures
            r == self@.keep_alive_snapshot(),
    {
        KeepAliveSnapshot { requested: self.requested, last_keep_alive: self.last_keep_alive }
    }

    /// One watchdog check, `snap` having been taken one interval before `now`:
    /// clears `requested` when the snapshot's session was requested and its
    /// client stayed silent for the configured timeout. Returns whether it did.
    pub fn check_keep_alive(&mut self, snap: &KeepAliveSnapshot, now: u64) -> (r: bool)
        ensures
            final(self).config == old(self).config,
            r == keep_alive_expired_spec(*snap, now, old(self).config.keep_alive_timeout_in_secs),
            final(self)@ == old(self)@.after_keep_alive_check(
                *snap,
                now,
                old(self).config.keep_alive_timeout_in_secs,
            ),
    {
        let expired = keep_alive_expired(snap, now, self.config.keep_alive_timeout_in_secs);
        if expired {
            self.requested = false;
        }
        expired
    }
}

/// A watchdog check whose snapshot shows a requested session without a
/// keep-alive for the timeout stops that session, whatever else happened to the
/// state since the snapshot, with no stop request.
pub proof fn lemma_silent_session_is_stopped(
    m: SessionModel,
    snap: KeepAliveSnapshot,
    now: u64,
    timeout: u64,
)
    requires
        snap.requested,
        now as int >= snap.last_keep_alive as int + timeout as int,
    ensures
        !m.after_keep_alive_check(snap, now, timeout).requested,
{
}

/// A check on a state whose client pinged within the timeout leaves it as it is.
pub proof fn lemma_fresh_session_is_kept(m: SessionModel, now: u64, timeout: u64)
    requires
        now as int >= m.last_keep_alive as int,
        (now as int) < m.last_keep_alive as int + timeout as int,
    ensures
        m.after_keep_alive_check(m.keep_alive_snapshot(), now, timeout) == m,
{
}

} // verus!
