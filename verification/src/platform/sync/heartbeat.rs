//! Heartbeat: the next interval follows the server's answer within bounds.
use vstd::prelude::*;

verus! {

/// Shortest and longest heartbeat interval (seconds).
pub const MIN_HEARTBEAT_SECONDS: u64 = 30;
pub const MAX_HEARTBEAT_SECONDS: u64 = 1800;

pub open spec fn clamp(v: int, lo: int, hi: int) -> int {
    if v < lo {
        lo
    } else if v > hi {
        hi
    } else {
        v
    }
}

/// First interval: the configured one, at least 30 seconds.
pub fn initial_interval(configured: u64) -> (r: u64)
    ensures
        r == if configured >= MIN_HEARTBEAT_SECONDS { configured } else { MIN_HEARTBEAT_SECONDS },
{
    if configured >= MIN_HEARTBEAT_SECONDS { configured } else { MIN_HEARTBEAT_SECONDS }
}

/// Next interval from the server's suggestion, clamped to 30..=1800 seconds.
pub fn next_interval(suggested: u64) -> (r: u64)
    ensures
        r == clamp(suggested as int, MIN_HEARTBEAT_SECONDS as int, MAX_HEARTBEAT_SECONDS as int),
        MIN_HEARTBEAT_SECONDS <= r <= MAX_HEARTBEAT_SECONDS,
{
    if suggested < MIN_HEARTBEAT_SECONDS {
        MIN_HEARTBEAT_SECONDS
    } else if suggested > MAX_HEARTBEAT_SECONDS {
        MAX_HEARTBEAT_SECONDS
    } else {
        suggested
    }
}

/// A heartbeat is sent only with a session and while tracking is allowed.
pub fn should_send(has_session: bool, can_track_time: bool) -> (r: bool)
    ensures
        r == (has_session && can_track_time),
{
    has_session && can_track_time
}

/// What the server's heartbeat answer changes.
#[derive(Debug, Clone, Copy, PartialEq, Eq, Structural)]
pub struct HeartbeatOutcome {
    /// Interval until the next heartbeat.
    pub next_interval: u64,
    /// The server turned tracking off: tracking stops and the PC shows as offline.
    pub stop_tracking: bool,
    /// The server ends the session.
    pub logout: bool,
}

pub fn after_heartbeat(next_heartbeat_seconds: u64, can_track_time: bool, force_logout: bool) -> (r: HeartbeatOutcome)
    ensures
        r.next_interval == clamp(next_heartbeat_seconds as int, MIN_HEARTBEAT_SECONDS as int, MAX_HEARTBEAT_SECONDS as int),
        r.stop_tracking == !can_track_time,
        r.logout == force_logout,
{
    HeartbeatOutcome { next_interval: next_interval(next_heartbeat_seconds), stop_tracking: !can_track_time, logout: force_logout }
}

} // verus!
