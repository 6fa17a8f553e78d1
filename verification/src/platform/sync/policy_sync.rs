//! Policy refresh: how a new policy answer changes the live tracking permission.
use vstd::prelude::*;

verus! {

/// Shortest policy refresh interval (seconds).
pub const MIN_POLICY_INTERVAL_SECONDS: u64 = 60;

/// Refresh interval: the configured one, at least 60 seconds.
pub fn policy_interval(configured: u64) -> (r: u64)
    ensures
        r == if configured >= MIN_POLICY_INTERVAL_SECONDS { configured } else { MIN_POLICY_INTERVAL_SECONDS },
{
    if configured >= MIN_POLICY_INTERVAL_SECONDS { configured } else { MIN_POLICY_INTERVAL_SECONDS }
}

/// Tracking stays on only when both the user and the policy allow it.
pub fn merged_can_track(user_can_track: bool, policy_can_track: bool) -> (r: bool)
    ensures
        r == (user_can_track && policy_can_track),
{
    user_can_track && policy_can_track
}

/// The policy version moved (logged as a change).
pub fn policy_changed(previous_version: i64, new_version: i64) -> (r: bool)
    ensures
        r == (previous_version != new_version),
{
    previous_version != new_version
}

} // verus!
