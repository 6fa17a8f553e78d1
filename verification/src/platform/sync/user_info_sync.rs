//! User-information polling: plan, attendance, forced logout and the adaptive
//! polling interval.
use vstd::prelude::*;

verus! {

/// Interval used when the server said nothing (or failed), and after a forced logout.
pub const FALLBACK_NEXT_POLL_SECONDS: u64 = 300;
pub const MIN_NEXT_POLL_SECONDS: u64 = 60;
pub const MAX_NEXT_POLL_SECONDS: u64 = 21600;

/// The suggestion clamped to 60..=21600 seconds.
pub open spec fn spec_next_poll(suggested: int) -> int {
    if suggested < MIN_NEXT_POLL_SECONDS {
        MIN_NEXT_POLL_SECONDS as int
    } else if suggested > MAX_NEXT_POLL_SECONDS {
        MAX_NEXT_POLL_SECONDS as int
    } else {
        suggested
    }
}

/// Next polling interval from the server's suggestion, clamped to 60..=21600 seconds.
pub fn next_poll_seconds(suggested: u64) -> (r: u64)
    ensures
        r == spec_next_poll(suggested as int),
        MIN_NEXT_POLL_SECONDS <= r <= MAX_NEXT_POLL_SECONDS,
{
    if suggested < MIN_NEXT_POLL_SECONDS {
        MIN_NEXT_POLL_SECONDS
    } else if suggested > MAX_NEXT_POLL_SECONDS {
        MAX_NEXT_POLL_SECONDS
    } else {
        suggested
    }
}

/// The interval after a user-information answer: `None` when the call failed
/// (fallback), else the clamped suggestion.
pub fn poll_interval_after(answer: Option<u64>) -> (r: u64)
    ensures
        answer is None ==> r == FALLBACK_NEXT_POLL_SECONDS,
        answer matches Some(v) ==> r == spec_next_poll(v as int),
{
    match answer {
        None => FALLBACK_NEXT_POLL_SECONDS,
        Some(v) => next_poll_seconds(v),
    }
}

/// Pause before the next attempt when nobody is signed in, and after a forced logout.
pub const SHORT_RETRY_SECONDS: u64 = 30;

/// How the user-information call ended.
#[derive(Debug, Clone, Copy, PartialEq, Eq, Structural)]
pub enum UserInfoAnswer {
    /// The call failed.
    Failed,
    /// The server ends the session.
    ForceLogout,
    /// Normal answer with the server's suggested interval.
    Answered { next_poll_seconds: u64 },
}

/// What the polling loop does after the user-information call.
#[derive(Debug, Clone, Copy, PartialEq, Eq, Structural)]
pub struct UserInfoStep {
    /// Log out now (and clear the explanation list), skipping the other calls of this round.
    pub logout: bool,
    /// Interval kept for the following rounds.
    pub next_poll_seconds: u64,
    /// Pause before the next round.
    pub sleep_seconds: u64,
}

pub fn after_user_info(answer: UserInfoAnswer) -> (r: UserInfoStep)
    ensures
        answer == UserInfoAnswer::Failed ==> r == (UserInfoStep {
            logout: false,
            next_poll_seconds: FALLBACK_NEXT_POLL_SECONDS,
            sleep_seconds: FALLBACK_NEXT_POLL_SECONDS,
        }),
        answer == UserInfoAnswer::ForceLogout ==> r == (UserInfoStep {
            logout: true,
            next_poll_seconds: FALLBACK_NEXT_POLL_SECONDS,
            sleep_seconds: SHORT_RETRY_SECONDS,
        }),
        answer matches UserInfoAnswer::Answered { next_poll_seconds } ==> r == (UserInfoStep {
            logout: false,
            next_poll_seconds: spec_next_poll(next_poll_seconds as int) as u64,
            sleep_seconds: spec_next_poll(next_poll_seconds as int) as u64,
        }),
{
    match answer {
        UserInfoAnswer::Failed => UserInfoStep {
            logout: false,
            next_poll_seconds: FALLBACK_NEXT_POLL_SECONDS,
            sleep_seconds: FALLBACK_NEXT_POLL_SECONDS,
        },
        UserInfoAnswer::ForceLogout => UserInfoStep {
            logout: true,
            next_poll_seconds: FALLBACK_NEXT_POLL_SECONDS,
            sleep_seconds: SHORT_RETRY_SECONDS,
        },
        UserInfoAnswer::Answered { next_poll_seconds: suggested } => {
            let n = next_poll_seconds(suggested);
            UserInfoStep { logout: false, next_poll_seconds: n, sleep_seconds: n }
        },
    }
}

/// After the plan check the tracking permission is the plan's PIN+ flag.
pub fn can_track_after_plan_check(pin_plus_active: bool) -> (r: bool)
    ensures
        r == pin_plus_active,
{
    pin_plus_active
}

} // verus!
