//! Lunch classification of an idle segment against the company lunch window.
//!
//! - `LunchCandidate`: inside the window and no longer than the allowance (a break);
//! - `LunchExceeded`: inside the window, longer than the allowance (the excess
//!   needs an explanation);
//! - `Outside`: the segment does not touch the window.
//!
//! The window is laid on the local (PC clock) day of the segment start.
use vstd::prelude::*;
use chrono::{TimeZone, Timelike};
use crate::dto::PolicySnapshot;
use crate::time::{utc_offset, valid_instant, MAX_INSTANT};

verus! {

#[derive(Debug, Clone, Copy, PartialEq, Eq, Structural)]
pub enum LunchClassification {
    /// In the window, within the allowance: a break, nothing to explain.
    LunchCandidate,
    /// In the window, over the allowance: the excess needs an explanation.
    LunchExceeded { exceeded_seconds: i64 },
    /// Does not overlap the window.
    Outside,
}

/// Seconds after midnight that the clock library reads from `s` with the
/// pattern "%H:%M", or `None` when it refuses the text.
pub uninterp spec fn chrono_hhmm_seconds(s: Seq<char>) -> Option<int>;

/// `chrono::NaiveTime::parse_from_str(s, "%H:%M")`, converted to seconds after
/// midnight with `Timelike::num_seconds_from_midnight`. Claimed: the result is
/// a function of `s` alone, and a time of day is under 86400 seconds.
#[verifier::external_body]
fn parse_hhmm(s: &str) -> (r: Option<u32>)
    ensures
        r matches Some(v) ==> chrono_hhmm_seconds(s@) == Some(v as int) && v < 86400,
        r is None ==> chrono_hhmm_seconds(s@) is None,
{
    match chrono::NaiveTime::parse_from_str(s, "%H:%M") {
        Ok(t) => Some(t.num_seconds_from_midnight()),
        Err(_) => None,
    }
}

/// `m` is the instant of midnight of the local day of `ts`: with `o` the
/// machine's offset at `ts` and `p` its offset at `m` (both under a day, as the
/// clock library's fixed offsets are), the wall time `m + p` is a midnight and
/// the wall time `ts + o` falls within the day that starts there.
pub open spec fn local_midnight_of(m: int, ts: int) -> bool {
    exists|o: int, p: int|
        #![trigger utc_offset(o), utc_offset(p)]
        utc_offset(o) && utc_offset(p) && (m + p) % 86400 == 0 && 0 <= (ts + o) - (m + p) < 86400
}


/// The instant of local midnight (PC time zone) on the local day of `ts`, as
/// the clock library computes it: `Local.timestamp_opt(ts, 0)`, its
/// `date_naive().and_hms_opt(0, 0, 0)`, then `Local.from_local_datetime(..).single()`
/// and `timestamp()`. Only instants well inside the library's years are handed
/// over (near its ends the local date does not exist and the library panics).
/// Claimed: a value returned is the midnight of the local day
/// of `ts`. Which offsets apply is the machine's time zone and is not claimed;
/// nor is when the result is `None` (that midnight does not exist or is ambiguous).
#[verifier::external_body]
fn local_midnight(ts: i64) -> (r: Option<i64>)
    requires
        valid_instant(ts as int),
    ensures
        r matches Some(m) ==> local_midnight_of(m as int, ts as int),
{
    let local = chrono::Local.timestamp_opt(ts, 0).single()?;
    let midnight = local.date_naive().and_hms_opt(0, 0, 0)?;
    chrono::Local.from_local_datetime(&midnight).single().map(|d| d.timestamp())
}

/// Classification of `[start, end]` against the window `[win_start, win_end)`.
pub open spec fn spec_classify_window(start: int, end: int, win_start: int, win_end: int, allowed_minutes: int) -> LunchClassification {
    if end <= win_start || start >= win_end {
        LunchClassification::Outside
    } else {
        let from = if start >= win_start { start } else { win_start };
        let to = if end <= win_end { end } else { win_end };
        let overlap = if to - from >= 0 { to - from } else { 0 };
        let allowed = allowed_minutes * 60;
        if overlap <= allowed {
            LunchClassification::LunchCandidate
        } else {
            LunchClassification::LunchExceeded { exceeded_seconds: (overlap - allowed) as i64 }
        }
    }
}

/// Classifies a segment against a window already laid on the calendar.
pub fn classify_window(start: i64, end: i64, win_start: i64, win_end: i64, allowed_minutes: u32) -> (r: LunchClassification)
    requires
        valid_instant(start as int),
        valid_instant(end as int),
        -2 * MAX_INSTANT <= win_start <= 2 * MAX_INSTANT,
        -2 * MAX_INSTANT <= win_end <= 2 * MAX_INSTANT,
    ensures
        r == spec_classify_window(start as int, end as int, win_start as int, win_end as int, allowed_minutes as int),
{
    if end <= win_start || start >= win_end {
        return LunchClassification::Outside;
    }
    let from = if start >= win_start { start } else { win_start };
    let to = if end <= win_end { end } else { win_end };
    let overlap = if to - from >= 0 { to - from } else { 0 };
    let allowed = (allowed_minutes as i64) * 60;
    if overlap <= allowed {
        LunchClassification::LunchCandidate
    } else {
        LunchClassification::LunchExceeded { exceeded_seconds: overlap - allowed }
    }
}

/// The classification for given lunch times, allowance and local midnight.
pub open spec fn spec_classify(
    start: int,
    end: int,
    lunch_start: Option<int>,
    lunch_end: Option<int>,
    allowed_minutes: int,
    midnight: Option<int>,
) -> LunchClassification {
    match lunch_start {
        None => LunchClassification::Outside,
        Some(a) => match lunch_end {
            None => LunchClassification::Outside,
            Some(b) => match midnight {
                None => LunchClassification::Outside,
                Some(m) => spec_classify_window(start, end, m + a, m + b, allowed_minutes),
            },
        },
    }
}

pub open spec fn u32_int(o: Option<u32>) -> Option<int> {
    match o {
        Some(v) => Some(v as int),
        None => None,
    }
}

pub open spec fn i64_int(o: Option<i64>) -> Option<int> {
    match o {
        Some(v) => Some(v as int),
        None => None,
    }
}

/// Classifies `[start, end]` given what was read of the lunch times (seconds
/// after midnight, `None` when a time did not parse) and the local midnight
/// of the segment's day (`None` when the clock has none).
pub fn classify_with(
    start: i64,
    end: i64,
    lunch_start: Option<u32>,
    lunch_end: Option<u32>,
    allowed_minutes: u32,
    midnight: Option<i64>,
) -> (r: LunchClassification)
    requires
        valid_instant(start as int),
        valid_instant(end as int),
        lunch_start matches Some(a) ==> a < 86400,
        lunch_end matches Some(b) ==> b < 86400,
    ensures
        r == spec_classify(
            start as int,
            end as int,
            u32_int(lunch_start),
            u32_int(lunch_end),
            allowed_minutes as int,
            i64_int(midnight),
        ),
{
    let a = match lunch_start {
        Some(a) => a,
        None => {
            return LunchClassification::Outside;
        },
    };
    let b = match lunch_end {
        Some(b) => b,
        None => {
            return LunchClassification::Outside;
        },
    };
    let m = match midnight {
        Some(m) => m,
        None => {
            return LunchClassification::Outside;
        },
    };
    if m < -2 * MAX_INSTANT || m > 2 * MAX_INSTANT - 86400 {
        // Beyond the range of calendar times; such a window lies nowhere near
        // the segment.
        assert(spec_classify_window(start as int, end as int, m + a, m + b, allowed_minutes as int) == LunchClassification::Outside);
        return LunchClassification::Outside;
    }
    classify_window(start, end, m + a as i64, m + b as i64, allowed_minutes)
}

/// Classifies the idle segment `[start, end]` with the lunch policy. Times that
/// do not parse give `Outside`; otherwise the window is laid on the local day
/// of `start`: the midnight used is one of that day (or none, when the PC
/// clock has none, which gives `Outside`).
pub fn classify(start: i64, end: i64, policy: &PolicySnapshot) -> (r: LunchClassification)
    requires
        valid_instant(start as int),
        valid_instant(end as int),
    ensures
        chrono_hhmm_seconds(policy.lunch_start_time@) is None ==> r == LunchClassification::Outside,
        chrono_hhmm_seconds(policy.lunch_end_time@) is None ==> r == LunchClassification::Outside,
        exists|m: Option<int>|
            (m matches Some(x) ==> local_midnight_of(x, start as int)) && r == spec_classify(
                start as int,
                end as int,
                chrono_hhmm_seconds(policy.lunch_start_time@),
                chrono_hhmm_seconds(policy.lunch_end_time@),
                policy.lunch_allowed_minutes as int,
                m,
            ),
{
    let lunch_start = parse_hhmm(policy.lunch_start_time.as_str());
    let lunch_end = parse_hhmm(policy.lunch_end_time.as_str());
    assert(u32_int(lunch_start) == chrono_hhmm_seconds(policy.lunch_start_time@));
    assert(u32_int(lunch_end) == chrono_hhmm_seconds(policy.lunch_end_time@));
    if lunch_start.is_none() || lunch_end.is_none() {
        let r = LunchClassification::Outside;
        assert(r == spec_classify(
            start as int,
            end as int,
            chrono_hhmm_seconds(policy.lunch_start_time@),
            chrono_hhmm_seconds(policy.lunch_end_time@),
            policy.lunch_allowed_minutes as int,
            None,
        ));
        return r;
    }
    let midnight = local_midnight(start);
    let r = classify_with(start, end, lunch_start, lunch_end, policy.lunch_allowed_minutes, midnight);
    assert(r == spec_classify(
        start as int,
        end as int,
        chrono_hhmm_seconds(policy.lunch_start_time@),
        chrono_hhmm_seconds(policy.lunch_end_time@),
        policy.lunch_allowed_minutes as int,
        i64_int(midnight),
    ));
    r
}

/// An exceeded lunch reports exactly the part of the overlap beyond the
/// allowance, which is positive and no longer than the segment minus the
/// allowance; a candidate overlaps the window by no more than the allowance.
pub proof fn law_classify_window(start: int, end: int, win_start: int, win_end: int, allowed_minutes: int)
    requires
        start <= end,
        allowed_minutes >= 0,
        -4 * MAX_INSTANT <= start,
        end <= 4 * MAX_INSTANT,
    ensures
        spec_classify_window(start, end, win_start, win_end, allowed_minutes) matches LunchClassification::LunchExceeded { exceeded_seconds }
            ==> 0 < exceeded_seconds <= end - start - allowed_minutes * 60,
        spec_classify_window(start, end, win_start, win_end, allowed_minutes) is Outside
            <==> (end <= win_start || start >= win_end),
        end - start <= allowed_minutes * 60 ==> !(spec_classify_window(start, end, win_start, win_end, allowed_minutes) is LunchExceeded),
{
}

} // verus!
