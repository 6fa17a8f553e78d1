//! Instants are whole seconds since the Unix epoch (UTC). A company keeps its
//! clock at a fixed offset from UTC, given in minutes.
use vstd::prelude::*;
use vstd::arithmetic::div_mod::{lemma_hoist_over_denominator, lemma_mod_multiples_vanish};

verus! {

pub const SECONDS_PER_DAY: i64 = 86400;

/// Largest instant handled (about 253,000 years after 1970), inside the range of
/// calendar times that the clock library represents.
pub const MAX_INSTANT: i64 = 8_000_000_000_000;

/// An instant that the clock library can represent.
pub open spec fn valid_instant(t: int) -> bool {
    -MAX_INSTANT <= t <= MAX_INSTANT
}

/// An offset from UTC in seconds, under a day either way.
pub open spec fn utc_offset(o: int) -> bool {
    -86400 < o < 86400
}

/// The fallback company offset in minutes (Korea, UTC+9).
pub const DEFAULT_OFFSET_MINUTES: i32 = 540;

/// A company offset in minutes: values in `-720..=840` (UTC-12 .. UTC+14) are
/// taken as they are; anything else falls back to UTC+9.
pub open spec fn effective_offset_minutes(m: int) -> int {
    if -720 <= m <= 840 {
        m
    } else {
        DEFAULT_OFFSET_MINUTES as int
    }
}

/// The company offset in seconds that a policy's minute offset stands for.
pub open spec fn offset_seconds(minutes: int) -> int {
    effective_offset_minutes(minutes) * 60
}

/// Offset of the company clock from UTC, in seconds east of UTC.
/// Minute values outside `-720..=840` fall back to UTC+9.
pub fn company_offset(minutes: i32) -> (secs: i32)
    ensures
        secs == offset_seconds(minutes as int),
        -43200 <= secs <= 50400,
{
    let m = if -720 <= minutes && minutes <= 840 {
        minutes
    } else {
        DEFAULT_OFFSET_MINUTES
    };
    m * 60
}

/// Seconds since midnight on the company clock.
pub open spec fn seconds_in_day(utc: int, offset: int) -> int {
    (utc + offset) % (SECONDS_PER_DAY as int)
}

/// Number of the company calendar day (day 0 is 1970-01-01 on the company clock).
pub open spec fn day_index(utc: int, offset: int) -> int {
    (utc + offset) / (SECONDS_PER_DAY as int)
}

/// Shift that makes every handled local time non-negative; a whole number of days.
const SHIFT_DAYS: i64 = 100_000_000;

const SHIFT: i64 = 8_640_000_000_000;

proof fn lemma_shift(l: int)
    ensures
        (l + SHIFT) % 86400 == l % 86400,
        (l + SHIFT) / 86400 == l / 86400 + SHIFT_DAYS,
{
    lemma_mod_multiples_vanish(SHIFT_DAYS as int, l, 86400);
    assert(86400 * SHIFT_DAYS + l == l + SHIFT);
    lemma_hoist_over_denominator(l, SHIFT_DAYS as int, 86400);
    assert(l + SHIFT_DAYS * 86400 == l + SHIFT);
}

/// Seconds since company midnight at instant `utc`, with the clock `offset` seconds east of UTC.
pub fn local_seconds_in_day(utc: i64, offset: i32) -> (r: i64)
    requires
        valid_instant(utc as int),
        -86400 < offset < 86400,
    ensures
        r == seconds_in_day(utc as int, offset as int),
        0 <= r < 86400,
{
    let l = utc + offset as i64;
    proof {
        lemma_shift(l as int);
    }
    (l + SHIFT) % SECONDS_PER_DAY
}

/// The company calendar day of instant `utc`.
pub fn local_day_index(utc: i64, offset: i32) -> (r: i64)
    requires
        valid_instant(utc as int),
        -86400 < offset < 86400,
    ensures
        r == day_index(utc as int, offset as int),
        -100_000_000 < r < 100_000_000,
{
    let l = utc + offset as i64;
    proof {
        lemma_shift(l as int);
        assert(0 <= l + SHIFT <= 2 * SHIFT);
        assert((l + SHIFT) / 86400 <= 2 * SHIFT_DAYS) by (nonlinear_arith)
            requires
                0 <= l + SHIFT <= 2 * SHIFT,
        ;
        assert((l + SHIFT) / 86400 >= 0) by (nonlinear_arith)
            requires
                0 <= l + SHIFT,
        ;
    }
    let d = (l + SHIFT) / SECONDS_PER_DAY - SHIFT_DAYS;
    proof {
        assert(l / 86400 < SHIFT_DAYS) by (nonlinear_arith)
            requires
                l <= MAX_INSTANT + 86400,
        ;
        assert(l / 86400 > -SHIFT_DAYS) by (nonlinear_arith)
            requires
                l >= -MAX_INSTANT - 86400,
        ;
    }
    d
}

/// Seconds since midnight on the company clock (offset given in minutes; out of range means UTC+9).
pub fn company_seconds_in_day(utc: i64, tz_offset_minutes: i32) -> (r: u32)
    requires
        valid_instant(utc as int),
    ensures
        r == seconds_in_day(utc as int, offset_seconds(tz_offset_minutes as int)),
        r < 86400,
{
    let off = company_offset(tz_offset_minutes);
    local_seconds_in_day(utc, off) as u32
}

} // verus!
