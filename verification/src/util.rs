//! Display helpers for times and durations.
use vstd::prelude::*;
use crate::text::{decimal, digit_char, is_digit, push_decimal};
use crate::time::{local_seconds_in_day, offset_seconds, seconds_in_day, utc_offset, valid_instant};

verus! {

pub use crate::time::company_offset;

/// Hours, minutes and seconds of a non-negative number of seconds.
pub open spec fn hms(s: int) -> (int, int, int) {
    (s / 3600, (s % 3600) / 60, s % 60)
}

/// "2시간 5분" / "5분 12초" / "8초"; negative durations count as 0.
pub open spec fn duration_text(seconds: int) -> Seq<char> {
    let s = if seconds < 0 { 0 } else { seconds };
    let (h, m, sec) = hms(s);
    if h > 0 {
        decimal(h as nat) + "시간 "@ + decimal(m as nat) + "분"@
    } else if m > 0 {
        decimal(m as nat) + "분 "@ + decimal(sec as nat) + "초"@
    } else {
        decimal(sec as nat) + "초"@
    }
}

pub fn format_duration_human(seconds: i64) -> (r: String)
    ensures
        r@ == duration_text(seconds as int),
{
    let s: u64 = if seconds < 0 { 0 } else { seconds as u64 };
    let h = s / 3600;
    let m = (s % 3600) / 60;
    let sec = s % 60;
    let mut out = String::new();
    if h > 0 {
        push_decimal(&mut out, h);
        out.append("시간 ");
        push_decimal(&mut out, m);
        out.append("분");
    } else if m > 0 {
        push_decimal(&mut out, m);
        out.append("분 ");
        push_decimal(&mut out, sec);
        out.append("초");
    } else {
        push_decimal(&mut out, sec);
        out.append("초");
    }
    out
}

/// Two-digit, zero-padded decimal text of `n < 100`.
pub open spec fn two_digits(n: nat) -> Seq<char> {
    if n < 10 {
        seq!['0'] + decimal(n)
    } else {
        decimal(n)
    }
}

pub fn push_two_digits(out: &mut String, n: u64)
    requires
        n < 100,
    ensures
        final(out)@ == old(out)@ + two_digits(n as nat),
{
    if n < 10 {
        out.append("0");
        proof {
            reveal_strlit("0");
        }
    }
    push_decimal(out, n);
}

/// "HH:MM" of an instant on a clock `offset` seconds east of UTC.
pub open spec fn clock_time_text(utc: int, offset: int) -> Seq<char> {
    let s = seconds_in_day(utc, offset);
    two_digits((s / 3600) as nat) + ":"@ + two_digits(((s % 3600) / 60) as nat)
}

/// "HH:MM" of an instant on the company clock.
pub open spec fn company_time_text(utc: int, offset_minutes: int) -> Seq<char> {
    clock_time_text(utc, offset_seconds(offset_minutes))
}

/// "HH:MM" of an instant on a clock `offset_secs` seconds east of UTC.
pub fn format_clock_time(utc: i64, offset_secs: i32) -> (r: String)
    requires
        valid_instant(utc as int),
        utc_offset(offset_secs as int),
    ensures
        r@ == clock_time_text(utc as int, offset_secs as int),
{
    let s = local_seconds_in_day(utc, offset_secs) as u64;
    let mut out = String::new();
    push_two_digits(&mut out, s / 3600);
    out.append(":");
    push_two_digits(&mut out, (s % 3600) / 60);
    out
}

/// "HH:MM" on the company clock (offset in minutes; outside -720..=840 it is UTC+9).
pub fn format_company_time(utc: i64, offset_minutes: i32) -> (r: String)
    requires
        valid_instant(utc as int),
    ensures
        r@ == company_time_text(utc as int, offset_minutes as int),
{
    format_clock_time(utc, company_offset(offset_minutes))
}

/// The text that the clock library gives for the instant `utc` (seconds since
/// the Unix epoch) shown at a fixed offset of `offset_seconds` east of UTC, with
/// the pattern "%Y-%m-%d %H:%M:%S".
pub uninterp spec fn chrono_datetime_text(utc: int, offset_seconds: int) -> Seq<char>;

/// `chrono::DateTime::from_timestamp(utc, 0)`, moved with `with_timezone` to
/// `chrono::FixedOffset::east_opt(offset_secs)` and written with
/// `format("%Y-%m-%d %H:%M:%S")`. Claimed: the text is a function of the instant
/// and the offset alone. Both constructors succeed for the admitted inputs (the
/// instant lies well inside the library's years, the offset inside a day).
#[verifier::external_body]
fn chrono_format_datetime(utc: i64, offset_secs: i32) -> (r: String)
    requires
        valid_instant(utc as int),
        -86400 < offset_secs < 86400,
    ensures
        r@ == chrono_datetime_text(utc as int, offset_secs as int),
{
    match (chrono::DateTime::from_timestamp(utc, 0), chrono::FixedOffset::east_opt(offset_secs)) {
        (Some(dt), Some(off)) => dt.with_timezone(&off).format("%Y-%m-%d %H:%M:%S").to_string(),
        _ => String::new(),
    }
}

/// "YYYY-MM-DD HH:MM:SS" on the company clock (offset in minutes; outside -720..=840 it is UTC+9).
pub fn format_company_dt(utc: i64, offset_minutes: i32) -> (r: String)
    requires
        valid_instant(utc as int),
    ensures
        r@ == chrono_datetime_text(utc as int, offset_seconds(offset_minutes as int)),
{
    let off = company_offset(offset_minutes);
    chrono_format_datetime(utc, off)
}

proof fn lemma_digit_char(d: nat)
    requires
        d < 10,
    ensures
        is_digit(digit_char(d)),
{
    assert(('0' as u32) + d <= 0x39);
}

proof fn lemma_two_digits(n: nat)
    requires
        n < 100,
    ensures
        two_digits(n).len() == 2,
        is_digit(two_digits(n)[0]),
        is_digit(two_digits(n)[1]),
{
    if n < 10 {
        lemma_digit_char(0);
        lemma_digit_char(n);
        assert(decimal(n) == seq![digit_char(n)]);
        assert(decimal(0) == seq![digit_char(0)]);
        reveal_strlit("0");
    } else {
        lemma_digit_char(n / 10);
        lemma_digit_char(n % 10);
        assert(decimal(n / 10) == seq![digit_char(n / 10)]);
        assert(decimal(n) == decimal(n / 10).push(digit_char(n % 10)));
    }
}

/// A clock time is always "HH:MM": five characters, digits around a colon
/// (the company time and the PC time alike).
pub proof fn law_clock_time_is_hh_mm(utc: int, offset: int)
    ensures
        clock_time_text(utc, offset).len() == 5,
        clock_time_text(utc, offset)[2] == ':',
        is_digit(clock_time_text(utc, offset)[0]),
        is_digit(clock_time_text(utc, offset)[1]),
        is_digit(clock_time_text(utc, offset)[3]),
        is_digit(clock_time_text(utc, offset)[4]),
{
    let sec = seconds_in_day(utc, offset);
    assert(0 <= sec < 86400);
    lemma_two_digits((sec / 3600) as nat);
    lemma_two_digits(((sec % 3600) / 60) as nat);
    reveal_strlit(":");
}

// ───────────────────────────── the PC clock ─────────────────────────────

/// The PC's offset from UTC at the instant `utc`, in seconds east:
/// `chrono::DateTime::from_timestamp(utc, 0)`, moved with `with_timezone` to
/// `chrono::Local`, then `offset().local_minus_utc()`. Claimed: it is under a
/// day either way, as all of the library's fixed offsets are. Its value is the
/// machine's time zone and is not claimed.
#[verifier::external_body]
fn local_offset_at(utc: i64) -> (r: i32)
    requires
        valid_instant(utc as int),
    ensures
        utc_offset(r as int),
{
    match chrono::DateTime::from_timestamp(utc, 0) {
        Some(dt) => dt.with_timezone(&chrono::Local).offset().local_minus_utc(),
        None => 0,
    }
}

/// "HH:MM" on the PC clock (the machine's time zone): [`format_clock_time`] at
/// the machine's offset for that instant.
pub fn format_local_time(utc: i64) -> (r: String)
    requires
        valid_instant(utc as int),
    ensures
        exists|o: int| #[trigger] utc_offset(o) && r@ == clock_time_text(utc as int, o),
{
    let off = local_offset_at(utc);
    let r = format_clock_time(utc, off);
    assert(utc_offset(off as int));
    r
}

/// "YYYY-MM-DD HH:MM:SS" on the PC clock (the machine's time zone).
pub fn format_local_dt(utc: i64) -> (r: String)
    requires
        valid_instant(utc as int),
    ensures
        exists|o: int| #[trigger] utc_offset(o) && r@ == chrono_datetime_text(utc as int, o),
{
    let off = local_offset_at(utc);
    let r = chrono_format_datetime(utc, off);
    assert(utc_offset(off as int));
    r
}

} // verus!
