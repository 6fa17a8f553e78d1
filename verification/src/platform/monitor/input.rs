//! Seconds since the last user input, as measured by the operating system.
//!
//! The measurement itself is made by the caller (Win32 `GetLastInputInfo`, the
//! macOS `ioreg` listing, or nothing on other systems). This module keeps the
//! last value so that a failed measurement continues the count by one poll
//! interval instead of reporting 0 (which would look like returning input and
//! split one absence into many segments), reads the `PINPLE_FAKE_IDLE`
//! override, and parses the macOS `ioreg` output.
use vstd::prelude::*;
use crate::text::{
    chars_of, find_char, find_char_in, find_str, find_str_in, parse_unsigned, parse_unsigned_chars,
    skip_chars, split_chars, split_parts, trim, trim_chars,
};

verus! {

/// Poll interval; the step added when a measurement fails.
pub const POLL_INTERVAL_SECONDS: u64 = 5;

/// The value after a failed measurement: one interval more, saturating.
pub open spec fn fallback_step(v: u64) -> u64 {
    if v + POLL_INTERVAL_SECONDS > u64::MAX {
        u64::MAX
    } else {
        (v + POLL_INTERVAL_SECONDS) as u64
    }
}

/// The values handed out by `k` failed measurements in a row after `v`.
pub open spec fn after_failures(v: u64, k: nat) -> u64
    decreases k,
{
    if k == 0 {
        v
    } else {
        fallback_step(after_failures(v, (k - 1) as nat))
    }
}

/// After a value `v`, `k` failed measurements in a row (polls of
/// [`IdleSampler::idle_seconds`] or [`IdleSampler::on_measurement`] whose OS
/// query failed) give `v + 5k`, held at `u64::MAX`: never 0, and each failure
/// raises the value until it reaches `u64::MAX`.
pub proof fn law_failed_measurements_accumulate(v: u64, k: nat)
    ensures
        after_failures(v, k) == if v + POLL_INTERVAL_SECONDS * k > u64::MAX {
            u64::MAX as int
        } else {
            v + POLL_INTERVAL_SECONDS * k
        },
        after_failures(v, k) < u64::MAX ==> after_failures(v, k) < after_failures(v, k + 1),
        k >= 1 ==> after_failures(v, k) >= POLL_INTERVAL_SECONDS,
    decreases k,
{
    if k > 0 {
        law_failed_measurements_accumulate(v, (k - 1) as nat);
    }
    assert(after_failures(v, k + 1) == fallback_step(after_failures(v, k)));
}

/// Last idle value handed out.
pub struct IdleSampler {
    pub last_idle: u64,
}

impl IdleSampler {
    pub fn new() -> (r: Self)
        ensures
            r.last_idle == 0,
    {
        IdleSampler { last_idle: 0 }
    }

    /// After a failed measurement: the last value plus one interval (saturating).
    pub fn fallback_advance(&mut self) -> (r: u64)
        ensures
            r == fallback_step(old(self).last_idle),
            final(self).last_idle == r,
    {
        let next = self.last_idle.saturating_add(POLL_INTERVAL_SECONDS);
        self.last_idle = next;
        next
    }

    /// After a successful measurement: remember and hand out `v`.
    pub fn record(&mut self, v: u64) -> (r: u64)
        ensures
            r == v,
            final(self).last_idle == v,
    {
        self.last_idle = v;
        v
    }

    /// The value for a measurement outcome (`None` = the OS call failed).
    pub fn on_measurement(&mut self, measured: Option<u64>) -> (r: u64)
        ensures
            measured matches Some(v) ==> r == v && final(self).last_idle == v,
            measured is None ==> r == fallback_step(old(self).last_idle) && final(self).last_idle == r,
    {
        match measured {
            Some(v) => self.record(v),
            None => self.fallback_advance(),
        }
    }

    /// Seconds since the last input for one poll. `fake_env` is the value of
    /// `PINPLE_FAKE_IDLE`, which replaces the measurement when it is a number.
    /// `measurement` is `None` on systems without one; otherwise the outcome of
    /// the OS query (`None` inside when it failed). A failed query continues from
    /// the previous value by one interval (never 0); without a measurement the
    /// result is 0.
    pub fn idle_seconds(&mut self, fake_env: Option<&str>, measurement: Option<Option<u64>>) -> (r: u64)
        ensures
            fake_override_value(fake_env) matches Some(v) ==> r == v && final(self).last_idle == v,
            fake_override_value(fake_env) is None ==> match measurement {
                None => r == 0 && final(self).last_idle == old(self).last_idle,
                Some(Some(v)) => r == v && final(self).last_idle == v,
                Some(None) => r == fallback_step(old(self).last_idle) && final(self).last_idle == r,
            },
    {
        match fake_override(fake_env) {
            Some(v) => self.record(v),
            None => match measurement {
                Some(outcome) => self.on_measurement(outcome),
                None => 0,
            },
        }
    }
}

/// The `PINPLE_FAKE_IDLE` override: the variable's text parsed as `u64`.
pub open spec fn fake_override_value(env: Option<&str>) -> Option<u64> {
    match env {
        Some(s) => match parse_unsigned(s@, u64::MAX as nat) {
            Some(v) => Some(v as u64),
            None => None,
        },
        None => None,
    }
}

/// `env` is the value of `PINPLE_FAKE_IDLE`, if set.
pub fn fake_override(env: Option<&str>) -> (r: Option<u64>)
    ensures
        r == fake_override_value(env),
{
    match env {
        Some(s) => {
            let v = chars_of(s);
            parse_unsigned_chars(&v, u64::MAX)
        },
        None => None,
    }
}

/// The nanosecond value of one `ioreg` line: after "HIDIdleTime", the text after
/// the next "=" (trimmed) as a `u64`.
pub open spec fn hid_line_value(line: Seq<char>) -> Option<nat> {
    match find_str(line, "HIDIdleTime"@) {
        Some(idx) => {
            let rest = line.skip(idx);
            match find_char(rest, '=') {
                Some(eq) => parse_unsigned(trim(rest.skip(eq + 1)), u64::MAX as nat),
                None => None,
            }
        },
        None => None,
    }
}

/// Idle seconds from the first `ioreg` line that carries a readable value.
pub open spec fn hid_idle_seconds(lines: Seq<Seq<char>>) -> Option<nat>
    decreases lines.len(),
{
    if lines.len() == 0 {
        None
    } else {
        match hid_line_value(lines[0]) {
            Some(ns) => Some(ns / 1_000_000_000),
            None => hid_idle_seconds(lines.drop_first()),
        }
    }
}

fn line_value(line: &Vec<char>) -> (r: Option<u64>)
    ensures
        r matches Some(v) ==> hid_line_value(line@) == Some(v as nat),
        r is None ==> hid_line_value(line@) is None,
{
    let key = chars_of("HIDIdleTime");
    let idx = match find_str_in(line, &key) {
        Some(i) => i,
        None => {
            return None;
        },
    };
    let rest = skip_chars(line, idx);
    let eq = match find_char_in(&rest, '=') {
        Some(e) => e,
        None => {
            return None;
        },
    };
    let n = rest.len();
    assert(eq < n);
    let value = skip_chars(&rest, eq + 1);
    let t = trim_chars(&value);
    parse_unsigned_chars(&t, u64::MAX)
}

/// Seconds since the last input from the text `ioreg -c IOHIDSystem` prints
/// (`HIDIdleTime` is in nanoseconds). `None` when no line carries a value.
pub fn parse_hid_idle_output(text: &str) -> (r: Option<u64>)
    ensures
        r matches Some(v) ==> hid_idle_seconds(split_parts(text@, '\n')) == Some(v as nat),
        r is None ==> hid_idle_seconds(split_parts(text@, '\n')) is None,
{
    let chars = chars_of(text);
    let lines = split_chars(&chars, '\n');
    let ghost sp = split_parts(text@, '\n');
    let mut i: usize = 0;
    assert(sp.skip(0) == sp);
    while i < lines.len()
        invariant
            i <= lines@.len(),
            lines@.len() == sp.len(),
            sp == split_parts(text@, '\n'),
            forall|k: int| 0 <= k < lines@.len() ==> #[trigger] lines@[k]@ == sp[k],
            hid_idle_seconds(sp) == hid_idle_seconds(sp.skip(i as int)),
        decreases lines@.len() - i,
    {
        proof {
            assert(sp.skip(i as int).drop_first() == sp.skip(i + 1));
            assert(sp.skip(i as int)[0] == sp[i as int]);
        }
        match line_value(&lines[i]) {
            Some(ns) => {
                assert(hid_idle_seconds(sp.skip(i as int)) == Some((ns / 1_000_000_000) as nat));
                return Some(ns / 1_000_000_000);
            },
            None => {
                assert(hid_idle_seconds(sp.skip(i as int)) == hid_idle_seconds(sp.skip(i + 1)));
            },
        }
        i = i + 1;
    }
    None
}

} // verus!
