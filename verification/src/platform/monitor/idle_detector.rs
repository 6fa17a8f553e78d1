//! Idle segment detection: the decisions of the polling loop.
//!
//! Every poll the caller measures how long there has been no input and hands a
//! [`IdleSample`] to [`IdleDetector::tick`], which returns what to do:
//! nothing, open a segment (the caller stores it and reports back with
//! [`IdleDetector::on_segment_opened`]), or close the open segment.
//!
//! - Active: no segment open. Once idle time reaches the threshold a segment is
//!   opened, starting at the last input (corrected for the lunch window).
//! - IdleOpen: a segment is open. Input must stay for a grace period before the
//!   segment closes, at the instant input came back. Entering the lunch window
//!   closes it at the window start.
//!
//! Lunch (for companies that use break time): idle time inside the daily lunch
//! window counts against the lunch allowance; while the allowance lasts no
//! segment is opened. The allowance resets at company midnight.
use vstd::prelude::*;
use crate::domain::model::attendance::AttendanceStatus;
use crate::domain::service::work_status_service::WorkStatus;
use crate::domain::service::session_caches::SessionCaches;
use crate::domain::service::subscription_service::{pin_plus_active, spec_pin_plus_active};
use crate::dto::PolicySnapshot;
use crate::text::{chars_of, parse_unsigned, parse_unsigned_chars, split_chars, split_parts, trim, trim_chars};
use crate::time::{
    company_offset, day_index, local_day_index, local_seconds_in_day, offset_seconds,
    seconds_in_day, valid_instant, MAX_INSTANT,
};

verus! {

/// Input must be back for this long before an open segment closes.
pub const IDLE_CLOSE_GRACE_SECONDS: i64 = 30;

// ───────────────────────────── lunch window ─────────────────────────────

/// "HH:MM" (surrounding whitespace allowed, extra ":" parts ignored) as seconds
/// after midnight; hours above 23 or minutes above 59 are refused.
pub open spec fn spec_parse_hhmm(s: Seq<char>) -> Option<int> {
    let parts = split_parts(trim(s), ':');
    if parts.len() < 2 {
        None
    } else {
        match parse_unsigned(trim(parts[0]), u32::MAX as nat) {
            None => None,
            Some(h) => match parse_unsigned(trim(parts[1]), u32::MAX as nat) {
                None => None,
                Some(m) => if h > 23 || m > 59 {
                    None
                } else {
                    Some((h * 3600 + m * 60) as int)
                },
            },
        }
    }
}

pub fn parse_hhmm_to_secs(s: &str) -> (r: Option<u32>)
    ensures
        r matches Some(v) ==> spec_parse_hhmm(s@) == Some(v as int),
        r is None ==> spec_parse_hhmm(s@) is None,
        r matches Some(v) ==> v < 86400,
{
    let v = chars_of(s);
    let t = trim_chars(&v);
    let parts = split_chars(&t, ':');
    if parts.len() < 2 {
        return None;
    }
    let p0 = trim_chars(&parts[0]);
    let h = match parse_unsigned_chars(&p0, 4294967295u64) {
        Some(h) => h,
        None => {
            return None;
        },
    };
    let p1 = trim_chars(&parts[1]);
    let m = match parse_unsigned_chars(&p1, 4294967295u64) {
        Some(m) => m,
        None => {
            return None;
        },
    };
    if h > 23 || m > 59 {
        return None;
    }
    Some((h * 3600 + m * 60) as u32)
}

/// The lunch window (start, end) in seconds after company midnight: only when
/// the main information is known and says the company uses break time, both
/// times parse, and the end is after the start.
pub open spec fn spec_lunch_window(use_break_time: Option<bool>, start: Seq<char>, end: Seq<char>) -> Option<(int, int)> {
    match use_break_time {
        Some(true) => match spec_parse_hhmm(start) {
            Some(a) => match spec_parse_hhmm(end) {
                Some(b) => if b <= a {
                    None
                } else {
                    Some((a, b))
                },
                None => None,
            },
            None => None,
        },
        _ => None,
    }
}

/// `use_break_time` is that of the cached main information (`None` when none is cached).
pub fn lunch_window_secs(use_break_time: Option<bool>, policy: &PolicySnapshot) -> (r: Option<(u32, u32)>)
    ensures
        r matches Some(w) ==> spec_lunch_window(use_break_time, policy.lunch_start_time@, policy.lunch_end_time@) == Some((w.0 as int, w.1 as int)),
        r is None ==> spec_lunch_window(use_break_time, policy.lunch_start_time@, policy.lunch_end_time@) is None,
        r matches Some(w) ==> w.0 < w.1 < 86400,
{
    match use_break_time {
        Some(true) => {},
        _ => {
            return None;
        },
    }
    let start = match parse_hhmm_to_secs(policy.lunch_start_time.as_str()) {
        Some(a) => a,
        None => {
            return None;
        },
    };
    let end = match parse_hhmm_to_secs(policy.lunch_end_time.as_str()) {
        Some(b) => b,
        None => {
            return None;
        },
    };
    if end <= start {
        return None;
    }
    Some((start, end))
}

/// Lunch allowance in seconds (whether or not the company uses break time).
pub fn lunch_allowed_seconds(policy: &PolicySnapshot) -> (r: u64)
    ensures
        r == policy.lunch_allowed_minutes * 60,
{
    (policy.lunch_allowed_minutes as u64) * 60
}

/// Seconds after midnight on the company clock (offset in minutes; out of range means UTC+9).
pub use crate::time::company_seconds_in_day;

/// Segment start corrected for the lunch window of today (`[win_start, win_end)`):
/// - before the window: the last input;
/// - inside the window (allowance used up): not before the allowance ran out,
///   i.e. `max(raw, max(raw, win_start) + allowed)`;
/// - after the window: not before the window end.
pub open spec fn spec_effective_start(raw: int, now: int, win_start: int, win_end: int, allowed: int) -> int {
    if now >= win_end {
        if raw < win_end {
            win_end
        } else {
            raw
        }
    } else if now >= win_start {
        let from = if raw >= win_start { raw } else { win_start };
        let exhaust = from + allowed;
        if raw >= exhaust {
            raw
        } else {
            exhaust
        }
    } else {
        raw
    }
}

pub fn effective_segment_start_at(raw_started: i64, now: i64, win_start: i64, win_end: i64, lunch_allowed: u64) -> (r: i64)
    requires
        -4 * MAX_INSTANT <= raw_started <= 4 * MAX_INSTANT,
        -4 * MAX_INSTANT <= win_start <= 4 * MAX_INSTANT,
        lunch_allowed <= 4 * MAX_INSTANT,
    ensures
        r == spec_effective_start(raw_started as int, now as int, win_start as int, win_end as int, lunch_allowed as int),
{
    if now >= win_end {
        if raw_started < win_end {
            return win_end;
        }
        return raw_started;
    }
    if now >= win_start {
        let from = if raw_started >= win_start { raw_started } else { win_start };
        let exhaust = from + lunch_allowed as i64;
        return if raw_started >= exhaust { raw_started } else { exhaust };
    }
    raw_started
}

/// Poll interval: the configured one, at least one second.
pub fn poll_interval_seconds(configured: u64) -> (r: u64)
    ensures
        r == if configured >= 1 { configured } else { 1 },
{
    if configured >= 1 { configured } else { 1 }
}

/// Explanation deadline of a segment opened at `now`: the policy's hours
/// (at least one) later.
pub fn explanation_deadline_at(now: i64, deadline_hours: u32) -> (r: i64)
    requires
        valid_instant(now as int),
    ensures
        r == now + (if deadline_hours >= 1 { deadline_hours as int } else { 1 }) * 3600,
{
    let hours: i64 = if deadline_hours >= 1 { deadline_hours as i64 } else { 1 };
    now + hours * 3600
}

/// Input is measured only while the company plan has PIN+; without it the
/// poll does nothing at all.
pub fn measures_input(c: &SessionCaches) -> (r: bool)
    ensures
        r == spec_pin_plus_active(*c),
{
    pin_plus_active(c)
}

// ───────────────────────────── the detector ─────────────────────────────

#[derive(Debug, Clone, PartialEq, Eq)]
pub enum IdleState {
    /// No segment open.
    Active,
    /// A segment is open. `first_zero_at` is when input came back, while the
    /// grace period runs.
    IdleOpen { segment_id: String, first_zero_at: Option<i64> },
}

/// State kept between polls.
pub struct IdleDetector {
    pub state: IdleState,
    /// Start of the open segment.
    pub segment_started_at: Option<i64>,
    /// Idle seconds counted against today's lunch allowance.
    pub lunch_used_secs: u64,
    /// Company day that `lunch_used_secs` belongs to.
    pub lunch_reset_date: Option<i64>,
}

/// What one poll observed.
pub struct IdleSample {
    /// Seconds since the last input.
    pub idle_seconds: u64,
    /// The poll instant.
    pub now: i64,
    /// Company clock offset (minutes; out of range means UTC+9).
    pub tz_offset_minutes: i32,
    pub can_track_time: bool,
    pub attendance: AttendanceStatus,
    /// Effective idle threshold (seconds).
    pub threshold_seconds: u64,
    pub work_status: WorkStatus,
    /// Today's lunch window, from [`lunch_window_secs`].
    pub lunch_window: Option<(u32, u32)>,
    /// Lunch allowance, from [`lunch_allowed_seconds`].
    pub lunch_allowed_seconds: u64,
    /// Poll interval (seconds).
    pub interval_seconds: u64,
}

/// What the caller has to do after a poll.
#[derive(Debug, Clone, PartialEq, Eq)]
pub enum IdleAction {
    Nothing,
    /// Store a new segment starting at `started` and report the result with
    /// [`IdleDetector::on_segment_opened`].
    Open { started: i64 },
    /// Close the open segment at `close_at` (it started at `started`), report it,
    /// and, when `toast_minutes` is set, show an explanation request for that
    /// many minutes of absence.
    Close { segment_id: String, started: i64, close_at: i64, toast_minutes: Option<i64> },
}

/// A sample the detector accepts: instants inside the clock library's range.
pub open spec fn sample_ok(s: IdleSample) -> bool {
    &&& valid_instant(s.now as int)
    &&& s.idle_seconds <= MAX_INSTANT
    &&& valid_instant(s.now - s.idle_seconds)
    &&& s.lunch_allowed_seconds <= 4294967295 * 60
    &&& s.lunch_window matches Some(w) ==> w.0 < w.1 < 86400
}

/// Stored instants stay in range.
pub open spec fn detector_ok(d: IdleDetector) -> bool {
    &&& d.segment_started_at matches Some(t) ==> -2 * MAX_INSTANT <= t <= 2 * MAX_INSTANT
    &&& d.state matches IdleState::IdleOpen { first_zero_at: Some(z), .. } ==> valid_instant(z as int)
}

/// All gates open: tracking allowed, worker at work (or attendance unknown) and working now.
pub open spec fn tracking_allowed(s: IdleSample) -> bool {
    &&& s.can_track_time
    &&& (s.attendance == AttendanceStatus::Working || s.attendance == AttendanceStatus::Unknown)
    &&& s.work_status == WorkStatus::WorkingNow
}

pub open spec fn sample_offset(s: IdleSample) -> int {
    offset_seconds(s.tz_offset_minutes as int)
}

/// `now` falls in today's lunch window (end excluded).
pub open spec fn in_lunch_window(s: IdleSample) -> bool {
    match s.lunch_window {
        Some(w) => w.0 <= seconds_in_day(s.now as int, sample_offset(s)) < w.1,
        None => false,
    }
}

/// Today's lunch window as instants.
pub open spec fn window_today(s: IdleSample) -> Option<(int, int)> {
    match s.lunch_window {
        Some(w) => {
            let midnight = day_index(s.now as int, sample_offset(s)) * 86400 - sample_offset(s);
            Some((midnight + w.0, midnight + w.1))
        },
        None => None,
    }
}

/// Start of a segment opened by this sample.
pub open spec fn open_start(s: IdleSample) -> int {
    let raw = s.now - s.idle_seconds;
    match window_today(s) {
        Some(w) => spec_effective_start(raw, s.now as int, w.0, w.1, s.lunch_allowed_seconds as int),
        None => raw,
    }
}

/// Minutes of absence announced when a segment that started at `started` closes at `now`.
pub open spec fn toast_minutes(started: Option<i64>, now: int) -> Option<i64> {
    match started {
        Some(t) => if now - t >= 60 {
            Some(((now - t) / 60) as i64)
        } else {
            None
        },
        None => None,
    }
}

/// The detector after the company-midnight check.
pub open spec fn after_day_check(d: IdleDetector, s: IdleSample) -> IdleDetector {
    let today = day_index(s.now as int, sample_offset(s)) as i64;
    if d.lunch_reset_date == Some(today) {
        d
    } else {
        IdleDetector { lunch_used_secs: 0, lunch_reset_date: Some(today), ..d }
    }
}

pub open spec fn closed(d: IdleDetector, segment_id: String, close_at: int, s: IdleSample) -> (IdleDetector, IdleAction) {
    let started = match d.segment_started_at {
        Some(t) => t,
        None => s.now,
    };
    (
        IdleDetector { state: IdleState::Active, segment_started_at: None, ..d },
        IdleAction::Close {
            segment_id,
            started,
            close_at: close_at as i64,
            toast_minutes: toast_minutes(d.segment_started_at, s.now as int),
        },
    )
}

/// A poll behind the PIN+ gate.
pub open spec fn spec_poll(d: IdleDetector, pin_plus_active: bool, s: IdleSample) -> (IdleDetector, IdleAction) {
    if pin_plus_active {
        spec_tick(d, s)
    } else {
        (d, IdleAction::Nothing)
    }
}

/// One poll of the detector.
pub open spec fn spec_tick(d0: IdleDetector, s: IdleSample) -> (IdleDetector, IdleAction) {
    let d = after_day_check(d0, s);
    if !tracking_allowed(s) {
        (d, IdleAction::Nothing)
    } else {
        match d.state {
            IdleState::Active => if s.idle_seconds < s.threshold_seconds {
                (d, IdleAction::Nothing)
            } else if in_lunch_window(s) && d.lunch_used_secs < s.lunch_allowed_seconds {
                let room = (s.lunch_allowed_seconds - d.lunch_used_secs) as u64;
                let added = if s.interval_seconds <= room { s.interval_seconds } else { room };
                (IdleDetector { lunch_used_secs: (d.lunch_used_secs + added) as u64, ..d }, IdleAction::Nothing)
            } else {
                (d, IdleAction::Open { started: open_start(s) as i64 })
            },
            IdleState::IdleOpen { segment_id, first_zero_at } => if in_lunch_window(s) {
                let started = match d.segment_started_at {
                    Some(t) => t as int,
                    None => s.now as int,
                };
                let ws = window_today(s).unwrap().0;
                closed(d, segment_id, if ws >= started { ws } else { started }, s)
            } else if s.idle_seconds > 0 {
                (IdleDetector { state: IdleState::IdleOpen { segment_id, first_zero_at: None }, ..d }, IdleAction::Nothing)
            } else {
                match first_zero_at {
                    None => (
                        IdleDetector { state: IdleState::IdleOpen { segment_id, first_zero_at: Some(s.now) }, ..d },
                        IdleAction::Nothing,
                    ),
                    Some(z) => if s.now - z < IDLE_CLOSE_GRACE_SECONDS {
                        (d, IdleAction::Nothing)
                    } else {
                        closed(d, segment_id, z as int, s)
                    },
                }
            },
        }
    }
}

impl IdleDetector {
    pub fn new() -> (r: Self)
        ensures
            r.state is Active,
            r.segment_started_at is None,
            r.lunch_used_secs == 0,
            r.lunch_reset_date is None,
            detector_ok(r),
    {
        IdleDetector { state: IdleState::Active, segment_started_at: None, lunch_used_secs: 0, lunch_reset_date: None }
    }

    /// One poll with the PIN+ gate: without PIN+ nothing happens at all (the
    /// caller does not even query the OS, see [`measures_input`]); with it the
    /// poll is [`IdleDetector::tick`].
    pub fn poll(&mut self, pin_plus_active: bool, s: &IdleSample) -> (r: IdleAction)
        requires
            sample_ok(*s),
            detector_ok(*old(self)),
        ensures
            (*final(self), r) == spec_poll(*old(self), pin_plus_active, *s),
            detector_ok(*final(self)),
    {
        if !pin_plus_active {
            return IdleAction::Nothing;
        }
        self.tick(s)
    }

    /// Decides what a poll means once the PIN+ gate has passed (see
    /// [`IdleDetector::poll`]); the caller has recorded the measured idle time.
    pub fn tick(&mut self, s: &IdleSample) -> (r: IdleAction)
        requires
            sample_ok(*s),
            detector_ok(*old(self)),
        ensures
            (*final(self), r) == spec_tick(*old(self), *s),
            detector_ok(*final(self)),
    {
        let off = company_offset(s.tz_offset_minutes);
        let today = local_day_index(s.now, off);
        if self.lunch_reset_date != Some(today) {
            self.lunch_used_secs = 0;
            self.lunch_reset_date = Some(today);
        }
        let gates = s.can_track_time
            && (s.attendance.enables_tracking() || s.attendance == AttendanceStatus::Unknown)
            && s.work_status.allows_tracking();
        if !gates {
            return IdleAction::Nothing;
        }
        let secs = local_seconds_in_day(s.now, off);
        let in_window = match s.lunch_window {
            Some((a, b)) => (a as i64) <= secs && secs < (b as i64),
            None => false,
        };
        let window: Option<(i64, i64)> = match s.lunch_window {
            Some((a, b)) => {
                let midnight = today * 86400 - off as i64;
                Some((midnight + a as i64, midnight + b as i64))
            },
            None => None,
        };
        let is_active = match &self.state {
            IdleState::Active => true,
            _ => false,
        };
        if is_active {
            if s.idle_seconds < s.threshold_seconds {
                return IdleAction::Nothing;
            }
            if in_window && self.lunch_used_secs < s.lunch_allowed_seconds {
                let room = s.lunch_allowed_seconds - self.lunch_used_secs;
                let added = if s.interval_seconds <= room { s.interval_seconds } else { room };
                self.lunch_used_secs = self.lunch_used_secs + added;
                return IdleAction::Nothing;
            }
            let raw = s.now - s.idle_seconds as i64;
            let started = match window {
                Some((ws, we)) => effective_segment_start_at(raw, s.now, ws, we, s.lunch_allowed_seconds),
                None => raw,
            };
            return IdleAction::Open { started };
        }
        let mut taken = IdleState::Active;
        std::mem::swap(&mut taken, &mut self.state);
        let (segment_id, first_zero_at) = match taken {
            IdleState::IdleOpen { segment_id, first_zero_at } => (segment_id, first_zero_at),
            IdleState::Active => {
                assert(false);
                return IdleAction::Nothing;
            },
        };
        if in_window {
            let started = match self.segment_started_at {
                Some(t) => t,
                None => s.now,
            };
            let ws = match window {
                Some((ws, _)) => ws,
                None => s.now,
            };
            let close_at = if ws >= started { ws } else { started };
            return self.close(segment_id, close_at, s.now);
        }
        if s.idle_seconds > 0 {
            self.state = IdleState::IdleOpen { segment_id, first_zero_at: None };
            return IdleAction::Nothing;
        }
        match first_zero_at {
            None => {
                self.state = IdleState::IdleOpen { segment_id, first_zero_at: Some(s.now) };
                IdleAction::Nothing
            },
            Some(z) => {
                if s.now - z < IDLE_CLOSE_GRACE_SECONDS {
                    self.state = IdleState::IdleOpen { segment_id, first_zero_at: Some(z) };
                    IdleAction::Nothing
                } else {
                    self.close(segment_id, z, s.now)
                }
            },
        }
    }

    fn close(&mut self, segment_id: String, close_at: i64, now: i64) -> (r: IdleAction)
        requires
            valid_instant(now as int),
            old(self).segment_started_at matches Some(t) ==> -2 * MAX_INSTANT <= t <= 2 * MAX_INSTANT,
        ensures
            *final(self) == (IdleDetector { state: IdleState::Active, segment_started_at: None, ..*old(self) }),
            r == (IdleAction::Close {
                segment_id,
                started: match old(self).segment_started_at {
                    Some(t) => t,
                    None => now,
                },
                close_at,
                toast_minutes: toast_minutes(old(self).segment_started_at, now as int),
            }),
    {
        let started = match self.segment_started_at {
            Some(t) => t,
            None => now,
        };
        let toast = match self.segment_started_at {
            Some(t) => if now - t >= 60 {
                Some((now - t) / 60)
            } else {
                None
            },
            None => None,
        };
        self.state = IdleState::Active;
        self.segment_started_at = None;
        IdleAction::Close { segment_id, started, close_at, toast_minutes: toast }
    }

    /// Records the outcome of storing a segment asked for by [`IdleAction::Open`]:
    /// with an id the segment is open from `started`; without one nothing changes.
    pub fn on_segment_opened(&mut self, segment_id: Option<String>, started: i64) -> (opened: bool)
        requires
            detector_ok(*old(self)),
            -2 * MAX_INSTANT <= started <= 2 * MAX_INSTANT,
        ensures
            opened == segment_id is Some,
            match segment_id {
                Some(id) => *final(self) == (IdleDetector {
                    state: IdleState::IdleOpen { segment_id: id, first_zero_at: None },
                    segment_started_at: Some(started),
                    ..*old(self)
                }),
                None => *final(self) == *old(self),
            },
            detector_ok(*final(self)),
    {
        match segment_id {
            Some(id) => {
                self.state = IdleState::IdleOpen { segment_id: id, first_zero_at: None };
                self.segment_started_at = Some(started);
                true
            },
            None => false,
        }
    }
}


// ───────────────────────────── laws ─────────────────────────────

/// A poll that a gate blocks (tracking off, worker not at work, not working now)
/// neither opens nor closes a segment and leaves the segment state alone.
pub proof fn law_blocked_poll_changes_no_segment(d: IdleDetector, s: IdleSample)
    requires
        !tracking_allowed(s),
    ensures
        spec_tick(d, s).1 is Nothing,
        spec_tick(d, s).0.state == d.state,
        spec_tick(d, s).0.segment_started_at == d.segment_started_at,
{
}

/// Segments are only opened from the Active state, once the idle time reaches
/// the threshold; the state stays Active until the segment is stored.
pub proof fn law_open_only_when_active_and_over_threshold(d: IdleDetector, s: IdleSample)
    requires
        spec_tick(d, s).1 is Open,
    ensures
        d.state is Active,
        tracking_allowed(s),
        s.idle_seconds >= s.threshold_seconds,
        spec_tick(d, s).0.state is Active,
{
}

/// A close always concerns the segment that was open, and leaves the detector
/// Active with no segment start.
pub proof fn law_close_ends_the_open_segment(d: IdleDetector, s: IdleSample)
    requires
        spec_tick(d, s).1 is Close,
    ensures
        d.state matches IdleState::IdleOpen { segment_id, .. } && spec_tick(d, s).1->segment_id == segment_id,
        spec_tick(d, s).0.state is Active,
        spec_tick(d, s).0.segment_started_at is None,
{
}

/// Outside the lunch window, a segment closes only after input has been back
/// for the whole grace period, and it closes at the instant input came back.
pub proof fn law_close_after_grace(d: IdleDetector, s: IdleSample)
    requires
        spec_tick(d, s).1 is Close,
        !in_lunch_window(s),
    ensures
        s.idle_seconds == 0,
        d.state matches IdleState::IdleOpen { first_zero_at: Some(z), .. }
            && s.now - z >= IDLE_CLOSE_GRACE_SECONDS
            && spec_tick(d, s).1->close_at == z,
{
}

/// Input that comes back and goes again within the grace period keeps the same
/// segment open (the pending close is cancelled).
pub proof fn law_short_return_keeps_segment(d: IdleDetector, s: IdleSample)
    requires
        tracking_allowed(s),
        !in_lunch_window(s),
        s.idle_seconds > 0,
        d.state is IdleOpen,
    ensures
        spec_tick(d, s).1 is Nothing,
        spec_tick(d, s).0.state matches IdleState::IdleOpen { segment_id, first_zero_at: None }
            && segment_id == d.state->segment_id,
        spec_tick(d, s).0.segment_started_at == d.segment_started_at,
{
}

/// Entering the lunch window closes an open segment at the window start (or at
/// the segment start if that is later).
pub proof fn law_lunch_window_closes_segment(d: IdleDetector, s: IdleSample)
    requires
        tracking_allowed(s),
        in_lunch_window(s),
        d.state is IdleOpen,
    ensures
        spec_tick(d, s).1 is Close,
        spec_tick(d, s).1->close_at == window_today(s).unwrap().0
            || spec_tick(d, s).1->close_at == spec_tick(d, s).1->Close_started,
        spec_tick(d, s).1->close_at >= spec_tick(d, s).1->Close_started,
        spec_tick(d, s).1->close_at >= window_today(s).unwrap().0,
{
}

/// Lunch idle time never goes past the allowance within a company day.
pub proof fn law_lunch_allowance_respected(d: IdleDetector, s: IdleSample)
    requires
        d.lunch_used_secs <= s.lunch_allowed_seconds,
    ensures
        spec_tick(d, s).0.lunch_used_secs <= s.lunch_allowed_seconds,
{
}

/// At company midnight the lunch count starts over for the new day.
pub proof fn law_lunch_resets_at_midnight(d: IdleDetector, s: IdleSample)
    requires
        d.lunch_reset_date != Some(day_index(s.now as int, sample_offset(s)) as i64),
    ensures
        spec_tick(d, s).0.lunch_reset_date == Some(day_index(s.now as int, sample_offset(s)) as i64),
        spec_tick(d, s).0.lunch_used_secs <= s.interval_seconds,
{
}

/// While the lunch allowance lasts, idle time inside the window opens no segment.
pub proof fn law_lunch_within_allowance_opens_nothing(d: IdleDetector, s: IdleSample)
    requires
        d.state is Active,
        in_lunch_window(s),
        after_day_check(d, s).lunch_used_secs < s.lunch_allowed_seconds,
    ensures
        spec_tick(d, s).1 is Nothing,
{
}

/// A segment never starts before the last input.
pub proof fn law_open_start_not_before_last_input(d: IdleDetector, s: IdleSample)
    requires
        sample_ok(s),
        spec_tick(d, s).1 is Open,
    ensures
        spec_tick(d, s).1->Open_started >= s.now - s.idle_seconds,
{
    lemma_open_start_range(s);
}

/// A segment start stays within twice the instant range.
pub proof fn lemma_open_start_range(s: IdleSample)
    requires
        sample_ok(s),
    ensures
        s.now - s.idle_seconds <= open_start(s) <= 2 * MAX_INSTANT,
{
    let off = sample_offset(s);
    if let Some(w) = s.lunch_window {
        vstd::arithmetic::div_mod::lemma_fundamental_div_mod(s.now + off, 86400);
        assert(0 <= seconds_in_day(s.now as int, off) < 86400);
    }
}

/// Outside the lunch window a segment never starts after the poll, and after
/// the window it does not start inside it.
pub proof fn law_open_start_outside_window(d: IdleDetector, s: IdleSample)
    requires
        sample_ok(s),
        spec_tick(d, s).1 is Open,
        !in_lunch_window(s),
    ensures
        spec_tick(d, s).1->Open_started <= s.now,
        window_today(s) is Some && s.now >= window_today(s).unwrap().1 ==> spec_tick(d, s).1->Open_started >= window_today(s).unwrap().1,
{
    lemma_window_today(s);
}

/// The toast announces whole minutes of absence, and only from one minute on.
pub proof fn law_toast_minutes(d: IdleDetector, s: IdleSample)
    requires
        spec_tick(d, s).1 matches IdleAction::Close { toast_minutes: Some(m), .. },
    ensures
        spec_tick(d, s).1 matches IdleAction::Close { toast_minutes: Some(m), started, .. }
            && m >= 1 && m * 60 <= s.now - started < (m + 1) * 60,
{
}

/// Today's window lies on today's company day: `now` is inside it exactly when
/// its clock time is.
pub proof fn lemma_window_today(s: IdleSample)
    requires
        sample_ok(s),
    ensures
        window_today(s) matches Some(w) ==> (in_lunch_window(s) <==> w.0 <= s.now < w.1),
{
    let off = sample_offset(s);
    let l = s.now + off;
    vstd::arithmetic::div_mod::lemma_fundamental_div_mod(l, 86400);
    assert(s.now == day_index(s.now as int, off) * 86400 - off + seconds_in_day(s.now as int, off));
}

/// Once the day's lunch allowance is used up, idle time over the threshold
/// opens a segment, inside the window too.
pub proof fn law_exhausted_allowance_opens(d: IdleDetector, s: IdleSample)
    requires
        d.state is Active,
        tracking_allowed(s),
        s.idle_seconds >= s.threshold_seconds,
        after_day_check(d, s).lunch_used_secs >= s.lunch_allowed_seconds,
    ensures
        spec_tick(d, s).1 == (IdleAction::Open { started: open_start(s) as i64 }),
{
}

/// A segment opened inside the lunch window starts no earlier than the window
/// start plus the allowance: the allowed lunch is never part of it.
pub proof fn law_open_in_window_skips_allowance(d: IdleDetector, s: IdleSample)
    requires
        sample_ok(s),
        spec_tick(d, s).1 is Open,
        in_lunch_window(s),
    ensures
        spec_tick(d, s).1->Open_started >= window_today(s).unwrap().0 + s.lunch_allowed_seconds,
{
    lemma_window_today(s);
    lemma_open_start_range(s);
}

/// A close reports the start that was recorded when the segment was stored.
pub proof fn law_close_reports_recorded_start(d: IdleDetector, s: IdleSample, t: i64)
    requires
        d.segment_started_at == Some(t),
        spec_tick(d, s).1 is Close,
    ensures
        spec_tick(d, s).1->Close_started == t,
{
}

/// Without PIN+ a poll changes nothing and asks for nothing.
pub proof fn law_without_pin_plus_nothing_happens(d: IdleDetector, s: IdleSample)
    ensures
        spec_poll(d, false, s) == (d, IdleAction::Nothing),
{
}

/// The attendance gate admits exactly a worker at work or of unknown
/// attendance: before work, after work, outing, leave or a business trip, a poll
/// asks for nothing and leaves the segment state alone.
pub proof fn law_attendance_gate(d: IdleDetector, s: IdleSample)
    requires
        s.attendance != AttendanceStatus::Working,
        s.attendance != AttendanceStatus::Unknown,
    ensures
        spec_tick(d, s).1 == IdleAction::Nothing,
        spec_tick(d, s).0.state == d.state,
        spec_tick(d, s).0.segment_started_at == d.segment_started_at,
{
}

/// With tracking allowed and the worker at work (or of unknown attendance) and
/// working now, an Active detector outside the lunch window opens a segment as
/// soon as the idle time reaches the threshold, and not before.
pub proof fn law_open_at_threshold(d: IdleDetector, s: IdleSample)
    requires
        d.state is Active,
        s.can_track_time,
        s.attendance == AttendanceStatus::Working || s.attendance == AttendanceStatus::Unknown,
        s.work_status == WorkStatus::WorkingNow,
        !in_lunch_window(s),
    ensures
        s.idle_seconds >= s.threshold_seconds ==> spec_tick(d, s).1 == (IdleAction::Open { started: open_start(s) as i64 }),
        s.idle_seconds < s.threshold_seconds ==> spec_tick(d, s).1 == IdleAction::Nothing,
{
}

/// Without the tracking permission, or while the worker is not working now
/// (not clocked in, clocked out, or no answer yet), a poll asks for nothing and
/// leaves the segment state alone.
pub proof fn law_permission_and_work_status_gates(d: IdleDetector, s: IdleSample)
    requires
        !s.can_track_time || s.work_status != WorkStatus::WorkingNow,
    ensures
        spec_tick(d, s).1 == IdleAction::Nothing,
        spec_tick(d, s).0.state == d.state,
        spec_tick(d, s).0.segment_started_at == d.segment_started_at,
{
}

} // verus!
