//! Main status screen: the texts it computes.
use vstd::prelude::*;
use crate::text::{decimal, push_decimal, trim, trim_str};
use crate::time::valid_instant;
use crate::ui::explanation_list_view::ExplanationStatus;
use crate::util::{duration_text, format_duration_human, push_two_digits, two_digits};

verus! {

/// "4h 12m" / "25m" for an accumulated time; negative times count as 0.
pub open spec fn active_text(seconds: int) -> Seq<char> {
    let s = if seconds < 0 { 0 } else { seconds };
    let h = s / 3600;
    let m = (s % 3600) / 60;
    if h > 0 {
        decimal(h as nat) + "h "@ + decimal(m as nat) + "m"@
    } else {
        decimal(m as nat) + "m"@
    }
}

pub fn format_active(seconds: i64) -> (r: String)
    ensures
        r@ == active_text(seconds as int),
{
    let s: u64 = if seconds < 0 { 0 } else { seconds as u64 };
    let h = s / 3600;
    let m = (s % 3600) / 60;
    let mut out = String::new();
    if h > 0 {
        push_decimal(&mut out, h);
        out.append("h ");
        push_decimal(&mut out, m);
        out.append("m");
    } else {
        push_decimal(&mut out, m);
        out.append("m");
    }
    out
}

// ───────────────────────────── header ─────────────────────────────

/// Connection state of the PC shown in the header.
#[derive(Debug, Clone, Copy, PartialEq, Eq, Structural)]
pub enum PcStatus {
    Active,
    Idle,
    Locked,
    Offline,
    AppClosing,
}

pub open spec fn pc_status_text(s: PcStatus) -> Seq<char> {
    match s {
        PcStatus::Active => "PC 사용 중"@,
        PcStatus::Idle => "자리비움"@,
        PcStatus::Locked => "잠금 중"@,
        PcStatus::Offline => "오프라인"@,
        PcStatus::AppClosing => "종료 중"@,
    }
}

impl PcStatus {
    pub fn label(self) -> (r: &'static str)
        ensures
            r@ == pc_status_text(self),
    {
        match self {
            PcStatus::Active => "PC 사용 중",
            PcStatus::Idle => "자리비움",
            PcStatus::Locked => "잠금 중",
            PcStatus::Offline => "오프라인",
            PcStatus::AppClosing => "종료 중",
        }
    }
}

/// Header title: "<name> <team>" trimmed, or "—" without a session.
pub open spec fn header_title_text(name: Option<Seq<char>>, team: Seq<char>) -> Seq<char> {
    match name {
        Some(n) => trim(n + " "@ + team),
        None => "—"@,
    }
}

/// `name` is the display name of the signed-in user (`None` without a session),
/// `team` the cached team name (empty when none is cached).
pub fn header_title(name: Option<&str>, team: &str) -> (r: String)
    ensures
        r@ == header_title_text(
            match name {
                Some(n) => Some(n@),
                None => None,
            },
            team@,
        ),
{
    match name {
        Some(n) => {
            let mut s = String::from_str(n);
            s.append(" ");
            s.append(team);
            trim_str(s.as_str())
        },
        None => String::from_str("—"),
    }
}

// ───────────────────────────── today's figures ─────────────────────────────

/// The row still waits for the worker (pending or expired).
pub open spec fn needs_worker(s: ExplanationStatus) -> bool {
    s == ExplanationStatus::Pending || s == ExplanationStatus::Expired
}

pub open spec fn count_needing(s: Seq<ExplanationStatus>) -> nat
    decreases s.len(),
{
    if s.len() == 0 {
        0
    } else {
        count_needing(s.drop_last()) + if needs_worker(s.last()) {
            1nat
        } else {
            0nat
        }
    }
}

/// Number of today's segments that still need an explanation (the badge of the status card).
pub fn pending_count(statuses: &Vec<ExplanationStatus>) -> (r: usize)
    ensures
        r == count_needing(statuses@),
{
    let mut n: usize = 0;
    let mut i: usize = 0;
    while i < statuses.len()
        invariant
            i <= statuses@.len(),
            n <= i,
            n == count_needing(statuses@.take(i as int)),
        decreases statuses@.len() - i,
    {
        proof {
            assert(statuses@.take(i + 1).drop_last() == statuses@.take(i as int));
        }
        if statuses[i] == ExplanationStatus::Pending || statuses[i] == ExplanationStatus::Expired {
            n = n + 1;
        }
        i = i + 1;
    }
    assert(statuses@.take(statuses@.len() as int) == statuses@);
    n
}

/// Sum of the known durations (unknown ones count as nothing).
pub open spec fn sum_known(d: Seq<Option<i64>>) -> int
    decreases d.len(),
{
    if d.len() == 0 {
        0
    } else {
        sum_known(d.drop_last()) + match d.last() {
            Some(x) => x as int,
            None => 0,
        }
    }
}

proof fn lemma_sum_known_bound(d: Seq<Option<i64>>)
    ensures
        -(d.len() * 0x8000_0000_0000_0000) <= sum_known(d) <= d.len() * 0x8000_0000_0000_0000,
    decreases d.len(),
{
    if d.len() > 0 {
        lemma_sum_known_bound(d.drop_last());
    }
}

/// PC use today: the time since midnight (not negative) minus today's idle
/// durations, not below zero.
pub open spec fn active_seconds(now: int, midnight: int, d: Seq<Option<i64>>) -> int {
    let elapsed = if now - midnight > 0 { now - midnight } else { 0 };
    let rest = elapsed - sum_known(d);
    if rest > 0 { rest } else { 0 }
}

/// `midnight` is the start of today on the PC clock, `durations` those of
/// today's segments. The sums must fit the 64-bit range, as in the figures shown.
pub fn today_active_seconds(now: i64, midnight: i64, durations: &Vec<Option<i64>>) -> (r: i64)
    requires
        valid_instant(now as int),
        valid_instant(midnight as int),
        i64::MIN <= sum_known(durations@) <= i64::MAX,
        active_seconds(now as int, midnight as int, durations@) <= i64::MAX,
    ensures
        r == active_seconds(now as int, midnight as int, durations@),
{
    let mut acc: i128 = 0;
    let mut i: usize = 0;
    let n = durations.len();
    while i < n
        invariant
            i <= n,
            n == durations@.len(),
            acc == sum_known(durations@.take(i as int)),
        decreases durations@.len() - i,
    {
        proof {
            assert(durations@.take(i + 1).drop_last() == durations@.take(i as int));
            lemma_sum_known_bound(durations@.take(i as int));
            assert(i * 0x8000_0000_0000_0000 <= 0xffff_ffff_ffff_ffff * 0x8000_0000_0000_0000) by (nonlinear_arith)
                requires
                    i <= 0xffff_ffff_ffff_ffff,
            ;
        }
        match durations[i] {
            Some(x) => {
                acc = acc + x as i128;
            },
            None => {},
        }
        i = i + 1;
    }
    assert(durations@.take(durations@.len() as int) == durations@);
    let elapsed: i128 = if now - midnight > 0 { (now - midnight) as i128 } else { 0 };
    let rest = elapsed - acc;
    if rest > 0 {
        rest as i64
    } else {
        0
    }
}

/// Longest known duration, if any.
pub open spec fn max_known(d: Seq<Option<i64>>) -> Option<i64>
    decreases d.len(),
{
    if d.len() == 0 {
        None
    } else {
        let prev = max_known(d.drop_last());
        match d.last() {
            Some(x) => match prev {
                Some(m) => Some(if x > m { x } else { m }),
                None => Some(x),
            },
            None => prev,
        }
    }
}

/// Longest of today's idle durations; 0 when none is known.
pub fn longest_idle(durations: &Vec<Option<i64>>) -> (r: i64)
    ensures
        r == match max_known(durations@) {
            Some(m) => m,
            None => 0,
        },
{
    let mut best: Option<i64> = None;
    let mut i: usize = 0;
    while i < durations.len()
        invariant
            i <= durations@.len(),
            best == max_known(durations@.take(i as int)),
        decreases durations@.len() - i,
    {
        proof {
            assert(durations@.take(i + 1).drop_last() == durations@.take(i as int));
        }
        match durations[i] {
            Some(x) => {
                best = match best {
                    Some(m) => Some(if x > m { x } else { m }),
                    None => Some(x),
                };
            },
            None => {},
        }
        i = i + 1;
    }
    assert(durations@.take(durations@.len() as int) == durations@);
    match best {
        Some(m) => m,
        None => 0,
    }
}

/// "<total>  ·<count>회" for the idle card, "—" when there was no segment.
pub open spec fn idle_summary_text(idle_seconds: int, count: nat) -> Seq<char> {
    if count > 0 {
        duration_text(idle_seconds) + "  ·"@ + decimal(count) + "회"@
    } else {
        "—"@
    }
}

pub fn idle_summary(idle_seconds: i64, count: usize) -> (r: String)
    ensures
        r@ == idle_summary_text(idle_seconds as int, count as nat),
{
    if count > 0 {
        let mut s = format_duration_human(idle_seconds);
        s.append("  ·");
        push_decimal(&mut s, count as u64);
        s.append("회");
        s
    } else {
        String::from_str("—")
    }
}

/// "최장 이탈 <duration>", or "이탈 없음" when nothing was longer than zero.
pub open spec fn idle_subtitle_text(max_idle: int) -> Seq<char> {
    if max_idle > 0 {
        "최장 이탈 "@ + duration_text(max_idle)
    } else {
        "이탈 없음"@
    }
}

pub fn idle_subtitle(max_idle: i64) -> (r: String)
    ensures
        r@ == idle_subtitle_text(max_idle as int),
{
    if max_idle > 0 {
        let mut s = String::from_str("최장 이탈 ");
        let d = format_duration_human(max_idle);
        s.append(d.as_str());
        s
    } else {
        String::from_str("이탈 없음")
    }
}

/// "이탈 기준 <minutes>분" under the timeline.
pub open spec fn threshold_text(threshold_seconds: nat) -> Seq<char> {
    "이탈 기준 "@ + decimal(threshold_seconds / 60) + "분"@
}

pub fn threshold_label(threshold_seconds: u64) -> (r: String)
    ensures
        r@ == threshold_text(threshold_seconds as nat),
{
    let mut s = String::from_str("이탈 기준 ");
    push_decimal(&mut s, threshold_seconds / 60);
    s.append("분");
    s
}

/// Sync line: "서버 연결됨 · 동기화 HH:MM:SS" (PC clock) of the last event sync,
/// or "동기화 대기 중" before the first one.
pub open spec fn sync_text(last: Option<(u32, u32, u32)>) -> Seq<char> {
    match last {
        Some(t) => "서버 연결됨 · 동기화 "@ + two_digits(t.0 as nat) + ":"@ + two_digits(t.1 as nat) + ":"@
            + two_digits(t.2 as nat),
        None => "동기화 대기 중"@,
    }
}

/// `last` is the hour, minute and second of the last sync on the PC clock.
pub fn sync_status_text(last: Option<(u32, u32, u32)>) -> (r: String)
    requires
        last matches Some(t) ==> t.0 < 24 && t.1 < 60 && t.2 < 60,
    ensures
        r@ == sync_text(last),
{
    match last {
        Some((h, m, sec)) => {
            let mut s = String::from_str("서버 연결됨 · 동기화 ");
            push_two_digits(&mut s, h as u64);
            s.append(":");
            push_two_digits(&mut s, m as u64);
            s.append(":");
            push_two_digits(&mut s, sec as u64);
            s
        },
        None => String::from_str("동기화 대기 중"),
    }
}

// ───────────────────────────── timeline ─────────────────────────────

/// The timeline starts at this hour of the PC clock.
pub const TIMELINE_START_HOUR: u32 = 9;

/// Hours labelled under the timeline: every second hour from the start, before the current hour.
pub fn timeline_hours(now_hour: u32) -> (r: Vec<u32>)
    requires
        now_hour < 24,
    ensures
        forall|k: int| 0 <= k < r@.len() ==> #[trigger] r@[k] == TIMELINE_START_HOUR + 2 * k && r@[k] < now_hour,
        TIMELINE_START_HOUR + 2 * r@.len() >= now_hour,
{
    let mut r: Vec<u32> = Vec::new();
    let mut h: u32 = TIMELINE_START_HOUR;
    while h < now_hour
        invariant
            now_hour < 24,
            h == TIMELINE_START_HOUR + 2 * r@.len(),
            h <= 25,
            forall|k: int| 0 <= k < r@.len() ==> #[trigger] r@[k] == TIMELINE_START_HOUR + 2 * k && r@[k] < now_hour,
        decreases 26 - h,
    {
        r.push(h);
        h = h + 2;
    }
    r
}

/// "HH:00" of a timeline hour.
pub fn hour_label(h: u32) -> (r: String)
    requires
        h < 24,
    ensures
        r@ == two_digits(h as nat) + ":00"@,
{
    let mut s = String::new();
    push_two_digits(&mut s, h as u64);
    s.append(":00");
    s
}

/// "현재 HH:MM" at the right end of the timeline.
pub fn now_label(h: u32, m: u32) -> (r: String)
    requires
        h < 24,
        m < 60,
    ensures
        r@ == "현재 "@ + two_digits(h as nat) + ":"@ + two_digits(m as nat),
{
    let mut s = String::from_str("현재 ");
    push_two_digits(&mut s, h as u64);
    s.append(":");
    push_two_digits(&mut s, m as u64);
    s
}

/// Where a segment lies on the timeline, in seconds from its `origin`: `None`
/// for a segment that starts after `now`; an open segment runs to `now` (at
/// least one second after the origin); both ends are clamped at the origin.
pub open spec fn timeline_span_spec(start: int, end: Option<i64>, origin: int, now: int) -> Option<(int, int)> {
    if start > now {
        None
    } else {
        let total = if now - origin > 1 { now - origin } else { 1 };
        let s = if start - origin > 0 { start - origin } else { 0 };
        let e = match end {
            Some(x) => if x - origin > 0 { x - origin } else { 0 },
            None => total,
        };
        Some((s, e))
    }
}

pub fn timeline_span(start: i64, end: Option<i64>, origin: i64, now: i64) -> (r: Option<(i64, i64)>)
    requires
        valid_instant(start as int),
        valid_instant(origin as int),
        valid_instant(now as int),
        end matches Some(x) ==> valid_instant(x as int),
    ensures
        match timeline_span_spec(start as int, end, origin as int, now as int) {
            Some(p) => r == Some((p.0 as i64, p.1 as i64)),
            None => r is None,
        },
{
    if start > now {
        return None;
    }
    let total = if now - origin > 1 { now - origin } else { 1 };
    let s = if start - origin > 0 { start - origin } else { 0 };
    let e = match end {
        Some(x) => if x - origin > 0 { x - origin } else { 0 },
        None => total,
    };
    Some((s, e))
}

/// The badge counts exactly the pending and the expired rows: adding a row adds
/// one for those and nothing for a submitted or an approved (exempted) one.
pub proof fn law_badge_counts_pending_and_expired(s: Seq<ExplanationStatus>, x: ExplanationStatus)
    ensures
        count_needing(Seq::<ExplanationStatus>::empty()) == 0,
        count_needing(s.push(x)) == count_needing(s) + if x == ExplanationStatus::Pending || x
            == ExplanationStatus::Expired {
            1nat
        } else {
            0nat
        },
        x == ExplanationStatus::Submitted || x == ExplanationStatus::Exempted ==> count_needing(s.push(x))
            == count_needing(s),
        count_needing(s) <= s.len(),
    decreases s.len(),
{
    assert(s.push(x).drop_last() == s);
    if s.len() > 0 {
        law_badge_counts_pending_and_expired(s.drop_last(), s.last());
        assert(s.drop_last().push(s.last()) == s);
    }
}

} // verus!
