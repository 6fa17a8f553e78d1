use chrono::{TimeZone, Utc};
use pinple_pc_agent::domain::model::attendance::AttendanceStatus;
use pinple_pc_agent::domain::service::work_status_service::WorkStatus;
use pinple_pc_agent::dto::PolicySnapshot;
use pinple_pc_agent::platform::monitor::idle_detector::{
    company_seconds_in_day, effective_segment_start_at, lunch_allowed_seconds, lunch_window_secs,
    parse_hhmm_to_secs, IdleAction, IdleDetector, IdleSample, IdleState,
};

fn utc(y: i32, mo: u32, d: u32, h: u32, mi: u32) -> i64 {
    Utc.with_ymd_and_hms(y, mo, d, h, mi, 0).unwrap().timestamp()
}

#[test]
fn parse_hhmm_basic() {
    assert_eq!(parse_hhmm_to_secs("12:30"), Some(12 * 3600 + 30 * 60));
    assert_eq!(parse_hhmm_to_secs("00:00"), Some(0));
    assert_eq!(parse_hhmm_to_secs("23:59"), Some(23 * 3600 + 59 * 60));
}

#[test]
fn parse_hhmm_invalid() {
    assert_eq!(parse_hhmm_to_secs("24:00"), None);
    assert_eq!(parse_hhmm_to_secs("12:60"), None);
    assert_eq!(parse_hhmm_to_secs("abc"), None);
    assert_eq!(parse_hhmm_to_secs(""), None);
}

#[test]
fn parse_hhmm_tolerates_spaces_and_extra_parts() {
    assert_eq!(parse_hhmm_to_secs(" 09:05 "), Some(9 * 3600 + 5 * 60));
    assert_eq!(parse_hhmm_to_secs("12:30:15"), Some(12 * 3600 + 30 * 60));
    assert_eq!(parse_hhmm_to_secs("12"), None);
    assert_eq!(parse_hhmm_to_secs("-1:00"), None);
}

#[test]
fn company_seconds_in_day_kst() {
    // 2026-05-14 03:30 UTC = 12:30 KST(+540)
    let t = utc(2026, 5, 14, 3, 30);
    assert_eq!(company_seconds_in_day(t, 540), 12 * 3600 + 30 * 60);
}

#[test]
fn company_seconds_in_day_negative_offset() {
    // 2026-05-14 17:30 UTC = 12:30 PST(-300)
    let t = utc(2026, 5, 14, 17, 30);
    assert_eq!(company_seconds_in_day(t, -300), 12 * 3600 + 30 * 60);
}

#[test]
fn company_seconds_in_day_out_of_range_offset_is_kst() {
    // offsets outside UTC-12..UTC+14 fall back to UTC+9
    let t = utc(2026, 5, 14, 0, 0);
    assert_eq!(company_seconds_in_day(t, 2000), 9 * 3600);
    assert_eq!(company_seconds_in_day(t, -2000), 9 * 3600);
    assert_eq!(company_seconds_in_day(t, 840), 14 * 3600);
    assert_eq!(company_seconds_in_day(t, -720), 12 * 3600);
}

/// Window 12:30~14:30 (KST), allowance 60 minutes.
fn kst_window() -> (i64, i64) {
    (utc(2026, 5, 14, 3, 30), utc(2026, 5, 14, 5, 30))
}

#[test]
fn snap_keeps_raw_when_before_window() {
    let (s, e) = kst_window();
    let now = utc(2026, 5, 14, 1, 0);
    let raw = utc(2026, 5, 14, 0, 0);
    assert_eq!(effective_segment_start_at(raw, now, s, e, 3600), raw);
}

#[test]
fn snap_in_window_quota_exhausted_started_in_window() {
    let (s, e) = kst_window();
    let raw = utc(2026, 5, 14, 4, 0);
    let now = utc(2026, 5, 14, 5, 0);
    let result = effective_segment_start_at(raw, now, s, e, 3600);
    assert_eq!(result, utc(2026, 5, 14, 5, 0));
}

#[test]
fn snap_in_window_quota_exhausted_started_before_window() {
    let (s, e) = kst_window();
    let raw = utc(2026, 5, 14, 2, 0);
    let now = utc(2026, 5, 14, 4, 30);
    let result = effective_segment_start_at(raw, now, s, e, 3600);
    assert_eq!(result, utc(2026, 5, 14, 4, 30));
}

#[test]
fn snap_after_window_raw_before_window() {
    let (s, e) = kst_window();
    let raw = utc(2026, 5, 14, 2, 0);
    let now = utc(2026, 5, 14, 6, 0);
    assert_eq!(effective_segment_start_at(raw, now, s, e, 3600), e);
}

#[test]
fn snap_after_window_raw_in_window() {
    let (s, e) = kst_window();
    let raw = utc(2026, 5, 14, 4, 0);
    let now = utc(2026, 5, 14, 6, 0);
    assert_eq!(effective_segment_start_at(raw, now, s, e, 3600), e);
}

#[test]
fn snap_after_window_raw_after_window() {
    let (s, e) = kst_window();
    let raw = utc(2026, 5, 14, 5, 45);
    let now = utc(2026, 5, 14, 6, 0);
    assert_eq!(effective_segment_start_at(raw, now, s, e, 3600), raw);
}

fn policy(start: &str, end: &str, allowed: u32) -> PolicySnapshot {
    PolicySnapshot {
        policy_version: 3,
        company_idle_threshold_seconds: Some(600),
        team_idle_threshold_seconds: None,
        employee_idle_threshold_seconds: None,
        effective_idle_threshold_seconds: 600,
        policy_scope: "COMPANY".into(),
        lunch_start_time: start.into(),
        lunch_end_time: end.into(),
        lunch_allowed_minutes: allowed,
        explanation_deadline_hours: 48,
        can_track_time: true,
        time_zone_offset_minutes: 540,
    }
}

#[test]
fn lunch_window_needs_break_time_and_valid_times() {
    let p = policy("12:30", "14:30", 60);
    assert_eq!(lunch_window_secs(Some(true), &p), Some((45000, 52200)));
    assert_eq!(lunch_window_secs(Some(false), &p), None);
    assert_eq!(lunch_window_secs(None, &p), None);
    assert_eq!(lunch_window_secs(Some(true), &policy("14:30", "12:30", 60)), None);
    assert_eq!(lunch_window_secs(Some(true), &policy("12:30", "12:30", 60)), None);
    assert_eq!(lunch_window_secs(Some(true), &policy("noon", "14:30", 60)), None);
}

#[test]
fn lunch_allowance_in_seconds() {
    assert_eq!(lunch_allowed_seconds(&policy("12:30", "14:30", 60)), 3600);
    assert_eq!(lunch_allowed_seconds(&policy("12:30", "14:30", 0)), 0);
}

fn sample(now: i64, idle: u64) -> IdleSample {
    IdleSample {
        idle_seconds: idle,
        now,
        tz_offset_minutes: 540,
        can_track_time: true,
        attendance: AttendanceStatus::Working,
        threshold_seconds: 600,
        work_status: WorkStatus::WorkingNow,
        lunch_window: Some((45000, 52200)),
        lunch_allowed_seconds: 3600,
        interval_seconds: 5,
    }
}

#[test]
fn opens_segment_at_last_input_once_threshold_reached() {
    let mut d = IdleDetector::new();
    let now = utc(2026, 5, 14, 1, 0);
    assert_eq!(d.tick(&sample(now, 599)), IdleAction::Nothing);
    assert_eq!(d.tick(&sample(now, 600)), IdleAction::Open { started: now - 600 });
    assert_eq!(d.state, IdleState::Active);
    assert!(d.on_segment_opened(Some("seg-1".to_string()), now - 600));
    assert_eq!(d.segment_started_at, Some(now - 600));
    assert_eq!(d.state, IdleState::IdleOpen { segment_id: "seg-1".to_string(), first_zero_at: None });
}

#[test]
fn failed_store_leaves_detector_active() {
    let mut d = IdleDetector::new();
    let now = utc(2026, 5, 14, 1, 0);
    assert!(!d.on_segment_opened(None, now - 600));
    assert_eq!(d.state, IdleState::Active);
    assert_eq!(d.segment_started_at, None);
}

#[test]
fn closes_after_grace_at_first_input() {
    let mut d = IdleDetector::new();
    let now = utc(2026, 5, 14, 1, 0);
    d.tick(&sample(now, 600));
    d.on_segment_opened(Some("seg-1".to_string()), now - 600);
    assert_eq!(d.tick(&sample(now + 10, 0)), IdleAction::Nothing);
    assert_eq!(d.state, IdleState::IdleOpen { segment_id: "seg-1".to_string(), first_zero_at: Some(now + 10) });
    assert_eq!(d.tick(&sample(now + 20, 0)), IdleAction::Nothing);
    let r = d.tick(&sample(now + 45, 0));
    assert_eq!(
        r,
        IdleAction::Close { segment_id: "seg-1".to_string(), started: now - 600, close_at: now + 10, toast_minutes: Some(10) }
    );
    assert_eq!(d.state, IdleState::Active);
    assert_eq!(d.segment_started_at, None);
}

#[test]
fn short_return_keeps_segment_open() {
    let mut d = IdleDetector::new();
    let now = utc(2026, 5, 14, 1, 0);
    d.tick(&sample(now, 600));
    d.on_segment_opened(Some("seg-2".to_string()), now - 600);
    d.tick(&sample(now + 10, 0));
    assert_eq!(d.tick(&sample(now + 15, 3)), IdleAction::Nothing);
    assert_eq!(d.state, IdleState::IdleOpen { segment_id: "seg-2".to_string(), first_zero_at: None });
    assert_eq!(d.tick(&sample(now + 50, 0)), IdleAction::Nothing);
}

#[test]
fn short_segment_closes_without_toast() {
    let mut d = IdleDetector::new();
    let now = utc(2026, 5, 14, 1, 0);
    d.on_segment_opened(Some("seg-3".to_string()), now);
    d.tick(&sample(now + 1, 0));
    let r = d.tick(&sample(now + 31, 0));
    assert_eq!(
        r,
        IdleAction::Close { segment_id: "seg-3".to_string(), started: now, close_at: now + 1, toast_minutes: None }
    );
}

#[test]
fn idle_inside_lunch_window_counts_against_allowance() {
    let mut d = IdleDetector::new();
    let now = utc(2026, 5, 14, 4, 0); // 13:00 KST
    assert_eq!(d.tick(&sample(now, 700)), IdleAction::Nothing);
    assert_eq!(d.lunch_used_secs, 5);
    assert_eq!(d.tick(&sample(now + 5, 705)), IdleAction::Nothing);
    assert_eq!(d.lunch_used_secs, 10);
    assert_eq!(d.state, IdleState::Active);
}

#[test]
fn lunch_allowance_caps_at_remaining_room() {
    let mut d = IdleDetector::new();
    let now = utc(2026, 5, 14, 4, 0);
    d.tick(&sample(now, 0));
    d.lunch_used_secs = 3598;
    assert_eq!(d.tick(&sample(now, 700)), IdleAction::Nothing);
    assert_eq!(d.lunch_used_secs, 3600);
}

#[test]
fn exhausted_allowance_opens_segment_after_allowance() {
    let mut d = IdleDetector::new();
    let now = utc(2026, 5, 14, 5, 0); // 14:00 KST
    d.tick(&sample(now, 0));
    d.lunch_used_secs = 3600;
    // last input 13:00 KST: allowance ran out at 14:00 KST
    assert_eq!(d.tick(&sample(now, 3600)), IdleAction::Open { started: now });
}

#[test]
fn entering_lunch_window_closes_segment_at_window_start() {
    let mut d = IdleDetector::new();
    let started = utc(2026, 5, 14, 3, 0); // 12:00 KST
    d.on_segment_opened(Some("seg-4".to_string()), started);
    let now = utc(2026, 5, 14, 3, 40); // 12:40 KST
    let r = d.tick(&sample(now, 2400));
    assert_eq!(
        r,
        IdleAction::Close {
            segment_id: "seg-4".to_string(),
            started,
            close_at: utc(2026, 5, 14, 3, 30),
            toast_minutes: Some(40),
        }
    );
}

#[test]
fn lunch_allowance_resets_at_company_midnight() {
    let mut d = IdleDetector::new();
    let day1 = utc(2026, 5, 14, 4, 0);
    d.tick(&sample(day1, 0));
    let first_day = d.lunch_reset_date;
    d.lunch_used_secs = 3600;
    // 2026-05-14 15:30 UTC is 00:30 KST on the next day
    let next = utc(2026, 5, 14, 15, 30);
    d.tick(&sample(next, 0));
    assert_eq!(d.lunch_used_secs, 0);
    assert_eq!(d.lunch_reset_date, first_day.map(|x| x + 1));
}

#[test]
fn blocked_poll_does_nothing() {
    let now = utc(2026, 5, 14, 1, 0);
    let mut d = IdleDetector::new();
    let mut s = sample(now, 5000);
    s.can_track_time = false;
    assert_eq!(d.tick(&s), IdleAction::Nothing);
    let mut s = sample(now, 5000);
    s.attendance = AttendanceStatus::Outing;
    assert_eq!(d.tick(&s), IdleAction::Nothing);
    let mut s = sample(now, 5000);
    s.work_status = WorkStatus::OffWork;
    assert_eq!(d.tick(&s), IdleAction::Nothing);
    let mut s = sample(now, 5000);
    s.attendance = AttendanceStatus::Unknown;
    assert_eq!(d.tick(&s), IdleAction::Open { started: now - 5000 });
    assert_eq!(d.state, IdleState::Active);
}

#[test]
fn lunch_example_window_with_one_hour_allowance() {
    // Window 12:30~14:30 KST, allowance 60 minutes, last input at 12:30 KST.
    let window_start = utc(2026, 5, 14, 3, 30);
    let mut d = IdleDetector::new();
    let mut first_action = None;
    let mut t = 5;
    while t <= 2 * 3600 {
        let now = window_start + t;
        let action = d.tick(&sample(now, t as u64));
        if action != IdleAction::Nothing {
            first_action = Some((t, action));
            break;
        }
        t += 5;
    }
    // The allowance counts from the threshold on (12:40) and runs out at 13:40;
    // the segment then starts where the allowance ended for the last input, 13:30.
    assert_eq!(first_action, Some((4200, IdleAction::Open { started: window_start + 3600 })));
    assert_eq!(d.lunch_used_secs, 3600);
}

#[test]
fn segment_open_across_window_end_starts_at_window_end() {
    // Last input 14:00 KST, allowance already used; at 14:45 the segment starts at 14:30.
    let window_end = utc(2026, 5, 14, 5, 30);
    let mut d = IdleDetector::new();
    let now = window_end + 15 * 60;
    d.tick(&sample(now, 0));
    d.lunch_used_secs = 3600;
    assert_eq!(d.tick(&sample(now, 45 * 60)), IdleAction::Open { started: window_end });
}

#[test]
fn poll_without_pin_plus_does_nothing() {
    let now = utc(2026, 5, 14, 1, 0);
    let mut d = IdleDetector::new();
    assert_eq!(d.poll(false, &sample(now, 5000)), IdleAction::Nothing);
    assert_eq!(d.state, IdleState::Active);
    assert_eq!(d.lunch_reset_date, None);
    assert_eq!(d.poll(true, &sample(now, 5000)), IdleAction::Open { started: now - 5000 });
}
