use pinple_pc_agent::platform::monitor::input::{fake_override, parse_hid_idle_output, IdleSampler};
use pinple_pc_agent::platform::sync::event_sync::{
    mark_after_send, select_batch, EventRecord, EventStatus,
    batch_limit, has_segment_event, is_permanent_rejection, is_segment_event, refresh_after_send,
    retry_outcome, RetryOutcome,
};
use pinple_pc_agent::platform::sync::heartbeat::{after_heartbeat, initial_interval, next_interval, should_send, HeartbeatOutcome};
use pinple_pc_agent::platform::sync::policy_sync::{merged_can_track, policy_changed, policy_interval};
use pinple_pc_agent::platform::sync::user_info_sync::{
    after_user_info, can_track_after_plan_check, next_poll_seconds, poll_interval_after, UserInfoAnswer, UserInfoStep,
};

#[test]
fn batch_limit_is_at_least_one() {
    assert_eq!(batch_limit(0), 1);
    assert_eq!(batch_limit(1), 1);
    assert_eq!(batch_limit(50), 50);
}

#[test]
fn segment_events_are_recognised() {
    assert!(is_segment_event("IDLE_STARTED"));
    assert!(is_segment_event("IDLE_ENDED"));
    assert!(is_segment_event("NO_PC_RECORD"));
    assert!(!is_segment_event("HEARTBEAT"));
    assert!(!is_segment_event("idle_started"));
    assert!(has_segment_event(&vec!["LOGIN".to_string(), "IDLE_ENDED".to_string()]));
    assert!(!has_segment_event(&vec!["LOGIN".to_string(), "LOGOUT".to_string()]));
    assert!(!has_segment_event(&vec![]));
}

#[test]
fn refresh_needs_segment_event_and_acceptance() {
    assert!(refresh_after_send(true, 1));
    assert!(!refresh_after_send(true, 0));
    assert!(!refresh_after_send(false, 5));
}

#[test]
fn permanent_rejections() {
    assert!(is_permanent_rejection("invalid_explanation_type: foo"));
    assert!(is_permanent_rejection("request failed: http 404 Not Found"));
    assert!(is_permanent_rejection("HTTP 400"));
    assert!(is_permanent_rejection("HTTP 403 forbidden"));
    assert!(!is_permanent_rejection("HTTP 500"));
    assert!(!is_permanent_rejection("connection reset"));
}

#[test]
fn retry_outcomes() {
    assert_eq!(retry_outcome(None), RetryOutcome::Delete);
    assert_eq!(retry_outcome(Some("HTTP 404")), RetryOutcome::Discard);
    assert_eq!(retry_outcome(Some("timeout")), RetryOutcome::MarkFailed);
}

#[test]
fn heartbeat_intervals() {
    assert_eq!(initial_interval(10), 30);
    assert_eq!(initial_interval(120), 120);
    assert_eq!(next_interval(0), 30);
    assert_eq!(next_interval(600), 600);
    assert_eq!(next_interval(5000), 1800);
    assert!(should_send(true, true));
    assert!(!should_send(true, false));
    assert!(!should_send(false, true));
}

#[test]
fn policy_refresh_rules() {
    assert_eq!(policy_interval(5), 60);
    assert_eq!(policy_interval(300), 300);
    assert!(merged_can_track(true, true));
    assert!(!merged_can_track(true, false));
    assert!(!merged_can_track(false, true));
    assert!(policy_changed(3, 4));
    assert!(!policy_changed(4, 4));
}

#[test]
fn user_info_poll_interval() {
    assert_eq!(next_poll_seconds(10), 60);
    assert_eq!(next_poll_seconds(900), 900);
    assert_eq!(next_poll_seconds(100000), 21600);
    assert_eq!(poll_interval_after(None), 300);
    assert_eq!(poll_interval_after(Some(30)), 60);
    assert_eq!(poll_interval_after(Some(120)), 120);
}

#[test]
fn fake_idle_override() {
    assert_eq!(fake_override(Some("900")), Some(900));
    assert_eq!(fake_override(Some("x")), None);
    assert_eq!(fake_override(Some("")), None);
    assert_eq!(fake_override(None), None);
}

#[test]
fn sampler_keeps_last_value() {
    let mut s = IdleSampler::new();
    assert_eq!(s.on_measurement(Some(42)), 42);
    assert_eq!(s.on_measurement(None), 47);
    assert_eq!(s.last_idle, 47);
    assert_eq!(s.idle_seconds(Some("700"), Some(Some(3))), 700);
    assert_eq!(s.last_idle, 700);
    assert_eq!(s.idle_seconds(None, None), 0);
    assert_eq!(s.last_idle, 700);
    s.last_idle = u64::MAX - 1;
    assert_eq!(s.fallback_advance(), u64::MAX);
}

#[test]
fn hid_idle_time_from_ioreg() {
    let out = "  | |   \"HIDIdleTime\" = 12500000000\n  | |   \"Other\" = 1\n";
    assert_eq!(parse_hid_idle_output(out), Some(12));
    assert_eq!(parse_hid_idle_output("\"HIDIdleTime\" = 999999999"), Some(0));
    assert_eq!(parse_hid_idle_output("nothing here"), None);
    assert_eq!(parse_hid_idle_output("\"HIDIdleTime\" = abc\n\"HIDIdleTime\" = 3000000000"), Some(3));
}

#[test]
fn user_info_round_outcomes() {
    assert_eq!(
        after_user_info(UserInfoAnswer::Failed),
        UserInfoStep { logout: false, next_poll_seconds: 300, sleep_seconds: 300 }
    );
    assert_eq!(
        after_user_info(UserInfoAnswer::ForceLogout),
        UserInfoStep { logout: true, next_poll_seconds: 300, sleep_seconds: 30 }
    );
    assert_eq!(
        after_user_info(UserInfoAnswer::Answered { next_poll_seconds: 10 }),
        UserInfoStep { logout: false, next_poll_seconds: 60, sleep_seconds: 60 }
    );
    assert_eq!(
        after_user_info(UserInfoAnswer::Answered { next_poll_seconds: 900 }),
        UserInfoStep { logout: false, next_poll_seconds: 900, sleep_seconds: 900 }
    );
    assert!(can_track_after_plan_check(true));
    assert!(!can_track_after_plan_check(false));
}

#[test]
fn heartbeat_answer() {
    assert_eq!(
        after_heartbeat(5, true, false),
        HeartbeatOutcome { next_interval: 30, stop_tracking: false, logout: false }
    );
    assert_eq!(
        after_heartbeat(600, false, true),
        HeartbeatOutcome { next_interval: 600, stop_tracking: true, logout: true }
    );
}

fn ev(id: &str, status: EventStatus, retry_count: u32) -> EventRecord {
    EventRecord { event_id: id.to_string(), status, retry_count }
}

#[test]
fn batch_selection_skips_sent_events() {
    let q = vec![
        ev("a", EventStatus::Success, 0),
        ev("b", EventStatus::Pending, 0),
        ev("c", EventStatus::Failed, 2),
        ev("d", EventStatus::Pending, 0),
    ];
    assert_eq!(select_batch(&q, 50), vec!["b".to_string(), "c".to_string(), "d".to_string()]);
    assert_eq!(select_batch(&q, 2), vec!["b".to_string(), "c".to_string()]);
    assert_eq!(select_batch(&q, 0), Vec::<String>::new());
}

#[test]
fn sent_batch_marking() {
    let mut q = vec![
        ev("a", EventStatus::Pending, 0),
        ev("b", EventStatus::Failed, 2),
        ev("c", EventStatus::Pending, u32::MAX),
        ev("z", EventStatus::Pending, 0),
    ];
    let batch = vec!["a".to_string(), "b".to_string(), "c".to_string()];
    mark_after_send(&mut q, &batch, Some(&vec!["b".to_string()]));
    assert_eq!((q[0].status, q[0].retry_count), (EventStatus::Failed, 1));
    assert_eq!((q[1].status, q[1].retry_count), (EventStatus::Success, 2));
    assert_eq!((q[2].status, q[2].retry_count), (EventStatus::Failed, u32::MAX));
    assert_eq!((q[3].status, q[3].retry_count), (EventStatus::Pending, 0));
    mark_after_send(&mut q, &vec!["a".to_string(), "z".to_string()], None);
    assert_eq!((q[0].status, q[0].retry_count), (EventStatus::Failed, 2));
    assert_eq!((q[3].status, q[3].retry_count), (EventStatus::Failed, 1));
    assert_eq!(q[1].status, EventStatus::Success);
}

#[test]
fn failed_measurements_keep_counting() {
    let mut s = IdleSampler::new();
    s.record(100);
    assert_eq!(s.on_measurement(None), 105);
    assert_eq!(s.on_measurement(None), 110);
    assert_eq!(s.on_measurement(None), 115);
    assert_eq!(s.on_measurement(Some(3)), 3);
    assert_eq!(s.on_measurement(None), 8);
    s.record(u64::MAX - 7);
    assert_eq!(s.on_measurement(None), u64::MAX - 2);
    assert_eq!(s.on_measurement(None), u64::MAX);
    assert_eq!(s.on_measurement(None), u64::MAX);
}

#[test]
fn idle_seconds_failed_query_continues_count() {
    let mut s = IdleSampler::new();
    assert_eq!(s.idle_seconds(None, Some(Some(40))), 40);
    assert_eq!(s.idle_seconds(None, Some(None)), 45);
    assert_eq!(s.idle_seconds(None, Some(None)), 50);
    assert_eq!(s.idle_seconds(Some("x"), Some(None)), 55);
    assert_eq!(s.idle_seconds(Some("9"), Some(None)), 9);
    assert_eq!(s.idle_seconds(None, Some(Some(0))), 0);
    assert_eq!(s.idle_seconds(None, Some(None)), 5);
}
