use chrono::{Local, TimeZone};
use pinple_pc_agent::dto::PolicySnapshot;
use pinple_pc_agent::lunch::{classify, classify_window, classify_with, LunchClassification};

fn policy() -> PolicySnapshot {
    PolicySnapshot {
        policy_version: 1,
        company_idle_threshold_seconds: Some(600),
        team_idle_threshold_seconds: None,
        employee_idle_threshold_seconds: None,
        effective_idle_threshold_seconds: 600,
        policy_scope: "COMPANY".into(),
        lunch_start_time: "11:30".into(),
        lunch_end_time: "14:00".into(),
        lunch_allowed_minutes: 60,
        explanation_deadline_hours: 48,
        can_track_time: true,
        time_zone_offset_minutes: 540,
    }
}

fn local_at(h: u32, m: u32) -> i64 {
    Local.with_ymd_and_hms(2026, 5, 7, h, m, 0).single().unwrap().timestamp()
}

#[test]
fn within_lunch_under_allowed_is_candidate() {
    let r = classify(local_at(12, 0), local_at(12, 45), &policy());
    assert_eq!(r, LunchClassification::LunchCandidate);
}

#[test]
fn within_lunch_over_allowed_is_exceeded() {
    let r = classify(local_at(12, 0), local_at(13, 30), &policy());
    match r {
        LunchClassification::LunchExceeded { exceeded_seconds } => {
            assert_eq!(exceeded_seconds, 30 * 60);
        }
        other => panic!("expected exceeded, got {other:?}"),
    }
}

#[test]
fn outside_lunch_window() {
    let r = classify(local_at(15, 0), local_at(15, 30), &policy());
    assert_eq!(r, LunchClassification::Outside);
}

#[test]
fn unparsable_lunch_time_is_outside() {
    let mut p = policy();
    p.lunch_start_time = "noon".into();
    assert_eq!(classify(local_at(12, 0), local_at(12, 45), &p), LunchClassification::Outside);
}

#[test]
fn classify_window_counts_only_the_overlap() {
    // Window [1000, 4600), allowance 10 minutes.
    assert_eq!(classify_window(0, 1000, 1000, 4600, 10), LunchClassification::Outside);
    assert_eq!(classify_window(4600, 5000, 1000, 4600, 10), LunchClassification::Outside);
    assert_eq!(classify_window(0, 1600, 1000, 4600, 10), LunchClassification::LunchCandidate);
    assert_eq!(
        classify_window(0, 9000, 1000, 4600, 10),
        LunchClassification::LunchExceeded { exceeded_seconds: 3600 - 600 }
    );
}

#[test]
fn classify_with_lays_window_on_midnight() {
    let midnight = 1_778_684_400;
    let noon = midnight + 12 * 3600;
    // window 11:30~14:00, allowance 60 minutes
    let (a, b) = (Some(41400), Some(50400));
    assert_eq!(classify_with(noon, noon + 2700, a, b, 60, Some(midnight)), LunchClassification::LunchCandidate);
    assert_eq!(
        classify_with(noon, noon + 5400, a, b, 60, Some(midnight)),
        LunchClassification::LunchExceeded { exceeded_seconds: 1800 }
    );
    assert_eq!(classify_with(noon, noon + 5400, a, b, 60, None), LunchClassification::Outside);
    assert_eq!(classify_with(noon, noon + 5400, None, b, 60, Some(midnight)), LunchClassification::Outside);
    assert_eq!(classify_with(noon, noon + 5400, a, None, 60, Some(midnight)), LunchClassification::Outside);
    assert_eq!(
        classify_with(midnight + 15 * 3600, midnight + 16 * 3600, a, b, 60, Some(midnight)),
        LunchClassification::Outside
    );
}
