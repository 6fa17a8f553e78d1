use pinple_pc_agent::dto::PolicySnapshot;
use pinple_pc_agent::platform::monitor::policy::{resolve, Scope};

fn p(c: Option<u64>, t: Option<u64>, e: Option<u64>) -> PolicySnapshot {
    PolicySnapshot {
        policy_version: 0,
        company_idle_threshold_seconds: c,
        team_idle_threshold_seconds: t,
        employee_idle_threshold_seconds: e,
        effective_idle_threshold_seconds: 0,
        policy_scope: String::new(),
        lunch_start_time: "11:30".to_string(),
        lunch_end_time: "14:00".to_string(),
        lunch_allowed_minutes: 60,
        explanation_deadline_hours: 48,
        can_track_time: true,
        time_zone_offset_minutes: 540,
    }
}

#[test]
fn employee_wins() {
    let (v, s) = resolve(&p(Some(600), Some(900), Some(450)), 600);
    assert_eq!(v, 450);
    assert_eq!(s, Scope::Employee);
}

#[test]
fn team_when_no_employee() {
    let (v, s) = resolve(&p(Some(600), Some(900), None), 600);
    assert_eq!(v, 900);
    assert_eq!(s, Scope::Team);
}

#[test]
fn company_when_no_team() {
    let (v, s) = resolve(&p(Some(600), None, None), 600);
    assert_eq!(v, 600);
    assert_eq!(s, Scope::Company);
}

#[test]
fn default_when_nothing() {
    let (v, s) = resolve(&p(None, None, None), 600);
    assert_eq!(v, 600);
    assert_eq!(s, Scope::Default);
}

#[test]
fn team_used_when_only_team_and_employee_missing() {
    let (v, s) = resolve(&p(None, Some(120), None), 600);
    assert_eq!((v, s), (120, Scope::Team));
    assert_eq!(Scope::Team.as_str(), "TEAM");
    assert_eq!(Scope::Default.as_str(), "DEFAULT");
}
