use pinple_pc_agent::domain::model::attendance::AttendanceStatus;
use pinple_pc_agent::domain::model::main_info::MainInfo;
use pinple_pc_agent::domain::model::policy::PolicyScope;
use pinple_pc_agent::domain::model::subscription::Subscription;
use pinple_pc_agent::domain::model::user::User;
use pinple_pc_agent::domain::service::explanation_type_service::{current_types, store_response, system_default_types};
use pinple_pc_agent::domain::service::session_caches::{clear_all, SessionCaches};
use pinple_pc_agent::domain::service::subscription_service::pin_plus_active;
use pinple_pc_agent::domain::service::user_service::{end_session, is_logged_in, logout, LogoutReason};
use pinple_pc_agent::domain::service::work_status_service::{current_result, current_status, set_result, WorkStatus};
use pinple_pc_agent::ui::settings_view::{cms_requester_emp_sid, cms_session_keys};
use pinple_pc_agent::domain::usecase::user_usecase::{
    apply_subscription_gate, begin_session, login_event_type, start_session, team_id_or_zero,
};
use pinple_pc_agent::platform::monitor::idle_detector::measures_input;
use pinple_pc_agent::dto::{ExplanationType, ExplanationTypesResponse};

fn main_info(join_date: &str) -> MainInfo {
    MainInfo {
        start_time: "09:00".to_string(),
        end_time: String::new(),
        join_date: join_date.to_string(),
        remaining_annual_minutes: 0,
        work_minutes: 0,
        add_minutes: 0,
        used_minutes: 0,
        unread_message_count: 0,
        deduct_on_late: false,
        deduct_on_early_leave: false,
        deduct_on_outing: false,
        annual_by_join_date: false,
        daily_annual_by_join_date: false,
        use_break_time: true,
        use_schedule: false,
        auto_checkout_mode: 0,
        commute_notify: false,
        work_52h_unit: 0,
    }
}

fn user(team_id: Option<i64>) -> User {
    User {
        member_id: 1,
        employee_id: 10,
        company_id: 100,
        team_id,
        team_template_id: 0,
        employee_id_str: "10".to_string(),
        company_id_str: "100".to_string(),
        team_id_str: None,
        email: "kim@corp.kr".to_string(),
        display_name: None,
        employee_name: None,
        english_name: None,
        position: None,
        employee_number: None,
        phone: None,
        backup_email: None,
        profile_image_url: None,
        authority: 3,
        join_date: None,
        registered_date: None,
        birth_date: None,
        update_recommended: false,
        update_message: None,
    }
}

#[test]
fn session_start_and_clear() {
    let mut c = SessionCaches::new();
    assert!(!is_logged_in(&c));
    assert!(!pin_plus_active(&c));
    begin_session(&mut c, Subscription { pin_plus_active: true, paid_active: false }, main_info(""), user(Some(5)));
    assert!(is_logged_in(&c));
    assert!(pin_plus_active(&c));
    set_result(&mut c, 1234);
    assert_eq!(current_status(&c), WorkStatus::WorkingNow);
    clear_all(&mut c);
    assert!(!pin_plus_active(&c));
    assert_eq!(current_status(&c), WorkStatus::Unknown);
    assert!(c.main_info.is_none() && c.work_status_result.is_none());
    // the user slot is left to the caller
    assert!(is_logged_in(&c));
}

#[test]
fn reasons_fall_back_to_built_in_list() {
    let mut c = SessionCaches::new();
    let defaults = current_types(&c);
    assert_eq!(defaults.len(), 13);
    assert_eq!(defaults[0].code, "MEETING");
    assert_eq!(defaults[12].code, "OTHER");
    assert!(defaults[12].is_protected);
    assert!(defaults.iter().all(|t| t.is_system && t.exptype_sid.is_none()));
    let custom = ExplanationType {
        exptype_sid: Some(77),
        code: "VISIT".to_string(),
        label: "방문".to_string(),
        sort_order: 5,
        icon: None,
        requires_text: true,
        is_system: false,
        is_protected: false,
    };
    store_response(&mut c, &ExplanationTypesResponse { version: 2, types: vec![custom], seeded: false });
    let now = current_types(&c);
    assert_eq!(now.len(), 1);
    assert_eq!(now[0].code, "VISIT");
    assert_eq!(now[0].exptype_sid, Some(77));
    clear_all(&mut c);
    assert_eq!(current_types(&c).len(), system_default_types().len());
}

#[test]
fn login_rules() {
    assert!(apply_subscription_gate(true, true));
    assert!(!apply_subscription_gate(true, false));
    assert!(!apply_subscription_gate(false, true));
    assert_eq!(login_event_type(true), "AUTO_LOGIN_SUCCESS");
    assert_eq!(login_event_type(false), "LOGIN_SUCCESS");
    assert_eq!(team_id_or_zero(&user(Some(5))), 5);
    assert_eq!(team_id_or_zero(&user(None)), 0);
}

#[test]
fn join_date_placeholder() {
    assert!(main_info("").is_join_date_unset());
    assert!(main_info("1900-01-01").is_join_date_unset());
    assert!(main_info("1900-01-01T00:00:00").is_join_date_unset());
    assert!(!main_info("2020-03-02").is_join_date_unset());
}

#[test]
fn policy_scope_wire_names() {
    assert_eq!(PolicyScope::from_wire("EMPLOYEE"), PolicyScope::Employee);
    assert_eq!(PolicyScope::from_wire("TEAM"), PolicyScope::Team);
    assert_eq!(PolicyScope::from_wire("COMPANY"), PolicyScope::Company);
    assert_eq!(PolicyScope::from_wire("other"), PolicyScope::Default);
    assert_eq!(PolicyScope::Team.as_str(), "TEAM");
}

#[test]
fn attendance_gates_and_labels() {
    assert_eq!(AttendanceStatus::default(), AttendanceStatus::Unknown);
    assert!(AttendanceStatus::Working.enables_tracking());
    assert!(!AttendanceStatus::Outing.enables_tracking());
    assert!(!AttendanceStatus::Unknown.enables_tracking());
    assert!(WorkStatus::WorkingNow.allows_tracking());
    assert!(!WorkStatus::NotIn.allows_tracking());
    assert_eq!(AttendanceStatus::Outing.label(), "외출 중");
    assert_eq!(WorkStatus::NotIn.label(), "미출근");
    assert_eq!(LogoutReason::UserAction.as_str(), "USER_ACTION");
    assert_eq!(LogoutReason::ForceLogout.as_str(), "FORCE_LOGOUT");
}

#[test]
fn logout_forgets_the_session() {
    let mut c = SessionCaches::new();
    begin_session(&mut c, Subscription { pin_plus_active: true, paid_active: true }, main_info(""), user(None));
    set_result(&mut c, 5);
    end_session(&mut c);
    assert!(!is_logged_in(&c));
    assert!(!pin_plus_active(&c));
    assert_eq!(current_status(&c), WorkStatus::Unknown);
    assert!(c.main_info.is_none() && c.subscription.is_none() && c.explanation_types.is_none());
}

#[test]
fn session_keys_for_administration() {
    let u = user(Some(5));
    assert_eq!(cms_requester_emp_sid(Some(&u)), Some(10));
    assert_eq!(cms_requester_emp_sid(None), None);
    assert_eq!(cms_session_keys(Some(&u)), Some((10, 100)));
    assert_eq!(cms_session_keys(None), None);
    let mut c = SessionCaches::new();
    assert_eq!(current_result(&c), None);
    set_result(&mut c, 0);
    assert_eq!(current_result(&c), Some(0));
}

#[test]
fn login_and_logout_effects() {
    let mut c = SessionCaches::new();
    assert!(!measures_input(&c));
    let out = start_session(&mut c, Subscription { pin_plus_active: false, paid_active: true }, main_info(""), user(None), true, true);
    assert!(!out.can_track_time);
    assert_eq!(out.event_type, "AUTO_LOGIN_SUCCESS");
    assert!(is_logged_in(&c));
    assert!(!measures_input(&c));
    let out = start_session(&mut c, Subscription { pin_plus_active: true, paid_active: true }, main_info(""), user(None), false, true);
    assert!(out.can_track_time);
    assert_eq!(out.event_type, "LOGIN_SUCCESS");
    assert!(measures_input(&c));
    let eff = logout(&mut c, LogoutReason::ForceLogout);
    assert_eq!(eff.event_type, "LOGOUT");
    assert_eq!(eff.reason, "FORCE_LOGOUT");
    assert!(eff.clear_credentials);
    assert!(!eff.can_track_time);
    assert!(!is_logged_in(&c));
    assert!(!measures_input(&c));
}
