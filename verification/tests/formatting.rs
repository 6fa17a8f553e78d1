use chrono::{TimeZone, Utc};
use pinple_pc_agent::domain::model::user::User;
use pinple_pc_agent::domain::service::user_service::mask_email;
use pinple_pc_agent::platform::device::{detect_device_name, os_label, stored_or_new};
use pinple_pc_agent::platform::notify::explanation_request_body;
use pinple_pc_agent::ui::status_view::format_active;
use pinple_pc_agent::util::{
    company_offset, format_clock_time, format_company_dt, format_company_time, format_duration_human, format_local_dt, format_local_time,
};

#[test]
fn duration_text_by_magnitude() {
    assert_eq!(format_duration_human(8), "8초");
    assert_eq!(format_duration_human(0), "0초");
    assert_eq!(format_duration_human(312), "5분 12초");
    assert_eq!(format_duration_human(7500), "2시간 5분");
    assert_eq!(format_duration_human(3600), "1시간 0분");
    assert_eq!(format_duration_human(-40), "0초");
}

#[test]
fn company_time_is_zero_padded() {
    let t = Utc.with_ymd_and_hms(2026, 5, 14, 0, 5, 0).unwrap().timestamp();
    assert_eq!(format_company_time(t, 540), "09:05");
    assert_eq!(format_company_time(t, 0), "00:05");
    assert_eq!(format_company_time(t, -300), "19:05");
}

#[test]
fn company_date_time_text() {
    let t = Utc.with_ymd_and_hms(2026, 5, 14, 20, 5, 9).unwrap().timestamp();
    assert_eq!(format_company_dt(t, 540), "2026-05-15 05:05:09");
    assert_eq!(format_company_dt(t, 0), "2026-05-14 20:05:09");
    assert_eq!(format_company_dt(t, -5000), "2026-05-15 05:05:09");
    assert_eq!(format_company_dt(t, -720), "2026-05-14 08:05:09");
}

#[test]
fn company_offset_out_of_range_falls_back_to_kst() {
    assert_eq!(company_offset(540), 32400);
    assert_eq!(company_offset(-300), -18000);
    assert_eq!(company_offset(840), 50400);
    assert_eq!(company_offset(-720), -43200);
    assert_eq!(company_offset(841), 32400);
    assert_eq!(company_offset(5000), 32400);
    assert_eq!(company_offset(-5000), 32400);
}

#[test]
fn active_time_text() {
    assert_eq!(format_active(15120), "4h 12m");
    assert_eq!(format_active(1500), "25m");
    assert_eq!(format_active(59), "0m");
    assert_eq!(format_active(-10), "0m");
}

#[test]
fn email_is_masked_for_logs() {
    assert_eq!(mask_email("johndoe@example.com"), "joh***@example.com");
    assert_eq!(mask_email("ab@x.io"), "ab***@x.io");
    assert_eq!(mask_email("no-at-sign"), "***");
    assert_eq!(mask_email("@host"), "***@host");
}

fn user(email: &str, display_name: Option<&str>) -> User {
    User {
        member_id: 1,
        employee_id: 10,
        company_id: 100,
        team_id: None,
        team_template_id: 0,
        employee_id_str: "10".to_string(),
        company_id_str: "100".to_string(),
        team_id_str: None,
        email: email.to_string(),
        display_name: display_name.map(|s| s.to_string()),
        employee_name: None,
        english_name: None,
        position: None,
        employee_number: None,
        phone: None,
        backup_email: None,
        profile_image_url: None,
        authority: 3,
        join_date: None,
        registered_date: None,
        birth_date: None,
        update_recommended: false,
        update_message: None,
    }
}

#[test]
fn display_name_falls_back_to_email_local_part() {
    assert_eq!(user("kim@corp.kr", Some("김철수")).name_for_display(), "김철수");
    assert_eq!(user("kim@corp.kr", None).name_for_display(), "kim");
    assert_eq!(user("kim", None).name_for_display(), "kim");
    assert!(user("kim@corp.kr", None).can_track_time());
}

#[test]
fn device_name_and_os() {
    assert_eq!(detect_device_name(Some("DESKTOP-1"), "Windows"), "DESKTOP-1 (Windows)");
    assert_eq!(detect_device_name(None, "macOS"), "unknown-host (macOS)");
    assert_eq!(os_label(true, false), "Windows");
    assert_eq!(os_label(false, true), "macOS");
    assert_eq!(os_label(false, false), "Other");
}

#[test]
fn stored_device_id_is_kept() {
    assert_eq!(stored_or_new(Some("old".to_string()), "new".to_string()), ("old".to_string(), false));
    assert_eq!(stored_or_new(None, "new".to_string()), ("new".to_string(), true));
}

#[test]
fn notification_body_text() {
    assert_eq!(
        explanation_request_body("10:00", "10:25", 25),
        "10:00 ~ 10:25 자리비움 25분이 감지되었습니다.\n소명하지 않은 시간은 휴게시간으로 처리될 수 있습니다."
    );
    assert_eq!(
        explanation_request_body("a", "b", -3),
        "a ~ b 자리비움 -3분이 감지되었습니다.\n소명하지 않은 시간은 휴게시간으로 처리될 수 있습니다."
    );
}

#[test]
fn pc_clock_texts_follow_the_machine_time_zone() {
    for t in [0i64, 1_778_720_000, 1_800_000_000, -86_400 * 400] {
        let dt = chrono::DateTime::from_timestamp(t, 0).unwrap().with_timezone(&chrono::Local);
        assert_eq!(format_local_time(t), dt.format("%H:%M").to_string());
        assert_eq!(format_local_dt(t), dt.format("%Y-%m-%d %H:%M:%S").to_string());
    }
}

#[test]
fn clock_time_at_an_offset() {
    let t = Utc.with_ymd_and_hms(2026, 5, 14, 23, 50, 0).unwrap().timestamp();
    assert_eq!(format_clock_time(t, 0), "23:50");
    assert_eq!(format_clock_time(t, 32400), "08:50");
    assert_eq!(format_clock_time(t, -18000), "18:50");
    assert_eq!(format_clock_time(t, 600), "00:00");
    assert_eq!(format_clock_time(t, 86399), "23:49");
}
