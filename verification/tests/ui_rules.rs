use pinple_pc_agent::domain::service::explanation_type_service::system_default_types;
use pinple_pc_agent::dto::{PolicySnapshot, RemoteExplanation};
use pinple_pc_agent::ui::explanation_input_view::{submit_error_message, ExplanationForm};
use pinple_pc_agent::ui::explanation_list_view::{
    clear_cache, ensure_loaded, filtered_indices, finish_fetch, is_actionable, mark_submitted_optimistic,
    request_refresh, status_label, ExplanationFilter, ExplanationStatus, ListCache,
};
use pinple_pc_agent::ui::login_view::LoginForm;
use pinple_pc_agent::ui::router::{
    close_hides_window, initial_route, route_after_login_check, route_after_tray, Route, TrayCommand,
};
use pinple_pc_agent::ui::settings_view::{
    cms_begin, humanize_cms_error, humanize_policy_patch_error, is_company_admin, normalize_tab, visible_tabs,
    ExplanationCmsForm, PolicyEditForm, SettingsTab, SettingsUi,
};

fn row(id: &str, status: &str) -> RemoteExplanation {
    RemoteExplanation {
        segment_id: id.to_string(),
        work_date: "2026-05-14".to_string(),
        start_time: Some(1_778_720_000),
        end_time: Some(1_778_721_200),
        duration_seconds: Some(1200),
        applied_idle_threshold_seconds: 600,
        segment_type: "IDLE".to_string(),
        explanation_status: status.to_string(),
        explanation_deadline: None,
    }
}

#[test]
fn status_wire_names_round_trip() {
    for s in [
        ExplanationStatus::Pending,
        ExplanationStatus::Submitted,
        ExplanationStatus::Expired,
        ExplanationStatus::Exempted,
    ] {
        assert_eq!(ExplanationStatus::parse(s.as_str()), s);
    }
    assert_eq!(ExplanationStatus::parse("whatever"), ExplanationStatus::Pending);
    assert_eq!(status_label(ExplanationStatus::Expired), "기한 만료");
    assert!(is_actionable(ExplanationStatus::Pending));
    assert!(is_actionable(ExplanationStatus::Expired));
    assert!(!is_actionable(ExplanationStatus::Submitted));
    assert!(!is_actionable(ExplanationStatus::Exempted));
}

#[test]
fn filter_tabs() {
    assert_eq!(ExplanationFilter::default(), ExplanationFilter::Needs);
    assert_eq!(ExplanationFilter::Review.label(), "검토중");
    let items = vec![row("a", "PENDING"), row("b", "SUBMITTED"), row("c", "EXEMPTED"), row("d", "PENDING")];
    assert_eq!(filtered_indices(&items, ExplanationFilter::Needs), vec![0, 3]);
    assert_eq!(filtered_indices(&items, ExplanationFilter::Review), vec![1]);
    assert_eq!(filtered_indices(&items, ExplanationFilter::Approved), vec![2]);
    assert_eq!(filtered_indices(&items, ExplanationFilter::All), vec![0, 1, 2, 3]);
}

#[test]
fn list_cache_lifecycle() {
    let mut c = ListCache::default();
    assert!(ensure_loaded(&mut c, 7));
    assert!(c.loading);
    // a second entry while loading sends nothing
    assert!(!ensure_loaded(&mut c, 7));
    assert!(!request_refresh(&mut c, 7));
    finish_fetch(&mut c, Ok(vec![row("a", "PENDING")]), 1000);
    assert!(!c.loading);
    assert_eq!(c.last_fetched_at, Some(1000));
    assert_eq!(c.items.as_ref().map(|v| v.len()), Some(1));
    // a loaded list is not fetched again on entry
    assert!(!ensure_loaded(&mut c, 7));
    // another employee drops the rows at once
    assert!(ensure_loaded(&mut c, 8));
    assert!(c.items.is_none());
    assert_eq!(c.employee_id, 8);
    finish_fetch(&mut c, Err("HTTP 500".to_string()), 2000);
    assert_eq!(c.error.as_deref(), Some("HTTP 500"));
    // after an error the entry does not retry by itself
    assert!(!ensure_loaded(&mut c, 8));
    assert!(request_refresh(&mut c, 8));
    assert!(c.error.is_none());
    clear_cache(&mut c);
    assert!(c.items.is_none() && !c.loading && c.error.is_none() && c.employee_id == 0);
    assert!(ensure_loaded(&mut c, 8));
}

#[test]
fn optimistic_submission_marks_only_that_segment() {
    let mut c = ListCache::default();
    ensure_loaded(&mut c, 1);
    finish_fetch(&mut c, Ok(vec![row("a", "PENDING"), row("b", "PENDING")]), 10);
    mark_submitted_optimistic(&mut c, "b");
    let items = c.items.as_ref().unwrap();
    assert_eq!(items[0].explanation_status, "PENDING");
    assert_eq!(items[1].explanation_status, "SUBMITTED");
    assert_eq!(items[1].segment_id, "b");
}

#[test]
fn admin_tabs() {
    assert!(is_company_admin(Some(1)));
    assert!(is_company_admin(Some(2)));
    assert!(!is_company_admin(Some(3)));
    assert!(!is_company_admin(None));
    assert_eq!(visible_tabs(false), vec![SettingsTab::General, SettingsTab::Detection, SettingsTab::Account]);
    assert_eq!(visible_tabs(true).len(), 5);
    assert_eq!(normalize_tab(SettingsTab::CompanyPolicy, false), SettingsTab::General);
    assert_eq!(normalize_tab(SettingsTab::CompanyPolicy, true), SettingsTab::CompanyPolicy);
    assert_eq!(normalize_tab(SettingsTab::Account, false), SettingsTab::Account);
}

fn snapshot(version: i64) -> PolicySnapshot {
    PolicySnapshot {
        policy_version: version,
        company_idle_threshold_seconds: Some(600),
        team_idle_threshold_seconds: None,
        employee_idle_threshold_seconds: None,
        effective_idle_threshold_seconds: 600,
        policy_scope: "COMPANY".into(),
        lunch_start_time: "12:00".into(),
        lunch_end_time: "13:00".into(),
        lunch_allowed_minutes: 60,
        explanation_deadline_hours: 48,
        can_track_time: true,
        time_zone_offset_minutes: 540,
    }
}

#[test]
fn policy_form_sends_only_changes() {
    let mut f = PolicyEditForm::default();
    assert!(f.needs_init(&snapshot(1)));
    f.init_from(&snapshot(1));
    assert!(!f.needs_init(&snapshot(1)));
    assert!(f.needs_init(&snapshot(2)));
    assert!(f.diff_patch().is_empty());
    f.lunch_end_time = "13:30".to_string();
    f.idle_threshold_seconds = 900;
    let p = f.diff_patch();
    assert_eq!(p.lunch_end_time.as_deref(), Some("13:30"));
    assert_eq!(p.idle_threshold_seconds, Some(900));
    assert_eq!(p.lunch_start_time, None);
    assert_eq!(p.can_track_time, None);
    assert!(!p.is_empty());
}

#[test]
fn cms_form_defaults_and_begin() {
    let mut f = ExplanationCmsForm::default();
    assert_eq!(f.create_sort, 1000);
    assert_eq!(f.usage_days, 30);
    cms_begin(&mut f, "비활성화");
    assert!(f.pending);
    assert_eq!(f.status.as_deref(), Some("비활성화 호출 중…"));
    let s = SettingsUi::default();
    assert!(s.auto_start && s.notifications && s.tray_icon);
}

#[test]
fn refusal_messages() {
    assert_eq!(
        humanize_cms_error("http 403 forbidden"),
        "권한이 없습니다 — 최고관리자(Author=1) 또는 총괄관리자(Author=2) 만 가능합니다."
    );
    assert_eq!(humanize_cms_error("AT_LEAST_ONE_REQUIRED"), "마지막 활성 사유는 비활성화할 수 없습니다 (최소 1개 유지)");
    assert_eq!(humanize_cms_error("protected_type"), "시스템 보호 사유(예: 기타)는 비활성화할 수 없습니다.");
    assert_eq!(humanize_cms_error("DUPLICATE_CODE"), "이미 같은 코드가 존재합니다.");
    assert_eq!(
        humanize_cms_error("HTTP 404"),
        "대상 SID 를 찾을 수 없습니다 (이미 비활성 또는 다른 회사 row 일 수 있음)."
    );
    assert_eq!(humanize_cms_error("HTTP 400 bad"), "입력 검증 실패: HTTP 400 bad");
    assert_eq!(humanize_cms_error("boom"), "boom");
    assert_eq!(
        humanize_policy_patch_error("FORBIDDEN"),
        "권한이 없습니다 — 회사 관리자(Emply.Author≥5)만 저장 가능합니다."
    );
    assert_eq!(
        humanize_policy_patch_error("invalid_patch: x"),
        "입력이 서버 검증을 통과하지 못했습니다: invalid_patch: x"
    );
    assert_eq!(humanize_policy_patch_error("HTTP 404"), "요청자 EMPSID 가 서버에 없습니다 (재로그인 필요).");
    assert_eq!(humanize_policy_patch_error("timeout"), "저장 실패: timeout");
}

#[test]
fn explanation_form_rules() {
    let types = system_default_types();
    let mut f = ExplanationForm::default();
    f.default_selection(&types);
    assert_eq!(f.selected_code, "MEETING");
    assert_eq!(f.selected_label(&types), "회의");
    assert!(!f.requires_text(&types));
    assert!(f.can_submit(&types));
    f.selected_code = "OUTSIDE_WORK".to_string();
    assert!(f.requires_text(&types));
    f.explanation_text = "   ".to_string();
    assert!(!f.can_submit(&types));
    assert_eq!(f.explanation_text_value(), None);
    f.explanation_text = "  client visit ".to_string();
    assert!(f.can_submit(&types));
    assert_eq!(f.explanation_text_value().as_deref(), Some("client visit"));
    assert_eq!(f.other_type_label_value(), Ok(None));
    f.selected_code = "OTHER".to_string();
    assert!(f.is_other());
    assert!(!f.can_submit(&types));
    assert_eq!(f.other_type_label_value(), Err("기타 유형명을 입력해 주세요.".to_string()));
    f.other_type_label = " 병원 ".to_string();
    assert!(f.can_submit(&types));
    assert_eq!(f.other_type_label_value(), Ok(Some("병원".to_string())));
    f.selected_code = "UNKNOWN".to_string();
    assert_eq!(f.selected_label(&types), "선택");
}

#[test]
fn submission_failure_messages() {
    assert_eq!(
        submit_error_message("invalid_explanation_type"),
        "사유 목록이 변경됐을 수 있습니다. 잠시 후 새로고침해 다시 선택해 주세요.\n(로컬에는 저장됨)"
    );
    assert_eq!(submit_error_message("timeout"), "서버 전송 실패 — 로컬에 저장됨: timeout");
}

#[test]
fn login_form_flow() {
    let mut f = LoginForm::default();
    assert!(!f.can_submit());
    f.email = "  me@corp.kr ".to_string();
    f.password = "pw".to_string();
    f.auto_login = true;
    assert!(f.can_submit());
    let req = f.start_login();
    assert_eq!(req.email, "me@corp.kr");
    assert_eq!(req.password, "pw");
    assert!(req.auto_login);
    assert!(f.password.is_empty());
    assert!(f.busy);
    assert!(!f.can_submit());
    f.finish_login(Some("bad password".to_string()));
    assert!(!f.busy);
    assert_eq!(f.error.as_deref(), Some("bad password"));
}

#[test]
fn routing() {
    assert_eq!(initial_route(true), Route::Status);
    assert_eq!(initial_route(false), Route::Login);
    assert_eq!(route_after_login_check(Route::Login, true), Route::Status);
    assert_eq!(route_after_login_check(Route::Login, false), Route::Login);
    assert_eq!(route_after_login_check(Route::Settings, true), Route::Settings);
    assert_eq!(
        route_after_tray(Route::Status, TrayCommand::OpenExplanation, true),
        Route::ExplanationList { today_only: false }
    );
    assert_eq!(route_after_tray(Route::Login, TrayCommand::OpenExplanation, false), Route::Login);
    assert_eq!(route_after_tray(Route::Settings, TrayCommand::Show, true), Route::Settings);
    assert!(close_hides_window(true, false, true));
    assert!(!close_hides_window(true, true, true));
    assert!(!close_hides_window(false, false, true));
}
