use pinple_pc_agent::dto::{ExplanationType, PolicySnapshot, RemoteExplanation};
use pinple_pc_agent::platform::monitor::idle_detector::{explanation_deadline_at, poll_interval_seconds};
use pinple_pc_agent::ui::explanation_input_view::{
    applied_threshold_text, segment_length_text, text_caption, ExplanationForm,
};
use pinple_pc_agent::ui::explanation_list_view::{
    duration_cell, empty_message, filter_hint, find_in_cache, load_error_text, refresh_label,
    shows_generation_note, store_response_for, tab_count, tab_label, threshold_cell, work_date_cell,
    ExplanationFilter, ExplanationStatus, ListCache,
};
use pinple_pc_agent::ui::login_view::{button_caption, should_start_login, submit_via_enter, version_label};
use pinple_pc_agent::ui::settings_view::{
    cms_buttons, cms_create_request, cms_deactivate_request, cms_finish, cms_patch_request, cms_usage_request,
    create_result_text, deactivate_result_text, deadline_info, dirty_caption, lunch_info, name_or_dash,
    patch_result_text, save_caption, save_enabled, threshold_info, type_details, type_title, usage_result_text,
    ExplanationCmsForm, PolicyEditForm, UsageRow,
};
use pinple_pc_agent::ui::status_view::{
    header_title, hour_label, idle_subtitle, idle_summary, longest_idle, now_label, pending_count,
    sync_status_text, threshold_label, timeline_hours, timeline_span, today_active_seconds, PcStatus,
};
use pinple_pc_agent::ui::update_view::{labeled, shows_download_link, update_required_text};

#[test]
fn status_header() {
    assert_eq!(PcStatus::Idle.label(), "자리비움");
    assert_eq!(PcStatus::Offline.label(), "오프라인");
    assert_eq!(header_title(Some("김철수"), "개발팀"), "김철수 개발팀");
    assert_eq!(header_title(Some("김철수"), ""), "김철수");
    assert_eq!(header_title(None, "개발팀"), "—");
}

#[test]
fn status_figures() {
    let statuses = vec![
        ExplanationStatus::Pending,
        ExplanationStatus::Submitted,
        ExplanationStatus::Expired,
        ExplanationStatus::Exempted,
    ];
    assert_eq!(pending_count(&statuses), 2);
    assert_eq!(pending_count(&vec![]), 0);
    let midnight = 1_778_684_400;
    let durations = vec![Some(600), None, Some(1200)];
    assert_eq!(today_active_seconds(midnight + 7200, midnight, &durations), 7200 - 1800);
    assert_eq!(today_active_seconds(midnight + 1000, midnight, &durations), 0);
    assert_eq!(today_active_seconds(midnight - 50, midnight, &vec![]), 0);
    assert_eq!(longest_idle(&durations), 1200);
    assert_eq!(longest_idle(&vec![None]), 0);
    assert_eq!(longest_idle(&vec![Some(-5)]), -5);
    assert_eq!(idle_summary(1800, 2), "30분 0초  ·2회");
    assert_eq!(idle_summary(1800, 0), "—");
    assert_eq!(idle_subtitle(1200), "최장 이탈 20분 0초");
    assert_eq!(idle_subtitle(0), "이탈 없음");
    assert_eq!(threshold_label(600), "이탈 기준 10분");
    assert_eq!(sync_status_text(Some((9, 5, 7))), "서버 연결됨 · 동기화 09:05:07");
    assert_eq!(sync_status_text(None), "동기화 대기 중");
}

#[test]
fn status_timeline() {
    assert_eq!(timeline_hours(8), Vec::<u32>::new());
    assert_eq!(timeline_hours(9), Vec::<u32>::new());
    assert_eq!(timeline_hours(10), vec![9]);
    assert_eq!(timeline_hours(14), vec![9, 11, 13]);
    assert_eq!(timeline_hours(15), vec![9, 11, 13]);
    assert_eq!(hour_label(9), "09:00");
    assert_eq!(now_label(14, 5), "현재 14:05");
    let origin = 1_000_000;
    assert_eq!(timeline_span(origin + 100, Some(origin + 400), origin, origin + 1000), Some((100, 400)));
    assert_eq!(timeline_span(origin - 100, Some(origin + 50), origin, origin + 1000), Some((0, 50)));
    assert_eq!(timeline_span(origin + 100, None, origin, origin + 1000), Some((100, 1000)));
    assert_eq!(timeline_span(origin + 2000, None, origin, origin + 1000), None);
    assert_eq!(timeline_span(origin - 10, None, origin, origin - 5), Some((0, 1)));
}

fn row(id: &str, status: &str) -> RemoteExplanation {
    RemoteExplanation {
        segment_id: id.to_string(),
        work_date: "2026-05-14".to_string(),
        start_time: None,
        end_time: None,
        duration_seconds: None,
        applied_idle_threshold_seconds: 600,
        segment_type: "IDLE".to_string(),
        explanation_status: status.to_string(),
        explanation_deadline: None,
    }
}

#[test]
fn list_screen_texts() {
    let items = vec![row("a", "PENDING"), row("b", "SUBMITTED"), row("c", "PENDING")];
    assert_eq!(tab_count(&items, ExplanationFilter::Needs), 2);
    assert_eq!(tab_count(&items, ExplanationFilter::All), 3);
    assert_eq!(tab_count(&items, ExplanationFilter::Approved), 0);
    assert_eq!(tab_label(ExplanationFilter::Needs, 2), "소명 필요 2");
    assert_eq!(tab_label(ExplanationFilter::Approved, 0), "승인 완료");
    assert_eq!(filter_hint(ExplanationFilter::Review), "제출한 소명이 관리자 검토를 기다리고 있습니다.");
    assert_eq!(empty_message(ExplanationFilter::Needs), "소명이 필요한 자리비움 구간이 없습니다.");
    assert!(shows_generation_note(ExplanationFilter::Needs));
    assert!(shows_generation_note(ExplanationFilter::All));
    assert!(!shows_generation_note(ExplanationFilter::Review));
    assert_eq!(load_error_text("HTTP 500"), "불러오기 실패: HTTP 500");
    assert_eq!(refresh_label(true), "불러오는 중…");
    assert_eq!(refresh_label(false), "↻ 새로고침");
    assert_eq!(duration_cell(Some(65)), "1분 5초");
    assert_eq!(duration_cell(None), "진행 중");
    assert_eq!(threshold_cell(600), "10분 0초 이내");
}

#[test]
fn work_date_is_normalised() {
    assert_eq!(work_date_cell("2026-5-4"), "2026-05-04");
    assert_eq!(work_date_cell("2026-05-14"), "2026-05-14");
    assert_eq!(work_date_cell("soon"), "soon");
}

#[test]
fn cache_lookup_and_store() {
    let mut c = ListCache::default();
    assert!(find_in_cache(&c, "a").is_none());
    store_response_for(&mut c, 42, vec![row("a", "PENDING"), row("b", "SUBMITTED"), row("b", "PENDING")]);
    assert_eq!(c.employee_id, 42);
    assert!(c.error.is_none());
    assert_eq!(find_in_cache(&c, "b").map(|r| r.explanation_status), Some("SUBMITTED".to_string()));
    assert!(find_in_cache(&c, "z").is_none());
}

#[test]
fn explanation_submission() {
    let mut f = ExplanationForm::default();
    f.selected_code = "MEETING".to_string();
    f.explanation_text = "  weekly sync ".to_string();
    assert!(f.prepare_submission(false, "seg", 100, None, None).is_none());
    assert_eq!(f.status.as_deref(), Some("로그인이 필요합니다."));
    let d = f.prepare_submission(true, "seg", 100, None, None).unwrap();
    assert_eq!(d.segment_id, "seg");
    assert_eq!(d.explanation_type, "MEETING");
    assert_eq!(d.explanation_text.as_deref(), Some("weekly sync"));
    assert_eq!(d.other_type_label, None);
    assert_eq!((d.start_time, d.end_time, d.duration_seconds), (100, 100, 0));
    let d = f.prepare_submission(true, "seg", 100, Some(700), Some(600)).unwrap();
    assert_eq!((d.end_time, d.duration_seconds), (700, 600));
    f.selected_code = "OTHER".to_string();
    assert_eq!(f.other_label_warning(), Some("기타 유형명을 1자 이상 입력해 주세요."));
    assert!(f.prepare_submission(true, "seg", 100, None, None).is_none());
    assert_eq!(f.status.as_deref(), Some("기타 유형명을 입력해 주세요."));
    f.other_type_label = " 병원 ".to_string();
    assert_eq!(f.other_label_warning(), None);
    let d = f.prepare_submission(true, "seg", 100, None, None).unwrap();
    assert_eq!(d.other_type_label.as_deref(), Some("병원"));
    f.after_local_save();
    assert!(f.explanation_text.is_empty() && f.other_type_label.is_empty());
    assert_eq!(f.selected_code, "OTHER");
    f.local_save_failed("disk full");
    assert_eq!(f.status.as_deref(), Some("로컬 저장 실패: disk full"));
    f.record_server_result(None);
    assert_eq!(f.status.as_deref(), Some("제출 완료"));
    f.record_server_result(Some("timeout"));
    assert_eq!(f.status.as_deref(), Some("서버 전송 실패 — 로컬에 저장됨: timeout"));
}

#[test]
fn explanation_form_captions() {
    let types = vec![ExplanationType {
        exptype_sid: None,
        code: "OUT".to_string(),
        label: "외근".to_string(),
        sort_order: 1,
        icon: None,
        requires_text: true,
        is_system: false,
        is_protected: false,
    }];
    let mut f = ExplanationForm::default();
    f.selected_code = "OUT".to_string();
    assert_eq!(f.text_warning(&types), Some("이 사유는 소명 내용을 반드시 입력해야 합니다."));
    f.explanation_text = "x".to_string();
    assert_eq!(f.text_warning(&types), None);
    assert_eq!(text_caption(true), "소명 내용 (필수)");
    assert_eq!(text_caption(false), "소명 내용");
    assert_eq!(applied_threshold_text(600, "TEAM"), "10분 0초 (TEAM)");
    assert_eq!(segment_length_text(None), "0초");
    assert_eq!(segment_length_text(Some(3700)), "1시간 1분");
}

fn snapshot(version: i64) -> PolicySnapshot {
    PolicySnapshot {
        policy_version: version,
        company_idle_threshold_seconds: Some(600),
        team_idle_threshold_seconds: None,
        employee_idle_threshold_seconds: None,
        effective_idle_threshold_seconds: 600,
        policy_scope: "COMPANY".into(),
        lunch_start_time: "12:00".into(),
        lunch_end_time: "13:00".into(),
        lunch_allowed_minutes: 60,
        explanation_deadline_hours: 48,
        can_track_time: true,
        time_zone_offset_minutes: 540,
    }
}

#[test]
fn policy_save_flow() {
    let mut f = PolicyEditForm::default();
    f.init_from(&snapshot(3));
    assert!(f.begin_save(Some(10), None).is_none());
    assert_eq!(f.status.as_deref(), Some("변경 사항이 없습니다."));
    f.lunch_allowed_minutes = 45;
    assert!(f.begin_save(Some(10), Some("lunch too short")).is_none());
    assert_eq!(f.status.as_deref(), Some("입력 오류: lunch too short"));
    assert!(f.begin_save(None, None).is_none());
    assert_eq!(f.status.as_deref(), Some("로그인 후 저장 가능합니다."));
    assert!(!f.pending);
    f.reason = "  staffing ".to_string();
    let req = f.begin_save(Some(10), None).unwrap();
    assert!(f.pending);
    assert_eq!(f.status.as_deref(), Some("저장 중…"));
    assert_eq!(req.requester_emp_sid, 10);
    assert_eq!(req.reason.as_deref(), Some("staffing"));
    assert_eq!(req.patch.lunch_allowed_minutes, Some(45));
    assert_eq!(req.patch.idle_threshold_seconds, None);
    f.finish_save(Ok(4));
    assert!(!f.pending);
    assert_eq!(f.status.as_deref(), Some("저장 완료 (policy_version → 4)"));
    f.finish_save(Err("HTTP 404"));
    assert_eq!(f.status.as_deref(), Some("요청자 EMPSID 가 서버에 없습니다 (재로그인 필요)."));
    f.reset_to(&snapshot(4));
    assert_eq!(f.lunch_allowed_minutes, 60);
    assert_eq!(f.status.as_deref(), Some("입력 초기화됨"));
    assert!(save_enabled(true, false));
    assert!(!save_enabled(true, true));
    assert!(!save_enabled(false, false));
    assert_eq!(save_caption(true), "저장 중…");
    assert_eq!(save_caption(false), "저장 (PATCH)");
    assert_eq!(dirty_caption(true), "변경 사항 있음");
    assert_eq!(dirty_caption(false), "변경 사항 없음");
}

#[test]
fn settings_info_rows() {
    assert_eq!(threshold_info(900, "TEAM"), "15분 (TEAM)");
    assert_eq!(lunch_info("12:00", "13:00", 60), "12:00 ~ 13:00 (60분 인정)");
    assert_eq!(deadline_info(48), "48시간 이내");
    assert_eq!(name_or_dash(Some("핀플")), "핀플");
    assert_eq!(name_or_dash(None), "—");
}

fn reason(sid: Option<i64>) -> ExplanationType {
    ExplanationType {
        exptype_sid: sid,
        code: "CUSTOM_A1".to_string(),
        label: "방문".to_string(),
        sort_order: 15,
        icon: None,
        requires_text: true,
        is_system: false,
        is_protected: true,
    }
}

#[test]
fn reason_rows_and_results() {
    assert_eq!(type_title(&reason(None)), "방문 (CUSTOM_A1)");
    assert_eq!(type_details(&reason(Some(7))), "sid=7, sort=15 · 텍스트필수 · 보호(비활성 불가)");
    assert_eq!(type_details(&reason(None)), "sort=15 · 텍스트필수 · 보호(비활성 불가)");
    assert_eq!(
        create_result_text(Ok(&reason(Some(7)))),
        "추가 OK — exptype_sid=7, code=CUSTOM_A1, label=방문, sort=15, requires_text=true\n(이 sid 를 비활성 카드에 입력하면 비활성화 가능)"
    );
    assert!(create_result_text(Ok(&reason(None))).starts_with("추가 OK — exptype_sid=?, "));
    assert_eq!(create_result_text(Err("DUPLICATE_CODE")), "추가 실패 — 이미 같은 코드가 존재합니다.");
    assert_eq!(
        patch_result_text(7, Ok(&reason(Some(7)))),
        "수정 OK — sid=7, code=CUSTOM_A1, label=방문, sort=15, requires_text=true, is_system=false"
    );
    assert_eq!(patch_result_text(7, Err("boom")), "수정 실패 — boom");
    assert_eq!(deactivate_result_text(7, None), "비활성 OK — sid=7");
    assert_eq!(
        deactivate_result_text(7, Some("AT_LEAST_ONE_REQUIRED")),
        "비활성 실패 — 마지막 활성 사유는 비활성화할 수 없습니다 (최소 1개 유지)"
    );
}

#[test]
fn usage_statistics_text() {
    assert_eq!(usage_result_text(30, Ok(&vec![])), "통계 OK — 지난 30일, 사용 0건");
    let rows = vec![UsageRow { code: "MEETING".to_string(), label: "회의".to_string(), count: 5, distinct_users: 2 }];
    assert_eq!(usage_result_text(7, Ok(&rows)), "통계 OK — 지난 7일:\n  · 회의 (MEETING) — count=5, users=2\n");
    let many: Vec<UsageRow> = (0..25)
        .map(|i| UsageRow { code: format!("C{i}"), label: "x".to_string(), count: i, distinct_users: 1 })
        .collect();
    let text = usage_result_text(1, Ok(&many));
    assert_eq!(text.matches("  · ").count(), 20);
    assert!(text.contains("(C19)"));
    assert!(!text.contains("(C20)"));
    assert_eq!(usage_result_text(1, Err("HTTP 403")).starts_with("통계 실패 — 권한이 없습니다"), true);
}

#[test]
fn reason_administration_requests() {
    let mut f = ExplanationCmsForm::default();
    assert!(cms_create_request(&mut f, None).is_none());
    assert_eq!(f.status.as_deref(), Some("로그인 후 호출 가능합니다."));
    assert!(cms_create_request(&mut f, Some((10, 100))).is_none());
    assert_eq!(f.status.as_deref(), Some("라벨은 비울 수 없습니다."));
    assert!(!f.pending);
    f.create_label = " 방문 ".to_string();
    f.create_icon = "  ".to_string();
    let req = cms_create_request(&mut f, Some((10, 100))).unwrap();
    assert_eq!((req.cmpsid, req.requester_emp_sid), (100, 10));
    assert_eq!(req.label, "방문");
    assert_eq!(req.icon, None);
    assert_eq!(req.sort_order, 1000);
    assert!(f.pending);
    assert_eq!(f.status.as_deref(), Some("추가 호출 중…"));
    assert_eq!(cms_buttons(&f), (false, false, false, false));
    cms_finish(&mut f, "done".to_string());
    assert!(!f.pending);
    assert_eq!(f.status.as_deref(), Some("done"));
    assert_eq!(cms_buttons(&f), (true, false, false, true));

    f.patch_sid = 7;
    f.patch_label = "  ".to_string();
    f.patch_icon = "🏥".to_string();
    let (sid, p) = cms_patch_request(&mut f, Some(10)).unwrap();
    assert_eq!(sid, 7);
    assert_eq!(p.label, None);
    assert_eq!(p.sort_order, None);
    assert_eq!(p.icon.as_deref(), Some("🏥"));
    assert_eq!(p.requires_text, Some(false));
    assert_eq!(f.status.as_deref(), Some("수정 호출 중…"));
    cms_finish(&mut f, String::new());
    f.deactivate_sid = 9;
    let (sid, d) = cms_deactivate_request(&mut f, Some((10, 100))).unwrap();
    assert_eq!((sid, d.cmpsid, d.requester_emp_sid), (9, 100, 10));
    assert!(cms_deactivate_request(&mut f, None).is_none());
    cms_finish(&mut f, String::new());
    assert_eq!(cms_usage_request(&mut f, Some(10)), Some((10, 30)));
    assert_eq!(f.status.as_deref(), Some("통계 호출 중…"));
    assert!(cms_patch_request(&mut f, None).is_none());
}

#[test]
fn login_and_update_screens() {
    assert_eq!(button_caption(true), "로그인 중…");
    assert_eq!(button_caption(false), "로그인");
    assert!(submit_via_enter(true, true, true));
    assert!(!submit_via_enter(true, true, false));
    assert!(should_start_login(true, false, true, false));
    assert!(should_start_login(false, true, true, false));
    assert!(!should_start_login(false, true, false, false));
    assert!(!should_start_login(true, false, true, true));
    assert_eq!(version_label("1.2.0"), "v1.2.0");
    assert_eq!(labeled("현재 버전", "1.2.0"), "현재 버전: 1.2.0");
    assert_eq!(update_required_text(true, true), "업데이트 필요: 예 (강제)");
    assert_eq!(update_required_text(false, false), "업데이트 필요: 아니오");
    assert!(shows_download_link("https://example.com"));
    assert!(!shows_download_link(""));
}

#[test]
fn detector_settings() {
    assert_eq!(poll_interval_seconds(0), 1);
    assert_eq!(poll_interval_seconds(5), 5);
    assert_eq!(explanation_deadline_at(1000, 48), 1000 + 48 * 3600);
    assert_eq!(explanation_deadline_at(1000, 0), 1000 + 3600);
}
