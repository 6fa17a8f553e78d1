use pinple_pc_agent::domain::model::main_info::MainInfo;
use pinple_pc_agent::domain::service::work_status_service::WorkStatus;

fn mk(start: &str, end: &str) -> MainInfo {
    MainInfo {
        start_time: start.to_string(),
        end_time: end.to_string(),
        join_date: String::new(),
        remaining_annual_minutes: 0,
        work_minutes: 0,
        add_minutes: 0,
        used_minutes: 0,
        unread_message_count: 0,
        deduct_on_late: false,
        deduct_on_early_leave: false,
        deduct_on_outing: false,
        annual_by_join_date: false,
        daily_annual_by_join_date: false,
        use_break_time: false,
        use_schedule: false,
        auto_checkout_mode: 0,
        commute_notify: false,
        work_52h_unit: 0,
    }
}

#[test]
fn unknown_when_no_result() {
    assert_eq!(pinple_pc_agent::domain::service::work_status_service::derive(None, None), WorkStatus::Unknown);
}

#[test]
fn working_when_positive_result() {
    assert_eq!(pinple_pc_agent::domain::service::work_status_service::derive(Some(14148240), None), WorkStatus::WorkingNow);
    assert_eq!(pinple_pc_agent::domain::service::work_status_service::derive(Some(1), Some(&mk("", ""))), WorkStatus::WorkingNow);
}

#[test]
fn not_in_when_zero_and_blank() {
    assert_eq!(pinple_pc_agent::domain::service::work_status_service::derive(Some(0), None), WorkStatus::NotIn);
    assert_eq!(pinple_pc_agent::domain::service::work_status_service::derive(Some(0), Some(&mk("", ""))), WorkStatus::NotIn);
    assert_eq!(pinple_pc_agent::domain::service::work_status_service::derive(Some(0), Some(&mk("00:00", "00:00"))), WorkStatus::NotIn);
    assert_eq!(pinple_pc_agent::domain::service::work_status_service::derive(Some(0), Some(&mk("   ", "  "))), WorkStatus::NotIn);
}

#[test]
fn off_work_when_zero_and_filled() {
    assert_eq!(pinple_pc_agent::domain::service::work_status_service::derive(Some(0), Some(&mk("09:00", "18:00"))), WorkStatus::OffWork);
    assert_eq!(pinple_pc_agent::domain::service::work_status_service::derive(Some(0), Some(&mk("09:00", ""))), WorkStatus::OffWork);
    assert_eq!(pinple_pc_agent::domain::service::work_status_service::derive(Some(0), Some(&mk("", "18:00"))), WorkStatus::OffWork);
}

#[test]
fn negative_result_counts_as_zero() {
    assert_eq!(pinple_pc_agent::domain::service::work_status_service::derive(Some(-3), Some(&mk(" 00:00 ", "\t"))), WorkStatus::NotIn);
    assert_eq!(pinple_pc_agent::domain::service::work_status_service::derive(Some(-3), Some(&mk("08:30", ""))), WorkStatus::OffWork);
}

#[test]
fn work_status_labels_and_gate() {
    assert_eq!(WorkStatus::Unknown.label(), "—");
    assert_eq!(WorkStatus::NotIn.label(), "미출근");
    assert_eq!(WorkStatus::WorkingNow.label(), "근무중");
    assert_eq!(WorkStatus::OffWork.label(), "퇴근");
    assert!(WorkStatus::WorkingNow.allows_tracking());
    assert!(!WorkStatus::Unknown.allows_tracking());
    assert!(!WorkStatus::OffWork.allows_tracking());
}
