//! All caches of a signed-in session, and clearing them together.
use vstd::prelude::*;
use crate::domain::model::attendance::Attendance;
use crate::domain::model::company::Company;
use crate::domain::model::main_info::MainInfo;
use crate::domain::model::policy::Policy;
use crate::domain::model::subscription::Subscription;
use crate::domain::model::team::Team;
use crate::domain::model::user::User;
use crate::dto::ExplanationType;

verus! {

/// One slot per cached value; `None` means "not received yet".
pub struct SessionCaches {
    /// Signed-in member.
    pub user: Option<User>,
    /// Main screen information.
    pub main_info: Option<MainInfo>,
    /// Company plan.
    pub subscription: Option<Subscription>,
    /// Company explanation reasons as last received.
    pub explanation_types: Option<Vec<ExplanationType>>,
    /// Last work-status result (positive while working).
    pub work_status_result: Option<i64>,
    pub company: Option<Company>,
    pub team: Option<Team>,
    pub attendance: Option<Attendance>,
    pub policy: Option<Policy>,
}

/// No session-dependent cache holds a value (the signed-in user is kept).
pub open spec fn session_cleared(c: SessionCaches) -> bool {
    &&& c.main_info is None
    &&& c.subscription is None
    &&& c.explanation_types is None
    &&& c.work_status_result is None
    &&& c.company is None
    &&& c.team is None
    &&& c.attendance is None
    &&& c.policy is None
}

impl SessionCaches {
    /// Every slot empty.
    pub fn new() -> (r: Self)
        ensures
            session_cleared(r),
            r.user is None,
    {
        SessionCaches {
            user: None,
            main_info: None,
            subscription: None,
            explanation_types: None,
            work_status_result: None,
            company: None,
            team: None,
            attendance: None,
            policy: None,
        }
    }
}

/// Empties every session-dependent cache at once (before a login and at logout).
/// The signed-in user slot is left alone; the caller handles it.
pub fn clear_all(c: &mut SessionCaches)
    ensures
        session_cleared(*final(c)),
        final(c).user == old(c).user,
{
    crate::domain::service::main_info_service::clear(c);
    crate::domain::service::subscription_service::clear(c);
    crate::domain::service::explanation_type_service::clear(c);
    crate::domain::service::work_status_service::clear(c);
    crate::domain::service::company_service::clear(c);
    crate::domain::service::team_service::clear(c);
    crate::domain::service::attendance_service::clear(c);
    crate::domain::service::policy_service::clear(c);
}

/// With the session caches cleared (after logout, or at the start of a login)
/// nothing of the previous session shows: PIN+ counts as off, the work status
/// is unknown, and the reason list is the built-in one.
pub proof fn law_cleared_session_shows_nothing(c: SessionCaches)
    requires
        session_cleared(c),
    ensures
        !crate::domain::service::subscription_service::spec_pin_plus_active(c),
        crate::domain::service::work_status_service::spec_derive(c.work_status_result, c.main_info)
            == crate::domain::service::work_status_service::WorkStatus::Unknown,
        c.explanation_types is None,
{
}

} // verus!
