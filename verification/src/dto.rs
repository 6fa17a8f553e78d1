//! Values exchanged with the server, held as plain data.
use vstd::prelude::*;

verus! {

/// Policy answer of the server.
#[derive(Debug)]
pub struct PolicySnapshot {
    pub policy_version: i64,
    pub company_idle_threshold_seconds: Option<u64>,
    pub team_idle_threshold_seconds: Option<u64>,
    pub employee_idle_threshold_seconds: Option<u64>,
    pub effective_idle_threshold_seconds: u64,
    pub policy_scope: String,
    /// Lunch window start on the company clock ("HH:MM").
    pub lunch_start_time: String,
    /// Lunch window end on the company clock ("HH:MM").
    pub lunch_end_time: String,
    pub lunch_allowed_minutes: u32,
    pub explanation_deadline_hours: u32,
    pub can_track_time: bool,
    /// Company clock offset from UTC in minutes (540 = KST).
    pub time_zone_offset_minutes: i32,
}

impl Clone for PolicySnapshot {
    fn clone(&self) -> (r: Self)
        ensures
            r == *self,
    {
        PolicySnapshot {
            policy_version: self.policy_version,
            company_idle_threshold_seconds: self.company_idle_threshold_seconds,
            team_idle_threshold_seconds: self.team_idle_threshold_seconds,
            employee_idle_threshold_seconds: self.employee_idle_threshold_seconds,
            effective_idle_threshold_seconds: self.effective_idle_threshold_seconds,
            policy_scope: self.policy_scope.clone(),
            lunch_start_time: self.lunch_start_time.clone(),
            lunch_end_time: self.lunch_end_time.clone(),
            lunch_allowed_minutes: self.lunch_allowed_minutes,
            explanation_deadline_hours: self.explanation_deadline_hours,
            can_track_time: self.can_track_time,
            time_zone_offset_minutes: self.time_zone_offset_minutes,
        }
    }
}

/// One explanation reason of the company.
#[derive(Debug)]
pub struct ExplanationType {
    pub exptype_sid: Option<i64>,
    pub code: String,
    pub label: String,
    pub sort_order: i32,
    pub icon: Option<String>,
    /// A free text is mandatory with this reason.
    pub requires_text: bool,
    pub is_system: bool,
    /// Cannot be deactivated by the company.
    pub is_protected: bool,
}

impl Clone for ExplanationType {
    fn clone(&self) -> (r: Self)
        ensures
            r == *self,
    {
        ExplanationType {
            exptype_sid: self.exptype_sid,
            code: self.code.clone(),
            label: self.label.clone(),
            sort_order: self.sort_order,
            icon: self.icon.clone(),
            requires_text: self.requires_text,
            is_system: self.is_system,
            is_protected: self.is_protected,
        }
    }
}

/// Answer of the explanation-types endpoint.
#[derive(Debug)]
pub struct ExplanationTypesResponse {
    pub version: i64,
    pub types: Vec<ExplanationType>,
    pub seeded: bool,
}

} // verus!

verus! {

/// One explanation row as the server lists it. Times are instants in seconds
/// since the Unix epoch.
#[derive(Debug)]
pub struct RemoteExplanation {
    pub segment_id: String,
    /// "YYYY-MM-DD".
    pub work_date: String,
    pub start_time: Option<i64>,
    pub end_time: Option<i64>,
    pub duration_seconds: Option<i64>,
    pub applied_idle_threshold_seconds: i64,
    pub segment_type: String,
    /// "PENDING" / "SUBMITTED" / "EXPIRED" / "EXEMPTED".
    pub explanation_status: String,
    pub explanation_deadline: Option<i64>,
}

impl Clone for RemoteExplanation {
    fn clone(&self) -> (r: Self)
        ensures
            r == *self,
    {
        RemoteExplanation {
            segment_id: self.segment_id.clone(),
            work_date: self.work_date.clone(),
            start_time: self.start_time,
            end_time: self.end_time,
            duration_seconds: self.duration_seconds,
            applied_idle_threshold_seconds: self.applied_idle_threshold_seconds,
            segment_type: self.segment_type.clone(),
            explanation_status: self.explanation_status.clone(),
            explanation_deadline: self.explanation_deadline,
        }
    }
}

} // verus!

verus! {

/// Changed policy fields of an edit; `None` means unchanged.
#[derive(Debug)]
pub struct PolicyPatchFields {
    pub idle_threshold_seconds: Option<u64>,
    pub lunch_start_time: Option<String>,
    pub lunch_end_time: Option<String>,
    pub lunch_allowed_minutes: Option<u32>,
    pub explanation_deadline_hours: Option<u32>,
    pub can_track_time: Option<bool>,
}

/// No field changed.
pub open spec fn patch_is_empty(p: PolicyPatchFields) -> bool {
    &&& p.idle_threshold_seconds is None
    &&& p.lunch_start_time is None
    &&& p.lunch_end_time is None
    &&& p.lunch_allowed_minutes is None
    &&& p.explanation_deadline_hours is None
    &&& p.can_track_time is None
}

impl Default for PolicyPatchFields {
    fn default() -> (r: Self)
        ensures
            patch_is_empty(r),
    {
        PolicyPatchFields {
            idle_threshold_seconds: None,
            lunch_start_time: None,
            lunch_end_time: None,
            lunch_allowed_minutes: None,
            explanation_deadline_hours: None,
            can_track_time: None,
        }
    }
}

impl PolicyPatchFields {
    pub fn is_empty(&self) -> (r: bool)
        ensures
            r == patch_is_empty(*self),
    {
        self.idle_threshold_seconds.is_none() && self.lunch_start_time.is_none() && self.lunch_end_time.is_none()
            && self.lunch_allowed_minutes.is_none() && self.explanation_deadline_hours.is_none()
            && self.can_track_time.is_none()
    }
}

} // verus!
