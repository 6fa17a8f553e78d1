//! Work status of the worker, derived from the work-status result and the
//! clock-in/clock-out times of the main information.
//!
//! - result > 0                                   -> working now
//! - result == 0, both times blank or "00:00"     -> not in yet
//! - result == 0, otherwise                       -> off work
use vstd::prelude::*;
use crate::domain::model::main_info::MainInfo;
use crate::domain::service::session_caches::SessionCaches;
use crate::text::{chars_of, chars_eq, trim, trim_chars};

verus! {

#[derive(Debug, Clone, Copy, PartialEq, Eq, Structural)]
pub enum WorkStatus {
    /// No answer yet.
    Unknown,
    /// Not clocked in.
    NotIn,
    /// Working (result > 0).
    WorkingNow,
    /// Clocked out.
    OffWork,
}

pub open spec fn work_status_label(s: WorkStatus) -> Seq<char> {
    match s {
        WorkStatus::Unknown => "—"@,
        WorkStatus::NotIn => "미출근"@,
        WorkStatus::WorkingNow => "근무중"@,
        WorkStatus::OffWork => "퇴근"@,
    }
}

impl WorkStatus {
    pub fn label(self) -> (r: &'static str)
        ensures
            r@ == work_status_label(self),
    {
        match self {
            WorkStatus::Unknown => "—",
            WorkStatus::NotIn => "미출근",
            WorkStatus::WorkingNow => "근무중",
            WorkStatus::OffWork => "퇴근",
        }
    }

    /// Idle segments are only made while working; `Unknown` does not allow it.
    pub fn allows_tracking(self) -> (r: bool)
        ensures
            r == (self == WorkStatus::WorkingNow),
    {
        match self {
            WorkStatus::WorkingNow => true,
            _ => false,
        }
    }
}

/// Stores the latest work-status result; the other caches are unchanged.
pub fn set_result(c: &mut SessionCaches, result: i64)
    ensures
        *final(c) == (SessionCaches { work_status_result: Some(result), ..*old(c) }),
{
    c.work_status_result = Some(result);
}

/// Empties the work-status cache; the other caches are unchanged.
pub fn clear(c: &mut SessionCaches)
    ensures
        *final(c) == (SessionCaches { work_status_result: None, ..*old(c) }),
{
    c.work_status_result = None;
}

pub fn current_result(c: &SessionCaches) -> (r: Option<i64>)
    ensures
        r == c.work_status_result,
{
    c.work_status_result
}

/// Blank (after trimming whitespace) or "00:00".
pub open spec fn blank_or_zero(s: Seq<char>) -> bool {
    trim(s).len() == 0 || trim(s) == "00:00"@
}

/// The work status that a result and the main information mean.
pub open spec fn spec_derive(result: Option<i64>, main_info: Option<MainInfo>) -> WorkStatus {
    match result {
        None => WorkStatus::Unknown,
        Some(r) => if r > 0 {
            WorkStatus::WorkingNow
        } else {
            let start_blank = match main_info {
                Some(m) => blank_or_zero(m.start_time@),
                None => true,
            };
            let end_blank = match main_info {
                Some(m) => blank_or_zero(m.end_time@),
                None => true,
            };
            if start_blank && end_blank {
                WorkStatus::NotIn
            } else {
                WorkStatus::OffWork
            }
        },
    }
}

/// Status from the cached result and main information.
pub fn current_status(c: &SessionCaches) -> (r: WorkStatus)
    ensures
        r == spec_derive(c.work_status_result, c.main_info),
{
    derive(c.work_status_result, c.main_info.as_ref())
}

pub fn derive(result: Option<i64>, main_info: Option<&MainInfo>) -> (r: WorkStatus)
    ensures
        r == spec_derive(
            result,
            match main_info {
                Some(m) => Some(*m),
                None => None,
            },
        ),
{
    let r = match result {
        None => {
            return WorkStatus::Unknown;
        },
        Some(r) => r,
    };
    if r > 0 {
        return WorkStatus::WorkingNow;
    }
    let start_blank = match main_info {
        Some(m) => is_blank_or_zero(m.start_time.as_str()),
        None => true,
    };
    let end_blank = match main_info {
        Some(m) => is_blank_or_zero(m.end_time.as_str()),
        None => true,
    };
    if start_blank && end_blank {
        WorkStatus::NotIn
    } else {
        WorkStatus::OffWork
    }
}

/// Empty, whitespace only or "00:00" counts as not set.
pub fn is_blank_or_zero(s: &str) -> (r: bool)
    ensures
        r == blank_or_zero(s@),
{
    let v = chars_of(s);
    let t = trim_chars(&v);
    if t.len() == 0 {
        return true;
    }
    let z = chars_of("00:00");
    chars_eq(&t, &z)
}

} // verus!
