//! Attendance as the phone app records it; the PC agent only reads it.
use vstd::prelude::*;

verus! {

#[derive(Debug, Clone, Copy, PartialEq, Eq, Structural)]
pub enum AttendanceStatus {
    Working,
    BeforeWork,
    AfterWork,
    Outing,
    Leave,
    BusinessTrip,
    Unknown,
}

impl Default for AttendanceStatus {
    fn default() -> (r: Self)
        ensures
            r == AttendanceStatus::Unknown,
    {
        AttendanceStatus::Unknown
    }
}

/// Display label of an attendance status.
pub open spec fn attendance_label(s: AttendanceStatus) -> Seq<char> {
    match s {
        AttendanceStatus::Working => "출근 중"@,
        AttendanceStatus::BeforeWork => "출근 전"@,
        AttendanceStatus::AfterWork => "퇴근 후"@,
        AttendanceStatus::Outing => "외출 중"@,
        AttendanceStatus::Leave => "연차"@,
        AttendanceStatus::BusinessTrip => "출장"@,
        AttendanceStatus::Unknown => "알 수 없음"@,
    }
}

impl AttendanceStatus {
    pub fn label(&self) -> (r: &'static str)
        ensures
            r@ == attendance_label(*self),
    {
        match self {
            AttendanceStatus::Working => "출근 중",
            AttendanceStatus::BeforeWork => "출근 전",
            AttendanceStatus::AfterWork => "퇴근 후",
            AttendanceStatus::Outing => "외출 중",
            AttendanceStatus::Leave => "연차",
            AttendanceStatus::BusinessTrip => "출장",
            AttendanceStatus::Unknown => "알 수 없음",
        }
    }

    /// Only a worker who is at work is tracked.
    pub fn enables_tracking(&self) -> (r: bool)
        ensures
            r == (*self == AttendanceStatus::Working),
    {
        match self {
            AttendanceStatus::Working => true,
            _ => false,
        }
    }
}

/// Attendance record; times are instants in seconds since the Unix epoch.
#[derive(Debug)]
pub struct Attendance {
    pub status: AttendanceStatus,
    pub work_start_at: Option<i64>,
    pub work_end_at: Option<i64>,
}

impl Clone for Attendance {
    fn clone(&self) -> (r: Self)
        ensures
            r == *self,
    {
        Attendance {
            status: self.status,
            work_start_at: self.work_start_at,
            work_end_at: self.work_end_at,
        }
    }
}

} // verus!
