//! Cache of the attendance state (filled elsewhere; read by the status screen).
use vstd::prelude::*;
use crate::domain::service::session_caches::SessionCaches;
use crate::domain::model::attendance::Attendance;

verus! {

/// The cached attendance, if any.
pub fn current(c: &SessionCaches) -> (r: Option<Attendance>)
    ensures
        r == c.attendance,
{
    match &c.attendance {
        Some(v) => Some(v.clone()),
        None => None,
    }
}

/// Stores `v`; the other caches are unchanged.
pub fn set(c: &mut SessionCaches, v: Attendance)
    ensures
        *final(c) == (SessionCaches { attendance: Some(v), ..*old(c) }),
{
    c.attendance = Some(v);
}

/// Empties this cache; the other caches are unchanged.
pub fn clear(c: &mut SessionCaches)
    ensures
        *final(c) == (SessionCaches { attendance: None, ..*old(c) }),
{
    c.attendance = None;
}

} // verus!
