//! Cache of the main screen information.
use vstd::prelude::*;
use crate::domain::service::session_caches::SessionCaches;
use crate::domain::model::main_info::MainInfo;

verus! {

/// The cached main information, if any.
pub fn current(c: &SessionCaches) -> (r: Option<MainInfo>)
    ensures
        r == c.main_info,
{
    match &c.main_info {
        Some(v) => Some(v.clone()),
        None => None,
    }
}

/// Stores `v`; the other caches are unchanged.
pub fn set(c: &mut SessionCaches, v: MainInfo)
    ensures
        *final(c) == (SessionCaches { main_info: Some(v), ..*old(c) }),
{
    c.main_info = Some(v);
}

/// Empties this cache; the other caches are unchanged.
pub fn clear(c: &mut SessionCaches)
    ensures
        *final(c) == (SessionCaches { main_info: None, ..*old(c) }),
{
    c.main_info = None;
}

} // verus!
