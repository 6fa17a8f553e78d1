//! Cache of the company of the signed-in worker.
use vstd::prelude::*;
use crate::domain::service::session_caches::SessionCaches;
use crate::domain::model::company::Company;

verus! {

/// The cached company, if any.
pub fn current(c: &SessionCaches) -> (r: Option<Company>)
    ensures
        r == c.company,
{
    match &c.company {
        Some(v) => Some(v.clone()),
        None => None,
    }
}

/// Stores `v`; the other caches are unchanged.
pub fn set(c: &mut SessionCaches, v: Company)
    ensures
        *final(c) == (SessionCaches { company: Some(v), ..*old(c) }),
{
    c.company = Some(v);
}

/// Empties this cache; the other caches are unchanged.
pub fn clear(c: &mut SessionCaches)
    ensures
        *final(c) == (SessionCaches { company: None, ..*old(c) }),
{
    c.company = None;
}

} // verus!
