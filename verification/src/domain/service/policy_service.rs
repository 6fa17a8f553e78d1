//! Cache of the company policy.
use vstd::prelude::*;
use crate::domain::service::session_caches::SessionCaches;
use crate::domain::model::policy::Policy;

verus! {

/// The cached policy, if any.
pub fn current(c: &SessionCaches) -> (r: Option<Policy>)
    ensures
        r == c.policy,
{
    match &c.policy {
        Some(v) => Some(v.clone()),
        None => None,
    }
}

/// Stores `v`; the other caches are unchanged.
pub fn set(c: &mut SessionCaches, v: Policy)
    ensures
        *final(c) == (SessionCaches { policy: Some(v), ..*old(c) }),
{
    c.policy = Some(v);
}

/// Empties this cache; the other caches are unchanged.
pub fn clear(c: &mut SessionCaches)
    ensures
        *final(c) == (SessionCaches { policy: None, ..*old(c) }),
{
    c.policy = None;
}

} // verus!
