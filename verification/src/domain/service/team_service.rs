//! Cache of the team of the signed-in worker.
use vstd::prelude::*;
use crate::domain::service::session_caches::SessionCaches;
use crate::domain::model::team::Team;

verus! {

/// The cached team, if any.
pub fn current(c: &SessionCaches) -> (r: Option<Team>)
    ensures
        r == c.team,
{
    match &c.team {
        Some(v) => Some(v.clone()),
        None => None,
    }
}

/// Stores `v`; the other caches are unchanged.
pub fn set(c: &mut SessionCaches, v: Team)
    ensures
        *final(c) == (SessionCaches { team: Some(v), ..*old(c) }),
{
    c.team = Some(v);
}

/// Empties this cache; the other caches are unchanged.
pub fn clear(c: &mut SessionCaches)
    ensures
        *final(c) == (SessionCaches { team: None, ..*old(c) }),
{
    c.team = None;
}

} // verus!
