//! Cache of the company plan (the PIN+ gate).
use vstd::prelude::*;
use crate::domain::model::subscription::Subscription;
use crate::domain::service::session_caches::SessionCaches;

verus! {

/// The cached plan, if any.
pub fn current(c: &SessionCaches) -> (r: Option<Subscription>)
    ensures
        r == c.subscription,
{
    c.subscription
}

/// Stores the plan; the other caches are unchanged.
pub fn set(c: &mut SessionCaches, sub: Subscription)
    ensures
        *final(c) == (SessionCaches { subscription: Some(sub), ..*old(c) }),
{
    c.subscription = Some(sub);
}

/// Empties the plan cache; the other caches are unchanged.
pub fn clear(c: &mut SessionCaches)
    ensures
        *final(c) == (SessionCaches { subscription: None, ..*old(c) }),
{
    c.subscription = None;
}

/// Whether PIN+ is on; false while no plan has been received.
pub open spec fn spec_pin_plus_active(c: SessionCaches) -> bool {
    match c.subscription {
        Some(s) => s.pin_plus_active,
        None => false,
    }
}

pub fn pin_plus_active(c: &SessionCaches) -> (r: bool)
    ensures
        r == spec_pin_plus_active(*c),
{
    match current(c) {
        Some(s) => s.pin_plus_active,
        None => false,
    }
}

/// The PIN+ gate follows the plan stored last.
pub proof fn law_stored_plan_decides_gate(c: SessionCaches, sub: Subscription)
    ensures
        spec_pin_plus_active(SessionCaches { subscription: Some(sub), ..c }) == sub.pin_plus_active,
        !spec_pin_plus_active(SessionCaches { subscription: None, ..c }),
{
}

} // verus!
