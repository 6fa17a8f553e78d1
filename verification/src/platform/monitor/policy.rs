//! Which idle threshold applies: employee, then team, then company, then the default.
use vstd::prelude::*;
use crate::dto::PolicySnapshot;

verus! {

#[derive(Debug, Clone, Copy, PartialEq, Eq, Structural)]
pub enum Scope {
    Employee,
    Team,
    Company,
    Default,
}

pub open spec fn scope_name(s: Scope) -> Seq<char> {
    match s {
        Scope::Employee => "EMPLOYEE"@,
        Scope::Team => "TEAM"@,
        Scope::Company => "COMPANY"@,
        Scope::Default => "DEFAULT"@,
    }
}

impl Scope {
    pub fn as_str(&self) -> (r: &'static str)
        ensures
            r@ == scope_name(*self),
    {
        match self {
            Scope::Employee => "EMPLOYEE",
            Scope::Team => "TEAM",
            Scope::Company => "COMPANY",
            Scope::Default => "DEFAULT",
        }
    }
}

/// The threshold (seconds) and scope of the most specific level that has one.
pub open spec fn spec_resolve(policy: PolicySnapshot, default_seconds: u64) -> (u64, Scope) {
    match policy.employee_idle_threshold_seconds {
        Some(v) => (v, Scope::Employee),
        None => match policy.team_idle_threshold_seconds {
            Some(v) => (v, Scope::Team),
            None => match policy.company_idle_threshold_seconds {
                Some(v) => (v, Scope::Company),
                None => (default_seconds, Scope::Default),
            },
        },
    }
}

/// Threshold and scope recomputed on the client from the per-level values
/// (used when the server's effective value cannot be relied on).
pub fn resolve(policy: &PolicySnapshot, default_seconds: u64) -> (r: (u64, Scope))
    ensures
        r == spec_resolve(*policy, default_seconds),
{
    if let Some(v) = policy.employee_idle_threshold_seconds {
        return (v, Scope::Employee);
    }
    if let Some(v) = policy.team_idle_threshold_seconds {
        return (v, Scope::Team);
    }
    if let Some(v) = policy.company_idle_threshold_seconds {
        return (v, Scope::Company);
    }
    (default_seconds, Scope::Default)
}

/// The most specific level that is set always decides: a level is only skipped
/// when it is unset, and the default is used only when no level is set.
pub proof fn law_resolve_most_specific(policy: PolicySnapshot, default_seconds: u64)
    ensures
        policy.employee_idle_threshold_seconds is Some ==> spec_resolve(policy, default_seconds).1 == Scope::Employee,
        spec_resolve(policy, default_seconds).1 == Scope::Team ==> policy.employee_idle_threshold_seconds is None,
        spec_resolve(policy, default_seconds).1 == Scope::Company ==> policy.employee_idle_threshold_seconds is None
            && policy.team_idle_threshold_seconds is None,
        spec_resolve(policy, default_seconds).1 == Scope::Default <==> (policy.employee_idle_threshold_seconds is None
            && policy.team_idle_threshold_seconds is None && policy.company_idle_threshold_seconds is None),
        spec_resolve(policy, default_seconds).1 == Scope::Default ==> spec_resolve(policy, default_seconds).0 == default_seconds,
{
}

} // verus!
