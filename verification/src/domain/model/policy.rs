//! Idle policy: threshold, lunch window and explanation deadline.
use vstd::prelude::*;
use crate::text::str_eq;

verus! {

#[derive(Debug, Clone, Copy, PartialEq, Eq, Structural)]
pub enum PolicyScope {
    Default,
    Company,
    Team,
    Employee,
}

#[derive(Debug)]
pub struct Policy {
    /// Policy version sent by the server (to notice changes).
    pub version: i64,
    /// Applied idle threshold, in seconds.
    pub idle_threshold: u64,
    /// Level that decided the threshold.
    pub scope: PolicyScope,
    /// Lunch window start ("HH:MM").
    pub lunch_start: String,
    /// Lunch window end ("HH:MM").
    pub lunch_end: String,
    /// Lunch minutes that count as a break.
    pub lunch_allowed_minutes: u32,
    /// Hours during which an idle segment can be explained.
    pub explanation_deadline_hours: u32,
    /// Whether PC time tracking is on for the company/plan.
    pub can_track_time: bool,
    pub heartbeat_interval_seconds: u64,
    pub event_batch_interval_seconds: u64,
}

impl Clone for Policy {
    fn clone(&self) -> (r: Self)
        ensures
            r == *self,
    {
        Policy {
            version: self.version,
            idle_threshold: self.idle_threshold,
            scope: self.scope,
            lunch_start: self.lunch_start.clone(),
            lunch_end: self.lunch_end.clone(),
            lunch_allowed_minutes: self.lunch_allowed_minutes,
            explanation_deadline_hours: self.explanation_deadline_hours,
            can_track_time: self.can_track_time,
            heartbeat_interval_seconds: self.heartbeat_interval_seconds,
            event_batch_interval_seconds: self.event_batch_interval_seconds,
        }
    }
}

/// Wire name of a scope.
pub open spec fn scope_wire_name(s: PolicyScope) -> Seq<char> {
    match s {
        PolicyScope::Default => "DEFAULT"@,
        PolicyScope::Company => "COMPANY"@,
        PolicyScope::Team => "TEAM"@,
        PolicyScope::Employee => "EMPLOYEE"@,
    }
}

/// Scope named by a wire string; anything unknown is `Default`.
pub open spec fn scope_from_wire(s: Seq<char>) -> PolicyScope {
    if s == "EMPLOYEE"@ {
        PolicyScope::Employee
    } else if s == "TEAM"@ {
        PolicyScope::Team
    } else if s == "COMPANY"@ {
        PolicyScope::Company
    } else {
        PolicyScope::Default
    }
}

impl PolicyScope {
    pub fn as_str(&self) -> (r: &'static str)
        ensures
            r@ == scope_wire_name(*self),
    {
        match self {
            PolicyScope::Default => "DEFAULT",
            PolicyScope::Company => "COMPANY",
            PolicyScope::Team => "TEAM",
            PolicyScope::Employee => "EMPLOYEE",
        }
    }

    pub fn from_wire(s: &str) -> (r: Self)
        ensures
            r == scope_from_wire(s@),
    {
        if str_eq(s, "EMPLOYEE") {
            PolicyScope::Employee
        } else if str_eq(s, "TEAM") {
            PolicyScope::Team
        } else if str_eq(s, "COMPANY") {
            PolicyScope::Company
        } else {
            PolicyScope::Default
        }
    }
}

/// Reading back a scope's wire name gives the scope.
pub proof fn law_scope_wire_round_trip(s: PolicyScope)
    ensures
        scope_from_wire(scope_wire_name(s)) == s,
{
    reveal_strlit("DEFAULT");
    reveal_strlit("COMPANY");
    reveal_strlit("TEAM");
    reveal_strlit("EMPLOYEE");
    assert("DEFAULT"@[0] != "EMPLOYEE"@[0]);
    assert("DEFAULT"@[0] != "TEAM"@[0]);
    assert("DEFAULT"@[0] != "COMPANY"@[0]);
    assert("COMPANY"@[0] != "EMPLOYEE"@[0]);
    assert("COMPANY"@[0] != "TEAM"@[0]);
    assert("TEAM"@[0] != "EMPLOYEE"@[0]);
}

} // verus!
