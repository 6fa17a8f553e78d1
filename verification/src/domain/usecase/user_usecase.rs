//! Session start (login and automatic login): the steps that decide something.
//! The network calls and storage are made by the caller in this order: clear the
//! session caches, fetch plan and main information, store the session, set the
//! caches and the user, apply the plan gate, then load reasons, user
//! information, work status, explanations and policy (each may fail without
//! failing the login), and finally queue the login event.
use vstd::prelude::*;
use crate::domain::model::main_info::MainInfo;
use crate::domain::model::subscription::Subscription;
use crate::domain::model::user::User;
use crate::domain::service::session_caches::{clear_all, SessionCaches};
use crate::domain::service::{main_info_service, subscription_service, user_service};

verus! {

/// Without PIN+ tracking stays off; other gates are kept (the values are AND-ed).
pub fn apply_subscription_gate(can_track_time: bool, pin_plus_active: bool) -> (r: bool)
    ensures
        r == (can_track_time && pin_plus_active),
{
    can_track_time && pin_plus_active
}

pub open spec fn login_event_name(auto_login: bool) -> Seq<char> {
    if auto_login {
        "AUTO_LOGIN_SUCCESS"@
    } else {
        "LOGIN_SUCCESS"@
    }
}

/// Type of the presence event queued after a login.
pub fn login_event_type(auto_login: bool) -> (r: &'static str)
    ensures
        r@ == login_event_name(auto_login),
{
    if auto_login { "AUTO_LOGIN_SUCCESS" } else { "LOGIN_SUCCESS" }
}

/// Team id used for the main-information request (0 when the user has no team).
pub fn team_id_or_zero(user: &User) -> (r: i64)
    ensures
        r == match user.team_id {
            Some(t) => t,
            None => 0,
        },
{
    match user.team_id {
        Some(t) => t,
        None => 0,
    }
}

/// The cache steps of a session start: everything of the previous session is
/// forgotten, then the plan, the main information and the user are stored.
pub fn begin_session(c: &mut SessionCaches, subscription: Subscription, main_info: MainInfo, user: User)
    ensures
        final(c).subscription == Some(subscription),
        final(c).main_info == Some(main_info),
        final(c).user == Some(user),
        final(c).explanation_types is None,
        final(c).work_status_result is None,
        final(c).company is None,
        final(c).team is None,
        final(c).attendance is None,
        final(c).policy is None,
{
    clear_all(c);
    subscription_service::set(c, subscription);
    main_info_service::set(c, main_info);
    user_service::set_current(c, user);
}

/// What a completed login leaves for the caller.
#[derive(Debug, Clone, Copy, PartialEq, Eq)]
pub struct LoginOutcome {
    /// Tracking permission after the plan gate.
    pub can_track_time: bool,
    /// Type of the presence event queued at the end.
    pub event_type: &'static str,
}

/// A login (or automatic login) whose plan and main information arrived: the
/// session caches are set as [`begin_session`] does, tracking stays on only with
/// PIN+ (`can_track_time` is the permission before the login), and the login
/// event to queue is named.
pub fn start_session(
    c: &mut SessionCaches,
    subscription: Subscription,
    main_info: MainInfo,
    user: User,
    auto_login: bool,
    can_track_time: bool,
) -> (r: LoginOutcome)
    ensures
        final(c).subscription == Some(subscription),
        final(c).main_info == Some(main_info),
        final(c).user == Some(user),
        final(c).explanation_types is None,
        final(c).work_status_result is None,
        final(c).company is None,
        final(c).team is None,
        final(c).attendance is None,
        final(c).policy is None,
        r.can_track_time == (can_track_time && subscription.pin_plus_active),
        r.event_type@ == login_event_name(auto_login),
{
    let pin_plus = subscription.pin_plus_active;
    begin_session(c, subscription, main_info, user);
    LoginOutcome {
        can_track_time: apply_subscription_gate(can_track_time, pin_plus),
        event_type: login_event_type(auto_login),
    }
}

} // verus!
