//! The signed-in user slot.
use vstd::prelude::*;
use crate::domain::model::user::User;
use crate::domain::service::session_caches::{clear_all, session_cleared, SessionCaches};
use crate::text::{chars_of, find_char, find_char_in, substring};

verus! {

/// Why a session ended; the `reason` of the logout event.
#[derive(Debug, Clone, Copy, PartialEq, Eq, Structural)]
pub enum LogoutReason {
    /// The user logged out from the UI.
    UserAction,
    /// The server asked for a forced logout.
    ForceLogout,
}

pub open spec fn logout_reason_name(r: LogoutReason) -> Seq<char> {
    match r {
        LogoutReason::UserAction => "USER_ACTION"@,
        LogoutReason::ForceLogout => "FORCE_LOGOUT"@,
    }
}

impl LogoutReason {
    pub fn as_str(&self) -> (r: &'static str)
        ensures
            r@ == logout_reason_name(*self),
    {
        match self {
            LogoutReason::UserAction => "USER_ACTION",
            LogoutReason::ForceLogout => "FORCE_LOGOUT",
        }
    }
}

/// A copy of the signed-in user.
pub fn current(c: &SessionCaches) -> (r: Option<User>)
    ensures
        r == c.user,
{
    match &c.user {
        Some(u) => Some(u.clone()),
        None => None,
    }
}

pub fn is_logged_in(c: &SessionCaches) -> (r: bool)
    ensures
        r == c.user is Some,
{
    c.user.is_some()
}

/// Records the user of a successful login; the other caches are unchanged.
pub fn set_current(c: &mut SessionCaches, user: User)
    ensures
        *final(c) == (SessionCaches { user: Some(user), ..*old(c) }),
{
    c.user = Some(user);
}

/// E-mail as written to the log: the first three characters of the local part,
/// `***@` and the domain; `***` when there is no `@`.
pub open spec fn masked_email(email: Seq<char>) -> Seq<char> {
    match find_char(email, '@') {
        Some(i) => {
            let local = email.subrange(0, i);
            let head = if local.len() <= 3 { local } else { local.subrange(0, 3) };
            head + "***@"@ + email.subrange(i + 1, email.len() as int)
        },
        None => "***"@,
    }
}

pub fn mask_email(email: &str) -> (r: String)
    ensures
        r@ == masked_email(email@),
{
    let e = chars_of(email);
    match find_char_in(&e, '@') {
        Some(i) => {
            let n = e.len();
            assert(i < n);
            let head_end = if i <= 3 { i } else { 3 };
            let mut out = substring(email, 0, head_end);
            out.append("***@");
            let domain = substring(email, i + 1, n);
            out.append(domain.as_str());
            out
        },
        None => String::from_str("***"),
    }
}

/// The cache steps of a logout: every session cache is emptied and nobody is
/// signed in any more. (The caller queues the logout event first and removes
/// the stored credentials.)
pub fn end_session(c: &mut SessionCaches)
    ensures
        session_cleared(*final(c)),
        final(c).user is None,
{
    clear_all(c);
    c.user = None;
}

/// What a logout leaves for the caller to carry out.
#[derive(Debug, Clone, Copy, PartialEq, Eq)]
pub struct LogoutEffects {
    /// Type of the event to queue.
    pub event_type: &'static str,
    /// Its `reason`.
    pub reason: &'static str,
    /// The stored automatic-login credentials are removed.
    pub clear_credentials: bool,
    /// Tracking permission after the logout.
    pub can_track_time: bool,
}

/// Logs out: the session caches and the user are forgotten, and the caller is
/// told to queue the `LOGOUT` event with the reason, remove the stored
/// credentials and turn tracking off.
pub fn logout(c: &mut SessionCaches, reason: LogoutReason) -> (r: LogoutEffects)
    ensures
        session_cleared(*final(c)),
        final(c).user is None,
        r.event_type@ == "LOGOUT"@,
        r.reason@ == logout_reason_name(reason),
        r.clear_credentials,
        !r.can_track_time,
{
    end_session(c);
    LogoutEffects { event_type: "LOGOUT", reason: reason.as_str(), clear_credentials: true, can_track_time: false }
}

} // verus!
