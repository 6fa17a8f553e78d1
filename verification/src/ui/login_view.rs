//! Login form: when the button is enabled and what a submission takes from the form.
use vstd::prelude::*;
use crate::text::{trim, trim_str};

verus! {

pub struct LoginForm {
    pub email: String,
    /// Used once for the login request, then cleared.
    pub password: String,
    pub auto_login: bool,
    /// Show the password in clear text.
    pub show_password: bool,
    /// Inline error of the last attempt.
    pub error: Option<String>,
    /// A login is running.
    pub busy: bool,
}

impl Default for LoginForm {
    fn default() -> (r: Self)
        ensures
            r.email@.len() == 0,
            r.password@.len() == 0,
            !r.auto_login,
            !r.show_password,
            r.error is None,
            !r.busy,
    {
        LoginForm {
            email: String::new(),
            password: String::new(),
            auto_login: false,
            show_password: false,
            error: None,
            busy: false,
        }
    }
}

/// What a login request is made of.
pub struct LoginRequest {
    /// The e-mail, trimmed.
    pub email: String,
    pub password: String,
    pub auto_login: bool,
}

impl LoginForm {
    /// The button works when no login runs and both fields are filled.
    pub fn can_submit(&self) -> (r: bool)
        ensures
            r == (!self.busy && self.email@.len() > 0 && self.password@.len() > 0),
    {
        !self.busy && !self.email.as_str().is_empty() && !self.password.as_str().is_empty()
    }

    /// Starts a login: takes the password out of the form (it is not kept),
    /// trims the e-mail and marks the form busy.
    pub fn start_login(&mut self) -> (r: LoginRequest)
        ensures
            r.email@ == trim(old(self).email@),
            r.password == old(self).password,
            r.auto_login == old(self).auto_login,
            final(self).password@.len() == 0,
            final(self).busy,
            final(self).email == old(self).email,
            final(self).auto_login == old(self).auto_login,
            final(self).show_password == old(self).show_password,
            final(self).error == old(self).error,
    {
        let email = trim_str(self.email.as_str());
        let mut password = String::new();
        std::mem::swap(&mut password, &mut self.password);
        self.busy = true;
        LoginRequest { email, password, auto_login: self.auto_login }
    }

    /// Ends a login: `error` is the failure text, `None` on success.
    pub fn finish_login(&mut self, error: Option<String>)
        ensures
            !final(self).busy,
            final(self).error == error,
            *final(self) == (LoginForm { error, busy: false, ..*old(self) }),
    {
        self.error = error;
        self.busy = false;
    }
}

/// Caption of the login button.
pub fn button_caption(busy: bool) -> (r: &'static str)
    ensures
        r@ == if busy {
            "로그인 중…"@
        } else {
            "로그인"@
        },
{
    if busy { "로그인 중…" } else { "로그인" }
}

/// Enter in the password field submits when a password was typed.
pub fn submit_via_enter(password_left: bool, enter_pressed: bool, password_typed: bool) -> (r: bool)
    ensures
        r == (password_left && enter_pressed && password_typed),
{
    password_left && enter_pressed && password_typed
}

/// A login starts on a click or Enter while the button is enabled and none runs.
pub fn should_start_login(clicked: bool, via_enter: bool, enabled: bool, busy: bool) -> (r: bool)
    ensures
        r == ((clicked || (via_enter && enabled)) && !busy),
{
    (clicked || (via_enter && enabled)) && !busy
}

/// Version shown under the form: "v<version>".
pub fn version_label(version: &str) -> (r: String)
    ensures
        r@ == "v"@ + version@,
{
    let mut s = String::from_str("v");
    s.append(version);
    s
}

} // verus!
