//! Screens of the application and the tray menu commands.
use vstd::prelude::*;

verus! {

#[derive(Debug, Clone, PartialEq, Eq)]
pub enum Route {
    Login,
    Status,
    /// Explanation list; `today_only` limits it to today's segments.
    ExplanationList { today_only: bool },
    ExplanationInput { segment_id: String },
    Settings,
    UpdateNotice,
    Disabled,
}

/// Tray menu commands.
#[derive(Debug, Clone, Copy, PartialEq, Eq, Structural)]
pub enum TrayCommand {
    /// Show the window, focus it, undo minimising.
    Show,
    /// Show, then open the explanation list.
    OpenExplanation,
    /// Really quit.
    Quit,
}

/// Screen to show: a signed-in user on the login screen goes to the status screen.
pub open spec fn spec_route_after_login_check(route: Route, logged_in: bool) -> Route {
    if route is Login && logged_in {
        Route::Status
    } else {
        route
    }
}

pub fn route_after_login_check(route: Route, logged_in: bool) -> (r: Route)
    ensures
        r == spec_route_after_login_check(route, logged_in),
{
    match route {
        Route::Login => if logged_in {
            Route::Status
        } else {
            Route::Login
        },
        other => other,
    }
}

/// Initial screen: status when already signed in, login otherwise (automatic login is then tried).
pub fn initial_route(logged_in: bool) -> (r: Route)
    ensures
        r == if logged_in {
            Route::Status
        } else {
            Route::Login
        },
{
    if logged_in {
        Route::Status
    } else {
        Route::Login
    }
}

/// Screen after a tray command: opening the explanations goes to the full list
/// when signed in; other commands keep the screen.
pub fn route_after_tray(route: Route, cmd: TrayCommand, logged_in: bool) -> (r: Route)
    ensures
        cmd == TrayCommand::OpenExplanation && logged_in ==> r == (Route::ExplanationList { today_only: false }),
        !(cmd == TrayCommand::OpenExplanation && logged_in) ==> r == route,
{
    if cmd == TrayCommand::OpenExplanation && logged_in {
        Route::ExplanationList { today_only: false }
    } else {
        route
    }
}

/// Closing the window only hides it while a tray icon exists and no real quit was asked.
pub fn close_hides_window(has_tray: bool, really_quit: bool, close_requested: bool) -> (r: bool)
    ensures
        r == (has_tray && !really_quit && close_requested),
{
    has_tray && !really_quit && close_requested
}

} // verus!
