//! The route guard of the admin pages and what the login page does with the
//! server's answer. The pages ask the server; these functions decide.

use vstd::prelude::*;

verus! {

/// The endpoint that tells whether the client has a valid session.
pub const IDENTITY_ENDPOINT: &'static str = "/api/admin/me";

/// The endpoint that the login page posts the credentials to.
pub const LOGIN_ENDPOINT: &'static str = "/api/admin/login";

/// The key under which the browser keeps a bearer token in its local
/// storage.
pub const TOKEN_STORAGE_KEY: &'static str = "admin_token";

/// Where an unauthenticated visitor of an admin page is sent: the login page.
pub const LOGIN_ENTRY: &'static str = "/admin";

/// Where the login page goes after a login that succeeded.
pub const AFTER_LOGIN: &'static str = "/admin/dashboard";

/// What the login page shows after a login that did not succeed.
pub const LOGIN_ERROR: &'static str = "Invalid username or password";

/// What a protected page does on a navigation.
#[derive(Clone, Copy, Debug, PartialEq, Eq, Structural)]
pub enum GuardDecision {
    /// The check is under way: show that, and nothing of the page.
    Verifying,
    /// The visitor is authenticated: render the page.
    Render,
    /// The visitor is not authenticated: go to the login page instead.
    RedirectToLogin,
}

/// What the login page does after it posted the credentials.
#[derive(Clone, Copy, Debug, PartialEq, Eq, Structural)]
pub enum LoginPageAction {
    /// Go on to the dashboard.
    EnterDashboard,
    /// Stay and show the error.
    ShowError,
}

/// Whether a browser holds a session that the server accepts.
#[derive(Clone, Copy, Debug, PartialEq, Eq, Structural)]
pub enum SessionState {
    Anonymous,
    Authenticated,
}

/// What can happen to the session of a browser.
#[derive(Clone, Copy, Debug, PartialEq, Eq, Structural)]
pub enum SessionEvent {
    LoginSucceeded,
    LoginRefused,
    LoggedOut,
    CredentialExpired,
}

/// The state of a session after an event: a successful login authenticates,
/// logout and expiry end the session, a refused login changes nothing.
pub open spec fn state_after(state: SessionState, event: SessionEvent) -> SessionState {
    match event {
        SessionEvent::LoginSucceeded => SessionState::Authenticated,
        SessionEvent::LoginRefused => state,
        SessionEvent::LoggedOut => SessionState::Anonymous,
        SessionEvent::CredentialExpired => SessionState::Anonymous,
    }
}

/// Whether the visitor is authenticated, given how the request to the
/// identity endpoint went: `Some(ok)` where the server answered, with `ok`
/// for a 2xx status, `None` where the request failed.
pub fn auth_status(response: Option<bool>) -> (authenticated: bool)
    ensures
        authenticated == (response == Some(true)),
{
    match response {
        Some(ok) => ok,
        None => false,
    }
}

/// Decides what a protected page does, given the state of the check:
/// `None` while it is under way, else its result. The page is rendered only
/// once the check has said yes.
pub fn route_guard(status: Option<bool>) -> (decision: GuardDecision)
    ensures
        decision == match status {
            None => GuardDecision::Verifying,
            Some(true) => GuardDecision::Render,
            Some(false) => GuardDecision::RedirectToLogin,
        },
{
    match status {
        None => GuardDecision::Verifying,
        Some(true) => GuardDecision::Render,
        Some(false) => GuardDecision::RedirectToLogin,
    }
}

/// Decides what the login page does, given how the request to the login
/// endpoint went: as for `auth_status`.
pub fn after_login(response: Option<bool>) -> (action: LoginPageAction)
    ensures
        action == if response == Some(true) {
            LoginPageAction::EnterDashboard
        } else {
            LoginPageAction::ShowError
        },
{
    match response {
        Some(true) => LoginPageAction::EnterDashboard,
        _ => LoginPageAction::ShowError,
    }
}

/// The state of a session after an event.
pub fn next_state(state: SessionState, event: SessionEvent) -> (next: SessionState)
    ensures
        next == state_after(state, event),
{
    match event {
        SessionEvent::LoginSucceeded => SessionState::Authenticated,
        SessionEvent::LoginRefused => state,
        SessionEvent::LoggedOut => SessionState::Anonymous,
        SessionEvent::CredentialExpired => SessionState::Anonymous,
    }
}

} // verus!
