//! Who may see what: the password check in front of every protected page.

use vstd::prelude::*;

use crate::config::settings::Settings;
use crate::text::str_eq;

verus! {

/// The path of the login page, which is always reachable.
pub const LOGIN_PATH: &'static str = "/login";

/// The name of the cookie that marks a logged-in browser.
pub const SESSION_COOKIE_NAME: &'static str = "auth_session";

/// The value of that cookie once the password was given.
pub const SESSION_COOKIE_VALUE: &'static str = "authenticated";

/// Whether a request goes through or is sent to the login page.
#[derive(Debug, Clone, Copy, PartialEq, Eq, Structural)]
pub enum AuthDecision {
    Allow,
    RedirectToLogin,
}

/// A request is let through when no password is configured, when it is for
/// the login page, or when it carries the session cookie with its value.
pub open spec fn auth_outcome(
    password_set: bool,
    request_path: Seq<char>,
    session_cookie: Option<Seq<char>>,
) -> AuthDecision {
    if !password_set || request_path == LOGIN_PATH@ || session_cookie == Some(SESSION_COOKIE_VALUE@) {
        AuthDecision::Allow
    } else {
        AuthDecision::RedirectToLogin
    }
}

/// The decision for a request to `request_path` whose session cookie,
/// if it sent one, has the value `session_cookie`.
pub fn auth_decision(settings: &Settings, request_path: &str, session_cookie: Option<&str>) -> (d:
    AuthDecision)
    ensures
        d == auth_outcome(
            settings.optional_password is Some,
            request_path@,
            match session_cookie {
                Some(c) => Some(c@),
                None => None,
            },
        ),
{
    if settings.optional_password.is_none() {
        return AuthDecision::Allow;
    }
    if str_eq(request_path, LOGIN_PATH) {
        return AuthDecision::Allow;
    }
    let authenticated = match session_cookie {
        Some(c) => str_eq(c, SESSION_COOKIE_VALUE),
        None => false,
    };
    if authenticated {
        AuthDecision::Allow
    } else {
        AuthDecision::RedirectToLogin
    }
}

/// The answer to a submitted password.
#[derive(Debug, Clone, Copy, PartialEq, Eq, Structural)]
pub enum LoginOutcome {
    /// Set the session cookie and go to the listing.
    Accepted,
    /// Answer "Invalid password" with status 401.
    Rejected,
}

/// A password is accepted exactly when one is configured and it is the one submitted.
pub open spec fn login_result(configured: Option<Seq<char>>, submitted: Seq<char>) -> LoginOutcome {
    if configured == Some(submitted) {
        LoginOutcome::Accepted
    } else {
        LoginOutcome::Rejected
    }
}

/// The answer to the login form.
pub fn login_outcome(settings: &Settings, submitted: &str) -> (o: LoginOutcome)
    ensures
        o == login_result(
            match settings.optional_password {
                Some(p) => Some(p@),
                None => None,
            },
            submitted@,
        ),
{
    match &settings.optional_password {
        Some(expected) => {
            if str_eq(expected.as_str(), submitted) {
                LoginOutcome::Accepted
            } else {
                LoginOutcome::Rejected
            }
        },
        None => LoginOutcome::Rejected,
    }
}

/// After an accepted login, the browser's session cookie lets it through to
/// every page.
pub proof fn lemma_login_grants_access(
    configured: Option<Seq<char>>,
    submitted: Seq<char>,
    request_path: Seq<char>,
)
    requires
        login_result(configured, submitted) == LoginOutcome::Accepted,
    ensures
        auth_outcome(configured is Some, request_path, Some(SESSION_COOKIE_VALUE@)) == AuthDecision::Allow,
{
}

/// With a password configured, a request for any page but the login page that
/// lacks the session cookie's value is sent to the login page; without one,
/// every request goes through and no password is accepted.
pub proof fn lemma_closed_without_session(
    configured: Option<Seq<char>>,
    submitted: Seq<char>,
    request_path: Seq<char>,
    session_cookie: Option<Seq<char>>,
)
    ensures
        configured is Some && request_path != LOGIN_PATH@ && session_cookie != Some(
            SESSION_COOKIE_VALUE@,
        ) ==> auth_outcome(true, request_path, session_cookie) == AuthDecision::RedirectToLogin,
        configured is None ==> auth_outcome(false, request_path, session_cookie) == AuthDecision::Allow
            && login_result(configured, submitted) == LoginOutcome::Rejected,
        auth_outcome(configured is Some, LOGIN_PATH@, session_cookie) == AuthDecision::Allow,
{
}


/// A configured password is accepted exactly when the submitted one equals it.
pub proof fn lemma_login_exact(configured: Seq<char>, submitted: Seq<char>)
    ensures
        (login_result(Some(configured), submitted) == LoginOutcome::Accepted) == (configured
            == submitted),
{
}

}
