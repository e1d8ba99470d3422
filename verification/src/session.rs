//! Session classification and the session-cookie lifecycle.
//!
//! A request carries at most one session cookie. The cookie becomes an
//! instruction for the caller (verify this token, or treat the request as
//! anonymous), and the verifier's outcome becomes the authenticated-or-not
//! classification that every page and data route consumes. Verifying the
//! token itself is an upstream call; this module only decides.

use vstd::prelude::*;
use crate::SESSION_COOKIE;

verus! {

/// User profile derived by verifying a session token. Never stored
/// server-side; recomputed from the cookie on every request.
pub struct Profile {
    pub user_id: String,
    pub email: String,
    /// Absolute expiry of the token, in seconds since the epoch.
    pub expires_at: i64,
    /// Remaining lifetime of the token, in seconds.
    pub expires_in: i64,
}

/// What the external token verifier reported for one token.
pub enum VerifyOutcome {
    /// The token verified and yielded this profile.
    Valid(Profile),
    /// The token verified but no profile came back.
    NoProfile,
    /// Verification failed outright, with the verifier's message.
    Failed(String),
}

/// What the external OAuth token exchange reported for one credential.
pub enum OAuthOutcome {
    /// The exchange granted an access token with this remaining lifetime in
    /// seconds.
    Granted { access_token: String, expires_in: i64 },
    /// The exchange failed, with its message.
    Denied(String),
}

/// What the caller is asked to do with a request's cookie.
pub enum GateStep {
    /// A cookie is present: verify this token, then classify the outcome.
    Verify(String),
    /// No cookie: the request is anonymous.
    Anonymous,
}

/// Classification of a request once its cookie has been examined.
pub enum GateOutcome {
    Authenticated(Profile),
    Unauthenticated,
}

/// First half of the session check: read the session cookie.
pub fn gate_begin(cookie: Option<String>) -> (r: GateStep)
    ensures
        cookie matches Some(v) ==> r == GateStep::Verify(v),
        cookie is None ==> r == GateStep::Anonymous,
{
    match cookie {
        Some(v) => GateStep::Verify(v),
        None => GateStep::Anonymous,
    }
}

/// Second half of the session check: classify the request. A request without a
/// cookie is anonymous whatever else happened; with a cookie, only a
/// verified profile counts as logged in — a failure, a missing profile, or
/// no verifier outcome at all (a timeout, say) is treated uniformly as not
/// logged in, and the cause is not surfaced.
pub fn resolve_gate(cookie_present: bool, verify: Option<VerifyOutcome>) -> (r: GateOutcome)
    ensures
        !cookie_present ==> r == GateOutcome::Unauthenticated,
        cookie_present ==> (verify matches Some(VerifyOutcome::Valid(p)) ==> r
            == GateOutcome::Authenticated(p)),
        cookie_present && !(verify matches Some(VerifyOutcome::Valid(_))) ==> r
            == GateOutcome::Unauthenticated,
{
    if !cookie_present {
        return GateOutcome::Unauthenticated;
    }
    match verify {
        Some(VerifyOutcome::Valid(p)) => GateOutcome::Authenticated(p),
        _ => GateOutcome::Unauthenticated,
    }
}

/// A Set-Cookie instruction.
pub struct SetCookie {
    pub name: String,
    pub value: String,
    /// Max-Age in seconds; absent for a cookie that lasts the browser
    /// session, as when the cookie is cleared on logout.
    pub max_age: Option<i64>,
    pub path: String,
    pub same_site_lax: bool,
    pub http_only: bool,
    pub secure: bool,
}

/// The session cookie issued after a successful login. The secure flag is
/// per-deployment configuration, not hard-coded.
pub fn issue_cookie(token: String, max_age_secs: i64, secure: bool) -> (r: SetCookie)
    ensures
        r.name@ == SESSION_COOKIE@,
        r.value == token,
        r.max_age == Some(max_age_secs),
        r.path@ == "/"@,
        r.same_site_lax,
        r.http_only,
        r.secure == secure,
{
    SetCookie {
        name: SESSION_COOKIE.to_owned(),
        value: token,
        max_age: Some(max_age_secs),
        path: "/".to_owned(),
        same_site_lax: true,
        http_only: true,
        secure,
    }
}

/// The instruction that destroys the session cookie: same name and path,
/// empty value.
pub fn clear_cookie(secure: bool) -> (r: SetCookie)
    ensures
        r.name@ == SESSION_COOKIE@,
        r.value@ == Seq::<char>::empty(),
        r.max_age is None,
        r.path@ == "/"@,
        !r.same_site_lax,
        r.http_only,
        r.secure == secure,
{
    let value = "".to_owned();
    proof {
        reveal_strlit("");
        assert(value@ =~= Seq::<char>::empty());
    }
    SetCookie {
        name: SESSION_COOKIE.to_owned(),
        value,
        max_age: None,
        path: "/".to_owned(),
        same_site_lax: false,
        http_only: true,
        secure,
    }
}

} // verus!
