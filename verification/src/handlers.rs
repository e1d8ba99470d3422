//! The route handlers.
//!
//! Each handler is a pure decision from plain inputs — the session
//! classification, query parameters, what the external OAuth or
//! verification call reported — to a `Response`. The host performs the
//! upstream calls and carries the response out; no handler does I/O.

use vstd::prelude::*;
use vstd::string::StringExecFns;
use crate::envelope::{chat_envelope, chat_envelope_v, data_envelope, data_envelope_v,
    data_redirect, data_redirect_v, error_envelope, error_envelope_v, account_check_envelope,
    account_check_v, session_descriptor, session_descriptor_v};
use crate::json::JsonV;
use crate::json::string_pairs_view;
use crate::response::{Body, CtxValue, Response, Template, is_redirect_to, is_json_reply};
use crate::session::{GateOutcome, OAuthOutcome, VerifyOutcome, issue_cookie, clear_cookie};
use crate::timefmt::{format_epoch_utc, utc_datetime_text};
use crate::SESSION_COOKIE;

verus! {

broadcast use vstd::std_specs::vec::group_vec_axioms, vstd::seq::group_seq_axioms;

/// A 200 render of template `t` whose context is the single serialized
/// document `doc` under the key the templates embed.
pub open spec fn is_props_render(r: Response, t: Template, doc: JsonV) -> bool {
    &&& r.status == 200
    &&& r.location is None
    &&& r.cookie is None
    &&& r.body matches Body::Render { template, context } && template == t && context.len() == 1
        && context[0].0@ == "props"@ && (context[0].1 matches CtxValue::Props(j) && j@ == doc)
}

/// The login form rendered with exactly these three context fields; no
/// credential beyond the username is ever echoed.
pub open spec fn is_login_form_render(
    r: Response,
    next: Seq<char>,
    error: Seq<char>,
    username: Seq<char>,
) -> bool {
    &&& r.status == 200
    &&& r.location is None
    &&& r.cookie is None
    &&& r.body matches Body::Render { template, context } && template == Template::Login
        && context.len() == 3 && context[0].0@ == "next"@ && (context[0].1 matches
        CtxValue::Text(t) && t@ == next) && context[1].0@ == "error"@ && (context[1].1 matches
        CtxValue::Text(t) && t@ == error) && context[2].0@ == "username"@ && (context[2].1 matches
        CtxValue::Text(t) && t@ == username)
}

/// A redirect that also issues the session cookie for `token`.
pub open spec fn is_login_redirect(
    r: Response,
    loc: Seq<char>,
    token: Seq<char>,
    max_age: i64,
    secure: bool,
) -> bool {
    &&& r.status == 303
    &&& r.location matches Some(l) && l@ == loc
    &&& r.cookie matches Some(c) && c.name@ == SESSION_COOKIE@ && c.value@ == token && c.max_age
        == Some(max_age) && c.path@ == "/"@ && c.same_site_lax && c.http_only && c.secure == secure
    &&& r.body is Empty
}

/// A server-side failure surfaced with the upstream message.
pub open spec fn is_server_error(r: Response, msg: Seq<char>) -> bool {
    &&& r.status == 500
    &&& r.location is None
    &&& r.cookie is None
    &&& r.body matches Body::Text(t) && t@ == msg
}

/// The redirect every page route gives a request that is not logged in.
pub fn redirect_login() -> (r: Response)
    ensures
        is_redirect_to(r, 302, "/login"@),
{
    Response {
        status: 302,
        location: Some("/login".to_owned()),
        cookie: None,
        body: Body::Empty,
    }
}

/// The auth landing page; rendered without any context.
pub fn auth_page() -> (r: Response)
    ensures
        r.status == 200,
        r.location is None,
        r.cookie is None,
        r.body matches Body::Render { template, context } && template == Template::Share
            && context.len() == 0,
{
    Response {
        status: 200,
        location: None,
        cookie: None,
        body: Body::Render { template: Template::Share, context: Vec::new() },
    }
}

/// The login form, blank, remembering where to go after login.
pub fn login_form(next: Option<String>) -> (r: Response)
    ensures
        is_login_form_render(
            r,
            match next {
                Some(n) => n@,
                None => ""@,
            },
            ""@,
            ""@,
        ),
{
    let next_val = match next {
        Some(n) => n,
        None => "".to_owned(),
    };
    let mut context: Vec<(String, CtxValue)> = Vec::new();
    context.push(("next".to_owned(), CtxValue::Text(next_val)));
    context.push(("error".to_owned(), CtxValue::Text("".to_owned())));
    context.push(("username".to_owned(), CtxValue::Text("".to_owned())));
    Response {
        status: 200,
        location: None,
        cookie: None,
        body: Body::Render { template: Template::Login, context },
    }
}

/// Decide the reply to a credential login, given what the OAuth exchange
/// reported. Success issues the session cookie and redirects to `next`
/// (default `/`); failure re-renders the form with the username preserved
/// and the error shown, and sets no cookie.
pub fn login_submit(
    next: Option<String>,
    username: String,
    oauth: OAuthOutcome,
    secure: bool,
) -> (r: Response)
    ensures
        oauth matches OAuthOutcome::Granted { access_token, expires_in } ==> is_login_redirect(
            r,
            match next {
                Some(n) => n@,
                None => "/"@,
            },
            access_token@,
            expires_in,
            secure,
        ),
        oauth matches OAuthOutcome::Denied(msg) ==> is_login_form_render(
            r,
            match next {
                Some(n) => n@,
                None => "/"@,
            },
            msg@,
            username@,
        ),
{
    let next_val = match next {
        Some(n) => n,
        None => "/".to_owned(),
    };
    match oauth {
        OAuthOutcome::Granted { access_token, expires_in } => Response {
            status: 303,
            location: Some(next_val),
            cookie: Some(issue_cookie(access_token, expires_in, secure)),
            body: Body::Empty,
        },
        OAuthOutcome::Denied(msg) => {
            let mut context: Vec<(String, CtxValue)> = Vec::new();
            context.push(("next".to_owned(), CtxValue::Text(next_val)));
            context.push(("error".to_owned(), CtxValue::Text(msg)));
            context.push(("username".to_owned(), CtxValue::Text(username)));
            Response {
                status: 200,
                location: None,
                cookie: None,
                body: Body::Render { template: Template::Login, context },
            }
        },
    }
}

/// What the bearer-token login route does before any outside call: with no
/// authorization header the caller goes to the login form; otherwise the
/// header's token is to be verified.
pub enum TokenLoginStep {
    Reply(Response),
    Verify(String),
}

/// First half of the bearer-token login.
pub fn login_token_begin(auth_header: Option<String>) -> (r: TokenLoginStep)
    ensures
        auth_header matches Some(t) ==> r == TokenLoginStep::Verify(t),
        auth_header is None ==> (r matches TokenLoginStep::Reply(resp) && is_redirect_to(
            resp,
            302,
            "/login"@,
        )),
{
    match auth_header {
        Some(t) => TokenLoginStep::Verify(t),
        None => TokenLoginStep::Reply(redirect_login()),
    }
}

/// Second half of the bearer-token login: a verified profile issues a
/// cookie carrying the same token with the profile's remaining lifetime; a
/// verification failure is a 400 with the verifier's message as a JSON
/// string; a verification without a profile is a server error.
pub fn login_token_finish(token: String, outcome: VerifyOutcome, secure: bool) -> (r: Response)
    ensures
        outcome matches VerifyOutcome::Valid(p) ==> is_login_redirect(
            r,
            "/"@,
            token@,
            p.expires_in,
            secure,
        ),
        outcome is NoProfile ==> is_server_error(r, "Get Profile Erorr"@),
        outcome matches VerifyOutcome::Failed(msg) ==> is_json_reply(r, 400, JsonV::Str(msg@)),
{
    match outcome {
        VerifyOutcome::Valid(p) => Response {
            status: 303,
            location: Some("/".to_owned()),
            cookie: Some(issue_cookie(token, p.expires_in, secure)),
            body: Body::Empty,
        },
        VerifyOutcome::NoProfile => Response {
            status: 500,
            location: None,
            cookie: None,
            body: Body::Text("Get Profile Erorr".to_owned()),
        },
        VerifyOutcome::Failed(msg) => Response {
            status: 400,
            location: None,
            cookie: None,
            body: Body::Json(crate::json::JsonVal::Str(msg)),
        },
    }
}

/// Logout: whatever the best-effort revocation call reported — even a
/// failure, even no call at all — the cookie is cleared and the caller is
/// sent to the login form. The cleared cookie keeps the issued cookie's
/// path and HttpOnly flag, so it overwrites the session cookie itself.
pub fn logout(revocation: &Option<Result<(), String>>, secure: bool) -> (r: Response)
    ensures
        r.status == 303,
        r.location matches Some(l) && l@ == "/login"@,
        r.cookie matches Some(c) && c.name@ == SESSION_COOKIE@ && c.value@ == Seq::<char>::empty()
            && c.max_age is None && c.path@ == "/"@ && c.http_only && !c.same_site_lax && c.secure
            == secure,
        r.body is Empty,
{
    Response {
        status: 303,
        location: Some("/login".to_owned()),
        cookie: Some(clear_cookie(secure)),
        body: Body::Empty,
    }
}

/// A chat page request: anonymous callers are redirected to the login form;
/// an authenticated caller gets the list or detail template with the exact
/// envelope for the view, the detail view's query carrying the conversation
/// id under `chatId`.
pub fn chat_page(
    gate: GateOutcome,
    conversation_id: Option<String>,
    query: Vec<(String, String)>,
) -> (r: Response)
    ensures
        gate is Unauthenticated ==> is_redirect_to(r, 302, "/login"@),
        gate matches GateOutcome::Authenticated(p) ==> (conversation_id is None
            ==> is_props_render(
            r,
            Template::Chat,
            chat_envelope_v(p.user_id@, p.email@, "/"@, string_pairs_view(query@)),
        )),
        gate matches GateOutcome::Authenticated(p) ==> (conversation_id matches Some(id)
            ==> is_props_render(
            r,
            Template::Detail,
            chat_envelope_v(
                p.user_id@,
                p.email@,
                "/c/[chatId]"@,
                members_of(upsert_view(pairs_view(query@), "chatId"@, id@)),
            ),
        )),
{
    match gate {
        GateOutcome::Unauthenticated => redirect_login(),
        GateOutcome::Authenticated(p) => {
            let (template, env) = match conversation_id {
                Some(id) => {
                    let merged = upsert(&query, "chatId", id);
                    proof {
                        assert(string_pairs_view(merged@) =~= members_of(
                            upsert_view(pairs_view(query@), "chatId"@, id@),
                        ));
                    }
                    (Template::Detail, chat_envelope(&p, "/c/[chatId]", &merged))
                },
                None => (Template::Chat, chat_envelope(&p, "/", &query)),
            };
            let mut context: Vec<(String, CtxValue)> = Vec::new();
            context.push(("props".to_owned(), CtxValue::Props(env)));
            Response {
                status: 200,
                location: None,
                cookie: None,
                body: Body::Render { template, context },
            }
        },
    }
}

/// A data-fetch request: an authenticated caller gets the bare page props;
/// anyone else gets a 200 whose body instructs the client router to
/// redirect, never a transport-level redirect.
pub fn chat_data(gate: GateOutcome) -> (r: Response)
    ensures
        gate matches GateOutcome::Authenticated(p) ==> is_json_reply(
            r,
            200,
            data_envelope_v(p.user_id@, p.email@),
        ),
        gate is Unauthenticated ==> is_json_reply(r, 200, data_redirect_v()),
{
    match gate {
        GateOutcome::Authenticated(p) => Response {
            status: 200,
            location: None,
            cookie: None,
            body: Body::Json(data_envelope(&p)),
        },
        GateOutcome::Unauthenticated => Response {
            status: 200,
            location: None,
            cookie: None,
            body: Body::Json(data_redirect()),
        },
    }
}

/// A share request: with a valid session the share page always carries the
/// 404 envelope, whatever the id; anyone else is redirected to the login
/// form with the share path, percent-encoded, as the `next` target.
pub fn share_page(gate: GateOutcome, share_id: &String) -> (r: Response)
    ensures
        gate is Authenticated ==> is_props_render(r, Template::Share, error_envelope_v(true)),
        gate is Unauthenticated ==> is_redirect_to(r, 302, "/login?next=%2Fshare%2F"@ + share_id@),
{
    match gate {
        GateOutcome::Authenticated(_) => {
            let mut context: Vec<(String, CtxValue)> = Vec::new();
            context.push(("props".to_owned(), CtxValue::Props(error_envelope(true))));
            Response {
                status: 200,
                location: None,
                cookie: None,
                body: Body::Render { template: Template::Share, context },
            }
        },
        GateOutcome::Unauthenticated => {
            let mut loc = "/login?next=%2Fshare%2F".to_owned();
            loc.append(share_id.as_str());
            Response { status: 302, location: Some(loc), cookie: None, body: Body::Empty }
        },
    }
}

/// The session-info route: anonymous callers are redirected; for an
/// authenticated caller the upstream dashboard login must have succeeded
/// with a picture, the profile's expiry must be representable as a calendar
/// datetime, and the reply is the flat session descriptor carrying the raw
/// bearer token back to its owner. An expiry up to the year 9999 is always
/// representable.
pub fn session_info(gate: GateOutcome, token: String, dashboard: Result<String, String>) -> (r:
    Response)
    ensures
        gate is Unauthenticated ==> is_redirect_to(r, 302, "/login"@),
        gate matches GateOutcome::Authenticated(p) ==> (dashboard matches Err(e)
            ==> is_server_error(r, e@)),
        gate matches GateOutcome::Authenticated(p) ==> (dashboard matches Ok(picture) ==> {
            ||| is_json_reply(
                r,
                200,
                session_descriptor_v(
                    p.user_id@,
                    p.email@,
                    picture@,
                    utc_datetime_text(p.expires_at),
                    token@,
                ),
            )
            ||| is_server_error(r, "invalid token expiry"@)
        }),
        gate matches GateOutcome::Authenticated(p) ==> (dashboard matches Ok(picture) ==> (0
            <= p.expires_at <= 253402300799 ==> is_json_reply(
            r,
            200,
            session_descriptor_v(
                p.user_id@,
                p.email@,
                picture@,
                utc_datetime_text(p.expires_at),
                token@,
            ),
        ))),
{
    match gate {
        GateOutcome::Unauthenticated => redirect_login(),
        GateOutcome::Authenticated(p) => match dashboard {
            Err(e) => Response {
                status: 500,
                location: None,
                cookie: None,
                body: Body::Text(e),
            },
            Ok(picture) => match format_epoch_utc(p.expires_at) {
                None => Response {
                    status: 500,
                    location: None,
                    cookie: None,
                    body: Body::Text("invalid token expiry".to_owned()),
                },
                Some(expires) => Response {
                    status: 200,
                    location: None,
                    cookie: None,
                    body: Body::Json(session_descriptor(&p, &picture, &expires, &token)),
                },
            },
        },
    }
}

/// The account-check route: fixed stub data.
pub fn account_check() -> (r: Response)
    ensures
        is_json_reply(r, 200, account_check_v()),
{
    Response {
        status: 200,
        location: None,
        cookie: None,
        body: Body::Json(account_check_envelope()),
    }
}

/// The catch-all: any unmatched request gets HTTP 200 with the 404 encoded
/// in the envelope, as the client's error boundary expects.
pub fn not_found() -> (r: Response)
    ensures
        is_props_render(r, Template::NotFound, error_envelope_v(false)),
{
    let mut context: Vec<(String, CtxValue)> = Vec::new();
    context.push(("props".to_owned(), CtxValue::Props(error_envelope(false))));
    Response {
        status: 200,
        location: None,
        cookie: None,
        body: Body::Render { template: Template::NotFound, context },
    }
}

/// The legacy chat paths redirect to the root.
pub fn legacy_chat_redirect() -> (r: Response)
    ensures
        is_redirect_to(r, 307, "/"@),
{
    Response { status: 307, location: Some("/".to_owned()), cookie: None, body: Body::Empty }
}

/// The query pairs, as characters.
pub open spec fn pairs_view(q: Seq<(String, String)>) -> Seq<(Seq<char>, Seq<char>)> {
    Seq::new(q.len(), |i: int| (q[i].0@, q[i].1@))
}

/// The object members for a set of query pairs.
pub open spec fn members_of(q: Seq<(Seq<char>, Seq<char>)>) -> Seq<(Seq<char>, JsonV)> {
    Seq::new(q.len(), |i: int| (q[i].0, JsonV::Str(q[i].1)))
}

/// Where `key` is already bound, rebind it to `value` in place; otherwise
/// append the pair. This is what a map insertion does to the query.
pub open spec fn upsert_view(
    q: Seq<(Seq<char>, Seq<char>)>,
    key: Seq<char>,
    value: Seq<char>,
) -> Seq<(Seq<char>, Seq<char>)>
    decreases q.len(),
{
    if q.len() == 0 {
        seq![(key, value)]
    } else if q[0].0 == key {
        seq![(q[0].0, value)] + q.skip(1)
    } else {
        seq![q[0]] + upsert_view(q.skip(1), key, value)
    }
}

/// An upsert that hits `i`, the first index bound to `key`, rebinds it.
proof fn lemma_upsert_found(
    q: Seq<(Seq<char>, Seq<char>)>,
    key: Seq<char>,
    value: Seq<char>,
    i: int,
)
    requires
        0 <= i < q.len(),
        q[i].0 == key,
        forall|j: int| 0 <= j < i ==> q[j].0 != key,
    ensures
        upsert_view(q, key, value) =~= q.update(i, (q[i].0, value)),
    decreases i,
{
    if i == 0 {
        assert(upsert_view(q, key, value) =~= q.update(0, (q[0].0, value)));
    } else {
        assert(forall|j: int| 0 <= j < i - 1 ==> #[trigger] q.skip(1)[j].0 != key);
        assert(q.skip(1)[i - 1].0 == key);
        lemma_upsert_found(q.skip(1), key, value, i - 1);
        assert(upsert_view(q, key, value) =~= q.update(i, (q[i].0, value)));
    }
}

/// An upsert that misses every key appends the pair.
proof fn lemma_upsert_missing(q: Seq<(Seq<char>, Seq<char>)>, key: Seq<char>, value: Seq<char>)
    requires
        forall|j: int| 0 <= j < q.len() ==> q[j].0 != key,
    ensures
        upsert_view(q, key, value) =~= q.push((key, value)),
    decreases q.len(),
{
    if q.len() > 0 {
        assert(forall|j: int| 0 <= j < q.len() - 1 ==> #[trigger] q.skip(1)[j].0 != key);
        lemma_upsert_missing(q.skip(1), key, value);
        assert(upsert_view(q, key, value) =~= q.push((key, value)));
    }
}

/// Insert `value` under `key` as a map would: rebind the first pair already
/// carrying `key`, else append.
pub fn upsert(query: &Vec<(String, String)>, key: &str, value: String) -> (r: Vec<(String, String)>)
    ensures
        pairs_view(r@) == upsert_view(pairs_view(query@), key@, value@),
{
    let n = query.len();
    let mut found: Option<usize> = None;
    let mut i: usize = 0;
    while i < n
        invariant
            i <= n,
            n == query@.len(),
            found is None ==> forall|j: int| 0 <= j < i ==> query@[j].0@ != key@,
            found matches Some(f) ==> f < i && query@[f as int].0@ == key@ && (forall|j: int|
                0 <= j < f ==> query@[j].0@ != key@),
        decreases n - i,
    {
        if found.is_none() && crate::text::str_eq(query[i].0.as_str(), key) {
            found = Some(i);
        }
        i = i + 1;
    }
    let mut out: Vec<(String, String)> = Vec::new();
    let mut j: usize = 0;
    while j < n
        invariant
            j <= n,
            n == query@.len(),
            out@.len() == j,
            found matches Some(f) ==> f < n && query@[f as int].0@ == key@,
            forall|k: int| #![trigger query@[k]]
                0 <= k < j ==> out@[k].0@ == query@[k].0@ && out@[k].1@ == (
                if found == Some(k as usize) {
                    value@
                } else {
                    query@[k].1@
                }),
        decreases n - j,
    {
        let hit = match found {
            Some(f) => f == j,
            None => false,
        };
        if hit {
            out.push((query[j].0.clone(), value.clone()));
            proof {
                assert(found == Some(j));
                assert(out@[j as int].0@ == query@[j as int].0@);
                assert(out@[j as int].1@ == value@);
            }
        } else {
            out.push((query[j].0.clone(), query[j].1.clone()));
            proof {
                assert(found != Some(j));
                assert(out@[j as int].0@ == query@[j as int].0@);
                assert(out@[j as int].1@ == query@[j as int].1@);
            }
        }
        j = j + 1;
    }
    match found {
        Some(f) => {
            proof {
                lemma_upsert_found(pairs_view(query@), key@, value@, f as int);
                assert(pairs_view(out@) =~= pairs_view(query@).update(
                    f as int,
                    (query@[f as int].0@, value@),
                ));
            }
            out
        },
        None => {
            let mut out2 = out;
            out2.push((key.to_owned(), value));
            proof {
                lemma_upsert_missing(pairs_view(query@), key@, value@);
                assert(pairs_view(out2@) =~= pairs_view(query@).push((key@, value@)));
            }
            out2
        },
    }
}

} // verus!
