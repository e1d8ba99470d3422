//! The route table.
//!
//! `dispatch` maps an inbound method and path to exactly one handler kind,
//! trying patterns in registration order: exact literals first, then
//! single-segment parameterized paths, then the versioned data-fetch paths
//! built from the build identifier, then generic static-asset paths, and a
//! catch-all last.

use vstd::prelude::*;
use vstd::seq_lib::*;
use vstd::string::StrSliceExecFns;
use vstd::string::StringExecFns;
use crate::text::{str_eq, has_prefix, has_suffix, contains_char, tail_from};
use crate::BUILD_ID;

verus! {

/// Request method, as far as the table distinguishes.
#[derive(Clone, Copy, PartialEq, Eq, Structural, Debug)]
pub enum Method {
    Get,
    Post,
    Other,
}

/// The handler kind a request is routed to.
#[derive(Debug, PartialEq, Eq)]
pub enum Route {
    /// `GET /auth`.
    Auth,
    /// `GET /login`.
    LoginForm,
    /// `POST /login`.
    LoginSubmit,
    /// `POST /login/token`.
    LoginToken,
    /// `GET /auth/logout`.
    Logout,
    /// `GET /api/auth/session`.
    SessionInfo,
    /// `GET` on the versioned account-check path.
    AccountCheck,
    /// `GET /` or `GET /c`.
    ChatList,
    /// `GET /c/{conversationId}`.
    ChatDetail(String),
    /// `/chat` or `/chat/{conversationId}`, kept as a redirect to `/`.
    LegacyChatRedirect,
    /// `GET /share/{shareId}`.
    Share(String),
    /// A versioned data-fetch path: `index.json` or an allowlisted file.
    ChatData,
    /// A static-asset path; the payload is the resolver's lookup key, the
    /// request path without its leading slash.
    Asset(String),
    /// Anything else.
    NotFound,
}

/// Mathematical value of a route.
pub enum RouteV {
    Auth,
    LoginForm,
    LoginSubmit,
    LoginToken,
    Logout,
    SessionInfo,
    AccountCheck,
    ChatList,
    ChatDetail(Seq<char>),
    LegacyChatRedirect,
    Share(Seq<char>),
    ChatData,
    Asset(Seq<char>),
    NotFound,
}

impl View for Route {
    type V = RouteV;

    open spec fn view(&self) -> RouteV {
        match self {
            Route::Auth => RouteV::Auth,
            Route::LoginForm => RouteV::LoginForm,
            Route::LoginSubmit => RouteV::LoginSubmit,
            Route::LoginToken => RouteV::LoginToken,
            Route::Logout => RouteV::Logout,
            Route::SessionInfo => RouteV::SessionInfo,
            Route::AccountCheck => RouteV::AccountCheck,
            Route::ChatList => RouteV::ChatList,
            Route::ChatDetail(id) => RouteV::ChatDetail(id@),
            Route::LegacyChatRedirect => RouteV::LegacyChatRedirect,
            Route::Share(id) => RouteV::Share(id@),
            Route::ChatData => RouteV::ChatData,
            Route::Asset(key) => RouteV::Asset(key@),
            Route::NotFound => RouteV::NotFound,
        }
    }
}

/// Whether `p` is `pre` followed by one nonempty segment with no further
/// slash, the shape a single named URL parameter matches.
pub open spec fn is_param_tail(p: Seq<char>, pre: Seq<char>) -> bool {
    &&& pre.is_prefix_of(p)
    &&& p.len() > pre.len()
    &&& !p.skip(pre.len() as int).contains('/')
}

/// Whether `s` ends in a dot and `ext`, with a nonempty stem before the dot.
pub open spec fn ext_match(s: Seq<char>, dotted: Seq<char>) -> bool {
    dotted.is_suffix_of(s) && s.len() > dotted.len()
}

/// The file-extension allowlist of the data-fetch and asset routes.
pub open spec fn spec_ext_allowlisted(s: Seq<char>) -> bool {
    ||| ext_match(s, ".png"@)
    ||| ext_match(s, ".js"@)
    ||| ext_match(s, ".css"@)
    ||| ext_match(s, ".webp"@)
    ||| ext_match(s, ".json"@)
}

/// The versioned data-fetch path for the chat list.
pub open spec fn data_index_path() -> Seq<char> {
    "/_next/data/"@ + BUILD_ID@ + "/index.json"@
}

/// The prefix of the versioned per-conversation data-fetch paths.
pub open spec fn data_file_prefix() -> Seq<char> {
    "/_next/data/"@ + BUILD_ID@ + "/c/"@
}

/// Whether `p` lies under one of the fixed asset roots.
pub open spec fn under_asset_root(p: Seq<char>) -> bool {
    ||| "/_next/static/"@.is_prefix_of(p)
    ||| "/fonts/"@.is_prefix_of(p)
    ||| "/ulp/"@.is_prefix_of(p)
    ||| "/sweetalert2/"@.is_prefix_of(p)
}

/// The route table: first match wins, in registration order.
pub open spec fn spec_dispatch(m: Method, p: Seq<char>) -> RouteV {
    if m is Get && p == "/auth"@ {
        RouteV::Auth
    } else if m is Get && p == "/login"@ {
        RouteV::LoginForm
    } else if m is Post && p == "/login"@ {
        RouteV::LoginSubmit
    } else if m is Post && p == "/login/token"@ {
        RouteV::LoginToken
    } else if m is Get && p == "/auth/logout"@ {
        RouteV::Logout
    } else if m is Get && p == "/api/auth/session"@ {
        RouteV::SessionInfo
    } else if m is Get && p == "/auth/accounts/check/v4-2023-04-27"@ {
        RouteV::AccountCheck
    } else if m is Get && (p == "/"@ || p == "/c"@) {
        RouteV::ChatList
    } else if m is Get && is_param_tail(p, "/c/"@) {
        RouteV::ChatDetail(p.skip("/c/"@.len() as int))
    } else if p == "/chat"@ || is_param_tail(p, "/chat/"@) {
        RouteV::LegacyChatRedirect
    } else if m is Get && is_param_tail(p, "/share/"@) {
        RouteV::Share(p.skip("/share/"@.len() as int))
    } else if m is Get && p == data_index_path() {
        RouteV::ChatData
    } else if m is Get && data_file_prefix().is_prefix_of(p) && spec_ext_allowlisted(
        p.skip(data_file_prefix().len() as int),
    ) {
        RouteV::ChatData
    } else if m is Get && "/"@.is_prefix_of(p) && spec_ext_allowlisted(p.skip(1)) {
        RouteV::Asset(p.skip(1))
    } else if under_asset_root(p) {
        RouteV::Asset(p.skip(1))
    } else {
        RouteV::NotFound
    }
}

/// Whether `s` ends in an allowlisted extension with a nonempty stem.
pub fn ext_allowlisted(s: &str) -> (r: bool)
    ensures
        r == spec_ext_allowlisted(s@),
{
    let n = s.unicode_len();
    if has_suffix(s, ".png") && n > ".png".unicode_len() {
        return true;
    }
    if has_suffix(s, ".js") && n > ".js".unicode_len() {
        return true;
    }
    if has_suffix(s, ".css") && n > ".css".unicode_len() {
        return true;
    }
    if has_suffix(s, ".webp") && n > ".webp".unicode_len() {
        return true;
    }
    if has_suffix(s, ".json") && n > ".json".unicode_len() {
        return true;
    }
    false
}

/// The versioned data-fetch path for the chat list, as one string.
pub fn data_index_path_string() -> (r: String)
    ensures
        r@ == data_index_path(),
{
    let mut s = "/_next/data/".to_owned();
    s.append(BUILD_ID);
    s.append("/index.json");
    s
}

/// The prefix of the versioned per-conversation data-fetch paths.
pub fn data_file_prefix_string() -> (r: String)
    ensures
        r@ == data_file_prefix(),
{
    let mut s = "/_next/data/".to_owned();
    s.append(BUILD_ID);
    s.append("/c/");
    s
}

/// Whether `p` is `pre` followed by one nonempty slash-free segment.
fn param_tail(p: &str, pre: &str) -> (r: Option<String>)
    ensures
        r matches Some(t) ==> is_param_tail(p@, pre@) && t@ == p@.skip(pre@.len() as int),
        r is None ==> !is_param_tail(p@, pre@),
{
    if !has_prefix(p, pre) {
        return None;
    }
    let n = p.unicode_len();
    let np = pre.unicode_len();
    if n <= np {
        return None;
    }
    let tail = tail_from(p, np);
    if contains_char(tail.as_str(), '/') {
        return None;
    }
    Some(tail)
}

/// Select the handler for one request. First match wins, in the order the
/// routes are registered.
pub fn dispatch(m: &Method, path: &str) -> (r: Route)
    ensures
        r@ == spec_dispatch(*m, path@),
{
    let is_get = match m {
        Method::Get => true,
        _ => false,
    };
    let is_post = match m {
        Method::Post => true,
        _ => false,
    };
    if is_get && str_eq(path, "/auth") {
        return Route::Auth;
    }
    if is_get && str_eq(path, "/login") {
        return Route::LoginForm;
    }
    if is_post && str_eq(path, "/login") {
        return Route::LoginSubmit;
    }
    if is_post && str_eq(path, "/login/token") {
        return Route::LoginToken;
    }
    if is_get && str_eq(path, "/auth/logout") {
        return Route::Logout;
    }
    if is_get && str_eq(path, "/api/auth/session") {
        return Route::SessionInfo;
    }
    if is_get && str_eq(path, "/auth/accounts/check/v4-2023-04-27") {
        return Route::AccountCheck;
    }
    if is_get && (str_eq(path, "/") || str_eq(path, "/c")) {
        return Route::ChatList;
    }
    if is_get {
        match param_tail(path, "/c/") {
            Some(id) => {
                return Route::ChatDetail(id);
            },
            None => {},
        }
    }
    if str_eq(path, "/chat") {
        return Route::LegacyChatRedirect;
    }
    match param_tail(path, "/chat/") {
        Some(_) => {
            return Route::LegacyChatRedirect;
        },
        None => {},
    }
    if is_get {
        match param_tail(path, "/share/") {
            Some(id) => {
                return Route::Share(id);
            },
            None => {},
        }
    }
    if is_get {
        let idx = data_index_path_string();
        if str_eq(path, idx.as_str()) {
            return Route::ChatData;
        }
        let pre = data_file_prefix_string();
        if has_prefix(path, pre.as_str()) {
            let tail = tail_from(path, pre.as_str().unicode_len());
            if ext_allowlisted(tail.as_str()) {
                return Route::ChatData;
            }
        }
    }
    if is_get && has_prefix(path, "/") {
        proof {
            reveal_strlit("/");
        }
        let tail = tail_from(path, 1);
        if ext_allowlisted(tail.as_str()) {
            return Route::Asset(tail);
        }
    }
    if has_prefix(path, "/_next/static/") || has_prefix(path, "/fonts/") || has_prefix(
        path,
        "/ulp/",
    ) || has_prefix(path, "/sweetalert2/") {
        proof {
            reveal_strlit("/_next/static/");
            reveal_strlit("/fonts/");
            reveal_strlit("/ulp/");
            reveal_strlit("/sweetalert2/");
        }
        let key = tail_from(path, 1);
        return Route::Asset(key);
    }
    Route::NotFound
}

} // verus!
