//! The response model.
//!
//! A handler's result is a plain value: a status code, an optional redirect
//! target, an optional Set-Cookie instruction, and a body. The body is
//! either empty, a template to render with a key/value context, a JSON
//! document, or raw asset bytes. The host turns this value into an HTTP
//! response; nothing here performs I/O.

use vstd::prelude::*;
use crate::json::JsonVal;
use crate::session::SetCookie;

verus! {

/// The templates compiled into the server, by name.
#[derive(Debug, Clone, Copy, PartialEq, Eq, Structural)]
pub enum Template {
    NotFound,
    Auth,
    Chat,
    Detail,
    Login,
    Share,
}

/// Template name as registered with the rendering engine.
pub open spec fn spec_template_name(t: Template) -> Seq<char> {
    match t {
        Template::NotFound => "404.htm"@,
        Template::Auth => "auth.htm"@,
        Template::Chat => "chat.htm"@,
        Template::Detail => "detail.html"@,
        Template::Login => "login.html"@,
        Template::Share => "share.html"@,
    }
}

impl Template {
    /// Name under which the template was registered.
    pub fn name(&self) -> (r: &'static str)
        ensures
            r@ == spec_template_name(*self),
    {
        match self {
            Template::NotFound => "404.htm",
            Template::Auth => "auth.htm",
            Template::Chat => "chat.htm",
            Template::Detail => "detail.html",
            Template::Login => "login.html",
            Template::Share => "share.html",
        }
    }
}

/// One value of a template context: plain text, or a JSON document that the
/// host serializes before rendering.
pub enum CtxValue {
    Text(String),
    Props(JsonVal),
}

/// A response body.
pub enum Body {
    Empty,
    /// Plain text, as a surfaced error message is sent.
    Text(String),
    /// Render this template with this context.
    Render { template: Template, context: Vec<(String, CtxValue)> },
    /// Serialize this document and send it as application/json.
    Json(JsonVal),
    /// Raw asset bytes with their MIME type.
    Bytes { mime: String, data: Vec<u8> },
}

/// What a handler decides; the host performs it.
pub struct Response {
    pub status: u16,
    pub location: Option<String>,
    pub cookie: Option<SetCookie>,
    pub body: Body,
}

/// A bare redirect: the given status, a Location, no cookie, no body.
pub open spec fn is_redirect_to(r: Response, status: u16, loc: Seq<char>) -> bool {
    &&& r.status == status
    &&& r.location matches Some(l) && l@ == loc
    &&& r.cookie is None
    &&& r.body is Empty
}

/// A plain JSON reply with the given status and document.
pub open spec fn is_json_reply(r: Response, status: u16, doc: crate::json::JsonV) -> bool {
    &&& r.status == status
    &&& r.location is None
    &&& r.cookie is None
    &&& r.body matches Body::Json(j) && j@ == doc
}

/// A 200 page render of `t` whose context is exactly `pairs`.
pub open spec fn is_render(r: Response, t: Template, context: Seq<(Seq<char>, CtxValue)>) -> bool {
    &&& r.status == 200
    &&& r.location is None
    &&& r.cookie is None
    &&& r.body matches Body::Render { template, context: c } && template == t
        && c.len() == context.len()
        && (forall|i: int| 0 <= i < c.len() ==> #[trigger] c[i].0@ == context[i].0
            && c[i].1 == context[i].1)
}

} // verus!
