//! Session-gated page-delivery library.
//!
//! The library models the server side of a single-page client's
//! server-side-rendering contract: a route table that maps request paths to
//! handlers, a session gate that classifies each request as authenticated or
//! anonymous, builders for the JSON envelope that each route kind embeds or
//! returns, an exact-match static-asset resolver, and the session-cookie
//! lifecycle driven by login and logout.

pub mod assets;
pub mod envelope;
pub mod handlers;
pub mod json;
pub mod laws;
pub mod response;
pub mod routes;
pub mod ser;
pub mod session;
pub mod timefmt;
pub mod text;

use vstd::prelude::*;

verus! {

/// Name of the session cookie that carries the bearer token.
pub const SESSION_COOKIE: &'static str = "opengpt_session";

/// Build identifier shared by every envelope and every versioned data-fetch
/// route URL; the client router requires the two to agree.
pub const BUILD_ID: &'static str = "WLHd8p-1ysAW_5sZZPJIy";

} // verus!
