//! Laws of the envelopes.
//!
//! The handlers' contracts pin each envelope to one document value; the
//! lemmas here state what a reader of those documents finds: the identity
//! fields mirror the verified profile, the build identifier is the one the
//! data-route URLs carry, an anonymous data fetch carries the client-router
//! redirect instruction, and the error envelope always encodes 404.

use vstd::prelude::*;
use crate::envelope::{chat_envelope_v, data_redirect_v, error_envelope_v};
use crate::json::{JsonV, get_field, obj_get};
use crate::response::{Response, Template};
use crate::handlers::is_props_render;
use crate::BUILD_ID;

verus! {

broadcast use vstd::seq::group_seq_axioms;

/// Value under `key` one level further down, carried through `Option`.
pub open spec fn get_field_opt(j: Option<JsonV>, key: Seq<char>) -> Option<JsonV> {
    match j {
        Some(doc) => get_field(doc, key),
        None => None,
    }
}

/// A lookup that misses the first member continues behind it.
proof fn lemma_obj_get_miss(members: Seq<(Seq<char>, JsonV)>, key: Seq<char>)
    requires
        members.len() > 0,
        members[0].0 != key,
    ensures
        obj_get(members, key) == obj_get(members.skip(1), key),
{
}

/// For every profile, page and query, the chat envelope reports the
/// profile's own identity, and its build identifier is the constant that
/// the data-route URLs are built from.
pub proof fn lemma_chat_envelope_identity(
    user_id: Seq<char>,
    email: Seq<char>,
    page: Seq<char>,
    query: Seq<(Seq<char>, JsonV)>,
)
    ensures
        get_field(chat_envelope_v(user_id, email, page, query), "buildId"@) == Some(
            JsonV::Str(BUILD_ID@),
        ),
        get_field_opt(
            get_field_opt(
                get_field_opt(
                    get_field(chat_envelope_v(user_id, email, page, query), "props"@),
                    "pageProps"@,
                ),
                "user"@,
            ),
            "id"@,
        ) == Some(JsonV::Str(user_id)),
        get_field_opt(
            get_field_opt(
                get_field_opt(
                    get_field(chat_envelope_v(user_id, email, page, query), "props"@),
                    "pageProps"@,
                ),
                "user"@,
            ),
            "email"@,
        ) == Some(JsonV::Str(email)),
{
    let env = chat_envelope_v(user_id, email, page, query);
    let m = env->Obj_0;
    reveal_strlit("props");
    reveal_strlit("page");
    reveal_strlit("query");
    reveal_strlit("buildId");
    reveal_strlit("pageProps");
    reveal_strlit("user");
    reveal_strlit("id");
    reveal_strlit("name");
    reveal_strlit("email");
    // The build identifier sits behind the three leading members.
    assert(env is Obj);
    assert(m.len() == 7);
    assert(m[0].0 == "props"@);
    assert(m[0].0 != "buildId"@);
    lemma_obj_get_miss(m, "buildId"@);
    assert(m.skip(1)[0] == m[1]);
    assert(m[1].0 == "page"@);
    lemma_obj_get_miss(m.skip(1), "buildId"@);
    assert(m.skip(1).skip(1)[0] == m[2]);
    assert(m[2].0 == "query"@);
    lemma_obj_get_miss(m.skip(1).skip(1), "buildId"@);
    assert(m.skip(1).skip(1).skip(1)[0] == m[3]);
    assert(m.skip(1).skip(1).skip(1)[0].0 == "buildId"@);
    assert(get_field(env, "buildId"@) == Some(JsonV::Str(BUILD_ID@)));
    // The user object heads the nested props.
    let props = get_field(env, "props"@);
    assert(m[0].0 == "props"@);
    let page_props = get_field_opt(props, "pageProps"@);
    let user = get_field_opt(page_props, "user"@);
    assert(get_field_opt(user, "id"@) == Some(JsonV::Str(user_id)));
    let um = user->Some_0->Obj_0;
    assert(um[0].0 == "id"@);
    lemma_obj_get_miss(um, "email"@);
    assert(um.skip(1)[0] == um[1]);
    assert(um[1].0 == "name"@);
    lemma_obj_get_miss(um.skip(1), "email"@);
    assert(um.skip(1).skip(1)[0] == um[2]);
    assert(um.skip(1).skip(1)[0].0 == "email"@);
    assert(get_field_opt(user, "email"@) == Some(JsonV::Str(email)));
}

/// An anonymous data fetch always carries the client-router redirect
/// instruction to the login route, with a redirect status, in the body.
pub proof fn lemma_data_redirect_instruction()
    ensures
        get_field_opt(get_field(data_redirect_v(), "pageProps"@), "__N_REDIRECT"@) == Some(
            JsonV::Str("/auth/login?"@),
        ),
        get_field_opt(get_field(data_redirect_v(), "pageProps"@), "__N_REDIRECT_STATUS"@) == Some(
            JsonV::Int(307),
        ),
{
    reveal_strlit("pageProps");
    reveal_strlit("__N_REDIRECT");
    reveal_strlit("__N_REDIRECT_STATUS");
    let inner = get_field(data_redirect_v(), "pageProps"@)->Some_0;
    assert(inner->Obj_0[0].0 == "__N_REDIRECT"@);
    lemma_obj_get_miss(inner->Obj_0, "__N_REDIRECT_STATUS"@);
    assert(inner->Obj_0.skip(1)[0] == inner->Obj_0[1]);
    assert(inner->Obj_0.skip(1)[0].0 == "__N_REDIRECT_STATUS"@);
}

/// The error envelope encodes 404 in the payload, whatever its `gip` flag;
/// share views never expose content.
pub proof fn lemma_error_envelope_not_found(gip: bool)
    ensures
        get_field_opt(
            get_field_opt(get_field(error_envelope_v(gip), "props"@), "pageProps"@),
            "statusCode"@,
        ) == Some(JsonV::Int(404)),
        get_field(error_envelope_v(gip), "page"@) == Some(JsonV::Str("/_error"@)),
{
    reveal_strlit("props");
    reveal_strlit("page");
    reveal_strlit("pageProps");
    reveal_strlit("statusCode");
    let m = error_envelope_v(gip)->Obj_0;
    assert(m[0].0 == "props"@);
    lemma_obj_get_miss(m, "page"@);
    assert(m.skip(1)[0] == m[1]);
    assert(m.skip(1)[0].0 == "page"@);
}

/// Two share replies under a valid session carry the same document, whatever
/// the share ids were and however often the route is called.
pub proof fn lemma_share_reply_constant(r1: Response, r2: Response)
    requires
        is_props_render(r1, Template::Share, error_envelope_v(true)),
        is_props_render(r2, Template::Share, error_envelope_v(true)),
    ensures
        r1.status == r2.status,
        r1.status == 200,
        r1.body matches crate::response::Body::Render { context: c1, .. }
            ==> (r2.body matches crate::response::Body::Render { context: c2, .. }
            ==> c1[0].1->Props_0@ == c2[0].1->Props_0@),
{
}

} // verus!
