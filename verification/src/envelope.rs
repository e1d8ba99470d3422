//! The page-context envelopes.
//!
//! Every page and data route replies with a JSON envelope of a fixed shape;
//! the client hydrates against it. Each builder here produces one envelope
//! kind, and its contract pins the whole document: every field name, every
//! nesting level, every stubbed constant.

use vstd::prelude::*;
use crate::json::{JsonV, JsonVal, empty_obj, empty_arr, jstr, obj1, obj2, obj3, obj4, obj6, obj7,
    obj8, obj_of_strings, string_pairs_view};
use crate::session::Profile;
use crate::BUILD_ID;

verus! {

/// The `image`/`picture` value of a user object: null where no picture is
/// supplied, otherwise the given string.
pub open spec fn image_v(image: Option<String>) -> JsonV {
    match image {
        None => JsonV::Null,
        Some(s) => JsonV::Str(s@),
    }
}

/// The `user` object of an envelope. The client has no separate display
/// name, so the email serves as both `name` and `email`; `groups` is always
/// empty.
pub open spec fn user_obj_v(user_id: Seq<char>, email: Seq<char>, image: JsonV) -> JsonV {
    JsonV::Obj(
        seq![
            ("id"@, JsonV::Str(user_id)),
            ("name"@, JsonV::Str(email)),
            ("email"@, JsonV::Str(email)),
            ("image"@, image),
            ("picture"@, image),
            ("groups"@, JsonV::Arr(Seq::empty())),
        ],
    )
}

/// The `pageProps` object shared by page and data envelopes: the user plus
/// fixed service-status placeholders.
pub open spec fn page_props_v(user_id: Seq<char>, email: Seq<char>, image: JsonV) -> JsonV {
    JsonV::Obj(
        seq![
            ("user"@, user_obj_v(user_id, email, image)),
            ("serviceStatus"@, JsonV::Obj(Seq::empty())),
            ("userCountry"@, JsonV::Str("US"@)),
            ("geoOk"@, JsonV::Bool(true)),
            (
                "serviceAnnouncement"@,
                JsonV::Obj(
                    seq![
                        ("paid"@, JsonV::Obj(Seq::empty())),
                        ("public"@, JsonV::Obj(Seq::empty())),
                    ],
                ),
            ),
            ("isUserInCanPayGroup"@, JsonV::Bool(true)),
        ],
    )
}

/// The envelope a chat-list or chat-detail page embeds.
pub open spec fn chat_envelope_v(
    user_id: Seq<char>,
    email: Seq<char>,
    page: Seq<char>,
    query: Seq<(Seq<char>, JsonV)>,
) -> JsonV {
    JsonV::Obj(
        seq![
            (
                "props"@,
                JsonV::Obj(
                    seq![
                        ("pageProps"@, page_props_v(user_id, email, JsonV::Null)),
                        ("__N_SSP"@, JsonV::Bool(true)),
                    ],
                ),
            ),
            ("page"@, JsonV::Str(page)),
            ("query"@, JsonV::Obj(query)),
            ("buildId"@, JsonV::Str(BUILD_ID@)),
            ("isFallback"@, JsonV::Bool(false)),
            ("gssp"@, JsonV::Bool(true)),
            ("scriptLoader"@, JsonV::Arr(Seq::empty())),
        ],
    )
}

/// The body of a successful data-fetch reply: the same `pageProps` without
/// the outer page wrapper.
pub open spec fn data_envelope_v(user_id: Seq<char>, email: Seq<char>) -> JsonV {
    JsonV::Obj(
        seq![
            ("pageProps"@, page_props_v(user_id, email, JsonV::Str(""@))),
            ("__N_SSP"@, JsonV::Bool(true)),
        ],
    )
}

/// The body of a data-fetch reply for a request that is not logged in: a
/// client-router redirect instruction, not a transport-level redirect.
pub open spec fn data_redirect_v() -> JsonV {
    JsonV::Obj(
        seq![
            (
                "pageProps"@,
                JsonV::Obj(
                    seq![
                        ("__N_REDIRECT"@, JsonV::Str("/auth/login?"@)),
                        ("__N_REDIRECT_STATUS"@, JsonV::Int(307)),
                    ],
                ),
            ),
            ("__N_SSP"@, JsonV::Bool(true)),
        ],
    )
}

/// The `/_error` envelope: a 404 encoded in the payload, not the HTTP
/// status. Share pages use `gip = true`, the catch-all uses `gip = false`.
pub open spec fn error_envelope_v(gip: bool) -> JsonV {
    JsonV::Obj(
        seq![
            (
                "props"@,
                JsonV::Obj(
                    seq![("pageProps"@, JsonV::Obj(seq![("statusCode"@, JsonV::Int(404))]))],
                ),
            ),
            ("page"@, JsonV::Str("/_error"@)),
            ("query"@, JsonV::Obj(Seq::empty())),
            ("buildId"@, JsonV::Str(BUILD_ID@)),
            ("nextExport"@, JsonV::Bool(true)),
            ("isFallback"@, JsonV::Bool(false)),
            ("gip"@, JsonV::Bool(gip)),
            ("scriptLoader"@, JsonV::Arr(Seq::empty())),
        ],
    )
}

/// The flat session descriptor of the session-info route. The raw bearer
/// token is re-exposed as `accessToken`, as the client expects.
pub open spec fn session_descriptor_v(
    user_id: Seq<char>,
    email: Seq<char>,
    picture: Seq<char>,
    expires: Seq<char>,
    token: Seq<char>,
) -> JsonV {
    JsonV::Obj(
        seq![
            ("user"@, user_obj_v(user_id, email, JsonV::Str(picture))),
            ("expires"@, JsonV::Str(expires)),
            ("accessToken"@, JsonV::Str(token)),
            ("authProvider"@, JsonV::Str("auth0"@)),
        ],
    )
}

/// The feature flags of the account-check stub, in order.
pub open spec fn features_v() -> Seq<JsonV> {
    seq![
        JsonV::Str("model_switcher"@),
        JsonV::Str("model_preview"@),
        JsonV::Str("system_message"@),
        JsonV::Str("data_controls_enabled"@),
        JsonV::Str("data_export_enabled"@),
        JsonV::Str("show_existing_user_age_confirmation_modal"@),
        JsonV::Str("bucketed_history"@),
        JsonV::Str("priority_driven_models_list"@),
        JsonV::Str("message_style_202305"@),
        JsonV::Str("layout_may_2023"@),
        JsonV::Str("plugins_available"@),
        JsonV::Str("beta_features"@),
        JsonV::Str("infinite_scroll_history"@),
        JsonV::Str("browsing_available"@),
        JsonV::Str("browsing_inner_monologue"@),
        JsonV::Str("browsing_bing_branding"@),
        JsonV::Str("shareable_links"@),
        JsonV::Str("plugin_display_params"@),
        JsonV::Str("tools3_dev"@),
        JsonV::Str("tools2"@),
        JsonV::Str("debug"@),
    ]
}

/// The `account` object of the account-check stub.
pub open spec fn account_obj_v() -> JsonV {
    JsonV::Obj(
        seq![
            ("account_user_role"@, JsonV::Str("account-owner"@)),
            ("account_user_id"@, JsonV::Str("d0322341-7ace-4484-b3f7-89b03e82b927"@)),
            (
                "processor"@,
                JsonV::Obj(
                    seq![
                        ("a001"@, JsonV::Obj(seq![("has_customer_object"@, JsonV::Bool(true))])),
                        (
                            "b001"@,
                            JsonV::Obj(seq![("has_transaction_history"@, JsonV::Bool(true))]),
                        ),
                    ],
                ),
            ),
            ("account_id"@, JsonV::Str("a323bd05-db25-4e8f-9173-2f0c228cc8fa"@)),
            ("is_most_recent_expired_subscription_gratis"@, JsonV::Bool(true)),
            ("has_previously_paid_subscription"@, JsonV::Bool(true)),
        ],
    )
}

/// The subscription stub blocks of the account-check reply.
pub open spec fn entitlement_v() -> JsonV {
    JsonV::Obj(
        seq![
            ("subscription_id"@, JsonV::Str("d0dcb1fc-56aa-4cd9-90ef-37f1e03576d3"@)),
            ("has_active_subscription"@, JsonV::Bool(true)),
            ("subscription_plan"@, JsonV::Str("chatgptplusplan"@)),
            ("expires_at"@, JsonV::Str("2089-08-08T23:59:59+00:00"@)),
        ],
    )
}

/// The account-check reply: entirely static stub data, replicating the
/// upstream service's shape without implementing it.
pub open spec fn account_check_v() -> JsonV {
    JsonV::Obj(
        seq![
            (
                "accounts"@,
                JsonV::Obj(
                    seq![
                        (
                            "default"@,
                            JsonV::Obj(
                                seq![
                                    ("account"@, account_obj_v()),
                                    ("features"@, JsonV::Arr(features_v())),
                                    ("entitlement"@, entitlement_v()),
                                    (
                                        "last_active_subscription"@,
                                        JsonV::Obj(
                                            seq![
                                                (
                                                    "subscription_id"@,
                                                    JsonV::Str(
                                                        "d0dcb1fc-56aa-4cd9-90ef-37f1e03576d3"@,
                                                    ),
                                                ),
                                                (
                                                    "purchase_origin_platform"@,
                                                    JsonV::Str("chatgpt_mobile_ios"@),
                                                ),
                                                ("will_renew"@, JsonV::Bool(true)),
                                            ],
                                        ),
                                    ),
                                ],
                            ),
                        ),
                    ],
                ),
            ),
            ("temp_ap_available_at"@, JsonV::Str("2023-05-20T17:30:00+00:00"@)),
        ],
    )
}

/// The feature-flag array, as a document.
fn features_list() -> (r: JsonVal)
    ensures
        r@ == JsonV::Arr(features_v()),
{
    let mut v: Vec<JsonVal> = Vec::new();
    v.push(jstr("model_switcher"));
    v.push(jstr("model_preview"));
    v.push(jstr("system_message"));
    v.push(jstr("data_controls_enabled"));
    v.push(jstr("data_export_enabled"));
    v.push(jstr("show_existing_user_age_confirmation_modal"));
    v.push(jstr("bucketed_history"));
    v.push(jstr("priority_driven_models_list"));
    v.push(jstr("message_style_202305"));
    v.push(jstr("layout_may_2023"));
    v.push(jstr("plugins_available"));
    v.push(jstr("beta_features"));
    v.push(jstr("infinite_scroll_history"));
    v.push(jstr("browsing_available"));
    v.push(jstr("browsing_inner_monologue"));
    v.push(jstr("browsing_bing_branding"));
    v.push(jstr("shareable_links"));
    v.push(jstr("plugin_display_params"));
    v.push(jstr("tools3_dev"));
    v.push(jstr("tools2"));
    v.push(jstr("debug"));
    let r = JsonVal::Arr(v);
    proof {
        reveal_with_fuel(<JsonVal as View>::view, 2);
        assert(r@ is Arr);
        assert(r@->Arr_0 =~~= features_v());
    }
    r
}

/// The account-check reply.
pub fn account_check_envelope() -> (r: JsonVal)
    ensures
        r@ == account_check_v(),
{
    let processor = obj2(
        "a001",
        obj1("has_customer_object", JsonVal::Bool(true)),
        "b001",
        obj1("has_transaction_history", JsonVal::Bool(true)),
    );
    let account = obj6(
        "account_user_role",
        jstr("account-owner"),
        "account_user_id",
        jstr("d0322341-7ace-4484-b3f7-89b03e82b927"),
        "processor",
        processor,
        "account_id",
        jstr("a323bd05-db25-4e8f-9173-2f0c228cc8fa"),
        "is_most_recent_expired_subscription_gratis",
        JsonVal::Bool(true),
        "has_previously_paid_subscription",
        JsonVal::Bool(true),
    );
    let entitlement = obj4(
        "subscription_id",
        jstr("d0dcb1fc-56aa-4cd9-90ef-37f1e03576d3"),
        "has_active_subscription",
        JsonVal::Bool(true),
        "subscription_plan",
        jstr("chatgptplusplan"),
        "expires_at",
        jstr("2089-08-08T23:59:59+00:00"),
    );
    let last_active = obj3(
        "subscription_id",
        jstr("d0dcb1fc-56aa-4cd9-90ef-37f1e03576d3"),
        "purchase_origin_platform",
        jstr("chatgpt_mobile_ios"),
        "will_renew",
        JsonVal::Bool(true),
    );
    let default_account = obj4(
        "account",
        account,
        "features",
        features_list(),
        "entitlement",
        entitlement,
        "last_active_subscription",
        last_active,
    );
    let r = obj2(
        "accounts",
        obj1("default", default_account),
        "temp_ap_available_at",
        jstr("2023-05-20T17:30:00+00:00"),
    );
    proof {
        assert(r@ =~~= account_check_v());
    }
    r
}

/// The `user` object, built from a verified profile.
pub fn user_obj(user_id: &String, email: &String, image: &Option<String>) -> (r: JsonVal)
    ensures
        r@ == user_obj_v(user_id@, email@, image_v(*image)),
{
    let img1 = match image {
        None => JsonVal::Null,
        Some(s) => JsonVal::Str(s.clone()),
    };
    let img2 = match image {
        None => JsonVal::Null,
        Some(s) => JsonVal::Str(s.clone()),
    };
    let r = obj6(
        "id",
        JsonVal::Str(user_id.clone()),
        "name",
        JsonVal::Str(email.clone()),
        "email",
        JsonVal::Str(email.clone()),
        "image",
        img1,
        "picture",
        img2,
        "groups",
        empty_arr(),
    );
    proof {
        assert(r@ =~~= user_obj_v(user_id@, email@, image_v(*image)));
    }
    r
}

/// The shared `pageProps` object.
pub fn page_props(user_id: &String, email: &String, image: &Option<String>) -> (r: JsonVal)
    ensures
        r@ == page_props_v(user_id@, email@, image_v(*image)),
{
    let announcement = obj2("paid", empty_obj(), "public", empty_obj());
    let r = obj6(
        "user",
        user_obj(user_id, email, image),
        "serviceStatus",
        empty_obj(),
        "userCountry",
        jstr("US"),
        "geoOk",
        JsonVal::Bool(true),
        "serviceAnnouncement",
        announcement,
        "isUserInCanPayGroup",
        JsonVal::Bool(true),
    );
    proof {
        assert(r@ =~~= page_props_v(user_id@, email@, image_v(*image)));
    }
    r
}

/// The envelope a chat page embeds: `page` is `/` for the list or
/// `/c/[chatId]` for a detail view, `query` the request's query pairs.
pub fn chat_envelope(profile: &Profile, page: &str, query: &Vec<(String, String)>) -> (r: JsonVal)
    ensures
        r@ == chat_envelope_v(
            profile.user_id@,
            profile.email@,
            page@,
            string_pairs_view(query@),
        ),
{
    let props = obj2(
        "pageProps",
        page_props(&profile.user_id, &profile.email, &None),
        "__N_SSP",
        JsonVal::Bool(true),
    );
    let r = obj7(
        "props",
        props,
        "page",
        jstr(page),
        "query",
        obj_of_strings(query),
        "buildId",
        jstr(BUILD_ID),
        "isFallback",
        JsonVal::Bool(false),
        "gssp",
        JsonVal::Bool(true),
        "scriptLoader",
        empty_arr(),
    );
    proof {
        assert(r@ =~~= chat_envelope_v(
            profile.user_id@,
            profile.email@,
            page@,
            string_pairs_view(query@),
        ));
    }
    r
}

/// The body of a successful data-fetch reply.
pub fn data_envelope(profile: &Profile) -> (r: JsonVal)
    ensures
        r@ == data_envelope_v(profile.user_id@, profile.email@),
{
    let r = obj2(
        "pageProps",
        page_props(&profile.user_id, &profile.email, &Some("".to_owned())),
        "__N_SSP",
        JsonVal::Bool(true),
    );
    proof {
        assert(r@ =~~= data_envelope_v(profile.user_id@, profile.email@));
    }
    r
}

/// The body of a data-fetch reply for a request that is not logged in.
pub fn data_redirect() -> (r: JsonVal)
    ensures
        r@ == data_redirect_v(),
{
    let inner = obj2(
        "__N_REDIRECT",
        jstr("/auth/login?"),
        "__N_REDIRECT_STATUS",
        JsonVal::Int(307),
    );
    let r = obj2("pageProps", inner, "__N_SSP", JsonVal::Bool(true));
    proof {
        assert(r@ =~~= data_redirect_v());
    }
    r
}

/// The `/_error` envelope.
pub fn error_envelope(gip: bool) -> (r: JsonVal)
    ensures
        r@ == error_envelope_v(gip),
{
    let props = obj1("pageProps", obj1("statusCode", JsonVal::Int(404)));
    let r = obj8(
        "props",
        props,
        "page",
        jstr("/_error"),
        "query",
        empty_obj(),
        "buildId",
        jstr(BUILD_ID),
        "nextExport",
        JsonVal::Bool(true),
        "isFallback",
        JsonVal::Bool(false),
        "gip",
        JsonVal::Bool(gip),
        "scriptLoader",
        empty_arr(),
    );
    proof {
        assert(r@ =~~= error_envelope_v(gip));
    }
    r
}

/// The flat session descriptor.
pub fn session_descriptor(
    profile: &Profile,
    picture: &String,
    expires: &String,
    token: &String,
) -> (r: JsonVal)
    ensures
        r@ == session_descriptor_v(
            profile.user_id@,
            profile.email@,
            picture@,
            expires@,
            token@,
        ),
{
    let r = obj4(
        "user",
        user_obj(&profile.user_id, &profile.email, &Some(picture.clone())),
        "expires",
        JsonVal::Str(expires.clone()),
        "accessToken",
        JsonVal::Str(token.clone()),
        "authProvider",
        jstr("auth0"),
    );
    proof {
        assert(r@ =~~= session_descriptor_v(
            profile.user_id@,
            profile.email@,
            picture@,
            expires@,
            token@,
        ));
    }
    r
}

} // verus!
