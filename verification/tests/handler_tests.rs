use pagegate::handlers::{
    account_check, auth_page, chat_data, chat_page, legacy_chat_redirect, login_form,
    login_submit, login_token_begin, login_token_finish, logout, not_found, redirect_login,
    session_info, share_page, TokenLoginStep,
};
use pagegate::json::JsonVal;
use pagegate::response::{Body, CtxValue, Response, Template};
use pagegate::session::{GateOutcome, OAuthOutcome, Profile, VerifyOutcome, resolve_gate};
use pagegate::{BUILD_ID, SESSION_COOKIE};

fn profile() -> Profile {
    Profile {
        user_id: "user-7".to_owned(),
        email: "u@example.com".to_owned(),
        expires_at: 1684600000,
        expires_in: 3600,
    }
}

fn get<'a>(j: &'a JsonVal, key: &str) -> &'a JsonVal {
    match j {
        JsonVal::Obj(members) => {
            for (k, v) in members {
                if k == key {
                    return v;
                }
            }
            panic!("missing key {key}");
        }
        _ => panic!("not an object"),
    }
}

fn as_str<'a>(j: &'a JsonVal) -> &'a str {
    match j {
        JsonVal::Str(s) => s,
        _ => panic!("not a string"),
    }
}

fn props_doc(r: &Response) -> &JsonVal {
    match &r.body {
        Body::Render { context, .. } => match &context[0].1 {
            CtxValue::Props(j) => j,
            CtxValue::Text(_) => panic!("expected a document"),
        },
        _ => panic!("expected a render"),
    }
}

#[test]
fn authenticated_chat_pages_carry_profile_and_build_id() {
    let query = vec![("model".to_owned(), "default".to_owned())];
    let r = chat_page(
        GateOutcome::Authenticated(profile()),
        Some("conv-1".to_owned()),
        query,
    );
    assert_eq!(r.status, 200);
    let doc = props_doc(&r);
    assert_eq!(as_str(get(doc, "buildId")), BUILD_ID);
    assert_eq!(as_str(get(doc, "page")), "/c/[chatId]");
    let user = get(get(get(doc, "props"), "pageProps"), "user");
    assert_eq!(as_str(get(user, "id")), "user-7");
    assert_eq!(as_str(get(user, "email")), "u@example.com");
    assert_eq!(as_str(get(user, "name")), "u@example.com");
    assert!(matches!(get(user, "image"), JsonVal::Null));
    // The conversation id is injected into the query as chatId.
    let q = get(doc, "query");
    assert_eq!(as_str(get(q, "model")), "default");
    assert_eq!(as_str(get(q, "chatId")), "conv-1");
    // The list view uses the chat template and the root page.
    let r2 = chat_page(GateOutcome::Authenticated(profile()), None, Vec::new());
    let doc2 = props_doc(&r2);
    assert_eq!(as_str(get(doc2, "page")), "/");
    assert_eq!(as_str(get(doc2, "buildId")), BUILD_ID);
}

#[test]
fn chat_page_replaces_an_existing_chat_id() {
    let query = vec![("chatId".to_owned(), "old".to_owned())];
    let r = chat_page(
        GateOutcome::Authenticated(profile()),
        Some("new".to_owned()),
        query,
    );
    let q = get(props_doc(&r), "query");
    assert_eq!(as_str(get(q, "chatId")), "new");
    match q {
        JsonVal::Obj(members) => assert_eq!(members.len(), 1),
        _ => panic!("not an object"),
    }
}

#[test]
fn anonymous_page_routes_redirect_to_login() {
    let r = chat_page(GateOutcome::Unauthenticated, None, Vec::new());
    assert_eq!(r.status, 302);
    assert_eq!(r.location.as_deref(), Some("/login"));
    assert!(r.cookie.is_none());
    let r2 = session_info(
        GateOutcome::Unauthenticated,
        "tok".to_owned(),
        Err(String::new()),
    );
    assert_eq!(r2.status, 302);
    assert_eq!(r2.location.as_deref(), Some("/login"));
    // No cookie at all resolves to an anonymous request.
    assert!(matches!(
        resolve_gate(false, Some(VerifyOutcome::Valid(profile()))),
        GateOutcome::Unauthenticated
    ));
    assert!(matches!(resolve_gate(false, None), GateOutcome::Unauthenticated));
}

#[test]
fn anonymous_data_fetch_gets_router_redirect_body() {
    let r = chat_data(GateOutcome::Unauthenticated);
    assert_eq!(r.status, 200);
    match &r.body {
        Body::Json(doc) => {
            let page_props = get(doc, "pageProps");
            assert_eq!(as_str(get(page_props, "__N_REDIRECT")), "/auth/login?");
            assert!(matches!(get(page_props, "__N_REDIRECT_STATUS"), JsonVal::Int(307)));
            assert!(matches!(get(doc, "__N_SSP"), JsonVal::Bool(true)));
        }
        _ => panic!("expected a JSON body"),
    }
}

#[test]
fn authenticated_data_fetch_returns_bare_page_props() {
    let r = chat_data(GateOutcome::Authenticated(profile()));
    assert_eq!(r.status, 200);
    match &r.body {
        Body::Json(doc) => {
            let user = get(get(doc, "pageProps"), "user");
            assert_eq!(as_str(get(user, "id")), "user-7");
            assert_eq!(as_str(get(user, "image")), "");
        }
        _ => panic!("expected a JSON body"),
    }
}

#[test]
fn share_always_renders_the_404_envelope() {
    let r1 = share_page(GateOutcome::Authenticated(profile()), &"s-1".to_owned());
    let r2 = share_page(GateOutcome::Authenticated(profile()), &"s-2".to_owned());
    let r3 = share_page(GateOutcome::Authenticated(profile()), &"s-1".to_owned());
    assert_eq!(r1.status, 200);
    let doc1 = props_doc(&r1);
    assert!(matches!(
        get(get(get(doc1, "props"), "pageProps"), "statusCode"),
        JsonVal::Int(404)
    ));
    assert_eq!(as_str(get(doc1, "page")), "/_error");
    assert!(matches!(get(doc1, "gip"), JsonVal::Bool(true)));
    assert_eq!(props_doc(&r1), props_doc(&r2));
    assert_eq!(props_doc(&r1), props_doc(&r3));
}

#[test]
fn anonymous_share_redirects_with_encoded_next() {
    let r = share_page(GateOutcome::Unauthenticated, &"deadbeef".to_owned());
    assert_eq!(r.status, 302);
    assert_eq!(r.location.as_deref(), Some("/login?next=%2Fshare%2Fdeadbeef"));
}

#[test]
fn login_failure_re_renders_form_without_cookie() {
    let r = login_submit(
        None,
        "alice".to_owned(),
        OAuthOutcome::Denied("bad credentials".to_owned()),
        false,
    );
    assert_eq!(r.status, 200);
    assert!(r.cookie.is_none());
    match &r.body {
        Body::Render { template, context } => {
            assert_eq!(*template, Template::Login);
            assert_eq!(context.len(), 3);
            let text = |i: usize| match &context[i].1 {
                CtxValue::Text(t) => t.as_str(),
                _ => panic!("expected text"),
            };
            assert_eq!(context[0].0, "next");
            assert_eq!(text(0), "/");
            assert_eq!(context[1].0, "error");
            assert_eq!(text(1), "bad credentials");
            assert!(!text(1).is_empty());
            assert_eq!(context[2].0, "username");
            assert_eq!(text(2), "alice");
        }
        _ => panic!("expected a render"),
    }
}

#[test]
fn login_success_sets_cookie_and_redirects_to_next() {
    let r = login_submit(
        Some("/c/42".to_owned()),
        "alice".to_owned(),
        OAuthOutcome::Granted { access_token: "tok-9".to_owned(), expires_in: 7200 },
        false,
    );
    assert_eq!(r.status, 303);
    assert_eq!(r.location.as_deref(), Some("/c/42"));
    let c = r.cookie.expect("cookie");
    assert_eq!(c.name, SESSION_COOKIE);
    assert_eq!(c.value, "tok-9");
    assert_eq!(c.max_age, Some(7200));
    assert_eq!(c.path, "/");
    assert!(c.same_site_lax && c.http_only && !c.secure);
    // Without a next parameter the redirect goes to the root.
    let r2 = login_submit(
        None,
        "alice".to_owned(),
        OAuthOutcome::Granted { access_token: "t".to_owned(), expires_in: 60 },
        false,
    );
    assert_eq!(r2.location.as_deref(), Some("/"));
}

#[test]
fn token_login_follows_header_then_verification() {
    match login_token_begin(None) {
        TokenLoginStep::Reply(r) => {
            assert_eq!(r.status, 302);
            assert_eq!(r.location.as_deref(), Some("/login"));
        }
        _ => panic!("expected a reply"),
    }
    match login_token_begin(Some("bearer-1".to_owned())) {
        TokenLoginStep::Verify(t) => assert_eq!(t, "bearer-1"),
        _ => panic!("expected a verification step"),
    }
    let ok = login_token_finish(
        "bearer-1".to_owned(),
        VerifyOutcome::Valid(profile()),
        false,
    );
    assert_eq!(ok.status, 303);
    assert_eq!(ok.location.as_deref(), Some("/"));
    let c = ok.cookie.expect("cookie");
    assert_eq!(c.value, "bearer-1");
    assert_eq!(c.max_age, Some(3600));
    let bad = login_token_finish(
        "bearer-1".to_owned(),
        VerifyOutcome::Failed("expired".to_owned()),
        false,
    );
    assert_eq!(bad.status, 400);
    match &bad.body {
        Body::Json(JsonVal::Str(s)) => assert_eq!(s, "expired"),
        _ => panic!("expected a JSON string"),
    }
    let none = login_token_finish("bearer-1".to_owned(), VerifyOutcome::NoProfile, false);
    assert_eq!(none.status, 500);
}

#[test]
fn logout_clears_cookie_even_when_revocation_fails() {
    for revocation in [
        None,
        Some(Ok(())),
        Some(Err("revoke endpoint down".to_owned())),
    ] {
        let r = logout(&revocation, false);
        assert_eq!(r.status, 303);
        assert_eq!(r.location.as_deref(), Some("/login"));
        let c = r.cookie.as_ref().expect("cookie");
        assert_eq!(c.name, SESSION_COOKIE);
        assert_eq!(c.value, "");
        assert_eq!(c.max_age, None);
        assert_eq!(c.path, "/");
        assert!(c.http_only);
        assert!(!c.secure);
    }
}

#[test]
fn session_descriptor_exposes_token_and_utc_expiry() {
    let mut p = profile();
    p.expires_at = 0;
    let r = session_info(
        GateOutcome::Authenticated(p),
        "tok-raw".to_owned(),
        Ok("https://pix.example/u.png".to_owned()),
    );
    assert_eq!(r.status, 200);
    match &r.body {
        Body::Json(doc) => {
            assert_eq!(as_str(get(doc, "accessToken")), "tok-raw");
            assert_eq!(as_str(get(doc, "authProvider")), "auth0");
            assert_eq!(as_str(get(doc, "expires")), "1970-01-01T00:00:00");
            let user = get(doc, "user");
            assert_eq!(as_str(get(user, "picture")), "https://pix.example/u.png");
            assert_eq!(as_str(get(user, "id")), "user-7");
        }
        _ => panic!("expected a JSON body"),
    }
}

#[test]
fn session_route_fails_cleanly_on_upstream_and_range_errors() {
    let r = session_info(
        GateOutcome::Authenticated(profile()),
        "tok".to_owned(),
        Err("dashboard unreachable".to_owned()),
    );
    assert_eq!(r.status, 500);
    match &r.body {
        Body::Text(t) => assert_eq!(t, "dashboard unreachable"),
        _ => panic!("expected text"),
    }
    let mut p = profile();
    p.expires_at = i64::MIN;
    let r2 = session_info(GateOutcome::Authenticated(p), "tok".to_owned(), Ok(String::new()));
    assert_eq!(r2.status, 500);
}

#[test]
fn account_check_serves_the_stub_blob() {
    let r = account_check();
    assert_eq!(r.status, 200);
    match &r.body {
        Body::Json(doc) => {
            let default_account = get(get(doc, "accounts"), "default");
            let ent = get(default_account, "entitlement");
            assert_eq!(as_str(get(ent, "subscription_plan")), "chatgptplusplan");
            match get(default_account, "features") {
                JsonVal::Arr(items) => {
                    assert_eq!(items.len(), 21);
                    assert_eq!(as_str(&items[0]), "model_switcher");
                    assert_eq!(as_str(&items[20]), "debug");
                }
                _ => panic!("expected an array"),
            }
            let account = get(default_account, "account");
            assert_eq!(as_str(get(account, "account_user_role")), "account-owner");
        }
        _ => panic!("expected a JSON body"),
    }
}

#[test]
fn catch_all_is_http_200_with_404_payload() {
    let r = not_found();
    assert_eq!(r.status, 200);
    let doc = props_doc(&r);
    assert!(matches!(
        get(get(get(doc, "props"), "pageProps"), "statusCode"),
        JsonVal::Int(404)
    ));
    assert!(matches!(get(doc, "gip"), JsonVal::Bool(false)));
    assert_eq!(as_str(get(doc, "buildId")), BUILD_ID);
}

#[test]
fn small_pages_and_redirects() {
    let r = auth_page();
    assert_eq!(r.status, 200);
    match &r.body {
        Body::Render { template, context } => {
            assert_eq!(*template, Template::Share);
            assert!(context.is_empty());
        }
        _ => panic!("expected a render"),
    }
    let r2 = login_form(Some("/c/9".to_owned()));
    match &r2.body {
        Body::Render { template, context } => {
            assert_eq!(*template, Template::Login);
            assert_eq!(context.len(), 3);
            match &context[0].1 {
                CtxValue::Text(t) => assert_eq!(t, "/c/9"),
                _ => panic!("expected text"),
            }
        }
        _ => panic!("expected a render"),
    }
    let r3 = redirect_login();
    assert_eq!((r3.status, r3.location.as_deref()), (302, Some("/login")));
    let r4 = legacy_chat_redirect();
    assert_eq!((r4.status, r4.location.as_deref()), (307, Some("/")));
    assert_eq!(Template::Detail.name(), "detail.html");
    assert_eq!(Template::NotFound.name(), "404.htm");
}
