use pagegate::routes::{dispatch, Method, Route};
use pagegate::BUILD_ID;

#[test]
fn literal_routes_match_on_get() {
    assert_eq!(dispatch(&Method::Get, "/auth"), Route::Auth);
    assert_eq!(dispatch(&Method::Get, "/login"), Route::LoginForm);
    assert_eq!(dispatch(&Method::Get, "/auth/logout"), Route::Logout);
    assert_eq!(dispatch(&Method::Get, "/api/auth/session"), Route::SessionInfo);
    assert_eq!(
        dispatch(&Method::Get, "/auth/accounts/check/v4-2023-04-27"),
        Route::AccountCheck
    );
    assert_eq!(dispatch(&Method::Get, "/"), Route::ChatList);
    assert_eq!(dispatch(&Method::Get, "/c"), Route::ChatList);
}

#[test]
fn login_distinguishes_methods() {
    assert_eq!(dispatch(&Method::Post, "/login"), Route::LoginSubmit);
    assert_eq!(dispatch(&Method::Post, "/login/token"), Route::LoginToken);
    assert_eq!(dispatch(&Method::Get, "/login/token"), Route::NotFound);
}

#[test]
fn wrong_method_falls_through_to_not_found() {
    assert_eq!(dispatch(&Method::Post, "/auth"), Route::NotFound);
    assert_eq!(dispatch(&Method::Post, "/"), Route::NotFound);
    assert_eq!(dispatch(&Method::Other, "/login"), Route::NotFound);
}

#[test]
fn conversation_paths_capture_the_id() {
    assert_eq!(
        dispatch(&Method::Get, "/c/abc-123"),
        Route::ChatDetail("abc-123".to_owned())
    );
    assert_eq!(
        dispatch(&Method::Get, "/share/xyz"),
        Route::Share("xyz".to_owned())
    );
    // A parameter never spans a slash, and never matches empty.
    assert_eq!(dispatch(&Method::Get, "/c/"), Route::NotFound);
    assert_eq!(dispatch(&Method::Get, "/c/a/b"), Route::NotFound);
    assert_eq!(dispatch(&Method::Get, "/share/a/b"), Route::NotFound);
}

#[test]
fn legacy_chat_paths_redirect_any_method() {
    assert_eq!(dispatch(&Method::Get, "/chat"), Route::LegacyChatRedirect);
    assert_eq!(dispatch(&Method::Post, "/chat"), Route::LegacyChatRedirect);
    assert_eq!(dispatch(&Method::Get, "/chat/55"), Route::LegacyChatRedirect);
}

#[test]
fn data_routes_carry_the_build_id() {
    let index = format!("/_next/data/{BUILD_ID}/index.json");
    assert_eq!(dispatch(&Method::Get, &index), Route::ChatData);
    let file = format!("/_next/data/{BUILD_ID}/c/conv.json");
    assert_eq!(dispatch(&Method::Get, &file), Route::ChatData);
    // Another build identifier does not match the data routes; the path
    // still ends in an allowlisted extension, so it resolves as an asset.
    let other = "/_next/data/other-build/index.json";
    assert_eq!(
        dispatch(&Method::Get, other),
        Route::Asset("_next/data/other-build/index.json".to_owned())
    );
    // A data path with a disallowed extension is not a data route.
    let bad = format!("/_next/data/{BUILD_ID}/c/conv.exe");
    assert_eq!(dispatch(&Method::Get, &bad), Route::NotFound);
}

#[test]
fn extension_allowlist_routes_assets() {
    assert_eq!(
        dispatch(&Method::Get, "/bundle.js"),
        Route::Asset("bundle.js".to_owned())
    );
    assert_eq!(
        dispatch(&Method::Get, "/img/logo.png"),
        Route::Asset("img/logo.png".to_owned())
    );
    // No stem before the dot: not a match.
    assert_eq!(dispatch(&Method::Get, "/.js"), Route::NotFound);
    assert_eq!(dispatch(&Method::Get, "/file.exe"), Route::NotFound);
}

#[test]
fn asset_roots_match_any_method() {
    assert_eq!(
        dispatch(&Method::Post, "/_next/static/chunks/app.woff"),
        Route::Asset("_next/static/chunks/app.woff".to_owned())
    );
    assert_eq!(
        dispatch(&Method::Other, "/fonts/inter.woff2"),
        Route::Asset("fonts/inter.woff2".to_owned())
    );
    assert_eq!(
        dispatch(&Method::Get, "/ulp/style.woff"),
        Route::Asset("ulp/style.woff".to_owned())
    );
    assert_eq!(
        dispatch(&Method::Get, "/sweetalert2/theme.woff"),
        Route::Asset("sweetalert2/theme.woff".to_owned())
    );
}

#[test]
fn anything_else_is_not_found() {
    assert_eq!(dispatch(&Method::Get, "/nope"), Route::NotFound);
    assert_eq!(dispatch(&Method::Get, ""), Route::NotFound);
    assert_eq!(dispatch(&Method::Get, "login"), Route::NotFound);
}
