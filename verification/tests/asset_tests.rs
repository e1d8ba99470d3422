use pagegate::assets::{Asset, AssetStore, resolve, serve_asset};
use pagegate::response::Body;

fn store() -> AssetStore {
    AssetStore {
        entries: vec![
            (
                "_next/static/chunks/app.js".to_owned(),
                Asset { mime: "application/javascript".to_owned(), data: b"console".to_vec() },
            ),
            (
                "fonts/inter.woff2".to_owned(),
                Asset { mime: "font/woff2".to_owned(), data: vec![0, 1, 2] },
            ),
            ("app.js".to_owned(), Asset { mime: "text/plain".to_owned(), data: b"short".to_vec() }),
        ],
    }
}

#[test]
fn exact_key_returns_bytes_and_mime() {
    let s = store();
    let r = serve_asset(&s, "fonts/inter.woff2");
    assert_eq!(r.status, 200);
    match &r.body {
        Body::Bytes { mime, data } => {
            assert_eq!(mime, "font/woff2");
            assert_eq!(data, &vec![0, 1, 2]);
        }
        _ => panic!("expected bytes"),
    }
}

#[test]
fn unknown_key_is_404_with_empty_body() {
    let s = store();
    let r = serve_asset(&s, "fonts/missing.woff2");
    assert_eq!(r.status, 404);
    assert!(matches!(r.body, Body::Empty));
}

#[test]
fn no_partial_or_substring_matches() {
    let s = store();
    // "app.js" is a key, but a longer path containing it must not match it.
    let r = serve_asset(&s, "vendored/app.js");
    assert_eq!(r.status, 404);
    // A key that contains the request as a substring must not match either.
    let r2 = serve_asset(&s, "chunks/app.js");
    assert_eq!(r2.status, 404);
    // The short key itself still resolves, to its own entry.
    match resolve(&s, "app.js") {
        Some(a) => assert_eq!(a.data, b"short".to_vec()),
        None => panic!("expected the exact entry"),
    }
}

#[test]
fn first_exact_match_wins() {
    let mut s = store();
    s.entries.push((
        "app.js".to_owned(),
        Asset { mime: "text/plain".to_owned(), data: b"later".to_vec() },
    ));
    match resolve(&s, "app.js") {
        Some(a) => assert_eq!(a.data, b"short".to_vec()),
        None => panic!("expected a match"),
    }
}
