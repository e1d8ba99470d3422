use pagegate::json::JsonVal;
use pagegate::ser::to_json_text;
use pagegate::handlers::{chat_data, not_found};
use pagegate::response::{Body, CtxValue};
use pagegate::session::GateOutcome;
use pagegate::BUILD_ID;

#[test]
fn scalars_render_as_json() {
    assert_eq!(to_json_text(&JsonVal::Null), "null");
    assert_eq!(to_json_text(&JsonVal::Bool(true)), "true");
    assert_eq!(to_json_text(&JsonVal::Bool(false)), "false");
    assert_eq!(to_json_text(&JsonVal::Int(0)), "0");
    assert_eq!(to_json_text(&JsonVal::Int(307)), "307");
    assert_eq!(to_json_text(&JsonVal::Int(-42)), "-42");
    assert_eq!(to_json_text(&JsonVal::Int(i64::MIN)), "-9223372036854775808");
    assert_eq!(to_json_text(&JsonVal::Int(i64::MAX)), "9223372036854775807");
    assert_eq!(to_json_text(&JsonVal::Str("US".to_owned())), "\"US\"");
}

#[test]
fn strings_are_escaped() {
    let s = |t: &str| to_json_text(&JsonVal::Str(t.to_owned()));
    assert_eq!(s("a\"b"), "\"a\\\"b\"");
    assert_eq!(s("a\\b"), "\"a\\\\b\"");
    assert_eq!(s("a\nb\tc\rd"), "\"a\\nb\\tc\\rd\"");
    assert_eq!(s("\u{08}\u{0C}"), "\"\\b\\f\"");
    assert_eq!(s("\u{01}\u{1f}"), "\"\\u0001\\u001f\"");
    assert_eq!(s("héllo"), "\"héllo\"");
}

#[test]
fn composites_keep_member_order() {
    let doc = JsonVal::Obj(vec![
        ("b".to_owned(), JsonVal::Arr(vec![JsonVal::Int(1), JsonVal::Int(2)])),
        ("a".to_owned(), JsonVal::Obj(Vec::new())),
        ("c".to_owned(), JsonVal::Arr(Vec::new())),
    ]);
    assert_eq!(to_json_text(&doc), "{\"b\":[1,2],\"a\":{},\"c\":[]}");
}

#[test]
fn rendered_envelopes_parse_as_json() {
    let r = chat_data(GateOutcome::Unauthenticated);
    let text = match &r.body {
        Body::Json(doc) => to_json_text(doc),
        _ => panic!("expected a JSON body"),
    };
    let parsed: serde_json::Value = serde_json::from_str(&text).expect("well-formed JSON");
    assert_eq!(parsed["pageProps"]["__N_REDIRECT"], "/auth/login?");
    assert_eq!(parsed["pageProps"]["__N_REDIRECT_STATUS"], 307);
    let nf = not_found();
    let text2 = match &nf.body {
        Body::Render { context, .. } => match &context[0].1 {
            CtxValue::Props(doc) => to_json_text(doc),
            _ => panic!("expected a document"),
        },
        _ => panic!("expected a render"),
    };
    let parsed2: serde_json::Value = serde_json::from_str(&text2).expect("well-formed JSON");
    assert_eq!(parsed2["props"]["pageProps"]["statusCode"], 404);
    assert_eq!(parsed2["buildId"], BUILD_ID);
    assert_eq!(parsed2["gip"], false);
}
