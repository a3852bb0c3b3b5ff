use body_transform::clock::{epoch_millis, timestamp_text};
use body_transform::json::JsonConstant;
use body_transform::json_rules::{
    apply_json_rule, transform_value, Computed, JsonContext, JsonRule, JsonRuleEngine,
};
use body_transform::text::{TextPredicate, TextRewrite};

const NOW: &str = "2024-05-06T07:08:09+00:00";

fn s(text: &str) -> String {
    text.to_string()
}

fn context(headers: Vec<(&str, &str)>) -> JsonContext {
    JsonContext {
        now: Some(s(NOW)),
        headers: headers.into_iter().map(|(n, v)| (s(n), s(v))).collect(),
    }
}

fn request_rules() -> Vec<JsonRule> {
    vec![
        JsonRule::InsertComputed { key: s("processed_at"), computed: Computed::Timestamp },
        JsonRule::InsertConstant {
            key: s("processed_by"),
            value: JsonConstant::Text(s("wasm-filter")),
        },
        JsonRule::RewriteField { key: s("user_id"), rewrite: TextRewrite::Prefix(s("user_")) },
        JsonRule::ConditionalFlag {
            source: s("email"),
            predicate: TextPredicate::ContainsChar('@'),
            flag: s("validation_error"),
            value: JsonConstant::Text(s("Invalid email format")),
        },
        JsonRule::RemoveFields { keys: vec![s("password"), s("secret_key"), s("api_key")] },
        JsonRule::InsertComputed {
            key: s("request_id"),
            computed: Computed::Header(s("x-request-id")),
        },
    ]
}

fn response_rules() -> Vec<JsonRule> {
    vec![
        JsonRule::InsertComputed { key: s("response_time"), computed: Computed::Timestamp },
        JsonRule::InsertConstant { key: s("version"), value: JsonConstant::Text(s("v1.0.0")) },
        JsonRule::InsertComputed {
            key: s("request_id"),
            computed: Computed::Header(s("x-request-id")),
        },
        JsonRule::RemoveFields {
            keys: vec![s("internal_id"), s("debug_info"), s("database_query"), s("server_info")],
        },
        JsonRule::DeriveCount { from: s("items"), into: s("total_count") },
        JsonRule::InsertConstant { key: s("success"), value: JsonConstant::Flag(true) },
    ]
}

fn run(rules: Vec<JsonRule>, body: &str, ctx: &JsonContext) -> String {
    let out = JsonRuleEngine::new(rules).transform(body.as_bytes(), ctx);
    String::from_utf8(out).unwrap()
}

#[test]
fn request_rules_on_invalid_email() {
    let out = run(
        request_rules(),
        r#"{"user_id":"42","email":"bademail","password":"x"}"#,
        &context(vec![]),
    );
    let v: serde_json::Value = serde_json::from_str(&out).unwrap();
    let obj = v.as_object().unwrap();
    assert_eq!(obj.get("user_id").unwrap().as_str(), Some("user_42"));
    assert_eq!(obj.get("validation_error").unwrap().as_str(), Some("Invalid email format"));
    assert!(!obj.contains_key("password"));
    assert_eq!(obj.get("processed_at").unwrap().as_str(), Some(NOW));
    assert_eq!(obj.get("processed_by").unwrap().as_str(), Some("wasm-filter"));
    assert_eq!(obj.get("email").unwrap().as_str(), Some("bademail"));
    assert!(!obj.contains_key("request_id"));
    assert_eq!(
        out,
        format!(
            r#"{{"user_id":"user_42","email":"bademail","processed_at":"{}","processed_by":"wasm-filter","validation_error":"Invalid email format"}}"#,
            NOW
        )
    );
}

#[test]
fn request_rules_on_valid_email_with_request_id() {
    let out = run(
        request_rules(),
        r#"{"email":"a@b.c","api_key":"k","n":1}"#,
        &context(vec![("x-request-id", "rid-7")]),
    );
    assert_eq!(
        out,
        format!(
            r#"{{"email":"a@b.c","n":1,"processed_at":"{}","processed_by":"wasm-filter","request_id":"rid-7"}}"#,
            NOW
        )
    );
}

#[test]
fn response_rules_on_item_list() {
    let out = run(response_rules(), r#"{"items":[1,2,3],"internal_id":"x"}"#, &context(vec![]));
    let v: serde_json::Value = serde_json::from_str(&out).unwrap();
    let obj = v.as_object().unwrap();
    assert_eq!(obj.get("total_count").unwrap().as_u64(), Some(3));
    assert!(!obj.contains_key("internal_id"));
    assert_eq!(obj.get("success").unwrap().as_bool(), Some(true));
    assert_eq!(
        out,
        format!(
            r#"{{"items":[1,2,3],"response_time":"{}","version":"v1.0.0","total_count":3,"success":true}}"#,
            NOW
        )
    );
}

#[test]
fn invalid_utf8_passes_unchanged() {
    let bytes: Vec<u8> = vec![0x7b, 0xff, 0xfe, 0x7d];
    let out = JsonRuleEngine::new(request_rules()).transform(&bytes, &context(vec![]));
    assert_eq!(out, bytes);
    let lone: Vec<u8> = vec![0xc3];
    let out = JsonRuleEngine::new(response_rules()).transform(&lone, &context(vec![]));
    assert_eq!(out, lone);
}

#[test]
fn invalid_json_passes_unchanged() {
    for body in ["not json", "{\"a\":", "", "{\"a\":1} trailing"] {
        assert_eq!(run(request_rules(), body, &context(vec![])), body);
    }
}

#[test]
fn non_object_is_encoded_again_without_edits() {
    assert_eq!(run(request_rules(), " [1, 2,\n 3] ", &context(vec![])), "[1,2,3]");
    assert_eq!(run(request_rules(), "\"text\"", &context(vec![])), "\"text\"");
    assert_eq!(run(response_rules(), " null", &context(vec![])), "null");
    assert_eq!(run(response_rules(), "12", &context(vec![])), "12");
}

#[test]
fn empty_rule_list_only_encodes_again() {
    assert_eq!(run(vec![], "{ \"b\" : 1, \"a\" : [ true ] }", &context(vec![])), r#"{"b":1,"a":[true]}"#);
}

#[test]
fn insert_keeps_the_place_of_an_existing_member() {
    let rules = vec![JsonRule::InsertConstant { key: s("a"), value: JsonConstant::Count(9) }];
    assert_eq!(run(rules, r#"{"a":1,"b":2}"#, &context(vec![])), r#"{"a":9,"b":2}"#);
    let rules = vec![JsonRule::InsertConstant { key: s("c"), value: JsonConstant::Flag(false) }];
    assert_eq!(run(rules, r#"{"a":1,"b":2}"#, &context(vec![])), r#"{"a":1,"b":2,"c":false}"#);
}

#[test]
fn removal_keeps_the_order_of_the_rest() {
    let rules = vec![JsonRule::RemoveFields { keys: vec![s("a"), s("zz")] }];
    assert_eq!(
        run(rules, r#"{"a":1,"b":2,"c":3,"d":4}"#, &context(vec![])),
        r#"{"b":2,"c":3,"d":4}"#
    );
}

#[test]
fn removed_members_are_absent_whether_present_or_not() {
    let rules = vec![
        JsonRule::InsertConstant { key: s("secret"), value: JsonConstant::Text(s("v")) },
        JsonRule::RemoveFields { keys: vec![s("secret"), s("other")] },
        JsonRule::InsertConstant { key: s("kept"), value: JsonConstant::Count(1) },
    ];
    assert_eq!(run(rules, r#"{"x":null}"#, &context(vec![])), r#"{"x":null,"kept":1}"#);
}

#[test]
fn untouched_members_keep_their_values() {
    let out = run(
        request_rules(),
        r#"{"nested":{"password":"p","k":[1,{"a":null}]},"f":1.5,"neg":-3,"t":"x\ny"}"#,
        &context(vec![]),
    );
    let v: serde_json::Value = serde_json::from_str(&out).unwrap();
    let before: serde_json::Value =
        serde_json::from_str(r#"{"password":"p","k":[1,{"a":null}]}"#).unwrap();
    assert_eq!(v.get("nested"), Some(&before));
    assert_eq!(v.get("f").unwrap().as_f64(), Some(1.5));
    assert_eq!(v.get("neg").unwrap().as_i64(), Some(-3));
    assert_eq!(v.get("t").unwrap().as_str(), Some("x\ny"));
}

#[test]
fn rewrite_leaves_a_non_string_alone() {
    let rules =
        || vec![JsonRule::RewriteField { key: s("user_id"), rewrite: TextRewrite::Prefix(s("user_")) }];
    assert_eq!(run(rules(), r#"{"user_id":42}"#, &context(vec![])), r#"{"user_id":42}"#);
    assert_eq!(run(rules(), r#"{"other":"42"}"#, &context(vec![])), r#"{"other":"42"}"#);
    assert_eq!(run(rules(), r#"{"user_id":""}"#, &context(vec![])), r#"{"user_id":"user_"}"#);
}

#[test]
fn flag_needs_a_string_source() {
    let rules = || {
        vec![JsonRule::ConditionalFlag {
            source: s("email"),
            predicate: TextPredicate::ContainsChar('@'),
            flag: s("validation_error"),
            value: JsonConstant::Text(s("Invalid email format")),
        }]
    };
    assert_eq!(run(rules(), r#"{"email":5}"#, &context(vec![])), r#"{"email":5}"#);
    assert_eq!(run(rules(), r#"{"mail":"x"}"#, &context(vec![])), r#"{"mail":"x"}"#);
    assert_eq!(run(rules(), r#"{"email":"a@b"}"#, &context(vec![])), r#"{"email":"a@b"}"#);
    assert_eq!(
        run(rules(), r#"{"email":""}"#, &context(vec![])),
        r#"{"email":"","validation_error":"Invalid email format"}"#
    );
}

#[test]
fn count_needs_an_array() {
    let rules = || vec![JsonRule::DeriveCount { from: s("items"), into: s("total_count") }];
    assert_eq!(run(rules(), r#"{"items":"abc"}"#, &context(vec![])), r#"{"items":"abc"}"#);
    assert_eq!(run(rules(), r#"{"items":{"a":1}}"#, &context(vec![])), r#"{"items":{"a":1}}"#);
    assert_eq!(run(rules(), r#"{"items":[]}"#, &context(vec![])), r#"{"items":[],"total_count":0}"#);
    assert_eq!(
        run(rules(), r#"{"total_count":"old","items":[[],[]]}"#, &context(vec![])),
        r#"{"total_count":2,"items":[[],[]]}"#
    );
}

#[test]
fn later_rules_see_earlier_edits() {
    let rules = vec![
        JsonRule::InsertConstant { key: s("id"), value: JsonConstant::Text(s("7")) },
        JsonRule::RewriteField { key: s("id"), rewrite: TextRewrite::Prefix(s("n")) },
        JsonRule::RewriteField { key: s("id"), rewrite: TextRewrite::Prefix(s("m")) },
    ];
    assert_eq!(run(rules, "{}", &context(vec![])), r#"{"id":"mn7"}"#);
}

#[test]
fn header_lookup_takes_the_first_value() {
    let rules =
        vec![JsonRule::InsertComputed { key: s("rid"), computed: Computed::Header(s("x-request-id")) }];
    let ctx = context(vec![("a", "1"), ("x-request-id", "first"), ("x-request-id", "second")]);
    assert_eq!(run(rules, "{}", &ctx), r#"{"rid":"first"}"#);
}

#[test]
fn transform_value_edits_only_objects() {
    let ctx = context(vec![]);
    let mut m = serde_json::Map::new();
    m.insert(s("items"), serde_json::Value::Array(vec![serde_json::Value::Null]));
    m.insert(s("internal_id"), serde_json::Value::from(1u64));
    let out = transform_value(serde_json::Value::Object(m), &response_rules(), &ctx);
    assert_eq!(
        serde_json::to_string(&out).unwrap(),
        format!(
            r#"{{"items":[null],"response_time":"{}","version":"v1.0.0","total_count":1,"success":true}}"#,
            NOW
        )
    );
    let list = serde_json::Value::Array(vec![serde_json::Value::from(true)]);
    assert_eq!(transform_value(list.clone(), &response_rules(), &ctx), list);
}

#[test]
fn apply_json_rule_on_a_map() {
    let ctx = context(vec![]);
    let mut m = serde_json::Map::new();
    m.insert(s("a"), serde_json::Value::from(s("x")));
    apply_json_rule(
        &mut m,
        &JsonRule::RewriteField { key: s("a"), rewrite: TextRewrite::Prefix(s("p-")) },
        &ctx,
    );
    assert_eq!(m.get("a").unwrap().as_str(), Some("p-x"));
    apply_json_rule(&mut m, &JsonRule::RemoveFields { keys: vec![s("a")] }, &ctx);
    assert!(m.is_empty());
}

#[test]
fn context_at_current_time_keeps_the_headers() {
    let ctx = JsonContext::at_current_time(vec![(s("x-request-id"), s("r1"))]);
    assert_eq!(ctx.headers, vec![(s("x-request-id"), s("r1"))]);
    let now = ctx.now.clone().unwrap();
    assert!(now.len() >= 25);
    assert!(now.contains('T'));
    assert!(now.ends_with("+00:00"));
    let out = run(
        vec![JsonRule::InsertComputed { key: s("at"), computed: Computed::Timestamp }],
        "{}",
        &ctx,
    );
    let v: serde_json::Value = serde_json::from_str(&out).unwrap();
    assert_eq!(v.get("at").unwrap().as_str(), Some(now.as_str()));
}

#[test]
fn text_rewrite_and_predicate() {
    assert_eq!(TextRewrite::Prefix(s("Transformed-")).apply("curl/8"), "Transformed-curl/8");
    assert!(TextPredicate::ContainsChar('@').holds("a@b"));
    assert!(!TextPredicate::ContainsChar('@').holds("bademail"));
    assert!(TextPredicate::ContainsChar('é').holds("caf\u{e9}"));
    assert!(!TextPredicate::ContainsChar('@').holds(""));
}

#[test]
fn context_at_a_reading_writes_the_instant() {
    let ctx = JsonContext::at(Some((0, 0)), vec![]);
    assert_eq!(ctx.now, Some(s("1970-01-01T00:00:00+00:00")));
    let ctx = JsonContext::at(Some((1_700_000_000, 120_000_000)), vec![(s("a"), s("b"))]);
    assert_eq!(ctx.now, Some(s("2023-11-14T22:13:20.120+00:00")));
    assert_eq!(ctx.headers, vec![(s("a"), s("b"))]);
    assert_eq!(timestamp_text(Some((951_782_400, 1))), Some(s("2000-02-29T00:00:00.000000001+00:00")));
}

#[test]
fn context_without_a_time() {
    assert_eq!(JsonContext::at(None, vec![]).now, None);
    assert_eq!(JsonContext::at(Some((u64::MAX, 0)), vec![]).now, None);
    assert_eq!(JsonContext::at(Some((1u64 << 62, 0)), vec![]).now, None);
    assert_eq!(JsonContext::at(Some((0, 2_000_000_000)), vec![]).now, None);
    assert_eq!(timestamp_text(None), None);
}

#[test]
fn timestamp_rule_is_a_no_op_without_a_time() {
    let ctx = JsonContext { now: None, headers: vec![(s("x-request-id"), s("r"))] };
    assert_eq!(
        run(request_rules(), r#"{"password":"p","user_id":"1"}"#, &ctx),
        r#"{"user_id":"user_1","processed_by":"wasm-filter","request_id":"r"}"#
    );
}

#[test]
fn epoch_millis_of_a_reading() {
    assert_eq!(epoch_millis(None), None);
    assert_eq!(epoch_millis(Some((0, 0))), Some(0));
    assert_eq!(epoch_millis(Some((1_700_000_123, 456_789_012))), Some(1_700_000_123_456));
    assert_eq!(epoch_millis(Some((u64::MAX, 999_999_999))), Some(18_446_744_073_709_551_615_999));
}

#[test]
fn removed_members_do_not_change_the_output() {
    let ctx = context(vec![("x-request-id", "rid")]);
    let bare = run(response_rules(), r#"{"items":[1],"name":"n"}"#, &ctx);
    let with_some = run(
        response_rules(),
        r#"{"internal_id":7,"items":[1],"debug_info":{"a":[1,2]},"name":"n","server_info":null}"#,
        &ctx,
    );
    let with_others = run(
        response_rules(),
        r#"{"items":[1],"database_query":"select 1","name":"n","internal_id":"other"}"#,
        &ctx,
    );
    assert_eq!(
        bare,
        format!(
            r#"{{"items":[1],"name":"n","response_time":"{}","version":"v1.0.0","request_id":"rid","total_count":1,"success":true}}"#,
            NOW
        )
    );
    assert_eq!(with_some, bare);
    assert_eq!(with_others, bare);
}
