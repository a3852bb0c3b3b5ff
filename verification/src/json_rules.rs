//! The rules that edit the members of a JSON object, and the engine that
//! applies them to a body.

use vstd::prelude::*;
use vstd::slice::slice_to_vec;
use vstd::utf8::{decode_utf8, encode_utf8, valid_utf8};
use crate::assoc::{lookup, with_entry, without_key};
use crate::clock::{epoch_reading, text_view, timestamp_spec, timestamp_text, Reading};
use crate::headers::{get_header, header_view};
use crate::json::{
    constant_value, decode_text, drop_member, from_object, into_object, items_of, json_parse,
    json_text, member, object_members, parse_value, put_member, render_value, text_of,
    value_model, JsonConstant, JsonModel, Members,
};
use crate::text::{TextPredicate, TextRewrite};

verus! {

/// What the body engine may read besides the body: the time as an ISO-8601
/// text, where there is one, and the headers of the request.
pub struct JsonContext {
    pub now: Option<String>,
    pub headers: Vec<(String, String)>,
}

impl JsonContext {
    /// A context with the given headers and the time of a clock reading.
    pub fn at(reading: Reading, headers: Vec<(String, String)>) -> (r: Self)
        ensures
            r.headers == headers,
            text_view(r.now) == timestamp_spec(reading),
            r.now is Some ==> r.now.unwrap()@.len() >= 25,
    {
        JsonContext { now: timestamp_text(reading), headers }
    }

    /// A context with the given headers and the time of the call: the time
    /// is that of some clock reading, whichever the clock gave.
    pub fn at_current_time(headers: Vec<(String, String)>) -> (r: Self)
        ensures
            r.headers == headers,
            exists|reading: Reading| text_view(r.now) == #[trigger] timestamp_spec(reading),
            r.now is Some ==> r.now.unwrap()@.len() >= 25,
    {
        let reading = epoch_reading();
        JsonContext::at(reading, headers)
    }
}

/// A text taken from the context.
pub enum Computed {
    /// The context's time; there may be none.
    Timestamp,
    /// The value of the first header of the given name; there may be none.
    Header(String),
}

impl Computed {
    /// The text that the context gives, if any.
    pub open spec fn value_spec(self, ctx: JsonContext) -> Option<Seq<char>> {
        match self {
            Computed::Timestamp => text_view(ctx.now),
            Computed::Header(name) => lookup(header_view(ctx.headers@), name@),
        }
    }

    pub fn value(&self, ctx: &JsonContext) -> (r: Option<String>)
        ensures
            match self.value_spec(*ctx) {
                Some(t) => r is Some && r.unwrap()@ == t,
                None => r is None,
            },
    {
        match self {
            Computed::Timestamp => match &ctx.now {
                Some(t) => Some(t.clone()),
                None => None,
            },
            Computed::Header(name) => get_header(&ctx.headers, name),
        }
    }
}

/// One edit of the members of a JSON object. No rule fails: each leaves the
/// object as it is where what it looks for is missing.
pub enum JsonRule {
    /// Sets `key` to a constant.
    InsertConstant { key: String, value: JsonConstant },
    /// Sets `key` to a text from the context, where the context has one.
    InsertComputed { key: String, computed: Computed },
    /// Rewrites the value under `key` where it is a string.
    RewriteField { key: String, rewrite: TextRewrite },
    /// Sets `flag` to `value` where the member `source` is a string of which
    /// the predicate does not hold.
    ConditionalFlag { source: String, predicate: TextPredicate, flag: String, value: JsonConstant },
    /// Removes the members of the given names.
    RemoveFields { keys: Vec<String> },
    /// Sets `into` to the number of items of the member `from` where that is
    /// an array.
    DeriveCount { from: String, into: String },
}

/// The members without any of the given names.
pub open spec fn remove_keys(ms: Members, keys: Seq<String>) -> Members
    decreases keys.len(),
{
    if keys.len() == 0 {
        ms
    } else {
        without_key(remove_keys(ms, keys.drop_last()), keys.last()@)
    }
}

/// The members after one rule.
pub open spec fn json_rule_spec(ms: Members, rule: JsonRule, ctx: JsonContext) -> Members {
    match rule {
        JsonRule::InsertConstant { key, value } => with_entry(ms, key@, value.model()),
        JsonRule::InsertComputed { key, computed } => match computed.value_spec(ctx) {
            Some(t) => with_entry(ms, key@, JsonModel::Text(t)),
            None => ms,
        },
        JsonRule::RewriteField { key, rewrite } => match lookup(ms, key@) {
            Some(JsonModel::Text(t)) => with_entry(ms, key@, JsonModel::Text(rewrite.apply_spec(t))),
            _ => ms,
        },
        JsonRule::ConditionalFlag { source, predicate, flag, value } => match lookup(ms, source@) {
            Some(JsonModel::Text(t)) => if predicate.holds_spec(t) {
                ms
            } else {
                with_entry(ms, flag@, value.model())
            },
            _ => ms,
        },
        JsonRule::RemoveFields { keys } => remove_keys(ms, keys@),
        JsonRule::DeriveCount { from, into } => match lookup(ms, from@) {
            Some(JsonModel::List(items)) => with_entry(
                ms,
                into@,
                JsonModel::Integer(items.len() as int),
            ),
            _ => ms,
        },
    }
}

/// The members after the rules, applied in order.
pub open spec fn json_rules_spec(ms: Members, rules: Seq<JsonRule>, ctx: JsonContext) -> Members
    decreases rules.len(),
{
    if rules.len() == 0 {
        ms
    } else {
        json_rule_spec(json_rules_spec(ms, rules.drop_last(), ctx), rules.last(), ctx)
    }
}

/// The value after the rules: an object has its members edited, any other
/// value stays as it is.
pub open spec fn transform_doc(doc: JsonModel, rules: Seq<JsonRule>, ctx: JsonContext) -> JsonModel {
    match doc {
        JsonModel::Object(ms) => JsonModel::Object(json_rules_spec(ms, rules, ctx)),
        other => other,
    }
}

/// The body after the rules: bytes that are not UTF-8, or not JSON, pass
/// unchanged; any other body is decoded, edited and encoded again.
pub open spec fn transform_spec(bytes: Seq<u8>, rules: Seq<JsonRule>, ctx: JsonContext) -> Seq<u8> {
    if !valid_utf8(bytes) {
        bytes
    } else {
        match json_parse(decode_utf8(bytes)) {
            None => bytes,
            Some(doc) => encode_utf8(json_text(transform_doc(doc, rules, ctx))),
        }
    }
}

fn remove_members(m: &mut serde_json::Map<String, serde_json::Value>, keys: &Vec<String>)
    ensures
        object_members(*final(m)) == remove_keys(object_members(*old(m)), keys@),
{
    let n: usize = keys.len();
    let mut i: usize = 0;
    assert(keys@.take(0) =~= Seq::<String>::empty());
    while i < n
        invariant
            i <= n,
            n == keys@.len(),
            object_members(*m) == remove_keys(object_members(*old(m)), keys@.take(i as int)),
        decreases n - i,
    {
        assert(keys@.take(i + 1).drop_last() =~= keys@.take(i as int));
        assert(keys@.take(i + 1).last() == keys@[i as int]);
        drop_member(m, keys[i].as_str());
        i += 1;
    }
    assert(keys@.take(n as int) =~= keys@);
}

/// Applies one rule to the members of an object.
pub fn apply_json_rule(
    m: &mut serde_json::Map<String, serde_json::Value>,
    rule: &JsonRule,
    ctx: &JsonContext,
)
    ensures
        object_members(*final(m)) == json_rule_spec(object_members(*old(m)), *rule, *ctx),
{
    match rule {
        JsonRule::InsertConstant { key, value } => {
            put_member(m, key.clone(), constant_value(value));
        },
        JsonRule::InsertComputed { key, computed } => {
            match computed.value(ctx) {
                Some(t) => {
                    put_member(m, key.clone(), constant_value(&JsonConstant::Text(t)));
                },
                None => {},
            }
        },
        JsonRule::RewriteField { key, rewrite } => {
            let rewritten: Option<String> = match member(m, key.as_str()) {
                Some(v) => match text_of(v) {
                    Some(t) => Some(rewrite.apply(t)),
                    None => None,
                },
                None => None,
            };
            match rewritten {
                Some(t) => {
                    put_member(m, key.clone(), constant_value(&JsonConstant::Text(t)));
                },
                None => {},
            }
        },
        JsonRule::ConditionalFlag { source, predicate, flag, value } => {
            let failed: bool = match member(m, source.as_str()) {
                Some(v) => match text_of(v) {
                    Some(t) => !predicate.holds(t),
                    None => false,
                },
                None => false,
            };
            if failed {
                put_member(m, flag.clone(), constant_value(value));
            }
        },
        JsonRule::RemoveFields { keys } => {
            remove_members(m, keys);
        },
        JsonRule::DeriveCount { from, into } => {
            let count: Option<usize> = match member(m, from.as_str()) {
                Some(v) => match items_of(v) {
                    Some(items) => Some(items.len()),
                    None => None,
                },
                None => None,
            };
            match count {
                Some(n) => {
                    put_member(m, into.clone(), constant_value(&JsonConstant::Count(n)));
                },
                None => {},
            }
        },
    }
}

/// Applies the rules, in order, to a decoded value. Only an object is
/// edited.
pub fn transform_value(v: serde_json::Value, rules: &Vec<JsonRule>, ctx: &JsonContext) -> (r:
    serde_json::Value)
    ensures
        value_model(r) == transform_doc(value_model(v), rules@, *ctx),
{
    match into_object(v) {
        Ok(members) => {
            let mut m = members;
            let ghost before = object_members(m);
            let n: usize = rules.len();
            let mut i: usize = 0;
            assert(rules@.take(0) =~= Seq::<JsonRule>::empty());
            while i < n
                invariant
                    i <= n,
                    n == rules@.len(),
                    object_members(m) == json_rules_spec(before, rules@.take(i as int), *ctx),
                decreases n - i,
            {
                assert(rules@.take(i + 1).drop_last() =~= rules@.take(i as int));
                assert(rules@.take(i + 1).last() == rules@[i as int]);
                apply_json_rule(&mut m, &rules[i], ctx);
                i += 1;
            }
            assert(rules@.take(n as int) =~= rules@);
            from_object(m)
        },
        Err(other) => other,
    }
}

/// Applies a fixed list of JSON rules to whole bodies.
pub struct JsonRuleEngine {
    rules: Vec<JsonRule>,
}

impl JsonRuleEngine {
    /// The rules of the engine, in order.
    pub closed spec fn rules(&self) -> Seq<JsonRule> {
        self.rules@
    }

    pub fn new(rules: Vec<JsonRule>) -> (r: Self)
        ensures
            r.rules() == rules@,
    {
        JsonRuleEngine { rules }
    }

    /// Transforms a complete body. A body that is not UTF-8 or not JSON is
    /// returned byte for byte.
    pub fn transform(&self, bytes: &[u8], ctx: &JsonContext) -> (r: Vec<u8>)
        ensures
            r@ == transform_spec(bytes@, self.rules(), *ctx),
            !valid_utf8(bytes@) ==> r@ == bytes@,
    {
        match decode_text(slice_to_vec(bytes)) {
            None => slice_to_vec(bytes),
            Some(text) => match parse_value(text.as_str()) {
                Err(_) => slice_to_vec(bytes),
                Ok(v) => {
                    let edited = transform_value(v, &self.rules, ctx);
                    match render_value(&edited) {
                        Ok(encoded) => encoded.as_str().as_bytes_vec(),
                        Err(_) => slice_to_vec(bytes),
                    }
                },
            },
        }
    }
}

} // verus!
