//! What the JSON rules leave alone, and what they are sure to remove.

use vstd::prelude::*;
use vstd::utf8::{decode_utf8, valid_utf8};
use crate::assoc::{
    lemma_lookup_with_entry, lemma_lookup_without_key, lemma_without_key_commutes,
    lemma_without_key_with_entry, lookup, without_key, Name,
};
use crate::json::{json_parse, JsonModel, Members};
use crate::json_rules::{
    json_rule_spec, json_rules_spec, remove_keys, transform_doc, transform_spec, JsonContext,
    JsonRule,
};

verus! {

/// Whether `key` is one of the names.
pub open spec fn names_contain(keys: Seq<String>, key: Name) -> bool {
    exists|i: int| 0 <= i < keys.len() && (#[trigger] keys[i])@ == key
}

/// Whether the rule may set the member called `key`.
pub open spec fn rule_writes(rule: JsonRule, key: Name) -> bool {
    match rule {
        JsonRule::InsertConstant { key: k, .. } => k@ == key,
        JsonRule::InsertComputed { key: k, .. } => k@ == key,
        JsonRule::RewriteField { key: k, .. } => k@ == key,
        JsonRule::ConditionalFlag { flag, .. } => flag@ == key,
        JsonRule::RemoveFields { .. } => false,
        JsonRule::DeriveCount { into, .. } => into@ == key,
    }
}

/// Whether the rule removes the member called `key`.
pub open spec fn rule_removes(rule: JsonRule, key: Name) -> bool {
    match rule {
        JsonRule::RemoveFields { keys } => names_contain(keys@, key),
        _ => false,
    }
}

/// After `remove_keys` each of the names is absent and every other name
/// gives what it gave before.
pub proof fn lemma_lookup_remove_keys(ms: Members, keys: Seq<String>, key: Name)
    ensures
        lookup(remove_keys(ms, keys), key) == if names_contain(keys, key) {
            None
        } else {
            lookup(ms, key)
        },
    decreases keys.len(),
{
    if keys.len() > 0 {
        let init = keys.drop_last();
        lemma_lookup_remove_keys(ms, init, key);
        lemma_lookup_without_key(remove_keys(ms, init), keys.last()@, key);
        if names_contain(init, key) {
            let i = choose|i: int| 0 <= i < init.len() && (#[trigger] init[i])@ == key;
            assert(keys[i]@ == key);
        }
        if keys.last()@ == key {
            assert(keys[keys.len() - 1]@ == key);
        }
        if names_contain(keys, key) && keys.last()@ != key {
            let i = choose|i: int| 0 <= i < keys.len() && (#[trigger] keys[i])@ == key;
            assert(init[i]@ == key);
        }
    }
}

/// A rule that neither sets nor removes a name leaves that member as it
/// was, present or absent.
pub proof fn lemma_rule_keeps(ms: Members, rule: JsonRule, ctx: JsonContext, key: Name)
    requires
        !rule_writes(rule, key),
        !rule_removes(rule, key),
    ensures
        lookup(json_rule_spec(ms, rule, ctx), key) == lookup(ms, key),
{
    match rule {
        JsonRule::InsertConstant { key: k, value } => {
            lemma_lookup_with_entry(ms, k@, value.model(), key);
        },
        JsonRule::InsertComputed { key: k, computed } => {
            if let Some(t) = computed.value_spec(ctx) {
                lemma_lookup_with_entry(ms, k@, JsonModel::Text(t), key);
            }
        },
        JsonRule::RewriteField { key: k, rewrite } => {
            if let Some(JsonModel::Text(t)) = lookup(ms, k@) {
                lemma_lookup_with_entry(ms, k@, JsonModel::Text(rewrite.apply_spec(t)), key);
            }
        },
        JsonRule::ConditionalFlag { flag, value, .. } => {
            lemma_lookup_with_entry(ms, flag@, value.model(), key);
        },
        JsonRule::RemoveFields { keys } => {
            lemma_lookup_remove_keys(ms, keys@, key);
        },
        JsonRule::DeriveCount { from, into } => {
            if let Some(JsonModel::List(items)) = lookup(ms, from@) {
                lemma_lookup_with_entry(ms, into@, JsonModel::Integer(items.len() as int), key);
            }
        },
    }
}

/// A rule that does not set a name leaves it absent where it was absent.
pub proof fn lemma_rule_keeps_absent(ms: Members, rule: JsonRule, ctx: JsonContext, key: Name)
    requires
        !rule_writes(rule, key),
        lookup(ms, key) is None,
    ensures
        lookup(json_rule_spec(ms, rule, ctx), key) is None,
{
    match rule {
        JsonRule::RemoveFields { keys } => {
            lemma_lookup_remove_keys(ms, keys@, key);
        },
        _ => {
            lemma_rule_keeps(ms, rule, ctx, key);
        },
    }
}

/// A body that is not well-formed UTF-8 passes through unchanged, whatever
/// the rules.
pub proof fn law_invalid_utf8_unchanged(bytes: Seq<u8>, rules: Seq<JsonRule>, ctx: JsonContext)
    requires
        !valid_utf8(bytes),
    ensures
        transform_spec(bytes, rules, ctx) == bytes,
{
}

/// A body whose text does not decode as JSON passes through unchanged,
/// whatever the rules.
pub proof fn law_undecodable_unchanged(bytes: Seq<u8>, rules: Seq<JsonRule>, ctx: JsonContext)
    requires
        valid_utf8(bytes),
        json_parse(decode_utf8(bytes)) is None,
    ensures
        transform_spec(bytes, rules, ctx) == bytes,
{
}

/// A value that is not an object is encoded again as it was decoded,
/// whatever the rules.
pub proof fn law_non_object_unedited(doc: JsonModel, rules: Seq<JsonRule>, ctx: JsonContext)
    requires
        !(doc is Object),
    ensures
        transform_doc(doc, rules, ctx) == doc,
{
}

/// A member that no rule of the list sets or removes comes out of the
/// transformation as it went in: present with its value, or absent.
pub proof fn law_untouched_member_kept(ms: Members, rules: Seq<JsonRule>, ctx: JsonContext, key: Name)
    requires
        forall|i: int| 0 <= i < rules.len() ==> !rule_writes(#[trigger] rules[i], key),
        forall|i: int| 0 <= i < rules.len() ==> !rule_removes(#[trigger] rules[i], key),
    ensures
        lookup(json_rules_spec(ms, rules, ctx), key) == lookup(ms, key),
    decreases rules.len(),
{
    if rules.len() > 0 {
        let init = rules.drop_last();
        assert forall|i: int| 0 <= i < init.len() implies !rule_writes(#[trigger] init[i], key) by {
            assert(init[i] == rules[i]);
        }
        assert forall|i: int| 0 <= i < init.len() implies !rule_removes(#[trigger] init[i], key) by {
            assert(init[i] == rules[i]);
        }
        law_untouched_member_kept(ms, init, ctx, key);
        assert(rules.last() == rules[rules.len() - 1]);
        lemma_rule_keeps(json_rules_spec(ms, init, ctx), rules.last(), ctx, key);
    }
}

/// A name that some rule of the list removes, and that no later rule sets,
/// is absent after the transformation, whether or not it was there before.
pub proof fn law_removed_member_absent(
    ms: Members,
    rules: Seq<JsonRule>,
    ctx: JsonContext,
    key: Name,
    at: int,
)
    requires
        0 <= at < rules.len(),
        rule_removes(rules[at], key),
        forall|i: int| at < i < rules.len() ==> !rule_writes(#[trigger] rules[i], key),
    ensures
        lookup(json_rules_spec(ms, rules, ctx), key) is None,
    decreases rules.len(),
{
    let init = rules.drop_last();
    let before = json_rules_spec(ms, init, ctx);
    assert(rules.last() == rules[rules.len() - 1]);
    if at == rules.len() - 1 {
        match rules.last() {
            JsonRule::RemoveFields { keys } => {
                lemma_lookup_remove_keys(before, keys@, key);
            },
            _ => {},
        }
    } else {
        assert(init[at] == rules[at]);
        assert forall|i: int| at < i < init.len() implies !rule_writes(#[trigger] init[i], key) by {
            assert(init[i] == rules[i]);
        }
        law_removed_member_absent(ms, init, ctx, key, at);
        lemma_rule_keeps_absent(before, rules.last(), ctx, key);
    }
}

/// Whether what the rule does depends on the member called `key`.
pub open spec fn rule_reads(rule: JsonRule, key: Name) -> bool {
    match rule {
        JsonRule::RewriteField { key: k, .. } => k@ == key,
        JsonRule::ConditionalFlag { source, .. } => source@ == key,
        JsonRule::DeriveCount { from, .. } => from@ == key,
        _ => false,
    }
}

/// Whether the rule has nothing to do with any of the names: it neither
/// reads, sets nor removes one of them.
pub open spec fn rule_clear_of(rule: JsonRule, keys: Seq<String>) -> bool {
    forall|j: int|
        0 <= j < keys.len() ==> {
            let key = (#[trigger] keys[j])@;
            !rule_reads(rule, key) && !rule_writes(rule, key) && !rule_removes(rule, key)
        }
}

/// Removing a list of names and removing one more name can be done in
/// either order.
pub proof fn lemma_remove_keys_commutes(ms: Members, keys: Seq<String>, key: Name)
    ensures
        without_key(remove_keys(ms, keys), key) == remove_keys(without_key(ms, key), keys),
    decreases keys.len(),
{
    if keys.len() > 0 {
        lemma_remove_keys_commutes(ms, keys.drop_last(), key);
        lemma_without_key_commutes(remove_keys(ms, keys.drop_last()), keys.last()@, key);
    }
}

/// A rule that has nothing to do with a name does the same before and after
/// that name is removed.
pub proof fn lemma_rule_commutes_with_removal(
    ms: Members,
    rule: JsonRule,
    ctx: JsonContext,
    key: Name,
)
    requires
        !rule_reads(rule, key),
        !rule_writes(rule, key),
        !rule_removes(rule, key),
    ensures
        without_key(json_rule_spec(ms, rule, ctx), key) == json_rule_spec(
            without_key(ms, key),
            rule,
            ctx,
        ),
{
    match rule {
        JsonRule::InsertConstant { key: k, value } => {
            lemma_without_key_with_entry(ms, k@, value.model(), key);
        },
        JsonRule::InsertComputed { key: k, computed } => {
            if let Some(t) = computed.value_spec(ctx) {
                lemma_without_key_with_entry(ms, k@, JsonModel::Text(t), key);
            }
        },
        JsonRule::RewriteField { key: k, rewrite } => {
            lemma_lookup_without_key(ms, key, k@);
            if let Some(JsonModel::Text(t)) = lookup(ms, k@) {
                lemma_without_key_with_entry(ms, k@, JsonModel::Text(rewrite.apply_spec(t)), key);
            }
        },
        JsonRule::ConditionalFlag { source, flag, value, .. } => {
            lemma_lookup_without_key(ms, key, source@);
            lemma_without_key_with_entry(ms, flag@, value.model(), key);
        },
        JsonRule::RemoveFields { keys } => {
            lemma_remove_keys_commutes(ms, keys@, key);
        },
        JsonRule::DeriveCount { from, into } => {
            lemma_lookup_without_key(ms, key, from@);
            if let Some(JsonModel::List(items)) = lookup(ms, from@) {
                lemma_without_key_with_entry(
                    ms,
                    into@,
                    JsonModel::Integer(items.len() as int),
                    key,
                );
            }
        },
    }
}

/// A rule that has nothing to do with a list of names does the same before
/// and after those names are removed.
pub proof fn lemma_rule_commutes_with_removals(
    ms: Members,
    rule: JsonRule,
    ctx: JsonContext,
    keys: Seq<String>,
)
    requires
        rule_clear_of(rule, keys),
    ensures
        remove_keys(json_rule_spec(ms, rule, ctx), keys) == json_rule_spec(
            remove_keys(ms, keys),
            rule,
            ctx,
        ),
    decreases keys.len(),
{
    if keys.len() > 0 {
        let init = keys.drop_last();
        assert forall|j: int| 0 <= j < init.len() implies {
            let key = (#[trigger] init[j])@;
            !rule_reads(rule, key) && !rule_writes(rule, key) && !rule_removes(rule, key)
        } by {
            assert(init[j] == keys[j]);
        }
        lemma_rule_commutes_with_removals(ms, rule, ctx, init);
        assert(keys.last() == keys[keys.len() - 1]);
        lemma_rule_commutes_with_removal(remove_keys(ms, init), rule, ctx, keys.last()@);
    }
}

/// Rules that have nothing to do with a list of names do the same before
/// and after those names are removed.
pub proof fn lemma_rules_commute_with_removals(
    ms: Members,
    rules: Seq<JsonRule>,
    ctx: JsonContext,
    keys: Seq<String>,
)
    requires
        forall|i: int| 0 <= i < rules.len() ==> rule_clear_of(#[trigger] rules[i], keys),
    ensures
        remove_keys(json_rules_spec(ms, rules, ctx), keys) == json_rules_spec(
            remove_keys(ms, keys),
            rules,
            ctx,
        ),
    decreases rules.len(),
{
    if rules.len() > 0 {
        let init = rules.drop_last();
        assert forall|i: int| 0 <= i < init.len() implies rule_clear_of(#[trigger] init[i], keys) by {
            assert(init[i] == rules[i]);
        }
        lemma_rules_commute_with_removals(ms, init, ctx, keys);
        assert(rules.last() == rules[rules.len() - 1]);
        lemma_rule_commutes_with_removals(json_rules_spec(ms, init, ctx), rules.last(), ctx, keys);
    }
}

/// Applying a rule list is applying its first `n` rules and then the rest.
pub proof fn lemma_rules_split(ms: Members, rules: Seq<JsonRule>, ctx: JsonContext, n: int)
    requires
        0 <= n <= rules.len(),
    ensures
        json_rules_spec(ms, rules, ctx) == json_rules_spec(
            json_rules_spec(ms, rules.take(n), ctx),
            rules.skip(n),
            ctx,
        ),
    decreases rules.len(),
{
    if n == rules.len() {
        assert(rules.take(n) =~= rules);
        assert(rules.skip(n).len() == 0);
    } else {
        let init = rules.drop_last();
        lemma_rules_split(ms, init, ctx, n);
        assert(init.take(n) =~= rules.take(n));
        assert(init.skip(n) =~= rules.skip(n).drop_last());
        assert(rules.skip(n).last() == rules.last());
    }
}

/// What a `RemoveFields` rule removes does not matter to the outcome: two
/// objects that are the same once the rule's names are taken out come out
/// of the rule list the same, provided no rule before the removal has to do
/// with one of the names.
pub proof fn law_removed_members_do_not_matter(
    ms1: Members,
    ms2: Members,
    rules: Seq<JsonRule>,
    ctx: JsonContext,
    at: int,
    keys: Vec<String>,
)
    requires
        0 <= at < rules.len(),
        rules[at] == (JsonRule::RemoveFields { keys }),
        remove_keys(ms1, keys@) == remove_keys(ms2, keys@),
        forall|i: int| 0 <= i < at ==> rule_clear_of(#[trigger] rules[i], keys@),
    ensures
        json_rules_spec(ms1, rules, ctx) == json_rules_spec(ms2, rules, ctx),
{
    let upto = rules.take(at + 1);
    let pre = rules.take(at);
    assert(upto.drop_last() =~= pre);
    assert(upto.last() == rules[at]);
    assert forall|i: int| 0 <= i < pre.len() implies rule_clear_of(#[trigger] pre[i], keys@) by {
        assert(pre[i] == rules[i]);
    }
    lemma_rules_commute_with_removals(ms1, pre, ctx, keys@);
    lemma_rules_commute_with_removals(ms2, pre, ctx, keys@);
    assert(json_rules_spec(ms1, upto, ctx) == json_rules_spec(ms2, upto, ctx));
    lemma_rules_split(ms1, rules, ctx, at + 1);
    lemma_rules_split(ms2, rules, ctx, at + 1);
}

} // verus!
