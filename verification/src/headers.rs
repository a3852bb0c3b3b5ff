//! Header lists and the rules that edit them.
//!
//! A header list is an ordered list of name and value pairs in which a name
//! may occur more than once. Names are compared exactly, character by
//! character.

use vstd::prelude::*;
use crate::assoc::{
    first_index, lemma_first_index, lemma_first_index_is, lemma_lookup_push,
    lemma_lookup_without_key, lookup, with_entry, without_key, Name,
};
use crate::clock::{epoch_millis, epoch_reading, millis_spec, text_view, Reading};
use crate::text::{decimal_digits, decimal_text, TextRewrite};

verus! {

/// A header list as a sequence of name and value pairs.
pub type Headers = Seq<(Name, Seq<char>)>;

/// The mathematical content of a header list.
pub open spec fn header_view(hs: Seq<(String, String)>) -> Headers {
    Seq::new(hs.len(), |i: int| (hs[i].0@, hs[i].1@))
}

/// The position of the first header called `name`.
pub fn find_header(headers: &Vec<(String, String)>, name: &String) -> (r: Option<usize>)
    ensures
        match r {
            Some(i) => i < headers.len() && first_index(header_view(headers@), name@) == Some(
                i as int,
            ),
            None => first_index(header_view(headers@), name@) is None,
        },
{
    let ghost hv = header_view(headers@);
    let n: usize = headers.len();
    let mut i: usize = 0;
    while i < n
        invariant
            i <= n,
            n == headers.len(),
            hv == header_view(headers@),
            forall|j: int| 0 <= j < i ==> (#[trigger] hv[j]).0 != name@,
        decreases n - i,
    {
        if headers[i].0 == *name {
            proof {
                lemma_first_index_is(hv, name@, i as int);
            }
            return Some(i);
        }
        i += 1;
    }
    proof {
        lemma_first_index(hv, name@);
        if let Some(k) = first_index(hv, name@) {
            assert(hv[k].0 != name@);
        }
    }
    None
}

/// The value of the first header called `name`.
pub fn get_header(headers: &Vec<(String, String)>, name: &String) -> (r: Option<String>)
    ensures
        match lookup(header_view(headers@), name@) {
            Some(v) => r is Some && r.unwrap()@ == v,
            None => r is None,
        },
{
    proof {
        lemma_first_index(header_view(headers@), name@);
    }
    match find_header(headers, name) {
        Some(i) => {
            let v = headers[i].1.clone();
            assert(header_view(headers@)[i as int].1 == v@);
            Some(v)
        },
        None => None,
    }
}

fn add_header(headers: &mut Vec<(String, String)>, name: String, value: String)
    ensures
        header_view(final(headers)@) == header_view(old(headers)@).push((name@, value@)),
{
    headers.push((name, value));
    assert(header_view(headers@) =~= header_view(old(headers)@).push((name@, value@)));
}

/// Sets the first header called `name` to `value`, or appends the header
/// where the name is absent.
pub fn put_header(headers: &mut Vec<(String, String)>, name: &String, value: String)
    ensures
        header_view(final(headers)@) == with_entry(header_view(old(headers)@), name@, value@),
{
    match find_header(headers, name) {
        Some(i) => {
            headers.set(i, (name.clone(), value));
            assert(header_view(headers@) =~= header_view(old(headers)@).update(
                i as int,
                (name@, value@),
            ));
        },
        None => {
            add_header(headers, name.clone(), value);
        },
    }
}

fn without_header(headers: &Vec<(String, String)>, name: &String) -> (kept: Vec<(String, String)>)
    ensures
        header_view(kept@) == without_key(header_view(headers@), name@),
{
    let ghost hv = header_view(headers@);
    let mut kept: Vec<(String, String)> = Vec::new();
    let n: usize = headers.len();
    let mut i: usize = 0;
    assert(header_view(kept@) =~= without_key(hv.take(0), name@));
    while i < n
        invariant
            i <= n,
            n == headers.len(),
            hv == header_view(headers@),
            header_view(kept@) == without_key(hv.take(i as int), name@),
        decreases n - i,
    {
        let ghost before = header_view(kept@);
        assert(hv.take(i + 1).drop_last() =~= hv.take(i as int));
        assert(hv.take(i + 1).last() == hv[i as int]);
        if !(headers[i].0 == *name) {
            kept.push((headers[i].0.clone(), headers[i].1.clone()));
            assert(header_view(kept@) =~= before.push(hv[i as int]));
        }
        i += 1;
    }
    assert(hv.take(n as int) =~= hv);
    kept
}

/// A number that a rule can take from the clock.
pub enum ClockReading {
    /// Whole seconds since the epoch.
    EpochSeconds,
    /// Milliseconds since the epoch.
    EpochMillis,
}

/// What the engine knows besides the headers it edits: the time in
/// milliseconds since the epoch, where there is one, and the headers of the
/// request as they arrived.
pub struct HeaderContext {
    pub epoch_millis: Option<u128>,
    pub request_headers: Vec<(String, String)>,
}

impl HeaderContext {
    /// The headers of the request, as a mathematical list.
    pub open spec fn request(self) -> Headers {
        header_view(self.request_headers@)
    }

    /// A context with the given request headers and the time of a clock
    /// reading.
    pub fn at(reading: Reading, request_headers: Vec<(String, String)>) -> (r: Self)
        ensures
            r.request_headers == request_headers,
            r.epoch_millis == millis_spec(reading),
    {
        HeaderContext { epoch_millis: epoch_millis(reading), request_headers }
    }

    /// A context with the given request headers and the time of the call:
    /// the time is that of some clock reading, whichever the clock gave.
    pub fn at_current_time(request_headers: Vec<(String, String)>) -> (r: Self)
        ensures
            r.request_headers == request_headers,
            exists|reading: Reading| r.epoch_millis == #[trigger] millis_spec(reading),
    {
        let reading = epoch_reading();
        HeaderContext::at(reading, request_headers)
    }
}

impl ClockReading {
    /// The number that the reading gives at the context's time, where the
    /// context has a time.
    pub open spec fn number(self, ctx: HeaderContext) -> Option<nat> {
        match ctx.epoch_millis {
            Some(millis) => match self {
                ClockReading::EpochSeconds => Some((millis / 1000) as nat),
                ClockReading::EpochMillis => Some(millis as nat),
            },
            None => None,
        }
    }

    /// The number as a decimal numeral.
    pub open spec fn numeral(self, ctx: HeaderContext) -> Option<Seq<char>> {
        match self.number(ctx) {
            Some(n) => Some(decimal_digits(n)),
            None => None,
        }
    }

    /// The reading as a decimal numeral.
    pub fn read(&self, ctx: &HeaderContext) -> (r: Option<String>)
        ensures
            text_view(r) == self.numeral(*ctx),
    {
        match ctx.epoch_millis {
            Some(millis) => match self {
                ClockReading::EpochSeconds => Some(decimal_text(millis / 1000)),
                ClockReading::EpochMillis => Some(decimal_text(millis)),
            },
            None => None,
        }
    }
}

/// One edit of a header list.
pub enum HeaderRule {
    /// Appends a header, whether or not the name is already there.
    AddHeader { name: String, value: String },
    /// Appends a header whose value is a clock reading, where the context
    /// has a time.
    AddHeaderComputed { name: String, reading: ClockReading },
    /// Appends a header where the request has a header called `present`.
    AddHeaderIf { present: String, name: String, value: String },
    /// Removes every header of the name.
    RemoveHeader { name: String },
    /// Rewrites the value of the first header of the name.
    RewriteHeader { name: String, rewrite: TextRewrite },
    /// Replaces the value of the first header of the name where it equals
    /// the guard.
    RewriteIf { name: String, guard: String, value: String },
    /// Appends the value of the request's first header called `source`
    /// under the name `target`.
    EchoIf { source: String, target: String },
}

/// The header list after one rule.
pub open spec fn header_rule_spec(hs: Headers, rule: HeaderRule, ctx: HeaderContext) -> Headers {
    match rule {
        HeaderRule::AddHeader { name, value } => hs.push((name@, value@)),
        HeaderRule::AddHeaderComputed { name, reading } => match reading.numeral(ctx) {
            Some(v) => hs.push((name@, v)),
            None => hs,
        },
        HeaderRule::AddHeaderIf { present, name, value } => if lookup(ctx.request(), present@)
            is Some {
            hs.push((name@, value@))
        } else {
            hs
        },
        HeaderRule::RemoveHeader { name } => without_key(hs, name@),
        HeaderRule::RewriteHeader { name, rewrite } => match lookup(hs, name@) {
            Some(v) => with_entry(hs, name@, rewrite.apply_spec(v)),
            None => hs,
        },
        HeaderRule::RewriteIf { name, guard, value } => if lookup(hs, name@) == Some(guard@) {
            with_entry(hs, name@, value@)
        } else {
            hs
        },
        HeaderRule::EchoIf { source, target } => match lookup(ctx.request(), source@) {
            Some(v) => hs.push((target@, v)),
            None => hs,
        },
    }
}

/// The header list after the rules, applied in order.
pub open spec fn header_rules_spec(hs: Headers, rules: Seq<HeaderRule>, ctx: HeaderContext) -> Headers
    decreases rules.len(),
{
    if rules.len() == 0 {
        hs
    } else {
        header_rule_spec(header_rules_spec(hs, rules.drop_last(), ctx), rules.last(), ctx)
    }
}

/// Applies one rule to the header list.
pub fn apply_header_rule(headers: &mut Vec<(String, String)>, rule: &HeaderRule, ctx: &HeaderContext)
    ensures
        header_view(final(headers)@) == header_rule_spec(header_view(old(headers)@), *rule, *ctx),
{
    match rule {
        HeaderRule::AddHeader { name, value } => {
            add_header(headers, name.clone(), value.clone());
        },
        HeaderRule::AddHeaderComputed { name, reading } => {
            match reading.read(ctx) {
                Some(value) => {
                    add_header(headers, name.clone(), value);
                },
                None => {},
            }
        },
        HeaderRule::AddHeaderIf { present, name, value } => {
            match get_header(&ctx.request_headers, present) {
                Some(_) => {
                    add_header(headers, name.clone(), value.clone());
                },
                None => {},
            }
        },
        HeaderRule::RemoveHeader { name } => {
            let kept = without_header(headers, name);
            *headers = kept;
        },
        HeaderRule::RewriteHeader { name, rewrite } => {
            match get_header(headers, name) {
                Some(v) => {
                    let rewritten = rewrite.apply(v.as_str());
                    put_header(headers, name, rewritten);
                },
                None => {},
            }
        },
        HeaderRule::RewriteIf { name, guard, value } => {
            match get_header(headers, name) {
                Some(v) => {
                    if v == *guard {
                        put_header(headers, name, value.clone());
                    }
                },
                None => {},
            }
        },
        HeaderRule::EchoIf { source, target } => {
            match get_header(&ctx.request_headers, source) {
                Some(v) => {
                    add_header(headers, target.clone(), v);
                },
                None => {},
            }
        },
    }
}

/// Applies a fixed list of header rules, in the order in which it was given.
pub struct HeaderRuleEngine {
    rules: Vec<HeaderRule>,
}

impl HeaderRuleEngine {
    /// The rules of the engine, in order.
    pub closed spec fn rules(&self) -> Seq<HeaderRule> {
        self.rules@
    }

    pub fn new(rules: Vec<HeaderRule>) -> (r: Self)
        ensures
            r.rules() == rules@,
    {
        HeaderRuleEngine { rules }
    }

    /// Applies every rule in order; a later rule sees what the earlier ones
    /// did.
    pub fn apply(&self, headers: &mut Vec<(String, String)>, ctx: &HeaderContext)
        ensures
            header_view(final(headers)@) == header_rules_spec(
                header_view(old(headers)@),
                self.rules(),
                *ctx,
            ),
    {
        let n: usize = self.rules.len();
        let mut i: usize = 0;
        assert(self.rules@.take(0) =~= Seq::<HeaderRule>::empty());
        while i < n
            invariant
                i <= n,
                n == self.rules@.len(),
                header_view(headers@) == header_rules_spec(
                    header_view(old(headers)@),
                    self.rules@.take(i as int),
                    *ctx,
                ),
            decreases n - i,
        {
            assert(self.rules@.take(i + 1).drop_last() =~= self.rules@.take(i as int));
            assert(self.rules@.take(i + 1).last() == self.rules@[i as int]);
            apply_header_rule(headers, &self.rules[i], ctx);
            i += 1;
        }
        assert(self.rules@.take(n as int) =~= self.rules@);
    }
}

/// After a `RemoveHeader` rule no header of that name is left, and every
/// other name reads as before.
pub proof fn law_remove_header(hs: Headers, name: String, other: Name, ctx: HeaderContext)
    ensures
        lookup(header_rule_spec(hs, HeaderRule::RemoveHeader { name }, ctx), name@) is None,
        other != name@ ==> lookup(header_rule_spec(hs, HeaderRule::RemoveHeader { name }, ctx), other)
            == lookup(hs, other),
{
    lemma_lookup_without_key(hs, name@, name@);
    lemma_lookup_without_key(hs, name@, other);
}

/// An `AddHeader` rule changes no header that was there: the list grows by
/// one entry at its end, and every name that had a value still reads it.
pub proof fn law_add_header_appends(
    hs: Headers,
    name: String,
    value: String,
    other: Name,
    ctx: HeaderContext,
)
    ensures
        header_rule_spec(hs, HeaderRule::AddHeader { name, value }, ctx).len() == hs.len() + 1,
        header_rule_spec(hs, HeaderRule::AddHeader { name, value }, ctx).last() == (name@, value@),
        lookup(hs, other) is Some ==> lookup(
            header_rule_spec(hs, HeaderRule::AddHeader { name, value }, ctx),
            other,
        ) == lookup(hs, other),
{
    lemma_lookup_push(hs, name@, value@, other);
}

/// Echoing copies exactly: where the target name is not in the list, an
/// `EchoIf` rule leaves it absent if the request has no header of the source
/// name, and gives it the value of the request's header if it has one.
pub proof fn law_echo_if(hs: Headers, source: String, target: String, ctx: HeaderContext)
    requires
        lookup(hs, target@) is None,
    ensures
        lookup(header_rule_spec(hs, HeaderRule::EchoIf { source, target }, ctx), target@) == lookup(
            ctx.request(),
            source@,
        ),
{
    if let Some(v) = lookup(ctx.request(), source@) {
        lemma_lookup_push(hs, target@, v, target@);
    }
}

/// A conditional header is there exactly when the request has the header
/// it depends on: where the name is not in the list, an `AddHeaderIf` rule
/// gives it the constant if the request has a header called `present`, and
/// leaves it absent otherwise.
pub proof fn law_add_header_if(
    hs: Headers,
    present: String,
    name: String,
    value: String,
    ctx: HeaderContext,
)
    requires
        lookup(hs, name@) is None,
    ensures
        lookup(header_rule_spec(hs, HeaderRule::AddHeaderIf { present, name, value }, ctx), name@)
            == if lookup(ctx.request(), present@) is Some {
            Some(value@)
        } else {
            None
        },
{
    lemma_lookup_push(hs, name@, value@, name@);
}

} // verus!
