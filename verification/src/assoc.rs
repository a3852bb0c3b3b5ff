//! Ordered lists of named entries, as mathematical sequences of pairs.
//!
//! Both the members of a JSON object and the headers of a message are such
//! lists. A name is looked up by its first occurrence.

use vstd::prelude::*;

verus! {

/// A name as a sequence of characters.
pub type Name = Seq<char>;

/// The position of the first entry called `key`, if there is one.
pub open spec fn first_index<V>(ms: Seq<(Name, V)>, key: Name) -> Option<int>
    decreases ms.len(),
{
    if ms.len() == 0 {
        None
    } else {
        match first_index(ms.drop_last(), key) {
            Some(i) => Some(i),
            None => if ms.last().0 == key {
                Some(ms.len() - 1)
            } else {
                None
            },
        }
    }
}

/// The value of the first entry called `key`, if there is one.
pub open spec fn lookup<V>(ms: Seq<(Name, V)>, key: Name) -> Option<V> {
    match first_index(ms, key) {
        Some(i) => Some(ms[i].1),
        None => None,
    }
}

/// The list with `value` under `key`: in the place of the first entry of
/// that name where there is one, at the end otherwise.
pub open spec fn with_entry<V>(ms: Seq<(Name, V)>, key: Name, value: V) -> Seq<(Name, V)> {
    match first_index(ms, key) {
        Some(i) => ms.update(i, (key, value)),
        None => ms.push((key, value)),
    }
}

/// The list without any entry called `key`; the others keep their order.
pub open spec fn without_key<V>(ms: Seq<(Name, V)>, key: Name) -> Seq<(Name, V)>
    decreases ms.len(),
{
    if ms.len() == 0 {
        ms
    } else {
        let rest = without_key(ms.drop_last(), key);
        if ms.last().0 == key {
            rest
        } else {
            rest.push(ms.last())
        }
    }
}

/// `first_index` finds an entry of the name with none of that name before
/// it, and finds nothing only where no entry has the name.
pub proof fn lemma_first_index<V>(ms: Seq<(Name, V)>, key: Name)
    ensures
        match first_index(ms, key) {
            Some(i) => 0 <= i < ms.len() && ms[i].0 == key && forall|j: int|
                0 <= j < i ==> (#[trigger] ms[j]).0 != key,
            None => forall|j: int| 0 <= j < ms.len() ==> (#[trigger] ms[j]).0 != key,
        },
    decreases ms.len(),
{
    if ms.len() > 0 {
        let init = ms.drop_last();
        lemma_first_index(init, key);
        assert forall|j: int| 0 <= j < init.len() implies init[j] == #[trigger] ms[j] by {}
        match first_index(init, key) {
            Some(i) => {
                assert forall|j: int| 0 <= j < i implies (#[trigger] ms[j]).0 != key by {
                    assert(init[j].0 != key);
                }
            },
            None => {
                assert forall|j: int| 0 <= j < init.len() implies (#[trigger] ms[j]).0 != key by {
                    assert(init[j].0 != key);
                }
            },
        }
    }
}

/// An entry of the name with none of that name before it is the one that
/// `first_index` finds.
pub proof fn lemma_first_index_is<V>(ms: Seq<(Name, V)>, key: Name, i: int)
    requires
        0 <= i < ms.len(),
        ms[i].0 == key,
        forall|j: int| 0 <= j < i ==> (#[trigger] ms[j]).0 != key,
    ensures
        first_index(ms, key) == Some(i),
{
    lemma_first_index(ms, key);
    match first_index(ms, key) {
        Some(k) => {
            if k < i {
                assert(ms[k].0 != key);
            } else if i < k {
                assert(ms[i].0 != key);
            }
        },
        None => {
            assert(ms[i].0 != key);
        },
    }
}

/// Looking up after `with_entry`: the written name gives the new value,
/// every other name what it gave before.
pub proof fn lemma_lookup_with_entry<V>(ms: Seq<(Name, V)>, key: Name, value: V, other: Name)
    ensures
        lookup(with_entry(ms, key, value), other) == if other == key {
            Some(value)
        } else {
            lookup(ms, other)
        },
{
    let out = with_entry(ms, key, value);
    lemma_first_index(ms, key);
    lemma_first_index(ms, other);
    match first_index(ms, key) {
        Some(i) => {
            assert(out.len() == ms.len());
            if other == key {
                assert forall|j: int| 0 <= j < i implies (#[trigger] out[j]).0 != other by {
                    assert(ms[j].0 != key);
                }
                lemma_first_index_is(out, other, i);
            } else {
                match first_index(ms, other) {
                    Some(k) => {
                        assert forall|j: int| 0 <= j < k implies (#[trigger] out[j]).0
                            != other by {
                            assert(ms[j].0 != other);
                        }
                        lemma_first_index_is(out, other, k);
                    },
                    None => {
                        lemma_first_index(out, other);
                        if let Some(k) = first_index(out, other) {
                            assert(ms[k].0 != other);
                        }
                    },
                }
            }
        },
        None => {
            lemma_lookup_push(ms, key, value, other);
            if other == key {
                assert(first_index(ms, other) == first_index(ms, key));
            }
        },
    }
}

/// Appending an entry changes no lookup that already found something, and
/// gives the new value to a name that was absent.
pub proof fn lemma_lookup_push<V>(ms: Seq<(Name, V)>, key: Name, value: V, other: Name)
    ensures
        lookup(ms.push((key, value)), other) == match lookup(ms, other) {
            Some(v) => Some(v),
            None => if other == key {
                Some(value)
            } else {
                None
            },
        },
{
    let out = ms.push((key, value));
    assert(out.drop_last() =~= ms);
    lemma_first_index(ms, other);
}

/// Looking up after `without_key`: the removed name is absent, every other
/// name gives what it gave before.
pub proof fn lemma_lookup_without_key<V>(ms: Seq<(Name, V)>, key: Name, other: Name)
    ensures
        lookup(without_key(ms, key), other) == if other == key {
            None
        } else {
            lookup(ms, other)
        },
    decreases ms.len(),
{
    if ms.len() > 0 {
        let init = ms.drop_last();
        lemma_lookup_without_key(init, key, other);
        lemma_first_index(init, other);
        if ms.last().0 != key {
            lemma_lookup_push(without_key(init, key), ms.last().0, ms.last().1, other);
        }
    }
}

/// Removing a name from a list that ends in `e`: `e` goes if it has the
/// name, and stays last otherwise.
pub proof fn lemma_without_key_push<V>(ms: Seq<(Name, V)>, e: (Name, V), key: Name)
    ensures
        without_key(ms.push(e), key) == if e.0 == key {
            without_key(ms, key)
        } else {
            without_key(ms, key).push(e)
        },
{
    assert(ms.push(e).drop_last() =~= ms);
}

/// Writing an entry into a list that ends in `e`.
pub proof fn lemma_with_entry_push<V>(ms: Seq<(Name, V)>, e: (Name, V), key: Name, value: V)
    ensures
        with_entry(ms.push(e), key, value) == if first_index(ms, key) is Some {
            with_entry(ms, key, value).push(e)
        } else if e.0 == key {
            ms.push((key, value))
        } else {
            ms.push(e).push((key, value))
        },
{
    assert(ms.push(e).drop_last() =~= ms);
    lemma_first_index(ms, key);
    match first_index(ms, key) {
        Some(i) => {
            assert(ms.push(e).update(i, (key, value)) =~= ms.update(i, (key, value)).push(e));
        },
        None => {
            if e.0 == key {
                assert(ms.push(e).update(ms.len() as int, (key, value)) =~= ms.push((key, value)));
            }
        },
    }
}

/// Writing one name and removing another can be done in either order.
pub proof fn lemma_without_key_with_entry<V>(
    ms: Seq<(Name, V)>,
    key: Name,
    value: V,
    removed: Name,
)
    requires
        key != removed,
    ensures
        without_key(with_entry(ms, key, value), removed) == with_entry(
            without_key(ms, removed),
            key,
            value,
        ),
    decreases ms.len(),
{
    if ms.len() == 0 {
        lemma_without_key_push(ms, (key, value), removed);
    } else {
        let init = ms.drop_last();
        let e = ms.last();
        let w = without_key(init, removed);
        assert(ms =~= init.push(e));
        lemma_without_key_with_entry(init, key, value, removed);
        lemma_with_entry_push(init, e, key, value);
        lemma_without_key_push(init, e, removed);
        lemma_lookup_without_key(init, removed, key);
        if first_index(init, key) is Some {
            lemma_without_key_push(with_entry(init, key, value), e, removed);
            if e.0 != removed {
                lemma_with_entry_push(w, e, key, value);
            }
        } else if e.0 == key {
            lemma_without_key_push(init, (key, value), removed);
            lemma_with_entry_push(w, e, key, value);
        } else {
            lemma_without_key_push(init.push(e), (key, value), removed);
            if e.0 != removed {
                lemma_with_entry_push(w, e, key, value);
            }
        }
    }
}

/// Two names can be removed in either order.
pub proof fn lemma_without_key_commutes<V>(ms: Seq<(Name, V)>, a: Name, b: Name)
    ensures
        without_key(without_key(ms, a), b) == without_key(without_key(ms, b), a),
    decreases ms.len(),
{
    if ms.len() > 0 {
        let init = ms.drop_last();
        let e = ms.last();
        assert(ms =~= init.push(e));
        lemma_without_key_commutes(init, a, b);
        lemma_without_key_push(init, e, a);
        lemma_without_key_push(init, e, b);
        lemma_without_key_push(without_key(init, a), e, b);
        lemma_without_key_push(without_key(init, b), e, a);
    }
}

} // verus!
