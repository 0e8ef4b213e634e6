use vstd::prelude::*;

use crate::strutil::str_eq;

verus! {

/// The value bound to `key` in an association list keyed by strings, by
/// first occurrence. This is the in-memory shape of the persisted
/// key/value tables.
pub open spec fn spec_assoc<V>(entries: Seq<(String, V)>, key: Seq<char>) -> Option<V>
    decreases entries.len(),
{
    if entries.len() == 0 {
        None
    } else if entries[0].0@ == key {
        Some(entries[0].1)
    } else {
        spec_assoc(entries.drop_first(), key)
    }
}

/// No key occurs twice.
pub open spec fn unique_keys<V>(entries: Seq<(String, V)>) -> bool {
    forall|i: int, j: int|
        0 <= i < j < entries.len() ==> (#[trigger] entries[i]).0@ != (#[trigger] entries[j]).0@
}

/// Skipping a prefix without the key leaves the binding unchanged.
pub proof fn lemma_assoc_skip<V>(entries: Seq<(String, V)>, key: Seq<char>, i: int)
    requires
        0 <= i <= entries.len(),
        forall|k: int| 0 <= k < i ==> (#[trigger] entries[k]).0@ != key,
    ensures
        spec_assoc(entries, key) == spec_assoc(entries.skip(i), key),
    decreases i,
{
    if i > 0 {
        assert(entries[0].0@ != key);
        assert(entries.drop_first().skip(i - 1) =~= entries.skip(i));
        lemma_assoc_skip(entries.drop_first(), key, i - 1);
    } else {
        assert(entries.skip(0) =~= entries);
    }
}

/// Replacing the first entry bound to a key rebinds that key and no other.
proof fn lemma_assoc_update<V>(entries: Seq<(String, V)>, j: int, p: (String, V), x: Seq<char>)
    requires
        0 <= j < entries.len(),
        p.0@ == entries[j].0@,
        forall|k: int| 0 <= k < j ==> (#[trigger] entries[k]).0@ != entries[j].0@,
    ensures
        spec_assoc(entries.update(j, p), x) == if x == entries[j].0@ {
            Some(p.1)
        } else {
            spec_assoc(entries, x)
        },
    decreases j,
{
    let s2 = entries.update(j, p);
    if j == 0 {
        assert(s2[0] == p);
        if x != entries[0].0@ {
            assert(s2.drop_first() =~= entries.drop_first());
        }
    } else {
        assert(s2[0] == entries[0]);
        assert(s2.drop_first() =~= entries.drop_first().update(j - 1, p));
        lemma_assoc_update(entries.drop_first(), j - 1, p, x);
    }
}

/// Appending an entry under a fresh key binds that key and no other.
proof fn lemma_assoc_push<V>(entries: Seq<(String, V)>, p: (String, V), x: Seq<char>)
    requires
        forall|k: int| 0 <= k < entries.len() ==> (#[trigger] entries[k]).0@ != p.0@,
    ensures
        spec_assoc(entries.push(p), x) == if x == p.0@ {
            Some(p.1)
        } else {
            spec_assoc(entries, x)
        },
    decreases entries.len(),
{
    let s2 = entries.push(p);
    if entries.len() == 0 {
        assert(s2[0] == p);
        assert(s2.drop_first() =~= Seq::<(String, V)>::empty());
    } else {
        assert(s2[0] == entries[0]);
        assert(s2.drop_first() =~= entries.drop_first().push(p));
        lemma_assoc_push(entries.drop_first(), p, x);
    }
}

/// Index of the first entry bound to `key`, if any.
pub fn find_key_index<V>(entries: &Vec<(String, V)>, key: &str) -> (r: Option<usize>)
    ensures
        match r {
            Some(j) => j < entries@.len() && entries@[j as int].0@ == key@ && (forall|k: int|
                0 <= k < j ==> (#[trigger] entries@[k]).0@ != key@),
            None => forall|k: int|
                0 <= k < entries@.len() ==> (#[trigger] entries@[k]).0@ != key@,
        },
{
    let mut i: usize = 0;
    while i < entries.len()
        invariant
            0 <= i <= entries@.len(),
            forall|k: int| 0 <= k < i ==> (#[trigger] entries@[k]).0@ != key@,
        decreases entries@.len() - i,
    {
        if str_eq(entries[i].0.as_str(), key) {
            return Some(i);
        }
        i = i + 1;
    }
    None
}

/// The stored value for `key`, by first occurrence.
pub fn assoc_get<'a, V>(entries: &'a Vec<(String, V)>, key: &str) -> (r: Option<&'a V>)
    ensures
        match spec_assoc(entries@, key@) {
            Some(v) => r matches Some(rv) && *rv == v,
            None => r is None,
        },
{
    match find_key_index(entries, key) {
        Some(j) => {
            proof {
                lemma_assoc_skip(entries@, key@, j as int);
                assert(entries@.skip(j as int)[0] == entries@[j as int]);
            }
            Some(&entries[j].1)
        },
        None => {
            proof {
                lemma_assoc_skip(entries@, key@, entries@.len() as int);
            }
            None
        },
    }
}

/// Binds `key` to `value`: the first existing binding is replaced, or a new
/// one is appended; every other key keeps its value, and unique keys stay
/// unique.
pub fn upsert<V>(entries: Vec<(String, V)>, key: &str, value: V) -> (r: Vec<(String, V)>)
    ensures
        spec_assoc(r@, key@) == Some(value),
        forall|x: Seq<char>|
            x != key@ ==> #[trigger] spec_assoc(r@, x) == spec_assoc(entries@, x),
        unique_keys(entries@) ==> unique_keys(r@),
        r@.len() <= entries@.len() + 1,
{
    let mut entries = entries;
    match find_key_index(&entries, key) {
        Some(j) => {
            let ghost s0 = entries@;
            let p: (String, V) = (key.to_owned(), value);
            entries[j] = p;
            proof {
                assert forall|x: Seq<char>| true implies #[trigger] spec_assoc(entries@, x) == (
                if x == s0[j as int].0@ {
                    Some(entries@[j as int].1)
                } else {
                    spec_assoc(s0, x)
                }) by {
                    lemma_assoc_update(s0, j as int, entries@[j as int], x);
                }
            }
            entries
        },
        None => {
            let ghost s0 = entries@;
            let p: (String, V) = (key.to_owned(), value);
            entries.push(p);
            proof {
                assert forall|x: Seq<char>| true implies #[trigger] spec_assoc(entries@, x) == (
                if x == key@ {
                    Some(entries@[entries@.len() - 1].1)
                } else {
                    spec_assoc(s0, x)
                }) by {
                    assert(entries@ =~= s0.push(entries@[entries@.len() - 1]));
                    lemma_assoc_push(s0, entries@[entries@.len() - 1], x);
                }
            }
            entries
        },
    }
}

} // verus!
