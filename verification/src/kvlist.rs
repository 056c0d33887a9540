//! Association lists keyed by strings.
//!
//! JSON objects, property maps and result maps are all held as vectors of
//! `(String, V)` entries. Lookup finds the first entry with a given key;
//! under unique keys the entry order is immaterial, which
//! [`lemma_lookup_same_entries`] states.

use vstd::prelude::*;

use crate::strutil::str_eq;

verus! {

/// The value of the first entry of `entries` whose key reads `key`.
pub open spec fn spec_lookup<V>(entries: Seq<(String, V)>, key: Seq<char>) -> Option<V>
    decreases entries.len(),
{
    if entries.len() == 0 {
        None
    } else if entries[0].0@ == key {
        Some(entries[0].1)
    } else {
        spec_lookup(entries.drop_first(), key)
    }
}

/// No two entries share a key.
pub open spec fn unique_keys<V>(entries: Seq<(String, V)>) -> bool {
    forall|i: int, j: int|
        0 <= i < j < entries.len() ==> (#[trigger] entries[i]).0@ != (#[trigger] entries[j]).0@
}

/// The keys of the entries, in entry order.
pub open spec fn spec_keys<V>(entries: Seq<(String, V)>) -> Seq<Seq<char>> {
    entries.map_values(|e: (String, V)| e.0@)
}

/// Finds the value stored under `key`.
pub fn lookup<'a, V>(entries: &'a Vec<(String, V)>, key: &str) -> (r: Option<&'a V>)
    ensures
        match r {
            Some(v) => spec_lookup(entries@, key@) == Some(*v),
            None => spec_lookup(entries@, key@) is None,
        },
{
    let n = entries.len();
    let mut i: usize = 0;
    proof {
        assert(entries@.skip(0) =~= entries@);
    }
    while i < n
        invariant
            n == entries@.len(),
            0 <= i <= n,
            spec_lookup(entries@, key@) == spec_lookup(entries@.skip(i as int), key@),
        decreases n - i,
    {
        proof {
            assert(entries@.skip(i as int)[0] == entries@[i as int]);
        }
        if str_eq(entries[i].0.as_str(), key) {
            return Some(&entries[i].1);
        }
        proof {
            assert(entries@.skip(i as int).drop_first() =~= entries@.skip(i + 1));
        }
        i += 1;
    }
    proof {
        assert(entries@.skip(n as int) =~= Seq::<(String, V)>::empty());
    }
    None
}

/// Finds the position of the first entry with the given key.
pub fn find_key_index<V>(entries: &Vec<(String, V)>, key: &str) -> (r: Option<usize>)
    ensures
        match r {
            Some(i) => i < entries@.len() && entries@[i as int].0@ == key@ && forall|j: int|
                0 <= j < i ==> (#[trigger] entries@[j]).0@ != key@,
            None => forall|j: int| 0 <= j < entries@.len() ==> (#[trigger] entries@[j]).0@ != key@,
        },
{
    let n = entries.len();
    let mut i: usize = 0;
    while i < n
        invariant
            n == entries@.len(),
            0 <= i <= n,
            forall|j: int| 0 <= j < i ==> (#[trigger] entries@[j]).0@ != key@,
        decreases n - i,
    {
        if str_eq(entries[i].0.as_str(), key) {
            return Some(i);
        }
        i += 1;
    }
    None
}

/// Tells whether an entry with the given key exists.
pub fn contains_key<V>(entries: &Vec<(String, V)>, key: &str) -> (r: bool)
    ensures
        r == (spec_lookup(entries@, key@) is Some),
{
    lookup(entries, key).is_some()
}

/// What a lookup result means entry-wise, under unique keys: a hit is the
/// value of some entry carrying the key, a miss means no entry carries it.
pub proof fn lemma_lookup_characterization<V>(entries: Seq<(String, V)>, key: Seq<char>)
    requires
        unique_keys(entries),
    ensures
        match spec_lookup(entries, key) {
            Some(v) => exists|i: int|
                0 <= i < entries.len() && (#[trigger] entries[i]).0@ == key && entries[i].1 == v,
            None => forall|i: int| 0 <= i < entries.len() ==> (#[trigger] entries[i]).0@ != key,
        },
    decreases entries.len(),
{
    if entries.len() == 0 {
    } else if entries[0].0@ == key {
        assert(entries[0].0@ == key && entries[0].1 == spec_lookup(entries, key)->Some_0);
    } else {
        let rest = entries.drop_first();
        assert forall|i: int, j: int| 0 <= i < j < rest.len() implies (#[trigger] rest[i]).0@ != (
        #[trigger] rest[j]).0@ by {
            assert(rest[i] == entries[i + 1]);
            assert(rest[j] == entries[j + 1]);
        }
        lemma_lookup_characterization(rest, key);
        match spec_lookup(entries, key) {
            Some(v) => {
                let i = choose|i: int|
                    0 <= i < rest.len() && (#[trigger] rest[i]).0@ == key && rest[i].1 == v;
                assert(entries[i + 1] == rest[i]);
            },
            None => {
                assert forall|i: int| 0 <= i < entries.len() implies (#[trigger] entries[i]).0@
                    != key by {
                    if i > 0 {
                        assert(rest[i - 1] == entries[i]);
                    }
                }
            },
        }
    }
}

/// Under unique keys, an entry carrying `key` is the one a lookup returns.
pub proof fn lemma_lookup_entry<V>(entries: Seq<(String, V)>, key: Seq<char>, i: int)
    requires
        unique_keys(entries),
        0 <= i < entries.len(),
        entries[i].0@ == key,
    ensures
        spec_lookup(entries, key) == Some(entries[i].1),
{
    lemma_lookup_characterization(entries, key);
    match spec_lookup(entries, key) {
        Some(v) => {
            let j = choose|j: int|
                0 <= j < entries.len() && (#[trigger] entries[j]).0@ == key && entries[j].1 == v;
            if i < j {
                assert(entries[i].0@ != entries[j].0@);
            } else if j < i {
                assert(entries[j].0@ != entries[i].0@);
            }
        },
        None => {
            assert(entries[i].0@ != key);
        },
    }
}

/// Two entry lists that hold the same entries, each with unique keys, answer
/// every lookup alike: the order in which entries were written does not
/// matter.
pub proof fn lemma_lookup_same_entries<V>(
    e1: Seq<(String, V)>,
    e2: Seq<(String, V)>,
    key: Seq<char>,
)
    requires
        unique_keys(e1),
        unique_keys(e2),
        e1.to_multiset() == e2.to_multiset(),
    ensures
        spec_lookup(e1, key) == spec_lookup(e2, key),
{
    broadcast use vstd::seq_lib::group_to_multiset_ensures;

    lemma_lookup_characterization(e1, key);
    lemma_lookup_characterization(e2, key);
    match spec_lookup(e1, key) {
        Some(v) => {
            let i = choose|i: int|
                0 <= i < e1.len() && (#[trigger] e1[i]).0@ == key && e1[i].1 == v;
            let p = e1[i];
            assert(e1.contains(p));
            assert(e1.to_multiset().count(p) > 0);
            assert(e2.to_multiset().count(p) > 0);
            assert(e2.contains(p));
            let j = choose|j: int| 0 <= j < e2.len() && e2[j] == p;
            lemma_lookup_entry(e2, key, j);
        },
        None => {
            match spec_lookup(e2, key) {
                Some(v) => {
                    let j = choose|j: int|
                        0 <= j < e2.len() && (#[trigger] e2[j]).0@ == key && e2[j].1 == v;
                    let p = e2[j];
                    assert(e2.contains(p));
                    assert(e2.to_multiset().count(p) > 0);
                    assert(e1.to_multiset().count(p) > 0);
                    assert(e1.contains(p));
                    let i = choose|i: int| 0 <= i < e1.len() && e1[i] == p;
                    assert(e1[i].0@ != key);
                    assert(false);
                },
                None => {},
            }
        },
    }
}

} // verus!
