//! Walking a hash map in verified code.

use vstd::prelude::*;
use std::collections::HashMap;
use std::hash::Hash;
use vstd::std_specs::hash::obeys_key_model;
use vstd::std_specs::iter::IteratorSpec;

verus! {

/// Whether `keys` lists every key of `map` exactly once.
pub open spec fn lists_keys<K, V>(keys: Seq<K>, map: Map<K, V>) -> bool {
    keys.no_duplicates() && keys.to_set() == map.dom()
}

/// The keys of `map`, each once, in the order in which the map hands them out.
pub fn keys_of<K: Copy + Eq + Hash, V>(map: &HashMap<K, V>) -> (keys: Vec<K>)
    requires
        obeys_key_model::<K>(),
    ensures
        lists_keys(keys@, map@),
        keys@.len() == map@.len(),
{
    let mut keys: Vec<K> = Vec::new();
    let ghost all = map.keys().remaining();
    for key in it: map.keys()
        invariant
            it.seq() == all,
            keys@.len() == it.index(),
            forall|i: int| 0 <= i < keys@.len() ==> keys@[i] == *all[i],
    {
        keys.push(*key);
    }
    proof {
        assert(keys@ =~= all.unref());
    }
    keys
}

/// An element occurs in a sequence that is not empty if and only if it is
/// the first element or occurs in the rest.
pub proof fn lemma_contains_first_or_rest<K>(s: Seq<K>, x: K)
    requires
        s.len() > 0,
    ensures
        s.contains(x) <==> (x == s.first() || s.drop_first().contains(x)),
{
    if s.contains(x) {
        let j = choose|j: int| 0 <= j < s.len() && s[j] == x;
        if j > 0 {
            assert(s.drop_first()[j - 1] == x);
        }
    }
    if s.drop_first().contains(x) {
        let j = choose|j: int| 0 <= j < s.drop_first().len() && s.drop_first()[j] == x;
        assert(s[j + 1] == x);
    }
    assert(s[0] == s.first());
}

/// An element occurs in a sequence that is not empty if and only if it is
/// the last element or occurs before it.
pub proof fn lemma_contains_last_or_before<K>(s: Seq<K>, x: K)
    requires
        s.len() > 0,
    ensures
        s.contains(x) <==> (x == s.last() || s.drop_last().contains(x)),
{
    if s.contains(x) {
        let j = choose|j: int| 0 <= j < s.len() && s[j] == x;
        if j < s.len() - 1 {
            assert(s.drop_last()[j] == x);
        }
    }
    if s.drop_last().contains(x) {
        let j = choose|j: int| 0 <= j < s.drop_last().len() && s.drop_last()[j] == x;
        assert(s[j] == x);
    }
    assert(s[s.len() - 1] == s.last());
}

/// The first `i + 1` elements of a sequence are, as a set, its first `i`
/// elements and the element at `i`.
pub proof fn lemma_take_one_more<K>(s: Seq<K>, i: int)
    requires
        0 <= i < s.len(),
    ensures
        s.take(i + 1).to_set() == s.take(i).to_set().insert(s[i]),
{
    assert(s.take(i + 1).drop_last() =~= s.take(i));
    assert forall|k: K| s.take(i + 1).to_set().contains(k) <==> s.take(i).to_set().insert(
        s[i],
    ).contains(k) by {
        lemma_contains_last_or_before(s.take(i + 1), k);
    }
    assert(s.take(i + 1).to_set() =~= s.take(i).to_set().insert(s[i]));
}

} // verus!
