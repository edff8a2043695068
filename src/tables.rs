//! Keyed tables kept as lists of entries with distinct keys, and the map
//! that such a list stands for.
use vstd::prelude::*;

verus! {

/// The map that a list of entries stands for; a later entry overrides an
/// earlier one with the same key.
pub open spec fn map_of<K, V>(s: Seq<(K, V)>) -> Map<K, V>
    decreases s.len(),
{
    if s.len() == 0 {
        Map::empty()
    } else {
        map_of(s.drop_last()).insert(s.last().0, s.last().1)
    }
}

/// No key appears in two entries.
pub open spec fn distinct_keys<K, V>(s: Seq<(K, V)>) -> bool {
    forall|i: int, j: int| 0 <= i < j < s.len() ==> s[i].0 != s[j].0
}

/// A key has an entry exactly when the map contains it.
pub proof fn lemma_map_of_domain<K, V>(s: Seq<(K, V)>, k: K)
    ensures
        map_of(s).contains_key(k) <==> exists|i: int| 0 <= i < s.len() && s[i].0 == k,
    decreases s.len(),
{
    if s.len() > 0 {
        let rest = s.drop_last();
        lemma_map_of_domain(rest, k);
        if exists|i: int| 0 <= i < rest.len() && rest[i].0 == k {
            let i = choose|i: int| 0 <= i < rest.len() && rest[i].0 == k;
            assert(s[i] == rest[i]);
        }
        if exists|i: int| 0 <= i < s.len() && s[i].0 == k {
            let i = choose|i: int| 0 <= i < s.len() && s[i].0 == k;
            if i < s.len() - 1 {
                assert(rest[i] == s[i]);
            }
        }
    }
}

/// With distinct keys, the map gives each entry's value under its key.
pub proof fn lemma_map_of_entry<K, V>(s: Seq<(K, V)>, i: int)
    requires
        distinct_keys(s),
        0 <= i < s.len(),
    ensures
        map_of(s).contains_key(s[i].0),
        map_of(s)[s[i].0] == s[i].1,
    decreases s.len(),
{
    if i < s.len() - 1 {
        let rest = s.drop_last();
        assert(rest[i] == s[i]);
        lemma_map_of_entry(rest, i);
    }
}

/// With distinct keys, replacing the value of entry `i` replaces the value
/// of its key.
pub proof fn lemma_map_of_update<K, V>(s: Seq<(K, V)>, i: int, v: V)
    requires
        distinct_keys(s),
        0 <= i < s.len(),
    ensures
        distinct_keys(s.update(i, (s[i].0, v))),
        map_of(s.update(i, (s[i].0, v))) == map_of(s).insert(s[i].0, v),
    decreases s.len(),
{
    let t = s.update(i, (s[i].0, v));
    let rest = s.drop_last();
    if i < s.len() - 1 {
        assert(t.drop_last() =~= rest.update(i, (rest[i].0, v)));
        lemma_map_of_update(rest, i, v);
        assert(s.last().0 != s[i].0);
        assert(map_of(t) =~= map_of(s).insert(s[i].0, v));
    } else {
        assert(t.drop_last() =~= rest);
        assert(map_of(t) =~= map_of(s).insert(s[i].0, v));
    }
}

/// Appending an entry with a new key keeps the keys distinct.
pub proof fn lemma_push_new_key<K, V>(s: Seq<(K, V)>, k: K, v: V)
    requires
        distinct_keys(s),
        forall|i: int| 0 <= i < s.len() ==> s[i].0 != k,
    ensures
        distinct_keys(s.push((k, v))),
        map_of(s.push((k, v))) == map_of(s).insert(k, v),
{
    assert(s.push((k, v)).drop_last() =~= s);
}

} // verus!
