//! Association lists with string keys, and the finite maps they denote.
//!
//! Action tables and hint tables are carried as vectors of key/value
//! entries whose keys are unique.  The meaning of such a list is the map
//! built by inserting the entries in order, so a later entry for a key
//! overrides an earlier one.

use vstd::prelude::*;

verus! {

/// All keys in the entry list are distinct.
pub open spec fn unique_keys<V>(s: Seq<(Seq<char>, V)>) -> bool {
    forall|i: int, j: int| 0 <= i < j < s.len() ==> s[i].0 != s[j].0
}

/// Whether some entry carries the key `k`.
pub open spec fn has_key<V>(s: Seq<(Seq<char>, V)>, k: Seq<char>) -> bool {
    exists|i: int| 0 <= i < s.len() && s[i].0 == k
}

/// The finite map denoted by an entry list: entries are inserted in order,
/// so the last entry for a key wins.
pub open spec fn map_of_entries<V>(s: Seq<(Seq<char>, V)>) -> Map<Seq<char>, V>
    decreases s.len(),
{
    if s.len() == 0 {
        Map::empty()
    } else {
        map_of_entries(s.drop_last()).insert(s.last().0, s.last().1)
    }
}

/// The denoted map binds exactly the keys that occur in the list.
pub proof fn lemma_map_of_entries_dom<V>(s: Seq<(Seq<char>, V)>, k: Seq<char>)
    ensures
        map_of_entries(s).dom().contains(k) <==> has_key(s, k),
    decreases s.len(),
{
    if s.len() == 0 {
    } else {
        lemma_map_of_entries_dom(s.drop_last(), k);
        if s.last().0 == k {
            assert(s[s.len() - 1].0 == k);
        } else if map_of_entries(s).dom().contains(k) {
            let i = choose|i: int| 0 <= i < s.drop_last().len() && s.drop_last()[i].0 == k;
            assert(s[i].0 == k);
        } else if has_key(s, k) {
            let i = choose|i: int| 0 <= i < s.len() && s[i].0 == k;
            assert(i < s.len() - 1);
            assert(s.drop_last()[i].0 == k);
        }
    }
}

/// With unique keys, the entry that carries `k` gives its binding in the
/// denoted map.
pub proof fn lemma_map_of_entries_value<V>(s: Seq<(Seq<char>, V)>, i: int, k: Seq<char>)
    requires
        unique_keys(s),
        0 <= i < s.len(),
        s[i].0 == k,
    ensures
        map_of_entries(s).dom().contains(k),
        map_of_entries(s)[k] == s[i].1,
    decreases s.len(),
{
    if i == s.len() - 1 {
    } else {
        assert(unique_keys(s.drop_last())) by {
            assert(forall|i1: int, i2: int|
                0 <= i1 < i2 < s.drop_last().len() ==> s.drop_last()[i1].0 != s.drop_last()[i2].0);
        }
        assert(s.drop_last()[i] == s[i]);
        lemma_map_of_entries_value(s.drop_last(), i, k);
        assert(s.last().0 != k);
    }
}

/// Appending an entry inserts its binding into the denoted map.
pub proof fn lemma_map_of_entries_push<V>(s: Seq<(Seq<char>, V)>, k: Seq<char>, v: V)
    ensures
        map_of_entries(s.push((k, v))) == map_of_entries(s).insert(k, v),
{
    assert(s.push((k, v)).drop_last() =~= s);
    assert(s.push((k, v)).last() == (k, v));
}

/// Overwriting the entry that already carries `k` updates its binding and
/// leaves the rest of the denoted map unchanged.
pub proof fn lemma_map_of_entries_update<V>(s: Seq<(Seq<char>, V)>, j: int, k: Seq<char>, v: V)
    requires
        0 <= j < s.len(),
        s[j].0 == k,
        unique_keys(s),
    ensures
        map_of_entries(s.update(j, (k, v))) == map_of_entries(s).insert(k, v),
    decreases s.len(),
{
    let t = s.update(j, (k, v));
    if j == s.len() - 1 {
        assert(t.drop_last() =~= s.drop_last());
        assert(t.last() == (k, v));
        assert(map_of_entries(s.drop_last()).insert(k, v) =~= map_of_entries(
            s.drop_last(),
        ).insert(s.last().0, s.last().1).insert(k, v));
    } else {
        assert(t.drop_last() =~= s.drop_last().update(j, (k, v)));
        assert(s.drop_last()[j].0 == k);
        assert(unique_keys(s.drop_last())) by {
            assert(forall|i1: int, i2: int|
                0 <= i1 < i2 < s.drop_last().len() ==> s.drop_last()[i1].0 != s.drop_last()[i2].0);
        }
        lemma_map_of_entries_update(s.drop_last(), j, k, v);
        assert(t.last() == s.last());
        // The last entry's key differs from `k`, so the two inserts commute.
        assert(s.last().0 != k);
        assert(map_of_entries(s.drop_last()).insert(k, v).insert(s.last().0, s.last().1)
            =~= map_of_entries(s.drop_last()).insert(s.last().0, s.last().1).insert(k, v));
    }
}

} // verus!
