//! Association vectors with string keys, viewed as maps: the model behind
//! the in-memory store.

use vstd::prelude::*;

verus! {

/// The map an association vector stands for: later entries win, though the
/// store keeps its keys unique.
pub open spec fn kv_view_map<V: View>(entries: Seq<(String, V)>) -> Map<Seq<char>, V::V>
    decreases entries.len(),
{
    if entries.len() == 0 {
        Map::empty()
    } else {
        kv_view_map(entries.drop_last()).insert(entries.last().0@, entries.last().1@)
    }
}

/// No two entries share a key.
pub open spec fn kv_distinct_keys<V: View>(entries: Seq<(String, V)>) -> bool {
    forall|i: int, j: int| 0 <= i < j < entries.len() ==> entries[i].0@ != entries[j].0@
}

/// A key is in the map exactly when some entry carries it.
pub proof fn lemma_kv_contains<V: View>(entries: Seq<(String, V)>, k: Seq<char>)
    ensures
        kv_view_map(entries).contains_key(k) <==> exists|i: int|
            0 <= i < entries.len() && (#[trigger] entries[i]).0@ == k,
    decreases entries.len(),
{
    if entries.len() > 0 {
        lemma_kv_contains(entries.drop_last(), k);
        if entries.last().0@ == k {
            assert(entries[entries.len() - 1].0@ == k);
        } else if kv_view_map(entries).contains_key(k) {
            let i = choose|i: int|
                0 <= i < entries.drop_last().len() && (#[trigger] entries.drop_last()[i]).0@ == k;
            assert(entries[i].0@ == k);
        } else {
            assert forall|i: int| 0 <= i < entries.len() implies (#[trigger] entries[i]).0@
                != k by {
                if i < entries.len() - 1 {
                    assert(entries.drop_last()[i] == entries[i]);
                }
            }
        }
    }
}

/// Appending an entry inserts its view.
pub proof fn lemma_kv_push<V: View>(entries: Seq<(String, V)>, key: String, v: V)
    ensures
        kv_view_map(entries.push((key, v))) == kv_view_map(entries).insert(key@, v@),
{
    assert(entries.push((key, v)).drop_last() =~= entries);
    assert(entries.push((key, v)).last() == (key, v));
}

/// Replacing the entry at `i`, keys distinct, updates the map at its key.
pub proof fn lemma_kv_update<V: View>(entries: Seq<(String, V)>, i: int, key: String, v: V)
    requires
        kv_distinct_keys(entries),
        0 <= i < entries.len(),
        entries[i].0@ == key@,
    ensures
        kv_view_map(entries.update(i, (key, v))) == kv_view_map(entries).insert(key@, v@),
    decreases entries.len(),
{
    let updated = entries.update(i, (key, v));
    if i == entries.len() - 1 {
        assert(updated.drop_last() =~= entries.drop_last());
        assert(updated.last() == (key, v));
        assert(kv_view_map(updated) =~= kv_view_map(entries).insert(key@, v@));
    } else {
        assert(updated.drop_last() =~= entries.drop_last().update(i, (key, v)));
        assert(updated.last() == entries.last());
        assert(kv_distinct_keys(entries.drop_last())) by {
            assert forall|a: int, b: int| 0 <= a < b < entries.drop_last().len() implies
                entries.drop_last()[a].0@ != entries.drop_last()[b].0@ by {
                assert(entries.drop_last()[a] == entries[a]);
                assert(entries.drop_last()[b] == entries[b]);
            }
        };
        assert(entries.drop_last()[i] == entries[i]);
        lemma_kv_update(entries.drop_last(), i, key, v);
        assert(entries.last().0@ != key@) by {
            assert(entries[i].0@ == key@);
            assert(entries[entries.len() - 1].0@ != entries[i].0@);
        };
        assert(kv_view_map(updated) =~= kv_view_map(entries).insert(key@, v@));
    }
}

/// With distinct keys, the map reads back the entry at `i`.
pub proof fn lemma_kv_get<V: View>(entries: Seq<(String, V)>, i: int)
    requires
        kv_distinct_keys(entries),
        0 <= i < entries.len(),
    ensures
        kv_view_map(entries).contains_key(entries[i].0@),
        kv_view_map(entries)[entries[i].0@] == entries[i].1@,
    decreases entries.len(),
{
    if i == entries.len() - 1 {
        assert(entries.last() == entries[i]);
    } else {
        assert(kv_distinct_keys(entries.drop_last())) by {
            assert forall|a: int, b: int| 0 <= a < b < entries.drop_last().len() implies
                entries.drop_last()[a].0@ != entries.drop_last()[b].0@ by {
                assert(entries.drop_last()[a] == entries[a]);
                assert(entries.drop_last()[b] == entries[b]);
            }
        };
        assert(entries.drop_last()[i] == entries[i]);
        lemma_kv_get(entries.drop_last(), i);
        assert(entries.last().0@ != entries[i].0@) by {
            assert(entries[entries.len() - 1].0@ != entries[i].0@);
        };
    }
}

} // verus!
