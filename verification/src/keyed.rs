use vstd::prelude::*;

verus! {

/// No key occurs twice among the entries.
pub open spec fn unique_keys<K, V>(entries: Seq<(K, V)>) -> bool {
    forall|i: int, j: int|
        0 <= i < j < entries.len() ==> (#[trigger] entries[i]).0 != (#[trigger] entries[j]).0
}

/// Some entry has the key.
pub open spec fn has_key<K, V>(entries: Seq<(K, V)>, key: K) -> bool {
    exists|i: int| 0 <= i < entries.len() && (#[trigger] entries[i]).0 == key
}

/// The place of an entry that has the key.
pub open spec fn place_of<K, V>(entries: Seq<(K, V)>, key: K) -> int {
    choose|i: int| 0 <= i < entries.len() && (#[trigger] entries[i]).0 == key
}

/// The map that a list of entries stands for.
pub open spec fn as_map<K, V>(entries: Seq<(K, V)>) -> Map<K, V> {
    Map::new(|key: K| has_key(entries, key), |key: K| entries[place_of(entries, key)].1)
}

/// The entry at a place is what the map holds under that entry's key.
pub proof fn lemma_entry_in_map<K, V>(entries: Seq<(K, V)>, i: int)
    requires
        unique_keys(entries),
        0 <= i < entries.len(),
    ensures
        as_map(entries).contains_key(entries[i].0),
        as_map(entries)[entries[i].0] == entries[i].1,
{
    let key = entries[i].0;
    assert(has_key(entries, key));
    let j = place_of(entries, key);
    assert(entries[j].0 == key);
    if j < i {
        assert(entries[j].0 != entries[i].0);
    } else if i < j {
        assert(entries[i].0 != entries[j].0);
    }
}

/// A key that no entry has is not in the map.
pub proof fn lemma_key_not_in_map<K, V>(entries: Seq<(K, V)>, key: K)
    requires
        forall|i: int| 0 <= i < entries.len() ==> (#[trigger] entries[i]).0 != key,
    ensures
        !as_map(entries).contains_key(key),
{
}

/// Appending an entry under a new key inserts it into the map.
pub proof fn lemma_push_inserts<K, V>(entries: Seq<(K, V)>, key: K, value: V)
    requires
        unique_keys(entries),
        !as_map(entries).contains_key(key),
    ensures
        unique_keys(entries.push((key, value))),
        as_map(entries.push((key, value))) == as_map(entries).insert(key, value),
{
    let longer = entries.push((key, value));
    let last = entries.len() as int;
    assert forall|i: int, j: int| 0 <= i < j < longer.len() implies (#[trigger] longer[i]).0
        != (#[trigger] longer[j]).0 by {
        if j == last {
            assert(longer[i] == entries[i]);
            if entries[i].0 == key {
                assert(has_key(entries, key));
            }
        } else {
            assert(longer[i] == entries[i]);
            assert(longer[j] == entries[j]);
        }
    }
    assert forall|k: K| #[trigger]
        as_map(longer).contains_key(k) == as_map(entries).insert(key, value).contains_key(k) by {
        if has_key(longer, k) {
            let i = place_of(longer, k);
            if i != last {
                assert(entries[i] == longer[i]);
                assert(has_key(entries, k));
            }
        }
        if k == key {
            assert(longer[last].0 == key);
        } else if has_key(entries, k) {
            let i = place_of(entries, k);
            assert(longer[i] == entries[i]);
        }
    }
    assert forall|k: K| #[trigger] as_map(longer).contains_key(k) implies as_map(longer)[k]
        == as_map(entries).insert(key, value)[k] by {
        if k == key {
            lemma_entry_in_map(longer, last);
        } else {
            let i = place_of(longer, k);
            assert(longer[i].0 == k);
            assert(i != last);
            assert(longer[i] == entries[i]);
            lemma_entry_in_map(longer, i);
            lemma_entry_in_map(entries, i);
        }
    }
    assert(as_map(longer) =~= as_map(entries).insert(key, value));
}

/// Replacing the value of an entry replaces it in the map.
pub proof fn lemma_update_inserts<K, V>(entries: Seq<(K, V)>, i: int, value: V)
    requires
        unique_keys(entries),
        0 <= i < entries.len(),
    ensures
        unique_keys(entries.update(i, (entries[i].0, value))),
        as_map(entries.update(i, (entries[i].0, value))) == as_map(entries).insert(
            entries[i].0,
            value,
        ),
{
    let key = entries[i].0;
    let changed = entries.update(i, (key, value));
    assert forall|a: int| 0 <= a < entries.len() implies (#[trigger] changed[a]).0
        == entries[a].0 by {}
    assert forall|a: int, b: int| 0 <= a < b < changed.len() implies (#[trigger] changed[a]).0
        != (#[trigger] changed[b]).0 by {
        assert(entries[a].0 != entries[b].0);
    }
    assert forall|k: K| #[trigger]
        as_map(changed).contains_key(k) == as_map(entries).insert(key, value).contains_key(k) by {
        if has_key(changed, k) {
            let a = place_of(changed, k);
            assert(changed[a].0 == entries[a].0);
            assert(has_key(entries, k));
        }
        if has_key(entries, k) {
            let a = place_of(entries, k);
            assert(changed[a].0 == entries[a].0);
            assert(has_key(changed, k));
        }
        if k == key {
            assert(changed[i].0 == key);
        }
    }
    assert forall|k: K| #[trigger] as_map(changed).contains_key(k) implies as_map(changed)[k]
        == as_map(entries).insert(key, value)[k] by {
        let a = place_of(changed, k);
        assert(changed[a].0 == k);
        lemma_entry_in_map(changed, a);
        if k != key {
            assert(a != i);
            assert(changed[a] == entries[a]);
            lemma_entry_in_map(entries, a);
        } else {
            if a != i {
                if a < i {
                    assert(changed[a].0 != changed[i].0);
                } else {
                    assert(changed[i].0 != changed[a].0);
                }
            }
        }
    }
    assert(as_map(changed) =~= as_map(entries).insert(key, value));
}

/// The place that an entry had before the entry at `gap` was taken out.
pub open spec fn before(place: int, gap: int) -> int {
    if place < gap {
        place
    } else {
        place + 1
    }
}

/// Taking an entry out takes its key out of the map.
pub proof fn lemma_remove_removes<K, V>(entries: Seq<(K, V)>, i: int)
    requires
        unique_keys(entries),
        0 <= i < entries.len(),
    ensures
        unique_keys(entries.remove(i)),
        as_map(entries.remove(i)) == as_map(entries).remove(entries[i].0),
{
    let key = entries[i].0;
    let shorter = entries.remove(i);
    assert forall|a: int| 0 <= a < shorter.len() implies #[trigger] shorter[a] == entries[before(
        a,
        i,
    )] by {}
    assert forall|a: int, b: int| 0 <= a < b < shorter.len() implies (#[trigger] shorter[a]).0
        != (#[trigger] shorter[b]).0 by {
        assert(entries[before(a, i)].0 != entries[before(b, i)].0);
    }
    assert forall|k: K| #[trigger]
        as_map(shorter).contains_key(k) == as_map(entries).remove(key).contains_key(k) by {
        if has_key(shorter, k) {
            let a = place_of(shorter, k);
            let a0 = before(a, i);
            assert(entries[a0].0 == k);
            assert(has_key(entries, k));
            if a0 < i {
                assert(entries[a0].0 != entries[i].0);
            } else {
                assert(entries[i].0 != entries[a0].0);
            }
        }
        if k != key && has_key(entries, k) {
            let a0 = place_of(entries, k);
            assert(a0 != i);
            let a = if a0 < i { a0 } else { a0 - 1 };
            assert(shorter[a] == entries[a0]);
            assert(has_key(shorter, k));
        }
    }
    assert forall|k: K| #[trigger] as_map(shorter).contains_key(k) implies as_map(shorter)[k]
        == as_map(entries).remove(key)[k] by {
        let a = place_of(shorter, k);
        let a0 = before(a, i);
        assert(shorter[a].0 == k);
        assert(shorter[a] == entries[a0]);
        lemma_entry_in_map(shorter, a);
        lemma_entry_in_map(entries, a0);
    }
    assert(as_map(shorter) =~= as_map(entries).remove(key));
}

} // verus!
