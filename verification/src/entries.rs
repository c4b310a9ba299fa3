//! The mathematical model of a settings listing: a sequence of key/value pairs in which no key
//! occurs twice, and the mapping that such a sequence stands for.

use vstd::prelude::*;

verus! {

/// One setting: its key and its value.
pub type Entry = (Seq<char>, Seq<char>);

/// No key occurs at two places of `entries`.
pub open spec fn distinct_keys(entries: Seq<Entry>) -> bool {
    forall|i: int, j: int| 0 <= i < j < entries.len() ==> entries[i].0 != entries[j].0
}

/// Some entry of `entries` has the key `key`.
pub open spec fn has_key(entries: Seq<Entry>, key: Seq<char>) -> bool {
    exists|i: int| 0 <= i < entries.len() && #[trigger] entries[i].0 == key
}

/// The mapping that `entries` stands for: each key with its value, a later entry replacing an
/// earlier one of the same key.
pub open spec fn to_map(entries: Seq<Entry>) -> Map<Seq<char>, Seq<char>>
    decreases entries.len(),
{
    if entries.len() == 0 {
        Map::empty()
    } else {
        to_map(entries.drop_last()).insert(entries.last().0, entries.last().1)
    }
}

/// The keys of the mapping are the keys of the entries.
pub proof fn lemma_to_map_keys(entries: Seq<Entry>)
    ensures
        forall|key: Seq<char>| #[trigger] to_map(entries).contains_key(key) <==> has_key(entries, key),
        to_map(entries).dom().finite(),
    decreases entries.len(),
{
    if entries.len() > 0 {
        let front = entries.drop_last();
        lemma_to_map_keys(front);
        assert forall|key: Seq<char>| #[trigger]
            to_map(entries).contains_key(key) <==> has_key(entries, key) by {
            if has_key(entries, key) {
                let i = choose|i: int| 0 <= i < entries.len() && #[trigger] entries[i].0 == key;
                if i < entries.len() - 1 {
                    assert(front[i].0 == key);
                }
            }
            if has_key(front, key) {
                let i = choose|i: int| 0 <= i < front.len() && #[trigger] front[i].0 == key;
                assert(entries[i].0 == key);
            }
            if key == entries.last().0 {
                assert(entries[entries.len() - 1].0 == key);
            }
        }
    }
}

/// Where no key occurs twice, the mapping gives each entry's key that entry's value.
pub proof fn lemma_to_map_value(entries: Seq<Entry>, i: int)
    requires
        distinct_keys(entries),
        0 <= i < entries.len(),
    ensures
        to_map(entries).contains_key(entries[i].0),
        to_map(entries)[entries[i].0] == entries[i].1,
    decreases entries.len(),
{
    if i < entries.len() - 1 {
        let front = entries.drop_last();
        assert(front[i] == entries[i]);
        lemma_to_map_value(front, i);
    }
}

/// Taking one entry out keeps the keys distinct and removes that entry's key from the mapping.
pub proof fn lemma_remove_entry(entries: Seq<Entry>, i: int)
    requires
        distinct_keys(entries),
        0 <= i < entries.len(),
    ensures
        distinct_keys(entries.remove(i)),
        to_map(entries.remove(i)) == to_map(entries).remove(entries[i].0),
{
    let rest = entries.remove(i);
    let key = entries[i].0;
    assert forall|a: int, b: int| 0 <= a < b < rest.len() implies rest[a].0 != rest[b].0 by {
        let a0 = if a < i { a } else { a + 1 };
        let b0 = if b < i { b } else { b + 1 };
        assert(rest[a] == entries[a0] && rest[b] == entries[b0]);
    }
    lemma_to_map_keys(entries);
    lemma_to_map_keys(rest);
    let left = to_map(rest);
    let right = to_map(entries).remove(key);
    assert forall|k: Seq<char>| left.contains_key(k) <==> right.contains_key(k) by {
        if has_key(rest, k) {
            let a = choose|a: int| 0 <= a < rest.len() && #[trigger] rest[a].0 == k;
            let a0 = if a < i { a } else { a + 1 };
            assert(rest[a] == entries[a0]);
            assert(entries[a0].0 == k);
        }
        if k != key && has_key(entries, k) {
            let a0 = choose|a: int| 0 <= a < entries.len() && #[trigger] entries[a].0 == k;
            let a = if a0 < i { a0 } else { a0 - 1 };
            assert(rest[a] == entries[a0]);
            assert(rest[a].0 == k);
        }
    }
    assert forall|k: Seq<char>| left.contains_key(k) implies left[k] == right[k] by {
        let a = choose|a: int| 0 <= a < rest.len() && #[trigger] rest[a].0 == k;
        let a0 = if a < i { a } else { a + 1 };
        assert(rest[a] == entries[a0]);
        lemma_to_map_value(rest, a);
        lemma_to_map_value(entries, a0);
    }
    assert(left =~= right);
}

/// Two listings without a common key, one after the other, have distinct keys and stand for the
/// union of the two mappings.
pub proof fn lemma_concat_entries(first: Seq<Entry>, second: Seq<Entry>)
    requires
        distinct_keys(first),
        distinct_keys(second),
        to_map(first).dom().disjoint(to_map(second).dom()),
    ensures
        distinct_keys(first + second),
        to_map(first + second) == to_map(first).union_prefer_right(to_map(second)),
{
    let both = first + second;
    lemma_to_map_keys(first);
    lemma_to_map_keys(second);
    lemma_to_map_keys(both);
    assert forall|a: int, b: int| 0 <= a < b < both.len() implies both[a].0 != both[b].0 by {
        if a < first.len() && b >= first.len() {
            assert(first[a].0 == both[a].0);
            assert(second[b - first.len()].0 == both[b].0);
            assert(to_map(first).contains_key(both[a].0));
            assert(to_map(second).contains_key(both[b].0));
        }
    }
    let left = to_map(both);
    let right = to_map(first).union_prefer_right(to_map(second));
    assert forall|k: Seq<char>| left.contains_key(k) <==> right.contains_key(k) by {
        if has_key(both, k) {
            let a = choose|a: int| 0 <= a < both.len() && #[trigger] both[a].0 == k;
            if a < first.len() {
                assert(first[a].0 == k);
            } else {
                assert(second[a - first.len()].0 == k);
            }
        }
        if has_key(first, k) {
            let a = choose|a: int| 0 <= a < first.len() && #[trigger] first[a].0 == k;
            assert(both[a].0 == k);
        }
        if has_key(second, k) {
            let a = choose|a: int| 0 <= a < second.len() && #[trigger] second[a].0 == k;
            assert(both[a + first.len()].0 == k);
        }
    }
    assert forall|k: Seq<char>| left.contains_key(k) implies left[k] == right[k] by {
        let a = choose|a: int| 0 <= a < both.len() && #[trigger] both[a].0 == k;
        lemma_to_map_value(both, a);
        if a < first.len() {
            assert(first[a] == both[a]);
            lemma_to_map_value(first, a);
            assert(to_map(first).contains_key(k));
        } else {
            assert(second[a - first.len()] == both[a]);
            lemma_to_map_value(second, a - first.len());
        }
    }
    assert(left =~= right);
}

/// The listing after `key` is set to `value`: the entry of that key is replaced where it
/// stands, or a new entry is put at the end.
pub open spec fn put(entries: Seq<Entry>, key: Seq<char>, value: Seq<char>) -> Seq<Entry> {
    if has_key(entries, key) {
        entries.map_values(|e: Entry| if e.0 == key { (key, value) } else { e })
    } else {
        entries.push((key, value))
    }
}

/// Setting a key keeps the keys distinct and updates the mapping at that key alone.
pub proof fn lemma_put(entries: Seq<Entry>, key: Seq<char>, value: Seq<char>)
    requires
        distinct_keys(entries),
    ensures
        distinct_keys(put(entries, key, value)),
        to_map(put(entries, key, value)) == to_map(entries).insert(key, value),
{
    let after = put(entries, key, value);
    lemma_to_map_keys(entries);
    lemma_to_map_keys(after);
    assert forall|a: int, b: int| 0 <= a < b < after.len() implies after[a].0 != after[b].0 by {
        if has_key(entries, key) {
            assert(after[a].0 == entries[a].0 && after[b].0 == entries[b].0);
        } else if b == entries.len() {
            assert(entries[a].0 == after[a].0);
        }
    }
    let left = to_map(after);
    let right = to_map(entries).insert(key, value);
    assert forall|k: Seq<char>| left.contains_key(k) <==> right.contains_key(k) by {
        if has_key(after, k) {
            let a = choose|a: int| 0 <= a < after.len() && #[trigger] after[a].0 == k;
            if a < entries.len() {
                assert(entries[a].0 == k);
            }
        }
        if has_key(entries, k) {
            let a = choose|a: int| 0 <= a < entries.len() && #[trigger] entries[a].0 == k;
            assert(after[a].0 == k);
        }
        if k == key && !has_key(entries, key) {
            assert(after[entries.len() as int].0 == k);
        }
    }
    assert forall|k: Seq<char>| left.contains_key(k) implies left[k] == right[k] by {
        let a = choose|a: int| 0 <= a < after.len() && #[trigger] after[a].0 == k;
        lemma_to_map_value(after, a);
        if a < entries.len() {
            lemma_to_map_value(entries, a);
        }
    }
    assert(left =~= right);
}

/// Where no key occurs twice, the mapping has as many keys as the listing has entries.
pub proof fn lemma_to_map_len(entries: Seq<Entry>)
    requires
        distinct_keys(entries),
    ensures
        to_map(entries).dom().finite(),
        to_map(entries).dom().len() == entries.len(),
    decreases entries.len(),
{
    if entries.len() > 0 {
        let front = entries.drop_last();
        lemma_to_map_len(front);
        lemma_to_map_keys(front);
        if has_key(front, entries.last().0) {
            let a = choose|a: int| 0 <= a < front.len() && #[trigger] front[a].0 == entries.last().0;
            assert(entries[a].0 == entries[entries.len() - 1].0);
        }
        assert(to_map(entries).dom() =~= to_map(front).dom().insert(entries.last().0));
    }
}

} // verus!
