//! Entries keyed by name, kept in a `Vec` with no name twice, read as a map
//! from the name to the entry's view.

use vstd::prelude::*;
use crate::text::str_eq;

verus! {

/// The map a sequence of `(name, value)` entries describes; a later entry for
/// a name wins.
pub open spec fn keyed_map<T: View>(entries: Seq<(String, T)>) -> Map<Seq<char>, T::V>
    decreases entries.len(),
{
    if entries.len() == 0 {
        Map::empty()
    } else {
        keyed_map(entries.drop_last()).insert(entries.last().0@, entries.last().1@)
    }
}

/// Whether no name occurs twice among `entries`.
pub open spec fn keys_unique<T>(entries: Seq<(String, T)>) -> bool {
    forall|i: int, j: int|
        0 <= i < entries.len() && 0 <= j < entries.len() && i != j ==> (#[trigger] entries[i]).0@ != (#[trigger] entries[j]).0@
}

/// With unique names, the map holds exactly the names of the entries, each
/// mapped to its entry's view.
pub proof fn lemma_keyed_map<T: View>(entries: Seq<(String, T)>)
    requires
        keys_unique(entries),
    ensures
        forall|k: Seq<char>| #[trigger] keyed_map(entries).contains_key(k) <==> exists|i: int| 0 <= i < entries.len() && (#[trigger] entries[i]).0@ == k,
        forall|i: int| 0 <= i < entries.len() ==> keyed_map(entries)[(#[trigger] entries[i]).0@] == entries[i].1@,
    decreases entries.len(),
{
    if entries.len() > 0 {
        let prev = entries.drop_last();
        assert(keys_unique(prev)) by {
            assert forall|i: int, j: int|
                0 <= i < prev.len() && 0 <= j < prev.len() && i != j implies (#[trigger] prev[i]).0@ != (#[trigger] prev[j]).0@ by {
                assert(prev[i] == entries[i]);
                assert(prev[j] == entries[j]);
            }
        }
        lemma_keyed_map(prev);
        assert forall|k: Seq<char>| #[trigger] keyed_map(entries).contains_key(k) <==> exists|i: int| 0 <= i < entries.len() && (#[trigger] entries[i]).0@ == k by {
            if keyed_map(entries).contains_key(k) && k != entries.last().0@ {
                assert(keyed_map(prev).contains_key(k));
                let i = choose|i: int| 0 <= i < prev.len() && (#[trigger] prev[i]).0@ == k;
                assert(entries[i] == prev[i]);
            }
            if k == entries.last().0@ {
                assert(entries[entries.len() - 1].0@ == k);
            }
            if exists|i: int| 0 <= i < entries.len() && (#[trigger] entries[i]).0@ == k {
                let i = choose|i: int| 0 <= i < entries.len() && (#[trigger] entries[i]).0@ == k;
                if i < prev.len() {
                    assert(prev[i] == entries[i]);
                }
            }
        }
        assert forall|i: int| 0 <= i < entries.len() implies keyed_map(entries)[(#[trigger] entries[i]).0@] == entries[i].1@ by {
            if i < prev.len() {
                assert(prev[i] == entries[i]);
                assert(entries[i].0@ != entries[entries.len() - 1].0@);
            }
        }
    }
}

/// With unique names, a name no entry carries is not in the map.
pub proof fn lemma_absent<T: View>(entries: Seq<(String, T)>, key: Seq<char>)
    requires
        keys_unique(entries),
        forall|k: int| 0 <= k < entries.len() ==> (#[trigger] entries[k]).0@ != key,
    ensures
        !keyed_map(entries).contains_key(key),
{
    lemma_keyed_map(entries);
    if keyed_map(entries).contains_key(key) {
        let j = choose|j: int| 0 <= j < entries.len() && (#[trigger] entries[j]).0@ == key;
    }
}

/// Removing the entry at `i` removes its name from the map.
pub proof fn lemma_remove_at<T: View>(entries: Seq<(String, T)>, i: int)
    requires
        keys_unique(entries),
        0 <= i < entries.len(),
    ensures
        keys_unique(entries.remove(i)),
        keyed_map(entries.remove(i)) == keyed_map(entries).remove(entries[i].0@),
{
    let after = entries.remove(i);
    let name = entries[i].0@;
    lemma_keyed_map(entries);
    assert forall|x: int| 0 <= x < after.len() implies #[trigger] after[x] == entries[if x < i { x } else { x + 1 }] by {}
    assert(keys_unique(after)) by {
        assert forall|x: int, y: int|
            0 <= x < after.len() && 0 <= y < after.len() && x != y implies (#[trigger] after[x]).0@ != (#[trigger] after[y]).0@ by {
            let bx = if x < i { x } else { x + 1 };
            let by_ = if y < i { y } else { y + 1 };
            assert(after[x] == entries[bx]);
            assert(after[y] == entries[by_]);
        }
    }
    lemma_keyed_map(after);
    assert forall|k: Seq<char>| #[trigger] keyed_map(after).contains_key(k) <==> keyed_map(entries).remove(name).contains_key(k) by {
        if keyed_map(entries).contains_key(k) && k != name {
            let j = choose|j: int| 0 <= j < entries.len() && (#[trigger] entries[j]).0@ == k;
            assert(j != i);
            let aj = if j < i { j } else { j - 1 };
            assert(after[aj] == entries[j]);
        }
        if keyed_map(after).contains_key(k) {
            let j = choose|j: int| 0 <= j < after.len() && (#[trigger] after[j]).0@ == k;
            let bj = if j < i { j } else { j + 1 };
            assert(after[j] == entries[bj]);
            assert(entries[bj].0@ != entries[i].0@);
        }
    }
    assert forall|k: Seq<char>| #[trigger] keyed_map(after).contains_key(k) implies keyed_map(after)[k] == keyed_map(entries).remove(name)[k] by {
        let j = choose|j: int| 0 <= j < after.len() && (#[trigger] after[j]).0@ == k;
        let bj = if j < i { j } else { j + 1 };
        assert(after[j] == entries[bj]);
        assert(keyed_map(after)[after[j].0@] == after[j].1@);
        assert(keyed_map(entries)[entries[bj].0@] == entries[bj].1@);
    }
    assert(keyed_map(after) =~= keyed_map(entries).remove(name));
}

/// Appending an entry whose name is absent keeps the names unique.
pub proof fn lemma_push_new<T: View>(entries: Seq<(String, T)>, entry: (String, T))
    requires
        keys_unique(entries),
        !keyed_map(entries).contains_key(entry.0@),
    ensures
        keys_unique(entries.push(entry)),
        keyed_map(entries.push(entry)) == keyed_map(entries).insert(entry.0@, entry.1@),
{
    let after = entries.push(entry);
    lemma_keyed_map(entries);
    assert(after.drop_last() =~= entries);
    assert(keys_unique(after)) by {
        assert forall|x: int, y: int|
            0 <= x < after.len() && 0 <= y < after.len() && x != y implies (#[trigger] after[x]).0@ != (#[trigger] after[y]).0@ by {
            if x < entries.len() && y < entries.len() {
                assert(entries[x].0@ != entries[y].0@);
            } else if x < entries.len() {
                assert(after[x] == entries[x]);
                assert(keyed_map(entries).contains_key(entries[x].0@));
            } else {
                assert(after[y] == entries[y]);
                assert(keyed_map(entries).contains_key(entries[y].0@));
            }
        }
    }
}

/// The position of the entry named `key`, if any.
pub fn position<T>(entries: &Vec<(String, T)>, key: &str) -> (r: Option<usize>)
    ensures
        match r {
            Some(i) => i < entries@.len() && entries@[i as int].0@ == key@,
            None => forall|k: int| 0 <= k < entries@.len() ==> (#[trigger] entries@[k]).0@ != key@,
        },
{
    let mut i: usize = 0;
    while i < entries.len()
        invariant
            i <= entries@.len(),
            forall|k: int| 0 <= k < i ==> (#[trigger] entries@[k]).0@ != key@,
        decreases entries@.len() - i,
    {
        if str_eq(entries[i].0.as_str(), key) {
            return Some(i);
        }
        i = i + 1;
    }
    None
}

} // verus!
