//! Lists of key/value entries in which no key occurs twice, read as maps.
use vstd::prelude::*;

verus! {

/// No key occurs at two places of the list.
pub open spec fn keys_distinct<K, V>(s: Seq<(K, V)>) -> bool {
    forall|i: int, j: int|
        0 <= i < s.len() && 0 <= j < s.len() && i != j ==> #[trigger] s[i].0 != #[trigger] s[j].0
}

/// Some entry of the list has the key.
pub open spec fn has_key<K, V>(s: Seq<(K, V)>, k: K) -> bool {
    exists|i: int| 0 <= i < s.len() && #[trigger] s[i].0 == k
}

/// A place of the list that holds the key.
pub open spec fn key_index<K, V>(s: Seq<(K, V)>, k: K) -> int {
    choose|i: int| 0 <= i < s.len() && #[trigger] s[i].0 == k
}

/// The map that the list stands for.
pub open spec fn entries_map<K, V>(s: Seq<(K, V)>) -> Map<K, V> {
    Map::new(|k: K| has_key(s, k), |k: K| s[key_index(s, k)].1)
}

/// An entry of a list without repeated keys is what the map holds for its key.
pub proof fn lemma_entry<K, V>(s: Seq<(K, V)>, i: int)
    requires
        keys_distinct(s),
        0 <= i < s.len(),
    ensures
        entries_map(s).contains_key(s[i].0),
        entries_map(s)[s[i].0] == s[i].1,
{
    assert(has_key(s, s[i].0));
    let j = key_index(s, s[i].0);
    assert(s[j].0 == s[i].0);
}

/// Appending an entry with a new key adds it to the map.
pub proof fn lemma_push<K, V>(s: Seq<(K, V)>, k: K, v: V)
    requires
        keys_distinct(s),
        !has_key(s, k),
    ensures
        keys_distinct(s.push((k, v))),
        entries_map(s.push((k, v))) =~= entries_map(s).insert(k, v),
{
    let t = s.push((k, v));
    assert forall|i: int, j: int|
        0 <= i < t.len() && 0 <= j < t.len() && i != j implies #[trigger] t[i].0 != #[trigger] t[j].0 by {
        if i < s.len() && j < s.len() {
            assert(t[i] == s[i] && t[j] == s[j]);
        } else if i < s.len() {
            assert(t[i] == s[i]);
        } else {
            assert(t[j] == s[j]);
        }
    }
    assert forall|x: K| #[trigger] entries_map(t).contains_key(x) <==> entries_map(s).insert(k, v).contains_key(x) by {
        if has_key(s, x) {
            let i = key_index(s, x);
            assert(t[i] == s[i]);
        }
        if x == k {
            assert(t[s.len() as int].0 == k);
        }
        if has_key(t, x) && x != k {
            let i = key_index(t, x);
            assert(i < s.len());
            assert(t[i] == s[i]);
        }
    }
    assert forall|x: K| entries_map(t).contains_key(x) implies #[trigger] entries_map(t)[x] == entries_map(s).insert(k, v)[x] by {
        if x == k {
            lemma_entry(t, s.len() as int);
        } else {
            let i = key_index(t, x);
            assert(i < s.len());
            assert(t[i] == s[i]);
            lemma_entry(t, i);
            lemma_entry(s, i);
        }
    }
}

/// Replacing the value at a place changes the map only at that place's key.
pub proof fn lemma_update<K, V>(s: Seq<(K, V)>, i: int, v: V)
    requires
        keys_distinct(s),
        0 <= i < s.len(),
    ensures
        keys_distinct(s.update(i, (s[i].0, v))),
        entries_map(s.update(i, (s[i].0, v))) =~= entries_map(s).insert(s[i].0, v),
{
    let k = s[i].0;
    let t = s.update(i, (k, v));
    assert forall|a: int, b: int|
        0 <= a < t.len() && 0 <= b < t.len() && a != b implies #[trigger] t[a].0 != #[trigger] t[b].0 by {
        assert(t[a].0 == s[a].0 && t[b].0 == s[b].0);
    }
    assert forall|x: K| #[trigger] entries_map(t).contains_key(x) <==> entries_map(s).insert(k, v).contains_key(x) by {
        if has_key(s, x) {
            let j = key_index(s, x);
            assert(t[j].0 == s[j].0);
        }
        if has_key(t, x) {
            let j = key_index(t, x);
            assert(t[j].0 == s[j].0);
        }
        if x == k {
            assert(t[i].0 == k);
        }
    }
    assert forall|x: K| entries_map(t).contains_key(x) implies #[trigger] entries_map(t)[x] == entries_map(s).insert(k, v)[x] by {
        let j = key_index(t, x);
        assert(t[j].0 == s[j].0);
        lemma_entry(t, j);
        if j != i {
            assert(t[j] == s[j]);
            lemma_entry(s, j);
        }
    }
}

/// Replacing the value at a place, whatever the new value.
pub proof fn lemma_update_any<K, V>(s: Seq<(K, V)>, i: int)
    requires
        keys_distinct(s),
        0 <= i < s.len(),
    ensures
        forall|v: V|
            keys_distinct(#[trigger] s.update(i, (s[i].0, v)))
                && entries_map(s.update(i, (s[i].0, v))) == entries_map(s).insert(s[i].0, v),
{
    assert forall|v: V|
        keys_distinct(#[trigger] s.update(i, (s[i].0, v)))
            && entries_map(s.update(i, (s[i].0, v))) == entries_map(s).insert(s[i].0, v) by {
        lemma_update(s, i, v);
    }
}

/// Removing the entry at a place removes its key from the map.
pub proof fn lemma_remove<K, V>(s: Seq<(K, V)>, i: int)
    requires
        keys_distinct(s),
        0 <= i < s.len(),
    ensures
        keys_distinct(s.remove(i)),
        entries_map(s.remove(i)) =~= entries_map(s).remove(s[i].0),
{
    let k = s[i].0;
    let t = s.remove(i);
    assert forall|a: int| 0 <= a < t.len() implies #[trigger] t[a] == (if a < i { s[a] } else { s[a + 1] }) by {}
    assert forall|a: int, b: int|
        0 <= a < t.len() && 0 <= b < t.len() && a != b implies #[trigger] t[a].0 != #[trigger] t[b].0 by {
        let a2 = if a < i { a } else { a + 1 };
        let b2 = if b < i { b } else { b + 1 };
        assert(t[a] == s[a2] && t[b] == s[b2]);
    }
    assert forall|x: K| #[trigger] entries_map(t).contains_key(x) <==> entries_map(s).remove(k).contains_key(x) by {
        if has_key(t, x) {
            let a = key_index(t, x);
            let a2 = if a < i { a } else { a + 1 };
            assert(t[a] == s[a2]);
            assert(s[a2].0 == x);
            assert(a2 != i);
        }
        if has_key(s, x) && x != k {
            let a2 = key_index(s, x);
            assert(a2 != i);
            let a = if a2 < i { a2 } else { a2 - 1 };
            assert(t[a] == s[a2]);
        }
    }
    assert forall|x: K| entries_map(t).contains_key(x) implies #[trigger] entries_map(t)[x] == entries_map(s).remove(k)[x] by {
        let a = key_index(t, x);
        let a2 = if a < i { a } else { a + 1 };
        assert(t[a] == s[a2]);
        lemma_entry(t, a);
        lemma_entry(s, a2);
    }
}

/// The keys of a list without repeated keys are as many as its entries.
pub proof fn lemma_entries_dom<K, V>(s: Seq<(K, V)>)
    requires
        keys_distinct(s),
    ensures
        entries_map(s).dom().finite(),
        entries_map(s).dom().len() == s.len(),
    decreases s.len(),
{
    if s.len() == 0 {
        assert(entries_map(s).dom() =~= Set::<K>::empty());
    } else {
        let t = s.drop_last();
        let e = s.last();
        assert(keys_distinct(t)) by {
            assert forall|i: int, j: int|
                0 <= i < t.len() && 0 <= j < t.len() && i != j implies #[trigger] t[i].0 != #[trigger] t[j].0 by {
                assert(t[i] == s[i] && t[j] == s[j]);
            }
        }
        assert(!has_key(t, e.0)) by {
            if has_key(t, e.0) {
                let i = key_index(t, e.0);
                assert(t[i] == s[i]);
                assert(s[s.len() - 1].0 == e.0);
            }
        }
        lemma_entries_dom(t);
        lemma_push(t, e.0, e.1);
        assert(t.push((e.0, e.1)) =~= s);
    }
}

} // verus!
