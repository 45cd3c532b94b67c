//! Association lists keyed by text and kept in increasing key order: the model
//! of a `BTreeMap<String, _>`.
use vstd::prelude::*;

use crate::text::{lemma_text_less_irreflexive, lemma_text_less_total, lemma_text_less_transitive, text_less};

verus! {

/// Keys strictly increasing in code-point order.
pub open spec fn pairs_sorted<V>(s: Seq<(Seq<char>, V)>) -> bool {
    forall|i: int, j: int| 0 <= i < j < s.len() ==> text_less(#[trigger] s[i].0, #[trigger] s[j].0)
}

/// An index at which the list holds the key, if there is one.
pub open spec fn pairs_index<V>(s: Seq<(Seq<char>, V)>, k: Seq<char>) -> int {
    choose|i: int| 0 <= i < s.len() && s[i].0 == k
}

/// The map that an association list with distinct keys stands for.
pub open spec fn pairs_map<V>(s: Seq<(Seq<char>, V)>) -> Map<Seq<char>, V> {
    Map::new(
        |k: Seq<char>| exists|i: int| 0 <= i < s.len() && s[i].0 == k,
        |k: Seq<char>| s[pairs_index(s, k)].1,
    )
}

/// The map built by inserting the entries in order, a later entry replacing an
/// earlier one with the same key (as collecting into a `BTreeMap` does).
pub open spec fn pairs_fold<V>(s: Seq<(Seq<char>, V)>) -> Map<Seq<char>, V>
    decreases s.len(),
{
    if s.len() == 0 {
        Map::empty()
    } else {
        pairs_fold(s.drop_last()).insert(s.last().0, s.last().1)
    }
}

/// The map of an association list has finitely many keys.
pub proof fn lemma_pairs_map_finite<V>(s: Seq<(Seq<char>, V)>)
    ensures
        pairs_map(s).dom().finite(),
{
    let keys = Seq::new(s.len(), |i: int| s[i].0);
    vstd::seq_lib::seq_to_set_is_finite(keys);
    assert forall|k: Seq<char>| pairs_map(s).dom().contains(k) implies keys.to_set().contains(k) by {
        let i = choose|i: int| 0 <= i < s.len() && s[i].0 == k;
        assert(keys[i] == k);
    }
    vstd::set_lib::lemma_set_subset_finite(keys.to_set(), pairs_map(s).dom());
}

/// In a sorted list, the entry at `i` is what the map gives for its key.
pub proof fn lemma_pairs_map_at<V>(s: Seq<(Seq<char>, V)>, i: int)
    requires
        pairs_sorted(s),
        0 <= i < s.len(),
    ensures
        pairs_map(s).contains_key(s[i].0),
        pairs_map(s)[s[i].0] == s[i].1,
{
    let k = s[i].0;
    assert(0 <= i < s.len() && s[i].0 == k);
    let j = pairs_index(s, k);
    if j < i {
        assert(text_less(s[j].0, s[i].0));
        lemma_text_less_irreflexive(k);
    } else if i < j {
        assert(text_less(s[i].0, s[j].0));
        lemma_text_less_irreflexive(k);
    }
}

/// A key occurs at most once in a sorted list.
pub proof fn lemma_pairs_index_unique<V>(s: Seq<(Seq<char>, V)>, i: int, j: int)
    requires
        pairs_sorted(s),
        0 <= i < s.len(),
        0 <= j < s.len(),
        s[i].0 == s[j].0,
    ensures
        i == j,
{
    if i < j {
        assert(text_less(s[i].0, s[j].0));
        lemma_text_less_irreflexive(s[i].0);
    } else if j < i {
        assert(text_less(s[j].0, s[i].0));
        lemma_text_less_irreflexive(s[i].0);
    }
}

/// Inserting an entry at the place where its new key keeps the order.
pub proof fn lemma_pairs_insert<V>(s: Seq<(Seq<char>, V)>, p: int, k: Seq<char>, v: V)
    requires
        pairs_sorted(s),
        0 <= p <= s.len(),
        forall|j: int| 0 <= j < p ==> text_less(#[trigger] s[j].0, k),
        forall|j: int| p <= j < s.len() ==> text_less(k, #[trigger] s[j].0),
    ensures
        pairs_sorted(s.insert(p, (k, v))),
        pairs_map(s.insert(p, (k, v))) == pairs_map(s).insert(k, v),
{
    let t = s.insert(p, (k, v));
    assert forall|a: int, b: int| 0 <= a < b < t.len() implies text_less(#[trigger] t[a].0, #[trigger] t[b].0) by {
        if b < p {
            assert(t[a] == s[a] && t[b] == s[b]);
        } else if b == p {
            assert(t[a] == s[a]);
        } else if a < p {
            assert(t[a] == s[a] && t[b] == s[b - 1]);
            lemma_text_less_transitive(s[a].0, k, s[b - 1].0);
        } else if a == p {
            assert(t[b] == s[b - 1]);
        } else {
            assert(t[a] == s[a - 1] && t[b] == s[b - 1]);
        }
    }
    let m1 = pairs_map(t);
    let m2 = pairs_map(s).insert(k, v);
    assert forall|key: Seq<char>| m1.contains_key(key) <==> m2.contains_key(key) by {
        if m1.contains_key(key) {
            let i = choose|i: int| 0 <= i < t.len() && t[i].0 == key;
            if i < p {
                assert(s[i].0 == key);
            } else if i > p {
                assert(s[i - 1].0 == key);
            }
        }
        if pairs_map(s).contains_key(key) {
            let i = choose|i: int| 0 <= i < s.len() && s[i].0 == key;
            if i < p {
                assert(t[i].0 == key);
            } else {
                assert(t[i + 1].0 == key);
            }
        }
        if key == k {
            assert(t[p].0 == key);
        }
    }
    assert forall|key: Seq<char>| m1.contains_key(key) implies m1[key] == m2[key] by {
        if key == k {
            lemma_pairs_map_at(t, p);
        } else {
            let i = choose|i: int| 0 <= i < s.len() && s[i].0 == key;
            if i < p {
                lemma_pairs_map_at(t, i);
                lemma_pairs_map_at(s, i);
                assert(t[i] == s[i]);
            } else {
                lemma_pairs_map_at(t, i + 1);
                lemma_pairs_map_at(s, i);
                assert(t[i + 1] == s[i]);
            }
        }
    }
    assert(m1 =~= m2);
}

/// Replacing the value of an entry in place.
pub proof fn lemma_pairs_update<V>(s: Seq<(Seq<char>, V)>, p: int, v: V)
    requires
        pairs_sorted(s),
        0 <= p < s.len(),
    ensures
        pairs_sorted(s.update(p, (s[p].0, v))),
        pairs_map(s.update(p, (s[p].0, v))) == pairs_map(s).insert(s[p].0, v),
{
    let k = s[p].0;
    let t = s.update(p, (k, v));
    assert forall|a: int, b: int| 0 <= a < b < t.len() implies text_less(#[trigger] t[a].0, #[trigger] t[b].0) by {
        assert(t[a].0 == s[a].0 && t[b].0 == s[b].0);
    }
    let m1 = pairs_map(t);
    let m2 = pairs_map(s).insert(k, v);
    assert forall|key: Seq<char>| m1.contains_key(key) <==> m2.contains_key(key) by {
        if m1.contains_key(key) {
            let i = choose|i: int| 0 <= i < t.len() && t[i].0 == key;
            assert(s[i].0 == key);
        }
        if pairs_map(s).contains_key(key) {
            let i = choose|i: int| 0 <= i < s.len() && s[i].0 == key;
            assert(t[i].0 == key);
        }
        if key == k {
            assert(t[p].0 == key);
        }
    }
    assert forall|key: Seq<char>| m1.contains_key(key) implies m1[key] == m2[key] by {
        if key == k {
            lemma_pairs_map_at(t, p);
        } else {
            let i = choose|i: int| 0 <= i < s.len() && s[i].0 == key;
            lemma_pairs_map_at(t, i);
            lemma_pairs_map_at(s, i);
        }
    }
    assert(m1 =~= m2);
}

/// Removing the entry at `p`.
pub proof fn lemma_pairs_remove<V>(s: Seq<(Seq<char>, V)>, p: int)
    requires
        pairs_sorted(s),
        0 <= p < s.len(),
    ensures
        pairs_sorted(s.remove(p)),
        pairs_map(s.remove(p)) == pairs_map(s).remove(s[p].0),
{
    let k = s[p].0;
    let t = s.remove(p);
    assert forall|a: int, b: int| 0 <= a < b < t.len() implies text_less(#[trigger] t[a].0, #[trigger] t[b].0) by {
        if b < p {
            assert(t[a] == s[a] && t[b] == s[b]);
        } else if a < p {
            assert(t[a] == s[a] && t[b] == s[b + 1]);
        } else {
            assert(t[a] == s[a + 1] && t[b] == s[b + 1]);
        }
    }
    let m1 = pairs_map(t);
    let m2 = pairs_map(s).remove(k);
    assert forall|key: Seq<char>| m1.contains_key(key) <==> m2.contains_key(key) by {
        if m1.contains_key(key) {
            let i = choose|i: int| 0 <= i < t.len() && t[i].0 == key;
            if i < p {
                assert(s[i].0 == key);
                if key == k {
                    lemma_pairs_index_unique(s, i, p);
                }
            } else {
                assert(s[i + 1].0 == key);
                if key == k {
                    lemma_pairs_index_unique(s, i + 1, p);
                }
            }
        }
        if m2.contains_key(key) {
            let i = choose|i: int| 0 <= i < s.len() && s[i].0 == key;
            if i < p {
                assert(t[i].0 == key);
            } else {
                assert(t[i - 1].0 == key);
            }
        }
    }
    assert forall|key: Seq<char>| m1.contains_key(key) implies m1[key] == m2[key] by {
        let i = choose|i: int| 0 <= i < s.len() && s[i].0 == key;
        lemma_pairs_map_at(s, i);
        if i < p {
            lemma_pairs_map_at(t, i);
        } else {
            lemma_pairs_map_at(t, i - 1);
        }
    }
    assert(m1 =~= m2);
}

/// For a sorted list, inserting the entries in order builds the map it stands for.
pub proof fn lemma_pairs_fold_sorted<V>(s: Seq<(Seq<char>, V)>)
    requires
        pairs_sorted(s),
    ensures
        pairs_fold(s) == pairs_map(s),
    decreases s.len(),
{
    if s.len() == 0 {
        assert(pairs_map(s) =~= Map::<Seq<char>, V>::empty());
    } else {
        let init = s.drop_last();
        let n = s.len() - 1;
        assert(pairs_sorted(init));
        lemma_pairs_fold_sorted(init);
        assert(s =~= init.insert(n, s.last()));
        lemma_pairs_insert(init, n, s.last().0, s.last().1);
    }
}

/// The index of a key in a sorted list, or where it would go.
pub open spec fn slot_ok<V>(s: Seq<(Seq<char>, V)>, k: Seq<char>, p: int, found: bool) -> bool {
    &&& 0 <= p <= s.len()
    &&& forall|j: int| 0 <= j < p ==> text_less(#[trigger] s[j].0, k)
    &&& found ==> p < s.len() && s[p].0 == k
    &&& !found ==> forall|j: int| p <= j < s.len() ==> text_less(k, #[trigger] s[j].0)
}

/// The slot that a linear scan finds is the right one.
pub proof fn lemma_slot<V>(s: Seq<(Seq<char>, V)>, k: Seq<char>, p: int)
    requires
        pairs_sorted(s),
        0 <= p <= s.len(),
        forall|j: int| 0 <= j < p ==> text_less(#[trigger] s[j].0, k),
        p < s.len() ==> !text_less(s[p].0, k),
    ensures
        slot_ok(s, k, p, p < s.len() && s[p].0 == k),
{
    if p < s.len() && s[p].0 != k {
        lemma_text_less_total(s[p].0, k);
        assert forall|j: int| p <= j < s.len() implies text_less(k, #[trigger] s[j].0) by {
            if j > p {
                assert(text_less(s[p].0, s[j].0));
                lemma_text_less_transitive(k, s[p].0, s[j].0);
            }
        }
    }
}

/// When the key is absent, the map holds no entry for it.
pub proof fn lemma_slot_absent<V>(s: Seq<(Seq<char>, V)>, k: Seq<char>, p: int)
    requires
        pairs_sorted(s),
        slot_ok(s, k, p, false),
    ensures
        !pairs_map(s).contains_key(k),
{
    if pairs_map(s).contains_key(k) {
        let i = choose|i: int| 0 <= i < s.len() && s[i].0 == k;
        lemma_text_less_irreflexive(k);
        if i < p {
            assert(text_less(s[i].0, k));
        } else {
            assert(text_less(k, s[i].0));
        }
    }
}

} // verus!
