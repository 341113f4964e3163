//! Keyed collections held as vectors of entries with distinct keys, seen
//! as maps, and sums over sequences of integers.

use vstd::prelude::*;

verus! {

/// An entry of a keyed collection: it carries its own key.
pub trait Keyed: View {
    /// The key of this entry.
    spec fn key_of(&self) -> Seq<u8>;

    /// Whether this entry's key is `k`.
    fn has_key_bytes(&self, k: &Vec<u8>) -> (r: bool)
        ensures
            r == (self.key_of() == k@),
    ;

    /// The bytes of this entry's key.
    fn key_bytes(&self) -> (r: &Vec<u8>)
        ensures
            r@ == self.key_of(),
    ;
}

/// Some entry of `s` has key `k`.
pub open spec fn has_key<E: Keyed>(s: Seq<E>, k: Seq<u8>) -> bool {
    exists|i: int| 0 <= i < s.len() && #[trigger] s[i].key_of() == k
}

/// An index of `s` whose entry has key `k`, where there is one.
pub open spec fn index_of_key<E: Keyed>(s: Seq<E>, k: Seq<u8>) -> int {
    choose|i: int| 0 <= i < s.len() && #[trigger] s[i].key_of() == k
}

/// No key occurs twice in `s`.
pub open spec fn keys_unique<E: Keyed>(s: Seq<E>) -> bool {
    forall|i: int, j: int|
        0 <= i < s.len() && 0 <= j < s.len() && #[trigger] s[i].key_of() == #[trigger] s[j].key_of()
            ==> i == j
}

/// The map from each key of `s` to the view of its entry.
pub open spec fn entries_map<E: Keyed>(s: Seq<E>) -> Map<Seq<u8>, E::V> {
    Map::new(|k: Seq<u8>| has_key(s, k), |k: Seq<u8>| s[index_of_key(s, k)]@)
}

pub proof fn lemma_entries_empty<E: Keyed>(s: Seq<E>)
    requires
        s.len() == 0,
    ensures
        entries_map(s) == Map::<Seq<u8>, E::V>::empty(),
        keys_unique(s),
{
    assert(entries_map(s) =~= Map::<Seq<u8>, E::V>::empty());
}

/// The entry at index `i` is what the map holds for its key.
pub proof fn lemma_entries_lookup<E: Keyed>(s: Seq<E>, i: int)
    requires
        keys_unique(s),
        0 <= i < s.len(),
    ensures
        entries_map(s).contains_key(s[i].key_of()),
        entries_map(s)[s[i].key_of()] == s[i]@,
{
    let k = s[i].key_of();
    assert(has_key(s, k));
    let j = index_of_key(s, k);
    assert(s[j].key_of() == k);
}

/// Replacing an entry by one with the same key updates the map at that key.
pub proof fn lemma_entries_update<E: Keyed>(s: Seq<E>, i: int, e: E)
    requires
        keys_unique(s),
        0 <= i < s.len(),
        e.key_of() == s[i].key_of(),
    ensures
        keys_unique(s.update(i, e)),
        entries_map(s.update(i, e)) == entries_map(s).insert(e.key_of(), e@),
{
    let t = s.update(i, e);
    assert forall|a: int, b: int|
        0 <= a < t.len() && 0 <= b < t.len() && #[trigger] t[a].key_of() == #[trigger] t[b].key_of()
            implies a == b by {
        assert(t[a].key_of() == s[a].key_of());
        assert(t[b].key_of() == s[b].key_of());
    }
    let m = entries_map(s).insert(e.key_of(), e@);
    assert forall|k: Seq<u8>| #[trigger] has_key(t, k) == m.contains_key(k) by {
        if has_key(t, k) {
            let j = choose|j: int| 0 <= j < t.len() && #[trigger] t[j].key_of() == k;
            if j != i {
                assert(s[j].key_of() == k);
            }
        }
        if has_key(s, k) {
            let j = choose|j: int| 0 <= j < s.len() && #[trigger] s[j].key_of() == k;
            assert(t[j].key_of() == k);
        }
        if k == e.key_of() {
            assert(t[i].key_of() == k);
        }
    }
    assert forall|k: Seq<u8>| #[trigger] has_key(t, k) implies t[index_of_key(t, k)]@ == m[k] by {
        let j = index_of_key(t, k);
        assert(t[j].key_of() == k);
        if k == e.key_of() {
            assert(t[i].key_of() == k);
            assert(j == i);
        } else {
            assert(j != i);
            assert(s[j].key_of() == k);
            assert(has_key(s, k));
            let j2 = index_of_key(s, k);
            assert(s[j2].key_of() == k);
            assert(j2 == j);
        }
    }
    assert(entries_map(t) =~= m);
}

/// Appending an entry with a new key inserts it into the map.
pub proof fn lemma_entries_push<E: Keyed>(s: Seq<E>, e: E)
    requires
        keys_unique(s),
        !has_key(s, e.key_of()),
    ensures
        keys_unique(s.push(e)),
        entries_map(s.push(e)) == entries_map(s).insert(e.key_of(), e@),
{
    let t = s.push(e);
    let n = s.len() as int;
    assert forall|a: int, b: int|
        0 <= a < t.len() && 0 <= b < t.len() && #[trigger] t[a].key_of() == #[trigger] t[b].key_of()
            implies a == b by {
        if a < n && b < n {
            assert(t[a] == s[a]);
            assert(t[b] == s[b]);
        } else if a < n {
            assert(t[a] == s[a]);
            assert(s[a].key_of() == e.key_of());
        } else if b < n {
            assert(t[b] == s[b]);
            assert(s[b].key_of() == e.key_of());
        }
    }
    let m = entries_map(s).insert(e.key_of(), e@);
    assert forall|k: Seq<u8>| #[trigger] has_key(t, k) == m.contains_key(k) by {
        if has_key(t, k) {
            let j = choose|j: int| 0 <= j < t.len() && #[trigger] t[j].key_of() == k;
            if j < n {
                assert(t[j] == s[j]);
                assert(s[j].key_of() == k);
            }
        }
        if has_key(s, k) {
            let j = choose|j: int| 0 <= j < s.len() && #[trigger] s[j].key_of() == k;
            assert(t[j] == s[j]);
            assert(t[j].key_of() == k);
        }
        if k == e.key_of() {
            assert(t[n].key_of() == k);
        }
    }
    assert forall|k: Seq<u8>| #[trigger] has_key(t, k) implies t[index_of_key(t, k)]@ == m[k] by {
        let j = index_of_key(t, k);
        assert(t[j].key_of() == k);
        if k == e.key_of() {
            assert(t[n].key_of() == k);
            assert(j == n);
        } else {
            assert(j < n);
            assert(t[j] == s[j]);
            assert(s[j].key_of() == k);
            assert(has_key(s, k));
            let j2 = index_of_key(s, k);
            assert(s[j2].key_of() == k);
            assert(t[j2] == s[j2]);
            assert(j2 == j);
        }
    }
    assert(entries_map(t) =~= m);
}

/// Finds the index of the entry with key `k`.
pub fn find_key<E: Keyed>(entries: &Vec<E>, k: &Vec<u8>) -> (r: Option<usize>)
    ensures
        match r {
            Some(i) => i < entries.len() && entries@[i as int].key_of() == k@,
            None => !has_key(entries@, k@),
        },
{
    let n = entries.len();
    let mut i: usize = 0;
    while i < n
        invariant
            n == entries.len(),
            i <= n,
            forall|j: int| 0 <= j < i ==> #[trigger] entries@[j].key_of() != k@,
        decreases n - i,
    {
        if entries[i].has_key_bytes(k) {
            return Some(i);
        }
        i = i + 1;
    }
    None
}

/// Whether no key occurs twice.
pub fn entries_unique<E: Keyed>(entries: &Vec<E>) -> (r: bool)
    ensures
        r == keys_unique(entries@),
{
    let n = entries.len();
    let mut i: usize = 0;
    while i < n
        invariant
            n == entries.len(),
            i <= n,
            forall|a: int, b: int|
                0 <= a < i && 0 <= b < i && #[trigger] entries@[a].key_of()
                    == #[trigger] entries@[b].key_of() ==> a == b,
        decreases n - i,
    {
        let mut j: usize = 0;
        while j < i
            invariant
                n == entries.len(),
                i < n,
                j <= i,
                forall|a: int, b: int|
                    0 <= a < i && 0 <= b < i && #[trigger] entries@[a].key_of()
                        == #[trigger] entries@[b].key_of() ==> a == b,
                forall|b: int| 0 <= b < j ==> #[trigger] entries@[b].key_of() != entries@[i as int].key_of(),
            decreases i - j,
        {
            if crate::address::bytes_equal(entries[i].key_bytes(), entries[j].key_bytes()) {
                assert(entries@[i as int].key_of() == entries@[j as int].key_of());
                return false;
            }
            j = j + 1;
        }
        i = i + 1;
    }
    true
}

// ---------------------------------------------------------------------
// Sums
// ---------------------------------------------------------------------

/// The sum of a sequence of integers.
pub open spec fn sum(s: Seq<int>) -> int
    decreases s.len(),
{
    if s.len() == 0 {
        0
    } else {
        sum(s.drop_last()) + s.last()
    }
}

/// Every element is at least zero.
pub open spec fn all_nonneg(s: Seq<int>) -> bool {
    forall|i: int| 0 <= i < s.len() ==> 0 <= #[trigger] s[i]
}

pub proof fn lemma_sum_push(s: Seq<int>, v: int)
    ensures
        sum(s.push(v)) == sum(s) + v,
{
    assert(s.push(v).drop_last() =~= s);
}

pub proof fn lemma_sum_update(s: Seq<int>, i: int, v: int)
    requires
        0 <= i < s.len(),
    ensures
        sum(s.update(i, v)) == sum(s) - s[i] + v,
    decreases s.len(),
{
    let t = s.update(i, v);
    if i == s.len() - 1 {
        assert(t.drop_last() =~= s.drop_last());
    } else {
        assert(t.drop_last() =~= s.drop_last().update(i, v));
        lemma_sum_update(s.drop_last(), i, v);
    }
}

/// A sum of non-negative elements bounds each element and each prefix sum.
pub proof fn lemma_sum_bounds(s: Seq<int>, i: int)
    requires
        all_nonneg(s),
        0 <= i <= s.len(),
    ensures
        0 <= sum(s.take(i)) <= sum(s),
        i < s.len() ==> s[i] <= sum(s),
    decreases s.len(),
{
    if s.len() == 0 {
        assert(s.take(i) =~= s);
    } else if i == s.len() {
        assert(s.take(i) =~= s);
        lemma_sum_bounds(s.drop_last(), i - 1);
        assert(s.drop_last().take(i - 1) =~= s.drop_last().take(i - 1));
    } else {
        lemma_sum_bounds(s.drop_last(), i);
        assert(s.drop_last().take(i) =~= s.take(i));
        if i < s.len() - 1 {
        } else {
            lemma_sum_bounds(s.drop_last(), 0);
        }
    }
}

/// The prefix sum grows by the next element.
pub proof fn lemma_sum_take_next(s: Seq<int>, i: int)
    requires
        0 <= i < s.len(),
    ensures
        sum(s.take(i + 1)) == sum(s.take(i)) + s[i],
{
    assert(s.take(i + 1).drop_last() =~= s.take(i));
}

} // verus!
