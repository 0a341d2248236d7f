use vstd::prelude::*;
use crate::text::{str_eq, Duplicate};
use crate::text_set::{lemma_insert, seq_insert, StrSet};

verus! {

/// The keys of an association list, in order.
pub open spec fn assoc_keys<T>(m: Seq<(Seq<char>, T)>) -> Seq<Seq<char>> {
    m.map_values(|e: (Seq<char>, T)| e.0)
}

/// Whether some entry of `m` has the key `k`.
pub open spec fn assoc_has<T>(m: Seq<(Seq<char>, T)>, k: Seq<char>) -> bool {
    exists|i: int| 0 <= i < m.len() && (#[trigger] m[i]).0 == k
}

/// The value of the last entry of `m` whose key is `k`.
pub open spec fn assoc_get<T>(m: Seq<(Seq<char>, T)>, k: Seq<char>) -> Option<T>
    decreases m.len(),
{
    if m.len() == 0 {
        None
    } else if m.last().0 == k {
        Some(m.last().1)
    } else {
        assoc_get(m.drop_last(), k)
    }
}

/// No key occurs in two entries of `m`.
pub open spec fn assoc_distinct<T>(m: Seq<(Seq<char>, T)>) -> bool {
    forall|i: int, j: int| 0 <= i < j < m.len() ==> (#[trigger] m[i]).0 != (#[trigger] m[j]).0
}

/// `m` with the value of key `k` set to `v`: in place where `m` has the key, else
/// as a new last entry.
pub open spec fn assoc_put<T>(m: Seq<(Seq<char>, T)>, k: Seq<char>, v: T) -> Seq<(Seq<char>, T)> {
    if assoc_has(m, k) {
        m.map_values(
            |e: (Seq<char>, T)|
                if e.0 == k {
                    (k, v)
                } else {
                    e
                },
        )
    } else {
        m.push((k, v))
    }
}

/// The entries of `a`, followed in order by those entries of `b` whose key `a` lacks.
pub open spec fn assoc_union<T>(a: Seq<(Seq<char>, T)>, b: Seq<(Seq<char>, T)>) -> Seq<
    (Seq<char>, T),
>
    decreases b.len(),
{
    if b.len() == 0 {
        a
    } else {
        let u = assoc_union(a, b.drop_last());
        if assoc_has(u, b.last().0) {
            u
        } else {
            u.push(b.last())
        }
    }
}

/// The entries read in order into an empty list with `assoc_put`: a later entry
/// replaces the value of an earlier one with the same key.
pub open spec fn assoc_collect<T>(entries: Seq<(Seq<char>, T)>) -> Seq<(Seq<char>, T)>
    decreases entries.len(),
{
    if entries.len() == 0 {
        entries
    } else {
        assoc_put(assoc_collect(entries.drop_last()), entries.last().0, entries.last().1)
    }
}

/// An association list as a map.
pub open spec fn assoc_map<T>(m: Seq<(Seq<char>, T)>) -> Map<Seq<char>, T> {
    Map::new(|k: Seq<char>| assoc_has(m, k), |k: Seq<char>| assoc_get(m, k).unwrap())
}

/// `assoc_get` finds a value exactly for the keys that occur, and with distinct keys
/// it is the value of the one entry with that key.
pub proof fn lemma_get<T>(m: Seq<(Seq<char>, T)>, k: Seq<char>)
    ensures
        assoc_get(m, k) is Some <==> assoc_has(m, k),
        assoc_distinct(m) ==> forall|i: int|
            0 <= i < m.len() && (#[trigger] m[i]).0 == k ==> assoc_get(m, k) == Some(m[i].1),
    decreases m.len(),
{
    if m.len() > 0 {
        let front = m.drop_last();
        lemma_get(front, k);
        if m.last().0 == k {
            assert(m[m.len() - 1].0 == k);
        } else {
            if assoc_has(m, k) {
                let i = choose|i: int| 0 <= i < m.len() && (#[trigger] m[i]).0 == k;
                assert(front[i].0 == k);
            }
            if assoc_has(front, k) {
                let i = choose|i: int| 0 <= i < front.len() && (#[trigger] front[i]).0 == k;
                assert(m[i].0 == k);
            }
        }
        if assoc_distinct(m) {
            assert forall|i: int| 0 <= i < m.len() && (#[trigger] m[i]).0 == k implies assoc_get(
                m,
                k,
            ) == Some(m[i].1) by {
                if i < m.len() - 1 {
                    assert(front[i].0 == k);
                    assert(m[i].0 != m[m.len() - 1].0);
                }
            }
        }
    }
}

/// What `assoc_put` does to the keys and to the values.
pub proof fn lemma_put<T>(m: Seq<(Seq<char>, T)>, k: Seq<char>, v: T)
    ensures
        assoc_keys(assoc_put(m, k, v)) == seq_insert(assoc_keys(m), k),
        forall|q: Seq<char>| #[trigger]
            assoc_has(assoc_put(m, k, v), q) <==> assoc_has(m, q) || q == k,
        assoc_distinct(m) ==> assoc_distinct(assoc_put(m, k, v)),
        assoc_distinct(m) ==> forall|q: Seq<char>| #[trigger]
            assoc_get(assoc_put(m, k, v), q) == if q == k {
                Some(v)
            } else {
                assoc_get(m, q)
            },
        assoc_put(m, k, v).len() == if assoc_has(m, k) {
            m.len()
        } else {
            m.len() + 1
        },
{
    let r = assoc_put(m, k, v);
    lemma_keys(m);
    lemma_keys(r);
    if assoc_has(m, k) {
        assert(assoc_keys(r) =~= assoc_keys(m));
    } else {
        assert(assoc_keys(r) =~= assoc_keys(m).push(k));
    }
    lemma_insert(assoc_keys(m), k);
    assert(assoc_keys(m).contains(k) <==> assoc_has(m, k));
    assert(assoc_keys(r) == seq_insert(assoc_keys(m), k));
    assert forall|q: Seq<char>| #[trigger] assoc_has(r, q) <==> assoc_has(m, q) || q == k by {
        assert(assoc_keys(r).contains(q) <==> assoc_has(r, q));
        assert(assoc_keys(m).contains(q) <==> assoc_has(m, q));
        assert(seq_insert(assoc_keys(m), k).contains(q) <==> assoc_keys(m).contains(q) || q == k);
    }
    if assoc_distinct(m) {
        assert(assoc_keys(m).no_duplicates());
        assert(assoc_keys(r).no_duplicates());
        assert forall|q: Seq<char>| #[trigger] assoc_get(r, q) == if q == k {
            Some(v)
        } else {
            assoc_get(m, q)
        } by {
            lemma_get(r, q);
            lemma_get(m, q);
            if assoc_has(r, q) {
                let i = choose|i: int| 0 <= i < r.len() && (#[trigger] r[i]).0 == q;
                assert(assoc_get(r, q) == Some(r[i].1));
                if q != k {
                    assert(m[i].0 == q);
                    assert(assoc_get(m, q) == Some(m[i].1));
                }
            }
        }
    }
}

/// The keys of a list, entry by entry, and when they hold a key.
pub proof fn lemma_keys<T>(m: Seq<(Seq<char>, T)>)
    ensures
        assoc_keys(m).len() == m.len(),
        forall|i: int| 0 <= i < m.len() ==> #[trigger] assoc_keys(m)[i] == m[i].0,
        forall|k: Seq<char>| #[trigger] assoc_keys(m).contains(k) <==> assoc_has(m, k),
        assoc_keys(m).no_duplicates() <==> assoc_distinct(m),
{
    let keys = assoc_keys(m);
    assert forall|k: Seq<char>| #[trigger] keys.contains(k) <==> assoc_has(m, k) by {
        if keys.contains(k) {
            let i = choose|i: int| 0 <= i < keys.len() && keys[i] == k;
            assert(m[i].0 == k);
        }
        if assoc_has(m, k) {
            let i = choose|i: int| 0 <= i < m.len() && (#[trigger] m[i]).0 == k;
            assert(keys[i] == k);
        }
    }
    if keys.no_duplicates() {
        assert forall|i: int, j: int| 0 <= i < j < m.len() implies (#[trigger] m[i]).0 != (
        #[trigger] m[j]).0 by {
            assert(keys[i] != keys[j]);
        }
    }
    if assoc_distinct(m) {
        assert forall|i: int, j: int| 0 <= i < keys.len() && 0 <= j < keys.len() && i
            != j implies keys[i] != keys[j] by {
            if i < j {
                assert(m[i].0 != m[j].0);
            } else {
                assert(m[j].0 != m[i].0);
            }
        }
    }
}

/// What a union has, which value it gives each key, and that its keys stay distinct.
pub proof fn lemma_assoc_union<T>(a: Seq<(Seq<char>, T)>, b: Seq<(Seq<char>, T)>)
    ensures
        forall|k: Seq<char>| #[trigger]
            assoc_has(assoc_union(a, b), k) <==> assoc_has(a, k) || assoc_has(b, k),
        assoc_distinct(a) ==> assoc_distinct(assoc_union(a, b)),
        assoc_distinct(a) && assoc_distinct(b) ==> forall|k: Seq<char>| #[trigger]
            assoc_get(assoc_union(a, b), k) == if assoc_has(a, k) {
                assoc_get(a, k)
            } else {
                assoc_get(b, k)
            },
        a.len() <= assoc_union(a, b).len(),
        assoc_union(a, b).subrange(0, a.len() as int) == a,
    decreases b.len(),
{
    let u = assoc_union(a, b);
    if b.len() == 0 {
        assert(u.subrange(0, a.len() as int) =~= a);
        assert forall|k: Seq<char>| #[trigger] assoc_get(u, k) == if assoc_has(a, k) {
            assoc_get(a, k)
        } else {
            assoc_get(b, k)
        } by {
            lemma_get(a, k);
        }
    } else {
        let front = b.drop_last();
        let inner = assoc_union(a, front);
        let last = b.last();
        lemma_assoc_union(a, front);
        assert(u.subrange(0, a.len() as int) =~= inner.subrange(0, a.len() as int));
        assert forall|k: Seq<char>| #[trigger] assoc_has(u, k) <==> assoc_has(a, k) || assoc_has(
            b,
            k,
        ) by {
            if assoc_has(b, k) {
                let i = choose|i: int| 0 <= i < b.len() && (#[trigger] b[i]).0 == k;
                if i < front.len() {
                    assert(front[i].0 == k);
                }
            }
            if assoc_has(front, k) {
                let i = choose|i: int| 0 <= i < front.len() && (#[trigger] front[i]).0 == k;
                assert(b[i].0 == k);
            }
            assert(b[b.len() - 1] == last);
            if !assoc_has(inner, last.0) {
                if assoc_has(u, k) {
                    let i = choose|i: int| 0 <= i < u.len() && (#[trigger] u[i]).0 == k;
                    if i < inner.len() {
                        assert(inner[i].0 == k);
                    }
                }
                if assoc_has(inner, k) {
                    let i = choose|i: int| 0 <= i < inner.len() && (#[trigger] inner[i]).0 == k;
                    assert(u[i].0 == k);
                }
                assert(u[u.len() - 1].0 == last.0);
            }
        }
        if assoc_distinct(a) {
            if !assoc_has(inner, last.0) {
                assert forall|i: int, j: int| 0 <= i < j < u.len() implies (#[trigger] u[i]).0 != (
                #[trigger] u[j]).0 by {
                    if j < inner.len() {
                        assert(inner[i].0 != inner[j].0);
                    } else {
                        assert(inner[i].0 == u[i].0);
                    }
                }
            }
        }
        if assoc_distinct(a) && assoc_distinct(b) {
            assert(assoc_distinct(front)) by {
                assert forall|i: int, j: int| 0 <= i < j < front.len() implies (
                #[trigger] front[i]).0 != (#[trigger] front[j]).0 by {
                    assert(b[i].0 != b[j].0);
                }
            }
            assert forall|k: Seq<char>| #[trigger] assoc_get(u, k) == if assoc_has(a, k) {
                assoc_get(a, k)
            } else {
                assoc_get(b, k)
            } by {
                lemma_get(front, k);
                lemma_get(inner, k);
                assert(assoc_has(inner, k) <==> assoc_has(a, k) || assoc_has(front, k));
                assert(assoc_get(inner, k) == if assoc_has(a, k) {
                    assoc_get(a, k)
                } else {
                    assoc_get(front, k)
                });
                assert(b.drop_last() == front && b.last() == last);
                if assoc_has(inner, last.0) {
                    assert(u == inner);
                    if last.0 == k && !assoc_has(a, k) {
                        let i = choose|i: int|
                            0 <= i < front.len() && (#[trigger] front[i]).0 == k;
                        assert(b[i].0 != b[b.len() - 1].0);
                    }
                } else {
                    assert(u.drop_last() =~= inner);
                    assert(u.last() == last);
                }
            }
        }
    }
}

/// As maps, a union is the map of `b` overridden by the map of `a`.
pub proof fn lemma_assoc_union_map<T>(a: Seq<(Seq<char>, T)>, b: Seq<(Seq<char>, T)>)
    requires
        assoc_distinct(a),
        assoc_distinct(b),
    ensures
        assoc_map(assoc_union(a, b)) == assoc_map(b).union_prefer_right(assoc_map(a)),
{
    lemma_assoc_union(a, b);
    let left = assoc_map(assoc_union(a, b));
    let right = assoc_map(b).union_prefer_right(assoc_map(a));
    assert forall|k: Seq<char>| left.dom().contains(k) <==> right.dom().contains(k) by {
        assert(assoc_has(assoc_union(a, b), k) <==> assoc_has(a, k) || assoc_has(b, k));
    }
    assert forall|k: Seq<char>| #[trigger] left.dom().contains(k) implies left[k] == right[k] by {
        assert(assoc_get(assoc_union(a, b), k) == if assoc_has(a, k) {
            assoc_get(a, k)
        } else {
            assoc_get(b, k)
        });
    }
    assert(left =~= right);
}

/// A union with a list whose keys are all there already changes nothing.
pub proof fn lemma_assoc_union_absorbs<T>(a: Seq<(Seq<char>, T)>, b: Seq<(Seq<char>, T)>)
    requires
        forall|i: int| 0 <= i < b.len() ==> assoc_has(a, (#[trigger] b[i]).0),
    ensures
        assoc_union(a, b) == a,
    decreases b.len(),
{
    if b.len() > 0 {
        let front = b.drop_last();
        assert forall|i: int| 0 <= i < front.len() implies assoc_has(a, (#[trigger] front[i]).0) by {
            assert(front[i] == b[i]);
        }
        lemma_assoc_union_absorbs(a, front);
        assert(assoc_has(a, b[b.len() - 1].0));
    }
}

/// A union of a list with itself changes nothing.
pub proof fn lemma_assoc_union_idempotent<T>(a: Seq<(Seq<char>, T)>)
    ensures
        assoc_union(a, a) == a,
{
    lemma_assoc_union_absorbs(a, a);
}

/// An ordered map from strings to values: no key occurs twice, and the entries keep
/// the order in which their keys were first added.
#[derive(Debug, PartialEq, Eq)]
pub struct StrMap<V: View> {
    entries: Vec<(String, V)>,
}

/// The key text and the value's view of every entry, in order.
pub open spec fn entry_views<V: View>(entries: Seq<(String, V)>) -> Seq<(Seq<char>, V::V)> {
    entries.map_values(|e: (String, V)| (e.0@, e.1@))
}

impl<V: View> View for StrMap<V> {
    type V = Seq<(Seq<char>, V::V)>;

    closed spec fn view(&self) -> Seq<(Seq<char>, V::V)> {
        entry_views(self.entries@)
    }
}

impl<V: View> StrMap<V> {
    #[verifier::type_invariant]
    spec fn distinct(&self) -> bool {
        assoc_distinct(entry_views(self.entries@))
    }

    /// The entries as a mathematical map.
    pub open spec fn map(&self) -> Map<Seq<char>, V::V> {
        assoc_map(self@)
    }

    /// The empty map.
    pub fn new() -> (m: StrMap<V>)
        ensures
            m@ == Seq::<(Seq<char>, V::V)>::empty(),
    {
        let m = StrMap { entries: Vec::new() };
        assert(entry_views(m.entries@) =~= Seq::<(Seq<char>, V::V)>::empty());
        m
    }

    /// The number of entries.
    pub fn len(&self) -> (n: usize)
        ensures
            n == self@.len(),
            assoc_distinct(self@),
    {
        proof {
            use_type_invariant(self);
        }
        self.entries.len()
    }

    /// Whether there is no entry.
    pub fn is_empty(&self) -> (b: bool)
        ensures
            b == (self@.len() == 0),
    {
        self.entries.len() == 0
    }

    /// The key of the entry at position `i`.
    pub fn key_at(&self, i: usize) -> (k: &String)
        requires
            i < self@.len(),
        ensures
            k@ == self@[i as int].0,
    {
        &self.entries[i].0
    }

    /// The value of the entry at position `i`.
    pub fn value_at(&self, i: usize) -> (v: &V)
        requires
            i < self@.len(),
        ensures
            v@ == self@[i as int].1,
    {
        &self.entries[i].1
    }

    /// The position of the entry with key `k`.
    pub fn index_of(&self, k: &str) -> (at: Option<usize>)
        ensures
            match at {
                Some(i) => i < self@.len() && self@[i as int].0 == k@,
                None => !assoc_has(self@, k@),
            },
    {
        let mut i: usize = 0;
        while i < self.entries.len()
            invariant
                i <= self.entries.len(),
                forall|j: int| 0 <= j < i ==> (#[trigger] entry_views(self.entries@)[j]).0 != k@,
            decreases self.entries.len() - i,
        {
            if str_eq(self.entries[i].0.as_str(), k) {
                return Some(i);
            }
            i += 1;
        }
        None
    }

    /// Whether some entry has the key `k`.
    pub fn contains_key(&self, k: &str) -> (b: bool)
        ensures
            b == assoc_has(self@, k@),
    {
        self.index_of(k).is_some()
    }

    /// The value of key `k`.
    pub fn get(&self, k: &str) -> (found: Option<&V>)
        ensures
            match found {
                Some(v) => assoc_get(self@, k@) == Some(v@),
                None => assoc_get(self@, k@) is None,
            },
    {
        proof {
            use_type_invariant(self);
            lemma_get(self@, k@);
        }
        match self.index_of(k) {
            Some(i) => Some(&self.entries[i].1),
            None => None,
        }
    }

    /// Sets the value of key `k` to `v`: in place where the key is there, else as a
    /// new last entry.
    pub fn insert(&mut self, k: String, v: V)
        ensures
            final(self)@ == assoc_put(old(self)@, k@, v@),
    {
        proof {
            use_type_invariant(&*self);
        }
        let at = self.index_of(k.as_str());
        let ghost before = entry_views(self.entries@);
        let mut entries: Vec<(String, V)> = Vec::new();
        proof {
            assert(entry_views(entries@) =~= Seq::<(Seq<char>, V::V)>::empty());
        }
        core::mem::swap(&mut self.entries, &mut entries);
        match at {
            Some(i) => {
                entries.set(i, (k, v));
                proof {
                    assert(entry_views(entries@) =~= before.update(i as int, (k@, v@)));
                    lemma_put_at(before, i as int, k@, v@);
                }
            },
            None => {
                entries.push((k, v));
                proof {
                    assert(entry_views(entries@) =~= before.push((k@, v@)));
                }
            },
        }
        proof {
            lemma_put(before, k@, v@);
        }
        core::mem::swap(&mut self.entries, &mut entries);
    }

    /// Replaces the value of the entry at position `i`.
    pub fn set_value_at(&mut self, i: usize, v: V)
        requires
            i < old(self)@.len(),
        ensures
            final(self)@ == old(self)@.update(i as int, (old(self)@[i as int].0, v@)),
    {
        proof {
            use_type_invariant(&*self);
        }
        let ghost before = entry_views(self.entries@);
        let k = self.entries[i].0.clone();
        let mut entries: Vec<(String, V)> = Vec::new();
        proof {
            assert(entry_views(entries@) =~= Seq::<(Seq<char>, V::V)>::empty());
        }
        core::mem::swap(&mut self.entries, &mut entries);
        entries.set(i, (k, v));
        proof {
            let after = entry_views(entries@);
            assert(after =~= before.update(i as int, (before[i as int].0, v@)));
            assert forall|a: int, b: int| 0 <= a < b < after.len() implies (#[trigger] after[a]).0
                != (#[trigger] after[b]).0 by {
                assert(before[a].0 != before[b].0);
            }
        }
        core::mem::swap(&mut self.entries, &mut entries);
    }

    /// The keys, in order.
    pub fn keys(&self) -> (names: StrSet)
        ensures
            names@ == assoc_keys(self@),
    {
        proof {
            use_type_invariant(self);
        }
        let mut names = StrSet::new();
        let n = self.entries.len();
        let mut i: usize = 0;
        while i < n
            invariant
                i <= n,
                n == self.entries@.len(),
                assoc_distinct(entry_views(self.entries@)),
                names@ =~= assoc_keys(entry_views(self.entries@)).take(i as int),
            decreases n - i,
        {
            proof {
                let keys = assoc_keys(entry_views(self.entries@));
                lemma_keys(entry_views(self.entries@));
                assert(!keys.take(i as int).contains(keys[i as int])) by {
                    if keys.take(i as int).contains(keys[i as int]) {
                        let j = choose|j: int|
                            0 <= j < i && keys.take(i as int)[j] == keys[i as int];
                        assert(keys[j] == keys[i as int]);
                    }
                }
                assert(keys.take(i as int + 1) =~= keys.take(i as int).push(keys[i as int]));
            }
            names.insert(self.entries[i].0.clone());
            i += 1;
        }
        proof {
            let keys = assoc_keys(entry_views(self.entries@));
            assert(keys.take(n as int) =~= keys);
        }
        names
    }
}

impl<V: Duplicate> StrMap<V> {
    /// Adds, in order, every entry of `other` whose key is not there yet.
    pub fn extend_absent(&mut self, other: &StrMap<V>)
        ensures
            final(self)@ == assoc_union(old(self)@, other@),
    {
        let n = other.len();
        let mut i: usize = 0;
        while i < n
            invariant
                i <= n,
                n == other@.len(),
                self@ == assoc_union(old(self)@, other@.take(i as int)),
            decreases n - i,
        {
            let ghost step = other@.take(i as int + 1);
            proof {
                assert(step.drop_last() =~= other@.take(i as int));
                assert(step.last() == other@[i as int]);
            }
            let k = other.key_at(i);
            if !self.contains_key(k.as_str()) {
                self.insert(k.clone(), other.value_at(i).duplicate());
            }
            i += 1;
        }
        proof {
            assert(other@.take(n as int) =~= other@);
        }
    }

    /// Copies of the values, in order.
    pub fn values(&self) -> (v: Vec<V>)
        ensures
            v@.len() == self@.len(),
            forall|i: int| 0 <= i < v@.len() ==> (#[trigger] v@[i])@ == self@[i].1,
    {
        let mut v: Vec<V> = Vec::new();
        let n = self.len();
        let mut i: usize = 0;
        while i < n
            invariant
                i <= n,
                n == self@.len(),
                v@.len() == i,
                forall|j: int| 0 <= j < i ==> (#[trigger] v@[j])@ == self@[j].1,
            decreases n - i,
        {
            v.push(self.value_at(i).duplicate());
            i += 1;
        }
        v
    }

    /// The map that reading `entries` in order gives: a later entry replaces the
    /// value of an earlier one with the same key.
    pub fn from_entries(entries: &Vec<(String, V)>) -> (m: StrMap<V>)
        ensures
            m@ == assoc_collect(entry_views(entries@)),
    {
        let mut m = StrMap::new();
        let n = entries.len();
        let mut i: usize = 0;
        while i < n
            invariant
                i <= n,
                n == entries@.len(),
                m@ == assoc_collect(entry_views(entries@).take(i as int)),
            decreases n - i,
        {
            let ghost step = entry_views(entries@).take(i as int + 1);
            proof {
                assert(step.drop_last() =~= entry_views(entries@).take(i as int));
                assert(step.last() == (entries@[i as int].0@, entries@[i as int].1@));
            }
            m.insert(entries[i].0.clone(), entries[i].1.duplicate());
            i += 1;
        }
        proof {
            assert(entry_views(entries@).take(n as int) =~= entry_views(entries@));
        }
        m
    }
}

impl<V: Duplicate> Duplicate for StrMap<V> {
    fn duplicate(&self) -> (copy: StrMap<V>) {
        proof {
            use_type_invariant(self);
        }
        let mut entries: Vec<(String, V)> = Vec::new();
        let n = self.entries.len();
        let mut i: usize = 0;
        while i < n
            invariant
                i <= n,
                n == self.entries@.len(),
                entry_views(entries@) =~= entry_views(self.entries@).take(i as int),
            decreases n - i,
        {
            let ghost before = entry_views(entries@);
            let k = self.entries[i].0.clone();
            let v = self.entries[i].1.duplicate();
            entries.push((k, v));
            proof {
                assert(entry_views(entries@) =~= before.push((k@, v@)));
            }
            i += 1;
        }
        proof {
            assert(entry_views(self.entries@).take(n as int) =~= entry_views(self.entries@));
        }
        StrMap { entries }
    }
}

impl<V: Duplicate> Clone for StrMap<V> {
    fn clone(&self) -> (copy: StrMap<V>)
        ensures
            copy@ == self@,
    {
        self.duplicate()
    }
}

impl<V: View> Default for StrMap<V> {
    fn default() -> (m: StrMap<V>)
        ensures
            m@ == Seq::<(Seq<char>, V::V)>::empty(),
    {
        StrMap::new()
    }
}

/// With distinct keys, `assoc_put` on a key that occurs updates its entry.
pub proof fn lemma_put_at<T>(m: Seq<(Seq<char>, T)>, i: int, k: Seq<char>, v: T)
    requires
        assoc_distinct(m),
        0 <= i < m.len(),
        m[i].0 == k,
    ensures
        assoc_put(m, k, v) == m.update(i, (k, v)),
{
    let r = assoc_put(m, k, v);
    assert forall|j: int| 0 <= j < m.len() implies r[j] == m.update(i, (k, v))[j] by {
        if j < i {
            assert(m[j].0 != m[i].0);
        } else if i < j {
            assert(m[i].0 != m[j].0);
        }
    }
    assert(r =~= m.update(i, (k, v)));
}

} // verus!
