use vstd::prelude::*;
use vstd::std_specs::cmp::PartialEqSpecImpl;
use crate::text::{str_eq, texts, Duplicate};

verus! {

/// `s` with `x` added at the end, unless `s` holds it already.
pub open spec fn seq_insert(s: Seq<Seq<char>>, x: Seq<char>) -> Seq<Seq<char>> {
    if s.contains(x) {
        s
    } else {
        s.push(x)
    }
}

/// `a`, with every member of `b` added in order unless it is there already.
pub open spec fn seq_union(a: Seq<Seq<char>>, b: Seq<Seq<char>>) -> Seq<Seq<char>>
    decreases b.len(),
{
    if b.len() == 0 {
        a
    } else {
        seq_insert(seq_union(a, b.drop_last()), b.last())
    }
}

/// The members of `a` that `b` lacks, in the order of `a`.
pub open spec fn seq_difference(a: Seq<Seq<char>>, b: Seq<Seq<char>>) -> Seq<Seq<char>>
    decreases a.len(),
{
    if a.len() == 0 {
        a
    } else if b.contains(a.last()) {
        seq_difference(a.drop_last(), b)
    } else {
        seq_difference(a.drop_last(), b).push(a.last())
    }
}

/// The first occurrence of every member of `s`, in order.
pub open spec fn seq_dedup(s: Seq<Seq<char>>) -> Seq<Seq<char>> {
    seq_union(Seq::empty(), s)
}

/// What `seq_insert` holds, and that it keeps a sequence free of repetitions.
pub proof fn lemma_insert(s: Seq<Seq<char>>, x: Seq<char>)
    ensures
        forall|y: Seq<char>| #[trigger] seq_insert(s, x).contains(y) <==> s.contains(y) || y == x,
        s.no_duplicates() ==> seq_insert(s, x).no_duplicates(),
{
    let r = seq_insert(s, x);
    assert forall|y: Seq<char>| #[trigger] r.contains(y) <==> s.contains(y) || y == x by {
        if s.contains(x) {
        } else {
            if r.contains(y) {
                let i = choose|i: int| 0 <= i < r.len() && r[i] == y;
                if i < s.len() {
                    assert(s[i] == y);
                }
            }
            if s.contains(y) {
                let j = choose|j: int| 0 <= j < s.len() && s[j] == y;
                assert(r[j] == y);
            }
            if y == x {
                assert(r[s.len() as int] == y);
            }
        }
    }
}

/// What a union holds, and that it has no member twice when its left side has none.
pub proof fn lemma_union(a: Seq<Seq<char>>, b: Seq<Seq<char>>)
    ensures
        forall|x: Seq<char>| #[trigger]
            seq_union(a, b).contains(x) <==> a.contains(x) || b.contains(x),
        a.no_duplicates() ==> seq_union(a, b).no_duplicates(),
        seq_union(a, b).to_set() == a.to_set().union(b.to_set()),
        a.len() <= seq_union(a, b).len(),
        seq_union(a, b).subrange(0, a.len() as int) == a,
    decreases b.len(),
{
    let u = seq_union(a, b);
    if b.len() > 0 {
        let front = b.drop_last();
        let inner = seq_union(a, front);
        lemma_union(a, front);
        lemma_insert(inner, b.last());
        assert forall|x: Seq<char>| #[trigger] u.contains(x) <==> a.contains(x) || b.contains(
            x,
        ) by {
            if b.contains(x) {
                let i = choose|i: int| 0 <= i < b.len() && b[i] == x;
                if i < front.len() {
                    assert(front[i] == x);
                }
            }
            if front.contains(x) {
                let i = choose|i: int| 0 <= i < front.len() && front[i] == x;
                assert(b[i] == x);
            }
            assert(b[b.len() - 1] == b.last());
        }
        assert(u.subrange(0, a.len() as int) =~= inner.subrange(0, a.len() as int));
    } else {
        assert(u.subrange(0, a.len() as int) =~= a);
    }
    assert(u.to_set() =~= a.to_set().union(b.to_set()));
}

/// Adding `b` and then `c` is adding `b + c`.
pub proof fn lemma_union_concat(a: Seq<Seq<char>>, b: Seq<Seq<char>>, c: Seq<Seq<char>>)
    ensures
        seq_union(a, b + c) == seq_union(seq_union(a, b), c),
    decreases c.len(),
{
    if c.len() == 0 {
        assert(b + c =~= b);
    } else {
        lemma_union_concat(a, b, c.drop_last());
        assert((b + c).drop_last() =~= b + c.drop_last());
        assert((b + c).last() == c.last());
    }
}

/// Union is associative.
pub proof fn lemma_union_associative(a: Seq<Seq<char>>, b: Seq<Seq<char>>, c: Seq<Seq<char>>)
    ensures
        seq_union(seq_union(a, b), c) == seq_union(a, seq_union(b, c)),
    decreases c.len(),
{
    if c.len() > 0 {
        let front = c.drop_last();
        let x = c.last();
        lemma_union_associative(a, b, front);
        lemma_union(a, b);
        lemma_union(b, front);
        lemma_union(a, seq_union(b, front));
        lemma_union(seq_union(a, b), front);
        let left = seq_union(seq_union(a, b), front);
        let inner = seq_union(b, front);
        assert(left == seq_union(a, inner));
        if inner.contains(x) {
            assert(seq_union(b, c) == inner);
            assert(left.contains(x));
        } else {
            assert(seq_union(b, c) == inner.push(x));
            assert(inner.push(x).drop_last() =~= inner);
            assert(seq_union(a, inner.push(x)) == seq_insert(seq_union(a, inner), x));
        }
    }
}

/// Adding members that are all there already changes nothing.
pub proof fn lemma_union_absorbs(a: Seq<Seq<char>>, b: Seq<Seq<char>>)
    requires
        forall|i: int| 0 <= i < b.len() ==> a.contains(#[trigger] b[i]),
    ensures
        seq_union(a, b) == a,
    decreases b.len(),
{
    if b.len() > 0 {
        let front = b.drop_last();
        assert forall|i: int| 0 <= i < front.len() implies a.contains(#[trigger] front[i]) by {
            assert(front[i] == b[i]);
        }
        lemma_union_absorbs(a, front);
        assert(a.contains(b[b.len() - 1]));
    }
}

/// A union with itself changes nothing.
pub proof fn lemma_union_idempotent(a: Seq<Seq<char>>)
    ensures
        seq_union(a, a) == a,
{
    assert forall|i: int| 0 <= i < a.len() implies a.contains(#[trigger] a[i]) by {}
    lemma_union_absorbs(a, a);
}

/// What a difference holds, and that it has no member twice when its left side has none.
pub proof fn lemma_difference(a: Seq<Seq<char>>, b: Seq<Seq<char>>)
    ensures
        forall|x: Seq<char>| #[trigger]
            seq_difference(a, b).contains(x) <==> a.contains(x) && !b.contains(x),
        a.no_duplicates() ==> seq_difference(a, b).no_duplicates(),
        seq_difference(a, b).to_set() == a.to_set().difference(b.to_set()),
    decreases a.len(),
{
    let d = seq_difference(a, b);
    if a.len() > 0 {
        let front = a.drop_last();
        let inner = seq_difference(front, b);
        lemma_difference(front, b);
        assert forall|x: Seq<char>| #[trigger] d.contains(x) <==> a.contains(x) && !b.contains(
            x,
        ) by {
            if a.contains(x) {
                let i = choose|i: int| 0 <= i < a.len() && a[i] == x;
                if i < front.len() {
                    assert(front[i] == x);
                }
            }
            if front.contains(x) {
                let i = choose|i: int| 0 <= i < front.len() && front[i] == x;
                assert(a[i] == x);
            }
            assert(a[a.len() - 1] == a.last());
            if !b.contains(a.last()) {
                if d.contains(x) {
                    let i = choose|i: int| 0 <= i < d.len() && d[i] == x;
                    if i < inner.len() {
                        assert(inner[i] == x);
                    }
                }
                if inner.contains(x) {
                    let i = choose|i: int| 0 <= i < inner.len() && inner[i] == x;
                    assert(d[i] == x);
                }
                assert(d[inner.len() as int] == a.last());
            }
        }
        if a.no_duplicates() {
            assert(front.no_duplicates());
            if !b.contains(a.last()) {
                assert(!inner.contains(a.last())) by {
                    if front.contains(a.last()) {
                        let i = choose|i: int| 0 <= i < front.len() && front[i] == a.last();
                        assert(a[i] == a[a.len() - 1]);
                    }
                }
            }
        }
    }
    assert(d.to_set() =~= a.to_set().difference(b.to_set()));
}

/// An ordered set of strings: no string occurs twice, and the members keep the
/// order in which they were first added.
#[derive(Debug)]
pub struct StrSet {
    items: Vec<String>,
}

impl View for StrSet {
    type V = Seq<Seq<char>>;

    closed spec fn view(&self) -> Seq<Seq<char>> {
        texts(self.items@)
    }
}

impl StrSet {
    #[verifier::type_invariant]
    spec fn distinct(&self) -> bool {
        texts(self.items@).no_duplicates()
    }

    /// The members as a mathematical set.
    pub open spec fn set(&self) -> Set<Seq<char>> {
        self@.to_set()
    }

    /// The empty set.
    pub fn new() -> (s: StrSet)
        ensures
            s@ == Seq::<Seq<char>>::empty(),
    {
        let s = StrSet { items: Vec::new() };
        assert(texts(s.items@) =~= Seq::<Seq<char>>::empty());
        s
    }

    /// The number of members.
    pub fn len(&self) -> (n: usize)
        ensures
            n == self@.len(),
            self@.no_duplicates(),
    {
        proof {
            use_type_invariant(self);
        }
        self.items.len()
    }

    /// Whether there is no member.
    pub fn is_empty(&self) -> (b: bool)
        ensures
            b == (self@.len() == 0),
    {
        self.items.len() == 0
    }

    /// The member at position `i`.
    pub fn get(&self, i: usize) -> (s: &String)
        requires
            i < self@.len(),
        ensures
            s@ == self@[i as int],
    {
        &self.items[i]
    }

    /// Whether `x` is a member.
    pub fn contains(&self, x: &str) -> (b: bool)
        ensures
            b == self@.contains(x@),
    {
        let mut i: usize = 0;
        while i < self.items.len()
            invariant
                i <= self.items.len(),
                forall|j: int| 0 <= j < i ==> texts(self.items@)[j] != x@,
            decreases self.items.len() - i,
        {
            if str_eq(self.items[i].as_str(), x) {
                assert(texts(self.items@)[i as int] == x@);
                return true;
            }
            i += 1;
        }
        false
    }

    /// Adds `x` at the end unless it is a member already; says whether it was added.
    pub fn insert(&mut self, x: String) -> (added: bool)
        ensures
            added == !old(self)@.contains(x@),
            final(self)@ == seq_insert(old(self)@, x@),
    {
        proof {
            use_type_invariant(&*self);
        }
        if self.contains(x.as_str()) {
            false
        } else {
            let ghost before = texts(self.items@);
            let mut items: Vec<String> = Vec::new();
            proof {
                assert(texts(items@) =~= Seq::<Seq<char>>::empty());
            }
            core::mem::swap(&mut self.items, &mut items);
            items.push(x);
            proof {
                assert(texts(items@) =~= before.push(x@));
            }
            core::mem::swap(&mut self.items, &mut items);
            true
        }
    }

    /// Adds every member of `other`, in its order, unless it is a member already.
    pub fn extend(&mut self, other: &StrSet)
        ensures
            final(self)@ == seq_union(old(self)@, other@),
    {
        let n = other.len();
        let mut i: usize = 0;
        while i < n
            invariant
                i <= n,
                n == other@.len(),
                self@ == seq_union(old(self)@, other@.take(i as int)),
            decreases n - i,
        {
            let ghost step = other@.take(i as int + 1);
            proof {
                assert(step.drop_last() =~= other@.take(i as int));
                assert(step.last() == other@[i as int]);
            }
            self.insert(other.get(i).clone());
            i += 1;
        }
        proof {
            assert(other@.take(n as int) =~= other@);
        }
    }

    /// The members that `other` lacks, in order.
    pub fn difference(&self, other: &StrSet) -> (d: StrSet)
        ensures
            d@ == seq_difference(self@, other@),
    {
        let n = self.len();
        let mut items: Vec<String> = Vec::new();
        let mut i: usize = 0;
        proof {
            assert(texts(items@) =~= seq_difference(self@.take(0), other@));
        }
        while i < n
            invariant
                i <= n,
                n == self@.len(),
                texts(items@) == seq_difference(self@.take(i as int), other@),
            decreases n - i,
        {
            let ghost step = self@.take(i as int + 1);
            let ghost before = texts(items@);
            proof {
                assert(step.drop_last() =~= self@.take(i as int));
                assert(step.last() == self@[i as int]);
            }
            let x = self.get(i);
            if !other.contains(x.as_str()) {
                items.push(x.clone());
                proof {
                    assert(texts(items@) =~= before.push(x@));
                }
            }
            i += 1;
        }
        proof {
            assert(self@.take(n as int) =~= self@);
            lemma_difference(self@, other@);
        }
        StrSet { items }
    }

    /// Adds every string of `v`, in order, unless it is a member already.
    pub fn insert_all(&mut self, v: &Vec<String>)
        ensures
            final(self)@ == seq_union(old(self)@, texts(v@)),
    {
        let n = v.len();
        let mut i: usize = 0;
        while i < n
            invariant
                i <= n,
                n == v@.len(),
                self@ == seq_union(old(self)@, texts(v@).take(i as int)),
            decreases n - i,
        {
            let ghost step = texts(v@).take(i as int + 1);
            proof {
                assert(step.drop_last() =~= texts(v@).take(i as int));
                assert(step.last() == v@[i as int]@);
            }
            self.insert(v[i].clone());
            i += 1;
        }
        proof {
            assert(texts(v@).take(n as int) =~= texts(v@));
        }
    }

    /// The set of the strings of `v`: each once, in the order of first occurrence.
    pub fn from_vec(v: Vec<String>) -> (s: StrSet)
        ensures
            s@ == seq_dedup(texts(v@)),
    {
        let mut out = StrSet::new();
        out.insert_all(&v);
        out
    }

    /// The members, in order.
    pub fn to_vec(&self) -> (v: Vec<String>)
        ensures
            texts(v@) == self@,
    {
        let mut v: Vec<String> = Vec::new();
        let n = self.items.len();
        let mut i: usize = 0;
        while i < n
            invariant
                i <= n,
                n == self.items@.len(),
                texts(v@) =~= texts(self.items@).take(i as int),
            decreases n - i,
        {
            let ghost before = texts(v@);
            v.push(self.items[i].clone());
            proof {
                assert(texts(v@) =~= before.push(self.items@[i as int]@));
            }
            i += 1;
        }
        proof {
            assert(texts(self.items@).take(n as int) =~= texts(self.items@));
        }
        v
    }

    /// Whether every member of `self` is a member of `other`.
    pub fn is_subset(&self, other: &StrSet) -> (b: bool)
        ensures
            b == self.set().subset_of(other.set()),
    {
        let n = self.len();
        let mut i: usize = 0;
        while i < n
            invariant
                i <= n,
                n == self@.len(),
                forall|j: int| 0 <= j < i ==> other@.contains(#[trigger] self@[j]),
            decreases n - i,
        {
            if !other.contains(self.get(i).as_str()) {
                proof {
                    assert(self@.contains(self@[i as int]));
                    assert(self.set().contains(self@[i as int]));
                    assert(!other.set().contains(self@[i as int]));
                }
                return false;
            }
            i += 1;
        }
        proof {
            assert forall|x: Seq<char>| self.set().contains(x) implies other.set().contains(x) by {
                let j = choose|j: int| 0 <= j < self@.len() && self@[j] == x;
                assert(other@.contains(self@[j]));
            }
        }
        true
    }
}

impl Duplicate for StrSet {
    fn duplicate(&self) -> (copy: StrSet) {
        proof {
            use_type_invariant(self);
        }
        let items = self.to_vec();
        StrSet { items }
    }
}

impl Clone for StrSet {
    fn clone(&self) -> (copy: StrSet)
        ensures
            copy@ == self@,
    {
        self.duplicate()
    }
}

impl Default for StrSet {
    fn default() -> (s: StrSet)
        ensures
            s@ == Seq::<Seq<char>>::empty(),
    {
        StrSet::new()
    }
}

impl PartialEq for StrSet {
    /// Two sets are equal when they have the same members, in whatever order.
    fn eq(&self, other: &StrSet) -> (same: bool) {
        let same = self.is_subset(other) && other.is_subset(self);
        proof {
            if same {
                assert(self.set() =~= other.set());
            }
        }
        same
    }
}

impl Eq for StrSet {

}

impl PartialEqSpecImpl for StrSet {
    open spec fn obeys_eq_spec() -> bool {
        true
    }

    open spec fn eq_spec(&self, other: &StrSet) -> bool {
        self.set() == other.set()
    }
}

} // verus!
