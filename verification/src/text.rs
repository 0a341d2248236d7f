use vstd::prelude::*;

verus! {

/// Values that can be copied so that the copy has the same view.
pub trait Duplicate: View + Sized {
    fn duplicate(&self) -> (copy: Self)
        ensures
            copy@ == self@,
    ;
}

impl Duplicate for String {
    fn duplicate(&self) -> (copy: String) {
        self.clone()
    }
}

/// The text of every string of a vector, in order.
pub open spec fn texts(v: Seq<String>) -> Seq<Seq<char>> {
    v.map_values(|s: String| s@)
}

/// The text of an optional string.
pub open spec fn opt_text(o: Option<String>) -> Option<Seq<char>> {
    match o {
        Some(s) => Some(s@),
        None => None,
    }
}

/// `a` where it is set, else `b`.
pub open spec fn or_else<T>(a: Option<T>, b: Option<T>) -> Option<T> {
    if a is Some {
        a
    } else {
        b
    }
}

/// Whether two strings hold the same text.
pub fn str_eq(a: &str, b: &str) -> (same: bool)
    ensures
        same == (a@ == b@),
{
    let x = a.to_owned();
    let y = b.to_owned();
    x == y
}

/// A copy of an optional string.
pub fn copy_opt_text(o: &Option<String>) -> (copy: Option<String>)
    ensures
        opt_text(copy) == opt_text(*o),
{
    match o {
        Some(s) => Some(s.clone()),
        None => None,
    }
}

/// `a` where it is set, else `b`.
pub fn first_text(a: Option<String>, b: Option<String>) -> (r: Option<String>)
    ensures
        opt_text(r) == or_else(opt_text(a), opt_text(b)),
{
    match a {
        Some(s) => Some(s),
        None => b,
    }
}

/// `a` where it is set, else `b`.
pub fn first_flag(a: Option<bool>, b: Option<bool>) -> (r: Option<bool>)
    ensures
        r == or_else(a, b),
{
    match a {
        Some(f) => Some(f),
        None => b,
    }
}

/// A copy of a list of strings.
pub fn copy_texts(v: &Vec<String>) -> (copy: Vec<String>)
    ensures
        texts(copy@) == texts(v@),
{
    let mut copy: Vec<String> = Vec::new();
    let mut i: usize = 0;
    while i < v.len()
        invariant
            i <= v.len(),
            copy@.len() == i,
            forall|j: int| 0 <= j < i ==> (#[trigger] copy@[j])@ == v@[j]@,
        decreases v.len() - i,
    {
        copy.push(v[i].clone());
        i += 1;
    }
    proof {
        assert(texts(copy@) =~= texts(v@));
    }
    copy
}

/// The pieces of `s` between its line feeds. There is one piece more than there
/// are line feeds; a piece may be empty.
pub open spec fn split_lines(s: Seq<char>) -> Seq<Seq<char>>
    decreases s.len(),
{
    if s.len() == 0 {
        seq![Seq::empty()]
    } else {
        let front = split_lines(s.drop_last());
        if s.last() == '\n' {
            front.push(Seq::empty())
        } else {
            front.drop_last().push(front.last().push(s.last()))
        }
    }
}

/// The pieces put together again, with a line feed between any two.
pub open spec fn join_lines(pieces: Seq<Seq<char>>) -> Seq<char>
    decreases pieces.len(),
{
    if pieces.len() == 0 {
        Seq::empty()
    } else if pieces.len() == 1 {
        pieces[0]
    } else {
        join_lines(pieces.drop_last()) + seq!['\n'] + pieces.last()
    }
}

/// Splitting loses nothing: the pieces, joined by line feeds, are the text.
pub proof fn lemma_split_lines_joined(s: Seq<char>)
    ensures
        join_lines(split_lines(s)) == s,
    decreases s.len(),
{
    if s.len() == 0 {
        assert(split_lines(s)[0] =~= s);
    } else {
        let front = split_lines(s.drop_last());
        lemma_split_lines_joined(s.drop_last());
        lemma_split_lines_nonempty(s.drop_last());
        let pieces = split_lines(s);
        if s.last() == '\n' {
            assert(pieces.drop_last() =~= front);
            assert(join_lines(pieces) =~= s.drop_last() + seq!['\n'] + Seq::<char>::empty());
            assert(s.drop_last() + seq!['\n'] + Seq::<char>::empty() =~= s);
        } else {
            let grown = front.last().push(s.last());
            assert(pieces.last() == grown);
            if front.len() == 1 {
                assert(front[0] == s.drop_last());
                assert(pieces[0] =~= s);
            } else {
                assert(pieces.drop_last() =~= front.drop_last());
                assert(join_lines(front) == join_lines(front.drop_last()) + seq!['\n']
                    + front.last());
                assert(join_lines(pieces) =~= join_lines(front).push(s.last()));
                assert(s.drop_last().push(s.last()) =~= s);
            }
        }
    }
}

/// There is always a piece.
pub proof fn lemma_split_lines_nonempty(s: Seq<char>)
    ensures
        split_lines(s).len() >= 1,
    decreases s.len(),
{
    if s.len() > 0 {
        lemma_split_lines_nonempty(s.drop_last());
    }
}

/// No piece holds a line feed.
pub proof fn lemma_split_lines_clean(s: Seq<char>)
    ensures
        forall|i: int| 0 <= i < split_lines(s).len() ==> !(#[trigger] split_lines(s)[i]).contains(
            '\n',
        ),
    decreases s.len(),
{
    let pieces = split_lines(s);
    if s.len() == 0 {
        assert forall|i: int| 0 <= i < pieces.len() implies !(#[trigger] pieces[i]).contains(
            '\n',
        ) by {
            assert(pieces[i] =~= Seq::<char>::empty());
        }
    } else {
        let front = split_lines(s.drop_last());
        lemma_split_lines_clean(s.drop_last());
        lemma_split_lines_nonempty(s.drop_last());
        assert forall|i: int| 0 <= i < pieces.len() implies !(#[trigger] pieces[i]).contains(
            '\n',
        ) by {
            if i < pieces.len() - 1 {
                assert(pieces[i] == front[i]);
            } else if s.last() == '\n' {
                assert(pieces[i] =~= Seq::<char>::empty());
            } else {
                let piece = front.last().push(s.last());
                assert(pieces[i] == piece);
                if piece.contains('\n') {
                    let j = choose|j: int| 0 <= j < piece.len() && piece[j] == '\n';
                    assert(front.last()[j] == '\n');
                    assert(front[front.len() - 1].contains('\n'));
                }
            }
        }
    }
}

/// The pieces of `s` between its line feeds.
pub fn split_newline_text(s: &str) -> (pieces: Vec<String>)
    ensures
        texts(pieces@) == split_lines(s@),
        pieces@.len() >= 1,
        forall|i: int| 0 <= i < pieces@.len() ==> !(#[trigger] pieces@[i])@.contains('\n'),
        join_lines(texts(pieces@)) == s@,
{
    let n = s.unicode_len();
    let mut pieces: Vec<String> = Vec::new();
    let mut start: usize = 0;
    let mut i: usize = 0;
    proof {
        assert(s@.take(0) =~= Seq::<char>::empty());
        assert(s@.subrange(0, 0) =~= Seq::<char>::empty());
        assert(texts(pieces@).push(s@.subrange(0, 0)) =~= split_lines(
            s@.take(0),
        ));
    }
    while i < n
        invariant
            start <= i <= n,
            n == s@.len(),
            texts(pieces@).push(s@.subrange(start as int, i as int))
                == split_lines(s@.take(i as int)),
        decreases n - i,
    {
        let ghost done = texts(pieces@);
        let ghost current = s@.subrange(start as int, i as int);
        proof {
            let step = s@.take(i as int + 1);
            assert(step.drop_last() =~= s@.take(i as int));
            assert(step.last() == s@[i as int]);
            assert(done.push(current).drop_last() =~= done);
        }
        if s.get_char(i) == '\n' {
            let piece = s.substring_char(start, i).to_owned();
            pieces.push(piece);
            start = i + 1;
            proof {
                assert(texts(pieces@) =~= done.push(current));
                assert(s@.subrange(start as int, i as int + 1) =~= Seq::<char>::empty());
            }
        } else {
            proof {
                assert(s@.subrange(start as int, i as int + 1) =~= current.push(s@[i as int]));
            }
        }
        i += 1;
    }
    let ghost done = texts(pieces@);
    let last = s.substring_char(start, n).to_owned();
    pieces.push(last);
    proof {
        assert(s@.take(n as int) =~= s@);
        assert(texts(pieces@) =~= done.push(s@.subrange(start as int, n as int)));
        lemma_split_lines_clean(s@);
        lemma_split_lines_joined(s@);
        assert forall|i: int| 0 <= i < pieces@.len() implies !(#[trigger] pieces@[i])@.contains(
            '\n',
        ) by {
            assert(texts(pieces@)[i] == pieces@[i]@);
        }
    }
    pieces
}

} // verus!
