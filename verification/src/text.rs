//! Searching, cutting and joining text by a separator.
//!
//! Text is modelled as `Seq<char>`; every position is counted in characters.

use vstd::prelude::*;
use vstd::std_specs::iter::IteratorSpec;

verus! {

/// The text before and the text after the first `sep` in `s`, when `s` holds one.
pub open spec fn cut_at_first(s: Seq<char>, sep: char) -> Option<(Seq<char>, Seq<char>)> {
    match s.index_of_first(sep) {
        Some(i) => Some((s.subrange(0, i), s.subrange(i + 1, s.len() as int))),
        None => None,
    }
}

/// The pieces of `s` between occurrences of `sep`. There is always at least one piece,
/// and no piece holds `sep`.
pub open spec fn pieces(s: Seq<char>, sep: char) -> Seq<Seq<char>>
    decreases s.len(),
{
    match s.index_of_first(sep) {
        Some(i) => {
            if 0 <= i < s.len() {
                seq![s.subrange(0, i)] + pieces(s.subrange(i + 1, s.len() as int), sep)
            } else {
                seq![s]
            }
        },
        None => seq![s],
    }
}

/// `parts` written one after another with `sep` between neighbours.
pub open spec fn joined(parts: Seq<Seq<char>>, sep: Seq<char>) -> Seq<char>
    decreases parts.len(),
{
    if parts.len() == 0 {
        Seq::empty()
    } else if parts.len() == 1 {
        parts[0]
    } else {
        joined(parts.drop_last(), sep) + sep + parts.last()
    }
}

/// The texts held by a sequence of string slices.
pub open spec fn slice_texts(v: Seq<&str>) -> Seq<Seq<char>> {
    v.map_values(|t: &str| t@)
}

/// The texts held by a sequence of strings.
pub open spec fn string_texts(v: Seq<String>) -> Seq<Seq<char>> {
    v.map_values(|t: String| t@)
}

/// Position of the first `c` in `s`.
pub fn find_char(s: &str, c: char) -> (r: Option<usize>)
    ensures
        match r {
            Some(i) => s@.index_of_first(c) == Some(i as int) && i < s@.len(),
            None => s@.index_of_first(c) is None,
        },
{
    let n = s.unicode_len();
    let mut i: usize = 0;
    for ch in it: s.chars()
        invariant
            i == it.index(),
            it.seq() == s@,
            n == s@.len(),
            forall|j: int| 0 <= j < i ==> s@[j] != c,
    {
        if ch == c {
            proof {
                s@.index_of_first_ensures(c);
            }
            return Some(i);
        }
        i = i + 1;
    }
    proof {
        s@.index_of_first_ensures(c);
    }
    None
}

/// Cuts `s` at its first `sep`.
pub fn split_once<'a>(s: &'a str, sep: char) -> (r: Option<(&'a str, &'a str)>)
    ensures
        match r {
            Some((head, tail)) => cut_at_first(s@, sep) == Some((head@, tail@)),
            None => cut_at_first(s@, sep) is None,
        },
{
    match find_char(s, sep) {
        Some(i) => {
            let n = s.unicode_len();
            Some((s.substring_char(0, i), s.substring_char(i + 1, n)))
        },
        None => None,
    }
}

/// Cuts `s` at every `sep`.
pub fn split<'a>(s: &'a str, sep: char) -> (r: Vec<&'a str>)
    ensures
        slice_texts(r@) == pieces(s@, sep),
{
    let mut out: Vec<&'a str> = Vec::new();
    let mut rest: &'a str = s;
    loop
        invariant
            slice_texts(out@) + pieces(rest@, sep) == pieces(s@, sep),
        decreases rest@.len(),
    {
        match split_once(rest, sep) {
            Some((head, tail)) => {
                proof {
                    rest@.index_of_first_ensures(sep);
                    assert(slice_texts(out@.push(head)) == slice_texts(out@).push(head@));
                    assert(slice_texts(out@).push(head@) + pieces(tail@, sep) == slice_texts(out@)
                        + pieces(rest@, sep));
                }
                out.push(head);
                rest = tail;
            },
            None => {
                proof {
                    assert(slice_texts(out@.push(rest)) == slice_texts(out@).push(rest@));
                    assert(slice_texts(out@).push(rest@) == slice_texts(out@) + pieces(rest@, sep));
                }
                out.push(rest);
                return out;
            },
        }
    }
}

/// Writes `parts` one after another with `sep` between neighbours.
pub fn join(parts: &Vec<String>, sep: &str) -> (r: String)
    ensures
        r@ == joined(string_texts(parts@), sep@),
{
    let mut out = String::new();
    let n = parts.len();
    let mut i: usize = 0;
    while i < n
        invariant
            n == parts.len(),
            i <= n,
            out@ == joined(string_texts(parts@).take(i as int), sep@),
        decreases n - i,
    {
        let ghost texts = string_texts(parts@);
        proof {
            assert(texts.take(i + 1).drop_last() == texts.take(i as int));
            assert(texts.take(i + 1).last() == parts@[i as int]@);
        }
        if i > 0 {
            out.append(sep);
        }
        out.append(parts[i].as_str());
        i = i + 1;
    }
    proof {
        assert(string_texts(parts@).take(n as int) == string_texts(parts@));
    }
    out
}

/// `text` with `to` in place of every `from`.
pub fn replace_char(text: &str, from: char, to: &str) -> (r: String)
    ensures
        r@ == joined(pieces(text@, from), to@),
{
    let parts = split(text, from);
    let ghost texts = slice_texts(parts@);
    let mut out = String::new();
    let n = parts.len();
    let mut i: usize = 0;
    while i < n
        invariant
            n == parts.len(),
            i <= n,
            texts == slice_texts(parts@),
            out@ == joined(texts.take(i as int), to@),
        decreases n - i,
    {
        proof {
            assert(texts.take(i + 1).drop_last() == texts.take(i as int));
            assert(texts.take(i + 1).last() == parts@[i as int]@);
        }
        if i > 0 {
            out.append(to);
        }
        out.append(parts[i]);
        i = i + 1;
    }
    proof {
        assert(texts.take(n as int) == texts);
    }
    out
}

/// Whether `a` and `b` hold the same text.
pub fn same_text(a: &str, b: &str) -> (r: bool)
    ensures
        r == (a@ == b@),
{
    let n = a.unicode_len();
    if n != b.unicode_len() {
        return false;
    }
    let mut i: usize = 0;
    let mut others = b.chars();
    for ch in it: a.chars()
        invariant
            i == it.index(),
            it.seq() == a@,
            n == a@.len(),
            n == b@.len(),
            others.remaining() == b@.skip(i as int),
            forall|j: int| 0 <= j < i ==> a@[j] == b@[j],
    {
        let other = others.next();
        if other != Some(ch) {
            return false;
        }
        i = i + 1;
    }
    assert(a@ =~= b@);
    true
}

/// A text without `sep` cannot be cut, and is its own single piece.
pub proof fn lemma_uncut(s: Seq<char>, sep: char)
    requires
        !s.contains(sep),
    ensures
        cut_at_first(s, sep) is None,
        pieces(s, sep) == seq![s],
{
    s.index_of_first_ensures(sep);
}

/// A text is cut at the first `sep`: where `head` holds none, `head`, `sep`
/// and `tail` in a row are cut into `head` and `tail`.
pub proof fn lemma_cut_at_separator(head: Seq<char>, sep: char, tail: Seq<char>)
    requires
        !head.contains(sep),
    ensures
        cut_at_first(head + seq![sep] + tail, sep) == Some((head, tail)),
{
    let s = head + seq![sep] + tail;
    s.index_of_first_ensures(sep);
    assert(s[head.len() as int] == sep);
    assert(s.contains(sep));
    let i = s.index_of_first(sep).unwrap();
    if i < head.len() {
        assert(head[i] == sep);
        assert(head.contains(sep));
    }
    assert(i == head.len());
    assert(s.subrange(0, i) == head);
    assert(s.subrange(i + 1, s.len() as int) == tail);
}

/// Joining can be read from the front as well as from the back.
pub proof fn lemma_joined_from_front(parts: Seq<Seq<char>>, sep: Seq<char>)
    requires
        parts.len() >= 2,
    ensures
        joined(parts, sep) == parts[0] + sep + joined(parts.drop_first(), sep),
    decreases parts.len(),
{
    if parts.len() == 2 {
        assert(parts.drop_last().len() == 1);
        assert(parts.drop_first().len() == 1);
        assert(joined(parts.drop_last(), sep) == parts[0]);
        assert(joined(parts.drop_first(), sep) == parts[1]);
    } else {
        let front = parts.drop_last();
        lemma_joined_from_front(front, sep);
        assert(front.drop_first() == parts.drop_first().drop_last());
        assert(parts.drop_first().last() == parts.last());
        assert(front[0] == parts[0]);
        assert(joined(parts, sep) == (parts[0] + sep + joined(front.drop_first(), sep)) + sep
            + parts.last());
        assert(joined(parts.drop_first(), sep) == joined(front.drop_first(), sep) + sep
            + parts.last());
        assert((parts[0] + sep + joined(front.drop_first(), sep)) + sep + parts.last()
            == parts[0] + sep + (joined(front.drop_first(), sep) + sep + parts.last()));
    }
}

/// Joined parts hold a character only if a part or the separator holds it.
pub proof fn lemma_joined_lacks(parts: Seq<Seq<char>>, sep: Seq<char>, c: char)
    requires
        !sep.contains(c),
        forall|i: int| 0 <= i < parts.len() ==> !(#[trigger] parts[i]).contains(c),
    ensures
        !joined(parts, sep).contains(c),
    decreases parts.len(),
{
    if parts.len() >= 2 {
        let front = joined(parts.drop_last(), sep);
        assert forall|i: int| 0 <= i < parts.drop_last().len() implies !(
        #[trigger] parts.drop_last()[i]).contains(c) by {
            assert(parts.drop_last()[i] == parts[i]);
        }
        lemma_joined_lacks(parts.drop_last(), sep, c);
        let whole = front + sep + parts.last();
        if whole.contains(c) {
            let j = choose|j: int| 0 <= j < whole.len() && whole[j] == c;
            if j < front.len() {
                assert(front[j] == c);
            } else if j < front.len() + sep.len() {
                assert(sep[j - front.len()] == c);
            } else {
                assert(parts.last()[j - front.len() - sep.len()] == c);
            }
        }
    } else if parts.len() == 1 {
        assert(!parts[0].contains(c));
    }
}

/// Cutting joined parts at the separator gives the parts back, where no part
/// holds the separator.
pub proof fn lemma_pieces_of_joined(parts: Seq<Seq<char>>, sep: char)
    requires
        parts.len() >= 1,
        forall|i: int| 0 <= i < parts.len() ==> !(#[trigger] parts[i]).contains(sep),
    ensures
        pieces(joined(parts, seq![sep]), sep) == parts,
    decreases parts.len(),
{
    if parts.len() == 1 {
        lemma_uncut(parts[0], sep);
        assert(parts == seq![parts[0]]);
    } else {
        let rest = parts.drop_first();
        assert forall|i: int| 0 <= i < rest.len() implies !(#[trigger] rest[i]).contains(sep) by {
            assert(rest[i] == parts[i + 1]);
        }
        lemma_pieces_of_joined(rest, sep);
        lemma_joined_from_front(parts, seq![sep]);
        let tail = joined(rest, seq![sep]);
        let whole = parts[0] + seq![sep] + tail;
        lemma_cut_at_separator(parts[0], sep, tail);
        whole.index_of_first_ensures(sep);
        assert(pieces(whole, sep) == seq![parts[0]] + pieces(tail, sep));
        assert(seq![parts[0]] + rest == parts);
    }
}

/// The lengths of `parts` added up.
pub open spec fn total_len(parts: Seq<Seq<char>>) -> nat
    decreases parts.len(),
{
    if parts.len() == 0 {
        0
    } else {
        total_len(parts.drop_last()) + parts.last().len()
    }
}

/// Parts joined by one character are as long as the parts together and one
/// more for every part but the first.
pub proof fn lemma_joined_len(parts: Seq<Seq<char>>, sep: char)
    requires
        parts.len() >= 1,
    ensures
        joined(parts, seq![sep]).len() == total_len(parts) + parts.len() - 1,
    decreases parts.len(),
{
    if parts.len() == 1 {
        assert(parts.drop_last().len() == 0);
        assert(total_len(parts.drop_last()) == 0);
    } else {
        lemma_joined_len(parts.drop_last(), sep);
    }
}

} // verus!
