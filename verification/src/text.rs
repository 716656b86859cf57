//! Character-level helpers shared by the parsers and the message builders.

use vstd::prelude::*;
use vstd::string::*;

verus! {

/// Whether `prefix` is a prefix of `s`.
pub open spec fn has_prefix(s: Seq<char>, prefix: Seq<char>) -> bool {
    prefix.len() <= s.len() && s.take(prefix.len() as int) == prefix
}

/// Index of the first occurrence of `c` in `s`, or `s.len()` when there is none.
pub open spec fn find(s: Seq<char>, c: char) -> int
    decreases s.len(),
{
    if s.len() == 0 || s[0] == c {
        0
    } else {
        1 + find(s.drop_first(), c)
    }
}

/// The pieces of `s` between occurrences of `sep`. There is always at least one piece;
/// empty pieces are kept.
pub open spec fn split(s: Seq<char>, sep: char) -> Seq<Seq<char>>
    decreases s.len(),
{
    let i = find(s, sep);
    if 0 <= i < s.len() {
        seq![s.take(i)] + split(s.skip(i + 1), sep)
    } else {
        seq![s]
    }
}

/// The pieces joined again, with `sep` between neighbours.
pub open spec fn join(pieces: Seq<Seq<char>>, sep: char) -> Seq<char>
    decreases pieces.len(),
{
    if pieces.len() == 0 {
        Seq::empty()
    } else if pieces.len() == 1 {
        pieces[0]
    } else {
        pieces[0] + seq![sep] + join(pieces.drop_first(), sep)
    }
}

/// `find` stays within the sequence, everything before it differs from `c`,
/// and it points at `c` unless it ran off the end.
pub proof fn lemma_find(s: Seq<char>, c: char)
    ensures
        0 <= find(s, c) <= s.len(),
        forall|j: int| 0 <= j < find(s, c) ==> s[j] != c,
        find(s, c) < s.len() ==> s[find(s, c)] == c,
    decreases s.len(),
{
    if s.len() == 0 || s[0] == c {
    } else {
        let rest = s.drop_first();
        lemma_find(rest, c);
        assert forall|j: int| 0 <= j < find(s, c) implies s[j] != c by {
            if j > 0 {
                assert(s[j] == rest[j - 1]);
            }
        }
        assert(s[find(s, c)] == rest[find(rest, c)] || find(s, c) >= s.len());
    }
}

/// An index that has no `c` before it and either holds `c` or is the end is what `find` returns.
pub proof fn lemma_find_is(s: Seq<char>, c: char, i: int)
    requires
        0 <= i <= s.len(),
        forall|j: int| 0 <= j < i ==> s[j] != c,
        i < s.len() ==> s[i] == c,
    ensures
        find(s, c) == i,
{
    lemma_find(s, c);
    let f = find(s, c);
    if f < i {
        assert(s[f] == c);
    } else if f > i {
        assert(s[i] != c);
    }
}

/// Splitting gives at least one piece.
pub proof fn lemma_split_nonempty(s: Seq<char>, sep: char)
    ensures
        split(s, sep).len() >= 1,
{
}

/// Splitting undoes joining: pieces that do not hold the separator, joined by it and split
/// at it, come back as they were, empty pieces included.
pub proof fn lemma_split_join(pieces: Seq<Seq<char>>, sep: char)
    requires
        pieces.len() >= 1,
        forall|i: int| 0 <= i < pieces.len() ==> !pieces[i].contains(sep),
    ensures
        split(join(pieces, sep), sep) == pieces,
    decreases pieces.len(),
{
    let joined = join(pieces, sep);
    let head = pieces[0];
    assert(!head.contains(sep));
    if pieces.len() == 1 {
        lemma_find_is(joined, sep, joined.len() as int);
        assert(seq![joined] =~= pieces);
    } else {
        let rest = pieces.drop_first();
        assert forall|i: int| 0 <= i < rest.len() implies !rest[i].contains(sep) by {
            assert(rest[i] == pieces[i + 1]);
        }
        lemma_split_join(rest, sep);
        lemma_find_is(joined, sep, head.len() as int);
        assert(joined.take(head.len() as int) =~= head);
        assert(joined.skip(head.len() as int + 1) =~= join(rest, sep));
        assert(seq![head] + rest =~= pieces);
    }
}

/// Collects the characters of a string slice.
pub(crate) fn to_chars(s: &str) -> (chars: Vec<char>)
    ensures
        chars@ == s@,
{
    let mut chars: Vec<char> = Vec::new();
    for c in it: s.chars()
        invariant
            chars@ == it.seq().take(it.index()),
            it.seq() == s@,
    {
        chars.push(c);
    }
    chars
}

/// The views of a list of strings, in order.
pub open spec fn strings_view(strings: Seq<String>) -> Seq<Seq<char>> {
    Seq::new(strings.len(), |i: int| strings[i]@)
}

/// The view of a string that may be absent.
pub open spec fn option_text(text: Option<String>) -> Option<Seq<char>> {
    match text {
        Some(text) => Some(text@),
        None => None,
    }
}

/// Whether the characters from `start` on begin with `prefix`.
pub(crate) fn starts_with_at(chars: &Vec<char>, start: usize, prefix: &str) -> (r: bool)
    requires
        start <= chars.len(),
    ensures
        r == has_prefix(chars@.skip(start as int), prefix@),
{
    let m = prefix.unicode_len();
    if m > chars.len() - start {
        return false;
    }
    let ghost rest = chars@.skip(start as int);
    let mut j: usize = 0;
    while j < m
        invariant
            j <= m,
            m == prefix@.len(),
            start + m <= chars.len(),
            rest == chars@.skip(start as int),
            forall|k: int| 0 <= k < j ==> rest[k] == prefix@[k],
        decreases m - j,
    {
        if chars[start + j] != prefix.get_char(j) {
            assert(rest.take(m as int)[j as int] != prefix@[j as int]);
            return false;
        }
        j += 1;
    }
    assert(rest.take(m as int) =~= prefix@);
    true
}

/// Position of the first `c` at or after `start`, or the length when there is none.
pub(crate) fn find_from(chars: &Vec<char>, start: usize, c: char) -> (at: usize)
    requires
        start <= chars.len(),
    ensures
        start <= at <= chars.len(),
        at - start == find(chars@.skip(start as int), c),
{
    let mut i: usize = start;
    while i < chars.len() && chars[i] != c
        invariant
            start <= i <= chars.len(),
            forall|j: int| start <= j < i ==> chars@[j] != c,
        decreases chars.len() - i,
    {
        i += 1;
    }
    proof {
        lemma_find_is(chars@.skip(start as int), c, i - start);
    }
    i
}

/// An owned copy of the characters `from..to` of `s`.
pub(crate) fn slice_string(s: &str, from: usize, to: usize) -> (piece: String)
    requires
        from <= to <= s@.len(),
    ensures
        piece@ == s@.subrange(from as int, to as int),
{
    String::from_str(s.substring_char(from, to))
}

/// Splits the characters of `s` from `start` on at every `sep`.
pub(crate) fn split_from(s: &str, chars: &Vec<char>, start: usize, sep: char) -> (pieces: Vec<String>)
    requires
        chars@ == s@,
        start <= chars.len(),
    ensures
        strings_view(pieces@) == split(s@.skip(start as int), sep),
{
    let n = chars.len();
    let mut pieces: Vec<String> = Vec::new();
    let mut piece_start: usize = start;
    let mut i: usize = start;
    while i < n
        invariant
            n == chars.len(),
            chars@ == s@,
            start <= piece_start <= i <= n,
            forall|j: int| piece_start <= j < i ==> chars@[j] != sep,
            strings_view(pieces@) + split(s@.skip(piece_start as int), sep) == split(
                s@.skip(start as int),
                sep,
            ),
        decreases n - i,
    {
        if chars[i] == sep {
            let piece = slice_string(s, piece_start, i);
            proof {
                let rest = s@.skip(piece_start as int);
                lemma_find_is(rest, sep, i - piece_start);
                assert(rest.take(i - piece_start) =~= piece@);
                assert(rest.skip(i - piece_start + 1) =~= s@.skip(i + 1));
                assert(strings_view(pieces@.push(piece)) =~= strings_view(pieces@) + seq![piece@]);
            }
            pieces.push(piece);
            piece_start = i + 1;
        }
        i += 1;
    }
    let piece = slice_string(s, piece_start, n);
    proof {
        let rest = s@.skip(piece_start as int);
        lemma_find_is(rest, sep, n - piece_start);
        assert(rest =~= piece@);
        assert(strings_view(pieces@.push(piece)) =~= strings_view(pieces@) + seq![piece@]);
    }
    pieces.push(piece);
    pieces
}

} // verus!
