//! Text as sequences of characters: white space, trimming, and splitting at a
//! separator.
//!
//! Everything here is stated over `Seq<char>`, the view of `str` and `String`.

use vstd::prelude::*;
use vstd::string::*;

verus! {

/// The characters that carry the Unicode property `White_Space`.
pub open spec fn is_white_space(c: char) -> bool {
    let n: u32 = c as u32;
    ||| 0x09 <= n <= 0x0D
    ||| n == 0x20
    ||| n == 0x85
    ||| n == 0xA0
    ||| n == 0x1680
    ||| 0x2000 <= n <= 0x200A
    ||| n == 0x2028
    ||| n == 0x2029
    ||| n == 0x202F
    ||| n == 0x205F
    ||| n == 0x3000
}

/// `s` without its leading white space.
pub open spec fn trimmed_start(s: Seq<char>) -> Seq<char>
    decreases s.len(),
{
    if s.len() > 0 && is_white_space(s.first()) {
        trimmed_start(s.drop_first())
    } else {
        s
    }
}

/// `s` without its trailing white space.
pub open spec fn trimmed_end(s: Seq<char>) -> Seq<char>
    decreases s.len(),
{
    if s.len() > 0 && is_white_space(s.last()) {
        trimmed_end(s.drop_last())
    } else {
        s
    }
}

/// `s` without the white space at either end.
pub open spec fn trimmed(s: Seq<char>) -> Seq<char> {
    trimmed_end(trimmed_start(s))
}

/// The pieces into which the occurrences of `sep` cut `s`, in order. There is
/// always at least one piece; a piece may be empty.
pub open spec fn pieces(s: Seq<char>, sep: char) -> Seq<Seq<char>>
    decreases s.len(),
{
    if s.len() == 0 {
        seq![Seq::empty()]
    } else {
        let before = pieces(s.drop_last(), sep);
        if s.last() == sep {
            before.push(Seq::empty())
        } else {
            before.drop_last().push(before.last().push(s.last()))
        }
    }
}

/// The pieces of `s`, each trimmed.
pub open spec fn trimmed_pieces(s: Seq<char>, sep: char) -> Seq<Seq<char>> {
    pieces(s, sep).map_values(|piece: Seq<char>| trimmed(piece))
}

/// How often `sep` occurs in `s`.
pub open spec fn occurrences(s: Seq<char>, sep: char) -> nat
    decreases s.len(),
{
    if s.len() == 0 {
        0
    } else if s.last() == sep {
        occurrences(s.drop_last(), sep) + 1
    } else {
        occurrences(s.drop_last(), sep)
    }
}

/// The pieces put together again, with `sep` between neighbours.
pub open spec fn joined(parts: Seq<Seq<char>>, sep: char) -> Seq<char>
    decreases parts.len(),
{
    if parts.len() == 0 {
        Seq::empty()
    } else if parts.len() == 1 {
        parts[0]
    } else {
        joined(parts.drop_last(), sep).push(sep) + parts.last()
    }
}

/// Cutting yields one piece more than there are separators.
pub proof fn lemma_pieces_count(s: Seq<char>, sep: char)
    ensures
        pieces(s, sep).len() == occurrences(s, sep) + 1,
    decreases s.len(),
{
    if s.len() > 0 {
        lemma_pieces_count(s.drop_last(), sep);
    }
}

/// No piece holds the separator.
pub proof fn lemma_pieces_hold_no_separator(s: Seq<char>, sep: char)
    ensures
        forall|k: int, j: int|
            0 <= k < pieces(s, sep).len() && 0 <= j < pieces(s, sep)[k].len() ==> pieces(
                s,
                sep,
            )[k][j] != sep,
    decreases s.len(),
{
    if s.len() > 0 {
        lemma_pieces_count(s.drop_last(), sep);
        lemma_pieces_hold_no_separator(s.drop_last(), sep);
    }
}

/// Joining the pieces with the separator gives the text back.
pub proof fn lemma_joined_pieces(s: Seq<char>, sep: char)
    ensures
        joined(pieces(s, sep), sep) == s,
    decreases s.len(),
{
    if s.len() > 0 {
        let before = pieces(s.drop_last(), sep);
        lemma_pieces_count(s.drop_last(), sep);
        lemma_joined_pieces(s.drop_last(), sep);
        if s.last() == sep {
            assert(before.push(Seq::empty()).drop_last() == before);
        } else {
            let grown = before.drop_last().push(before.last().push(s.last()));
            if before.len() > 1 {
                assert(grown.drop_last() == before.drop_last());
                assert(s.drop_last().push(s.last()) == s);
            }
        }
    }
}

/// Trimming leaves a stretch of the text whose ends are not white space, and
/// removes white space only.
pub proof fn lemma_trimmed_shape(s: Seq<char>)
    ensures
        exists|from: int, to: int|
            {
                &&& 0 <= from <= to <= s.len()
                &&& #[trigger] s.subrange(from, to) == trimmed(s)
                &&& forall|j: int| 0 <= j < from || to <= j < s.len() ==> is_white_space(s[j])
                &&& from < to ==> !is_white_space(s[from]) && !is_white_space(s[to - 1])
            },
{
    let from: int = lemma_trimmed_start_shape(s);
    let rest = s.subrange(from, s.len() as int);
    let cut: int = lemma_trimmed_end_shape(rest);
    let to: int = from + cut;
    assert(rest.subrange(0, cut) == s.subrange(from, to));
    assert forall|j: int| 0 <= j < from || to <= j < s.len() implies is_white_space(s[j]) by {
        if to <= j {
            assert(rest[j - from] == s[j]);
        }
    }
}

proof fn lemma_trimmed_start_shape(s: Seq<char>) -> (from: int)
    ensures
        0 <= from <= s.len(),
        s.subrange(from, s.len() as int) == trimmed_start(s),
        forall|j: int| 0 <= j < from ==> is_white_space(s[j]),
        from < s.len() ==> !is_white_space(s[from]),
    decreases s.len(),
{
    if s.len() > 0 && is_white_space(s.first()) {
        let inner: int = lemma_trimmed_start_shape(s.drop_first());
        assert forall|j: int| 0 <= j < inner + 1 implies is_white_space(s[j]) by {
            if j > 0 {
                assert(s.drop_first()[j - 1] == s[j]);
            }
        }
        inner + 1
    } else {
        0
    }
}

proof fn lemma_trimmed_end_shape(s: Seq<char>) -> (to: int)
    ensures
        0 <= to <= s.len(),
        s.subrange(0, to) == trimmed_end(s),
        forall|j: int| to <= j < s.len() ==> is_white_space(s[j]),
        0 < to ==> !is_white_space(s[to - 1]),
    decreases s.len(),
{
    if s.len() > 0 && is_white_space(s.last()) {
        let inner: int = lemma_trimmed_end_shape(s.drop_last());
        assert forall|j: int| inner <= j < s.len() implies is_white_space(s[j]) by {
            if j < s.len() - 1 {
                assert(s.drop_last()[j] == s[j]);
            }
        }
        inner
    } else {
        s.len() as int
    }
}

/// Whether `c` is white space.
pub fn white_space(c: char) -> (r: bool)
    ensures
        r == is_white_space(c),
{
    let n: u32 = c as u32;
    (0x09 <= n && n <= 0x0D) || n == 0x20 || n == 0x85 || n == 0xA0 || n == 0x1680 || (0x2000 <= n
        && n <= 0x200A) || n == 0x2028 || n == 0x2029 || n == 0x202F || n == 0x205F || n == 0x3000
}

/// The characters of `text`, one by one.
pub fn chars_of(text: &str) -> (chars: Vec<char>)
    ensures
        chars@ == text@,
{
    let mut chars: Vec<char> = Vec::new();
    for c in it: text.chars()
        invariant
            chars@ == it.seq().take(it.index()),
            it.seq() == text@,
    {
        chars.push(c);
    }
    chars
}

/// Whether two texts hold the same characters.
pub fn same_text(a: &str, b: &str) -> (same: bool)
    ensures
        same == (a@ == b@),
{
    let left = chars_of(a);
    let right = chars_of(b);
    if left.len() != right.len() {
        return false;
    }
    let mut i: usize = 0;
    while i < left.len()
        invariant
            left@ == a@,
            right@ == b@,
            left.len() == right.len(),
            i <= left.len(),
            left@.take(i as int) == right@.take(i as int),
        decreases left.len() - i,
    {
        if left[i] != right[i] {
            return false;
        }
        i = i + 1;
    }
    assert(left@.take(i as int) == left@);
    assert(right@.take(i as int) == right@);
    true
}

/// `first` followed by `second`.
pub fn joined_text(first: &str, second: &str) -> (text: String)
    ensures
        text@ == first@ + second@,
{
    let mut text = first.to_owned();
    text.append(second);
    text
}

/// The stretch `chars[from..to]` as a string.
pub fn string_of(chars: &Vec<char>, from: usize, to: usize) -> (s: String)
    requires
        from <= to <= chars.len(),
    ensures
        s@ == chars@.subrange(from as int, to as int),
{
    let mut s = String::new();
    let mut i: usize = from;
    while i < to
        invariant
            from <= i <= to <= chars.len(),
            s@ == chars@.subrange(from as int, i as int),
        decreases to - i,
    {
        s.push(chars[i]);
        i = i + 1;
    }
    s
}

/// The stretch `chars[from..to]`, trimmed, as a string.
pub fn trimmed_string_of(chars: &Vec<char>, from: usize, to: usize) -> (s: String)
    requires
        from <= to <= chars.len(),
    ensures
        s@ == trimmed(chars@.subrange(from as int, to as int)),
{
    let ghost whole = chars@.subrange(from as int, to as int);
    let mut lo: usize = from;
    while lo < to && white_space(chars[lo])
        invariant
            from <= lo <= to <= chars.len(),
            trimmed_start(chars@.subrange(lo as int, to as int)) == trimmed_start(whole),
        decreases to - lo,
    {
        assert(chars@.subrange(lo as int, to as int).drop_first() == chars@.subrange(
            lo + 1,
            to as int,
        ));
        lo = lo + 1;
    }
    let ghost left = chars@.subrange(lo as int, to as int);
    let mut hi: usize = to;
    while lo < hi && white_space(chars[hi - 1])
        invariant
            lo <= hi <= to <= chars.len(),
            trimmed_end(chars@.subrange(lo as int, hi as int)) == trimmed_end(left),
        decreases hi - lo,
    {
        assert(chars@.subrange(lo as int, hi as int).drop_last() == chars@.subrange(
            lo as int,
            hi - 1,
        ));
        hi = hi - 1;
    }
    string_of(chars, lo, hi)
}

/// The pieces of `text` between the occurrences of `sep`, each trimmed.
pub fn split_trimmed(text: &str, sep: char) -> (out: Vec<String>)
    ensures
        out.deep_view() == trimmed_pieces(text@, sep),
{
    let chars = chars_of(text);
    let n: usize = chars.len();
    let mut out: Vec<String> = Vec::new();
    let mut start: usize = 0;
    let mut i: usize = 0;
    while i < n
        invariant
            n == chars.len(),
            start <= i <= n,
            pieces(chars@.take(i as int), sep).len() > 0,
            pieces(chars@.take(i as int), sep).last() == chars@.subrange(start as int, i as int),
            out.deep_view() == trimmed_pieces(chars@.take(i as int), sep).drop_last(),
        decreases n - i,
    {
        let ghost seen = chars@.take(i as int);
        let ghost next = chars@.take(i + 1);
        let ghost open = chars@.subrange(start as int, i as int);
        assert(next.drop_last() == seen);
        if chars[i] == sep {
            out.push(trimmed_string_of(&chars, start, i));
            assert(trimmed_pieces(next, sep).drop_last() == trimmed_pieces(seen, sep));
            assert(trimmed_pieces(seen, sep) == trimmed_pieces(seen, sep).drop_last().push(
                trimmed(open),
            ));
            start = i + 1;
        }
        i = i + 1;
    }
    assert(chars@.take(n as int) == chars@);
    out.push(trimmed_string_of(&chars, start, n));
    assert(trimmed_pieces(chars@, sep) == trimmed_pieces(chars@, sep).drop_last().push(
        trimmed(pieces(chars@, sep).last()),
    ));
    out
}

} // verus!
