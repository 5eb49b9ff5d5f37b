//! Characters, lines and words: white space, trimming, splitting and the values of entries.

use vstd::prelude::*;
use vstd::std_specs::iter::IteratorSpec;
use vstd::string::*;

verus! {

/// Whether `c` has the Unicode property `White_Space`.
pub open spec fn is_space(c: char) -> bool {
    let n = c as u32;
    ||| 0x09 <= n <= 0x0D
    ||| n == 0x20
    ||| n == 0x85
    ||| n == 0xA0
    ||| n == 0x1680
    ||| 0x2000 <= n <= 0x200A
    ||| n == 0x2028
    ||| n == 0x2029
    ||| n == 0x202F
    ||| n == 0x205F
    ||| n == 0x3000
}

/// Tests whether `c` is Unicode white space.
pub fn space(c: char) -> (r: bool)
    ensures
        r == is_space(c),
{
    let n: u32 = c as u32;
    (0x09 <= n && n <= 0x0D) || n == 0x20 || n == 0x85 || n == 0xA0 || n == 0x1680 || (0x2000 <= n
        && n <= 0x200A) || n == 0x2028 || n == 0x2029 || n == 0x202F || n == 0x205F || n == 0x3000
}

/// The characters of `s`, in order.
pub fn chars_of(s: &str) -> (v: Vec<char>)
    ensures
        v@ == s@,
{
    let mut v: Vec<char> = Vec::new();
    let mut it = s.chars();
    loop
        invariant
            v@ + it.remaining() == s@,
            it.obeys_prophetic_iter_laws(),
            it.decrease() is Some,
        ensures
            v@ == s@,
        decreases it.decrease()->0,
    {
        broadcast use group_string_axioms;
        match it.next() {
            Some(c) => {
                let ghost before = v@;
                v.push(c);
                assert(v@ + it.remaining() =~= before + (seq![c] + it.remaining()));
            },
            None => {
                assert(v@ =~= v@ + it.remaining());
                break;
            },
        }
    }
    v
}

/// Whether `s` begins with `prefix`.
pub open spec fn has_prefix(s: Seq<char>, prefix: Seq<char>) -> bool {
    prefix.len() <= s.len() && s.subrange(0, prefix.len() as int) == prefix
}

/// Tests whether `s` begins with the characters of `prefix`.
pub fn starts_with(s: &[char], prefix: &str) -> (r: bool)
    ensures
        r == has_prefix(s@, prefix@),
{
    let n: usize = prefix.unicode_len();
    if n > s.len() {
        return false;
    }
    let mut i: usize = 0;
    while i < n
        invariant
            i <= n,
            n == prefix@.len(),
            n <= s@.len(),
            s@.subrange(0, i as int) == prefix@.subrange(0, i as int),
        decreases n - i,
    {
        if s[i] != prefix.get_char(i) {
            assert(s@.subrange(0, n as int)[i as int] != prefix@[i as int]);
            return false;
        }
        assert(s@.subrange(0, i + 1) =~= s@.subrange(0, i as int).push(s@[i as int]));
        assert(prefix@.subrange(0, i + 1) =~= prefix@.subrange(0, i as int).push(prefix@[i as int]));
        i += 1;
    }
    assert(prefix@.subrange(0, n as int) =~= prefix@);
    true
}

/// Tests whether `s` holds exactly the characters of `word`.
pub fn is_word(s: &[char], word: &str) -> (r: bool)
    ensures
        r == (s@ == word@),
{
    let n: usize = word.unicode_len();
    if n != s.len() {
        return false;
    }
    let r = starts_with(s, word);
    assert(s@.subrange(0, n as int) =~= s@);
    r
}

/// A copy of the characters of `s` from `lo` up to `hi`.
pub fn copy_range(s: &[char], lo: usize, hi: usize) -> (v: Vec<char>)
    requires
        lo <= hi <= s@.len(),
    ensures
        v@ == s@.subrange(lo as int, hi as int),
{
    let mut v: Vec<char> = Vec::new();
    let mut i: usize = lo;
    while i < hi
        invariant
            lo <= i <= hi <= s@.len(),
            v@ == s@.subrange(lo as int, i as int),
        decreases hi - i,
    {
        v.push(s[i]);
        assert(v@ =~= s@.subrange(lo as int, i + 1));
        i += 1;
    }
    v
}

/// Builds a `String` from characters, through `String`'s `FromIterator<char>`:
/// the string holds the given characters in the given order.
#[verifier::external_body]
pub(crate) fn string_of(s: &[char]) -> (r: String)
    ensures
        r@ == s@,
{
    s.iter().collect()
}

/// The first index at or after `from` that holds no white space, or the length.
pub open spec fn skip_space(s: Seq<char>, from: int) -> int
    decreases s.len() - from,
{
    if 0 <= from < s.len() && is_space(s[from]) {
        skip_space(s, from + 1)
    } else {
        from
    }
}

/// The first index at or after `from` that holds white space, or the length.
pub open spec fn skip_word(s: Seq<char>, from: int) -> int
    decreases s.len() - from,
{
    if 0 <= from < s.len() && !is_space(s[from]) {
        skip_word(s, from + 1)
    } else {
        from
    }
}

/// The end of the text before `to` once its trailing white space is cut.
pub open spec fn back_space(s: Seq<char>, to: int) -> int
    decreases to,
{
    if 0 < to <= s.len() && is_space(s[to - 1]) {
        back_space(s, to - 1)
    } else {
        to
    }
}

/// `s` without its leading and trailing white space.
pub open spec fn trim(s: Seq<char>) -> Seq<char> {
    let lo = skip_space(s, 0);
    let hi = back_space(s, s.len() as int);
    if lo < hi {
        s.subrange(lo, hi)
    } else {
        Seq::empty()
    }
}

/// Stepping over white space ends at or behind its start, on no white space,
/// and passes white space only.
pub proof fn lemma_skip_space(s: Seq<char>, from: int)
    requires
        0 <= from <= s.len(),
    ensures
        from <= skip_space(s, from) <= s.len(),
        skip_space(s, from) < s.len() ==> !is_space(s[skip_space(s, from)]),
        forall|i: int| from <= i < skip_space(s, from) ==> is_space(#[trigger] s[i]),
    decreases s.len() - from,
{
    if from < s.len() && is_space(s[from]) {
        lemma_skip_space(s, from + 1);
    }
}

/// Stepping over a word ends at or behind its start, on white space, and
/// passes none; it moves on where it starts on a word.
pub proof fn lemma_skip_word(s: Seq<char>, from: int)
    requires
        0 <= from <= s.len(),
    ensures
        from <= skip_word(s, from) <= s.len(),
        skip_word(s, from) < s.len() ==> is_space(s[skip_word(s, from)]),
        forall|i: int| from <= i < skip_word(s, from) ==> !is_space(#[trigger] s[i]),
        from < s.len() && !is_space(s[from]) ==> from < skip_word(s, from),
    decreases s.len() - from,
{
    if from < s.len() && !is_space(s[from]) {
        lemma_skip_word(s, from + 1);
    }
}

/// The bounds of `s` without the white space around it; `(0, 0)` when nothing is left.
pub fn trim_bounds(s: &[char]) -> (r: (usize, usize))
    ensures
        r.0 <= r.1 <= s@.len(),
        s@.subrange(r.0 as int, r.1 as int) == trim(s@),
{
    let n: usize = s.len();
    let mut lo: usize = 0;
    while lo < n && space(s[lo])
        invariant
            lo <= n == s@.len(),
            skip_space(s@, lo as int) == skip_space(s@, 0),
        decreases n - lo,
    {
        lo += 1;
    }
    let mut hi: usize = n;
    while hi > 0 && space(s[hi - 1])
        invariant
            hi <= n == s@.len(),
            back_space(s@, hi as int) == back_space(s@, n as int),
        decreases hi,
    {
        hi -= 1;
    }
    if lo < hi {
        (lo, hi)
    } else {
        assert(s@.subrange(0, 0) =~= Seq::<char>::empty());
        (0, 0)
    }
}

/// The white-space separated words of `s` from index `from` on.
pub open spec fn tokens_from(s: Seq<char>, from: int) -> Seq<Seq<char>>
    decreases s.len() - from,
{
    let a = skip_space(s, from);
    if 0 <= from && a < s.len() {
        let b = skip_word(s, a);
        proof {
            lemma_skip_space(s, from);
            lemma_skip_word(s, a);
        }
        seq![s.subrange(a, b)] + tokens_from(s, b)
    } else {
        Seq::empty()
    }
}

/// The white-space separated words of `s`.
pub open spec fn tokens(s: Seq<char>) -> Seq<Seq<char>> {
    tokens_from(s, 0)
}

/// The views of a vector of texts.
pub open spec fn texts(v: Seq<Vec<char>>) -> Seq<Seq<char>> {
    v.map_values(|t: Vec<char>| t@)
}

/// Splits `s` at white space into its words; none of them is empty.
pub fn split_whitespace(s: &[char]) -> (v: Vec<Vec<char>>)
    ensures
        texts(v@) == tokens(s@),
{
    let n: usize = s.len();
    let mut v: Vec<Vec<char>> = Vec::new();
    let mut i: usize = 0;
    loop
        invariant
            i <= n == s@.len(),
            texts(v@) + tokens_from(s@, i as int) == tokens(s@),
        ensures
            texts(v@) == tokens(s@),
        decreases n - i,
    {
        let ghost i0 = i;
        while i < n && space(s[i])
            invariant
                i0 <= i <= n == s@.len(),
                skip_space(s@, i as int) == skip_space(s@, i0 as int),
            decreases n - i,
        {
            i += 1;
        }
        if i >= n {
            assert(texts(v@) + Seq::<Seq<char>>::empty() =~= texts(v@));
            break;
        }
        let a: usize = i;
        while i < n && !space(s[i])
            invariant
                a <= i <= n == s@.len(),
                skip_word(s@, i as int) == skip_word(s@, a as int),
            decreases n - i,
        {
            i += 1;
        }
        proof {
            lemma_skip_word(s@, a as int);
        }
        let w = copy_range(s, a, i);
        let ghost before = v@;
        v.push(w);
        assert(texts(v@) + tokens_from(s@, i as int) =~= texts(before) + (seq![
            s@.subrange(a as int, i as int),
        ] + tokens_from(s@, i as int)));
    }
    v
}

/// The index of the first line break at or after `from`, or the length.
pub open spec fn line_end(s: Seq<char>, from: int) -> int
    decreases s.len() - from,
{
    if 0 <= from < s.len() && s[from] != '\n' {
        line_end(s, from + 1)
    } else {
        from
    }
}

/// A line ends at or behind its start and within the text.
pub proof fn lemma_line_end(s: Seq<char>, from: int)
    requires
        0 <= from <= s.len(),
    ensures
        from <= line_end(s, from) <= s.len(),
    decreases s.len() - from,
{
    if from < s.len() && s[from] != '\n' {
        lemma_line_end(s, from + 1);
    }
}

/// The lines of `s` from index `from` on, each trimmed. A line ends at a
/// line break or at the end of the text; a text that ends in a line break has
/// no empty last line.
pub open spec fn lines_from(s: Seq<char>, from: int) -> Seq<Seq<char>>
    decreases s.len() + 1 - from,
{
    if 0 <= from < s.len() {
        let e = line_end(s, from);
        proof {
            lemma_line_end(s, from);
        }
        seq![trim(s.subrange(from, e))] + lines_from(s, e + 1)
    } else {
        Seq::empty()
    }
}

/// The trimmed lines of `s`.
pub open spec fn lines(s: Seq<char>) -> Seq<Seq<char>> {
    lines_from(s, 0)
}

/// Splits `s` into its lines and trims each of them.
pub fn split_lines(s: &[char]) -> (v: Vec<Vec<char>>)
    ensures
        texts(v@) == lines(s@),
{
    let n: usize = s.len();
    let mut v: Vec<Vec<char>> = Vec::new();
    let mut i: usize = 0;
    while i < n
        invariant
            i <= n == s@.len(),
            texts(v@) + lines_from(s@, i as int) == lines(s@),
        decreases n - i,
    {
        let a: usize = i;
        while i < n && s[i] != '\n'
            invariant
                a <= i <= n == s@.len(),
                line_end(s@, i as int) == line_end(s@, a as int),
            decreases n - i,
        {
            i += 1;
        }
        let line = copy_range(s, a, i);
        let (lo, hi) = trim_bounds(line.as_slice());
        let t = copy_range(line.as_slice(), lo, hi);
        let ghost before = v@;
        v.push(t);
        let ghost e = i as int;
        if i < n {
            i += 1;
        }
        assert(lines_from(s@, i as int) == lines_from(s@, e + 1));
        assert(texts(v@) + lines_from(s@, i as int) =~= texts(before) + (seq![
            trim(s@.subrange(a as int, e)),
        ] + lines_from(s@, e + 1)));
    }
    assert(texts(v@) + Seq::<Seq<char>>::empty() =~= texts(v@));
    v
}

/// The index of the first colon at or after `from`, or the length.
pub open spec fn colon_at(s: Seq<char>, from: int) -> int
    decreases s.len() - from,
{
    if 0 <= from < s.len() && s[from] != ':' {
        colon_at(s, from + 1)
    } else {
        from
    }
}

/// The value of an entry `KEY: value`: what follows the first colon of the
/// line, trimmed; `None` for a line without a colon.
pub open spec fn value_of(line: Seq<char>) -> Option<Seq<char>> {
    let c = colon_at(line, 0);
    if c < line.len() {
        Some(trim(line.subrange(c + 1, line.len() as int)))
    } else {
        None
    }
}

/// Reads the value of an entry `KEY: value`.
pub fn value(line: &[char]) -> (r: Option<Vec<char>>)
    ensures
        match r {
            Some(v) => value_of(line@) == Some(v@),
            None => value_of(line@) is None,
        },
{
    let n: usize = line.len();
    let mut c: usize = 0;
    while c < n && line[c] != ':'
        invariant
            c <= n == line@.len(),
            colon_at(line@, c as int) == colon_at(line@, 0),
        decreases n - c,
    {
        c += 1;
    }
    if c >= n {
        return None;
    }
    let rest = copy_range(line, c + 1, n);
    let (lo, hi) = trim_bounds(rest.as_slice());
    Some(copy_range(rest.as_slice(), lo, hi))
}

} // verus!
