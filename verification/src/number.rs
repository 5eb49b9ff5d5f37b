//! Numbers as they are written: unsigned integers and decimal numerals.

use vstd::prelude::*;
use crate::text::string_of;

verus! {

/// Whether `c` is a decimal digit.
pub open spec fn is_digit(c: char) -> bool {
    0x30 <= c as u32 <= 0x39
}

/// The value of the digit `c`; zero for any other character.
pub open spec fn digit_value(c: char) -> nat {
    if is_digit(c) {
        (c as u32 - 0x30) as nat
    } else {
        0
    }
}

/// The number that the digits of `s` write in base ten.
pub open spec fn number_of(s: Seq<char>) -> nat
    decreases s.len(),
{
    if s.len() == 0 {
        0
    } else {
        10 * number_of(s.drop_last()) + digit_value(s.last())
    }
}

/// Whether `s` holds digits only.
pub open spec fn all_digits(s: Seq<char>) -> bool {
    forall|i: int| 0 <= i < s.len() ==> is_digit(#[trigger] s[i])
}

/// `s` without one leading plus sign.
pub open spec fn unsign(s: Seq<char>) -> Seq<char> {
    if s.len() > 0 && s[0] == '+' {
        s.subrange(1, s.len() as int)
    } else {
        s
    }
}

/// The unsigned integer that `s` writes: an optional plus sign and then one
/// or more digits, whose value fits the machine word.
pub open spec fn unsigned(s: Seq<char>) -> Option<usize> {
    let d = unsign(s);
    if d.len() > 0 && all_digits(d) && number_of(d) <= usize::MAX {
        Some(number_of(d) as usize)
    } else {
        None
    }
}

/// A longer run of digits never writes a smaller number than its beginning.
pub proof fn lemma_number_of_grows(s: Seq<char>, k: int)
    requires
        0 <= k <= s.len(),
    ensures
        number_of(s.subrange(0, k)) <= number_of(s),
    decreases s.len() - k,
{
    if k == s.len() {
        assert(s.subrange(0, k) =~= s);
    } else {
        lemma_number_of_grows(s.drop_last(), k);
        assert(s.drop_last().subrange(0, k) =~= s.subrange(0, k));
    }
}

/// Tests whether `c` is a decimal digit.
pub fn digit(c: char) -> (r: bool)
    ensures
        r == is_digit(c),
{
    let n: u32 = c as u32;
    0x30 <= n && n <= 0x39
}

/// Reads an unsigned integer.
pub fn parse_usize(s: &[char]) -> (r: Option<usize>)
    ensures
        r == unsigned(s@),
{
    let n: usize = s.len();
    let start: usize = if n > 0 && s[0] == '+' {
        1
    } else {
        0
    };
    let ghost d = unsign(s@);
    assert(d =~= s@.subrange(start as int, n as int));
    if start == n {
        return None;
    }
    let mut acc: usize = 0;
    let mut i: usize = start;
    while i < n
        invariant
            start <= i <= n == s@.len(),
            d == s@.subrange(start as int, n as int),
            d == unsign(s@),
            all_digits(d.subrange(0, i - start)),
            acc == number_of(d.subrange(0, i - start)),
        decreases n - i,
    {
        let c = s[i];
        if !digit(c) {
            assert(!is_digit(d[i - start]));
            return None;
        }
        let v: usize = (c as u32 - 0x30) as usize;
        let ghost next = d.subrange(0, i + 1 - start);
        assert(next.drop_last() =~= d.subrange(0, i - start));
        assert(next.last() == c);
        assert(number_of(next) == 10 * acc + v);
        if acc > (usize::MAX - v) / 10 {
            proof {
                lemma_number_of_grows(d, i + 1 - start);
            }
            return None;
        }
        acc = 10 * acc + v;
        i += 1;
    }
    assert(d.subrange(0, n - start) =~= d);
    Some(acc)
}

/// The first index at or after `from` that holds no digit, or the length.
pub open spec fn skip_digits(s: Seq<char>, from: int) -> int
    decreases s.len() - from,
{
    if 0 <= from < s.len() && is_digit(s[from]) {
        skip_digits(s, from + 1)
    } else {
        from
    }
}

/// Whether `c` is a plus or a minus sign.
pub open spec fn is_sign(c: char) -> bool {
    c == '+' || c == '-'
}

/// Whether `s` is a decimal numeral: an optional sign; digits with at most
/// one point among them, before them or after them, and at least one digit;
/// then optionally `e` or `E`, an optional sign and one or more digits.
pub open spec fn is_decimal(s: Seq<char>) -> bool {
    let a: int = if s.len() > 0 && is_sign(s[0]) {
        1
    } else {
        0
    };
    let b = skip_digits(s, a);
    let point = b < s.len() && s[b] == '.';
    let c = if point {
        skip_digits(s, b + 1)
    } else {
        b
    };
    let written = if point {
        c - a - 1
    } else {
        b - a
    };
    let power = c < s.len() && (s[c] == 'e' || s[c] == 'E');
    let d = if c + 1 < s.len() && is_sign(s[c + 1]) {
        c + 2
    } else {
        c + 1
    };
    &&& written > 0
    &&& if power {
        d < skip_digits(s, d) && skip_digits(s, d) == s.len()
    } else {
        c == s.len()
    }
}

/// Steps over the digits of `s` from `from` on.
fn pass_digits(s: &[char], from: usize) -> (r: usize)
    requires
        from <= s@.len(),
    ensures
        from <= r <= s@.len(),
        r == skip_digits(s@, from as int),
{
    let n: usize = s.len();
    let mut i: usize = from;
    while i < n && digit(s[i])
        invariant
            from <= i <= n == s@.len(),
            skip_digits(s@, i as int) == skip_digits(s@, from as int),
        decreases n - i,
    {
        i += 1;
    }
    i
}

/// Tests whether `s` is a decimal numeral.
pub fn decimal(s: &[char]) -> (r: bool)
    ensures
        r == is_decimal(s@),
{
    let n: usize = s.len();
    let a: usize = if n > 0 && (s[0] == '+' || s[0] == '-') {
        1
    } else {
        0
    };
    let b = pass_digits(s, a);
    let point = b < n && s[b] == '.';
    let c = if point {
        pass_digits(s, b + 1)
    } else {
        b
    };
    let written: usize = if point {
        c - a - 1
    } else {
        b - a
    };
    if written == 0 {
        return false;
    }
    if c < n && (s[c] == 'e' || s[c] == 'E') {
        let d: usize = if c + 1 < n && (s[c + 1] == '+' || s[c + 1] == '-') {
            c + 2
        } else {
            c + 1
        };
        let e = pass_digits(s, d);
        d < e && e == n
    } else {
        c == n
    }
}

/// A decimal numeral, kept as it was written.
#[derive(Debug)]
pub struct Number {
    text: String,
}

impl View for Number {
    type V = Seq<char>;

    closed spec fn view(&self) -> Seq<char> {
        self.text@
    }
}

impl Clone for Number {
    fn clone(&self) -> (r: Number)
        ensures
            r@ == self@,
    {
        proof {
            use_type_invariant(self);
        }
        Number { text: self.text.clone() }
    }
}

/// The numerals of `v` as written.
pub open spec fn numbers(v: Seq<Number>) -> Seq<Seq<char>> {
    v.map_values(|n: Number| n@)
}

/// The numerals of the rows of `v` as written.
pub open spec fn matrix(v: Seq<Vec<Number>>) -> Seq<Seq<Seq<char>>> {
    v.map_values(|r: Vec<Number>| numbers(r@))
}

impl Number {
    #[verifier::type_invariant]
    spec fn well_formed(&self) -> bool {
        is_decimal(self.text@)
    }

    /// Reads a numeral; `None` when `s` is not one.
    pub fn parse(s: &[char]) -> (r: Option<Number>)
        ensures
            r is Some <==> is_decimal(s@),
            r matches Some(n) ==> n@ == s@,
    {
        if decimal(s) {
            Some(Number { text: string_of(s) })
        } else {
            None
        }
    }

    /// The numeral as written.
    pub fn as_str(&self) -> (r: &str)
        ensures
            r@ == self@,
            is_decimal(r@),
    {
        proof {
            use_type_invariant(self);
        }
        self.text.as_str()
    }
}

} // verus!
