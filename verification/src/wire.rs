//! Primitives of the session wire format: character classes, scanning
//! helpers, and the grammar of JSON number literals, which position
//! updates carry for their coordinates.  Messages travel as text, so the
//! whole format is specified over `Seq<char>`.

use vstd::prelude::*;
use vstd::string::*;

verus! {

/// A decimal digit of a JSON number literal.
pub open spec fn is_digit(c: char) -> bool {
    48 <= c as u32 && c as u32 <= 57
}

/// Exec test for [`is_digit`].
pub fn digit(c: char) -> (r: bool)
    ensures
        r == is_digit(c),
{
    let u: u32 = c as u32;
    48 <= u && u <= 57
}

/// Index of the first non-digit at or after `i`, or the length of `s` if
/// digits run to the end.
pub open spec fn digits_end(s: Seq<char>, i: int) -> int
    decreases s.len() - i,
{
    if i < 0 || i >= s.len() || !is_digit(s[i]) {
        i
    } else {
        digits_end(s, i + 1)
    }
}

pub proof fn lemma_digits_end(s: Seq<char>, i: int)
    requires
        0 <= i <= s.len(),
    ensures
        i <= digits_end(s, i) <= s.len(),
        forall|k: int| i <= k < digits_end(s, i) ==> is_digit(#[trigger] s[k]),
        digits_end(s, i) < s.len() ==> !is_digit(s[digits_end(s, i)]),
    decreases s.len() - i,
{
    if i < s.len() && is_digit(s[i]) {
        lemma_digits_end(s, i + 1);
    }
}

/// Index of the first occurrence of `c` at or after `i`, or the length
/// of `s` when there is none.
pub open spec fn find_from(s: Seq<char>, i: int, c: char) -> int
    decreases s.len() - i,
{
    if i < 0 || i >= s.len() {
        s.len() as int
    } else if s[i] == c {
        i
    } else {
        find_from(s, i + 1, c)
    }
}

pub proof fn lemma_find_from(s: Seq<char>, i: int, c: char)
    requires
        0 <= i <= s.len(),
    ensures
        i <= find_from(s, i, c) <= s.len(),
        find_from(s, i, c) < s.len() ==> s[find_from(s, i, c)] == c,
        forall|k: int| i <= k < find_from(s, i, c) ==> #[trigger] s[k] != c,
    decreases s.len() - i,
{
    if i < s.len() && s[i] != c {
        lemma_find_from(s, i + 1, c);
    }
}

/// Exec scan matching [`digits_end`].
pub fn digits_end_x(s: &str, i: usize) -> (r: usize)
    requires
        i <= s@.len(),
    ensures
        r == digits_end(s@, i as int),
        i <= r <= s@.len(),
{
    proof {
        lemma_digits_end(s@, i as int);
    }
    let n: usize = s.unicode_len();
    let mut j: usize = i;
    while j < n && digit(s.get_char(j))
        invariant
            i <= j <= n,
            n == s@.len(),
            digits_end(s@, i as int) == digits_end(s@, j as int),
        decreases n - j,
    {
        j = j + 1;
    }
    j
}

/// Exec scan matching [`find_from`].
pub fn find_from_x(s: &str, i: usize, c: char) -> (r: usize)
    requires
        i <= s@.len(),
    ensures
        r == find_from(s@, i as int, c),
        i <= r <= s@.len(),
{
    proof {
        lemma_find_from(s@, i as int, c);
    }
    let n: usize = s.unicode_len();
    let mut j: usize = i;
    while j < n && s.get_char(j) != c
        invariant
            i <= j <= n,
            n == s@.len(),
            find_from(s@, i as int, c) == find_from(s@, j as int, c),
        decreases n - j,
    {
        j = j + 1;
    }
    j
}

/// Equality of two string slices, decided by contents.
pub fn str_eq(a: &str, b: &str) -> (r: bool)
    ensures
        r == (a@ == b@),
{
    let sa: String = a.to_owned();
    let sb: String = b.to_owned();
    sa == sb
}

/// Whether `s[from..to]` equals the expected text `lit`.
pub fn match_at(s: &str, from: usize, to: usize, lit: &str) -> (r: bool)
    requires
        from <= to <= s@.len(),
    ensures
        r == (s@.subrange(from as int, to as int) == lit@),
{
    str_eq(s.substring_char(from, to), lit)
}

/// Owned copy of `s[from..to]`.
pub fn substr_owned(s: &str, from: usize, to: usize) -> (r: String)
    requires
        from <= to <= s@.len(),
    ensures
        r@ == s@.subrange(from as int, to as int),
{
    s.substring_char(from, to).to_owned()
}

/// The grammar of a JSON number literal: an optional minus sign, an
/// integer part with no leading zero, then an optional fraction and an
/// optional exponent.
pub open spec fn is_json_number(s: Seq<char>) -> bool {
    let n = s.len() as int;
    let i0: int = if n > 0 && s[0] == '-' {
        1
    } else {
        0
    };
    if i0 < n && is_digit(s[i0]) {
        if s[i0] == '0' {
            json_number_frac(s, i0 + 1)
        } else {
            json_number_frac(s, digits_end(s, i0))
        }
    } else {
        false
    }
}

/// Fraction-then-exponent tail of a JSON number, starting at `i`.
pub open spec fn json_number_frac(s: Seq<char>, i: int) -> bool {
    let n = s.len() as int;
    if i < n && s[i] == '.' {
        if i + 1 < n && is_digit(s[i + 1]) {
            json_number_exp(s, digits_end(s, i + 1))
        } else {
            false
        }
    } else {
        json_number_exp(s, i)
    }
}

/// Exponent tail of a JSON number, starting at `i`.
pub open spec fn json_number_exp(s: Seq<char>, i: int) -> bool {
    let n = s.len() as int;
    if i < n && (s[i] == 'e' || s[i] == 'E') {
        let j: int = if i + 1 < n && (s[i + 1] == '+' || s[i + 1] == '-') {
            i + 2
        } else {
            i + 1
        };
        j < n && is_digit(s[j]) && digits_end(s, j) == n
    } else {
        i == n
    }
}

/// Exec check matching [`is_json_number`].
pub fn check_json_number(s: &str) -> (r: bool)
    ensures
        r == is_json_number(s@),
{
    let n: usize = s.unicode_len();
    let start: usize = if n > 0 && s.get_char(0) == '-' {
        1
    } else {
        0
    };
    if !(start < n && digit(s.get_char(start))) {
        return false;
    }
    let i1: usize = if s.get_char(start) == '0' {
        start + 1
    } else {
        digits_end_x(s, start)
    };
    let i2: usize;
    if i1 < n && s.get_char(i1) == '.' {
        if i1 + 1 < n && digit(s.get_char(i1 + 1)) {
            i2 = digits_end_x(s, i1 + 1);
        } else {
            return false;
        }
    } else {
        i2 = i1;
    }
    if i2 < n && (s.get_char(i2) == 'e' || s.get_char(i2) == 'E') {
        let j: usize = if i2 + 1 < n && (s.get_char(i2 + 1) == '+' || s.get_char(i2 + 1) == '-') {
            i2 + 2
        } else {
            i2 + 1
        };
        if j < n && digit(s.get_char(j)) {
            digits_end_x(s, j) == n
        } else {
            false
        }
    } else {
        i2 == n
    }
}

/// The characters a JSON number literal may contain.
pub open spec fn is_number_char(c: char) -> bool {
    is_digit(c) || c == '-' || c == '+' || c == '.' || c == 'e' || c == 'E'
}

proof fn lemma_json_exp_chars(s: Seq<char>, i: int)
    requires
        0 <= i <= s.len(),
        json_number_exp(s, i),
    ensures
        forall|k: int| i <= k < s.len() ==> is_number_char(#[trigger] s[k]),
{
    let n = s.len() as int;
    if i < n && (s[i] == 'e' || s[i] == 'E') {
        let j: int = if i + 1 < n && (s[i + 1] == '+' || s[i + 1] == '-') {
            i + 2
        } else {
            i + 1
        };
        lemma_digits_end(s, j);
    }
}

proof fn lemma_json_frac_chars(s: Seq<char>, i: int)
    requires
        0 <= i <= s.len(),
        json_number_frac(s, i),
    ensures
        forall|k: int| i <= k < s.len() ==> is_number_char(#[trigger] s[k]),
{
    let n = s.len() as int;
    if i < n && s[i] == '.' {
        lemma_digits_end(s, i + 1);
        lemma_json_exp_chars(s, digits_end(s, i + 1));
    } else {
        lemma_json_exp_chars(s, i);
    }
}

/// A JSON number literal is built of digits, signs, a dot and an
/// exponent marker only.
pub proof fn lemma_json_number_chars(s: Seq<char>)
    requires
        is_json_number(s),
    ensures
        forall|k: int| 0 <= k < s.len() ==> is_number_char(#[trigger] s[k]),
{
    let n = s.len() as int;
    let i0: int = if n > 0 && s[0] == '-' {
        1
    } else {
        0
    };
    if s[i0] == '0' {
        lemma_json_frac_chars(s, i0 + 1);
    } else {
        lemma_digits_end(s, i0);
        lemma_json_frac_chars(s, digits_end(s, i0));
    }
}

/// No JSON number literal contains a comma; scanning for the field
/// separator therefore cannot stop inside one.
pub proof fn lemma_json_number_no_comma(s: Seq<char>)
    requires
        is_json_number(s),
    ensures
        forall|k: int| 0 <= k < s.len() ==> #[trigger] s[k] != ',',
{
    lemma_json_number_chars(s);
    assert(forall|c: char| is_number_char(c) ==> c != ',');
}

} // verus!
