//! Shared parsing primitives: character classes, whitespace skipping, tag
//! matching, decimal digit runs, and rendering of decimal numbers.
//!
//! Every grammar in this crate is a recursive-descent parser over a
//! `Vec<char>` together with a cursor position. Each executable step has a
//! specification-level twin, so that the contracts of the grammars can pin
//! their results down exactly.

use vstd::prelude::*;

verus! {

// ----------------------------------------------------------------------
// character classes
// ----------------------------------------------------------------------

/// The whitespace characters tolerated between grammar tokens.
pub open spec fn is_ws_char(c: char) -> bool {
    c == ' ' || c == '\t' || c == '\r' || c == '\n'
}

pub open spec fn is_digit_char(c: char) -> bool {
    '0' <= c && c <= '9'
}

/// Numeric value of a decimal digit character.
pub open spec fn digit_val(c: char) -> int {
    c as int - '0' as int
}

/// The decimal digit character for a value in `0 ..= 9`.
pub open spec fn digit_char(d: int) -> char {
    if d == 0 { '0' }
    else if d == 1 { '1' }
    else if d == 2 { '2' }
    else if d == 3 { '3' }
    else if d == 4 { '4' }
    else if d == 5 { '5' }
    else if d == 6 { '6' }
    else if d == 7 { '7' }
    else if d == 8 { '8' }
    else { '9' }
}

pub proof fn lemma_digit_char_val(d: int)
    requires
        0 <= d <= 9,
    ensures
        is_digit_char(digit_char(d)),
        digit_val(digit_char(d)) == d,
{
}

pub fn is_ws(c: char) -> (b: bool)
    ensures
        b == is_ws_char(c),
{
    c == ' ' || c == '\t' || c == '\r' || c == '\n'
}

pub fn is_digit(c: char) -> (b: bool)
    ensures
        b == is_digit_char(c),
{
    let u = c as u32;
    48 <= u && u <= 57
}

/// The numeric value of a decimal digit character.
pub fn digit_of(c: char) -> (d: u8)
    requires
        is_digit_char(c),
    ensures
        d as int == digit_val(c),
        d <= 9,
{
    ((c as u32) - 48) as u8
}

pub fn digit_to_char(d: u8) -> (c: char)
    requires
        d <= 9,
    ensures
        c == digit_char(d as int),
{
    if d == 0 { '0' }
    else if d == 1 { '1' }
    else if d == 2 { '2' }
    else if d == 3 { '3' }
    else if d == 4 { '4' }
    else if d == 5 { '5' }
    else if d == 6 { '6' }
    else if d == 7 { '7' }
    else if d == 8 { '8' }
    else { '9' }
}

/// Digits are distinct from whitespace and from every punctuation
/// character the grammars compare them against.
pub proof fn lemma_digit_char_class(c: char)
    requires
        is_digit_char(c),
    ensures
        !is_ws_char(c),
        c != '(',
        c != ')',
        c != 'G',
        c != 'M',
        c != '-',
        c != '.',
        c != '"',
        c != 's',
        c != 'n',
        c != 'r',
        c != 't',
{
}

// ----------------------------------------------------------------------
// whitespace skipping
// ----------------------------------------------------------------------

/// First position at or after `i` that does not hold a whitespace character.
pub open spec fn skip_ws(s: Seq<char>, i: int) -> int
    recommends
        0 <= i <= s.len(),
    decreases s.len() - i when 0 <= i <= s.len()
{
    if i < s.len() && is_ws_char(s[i]) {
        skip_ws(s, i + 1)
    } else {
        i
    }
}

pub proof fn lemma_skip_ws_bounds(s: Seq<char>, i: int)
    requires
        0 <= i <= s.len(),
    ensures
        i <= skip_ws(s, i) <= s.len(),
        skip_ws(s, i) < s.len() ==> !is_ws_char(s[skip_ws(s, i)]),
        forall|k: int| i <= k < skip_ws(s, i) ==> is_ws_char(s[k]),
    decreases s.len() - i,
{
    if i < s.len() && is_ws_char(s[i]) {
        lemma_skip_ws_bounds(s, i + 1);
    }
}

/// Characterizes `skip_ws` by its result: a run of whitespace followed by a
/// non-whitespace character (or the end of the input) determines it.
pub proof fn lemma_skip_ws_is(s: Seq<char>, i: int, j: int)
    requires
        0 <= i <= j <= s.len(),
        forall|k: int| i <= k < j ==> is_ws_char(s[k]),
        j == s.len() || !is_ws_char(s[j]),
    ensures
        skip_ws(s, i) == j,
    decreases j - i,
{
    if i < j {
        lemma_skip_ws_is(s, i + 1, j);
    }
}

pub fn skip_ws_at(s: &Vec<char>, i: usize) -> (j: usize)
    requires
        i <= s.len(),
    ensures
        j as int == skip_ws(s@, i as int),
        i <= j <= s.len(),
{
    proof {
        lemma_skip_ws_bounds(s@, i as int);
    }
    let mut j: usize = i;
    while j < s.len() && is_ws(s[j])
        invariant
            i <= j <= s.len(),
            skip_ws(s@, i as int) == skip_ws(s@, j as int),
        decreases s.len() - j,
    {
        j = j + 1;
    }
    j
}

// ----------------------------------------------------------------------
// tag matching
// ----------------------------------------------------------------------

/// The characters of `t` occur verbatim in `s` starting at `i`.
pub open spec fn match_tag(s: Seq<char>, i: int, t: Seq<char>) -> bool {
    &&& 0 <= i
    &&& i + t.len() <= s.len()
    &&& forall|k: int| 0 <= k < t.len() ==> s[i + k] == t[k]
}

/// Consumes the literal `t` at position `i`, if present.
pub fn eat_tag(s: &Vec<char>, i: usize, t: &str) -> (r: Option<usize>)
    requires
        i <= s.len(),
    ensures
        match r {
            Some(j) => {
                &&& match_tag(s@, i as int, t@)
                &&& j as int == i + t@.len()
                &&& i <= j <= s.len()
            },
            None => !match_tag(s@, i as int, t@),
        },
{
    let n = t.unicode_len();
    if n > s.len() - i {
        return None;
    }
    let mut k: usize = 0;
    while k < n
        invariant
            0 <= k <= n,
            i + n <= s.len(),
            n == t@.len(),
            forall|m: int| 0 <= m < k ==> s@[i + m] == t@[m],
        decreases n - k,
    {
        if s[i + k] != t.get_char(k) {
            return None;
        }
        k = k + 1;
    }
    Some(i + n)
}

/// An optional keyword: skips leading whitespace and consumes the keyword
/// when it is present; consumes nothing at all when it is not.
pub open spec fn spec_flag(s: Seq<char>, i: int, t: Seq<char>) -> (int, bool)
    recommends
        0 <= i <= s.len(),
{
    let j = skip_ws(s, i);
    if match_tag(s, j, t) {
        (j + t.len(), true)
    } else {
        (i, false)
    }
}

pub fn eat_flag(s: &Vec<char>, i: usize, t: &str) -> (r: (usize, bool))
    requires
        i <= s.len(),
    ensures
        spec_flag(s@, i as int, t@) == (r.0 as int, r.1),
        i <= r.0 <= s.len(),
{
    let j = skip_ws_at(s, i);
    match eat_tag(s, j, t) {
        Some(j2) => (j2, true),
        None => (i, false),
    }
}

// ----------------------------------------------------------------------
// digit runs and decimal values
// ----------------------------------------------------------------------

/// First position at or after `i` that does not hold a decimal digit.
pub open spec fn digit_run_end(s: Seq<char>, i: int) -> int
    recommends
        0 <= i <= s.len(),
    decreases s.len() - i when 0 <= i <= s.len()
{
    if i < s.len() && is_digit_char(s[i]) {
        digit_run_end(s, i + 1)
    } else {
        i
    }
}

pub proof fn lemma_digit_run_bounds(s: Seq<char>, i: int)
    requires
        0 <= i <= s.len(),
    ensures
        i <= digit_run_end(s, i) <= s.len(),
        digit_run_end(s, i) < s.len() ==> !is_digit_char(s[digit_run_end(s, i)]),
        forall|k: int| i <= k < digit_run_end(s, i) ==> is_digit_char(s[k]),
    decreases s.len() - i,
{
    if i < s.len() && is_digit_char(s[i]) {
        lemma_digit_run_bounds(s, i + 1);
    }
}

/// Characterizes `digit_run_end` by its result.
pub proof fn lemma_digit_run_is(s: Seq<char>, i: int, j: int)
    requires
        0 <= i <= j <= s.len(),
        forall|k: int| i <= k < j ==> is_digit_char(s[k]),
        j == s.len() || !is_digit_char(s[j]),
    ensures
        digit_run_end(s, i) == j,
    decreases j - i,
{
    if i < j {
        lemma_digit_run_is(s, i + 1, j);
    }
}

pub fn digit_run_at(s: &Vec<char>, i: usize) -> (j: usize)
    requires
        i <= s.len(),
    ensures
        j as int == digit_run_end(s@, i as int),
        i <= j <= s.len(),
{
    proof {
        lemma_digit_run_bounds(s@, i as int);
    }
    let mut j: usize = i;
    while j < s.len() && is_digit(s[j])
        invariant
            i <= j <= s.len(),
            digit_run_end(s@, i as int) == digit_run_end(s@, j as int),
        decreases s.len() - j,
    {
        j = j + 1;
    }
    j
}

/// First position at or after `i` holding the character `c`, or the
/// length of `s` when there is none.
pub open spec fn find_char(s: Seq<char>, i: int, c: char) -> int
    recommends
        0 <= i <= s.len(),
    decreases s.len() - i when 0 <= i <= s.len()
{
    if i < s.len() {
        if s[i] == c {
            i
        } else {
            find_char(s, i + 1, c)
        }
    } else {
        i
    }
}

pub proof fn lemma_find_char_bounds(s: Seq<char>, i: int, c: char)
    requires
        0 <= i <= s.len(),
    ensures
        i <= find_char(s, i, c) <= s.len(),
        find_char(s, i, c) < s.len() ==> s[find_char(s, i, c)] == c,
    decreases s.len() - i,
{
    if i < s.len() && s[i] != c {
        lemma_find_char_bounds(s, i + 1, c);
    }
}

pub fn find_char_at(s: &Vec<char>, i: usize, c: char) -> (j: usize)
    requires
        i <= s.len(),
    ensures
        j as int == find_char(s@, i as int, c),
        i <= j <= s.len(),
{
    proof {
        lemma_find_char_bounds(s@, i as int, c);
    }
    let mut j: usize = i;
    while j < s.len() && s[j] != c
        invariant
            i <= j <= s.len(),
            find_char(s@, i as int, c) == find_char(s@, j as int, c),
        decreases s.len() - j,
    {
        j = j + 1;
    }
    j
}

/// Value of the decimal numeral held in `s` at positions `i ..< j`
/// (most significant digit first).
pub open spec fn digits_val(s: Seq<char>, i: int, j: int) -> int
    recommends
        0 <= i <= j <= s.len(),
        forall|k: int| i <= k < j ==> is_digit_char(s[k]),
    decreases j - i when i <= j
{
    if i >= j {
        0
    } else {
        digits_val(s, i, j - 1) * 10 + digit_val(s[j - 1])
    }
}

pub proof fn lemma_digits_val_nonneg(s: Seq<char>, i: int, j: int)
    requires
        0 <= i <= j <= s.len(),
        forall|k: int| i <= k < j ==> is_digit_char(s[k]),
    ensures
        digits_val(s, i, j) >= 0,
    decreases j - i,
{
    if i < j {
        lemma_digits_val_nonneg(s, i, j - 1);
    }
}

/// A numeral whose first digit is not `'0'` has value at least 1.
pub proof fn lemma_digits_val_pos(s: Seq<char>, i: int, j: int)
    requires
        0 <= i < j <= s.len(),
        forall|k: int| i <= k < j ==> is_digit_char(s[k]),
        s[i] != '0',
    ensures
        digits_val(s, i, j) >= 1,
    decreases j - i,
{
    reveal_with_fuel(digits_val, 2);
    if i == j - 1 {
        assert(digit_val(s[i]) >= 1);
    } else {
        lemma_digits_val_pos(s, i, j - 1);
        lemma_digits_val_nonneg(s, i, j - 1);
    }
}

// ----------------------------------------------------------------------
// rendering decimal numbers
// ----------------------------------------------------------------------

/// Decimal numeral of a non-negative number, most significant digit first,
/// with no leading zero (a lone `'0'` for zero).
pub open spec fn dec_digits(n: int) -> Seq<char>
    recommends
        n >= 0,
    decreases n when n >= 0
{
    if n <= 9 {
        seq![digit_char(if n >= 0 { n } else { 0 })]
    } else {
        dec_digits(n / 10) + seq![digit_char(n % 10)]
    }
}

pub proof fn lemma_dec_digits_wf(n: int)
    requires
        n >= 0,
    ensures
        dec_digits(n).len() >= 1,
        forall|k: int| 0 <= k < dec_digits(n).len() ==> is_digit_char(#[trigger] dec_digits(n)[k]),
        n >= 1 ==> dec_digits(n)[0] != '0',
        n <= 9 ==> dec_digits(n).len() == 1,
        n <= 99 ==> dec_digits(n).len() <= 2,
        n <= 999 ==> dec_digits(n).len() <= 3,
        n <= 9999 ==> dec_digits(n).len() <= 4,
        n <= 99999 ==> dec_digits(n).len() <= 5,
    decreases n,
{
    if n <= 9 {
        lemma_digit_char_val(n);
    } else {
        lemma_dec_digits_wf(n / 10);
        lemma_digit_char_val(n % 10);
    }
}

/// The numeral written by `dec_digits` reads back to the same value.
pub proof fn lemma_digits_val_of_dec(s: Seq<char>, i: int, n: int)
    requires
        n >= 0,
        0 <= i,
        i + dec_digits(n).len() <= s.len(),
        forall|k: int| 0 <= k < dec_digits(n).len() ==> s[i + k] == #[trigger] dec_digits(n)[k],
    ensures
        digits_val(s, i, i + dec_digits(n).len()) == n,
    decreases n,
{
    reveal_with_fuel(digits_val, 2);
    lemma_dec_digits_wf(n);
    if n <= 9 {
        assert(s[i] == dec_digits(n)[0]);
        assert(dec_digits(n)[0] == digit_char(n));
        assert(digits_val(s, i, i + 1) == digit_val(s[i]));
        lemma_digit_char_val(n);
    } else {
        let d = dec_digits(n / 10);
        lemma_dec_digits_wf(n / 10);
        assert forall|k: int| 0 <= k < d.len() implies s[i + k] == #[trigger] d[k] by {
            assert(dec_digits(n)[k] == d[k]);
        }
        lemma_digits_val_of_dec(s, i, n / 10);
        lemma_digit_char_val(n % 10);
        let len = dec_digits(n).len() as int;
        assert(len == d.len() + 1);
        assert(s[i + len - 1] == dec_digits(n)[len - 1]);
        assert(dec_digits(n)[len - 1] == digit_char(n % 10));
        assert(digits_val(s, i, i + len)
            == digits_val(s, i, i + len - 1) * 10 + digit_val(s[i + len - 1]));
        assert(digits_val(s, i, i + len - 1) == n / 10);
        assert(digits_val(s, i, i + len) == (n / 10) * 10 + n % 10);
    }
}

/// Appends the decimal numeral of `n` to `out`.
pub fn push_dec_u16(out: &mut Vec<char>, n: u16)
    ensures
        final(out)@ == old(out)@ + dec_digits(n as int),
    decreases n,
{
    if n <= 9 {
        out.push(digit_to_char(n as u8));
        assert(out@ =~= old(out)@ + dec_digits(n as int));
    } else {
        push_dec_u16(out, n / 10);
        out.push(digit_to_char((n % 10) as u8));
        assert(out@ =~= old(out)@ + dec_digits(n as int));
    }
}

// ----------------------------------------------------------------------
// positive byte numerals
// ----------------------------------------------------------------------

/// Parses a canonical decimal numeral for a positive number that fits in a
/// byte: one to three digits, no leading zero, value at most 255.
pub open spec fn spec_parse_pos_u8(s: Seq<char>, i: int) -> Option<(int, u8)>
    recommends
        0 <= i <= s.len(),
{
    let j = digit_run_end(s, i);
    if j == i {
        None
    } else if s[i] == '0' {
        None
    } else if j - i > 3 {
        None
    } else {
        let v = digits_val(s, i, j);
        if v <= 255 {
            Some((j, v as u8))
        } else {
            None
        }
    }
}

pub fn parse_pos_u8(s: &Vec<char>, i: usize) -> (r: Option<(usize, u8)>)
    requires
        i <= s.len(),
    ensures
        match r {
            Some((j, v)) => {
                &&& spec_parse_pos_u8(s@, i as int) == Some((j as int, v))
                &&& i < j <= s.len()
                &&& 1 <= v
            },
            None => spec_parse_pos_u8(s@, i as int) is None,
        },
{
    proof {
        reveal_with_fuel(digits_val, 4);
        lemma_digit_run_bounds(s@, i as int);
    }
    let j = digit_run_at(s, i);
    if j == i {
        return None;
    }
    if s[i] == '0' {
        return None;
    }
    if j - i > 3 {
        return None;
    }
    proof {
        lemma_digits_val_pos(s@, i as int, j as int);
    }
    let len = j - i;
    let d0 = (s[i] as u32) - 48;
    let v: u32 = if len == 1 {
        assert(digits_val(s@, i as int, j as int) == digit_val(s@[i as int]));
        d0
    } else if len == 2 {
        let d1 = (s[i + 1] as u32) - 48;
        assert(digits_val(s@, i as int, j as int)
            == digit_val(s@[i as int]) * 10 + digit_val(s@[i as int + 1]));
        d0 * 10 + d1
    } else {
        let d1 = (s[i + 1] as u32) - 48;
        let d2 = (s[i + 2] as u32) - 48;
        assert(digits_val(s@, i as int, j as int)
            == (digit_val(s@[i as int]) * 10 + digit_val(s@[i as int + 1])) * 10
                + digit_val(s@[i as int + 2]));
        (d0 * 10 + d1) * 10 + d2
    };
    if v <= 255 {
        Some((j, v as u8))
    } else {
        None
    }
}

/// A rendered positive byte numeral, followed by anything that does not
/// start with a digit, parses back to the same number.
pub proof fn lemma_parse_pos_u8_inverse(s: Seq<char>, i: int, n: u8)
    requires
        n >= 1,
        0 <= i,
        i + dec_digits(n as int).len() <= s.len(),
        forall|k: int| 0 <= k < dec_digits(n as int).len()
            ==> s[i + k] == #[trigger] dec_digits(n as int)[k],
        i + dec_digits(n as int).len() == s.len()
            || !is_digit_char(s[i + dec_digits(n as int).len()]),
    ensures
        spec_parse_pos_u8(s, i) == Some((i + dec_digits(n as int).len(), n)),
{
    let len = dec_digits(n as int).len() as int;
    lemma_dec_digits_wf(n as int);
    assert forall|k: int| i <= k < i + len implies is_digit_char(s[k]) by {
        assert(s[k] == dec_digits(n as int)[k - i]);
    }
    lemma_digit_run_is(s, i, i + len);
    lemma_digits_val_of_dec(s, i, n as int);
    assert(s[i] == dec_digits(n as int)[0]);
}

// ----------------------------------------------------------------------
// strings and character vectors
// ----------------------------------------------------------------------

/// The characters of a string slice, in order.
pub fn str_to_chars(s: &str) -> (v: Vec<char>)
    ensures
        v@ == s@,
{
    let n = s.unicode_len();
    let mut v: Vec<char> = Vec::new();
    let mut i: usize = 0;
    while i < n
        invariant
            i <= n,
            n == s@.len(),
            v@ =~= s@.subrange(0, i as int),
        decreases n - i,
    {
        v.push(s.get_char(i));
        i = i + 1;
    }
    assert(v@ =~= s@);
    v
}

/// Appends the characters of `t` to `out`.
pub fn push_str_chars(out: &mut Vec<char>, t: &str)
    ensures
        final(out)@ == old(out)@ + t@,
{
    let n = t.unicode_len();
    let mut k: usize = 0;
    while k < n
        invariant
            k <= n,
            n == t@.len(),
            out@ =~= old(out)@ + t@.subrange(0, k as int),
        decreases n - k,
    {
        out.push(t.get_char(k));
        k = k + 1;
    }
    assert(final(out)@ =~= old(out)@ + t@);
}

/// Character-for-character equality of two string slices.
pub fn str_eq(a: &str, b: &str) -> (r: bool)
    ensures
        r == (a@ == b@),
{
    let n = a.unicode_len();
    let m = b.unicode_len();
    if n != m {
        return false;
    }
    let mut k: usize = 0;
    while k < n
        invariant
            k <= n,
            n == a@.len(),
            n == b@.len(),
            forall|i: int| 0 <= i < k ==> a@[i] == b@[i],
        decreases n - k,
    {
        if a.get_char(k) != b.get_char(k) {
            return false;
        }
        k = k + 1;
    }
    proof {
        assert(a@ =~= b@);
    }
    true
}

/// The characters of `s` at positions `i ..< j`, as a string.
pub fn chars_range_to_string(s: &Vec<char>, i: usize, j: usize) -> (out: String)
    requires
        i <= j <= s.len(),
    ensures
        out@ == s@.subrange(i as int, j as int),
{
    let mut buf: Vec<char> = Vec::new();
    let mut k: usize = i;
    while k < j
        invariant
            i <= k <= j <= s.len(),
            buf@ =~= s@.subrange(i as int, k as int),
        decreases j - k,
    {
        buf.push(s[k]);
        k = k + 1;
    }
    assert(buf@ =~= s@.subrange(i as int, j as int));
    chars_to_string(&buf)
}

/// Relies on `String`'s `FromIterator<char>` implementation: collecting an
/// iterator over characters builds the string of exactly those characters.
#[verifier::external_body]
pub fn chars_to_string(v: &Vec<char>) -> (s: String)
    ensures
        s@ == v@,
{
    v.iter().collect()
}

} // verus!
