//! Screen size markers such as `(11-inch)`, `11-inch`, `(6.1")` or `13"`.
//!
//! Sizes are stored as inches scaled by ten, so that equality and ordering
//! are exact. The two presentation flags record which of the four textual
//! forms the value was parsed from, so that rendering reproduces it.

use vstd::prelude::*;
use crate::text::{
    skip_ws, match_tag, digit_run_end, digits_val, digit_val, digit_char, dec_digits,
    is_digit_char,
    skip_ws_at, eat_tag, digit_run_at, push_dec_u16, push_str_chars, digit_to_char,
    lemma_skip_ws_is, lemma_digit_run_is, lemma_digit_run_bounds, lemma_digits_val_of_dec,
    lemma_dec_digits_wf, lemma_digit_char_val, lemma_digit_char_class,
};

verus! {

/// A screen size in tenths of an inch, with its presentation.
#[derive(Debug, Clone, Copy)]
pub struct ScreenSize {
    /// Tenths of an inch: `110` renders as `11`, `129` renders as `12.9`.
    pub ten_inches: u16,
    /// True renders the unit as `"`, false as `-inch`.
    pub short: bool,
    /// True wraps the whole marker in parentheses.
    pub brackets: bool,
}

/// Wrapper around an optional [`ScreenSize`] so that an absent size renders
/// to nothing and a present one renders with its single leading space.
#[derive(Debug, Clone, Copy)]
pub struct MaybeScreenSize(pub Option<ScreenSize>);

// ----------------------------------------------------------------------
// the scaled decimal number
// ----------------------------------------------------------------------

/// Parses a canonical decimal size: up to four integer digits with no
/// leading zero, optionally followed by `.` and one non-zero digit. The
/// result is the size scaled by ten.
pub open spec fn spec_parse_ten(s: Seq<char>, i: int) -> Option<(int, u16)>
    recommends
        0 <= i <= s.len(),
{
    let j = digit_run_end(s, i);
    if j == i {
        None
    } else if s[i] == '0' && j - i > 1 {
        None
    } else if j - i > 4 {
        None
    } else {
        let iv = digits_val(s, i, j);
        if j < s.len() && s[j] == '.' {
            let k = digit_run_end(s, j + 1);
            if k == j + 2 && s[j + 1] != '0' {
                let ten = iv * 10 + digit_val(s[j + 1]);
                if ten <= 65535 {
                    Some((k, ten as u16))
                } else {
                    None
                }
            } else {
                None
            }
        } else {
            if iv * 10 <= 65535 {
                Some((j, (iv * 10) as u16))
            } else {
                None
            }
        }
    }
}

pub fn parse_ten(s: &Vec<char>, i: usize) -> (r: Option<(usize, u16)>)
    requires
        i <= s.len(),
    ensures
        match r {
            Some((j, t)) => spec_parse_ten(s@, i as int) == Some((j as int, t)) && i < j <= s.len(),
            None => spec_parse_ten(s@, i as int) is None,
        },
{
    proof {
        reveal_with_fuel(digits_val, 5);
        lemma_digit_run_bounds(s@, i as int);
    }
    let j = digit_run_at(s, i);
    if j == i {
        return None;
    }
    if s[i] == '0' && j - i > 1 {
        return None;
    }
    if j - i > 4 {
        return None;
    }
    let len = j - i;
    let d0 = (s[i] as u32) - 48;
    let iv: u32 = if len == 1 {
        d0
    } else if len == 2 {
        let d1 = (s[i + 1] as u32) - 48;
        d0 * 10 + d1
    } else if len == 3 {
        let d1 = (s[i + 1] as u32) - 48;
        let d2 = (s[i + 2] as u32) - 48;
        (d0 * 10 + d1) * 10 + d2
    } else {
        let d1 = (s[i + 1] as u32) - 48;
        let d2 = (s[i + 2] as u32) - 48;
        let d3 = (s[i + 3] as u32) - 48;
        ((d0 * 10 + d1) * 10 + d2) * 10 + d3
    };
    assert(iv == digits_val(s@, i as int, j as int));
    assert(iv <= 9999);
    if j < s.len() && s[j] == '.' {
        proof {
            lemma_digit_run_bounds(s@, j as int + 1);
        }
        let k = digit_run_at(s, j + 1);
        if k - j == 2 && s[j + 1] != '0' {
            let f = (s[j + 1] as u32) - 48;
            let ten = iv * 10 + f;
            if ten <= 65535 {
                Some((k, ten as u16))
            } else {
                None
            }
        } else {
            None
        }
    } else {
        let ten = iv * 10;
        if ten <= 65535 {
            Some((j, ten as u16))
        } else {
            None
        }
    }
}

/// The canonical text of a size scaled by ten: the integer part, and the
/// tenths digit only when it is not zero.
pub open spec fn spec_render_ten(ten: u16) -> Seq<char> {
    if ten % 10 == 0 {
        dec_digits(ten as int / 10)
    } else {
        dec_digits(ten as int / 10) + "."@ + seq![digit_char(ten as int % 10)]
    }
}

pub fn push_ten(out: &mut Vec<char>, ten: u16)
    ensures
        final(out)@ == old(out)@ + spec_render_ten(ten),
{
    if ten % 10 == 0 {
        push_dec_u16(out, ten / 10);
        assert(final(out)@ =~= old(out)@ + spec_render_ten(ten));
    } else {
        push_dec_u16(out, ten / 10);
        push_str_chars(out, ".");
        out.push(digit_to_char((ten % 10) as u8));
        assert(final(out)@ =~= old(out)@ + spec_render_ten(ten));
    }
}

/// A rendered size number, followed by anything that starts with neither a
/// digit nor a dot, parses back to the same scaled value.
pub proof fn lemma_parse_ten_inverse(s: Seq<char>, i: int, ten: u16)
    requires
        0 <= i,
        i + spec_render_ten(ten).len() <= s.len(),
        forall|k: int| 0 <= k < spec_render_ten(ten).len()
            ==> s[i + k] == #[trigger] spec_render_ten(ten)[k],
        i + spec_render_ten(ten).len() == s.len()
            || (!is_digit_char(s[i + spec_render_ten(ten).len()])
                && s[i + spec_render_ten(ten).len()] != '.'),
    ensures
        spec_parse_ten(s, i) == Some((i + spec_render_ten(ten).len() as int, ten)),
{
    reveal_strlit(".");
    let r = spec_render_ten(ten);
    let iv = ten as int / 10;
    let d = dec_digits(iv);
    lemma_dec_digits_wf(iv);
    assert(iv <= 6553);
    assert forall|k: int| 0 <= k < d.len() implies s[i + k] == #[trigger] d[k] by {
        assert(r[k] == d[k]);
    }
    assert forall|k: int| i <= k < i + d.len() implies is_digit_char(s[k]) by {
        assert(s[k] == d[k - i]);
    }
    let j = i + d.len() as int;
    if ten % 10 == 0 {
        lemma_digit_run_is(s, i, j);
        lemma_digits_val_of_dec(s, i, iv);
        if iv >= 1 {
            assert(s[i] == d[0]);
            assert(s[i] != '0');
        }
        assert(j == s.len() || s[j] != '.');
    } else {
        assert(s[j] == r[d.len() as int]);
        assert(r[d.len() as int] == '.');
        assert(!is_digit_char('.'));
        lemma_digit_run_is(s, i, j);
        lemma_digits_val_of_dec(s, i, iv);
        if iv >= 1 {
            assert(s[i] == d[0]);
            assert(s[i] != '0');
        }
        let f = digit_char(ten as int % 10);
        lemma_digit_char_val(ten as int % 10);
        assert(s[j + 1] == r[d.len() as int + 1]);
        assert(r[d.len() as int + 1] == f);
        assert(is_digit_char(s[j + 1]));
        lemma_digit_run_is(s, j + 1, j + 2);
        assert(digit_val(s[j + 1]) == ten as int % 10);
        assert(s[j + 1] != '0');
        assert(iv * 10 + digit_val(s[j + 1]) == ten as int);
    }
}

impl PartialEq for ScreenSize {
    /// Equality considers only the size itself, never the rendered form.
    fn eq(&self, other: &ScreenSize) -> (r: bool) {
        self.ten_inches == other.ten_inches
    }
}

impl vstd::std_specs::cmp::PartialEqSpecImpl for ScreenSize {
    open spec fn obeys_eq_spec() -> bool {
        true
    }

    open spec fn eq_spec(&self, other: &ScreenSize) -> bool {
        self.ten_inches == other.ten_inches
    }
}

impl PartialOrd for ScreenSize {
    /// Ordered by the size alone, so that the order agrees with equality.
    fn partial_cmp(&self, other: &ScreenSize) -> (r: Option<core::cmp::Ordering>) {
        if self.ten_inches < other.ten_inches {
            Some(core::cmp::Ordering::Less)
        } else if self.ten_inches == other.ten_inches {
            Some(core::cmp::Ordering::Equal)
        } else {
            Some(core::cmp::Ordering::Greater)
        }
    }
}

impl vstd::std_specs::cmp::PartialOrdSpecImpl for ScreenSize {
    open spec fn obeys_partial_cmp_spec() -> bool {
        true
    }

    open spec fn partial_cmp_spec(&self, other: &ScreenSize) -> Option<core::cmp::Ordering> {
        if self.ten_inches < other.ten_inches {
            Some(core::cmp::Ordering::Less)
        } else if self.ten_inches == other.ten_inches {
            Some(core::cmp::Ordering::Equal)
        } else {
            Some(core::cmp::Ordering::Greater)
        }
    }
}

/// A rendered size number is never empty and starts with a digit.
pub proof fn lemma_render_ten_props(ten: u16)
    ensures
        spec_render_ten(ten).len() >= 1,
        is_digit_char(spec_render_ten(ten)[0]),
{
    let iv = ten as int / 10;
    lemma_dec_digits_wf(iv);
    assert(spec_render_ten(ten)[0] == dec_digits(iv)[0]);
}

// ----------------------------------------------------------------------
// the four presentation forms
// ----------------------------------------------------------------------

/// `(<size>-inch)`.
pub open spec fn spec_brackets_long(s: Seq<char>, i: int) -> Option<(int, ScreenSize)>
    recommends
        0 <= i <= s.len(),
{
    if match_tag(s, i, "("@) {
        let j1 = skip_ws(s, i + "("@.len());
        match spec_parse_ten(s, j1) {
            Some((j2, ten)) => {
                let j3 = skip_ws(s, j2);
                if match_tag(s, j3, "-inch)"@) {
                    Some((j3 + "-inch)"@.len(), ScreenSize { ten_inches: ten, short: false, brackets: true }))
                } else {
                    None
                }
            },
            None => None,
        }
    } else {
        None
    }
}

/// `(<size>")`.
pub open spec fn spec_brackets_short(s: Seq<char>, i: int) -> Option<(int, ScreenSize)>
    recommends
        0 <= i <= s.len(),
{
    if match_tag(s, i, "("@) {
        let j1 = skip_ws(s, i + "("@.len());
        match spec_parse_ten(s, j1) {
            Some((j2, ten)) => {
                let j3 = skip_ws(s, j2);
                if match_tag(s, j3, "\")"@) {
                    Some((j3 + "\")"@.len(), ScreenSize { ten_inches: ten, short: true, brackets: true }))
                } else {
                    None
                }
            },
            None => None,
        }
    } else {
        None
    }
}

/// `<size>-inch`.
pub open spec fn spec_bracketless_long(s: Seq<char>, i: int) -> Option<(int, ScreenSize)>
    recommends
        0 <= i <= s.len(),
{
    match spec_parse_ten(s, i) {
        Some((j, ten)) => {
            let j2 = skip_ws(s, j);
            if match_tag(s, j2, "-inch"@) {
                Some((j2 + "-inch"@.len(), ScreenSize { ten_inches: ten, short: false, brackets: false }))
            } else {
                None
            }
        },
        None => None,
    }
}

/// `<size>"`.
pub open spec fn spec_bracketless_short(s: Seq<char>, i: int) -> Option<(int, ScreenSize)>
    recommends
        0 <= i <= s.len(),
{
    match spec_parse_ten(s, i) {
        Some((j, ten)) => {
            let j2 = skip_ws(s, j);
            if match_tag(s, j2, "\""@) {
                Some((j2 + "\""@.len(), ScreenSize { ten_inches: ten, short: true, brackets: false }))
            } else {
                None
            }
        },
        None => None,
    }
}

pub fn brackets_long(s: &Vec<char>, i: usize) -> (r: Option<(usize, ScreenSize)>)
    requires
        i <= s.len(),
    ensures
        match r {
            Some((j, z)) => spec_brackets_long(s@, i as int) == Some((j as int, z)) && i <= j <= s.len(),
            None => spec_brackets_long(s@, i as int) is None,
        },
{
    let j0 = match eat_tag(s, i, "(") {
        Some(j) => j,
        None => { return None; },
    };
    let j1 = skip_ws_at(s, j0);
    let (j2, ten) = match parse_ten(s, j1) {
        Some(r) => r,
        None => { return None; },
    };
    let j3 = skip_ws_at(s, j2);
    match eat_tag(s, j3, "-inch)") {
        Some(j4) => Some((j4, ScreenSize { ten_inches: ten, short: false, brackets: true })),
        None => None,
    }
}

pub fn brackets_short(s: &Vec<char>, i: usize) -> (r: Option<(usize, ScreenSize)>)
    requires
        i <= s.len(),
    ensures
        match r {
            Some((j, z)) => spec_brackets_short(s@, i as int) == Some((j as int, z)) && i <= j <= s.len(),
            None => spec_brackets_short(s@, i as int) is None,
        },
{
    let j0 = match eat_tag(s, i, "(") {
        Some(j) => j,
        None => { return None; },
    };
    let j1 = skip_ws_at(s, j0);
    let (j2, ten) = match parse_ten(s, j1) {
        Some(r) => r,
        None => { return None; },
    };
    let j3 = skip_ws_at(s, j2);
    match eat_tag(s, j3, "\")") {
        Some(j4) => Some((j4, ScreenSize { ten_inches: ten, short: true, brackets: true })),
        None => None,
    }
}

pub fn bracketless_long(s: &Vec<char>, i: usize) -> (r: Option<(usize, ScreenSize)>)
    requires
        i <= s.len(),
    ensures
        match r {
            Some((j, z)) => spec_bracketless_long(s@, i as int) == Some((j as int, z)) && i <= j <= s.len(),
            None => spec_bracketless_long(s@, i as int) is None,
        },
{
    let (j, ten) = match parse_ten(s, i) {
        Some(r) => r,
        None => { return None; },
    };
    let j2 = skip_ws_at(s, j);
    match eat_tag(s, j2, "-inch") {
        Some(j3) => Some((j3, ScreenSize { ten_inches: ten, short: false, brackets: false })),
        None => None,
    }
}

pub fn bracketless_short(s: &Vec<char>, i: usize) -> (r: Option<(usize, ScreenSize)>)
    requires
        i <= s.len(),
    ensures
        match r {
            Some((j, z)) => spec_bracketless_short(s@, i as int) == Some((j as int, z)) && i <= j <= s.len(),
            None => spec_bracketless_short(s@, i as int) is None,
        },
{
    let (j, ten) = match parse_ten(s, i) {
        Some(r) => r,
        None => { return None; },
    };
    let j2 = skip_ws_at(s, j);
    match eat_tag(s, j2, "\"") {
        Some(j3) => Some((j3, ScreenSize { ten_inches: ten, short: true, brackets: false })),
        None => None,
    }
}

impl ScreenSize {
    pub open spec fn wf(self) -> bool {
        true
    }

    /// Long unit in parentheses, e.g. `(11-inch)` for `ten_inches == 110`.
    pub fn long_brackets(ten_inches: u16) -> (r: ScreenSize)
        ensures
            r == (ScreenSize { ten_inches, short: false, brackets: true }),
    {
        ScreenSize { ten_inches, short: false, brackets: true }
    }

    /// Long unit without parentheses, e.g. `11-inch`.
    pub fn long_bracketless(ten_inches: u16) -> (r: ScreenSize)
        ensures
            r == (ScreenSize { ten_inches, short: false, brackets: false }),
    {
        ScreenSize { ten_inches, short: false, brackets: false }
    }

    /// Short unit in parentheses, e.g. `(13")`.
    pub fn short_brackets(ten_inches: u16) -> (r: ScreenSize)
        ensures
            r == (ScreenSize { ten_inches, short: true, brackets: true }),
    {
        ScreenSize { ten_inches, short: true, brackets: true }
    }

    /// Short unit without parentheses, e.g. `13"`.
    pub fn short_bracketless(ten_inches: u16) -> (r: ScreenSize)
        ensures
            r == (ScreenSize { ten_inches, short: true, brackets: false }),
    {
        ScreenSize { ten_inches, short: true, brackets: false }
    }

    /// The size in tenths of an inch.
    pub fn get_ten_inches(&self) -> (t: u16)
        ensures
            t == self.ten_inches,
    {
        self.ten_inches
    }

    /// The exact text this value renders to.
    pub open spec fn spec_render(self) -> Seq<char> {
        if self.brackets {
            if self.short {
                "("@ + spec_render_ten(self.ten_inches) + "\")"@
            } else {
                "("@ + spec_render_ten(self.ten_inches) + "-inch)"@
            }
        } else {
            if self.short {
                spec_render_ten(self.ten_inches) + "\""@
            } else {
                spec_render_ten(self.ten_inches) + "-inch"@
            }
        }
    }

    pub fn render_onto(&self, out: &mut Vec<char>)
        ensures
            final(out)@ == old(out)@ + self.spec_render(),
    {
        if self.brackets {
            push_str_chars(out, "(");
        }
        push_ten(out, self.ten_inches);
        if self.brackets {
            if self.short {
                push_str_chars(out, "\")");
            } else {
                push_str_chars(out, "-inch)");
            }
        } else {
            if self.short {
                push_str_chars(out, "\"");
            } else {
                push_str_chars(out, "-inch");
            }
        }
        assert(final(out)@ =~= old(out)@ + self.spec_render());
    }

    /// Tries the four forms in a fixed order. Expects the first token at
    /// `i` exactly.
    pub open spec fn spec_parse_at(s: Seq<char>, i: int) -> Option<(int, ScreenSize)>
        recommends
            0 <= i <= s.len(),
    {
        match spec_brackets_long(s, i) {
            Some(r) => Some(r),
            None => match spec_brackets_short(s, i) {
                Some(r) => Some(r),
                None => match spec_bracketless_long(s, i) {
                    Some(r) => Some(r),
                    None => spec_bracketless_short(s, i),
                },
            },
        }
    }

    pub fn parse_at(s: &Vec<char>, i: usize) -> (r: Option<(usize, ScreenSize)>)
        requires
            i <= s.len(),
        ensures
            match r {
                Some((j, z)) => Self::spec_parse_at(s@, i as int) == Some((j as int, z)) && i <= j <= s.len(),
                None => Self::spec_parse_at(s@, i as int) is None,
            },
    {
        match brackets_long(s, i) {
            Some(r) => Some(r),
            None => match brackets_short(s, i) {
                Some(r) => Some(r),
                None => match bracketless_long(s, i) {
                    Some(r) => Some(r),
                    None => bracketless_short(s, i),
                },
            },
        }
    }
}

/// A rendered screen size, read back from anywhere inside a larger string,
/// parses to the same value and consumes exactly its own text.
pub proof fn lemma_screen_size_roundtrip(s: Seq<char>, i: int, z: ScreenSize)
    requires
        0 <= i,
        i + z.spec_render().len() <= s.len(),
        forall|k: int| 0 <= k < z.spec_render().len() ==> s[i + k] == #[trigger] z.spec_render()[k],
    ensures
        ScreenSize::spec_parse_at(s, i) == Some((i + z.spec_render().len() as int, z)),
{
    reveal_strlit("(");
    reveal_strlit("\")");
    reveal_strlit("\"");
    reveal_strlit("-inch)");
    reveal_strlit("-inch");
    let r = z.spec_render();
    let t = spec_render_ten(z.ten_inches);
    let tl = t.len() as int;
    lemma_render_ten_props(z.ten_inches);
    if z.brackets {
        assert(s[i] == r[0]);
        assert(r[0] == '(');
        assert(match_tag(s, i, "("@));
        assert forall|k: int| 0 <= k < tl implies s[i + 1 + k] == #[trigger] t[k] by {
            assert(r[1 + k] == t[k]);
        }
        assert(is_digit_char(s[i + 1])) by {
            assert(s[i + 1] == t[0]);
        }
        lemma_skip_ws_is(s, i + 1, i + 1);
        let j2 = i + 1 + tl;
        if z.short {
            assert(s[j2] == r[1 + tl]);
            assert(r[1 + tl] == '"');
            lemma_parse_ten_inverse(s, i + 1, z.ten_inches);
            lemma_skip_ws_is(s, j2, j2);
            assert(match_tag(s, j2, "\")"@)) by {
                assert(s[j2] == r[1 + tl]);
                assert(s[j2 + 1] == r[1 + tl + 1]);
            }
            assert(!match_tag(s, j2, "-inch)"@)) by {
                assert(s[j2 + 0] != "-inch)"@[0]);
            }
            assert(spec_brackets_long(s, i) is None);
            assert(spec_brackets_short(s, i) == Some((i + r.len() as int, z)));
        } else {
            assert(s[j2] == r[1 + tl]);
            assert(r[1 + tl] == '-');
            lemma_parse_ten_inverse(s, i + 1, z.ten_inches);
            lemma_skip_ws_is(s, j2, j2);
            assert(match_tag(s, j2, "-inch)"@)) by {
                assert forall|k: int| 0 <= k < "-inch)"@.len()
                    implies s[j2 + k] == #[trigger] "-inch)"@[k] by {
                    assert(s[j2 + k] == r[1 + tl + k]);
                }
            }
            assert(spec_brackets_long(s, i) == Some((i + r.len() as int, z)));
        }
    } else {
        assert(is_digit_char(s[i])) by {
            assert(s[i] == r[0]);
            assert(r[0] == t[0]);
        }
        assert(s[i] != '(') by {
            lemma_digit_char_class(s[i]);
        }
        assert(!match_tag(s, i, "("@)) by {
            assert(s[i + 0] != "("@[0]);
        }
        assert(spec_brackets_long(s, i) is None);
        assert(spec_brackets_short(s, i) is None);
        assert forall|k: int| 0 <= k < tl implies s[i + k] == #[trigger] t[k] by {
            assert(r[k] == t[k]);
        }
        let j = i + tl;
        if z.short {
            assert(s[j] == r[tl]);
            assert(r[tl] == '"');
            lemma_parse_ten_inverse(s, i, z.ten_inches);
            lemma_skip_ws_is(s, j, j);
            assert(match_tag(s, j, "\""@));
            assert(!match_tag(s, j, "-inch"@)) by {
                assert(s[j + 0] != "-inch"@[0]);
            }
            assert(spec_bracketless_long(s, i) is None);
            assert(spec_bracketless_short(s, i) == Some((i + r.len() as int, z)));
        } else {
            assert(s[j] == r[tl]);
            assert(r[tl] == '-');
            lemma_parse_ten_inverse(s, i, z.ten_inches);
            lemma_skip_ws_is(s, j, j);
            assert(match_tag(s, j, "-inch"@)) by {
                assert forall|k: int| 0 <= k < "-inch"@.len()
                    implies s[j + k] == #[trigger] "-inch"@[k] by {
                    assert(s[j + k] == r[tl + k]);
                }
            }
            assert(spec_bracketless_long(s, i) == Some((i + r.len() as int, z)));
        }
    }
}

impl MaybeScreenSize {
    pub open spec fn wf(self) -> bool {
        true
    }

    pub fn as_ref(&self) -> (r: Option<&ScreenSize>)
        ensures
            match r {
                Some(z) => self.0 == Some(*z),
                None => self.0 is None,
            },
    {
        self.0.as_ref()
    }

    pub fn get(&self) -> (r: Option<&ScreenSize>)
        ensures
            match r {
                Some(z) => self.0 == Some(*z),
                None => self.0 is None,
            },
    {
        self.as_ref()
    }

    /// Renders to nothing when absent, and with a single leading space when
    /// present.
    pub open spec fn spec_render(self) -> Seq<char> {
        match self.0 {
            Some(z) => " "@ + z.spec_render(),
            None => Seq::<char>::empty(),
        }
    }

    pub fn render_onto(&self, out: &mut Vec<char>)
        ensures
            final(out)@ == old(out)@ + self.spec_render(),
    {
        match self.0.as_ref() {
            Some(z) => {
                push_str_chars(out, " ");
                z.render_onto(out);
                assert(final(out)@ =~= old(out)@ + self.spec_render());
            },
            None => {
                assert(final(out)@ =~= old(out)@ + self.spec_render());
            },
        }
    }

    /// An optional size: skips leading whitespace when a size is present,
    /// and consumes nothing when none is.
    pub open spec fn spec_parse_at(s: Seq<char>, i: int) -> (int, MaybeScreenSize)
        recommends
            0 <= i <= s.len(),
    {
        let j = skip_ws(s, i);
        match ScreenSize::spec_parse_at(s, j) {
            Some((e, z)) => (e, MaybeScreenSize(Some(z))),
            None => (i, MaybeScreenSize(None)),
        }
    }

    pub fn parse_at(s: &Vec<char>, i: usize) -> (r: (usize, MaybeScreenSize))
        requires
            i <= s.len(),
        ensures
            Self::spec_parse_at(s@, i as int) == (r.0 as int, r.1),
            i <= r.0 <= s.len(),
    {
        let j = skip_ws_at(s, i);
        match ScreenSize::parse_at(s, j) {
            Some((e, z)) => (e, MaybeScreenSize(Some(z))),
            None => (i, MaybeScreenSize(None)),
        }
    }
}

} // verus!
