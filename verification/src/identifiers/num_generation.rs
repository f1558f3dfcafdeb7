//! Ordinal device generations: the long form `(4th generation)` and the
//! short model-year form `4G`.

use vstd::prelude::*;
use vstd::std_specs::cmp::PartialEqSpec;
use crate::text::{
    skip_ws, match_tag, spec_parse_pos_u8, dec_digits, is_ws_char, is_digit_char,
    skip_ws_at, eat_tag, parse_pos_u8, push_dec_u16, push_str_chars,
    lemma_skip_ws_is, lemma_parse_pos_u8_inverse, lemma_dec_digits_wf, lemma_digit_char_class,
};

verus! {

/// An ordinal generation marker.
///
/// Equality and ordering consider only the generation number; the
/// presentation flag records which textual form the value was parsed from,
/// so that rendering reproduces that form exactly.
#[derive(Debug, Clone, Copy)]
pub struct NumGeneration {
    /// The generation number; always at least 1.
    pub num: u8,
    /// True for the short model-year form `4G`, false for `(4th generation)`.
    pub short: bool,
}

impl NumGeneration {
    /// The type's invariant: generation numbers start at 1.
    pub open spec fn wf(self) -> bool {
        self.num >= 1
    }

    /// Long form, e.g. `(4th generation)`.
    pub fn long(number: u8) -> (r: NumGeneration)
        requires
            number >= 1,
        ensures
            r == (NumGeneration { num: number, short: false }),
            r.wf(),
    {
        NumGeneration { num: number, short: false }
    }

    /// Short form, e.g. `4G`.
    pub fn short(num: u8) -> (r: NumGeneration)
        requires
            num >= 1,
        ensures
            r == (NumGeneration { num, short: true }),
            r.wf(),
    {
        NumGeneration { num, short: true }
    }

    pub fn get(&self) -> (n: u8)
        ensures
            n == self.num,
    {
        self.num
    }

    /// The ordinal suffix used when rendering the long form. Only the
    /// numbers 1, 2 and 3 take a special suffix; every other number,
    /// including those ending in 1, 2 or 3, takes `th`.
    pub open spec fn spec_ordinal(n: u8) -> Seq<char> {
        if n == 1 { "st"@ } else if n == 2 { "nd"@ } else if n == 3 { "rd"@ } else { "th"@ }
    }

    pub fn ordinal(&self) -> (r: &'static str)
        ensures
            r@ == Self::spec_ordinal(self.num),
    {
        if self.num == 1 { "st" } else if self.num == 2 { "nd" } else if self.num == 3 { "rd" } else { "th" }
    }

    /// The exact text this value renders to.
    pub open spec fn spec_render(self) -> Seq<char> {
        if self.short {
            dec_digits(self.num as int) + "G"@
        } else {
            "("@ + dec_digits(self.num as int) + Self::spec_ordinal(self.num) + " generation)"@
        }
    }

    /// Appends the rendered form to `out`.
    pub fn render_onto(&self, out: &mut Vec<char>)
        ensures
            final(out)@ == old(out)@ + self.spec_render(),
    {
        if self.short {
            push_dec_u16(out, self.num as u16);
            push_str_chars(out, "G");
        } else {
            push_str_chars(out, "(");
            push_dec_u16(out, self.num as u16);
            let suffix = self.ordinal();
            push_str_chars(out, suffix);
            push_str_chars(out, " generation)");
        }
        assert(final(out)@ =~= old(out)@ + self.spec_render());
    }

    /// Parses either form, trying the long one first.
    /// Expects the first token at `i` exactly (no leading whitespace).
    pub open spec fn spec_parse_at(s: Seq<char>, i: int) -> Option<(int, NumGeneration)>
        recommends
            0 <= i <= s.len(),
    {
        match spec_generation_brackets(s, i) {
            Some(r) => Some(r),
            None => spec_generation_model(s, i),
        }
    }
}

/// One of the four ordinal suffixes. Parsing is lenient and accepts any
/// suffix after any number; rendering is what normalizes it.
pub open spec fn spec_ordinal_at(s: Seq<char>, i: int) -> Option<int> {
    if match_tag(s, i, "st"@) {
        Some(i + "st"@.len())
    } else if match_tag(s, i, "nd"@) {
        Some(i + "nd"@.len())
    } else if match_tag(s, i, "rd"@) {
        Some(i + "rd"@.len())
    } else if match_tag(s, i, "th"@) {
        Some(i + "th"@.len())
    } else {
        None
    }
}

pub fn ordinal(s: &Vec<char>, i: usize) -> (r: Option<usize>)
    requires
        i <= s.len(),
    ensures
        match r {
            Some(j) => spec_ordinal_at(s@, i as int) == Some(j as int) && i <= j <= s.len(),
            None => spec_ordinal_at(s@, i as int) is None,
        },
{
    if let Some(j) = eat_tag(s, i, "st") {
        Some(j)
    } else if let Some(j) = eat_tag(s, i, "nd") {
        Some(j)
    } else if let Some(j) = eat_tag(s, i, "rd") {
        Some(j)
    } else if let Some(j) = eat_tag(s, i, "th") {
        Some(j)
    } else {
        None
    }
}

/// The long form: `(`, a number, an ordinal suffix and `generation)`, with
/// whitespace tolerated between the tokens.
pub open spec fn spec_generation_brackets(s: Seq<char>, i: int) -> Option<(int, NumGeneration)>
    recommends
        0 <= i <= s.len(),
{
    if match_tag(s, i, "("@) {
        let j1 = skip_ws(s, i + "("@.len());
        match spec_parse_pos_u8(s, j1) {
            Some((j2, n)) => {
                let j3 = skip_ws(s, j2);
                match spec_ordinal_at(s, j3) {
                    Some(j4) => {
                        let j5 = skip_ws(s, j4);
                        if match_tag(s, j5, "generation)"@) {
                            Some((j5 + "generation)"@.len(), NumGeneration { num: n, short: false }))
                        } else {
                            None
                        }
                    },
                    None => None,
                }
            },
            None => None,
        }
    } else {
        None
    }
}

pub fn generation_brackets(s: &Vec<char>, i: usize) -> (r: Option<(usize, NumGeneration)>)
    requires
        i <= s.len(),
    ensures
        match r {
            Some((j, g)) => {
                &&& spec_generation_brackets(s@, i as int) == Some((j as int, g))
                &&& i <= j <= s.len()
                &&& g.wf()
                &&& !g.short
            },
            None => spec_generation_brackets(s@, i as int) is None,
        },
{
    let j0 = match eat_tag(s, i, "(") {
        Some(j) => j,
        None => { return None; },
    };
    let j1 = skip_ws_at(s, j0);
    let (j2, n) = match parse_pos_u8(s, j1) {
        Some(r) => r,
        None => { return None; },
    };
    let j3 = skip_ws_at(s, j2);
    let j4 = match ordinal(s, j3) {
        Some(j) => j,
        None => { return None; },
    };
    let j5 = skip_ws_at(s, j4);
    match eat_tag(s, j5, "generation)") {
        Some(j6) => Some((j6, NumGeneration { num: n, short: false })),
        None => None,
    }
}

/// The short form: a number followed immediately by `G`.
pub open spec fn spec_generation_model(s: Seq<char>, i: int) -> Option<(int, NumGeneration)>
    recommends
        0 <= i <= s.len(),
{
    match spec_parse_pos_u8(s, i) {
        Some((j, n)) => {
            if match_tag(s, j, "G"@) {
                Some((j + "G"@.len(), NumGeneration { num: n, short: true }))
            } else {
                None
            }
        },
        None => None,
    }
}

pub fn generation_model(s: &Vec<char>, i: usize) -> (r: Option<(usize, NumGeneration)>)
    requires
        i <= s.len(),
    ensures
        match r {
            Some((j, g)) => {
                &&& spec_generation_model(s@, i as int) == Some((j as int, g))
                &&& i <= j <= s.len()
                &&& g.wf()
                &&& g.short
            },
            None => spec_generation_model(s@, i as int) is None,
        },
{
    let (j, n) = match parse_pos_u8(s, i) {
        Some(r) => r,
        None => { return None; },
    };
    match eat_tag(s, j, "G") {
        Some(j2) => Some((j2, NumGeneration { num: n, short: true })),
        None => None,
    }
}

impl NumGeneration {
    pub fn parse_at(s: &Vec<char>, i: usize) -> (r: Option<(usize, NumGeneration)>)
        requires
            i <= s.len(),
        ensures
            match r {
                Some((j, g)) => {
                    &&& Self::spec_parse_at(s@, i as int) == Some((j as int, g))
                    &&& i <= j <= s.len()
                    &&& g.wf()
                },
                None => Self::spec_parse_at(s@, i as int) is None,
            },
    {
        match generation_brackets(s, i) {
            Some(r) => Some(r),
            None => generation_model(s, i),
        }
    }
}

impl PartialEq for NumGeneration {
    /// Equality considers only the generation number, never the rendered
    /// form.
    fn eq(&self, other: &NumGeneration) -> (r: bool) {
        self.num == other.num
    }
}

impl vstd::std_specs::cmp::PartialEqSpecImpl for NumGeneration {
    open spec fn obeys_eq_spec() -> bool {
        true
    }

    open spec fn eq_spec(&self, other: &NumGeneration) -> bool {
        self.num == other.num
    }
}

impl PartialOrd for NumGeneration {
    /// Ordered by the generation number alone, so that the order agrees
    /// with equality.
    fn partial_cmp(&self, other: &NumGeneration) -> (r: Option<core::cmp::Ordering>) {
        if self.num < other.num {
            Some(core::cmp::Ordering::Less)
        } else if self.num == other.num {
            Some(core::cmp::Ordering::Equal)
        } else {
            Some(core::cmp::Ordering::Greater)
        }
    }
}

impl vstd::std_specs::cmp::PartialOrdSpecImpl for NumGeneration {
    open spec fn obeys_partial_cmp_spec() -> bool {
        true
    }

    open spec fn partial_cmp_spec(&self, other: &NumGeneration) -> Option<core::cmp::Ordering> {
        if self.num < other.num {
            Some(core::cmp::Ordering::Less)
        } else if self.num == other.num {
            Some(core::cmp::Ordering::Equal)
        } else {
            Some(core::cmp::Ordering::Greater)
        }
    }
}

/// Generation equality ignores presentation: two ordinal generations are
/// equal exactly when their numbers are, whatever form each was parsed
/// from.
pub proof fn lemma_equality_ignores_presentation(a: NumGeneration, b: NumGeneration)
    ensures
        a.eq_spec(&b) <==> a.num == b.num,
        (NumGeneration { num: a.num, short: false }).eq_spec(
            &NumGeneration { num: a.num, short: true },
        ),
{
}

/// A rendered ordinal suffix parses back, and starts with a letter.
proof fn lemma_ordinal_roundtrip(s: Seq<char>, i: int, n: u8)
    requires
        0 <= i,
        i + NumGeneration::spec_ordinal(n).len() <= s.len(),
        forall|k: int| 0 <= k < NumGeneration::spec_ordinal(n).len()
            ==> s[i + k] == #[trigger] NumGeneration::spec_ordinal(n)[k],
    ensures
        spec_ordinal_at(s, i) == Some(i + NumGeneration::spec_ordinal(n).len() as int),
        !is_digit_char(s[i]),
        !is_ws_char(s[i]),
{
    reveal_strlit("st");
    reveal_strlit("nd");
    reveal_strlit("rd");
    reveal_strlit("th");
    let o = NumGeneration::spec_ordinal(n);
    assert(s[i] == o[0]);
    assert(s[i + 1] == o[1]);
    if n == 1 {
        assert(match_tag(s, i, "st"@));
    } else if n == 2 {
        assert(s[i] != 's' && s[i] != 'r' && s[i] != 't');
        assert(match_tag(s, i, "nd"@));
    } else if n == 3 {
        assert(s[i] != 's' && s[i] != 'n' && s[i] != 't');
        assert(match_tag(s, i, "rd"@));
    } else {
        assert(s[i] != 's' && s[i] != 'n' && s[i] != 'r');
        assert(match_tag(s, i, "th"@));
    }
}

/// A rendered generation, read back from anywhere inside a larger string,
/// parses to the same value and consumes exactly its own text.
pub proof fn lemma_num_generation_roundtrip(s: Seq<char>, i: int, g: NumGeneration)
    requires
        g.wf(),
        0 <= i,
        i + g.spec_render().len() <= s.len(),
        forall|k: int| 0 <= k < g.spec_render().len() ==> s[i + k] == #[trigger] g.spec_render()[k],
    ensures
        NumGeneration::spec_parse_at(s, i) == Some((i + g.spec_render().len() as int, g)),
{
    reveal_strlit("(");
    reveal_strlit("G");
    reveal_strlit("st");
    reveal_strlit("nd");
    reveal_strlit("rd");
    reveal_strlit("th");
    reveal_strlit(" generation)");
    reveal_strlit("generation)");
    let r = g.spec_render();
    let d = dec_digits(g.num as int);
    lemma_dec_digits_wf(g.num as int);
    if g.short {
        assert(r.len() == d.len() + 1);
        assert forall|k: int| 0 <= k < d.len() implies s[i + k] == #[trigger] d[k] by {
            assert(r[k] == d[k]);
        }
        assert(s[i + d.len()] == r[d.len() as int]);
        assert(r[d.len() as int] == 'G');
        assert(!is_digit_char('G'));
        lemma_parse_pos_u8_inverse(s, i, g.num);
        assert(is_digit_char(s[i])) by {
            assert(s[i] == d[0]);
        }
        assert(s[i] != '(') by {
            lemma_digit_char_class(s[i]);
        }
        assert(!match_tag(s, i, "("@)) by {
            assert(s[i + 0] != "("@[0]);
        }
        assert(spec_generation_brackets(s, i) is None);
        assert(match_tag(s, i + d.len(), "G"@));
        assert(spec_generation_model(s, i) == Some((i + r.len() as int, g)));
    } else {
        let o = NumGeneration::spec_ordinal(g.num);
        assert(o.len() == 2);
        assert(r.len() == 1 + d.len() + 2 + 12);
        // the opening bracket
        assert(s[i] == r[0]);
        assert(r[0] == '(');
        assert(match_tag(s, i, "("@));
        // the number follows it with no whitespace between
        assert forall|k: int| 0 <= k < d.len() implies s[i + 1 + k] == #[trigger] d[k] by {
            assert(r[1 + k] == d[k]);
        }
        assert(is_digit_char(s[i + 1])) by {
            assert(s[i + 1] == d[0]);
        }
        lemma_skip_ws_is(s, i + 1, i + 1);
        let j2 = i + 1 + d.len() as int;
        // the ordinal suffix bounds the digit run
        assert forall|k: int| 0 <= k < 2 implies s[j2 + k] == #[trigger] o[k] by {
            assert(r[1 + d.len() + k] == o[k]);
        }
        lemma_ordinal_roundtrip(s, j2, g.num);
        lemma_parse_pos_u8_inverse(s, i + 1, g.num);
        assert(spec_parse_pos_u8(s, i + 1) == Some((j2, g.num)));
        lemma_skip_ws_is(s, j2, j2);
        let j4 = j2 + 2;
        // one space, then the closing keyword
        assert(s[j4] == r[1 + d.len() as int + 2]);
        assert(r[1 + d.len() as int + 2] == " generation)"@[0]);
        assert(s[j4] == ' ');
        assert(s[j4 + 1] == r[4 + d.len() as int]);
        assert(r[4 + d.len() as int] == " generation)"@[1]);
        assert(s[j4 + 1] == 'g');
        lemma_skip_ws_is(s, j4, j4 + 1);
        assert(match_tag(s, j4 + 1, "generation)"@)) by {
            assert forall|k: int| 0 <= k < "generation)"@.len()
                implies s[j4 + 1 + k] == #[trigger] "generation)"@[k] by {
                assert(s[j4 + 1 + k] == r[1 + d.len() + 2 + 1 + k]);
                assert(r[1 + d.len() + 2 + 1 + k] == " generation)"@[1 + k]);
            }
        }
        assert(spec_generation_brackets(s, i) == Some((i + r.len() as int, g)));
    }
}

} // verus!
