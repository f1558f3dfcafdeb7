//! Chip generation markers such as `(M1)`.

use vstd::prelude::*;
use crate::text::{
    skip_ws, match_tag, spec_parse_pos_u8, dec_digits, is_digit_char,
    skip_ws_at, eat_tag, parse_pos_u8, push_dec_u16, push_str_chars,
    lemma_skip_ws_is, lemma_parse_pos_u8_inverse, lemma_dec_digits_wf,
};

verus! {

/// A chip generation marker, e.g. `M1`. Rendered in parentheses: `(M1)`.
#[derive(Debug, Clone, Copy, PartialEq, Eq, Structural)]
pub struct MGen {
    /// The chip number; always at least 1.
    pub num: u8,
}

impl PartialOrd for MGen {
    /// Ordered by the chip number.
    fn partial_cmp(&self, other: &MGen) -> (r: Option<core::cmp::Ordering>) {
        if self.num < other.num {
            Some(core::cmp::Ordering::Less)
        } else if self.num == other.num {
            Some(core::cmp::Ordering::Equal)
        } else {
            Some(core::cmp::Ordering::Greater)
        }
    }
}

impl vstd::std_specs::cmp::PartialOrdSpecImpl for MGen {
    open spec fn obeys_partial_cmp_spec() -> bool {
        true
    }

    open spec fn partial_cmp_spec(&self, other: &MGen) -> Option<core::cmp::Ordering> {
        if self.num < other.num {
            Some(core::cmp::Ordering::Less)
        } else if self.num == other.num {
            Some(core::cmp::Ordering::Equal)
        } else {
            Some(core::cmp::Ordering::Greater)
        }
    }
}

/// Wrapper around an optional [`MGen`] so that an absent marker renders to
/// nothing and a present one renders with its single leading space.
#[derive(Debug, Clone, Copy)]
pub struct MaybeMGen(pub Option<MGen>);

impl MGen {
    pub open spec fn wf(self) -> bool {
        self.num >= 1
    }

    pub fn get_u8(&self) -> (n: u8)
        ensures
            n == self.num,
    {
        self.num
    }

    /// The chip number; always at least 1.
    pub fn get(&self) -> (n: u8)
        ensures
            n == self.num,
    {
        self.num
    }

    pub fn new(num: u8) -> (r: MGen)
        requires
            num >= 1,
        ensures
            r == (MGen { num }),
            r.wf(),
    {
        MGen { num }
    }

    /// The exact text this value renders to.
    pub open spec fn spec_render(self) -> Seq<char> {
        "(M"@ + dec_digits(self.num as int) + ")"@
    }

    pub fn render_onto(&self, out: &mut Vec<char>)
        ensures
            final(out)@ == old(out)@ + self.spec_render(),
    {
        push_str_chars(out, "(M");
        push_dec_u16(out, self.num as u16);
        push_str_chars(out, ")");
        assert(final(out)@ =~= old(out)@ + self.spec_render());
    }

    /// The marker grammar: `(`, `M`, a number, `)`, with whitespace
    /// tolerated inside the parentheses but not between `M` and the number.
    pub open spec fn spec_parse_at(s: Seq<char>, i: int) -> Option<(int, MGen)>
        recommends
            0 <= i <= s.len(),
    {
        if match_tag(s, i, "("@) {
            let j1 = skip_ws(s, i + "("@.len());
            if match_tag(s, j1, "M"@) {
                match spec_parse_pos_u8(s, j1 + "M"@.len()) {
                    Some((j2, n)) => {
                        let j3 = skip_ws(s, j2);
                        if match_tag(s, j3, ")"@) {
                            Some((j3 + ")"@.len(), MGen { num: n }))
                        } else {
                            None
                        }
                    },
                    None => None,
                }
            } else {
                None
            }
        } else {
            None
        }
    }
}

/// Parses a chip marker such as `(M1)`.
pub fn parse_m_status(s: &Vec<char>, i: usize) -> (r: Option<(usize, MGen)>)
    requires
        i <= s.len(),
    ensures
        match r {
            Some((j, m)) => {
                &&& MGen::spec_parse_at(s@, i as int) == Some((j as int, m))
                &&& i <= j <= s.len()
                &&& m.wf()
            },
            None => MGen::spec_parse_at(s@, i as int) is None,
        },
{
    let j0 = match eat_tag(s, i, "(") {
        Some(j) => j,
        None => { return None; },
    };
    let j1 = skip_ws_at(s, j0);
    let j2 = match eat_tag(s, j1, "M") {
        Some(j) => j,
        None => { return None; },
    };
    let (j3, n) = match parse_pos_u8(s, j2) {
        Some(r) => r,
        None => { return None; },
    };
    let j4 = skip_ws_at(s, j3);
    match eat_tag(s, j4, ")") {
        Some(j5) => Some((j5, MGen { num: n })),
        None => None,
    }
}

/// A rendered chip marker, read back from anywhere inside a larger string,
/// parses to the same value and consumes exactly its own text.
pub proof fn lemma_m_gen_roundtrip(s: Seq<char>, i: int, m: MGen)
    requires
        m.wf(),
        0 <= i,
        i + m.spec_render().len() <= s.len(),
        forall|k: int| 0 <= k < m.spec_render().len() ==> s[i + k] == #[trigger] m.spec_render()[k],
    ensures
        MGen::spec_parse_at(s, i) == Some((i + m.spec_render().len() as int, m)),
{
    reveal_strlit("(");
    reveal_strlit("(M");
    reveal_strlit("M");
    reveal_strlit(")");
    let r = m.spec_render();
    let d = dec_digits(m.num as int);
    lemma_dec_digits_wf(m.num as int);
    assert(r.len() == 2 + d.len() + 1);
    assert(s[i] == r[0]);
    assert(r[0] == '(');
    assert(match_tag(s, i, "("@));
    assert(s[i + 1] == r[1]);
    assert(r[1] == 'M');
    lemma_skip_ws_is(s, i + 1, i + 1);
    assert(match_tag(s, i + 1, "M"@));
    assert forall|k: int| 0 <= k < d.len() implies s[i + 2 + k] == #[trigger] d[k] by {
        assert(r[2 + k] == d[k]);
    }
    let j2 = i + 2 + d.len() as int;
    assert(s[j2] == r[2 + d.len() as int]);
    assert(r[2 + d.len() as int] == ')');
    assert(!is_digit_char(')'));
    lemma_parse_pos_u8_inverse(s, i + 2, m.num);
    lemma_skip_ws_is(s, j2, j2);
    assert(match_tag(s, j2, ")"@));
}

impl MaybeMGen {
    pub open spec fn wf(self) -> bool {
        match self.0 {
            Some(m) => m.wf(),
            None => true,
        }
    }

    pub fn get(&self) -> (r: Option<&MGen>)
        ensures
            match r {
                Some(m) => self.0 == Some(*m),
                None => self.0 is None,
            },
    {
        self.0.as_ref()
    }

    pub fn new(m: Option<MGen>) -> (r: MaybeMGen)
        ensures
            r == (MaybeMGen(m)),
    {
        MaybeMGen(m)
    }

    /// Renders to nothing when absent, and with a single leading space when
    /// present.
    pub open spec fn spec_render(self) -> Seq<char> {
        match self.0 {
            Some(m) => " "@ + m.spec_render(),
            None => Seq::<char>::empty(),
        }
    }

    pub fn render_onto(&self, out: &mut Vec<char>)
        ensures
            final(out)@ == old(out)@ + self.spec_render(),
    {
        match self.0.as_ref() {
            Some(m) => {
                push_str_chars(out, " ");
                m.render_onto(out);
                assert(final(out)@ =~= old(out)@ + self.spec_render());
            },
            None => {
                assert(final(out)@ =~= old(out)@ + self.spec_render());
            },
        }
    }

    /// An optional chip marker: consumes nothing when no marker is present.
    pub open spec fn spec_parse_at(s: Seq<char>, i: int) -> (int, MaybeMGen)
        recommends
            0 <= i <= s.len(),
    {
        match MGen::spec_parse_at(s, i) {
            Some((j, m)) => (j, MaybeMGen(Some(m))),
            None => (i, MaybeMGen(None)),
        }
    }

    pub fn parse_at(s: &Vec<char>, i: usize) -> (r: (usize, MaybeMGen))
        requires
            i <= s.len(),
        ensures
            Self::spec_parse_at(s@, i as int) == (r.0 as int, r.1),
            i <= r.0 <= s.len(),
            r.1.wf(),
    {
        match parse_m_status(s, i) {
            Some((j, m)) => (j, MaybeMGen(Some(m))),
            None => (i, MaybeMGen(None)),
        }
    }
}

} // verus!
