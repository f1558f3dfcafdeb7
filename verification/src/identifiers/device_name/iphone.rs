//! The iPhone family grammar: `iPhone SE (<n>th generation)` and
//! `iPhone <n>[ Plus][ Pro][ Max]`.

use vstd::prelude::*;
use crate::text::{
    skip_ws, match_tag, spec_parse_pos_u8, spec_flag, dec_digits,
    is_ws_char, is_digit_char,
    skip_ws_at, eat_tag, eat_flag, parse_pos_u8, push_dec_u16, push_str_chars,
    lemma_skip_ws_is, lemma_parse_pos_u8_inverse, lemma_dec_digits_wf,
};
use crate::identifiers::generation::{Generation, lemma_generation_roundtrip};

verus! {

/// An iPhone model name. Ordered from oldest to newest: every numbered
/// iPhone is newer than every iPhone SE.
#[derive(Debug, Clone, Copy)]
pub enum IPhoneVariant {
    SE {
        generation: Generation,
    },
    Number {
        /// The model number; always at least 1.
        num: u8,
        plus: bool,
        pro: bool,
        max: bool,
    },
}

impl IPhoneVariant {
    pub open spec fn wf(self) -> bool {
        match self {
            IPhoneVariant::SE { generation } => generation.wf(),
            IPhoneVariant::Number { num, .. } => num >= 1,
        }
    }

    /// The exact text this value renders to.
    pub open spec fn spec_render(self) -> Seq<char> {
        match self {
            IPhoneVariant::SE { generation } => "iPhone SE "@ + generation.spec_render(),
            IPhoneVariant::Number { num, plus, pro, max } => {
                "iPhone "@ + dec_digits(num as int)
                    + (if plus { " Plus"@ } else { Seq::<char>::empty() })
                    + (if pro { " Pro"@ } else { Seq::<char>::empty() })
                    + (if max { " Max"@ } else { Seq::<char>::empty() })
            },
        }
    }

    pub fn render_onto(&self, out: &mut Vec<char>)
        ensures
            final(out)@ == old(out)@ + self.spec_render(),
    {
        match self {
            IPhoneVariant::SE { generation } => {
                push_str_chars(out, "iPhone SE ");
                generation.render_onto(out);
                assert(final(out)@ =~= old(out)@ + self.spec_render());
            },
            IPhoneVariant::Number { num, plus, pro, max } => {
                push_str_chars(out, "iPhone ");
                push_dec_u16(out, *num as u16);
                if *plus {
                    push_str_chars(out, " Plus");
                }
                if *pro {
                    push_str_chars(out, " Pro");
                }
                if *max {
                    push_str_chars(out, " Max");
                }
                assert(final(out)@ =~= old(out)@ + self.spec_render());
            },
        }
    }

    /// The family grammar. Expects the `iPhone` keyword at `i` exactly;
    /// after the keyword has matched, a body that does not parse is a hard
    /// failure (`None`), not a fallback.
    pub open spec fn spec_parse_at(s: Seq<char>, i: int) -> Option<(int, IPhoneVariant)>
        recommends
            0 <= i <= s.len(),
    {
        if match_tag(s, i, "iPhone"@) {
            let j1 = skip_ws(s, i + "iPhone"@.len());
            if match_tag(s, j1, "SE"@) {
                let j2 = skip_ws(s, j1 + "SE"@.len());
                match Generation::spec_parse_at(s, j2) {
                    Some((j3, g)) => Some((j3, IPhoneVariant::SE { generation: g })),
                    None => None,
                }
            } else if j1 < s.len() && is_digit_char(s[j1]) {
                match spec_parse_pos_u8(s, j1) {
                    Some((j2, n)) => {
                        let (j3, plus) = spec_flag(s, j2, "Plus"@);
                        let (j4, pro) = spec_flag(s, j3, "Pro"@);
                        let (j5, max) = spec_flag(s, j4, "Max"@);
                        Some((j5, IPhoneVariant::Number { num: n, plus, pro, max }))
                    },
                    None => None,
                }
            } else {
                None
            }
        } else {
            None
        }
    }

    pub fn parse_at(s: &Vec<char>, i: usize) -> (r: Option<(usize, IPhoneVariant)>)
        requires
            i <= s.len(),
        ensures
            match r {
                Some((j, v)) => {
                    &&& Self::spec_parse_at(s@, i as int) == Some((j as int, v))
                    &&& i <= j <= s.len()
                    &&& v.wf()
                },
                None => Self::spec_parse_at(s@, i as int) is None,
            },
    {
        let j0 = match eat_tag(s, i, "iPhone") {
            Some(j) => j,
            None => { return None; },
        };
        let j1 = skip_ws_at(s, j0);
        if let Some(j2) = eat_tag(s, j1, "SE") {
            let j3 = skip_ws_at(s, j2);
            match Generation::parse_at(s, j3) {
                Some((j4, g)) => Some((j4, IPhoneVariant::SE { generation: g })),
                None => None,
            }
        } else if j1 < s.len() && crate::text::is_digit(s[j1]) {
            let (j2, n) = match parse_pos_u8(s, j1) {
                Some(r) => r,
                None => { return None; },
            };
            let (j3, plus) = eat_flag(s, j2, "Plus");
            let (j4, pro) = eat_flag(s, j3, "Pro");
            let (j5, max) = eat_flag(s, j4, "Max");
            Some((j5, IPhoneVariant::Number { num: n, plus, pro, max }))
        } else {
            None
        }
    }
}

impl IPhoneVariant {
    /// Two iPhone names denote the same model: same kind, and the fields
    /// that equality considers agree.
    pub open spec fn same_model(self, other: IPhoneVariant) -> bool {
        match (self, other) {
            (IPhoneVariant::SE { generation: g1 }, IPhoneVariant::SE { generation: g2 }) =>
                g1.same_as(g2),
            (
                IPhoneVariant::Number { num: n1, plus: p1, pro: r1, max: m1 },
                IPhoneVariant::Number { num: n2, plus: p2, pro: r2, max: m2 },
            ) => n1 == n2 && p1 == p2 && r1 == r2 && m1 == m2,
            _ => false,
        }
    }

    /// The documented total order: every numbered iPhone is newer than
    /// every iPhone SE; SE models order by generation; numbered models
    /// order by number and then by their flags, `Plus` first, each flag
    /// absent before present.
    pub open spec fn cmp_spec(self, other: IPhoneVariant) -> core::cmp::Ordering {
        match (self, other) {
            (IPhoneVariant::SE { generation: g1 }, IPhoneVariant::SE { generation: g2 }) =>
                g1.cmp_spec(g2),
            (IPhoneVariant::SE { .. }, IPhoneVariant::Number { .. }) => core::cmp::Ordering::Less,
            (IPhoneVariant::Number { .. }, IPhoneVariant::SE { .. }) => core::cmp::Ordering::Greater,
            (
                IPhoneVariant::Number { num: n1, plus: p1, pro: r1, max: m1 },
                IPhoneVariant::Number { num: n2, plus: p2, pro: r2, max: m2 },
            ) => {
                if n1 < n2 { core::cmp::Ordering::Less }
                else if n1 > n2 { core::cmp::Ordering::Greater }
                else if !p1 && p2 { core::cmp::Ordering::Less }
                else if p1 && !p2 { core::cmp::Ordering::Greater }
                else if !r1 && r2 { core::cmp::Ordering::Less }
                else if r1 && !r2 { core::cmp::Ordering::Greater }
                else if !m1 && m2 { core::cmp::Ordering::Less }
                else if m1 && !m2 { core::cmp::Ordering::Greater }
                else { core::cmp::Ordering::Equal }
            },
        }
    }
}

impl PartialEq for IPhoneVariant {
    fn eq(&self, other: &IPhoneVariant) -> (r: bool) {
        match (self, other) {
            (IPhoneVariant::SE { generation: g1 }, IPhoneVariant::SE { generation: g2 }) =>
                g1 == g2,
            (
                IPhoneVariant::Number { num: n1, plus: p1, pro: r1, max: m1 },
                IPhoneVariant::Number { num: n2, plus: p2, pro: r2, max: m2 },
            ) => n1 == n2 && p1 == p2 && r1 == r2 && m1 == m2,
            _ => false,
        }
    }
}

impl vstd::std_specs::cmp::PartialEqSpecImpl for IPhoneVariant {
    open spec fn obeys_eq_spec() -> bool {
        true
    }

    open spec fn eq_spec(&self, other: &IPhoneVariant) -> bool {
        self.same_model(*other)
    }
}

impl PartialOrd for IPhoneVariant {
    fn partial_cmp(&self, other: &IPhoneVariant) -> (r: Option<core::cmp::Ordering>)
        ensures
            r == Some(self.cmp_spec(*other)),
    {
        match (self, other) {
            (IPhoneVariant::SE { generation: g1 }, IPhoneVariant::SE { generation: g2 }) =>
                g1.partial_cmp(g2),
            (IPhoneVariant::SE { .. }, IPhoneVariant::Number { .. }) =>
                Some(core::cmp::Ordering::Less),
            (IPhoneVariant::Number { .. }, IPhoneVariant::SE { .. }) =>
                Some(core::cmp::Ordering::Greater),
            (
                IPhoneVariant::Number { num: n1, plus: p1, pro: r1, max: m1 },
                IPhoneVariant::Number { num: n2, plus: p2, pro: r2, max: m2 },
            ) => {
                if n1 < n2 { Some(core::cmp::Ordering::Less) }
                else if n1 > n2 { Some(core::cmp::Ordering::Greater) }
                else if !*p1 && *p2 { Some(core::cmp::Ordering::Less) }
                else if *p1 && !*p2 { Some(core::cmp::Ordering::Greater) }
                else if !*r1 && *r2 { Some(core::cmp::Ordering::Less) }
                else if *r1 && !*r2 { Some(core::cmp::Ordering::Greater) }
                else if !*m1 && *m2 { Some(core::cmp::Ordering::Less) }
                else if *m1 && !*m2 { Some(core::cmp::Ordering::Greater) }
                else { Some(core::cmp::Ordering::Equal) }
            },
        }
    }
}

impl vstd::std_specs::cmp::PartialOrdSpecImpl for IPhoneVariant {
    open spec fn obeys_partial_cmp_spec() -> bool {
        true
    }

    open spec fn partial_cmp_spec(&self, other: &IPhoneVariant) -> Option<core::cmp::Ordering> {
        Some(self.cmp_spec(*other))
    }
}

/// The order on iPhone names agrees with equality and reverses under
/// swapping its arguments.
pub proof fn lemma_iphone_cmp_antisymmetric(a: IPhoneVariant, b: IPhoneVariant)
    ensures
        (a.cmp_spec(b) == core::cmp::Ordering::Equal) <==> a.same_model(b),
        (a.cmp_spec(b) == core::cmp::Ordering::Less)
            <==> (b.cmp_spec(a) == core::cmp::Ordering::Greater),
{
}

/// The order on iPhone names is transitive.
pub proof fn lemma_iphone_cmp_transitive(a: IPhoneVariant, b: IPhoneVariant, c: IPhoneVariant)
    requires
        a.cmp_spec(b) == core::cmp::Ordering::Less,
        b.cmp_spec(c) == core::cmp::Ordering::Less,
    ensures
        a.cmp_spec(c) == core::cmp::Ordering::Less,
{
}

/// A rendered iPhone name that reaches the end of the string parses back
/// to the same value.
#[verifier::rlimit(60)]
#[verifier::spinoff_prover]
pub proof fn lemma_iphone_roundtrip(s: Seq<char>, i: int, v: IPhoneVariant)
    requires
        v.wf(),
        0 <= i,
        i + v.spec_render().len() == s.len(),
        forall|k: int| 0 <= k < v.spec_render().len() ==> s[i + k] == #[trigger] v.spec_render()[k],
    ensures
        IPhoneVariant::spec_parse_at(s, i) == Some((s.len() as int, v)),
{
    reveal_strlit("iPhone");
    reveal_strlit("iPhone ");
    reveal_strlit("iPhone SE ");
    reveal_strlit("SE");
    reveal_strlit(" Plus");
    reveal_strlit(" Pro");
    reveal_strlit(" Max");
    reveal_strlit("Plus");
    reveal_strlit("Pro");
    reveal_strlit("Max");
    let r = v.spec_render();
    match v {
        IPhoneVariant::SE { generation } => {
            let g = generation;
            assert(match_tag(s, i, "iPhone"@)) by {
                assert forall|k: int| 0 <= k < 6 implies s[i + k] == #[trigger] "iPhone"@[k] by {
                    assert(s[i + k] == r[k]);
                    assert(r[k] == "iPhone SE "@[k]);
                }
            }
            assert(s[i + 6] == r[6] && r[6] == ' ');
            assert(s[i + 7] == r[7] && r[7] == 'S');
            lemma_skip_ws_is(s, i + 6, i + 7);
            assert(match_tag(s, i + 7, "SE"@)) by {
                assert(s[i + 8] == r[8] && r[8] == 'E');
            }
            assert(s[i + 9] == r[9] && r[9] == ' ');
            let gr = g.spec_render();
            assert forall|k: int| 0 <= k < gr.len() implies s[i + 10 + k] == #[trigger] gr[k] by {
                assert(r[10 + k] == gr[k]);
            }
            assert(is_ws_char(s[i + 9]) && !is_ws_char(s[i + 10])) by {
                assert(s[i + 10] == gr[0]);
                lemma_generation_first_char(g);
            }
            lemma_skip_ws_is(s, i + 9, i + 10);
            lemma_generation_roundtrip(s, i + 10, g);
        },
        IPhoneVariant::Number { num, plus, pro, max } => {
            let d = dec_digits(num as int);
            lemma_dec_digits_wf(num as int);
            let dl = d.len() as int;
            assert(match_tag(s, i, "iPhone"@)) by {
                assert forall|k: int| 0 <= k < 6 implies s[i + k] == #[trigger] "iPhone"@[k] by {
                    assert(s[i + k] == r[k]);
                    assert(r[k] == "iPhone "@[k]);
                }
            }
            assert(s[i + 6] == r[6] && r[6] == ' ');
            assert forall|k: int| 0 <= k < dl implies s[i + 7 + k] == #[trigger] d[k] by {
                assert(r[7 + k] == d[k]);
            }
            assert(is_digit_char(s[i + 7])) by {
                assert(s[i + 7] == d[0]);
            }
            lemma_skip_ws_is(s, i + 6, i + 7);
            let j1 = i + 7;
            // the `SE` keyword does not match a digit
            assert(!match_tag(s, j1, "SE"@)) by {
                assert(s[j1 + 0] != "SE"@[0]);
            }
            let j2 = j1 + dl;
            // the number is bounded by a space or the end of the string
            if plus {
                assert(s[j2] == r[7 + dl] && r[7 + dl] == ' ');
                assert(!is_digit_char(s[j2]));
            } else if pro {
                assert(s[j2] == r[7 + dl] && r[7 + dl] == ' ');
                assert(!is_digit_char(s[j2]));
            } else if max {
                assert(s[j2] == r[7 + dl] && r[7 + dl] == ' ');
                assert(!is_digit_char(s[j2]));
            } else {
                assert(j2 == s.len());
            }
            lemma_parse_pos_u8_inverse(s, i + 7, num);
            let fp = if plus { " Plus"@ } else { Seq::<char>::empty() };
            let fr = if pro { " Pro"@ } else { Seq::<char>::empty() };
            let fm = if max { " Max"@ } else { Seq::<char>::empty() };
            let j3 = j2 + fp.len() as int;
            let j4 = j3 + fr.len() as int;
            let j5 = j4 + fm.len() as int;
            assert(j5 == s.len());
            assert forall|k: int| 0 <= k < fp.len() implies s[j2 + k] == #[trigger] fp[k] by {
                assert(s[j2 + k] == r[7 + dl + k]);
                assert(r[7 + dl + k] == fp[k]);
            }
            assert forall|k: int| 0 <= k < fr.len() implies s[j3 + k] == #[trigger] fr[k] by {
                assert(s[j3 + k] == r[7 + dl + fp.len() + k]);
                assert(r[7 + dl + fp.len() + k] == fr[k]);
            }
            assert forall|k: int| 0 <= k < fm.len() implies s[j4 + k] == #[trigger] fm[k] by {
                assert(s[j4 + k] == r[7 + dl + fp.len() + fr.len() + k]);
                assert(r[7 + dl + fp.len() + fr.len() + k] == fm[k]);
            }
            // the Plus flag
            if plus {
                assert(s[j2] == fp[0] && fp[0] == ' ');
                assert(s[j2 + 1] == fp[1] && fp[1] == 'P');
                lemma_skip_ws_is(s, j2, j2 + 1);
                assert(match_tag(s, j2 + 1, "Plus"@)) by {
                    assert forall|k: int| 0 <= k < 4 implies s[j2 + 1 + k] == #[trigger] "Plus"@[k] by {
                        assert(s[j2 + 1 + k] == fp[1 + k]);
                    }
                }
                assert(spec_flag(s, j2, "Plus"@) == (j3, true));
            } else {
                assert(spec_flag(s, j2, "Plus"@) == (j2, false)) by {
                    if pro {
                        assert(s[j2] == fr[0] && fr[0] == ' ');
                        assert(s[j2 + 1] == fr[1] && fr[1] == 'P');
                        assert(s[j2 + 2] == fr[2] && fr[2] == 'r');
                        lemma_skip_ws_is(s, j2, j2 + 1);
                        assert(!match_tag(s, j2 + 1, "Plus"@)) by {
                            assert(s[j2 + 1 + 1] != "Plus"@[1]);
                        }
                    } else if max {
                        assert(s[j2] == fm[0] && fm[0] == ' ');
                        assert(s[j2 + 1] == fm[1] && fm[1] == 'M');
                        lemma_skip_ws_is(s, j2, j2 + 1);
                        assert(!match_tag(s, j2 + 1, "Plus"@)) by {
                            assert(s[j2 + 1 + 0] != "Plus"@[0]);
                        }
                    } else {
                        lemma_skip_ws_is(s, j2, j2);
                        assert(!match_tag(s, j2, "Plus"@));
                    }
                }
            }
            // the Pro flag
            if pro {
                assert(s[j3] == fr[0] && fr[0] == ' ');
                assert(s[j3 + 1] == fr[1] && fr[1] == 'P');
                lemma_skip_ws_is(s, j3, j3 + 1);
                assert(match_tag(s, j3 + 1, "Pro"@)) by {
                    assert forall|k: int| 0 <= k < 3 implies s[j3 + 1 + k] == #[trigger] "Pro"@[k] by {
                        assert(s[j3 + 1 + k] == fr[1 + k]);
                    }
                }
                assert(spec_flag(s, j3, "Pro"@) == (j4, true));
            } else {
                assert(spec_flag(s, j3, "Pro"@) == (j3, false)) by {
                    if max {
                        assert(s[j3] == fm[0] && fm[0] == ' ');
                        assert(s[j3 + 1] == fm[1] && fm[1] == 'M');
                        lemma_skip_ws_is(s, j3, j3 + 1);
                        assert(!match_tag(s, j3 + 1, "Pro"@)) by {
                            assert(s[j3 + 1 + 0] != "Pro"@[0]);
                        }
                    } else {
                        assert(j3 == s.len());
                        lemma_skip_ws_is(s, j3, j3);
                        assert(!match_tag(s, j3, "Pro"@));
                    }
                }
            }
            // the Max flag
            if max {
                assert(s[j4] == fm[0] && fm[0] == ' ');
                assert(s[j4 + 1] == fm[1] && fm[1] == 'M');
                lemma_skip_ws_is(s, j4, j4 + 1);
                assert(match_tag(s, j4 + 1, "Max"@)) by {
                    assert forall|k: int| 0 <= k < 3 implies s[j4 + 1 + k] == #[trigger] "Max"@[k] by {
                        assert(s[j4 + 1 + k] == fm[1 + k]);
                    }
                }
                assert(spec_flag(s, j4, "Max"@) == (j5, true));
            } else {
                assert(j4 == s.len());
                lemma_skip_ws_is(s, j4, j4);
                assert(spec_flag(s, j4, "Max"@) == (j4, false));
            }
        },
    }
}

/// The first character of a rendered generation is `(` or a digit; in
/// particular it is not whitespace.
pub proof fn lemma_generation_first_char(g: Generation)
    requires
        g.wf(),
    ensures
        g.spec_render().len() >= 1,
        g.spec_render()[0] == '(' || is_digit_char(g.spec_render()[0]),
        !is_ws_char(g.spec_render()[0]),
        !is_ws_char(g.spec_render()[g.spec_render().len() - 1]),
{
    reveal_strlit("(");
    reveal_strlit("(M");
    reveal_strlit(")");
    reveal_strlit("G");
    reveal_strlit(" generation)");
    match g {
        Generation::Num(ng) => {
            lemma_dec_digits_wf(ng.num as int);
            if ng.short {
                assert(g.spec_render()[0] == dec_digits(ng.num as int)[0]);
                assert(g.spec_render()[g.spec_render().len() - 1] == 'G');
            } else {
                assert(g.spec_render()[0] == '(');
                assert(g.spec_render()[g.spec_render().len() - 1] == " generation)"@[11]);
            }
        },
        Generation::M(m) => {
            lemma_dec_digits_wf(m.num as int);
            assert(g.spec_render()[0] == '(');
            assert(g.spec_render()[g.spec_render().len() - 1] == ')');
        },
    }
}

} // verus!
