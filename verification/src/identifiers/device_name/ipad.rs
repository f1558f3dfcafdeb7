//! The iPad family grammar: `iPad [mini|Air|Pro] ...` with a generation
//! and, for Air and Pro, a screen size.

use vstd::prelude::*;
use crate::text::{
    skip_ws, match_tag, dec_digits, is_ws_char, is_digit_char,
    skip_ws_at, eat_tag, push_str_chars,
    lemma_skip_ws_is, lemma_digit_run_is, lemma_digits_val_of_dec, lemma_dec_digits_wf,
};
use crate::identifiers::generation::{Generation, lemma_generation_roundtrip};
use crate::identifiers::num_generation::NumGeneration;
use crate::identifiers::screen_size::{
    ScreenSize, MaybeScreenSize, spec_parse_ten, spec_brackets_long, spec_brackets_short,
    spec_bracketless_long, spec_bracketless_short, spec_render_ten,
    lemma_screen_size_roundtrip, lemma_render_ten_props,
};
use crate::identifiers::device_name::iphone::lemma_generation_first_char;

verus! {

/// An iPad model name. The ranking used for ordering is, oldest first:
/// plain iPad, then mini, then Air, then Pro.
#[derive(Debug, Clone, Copy)]
pub enum IPadVariant {
    Air {
        size: MaybeScreenSize,
        generation: Generation,
    },
    Mini {
        generation: Generation,
    },
    Plain {
        generation: Generation,
    },
    Pro {
        size: ScreenSize,
        generation: Generation,
        /// Records whether the size came before the generation in the
        /// original text, so that rendering is lossless.
        size_before_generation: bool,
    },
}

impl IPadVariant {
    pub open spec fn wf(self) -> bool {
        match self {
            IPadVariant::Air { size, generation } => generation.wf(),
            IPadVariant::Mini { generation } => generation.wf(),
            IPadVariant::Plain { generation } => generation.wf(),
            IPadVariant::Pro { size, generation, .. } => generation.wf(),
        }
    }

    /// The exact text this value renders to.
    pub open spec fn spec_render(self) -> Seq<char> {
        match self {
            IPadVariant::Air { size, generation } =>
                "iPad Air"@ + size.spec_render() + " "@ + generation.spec_render(),
            IPadVariant::Mini { generation } => "iPad mini "@ + generation.spec_render(),
            IPadVariant::Plain { generation } => "iPad "@ + generation.spec_render(),
            IPadVariant::Pro { size, generation, size_before_generation } => {
                if size_before_generation {
                    "iPad Pro "@ + size.spec_render() + " "@ + generation.spec_render()
                } else {
                    "iPad Pro "@ + generation.spec_render() + " "@ + size.spec_render()
                }
            },
        }
    }

    pub fn render_onto(&self, out: &mut Vec<char>)
        ensures
            final(out)@ == old(out)@ + self.spec_render(),
    {
        match self {
            IPadVariant::Air { size, generation } => {
                push_str_chars(out, "iPad Air");
                size.render_onto(out);
                push_str_chars(out, " ");
                generation.render_onto(out);
                assert(final(out)@ =~= old(out)@ + self.spec_render());
            },
            IPadVariant::Mini { generation } => {
                push_str_chars(out, "iPad mini ");
                generation.render_onto(out);
                assert(final(out)@ =~= old(out)@ + self.spec_render());
            },
            IPadVariant::Plain { generation } => {
                push_str_chars(out, "iPad ");
                generation.render_onto(out);
                assert(final(out)@ =~= old(out)@ + self.spec_render());
            },
            IPadVariant::Pro { size, generation, size_before_generation } => {
                push_str_chars(out, "iPad Pro ");
                if *size_before_generation {
                    size.render_onto(out);
                    push_str_chars(out, " ");
                    generation.render_onto(out);
                } else {
                    generation.render_onto(out);
                    push_str_chars(out, " ");
                    size.render_onto(out);
                }
                assert(final(out)@ =~= old(out)@ + self.spec_render());
            },
        }
    }
}

impl IPadVariant {
    /// The family rank used for ordering, oldest kind first: plain iPad,
    /// then mini, then Air, then Pro.
    pub open spec fn rank(self) -> int {
        match self {
            IPadVariant::Plain { .. } => 0,
            IPadVariant::Mini { .. } => 1,
            IPadVariant::Air { .. } => 2,
            IPadVariant::Pro { .. } => 3,
        }
    }

    /// Two iPad names denote the same model: same kind, and the fields
    /// that equality considers agree. Generations and sizes compare by
    /// value, never by presentation.
    pub open spec fn same_model(self, other: IPadVariant) -> bool {
        match (self, other) {
            (IPadVariant::Plain { generation: g1 }, IPadVariant::Plain { generation: g2 }) =>
                g1.same_as(g2),
            (IPadVariant::Mini { generation: g1 }, IPadVariant::Mini { generation: g2 }) =>
                g1.same_as(g2),
            (
                IPadVariant::Air { size: s1, generation: g1 },
                IPadVariant::Air { size: s2, generation: g2 },
            ) => g1.same_as(g2) && match (s1.0, s2.0) {
                (Option::None, Option::None) => true,
                (Option::Some(z1), Option::Some(z2)) => z1.ten_inches == z2.ten_inches,
                _ => false,
            },
            (
                IPadVariant::Pro { size: z1, generation: g1, size_before_generation: b1 },
                IPadVariant::Pro { size: z2, generation: g2, size_before_generation: b2 },
            ) => g1.same_as(g2) && z1.ten_inches == z2.ten_inches && b1 == b2,
            _ => false,
        }
    }

    /// The documented total order: family rank first, then generation
    /// (with chip generations above ordinal ones), then the remaining
    /// fields so that the order agrees with equality.
    pub open spec fn cmp_spec(self, other: IPadVariant) -> core::cmp::Ordering {
        if self.rank() < other.rank() {
            core::cmp::Ordering::Less
        } else if self.rank() > other.rank() {
            core::cmp::Ordering::Greater
        } else {
            match (self, other) {
                (IPadVariant::Plain { generation: g1 }, IPadVariant::Plain { generation: g2 }) =>
                    g1.cmp_spec(g2),
                (IPadVariant::Mini { generation: g1 }, IPadVariant::Mini { generation: g2 }) =>
                    g1.cmp_spec(g2),
                (
                    IPadVariant::Air { size: s1, generation: g1 },
                    IPadVariant::Air { size: s2, generation: g2 },
                ) => {
                    match g1.cmp_spec(g2) {
                        core::cmp::Ordering::Equal => match (s1.0, s2.0) {
                            (Option::None, Option::None) => core::cmp::Ordering::Equal,
                            (Option::None, Option::Some(_)) => core::cmp::Ordering::Less,
                            (Option::Some(_), Option::None) => core::cmp::Ordering::Greater,
                            (Option::Some(z1), Option::Some(z2)) => {
                                if z1.ten_inches < z2.ten_inches {
                                    core::cmp::Ordering::Less
                                } else if z1.ten_inches == z2.ten_inches {
                                    core::cmp::Ordering::Equal
                                } else {
                                    core::cmp::Ordering::Greater
                                }
                            },
                        },
                        o => o,
                    }
                },
                (
                    IPadVariant::Pro { size: z1, generation: g1, size_before_generation: b1 },
                    IPadVariant::Pro { size: z2, generation: g2, size_before_generation: b2 },
                ) => {
                    match g1.cmp_spec(g2) {
                        core::cmp::Ordering::Equal => {
                            if z1.ten_inches < z2.ten_inches {
                                core::cmp::Ordering::Less
                            } else if z1.ten_inches > z2.ten_inches {
                                core::cmp::Ordering::Greater
                            } else if !b1 && b2 {
                                core::cmp::Ordering::Less
                            } else if b1 && !b2 {
                                core::cmp::Ordering::Greater
                            } else {
                                core::cmp::Ordering::Equal
                            }
                        },
                        o => o,
                    }
                },
                _ => core::cmp::Ordering::Equal,
            }
        }
    }
}

impl PartialEq for IPadVariant {
    fn eq(&self, other: &IPadVariant) -> (r: bool)
        ensures
            r == self.same_model(*other),
    {
        match (self, other) {
            (IPadVariant::Plain { generation: g1 }, IPadVariant::Plain { generation: g2 }) =>
                g1 == g2,
            (IPadVariant::Mini { generation: g1 }, IPadVariant::Mini { generation: g2 }) =>
                g1 == g2,
            (
                IPadVariant::Air { size: s1, generation: g1 },
                IPadVariant::Air { size: s2, generation: g2 },
            ) => g1 == g2 && match (s1.0.as_ref(), s2.0.as_ref()) {
                (Option::None, Option::None) => true,
                (Option::Some(z1), Option::Some(z2)) => z1.ten_inches == z2.ten_inches,
                _ => false,
            },
            (
                IPadVariant::Pro { size: z1, generation: g1, size_before_generation: b1 },
                IPadVariant::Pro { size: z2, generation: g2, size_before_generation: b2 },
            ) => g1 == g2 && z1.ten_inches == z2.ten_inches && b1 == b2,
            _ => false,
        }
    }
}

impl vstd::std_specs::cmp::PartialEqSpecImpl for IPadVariant {
    open spec fn obeys_eq_spec() -> bool {
        true
    }

    open spec fn eq_spec(&self, other: &IPadVariant) -> bool {
        self.same_model(*other)
    }
}

impl PartialOrd for IPadVariant {
    fn partial_cmp(&self, other: &IPadVariant) -> (r: Option<core::cmp::Ordering>)
        ensures
            r == Some(self.cmp_spec(*other)),
    {
        let r1 = self.rank_exec();
        let r2 = other.rank_exec();
        if r1 < r2 {
            Some(core::cmp::Ordering::Less)
        } else if r1 > r2 {
            Some(core::cmp::Ordering::Greater)
        } else {
            match (self, other) {
                (IPadVariant::Plain { generation: g1 }, IPadVariant::Plain { generation: g2 }) =>
                    g1.partial_cmp(g2),
                (IPadVariant::Mini { generation: g1 }, IPadVariant::Mini { generation: g2 }) =>
                    g1.partial_cmp(g2),
                (
                    IPadVariant::Air { size: s1, generation: g1 },
                    IPadVariant::Air { size: s2, generation: g2 },
                ) => {
                    match g1.partial_cmp(g2) {
                        Some(core::cmp::Ordering::Equal) => match (s1.0.as_ref(), s2.0.as_ref()) {
                            (Option::None, Option::None) => Some(core::cmp::Ordering::Equal),
                            (Option::None, Option::Some(_)) => Some(core::cmp::Ordering::Less),
                            (Option::Some(_), Option::None) => Some(core::cmp::Ordering::Greater),
                            (Option::Some(z1), Option::Some(z2)) => {
                                if z1.ten_inches < z2.ten_inches {
                                    Some(core::cmp::Ordering::Less)
                                } else if z1.ten_inches == z2.ten_inches {
                                    Some(core::cmp::Ordering::Equal)
                                } else {
                                    Some(core::cmp::Ordering::Greater)
                                }
                            },
                        },
                        o => o,
                    }
                },
                (
                    IPadVariant::Pro { size: z1, generation: g1, size_before_generation: b1 },
                    IPadVariant::Pro { size: z2, generation: g2, size_before_generation: b2 },
                ) => {
                    match g1.partial_cmp(g2) {
                        Some(core::cmp::Ordering::Equal) => {
                            if z1.ten_inches < z2.ten_inches {
                                Some(core::cmp::Ordering::Less)
                            } else if z1.ten_inches > z2.ten_inches {
                                Some(core::cmp::Ordering::Greater)
                            } else if !*b1 && *b2 {
                                Some(core::cmp::Ordering::Less)
                            } else if *b1 && !*b2 {
                                Some(core::cmp::Ordering::Greater)
                            } else {
                                Some(core::cmp::Ordering::Equal)
                            }
                        },
                        o => o,
                    }
                },
                _ => Some(core::cmp::Ordering::Equal),
            }
        }
    }
}

impl vstd::std_specs::cmp::PartialOrdSpecImpl for IPadVariant {
    open spec fn obeys_partial_cmp_spec() -> bool {
        true
    }

    open spec fn partial_cmp_spec(&self, other: &IPadVariant) -> Option<core::cmp::Ordering> {
        Some(self.cmp_spec(*other))
    }
}

impl IPadVariant {
    fn rank_exec(&self) -> (r: u8)
        ensures
            r as int == self.rank(),
    {
        match self {
            IPadVariant::Plain { .. } => 0,
            IPadVariant::Mini { .. } => 1,
            IPadVariant::Air { .. } => 2,
            IPadVariant::Pro { .. } => 3,
        }
    }
}

/// The order on iPad names agrees with equality and reverses under
/// swapping its arguments.
pub proof fn lemma_ipad_cmp_antisymmetric(a: IPadVariant, b: IPadVariant)
    ensures
        (a.cmp_spec(b) == core::cmp::Ordering::Equal) <==> a.same_model(b),
        (a.cmp_spec(b) == core::cmp::Ordering::Less)
            <==> (b.cmp_spec(a) == core::cmp::Ordering::Greater),
{
}

/// The order on iPad names is transitive.
pub proof fn lemma_ipad_cmp_transitive(a: IPadVariant, b: IPadVariant, c: IPadVariant)
    requires
        a.cmp_spec(b) == core::cmp::Ordering::Less,
        b.cmp_spec(c) == core::cmp::Ordering::Less,
    ensures
        a.cmp_spec(c) == core::cmp::Ordering::Less,
{
}

/// The Pro body with the generation before the size.
pub open spec fn spec_parse_pro_gen_first(s: Seq<char>, i: int) -> Option<(int, IPadVariant)>
    recommends
        0 <= i <= s.len(),
{
    let j1 = skip_ws(s, i);
    match Generation::spec_parse_at(s, j1) {
        Some((j2, g)) => {
            let j3 = skip_ws(s, j2);
            match ScreenSize::spec_parse_at(s, j3) {
                Some((j4, z)) => Some((j4, IPadVariant::Pro {
                    size: z,
                    generation: g,
                    size_before_generation: false,
                })),
                None => None,
            }
        },
        None => None,
    }
}

impl IPadVariant {
    /// The family grammar. Expects the `iPad` keyword at `i` exactly;
    /// after the keyword has matched, a body that does not parse is a hard
    /// failure (`None`), not a fallback.
    pub open spec fn spec_parse_at(s: Seq<char>, i: int) -> Option<(int, IPadVariant)>
        recommends
            0 <= i <= s.len(),
    {
        if match_tag(s, i, "iPad"@) {
            let j = skip_ws(s, i + "iPad"@.len());
            if match_tag(s, j, "mini"@) {
                let j2 = skip_ws(s, j + "mini"@.len());
                match Generation::spec_parse_at(s, j2) {
                    Some((j3, g)) => Some((j3, IPadVariant::Mini { generation: g })),
                    None => None,
                }
            } else if match_tag(s, j, "Air"@) {
                let (j2, msize) = MaybeScreenSize::spec_parse_at(s, j + "Air"@.len());
                let j3 = skip_ws(s, j2);
                match Generation::spec_parse_at(s, j3) {
                    Some((j4, g)) => Some((j4, IPadVariant::Air { size: msize, generation: g })),
                    None => None,
                }
            } else if match_tag(s, j, "Pro"@) {
                let jp = j + "Pro"@.len();
                let j2 = skip_ws(s, jp);
                match ScreenSize::spec_parse_at(s, j2) {
                    Some((j3, z)) => {
                        let j4 = skip_ws(s, j3);
                        match Generation::spec_parse_at(s, j4) {
                            Some((j5, g)) => Some((j5, IPadVariant::Pro {
                                size: z,
                                generation: g,
                                size_before_generation: true,
                            })),
                            None => spec_parse_pro_gen_first(s, jp),
                        }
                    },
                    None => spec_parse_pro_gen_first(s, jp),
                }
            } else {
                match Generation::spec_parse_at(s, j) {
                    Some((j2, g)) => Some((j2, IPadVariant::Plain { generation: g })),
                    None => None,
                }
            }
        } else {
            None
        }
    }

    pub fn parse_at(s: &Vec<char>, i: usize) -> (r: Option<(usize, IPadVariant)>)
        requires
            i <= s.len(),
        ensures
            match r {
                Some((j, v)) => {
                    &&& Self::spec_parse_at(s@, i as int) == Some((j as int, v))
                    &&& i <= j <= s.len()
                    &&& v.wf()
                },
                None => Self::spec_parse_at(s@, i as int) is None,
            },
    {
        let j0 = match eat_tag(s, i, "iPad") {
            Some(j) => j,
            None => { return None; },
        };
        let j = skip_ws_at(s, j0);
        if let Some(jm) = eat_tag(s, j, "mini") {
            let j2 = skip_ws_at(s, jm);
            match Generation::parse_at(s, j2) {
                Some((j3, g)) => Some((j3, IPadVariant::Mini { generation: g })),
                None => None,
            }
        } else if let Some(ja) = eat_tag(s, j, "Air") {
            let (j2, msize) = MaybeScreenSize::parse_at(s, ja);
            let j3 = skip_ws_at(s, j2);
            match Generation::parse_at(s, j3) {
                Some((j4, g)) => Some((j4, IPadVariant::Air { size: msize, generation: g })),
                None => None,
            }
        } else if let Some(jp) = eat_tag(s, j, "Pro") {
            let j2 = skip_ws_at(s, jp);
            let first = match ScreenSize::parse_at(s, j2) {
                Some((j3, z)) => {
                    let j4 = skip_ws_at(s, j3);
                    match Generation::parse_at(s, j4) {
                        Some((j5, g)) => Some((j5, IPadVariant::Pro {
                            size: z,
                            generation: g,
                            size_before_generation: true,
                        })),
                        None => None,
                    }
                },
                None => None,
            };
            match first {
                Some(r) => Some(r),
                None => parse_pro_gen_first(s, jp),
            }
        } else {
            match Generation::parse_at(s, j) {
                Some((j2, g)) => Some((j2, IPadVariant::Plain { generation: g })),
                None => None,
            }
        }
    }
}

/// A rendered screen size starts with `(` or a digit, never whitespace.
pub proof fn lemma_screen_size_render_first(z: ScreenSize)
    ensures
        z.spec_render().len() >= 1,
        !is_ws_char(z.spec_render()[0]),
{
    reveal_strlit("(");
    lemma_render_ten_props(z.ten_inches);
    if z.brackets {
        assert(z.spec_render()[0] == '(');
    } else {
        assert(z.spec_render()[0] == spec_render_ten(z.ten_inches)[0]);
    }
}

/// No screen size form matches the start of a rendered generation, so an
/// optional size never eats into the generation that follows it.
pub proof fn lemma_screen_size_rejects_generation(s: Seq<char>, i: int, g: Generation)
    requires
        g.wf(),
        0 <= i,
        i + g.spec_render().len() <= s.len(),
        forall|k: int| 0 <= k < g.spec_render().len() ==> s[i + k] == #[trigger] g.spec_render()[k],
    ensures
        ScreenSize::spec_parse_at(s, i) is None,
{
    reveal_strlit("(");
    reveal_strlit("(M");
    reveal_strlit(")");
    reveal_strlit("G");
    reveal_strlit("st");
    reveal_strlit("nd");
    reveal_strlit("rd");
    reveal_strlit("th");
    reveal_strlit(" generation)");
    reveal_strlit("-inch)");
    reveal_strlit("-inch");
    reveal_strlit("\")");
    reveal_strlit("\"");
    let r = g.spec_render();
    match g {
        Generation::Num(ng) => {
            let d = dec_digits(ng.num as int);
            let dl = d.len() as int;
            lemma_dec_digits_wf(ng.num as int);
            if ng.short {
                // digits then `G`: both bracket forms fail on the first
                // digit, both bracketless forms fail at the unit after it
                assert forall|k: int| 0 <= k < dl implies s[i + k] == #[trigger] d[k] by {
                    assert(r[k] == d[k]);
                }
                assert(is_digit_char(s[i])) by {
                    assert(s[i] == d[0]);
                }
                assert(!match_tag(s, i, "("@)) by {
                    assert(s[i + 0] != "("@[0]);
                }
                assert(spec_brackets_long(s, i) is None);
                assert(spec_brackets_short(s, i) is None);
                assert(s[i + dl] == r[dl] && r[dl] == 'G');
                assert(!is_digit_char('G') && 'G' != '.' && !is_ws_char('G'));
                assert forall|k: int| i <= k < i + dl implies is_digit_char(s[k]) by {
                    assert(s[k] == d[k - i]);
                }
                lemma_digit_run_is(s, i, i + dl);
                lemma_digits_val_of_dec(s, i, ng.num as int);
                assert(s[i] == d[0] && d[0] != '0');
                assert(spec_parse_ten(s, i) == Some((i + dl, (ng.num * 10) as u16)));
                lemma_skip_ws_is(s, i + dl, i + dl);
                assert(!match_tag(s, i + dl, "-inch"@)) by {
                    assert(s[i + dl + 0] != "-inch"@[0]);
                }
                assert(!match_tag(s, i + dl, "\""@)) by {
                    assert(s[i + dl + 0] != "\""@[0]);
                }
                assert(spec_bracketless_long(s, i) is None);
                assert(spec_bracketless_short(s, i) is None);
            } else {
                // `(` then digits then an ordinal letter: the bracket forms
                // fail at the unit, the bracketless forms at the `(`
                let o = NumGeneration::spec_ordinal(ng.num);
                assert(s[i] == r[0] && r[0] == '(');
                assert(match_tag(s, i, "("@));
                assert forall|k: int| 0 <= k < dl implies s[i + 1 + k] == #[trigger] d[k] by {
                    assert(r[1 + k] == d[k]);
                }
                assert(is_digit_char(s[i + 1])) by {
                    assert(s[i + 1] == d[0]);
                }
                lemma_skip_ws_is(s, i + 1, i + 1);
                let c = o[0];
                assert(c == 's' || c == 'n' || c == 'r' || c == 't');
                assert(s[i + 1 + dl] == r[1 + dl] && r[1 + dl] == c);
                assert(!is_digit_char(c) && c != '.' && !is_ws_char(c));
                assert forall|k: int| i + 1 <= k < i + 1 + dl implies is_digit_char(s[k]) by {
                    assert(s[k] == d[k - i - 1]);
                }
                lemma_digit_run_is(s, i + 1, i + 1 + dl);
                lemma_digits_val_of_dec(s, i + 1, ng.num as int);
                assert(s[i + 1] == d[0] && d[0] != '0');
                assert(spec_parse_ten(s, i + 1) == Some((i + 1 + dl, (ng.num * 10) as u16)));
                lemma_skip_ws_is(s, i + 1 + dl, i + 1 + dl);
                assert(!match_tag(s, i + 1 + dl, "-inch)"@)) by {
                    assert(s[i + 1 + dl + 0] != "-inch)"@[0]);
                }
                assert(!match_tag(s, i + 1 + dl, "\")"@)) by {
                    assert(s[i + 1 + dl + 0] != "\")"@[0]);
                }
                assert(spec_brackets_long(s, i) is None);
                assert(spec_brackets_short(s, i) is None);
                assert(!is_digit_char(s[i]));
                lemma_digit_run_is(s, i, i);
                assert(spec_parse_ten(s, i) is None);
                assert(spec_bracketless_long(s, i) is None);
                assert(spec_bracketless_short(s, i) is None);
            }
        },
        Generation::M(m) => {
            // `(M...`: the bracket forms find no digits after the `(`, the
            // bracketless forms none at the start
            assert(s[i] == r[0] && r[0] == '(');
            assert(s[i + 1] == r[1] && r[1] == 'M');
            assert(!is_digit_char('M') && !is_ws_char('M'));
            lemma_skip_ws_is(s, i + 1, i + 1);
            lemma_digit_run_is(s, i + 1, i + 1);
            assert(spec_parse_ten(s, i + 1) is None);
            assert(spec_brackets_long(s, i) is None);
            assert(spec_brackets_short(s, i) is None);
            assert(!is_digit_char(s[i]));
            lemma_digit_run_is(s, i, i);
            assert(spec_parse_ten(s, i) is None);
            assert(spec_bracketless_long(s, i) is None);
            assert(spec_bracketless_short(s, i) is None);
        },
    }
}

fn parse_pro_gen_first(s: &Vec<char>, i: usize) -> (r: Option<(usize, IPadVariant)>)
    requires
        i <= s.len(),
    ensures
        match r {
            Some((j, v)) => {
                &&& spec_parse_pro_gen_first(s@, i as int) == Some((j as int, v))
                &&& i <= j <= s.len()
                &&& v.wf()
            },
            None => spec_parse_pro_gen_first(s@, i as int) is None,
        },
{
    let j1 = skip_ws_at(s, i);
    let (j2, g) = match Generation::parse_at(s, j1) {
        Some(r) => r,
        None => { return None; },
    };
    let j3 = skip_ws_at(s, j2);
    match ScreenSize::parse_at(s, j3) {
        Some((j4, z)) => Some((j4, IPadVariant::Pro {
            size: z,
            generation: g,
            size_before_generation: false,
        })),
        None => None,
    }
}

/// A rendered iPad name, read back from anywhere inside a larger string,
/// parses to the same value and consumes exactly its own text.
#[verifier::rlimit(60)]
#[verifier::spinoff_prover]
pub proof fn lemma_ipad_roundtrip(s: Seq<char>, i: int, v: IPadVariant)
    requires
        v.wf(),
        0 <= i,
        i + v.spec_render().len() <= s.len(),
        forall|k: int| 0 <= k < v.spec_render().len() ==> s[i + k] == #[trigger] v.spec_render()[k],
    ensures
        IPadVariant::spec_parse_at(s, i) == Some((i + v.spec_render().len() as int, v)),
{
    reveal_strlit("iPad");
    reveal_strlit("iPad ");
    reveal_strlit("iPad mini ");
    reveal_strlit("iPad Air");
    reveal_strlit("iPad Pro ");
    reveal_strlit("mini");
    reveal_strlit("Air");
    reveal_strlit("Pro");
    reveal_strlit(" ");
    let r = v.spec_render();
    match v {
        IPadVariant::Mini { generation } => {
            let g = generation;
            let gr = g.spec_render();
            assert(match_tag(s, i, "iPad"@)) by {
                assert forall|k: int| 0 <= k < 4 implies s[i + k] == #[trigger] "iPad"@[k] by {
                    assert(s[i + k] == r[k]);
                    assert(r[k] == "iPad mini "@[k]);
                }
            }
            assert(s[i + 4] == r[4] && r[4] == ' ');
            assert(s[i + 5] == r[5] && r[5] == 'm');
            lemma_skip_ws_is(s, i + 4, i + 5);
            assert(match_tag(s, i + 5, "mini"@)) by {
                assert forall|k: int| 0 <= k < 4 implies s[i + 5 + k] == #[trigger] "mini"@[k] by {
                    assert(s[i + 5 + k] == r[5 + k]);
                    assert(r[5 + k] == "iPad mini "@[5 + k]);
                }
            }
            assert(s[i + 9] == r[9] && r[9] == ' ');
            assert forall|k: int| 0 <= k < gr.len() implies s[i + 10 + k] == #[trigger] gr[k] by {
                assert(r[10 + k] == gr[k]);
            }
            lemma_generation_first_char(g);
            assert(s[i + 10] == gr[0]);
            lemma_skip_ws_is(s, i + 9, i + 10);
            lemma_generation_roundtrip(s, i + 10, g);
        },
        IPadVariant::Plain { generation } => {
            let g = generation;
            let gr = g.spec_render();
            assert(match_tag(s, i, "iPad"@)) by {
                assert forall|k: int| 0 <= k < 4 implies s[i + k] == #[trigger] "iPad"@[k] by {
                    assert(s[i + k] == r[k]);
                    assert(r[k] == "iPad "@[k]);
                }
            }
            assert(s[i + 4] == r[4] && r[4] == ' ');
            assert forall|k: int| 0 <= k < gr.len() implies s[i + 5 + k] == #[trigger] gr[k] by {
                assert(r[5 + k] == gr[k]);
            }
            lemma_generation_first_char(g);
            assert(s[i + 5] == gr[0]);
            lemma_skip_ws_is(s, i + 4, i + 5);
            assert(!match_tag(s, i + 5, "mini"@)) by {
                assert(s[i + 5 + 0] != "mini"@[0]);
            }
            assert(!match_tag(s, i + 5, "Air"@)) by {
                assert(s[i + 5 + 0] != "Air"@[0]);
            }
            assert(!match_tag(s, i + 5, "Pro"@)) by {
                assert(s[i + 5 + 0] != "Pro"@[0]);
            }
            lemma_generation_roundtrip(s, i + 5, g);
        },
        IPadVariant::Air { size, generation } => {
            let g = generation;
            let gr = g.spec_render();
            let m = size.spec_render();
            assert(match_tag(s, i, "iPad"@)) by {
                assert forall|k: int| 0 <= k < 4 implies s[i + k] == #[trigger] "iPad"@[k] by {
                    assert(s[i + k] == r[k]);
                    assert(r[k] == "iPad Air"@[k]);
                }
            }
            assert(s[i + 4] == r[4] && r[4] == ' ');
            assert(s[i + 5] == r[5] && r[5] == 'A');
            lemma_skip_ws_is(s, i + 4, i + 5);
            assert(!match_tag(s, i + 5, "mini"@)) by {
                assert(s[i + 5 + 0] != "mini"@[0]);
            }
            assert(match_tag(s, i + 5, "Air"@)) by {
                assert forall|k: int| 0 <= k < 3 implies s[i + 5 + k] == #[trigger] "Air"@[k] by {
                    assert(s[i + 5 + k] == r[5 + k]);
                    assert(r[5 + k] == "iPad Air"@[5 + k]);
                }
            }
            let ja = i + 8;
            lemma_generation_first_char(g);
            match size.0 {
                Some(z) => {
                    let zr = z.spec_render();
                    let zl = zr.len() as int;
                    assert(s[ja] == r[8]);
                    assert(r[8] == m[0] && m[0] == ' ');
                    assert forall|k: int| 0 <= k < zl implies s[ja + 1 + k] == #[trigger] zr[k] by {
                        assert(s[ja + 1 + k] == r[8 + 1 + k]);
                        assert(r[8 + 1 + k] == m[1 + k]);
                        assert(m[1 + k] == zr[k]);
                    }
                    lemma_screen_size_render_first(z);
                    assert(s[ja + 1] == zr[0]);
                    lemma_skip_ws_is(s, ja, ja + 1);
                    lemma_screen_size_roundtrip(s, ja + 1, z);
                    let e = ja + 1 + zl;
                    assert(MaybeScreenSize::spec_parse_at(s, ja) == (e, MaybeScreenSize(Some(z))));
                    assert(s[e] == r[8 + m.len() as int]);
                    assert(r[8 + m.len() as int] == ' ');
                    assert forall|k: int| 0 <= k < gr.len() implies s[e + 1 + k] == #[trigger] gr[k] by {
                        assert(s[e + 1 + k] == r[8 + m.len() + 1 + k]);
                        assert(r[8 + m.len() + 1 + k] == gr[k]);
                    }
                    assert(s[e + 1] == gr[0]);
                    lemma_skip_ws_is(s, e, e + 1);
                    lemma_generation_roundtrip(s, e + 1, g);
                    assert(e + 1 + gr.len() == i + r.len());
                },
                None => {
                    assert(m.len() == 0);
                    assert(s[ja] == r[8]);
                    assert(r[8] == ' ');
                    assert forall|k: int| 0 <= k < gr.len() implies s[ja + 1 + k] == #[trigger] gr[k] by {
                        assert(s[ja + 1 + k] == r[8 + 1 + k]);
                        assert(r[8 + 1 + k] == gr[k]);
                    }
                    assert(s[ja + 1] == gr[0]);
                    lemma_skip_ws_is(s, ja, ja + 1);
                    lemma_screen_size_rejects_generation(s, ja + 1, g);
                    assert(MaybeScreenSize::spec_parse_at(s, ja) == (ja, MaybeScreenSize(None)));
                    lemma_generation_roundtrip(s, ja + 1, g);
                    assert(ja + 1 + gr.len() == i + r.len());
                },
            }
        },
        IPadVariant::Pro { size, generation, size_before_generation } => {
            let g = generation;
            let z = size;
            let gr = g.spec_render();
            let zr = z.spec_render();
            let gl = gr.len() as int;
            let zl = zr.len() as int;
            assert(match_tag(s, i, "iPad"@)) by {
                assert forall|k: int| 0 <= k < 4 implies s[i + k] == #[trigger] "iPad"@[k] by {
                    assert(s[i + k] == r[k]);
                    assert(r[k] == "iPad Pro "@[k]);
                }
            }
            assert(s[i + 4] == r[4] && r[4] == ' ');
            assert(s[i + 5] == r[5] && r[5] == 'P');
            lemma_skip_ws_is(s, i + 4, i + 5);
            assert(!match_tag(s, i + 5, "mini"@)) by {
                assert(s[i + 5 + 0] != "mini"@[0]);
            }
            assert(!match_tag(s, i + 5, "Air"@)) by {
                assert(s[i + 5 + 0] != "Air"@[0]);
            }
            assert(match_tag(s, i + 5, "Pro"@)) by {
                assert forall|k: int| 0 <= k < 3 implies s[i + 5 + k] == #[trigger] "Pro"@[k] by {
                    assert(s[i + 5 + k] == r[5 + k]);
                    assert(r[5 + k] == "iPad Pro "@[5 + k]);
                }
            }
            let jp = i + 8;
            assert(s[jp] == r[8] && r[8] == ' ');
            lemma_generation_first_char(g);
            lemma_screen_size_render_first(z);
            if size_before_generation {
                assert forall|k: int| 0 <= k < zl implies s[jp + 1 + k] == #[trigger] zr[k] by {
                    assert(s[jp + 1 + k] == r[9 + k]);
                    assert(r[9 + k] == zr[k]);
                }
                assert(s[jp + 1] == zr[0]);
                lemma_skip_ws_is(s, jp, jp + 1);
                lemma_screen_size_roundtrip(s, jp + 1, z);
                let e = jp + 1 + zl;
                assert(s[e] == r[9 + zl] && r[9 + zl] == ' ');
                assert forall|k: int| 0 <= k < gl implies s[e + 1 + k] == #[trigger] gr[k] by {
                    assert(s[e + 1 + k] == r[9 + zl + 1 + k]);
                    assert(r[9 + zl + 1 + k] == gr[k]);
                }
                assert(s[e + 1] == gr[0]);
                lemma_skip_ws_is(s, e, e + 1);
                lemma_generation_roundtrip(s, e + 1, g);
                assert(e + 1 + gl == i + r.len());
            } else {
                assert forall|k: int| 0 <= k < gl implies s[jp + 1 + k] == #[trigger] gr[k] by {
                    assert(s[jp + 1 + k] == r[9 + k]);
                    assert(r[9 + k] == gr[k]);
                }
                assert(s[jp + 1] == gr[0]);
                lemma_skip_ws_is(s, jp, jp + 1);
                lemma_screen_size_rejects_generation(s, jp + 1, g);
                lemma_generation_roundtrip(s, jp + 1, g);
                let e = jp + 1 + gl;
                assert(s[e] == r[9 + gl] && r[9 + gl] == ' ');
                assert forall|k: int| 0 <= k < zl implies s[e + 1 + k] == #[trigger] zr[k] by {
                    assert(s[e + 1 + k] == r[9 + gl + 1 + k]);
                    assert(r[9 + gl + 1 + k] == zr[k]);
                }
                assert(s[e + 1] == zr[0]);
                lemma_skip_ws_is(s, e, e + 1);
                lemma_screen_size_roundtrip(s, e + 1, z);
                assert(spec_parse_pro_gen_first(s, jp)
                    == Some((i + r.len() as int, IPadVariant::Pro {
                        size: z,
                        generation: g,
                        size_before_generation: false,
                    })));
                assert(e + 1 + zl == i + r.len());
            }
        },
    }
}

} // verus!
