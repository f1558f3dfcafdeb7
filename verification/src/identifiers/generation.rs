//! Device generations: either an ordinal generation such as
//! `(5th generation)` or a chip generation such as `(M1)`.

use vstd::prelude::*;
use vstd::std_specs::cmp::PartialEqSpec;
use crate::text::{
    spec_parse_pos_u8, dec_digits, is_digit_char,
    lemma_dec_digits_wf, lemma_skip_ws_is, lemma_digit_run_is,
};
use crate::identifiers::num_generation::NumGeneration;
use crate::identifiers::m_gen::{MGen, parse_m_status, lemma_m_gen_roundtrip};
use crate::identifiers::num_generation::lemma_num_generation_roundtrip;

verus! {

/// A device generation. A chip generation is considered newer than, and
/// therefore orders above, every ordinal generation.
#[derive(Debug, Clone, Copy)]
pub enum Generation {
    Num(NumGeneration),
    M(MGen),
}

impl Generation {
    pub open spec fn wf(self) -> bool {
        match self {
            Generation::Num(g) => g.wf(),
            Generation::M(m) => m.wf(),
        }
    }

    /// An ordinal generation in long form, for building test values.
    pub fn testing_num(num: u8) -> (r: Generation)
        requires
            num >= 1,
        ensures
            r == Generation::Num(NumGeneration { num, short: false }),
            r.wf(),
    {
        Generation::Num(NumGeneration::long(num))
    }

    /// The exact text this value renders to.
    pub open spec fn spec_render(self) -> Seq<char> {
        match self {
            Generation::Num(g) => g.spec_render(),
            Generation::M(m) => m.spec_render(),
        }
    }

    pub fn render_onto(&self, out: &mut Vec<char>)
        ensures
            final(out)@ == old(out)@ + self.spec_render(),
    {
        match self {
            Generation::Num(g) => g.render_onto(out),
            Generation::M(m) => m.render_onto(out),
        }
    }

    /// Tries the ordinal forms first, then the chip form. Expects the
    /// first token at `i` exactly.
    pub open spec fn spec_parse_at(s: Seq<char>, i: int) -> Option<(int, Generation)>
        recommends
            0 <= i <= s.len(),
    {
        match NumGeneration::spec_parse_at(s, i) {
            Some((j, g)) => Some((j, Generation::Num(g))),
            None => match MGen::spec_parse_at(s, i) {
                Some((j, m)) => Some((j, Generation::M(m))),
                None => None,
            },
        }
    }

    pub fn parse_at(s: &Vec<char>, i: usize) -> (r: Option<(usize, Generation)>)
        requires
            i <= s.len(),
        ensures
            match r {
                Some((j, g)) => {
                    &&& Self::spec_parse_at(s@, i as int) == Some((j as int, g))
                    &&& i <= j <= s.len()
                    &&& g.wf()
                },
                None => Self::spec_parse_at(s@, i as int) is None,
            },
    {
        match NumGeneration::parse_at(s, i) {
            Some((j, g)) => Some((j, Generation::Num(g))),
            None => match parse_m_status(s, i) {
                Some((j, m)) => Some((j, Generation::M(m))),
                None => None,
            },
        }
    }
}

impl Generation {
    /// Two generations denote the same iteration: same kind, same number;
    /// presentation never counts.
    pub open spec fn same_as(self, other: Generation) -> bool {
        match (self, other) {
            (Generation::Num(a), Generation::Num(b)) => a.num == b.num,
            (Generation::M(a), Generation::M(b)) => a.num == b.num,
            _ => false,
        }
    }

    /// The documented total order: a chip generation is newer than, and
    /// orders above, every ordinal generation whatever the numbers; within
    /// a kind, order by number.
    pub open spec fn cmp_spec(self, other: Generation) -> core::cmp::Ordering {
        match (self, other) {
            (Generation::Num(a), Generation::Num(b)) => if a.num < b.num {
                core::cmp::Ordering::Less
            } else if a.num == b.num {
                core::cmp::Ordering::Equal
            } else {
                core::cmp::Ordering::Greater
            },
            (Generation::Num(_), Generation::M(_)) => core::cmp::Ordering::Less,
            (Generation::M(_), Generation::Num(_)) => core::cmp::Ordering::Greater,
            (Generation::M(a), Generation::M(b)) => if a.num < b.num {
                core::cmp::Ordering::Less
            } else if a.num == b.num {
                core::cmp::Ordering::Equal
            } else {
                core::cmp::Ordering::Greater
            },
        }
    }
}

impl PartialEq for Generation {
    /// Equal when the kinds and numbers agree; presentation never counts.
    fn eq(&self, other: &Generation) -> (r: bool) {
        match (self, other) {
            (Generation::Num(a), Generation::Num(b)) => a.num == b.num,
            (Generation::M(a), Generation::M(b)) => a.num == b.num,
            _ => false,
        }
    }
}

impl vstd::std_specs::cmp::PartialEqSpecImpl for Generation {
    open spec fn obeys_eq_spec() -> bool {
        true
    }

    open spec fn eq_spec(&self, other: &Generation) -> bool {
        self.same_as(*other)
    }
}

impl PartialOrd for Generation {
    fn partial_cmp(&self, other: &Generation) -> (r: Option<core::cmp::Ordering>) {
        match (self, other) {
            (Generation::Num(a), Generation::Num(b)) => if a.num < b.num {
                Some(core::cmp::Ordering::Less)
            } else if a.num == b.num {
                Some(core::cmp::Ordering::Equal)
            } else {
                Some(core::cmp::Ordering::Greater)
            },
            (Generation::Num(_), Generation::M(_)) => Some(core::cmp::Ordering::Less),
            (Generation::M(_), Generation::Num(_)) => Some(core::cmp::Ordering::Greater),
            (Generation::M(a), Generation::M(b)) => if a.num < b.num {
                Some(core::cmp::Ordering::Less)
            } else if a.num == b.num {
                Some(core::cmp::Ordering::Equal)
            } else {
                Some(core::cmp::Ordering::Greater)
            },
        }
    }
}

impl vstd::std_specs::cmp::PartialOrdSpecImpl for Generation {
    open spec fn obeys_partial_cmp_spec() -> bool {
        true
    }

    open spec fn partial_cmp_spec(&self, other: &Generation) -> Option<core::cmp::Ordering> {
        Some(self.cmp_spec(*other))
    }
}

/// The order on generations agrees with equality: it reports `Equal`
/// exactly on equal values, and reverses under swapping its arguments.
pub proof fn lemma_generation_cmp_antisymmetric(a: Generation, b: Generation)
    ensures
        (a.cmp_spec(b) == core::cmp::Ordering::Equal) <==> a.eq_spec(&b),
        (a.cmp_spec(b) == core::cmp::Ordering::Less)
            <==> (b.cmp_spec(a) == core::cmp::Ordering::Greater),
{
}

/// The order on generations is transitive.
pub proof fn lemma_generation_cmp_transitive(a: Generation, b: Generation, c: Generation)
    requires
        a.cmp_spec(b) == core::cmp::Ordering::Less,
        b.cmp_spec(c) == core::cmp::Ordering::Less,
    ensures
        a.cmp_spec(c) == core::cmp::Ordering::Less,
{
}

/// A chip generation orders above every ordinal generation, whatever the
/// two numbers are.
pub proof fn lemma_chip_above_numeric(m: MGen, n: NumGeneration)
    ensures
        Generation::M(m).cmp_spec(Generation::Num(n)) == core::cmp::Ordering::Greater,
{
}

/// A rendered generation, read back from anywhere inside a larger string,
/// parses to the same value and consumes exactly its own text.
pub proof fn lemma_generation_roundtrip(s: Seq<char>, i: int, g: Generation)
    requires
        g.wf(),
        0 <= i,
        i + g.spec_render().len() <= s.len(),
        forall|k: int| 0 <= k < g.spec_render().len() ==> s[i + k] == #[trigger] g.spec_render()[k],
    ensures
        Generation::spec_parse_at(s, i) == Some((i + g.spec_render().len() as int, g)),
{
    match g {
        Generation::Num(ng) => {
            lemma_num_generation_roundtrip(s, i, ng);
        },
        Generation::M(m) => {
            reveal_strlit("(");
            reveal_strlit("(M");
            reveal_strlit("M");
            let r = m.spec_render();
            let d = dec_digits(m.num as int);
            lemma_dec_digits_wf(m.num as int);
            // the ordinal grammar gets stuck on the `M` after the bracket
            assert(s[i + 1] == r[1]);
            assert(r[1] == 'M');
            assert(!is_digit_char('M'));
            lemma_skip_ws_is(s, i + 1, i + 1);
            lemma_digit_run_is(s, i + 1, i + 1);
            assert(spec_parse_pos_u8(s, i + 1) is None);
            assert(s[i] == r[0]);
            assert(r[0] == '(');
            assert(!is_digit_char('('));
            lemma_digit_run_is(s, i, i);
            assert(spec_parse_pos_u8(s, i) is None);
            assert(NumGeneration::spec_parse_at(s, i) is None);
            lemma_m_gen_roundtrip(s, i, m);
        },
    }
}

} // verus!
