//! Chip status markers such as `(M1)`: an earlier standalone form of the
//! chip generation marker, kept with its own type.

use vstd::prelude::*;
use crate::text::{
    skip_ws, match_tag, spec_parse_pos_u8, dec_digits,
    skip_ws_at, eat_tag, parse_pos_u8, push_dec_u16, push_str_chars,
};

verus! {

/// A chip status marker, e.g. `M1`. Rendered in parentheses: `(M1)`.
#[derive(Debug, Clone, Copy)]
pub struct MStatus {
    /// The chip number; always at least 1.
    pub num: u8,
}

/// Wrapper around an optional [`MStatus`] so that an absent marker renders
/// to nothing and a present one renders with its single leading space.
#[derive(Debug, Clone, Copy)]
pub struct MaybeMStatus(pub Option<MStatus>);

impl MStatus {
    pub open spec fn wf(self) -> bool {
        self.num >= 1
    }

    pub fn get_u8(&self) -> (n: u8)
        ensures
            n == self.num,
    {
        self.num
    }

    /// The chip number; always at least 1.
    pub fn get(&self) -> (n: u8)
        ensures
            n == self.num,
    {
        self.num
    }

    pub fn new(num: u8) -> (r: MStatus)
        requires
            num >= 1,
        ensures
            r == (MStatus { num }),
            r.wf(),
    {
        MStatus { num }
    }

    /// The exact text this value renders to.
    pub open spec fn spec_render(self) -> Seq<char> {
        "(M"@ + dec_digits(self.num as int) + ")"@
    }

    pub fn render_onto(&self, out: &mut Vec<char>)
        ensures
            final(out)@ == old(out)@ + self.spec_render(),
    {
        push_str_chars(out, "(M");
        push_dec_u16(out, self.num as u16);
        push_str_chars(out, ")");
        assert(final(out)@ =~= old(out)@ + self.spec_render());
    }

    /// The marker grammar: `(`, `M`, a number, `)`, with whitespace
    /// tolerated inside the parentheses but not between `M` and the number.
    pub open spec fn spec_parse_at(s: Seq<char>, i: int) -> Option<(int, MStatus)>
        recommends
            0 <= i <= s.len(),
    {
        if match_tag(s, i, "("@) {
            let j1 = skip_ws(s, i + "("@.len());
            if match_tag(s, j1, "M"@) {
                match spec_parse_pos_u8(s, j1 + "M"@.len()) {
                    Some((j2, n)) => {
                        let j3 = skip_ws(s, j2);
                        if match_tag(s, j3, ")"@) {
                            Some((j3 + ")"@.len(), MStatus { num: n }))
                        } else {
                            None
                        }
                    },
                    None => None,
                }
            } else {
                None
            }
        } else {
            None
        }
    }
}

/// Parses a chip status marker such as `(M1)`.
pub fn parse_m_status(s: &Vec<char>, i: usize) -> (r: Option<(usize, MStatus)>)
    requires
        i <= s.len(),
    ensures
        match r {
            Some((j, m)) => {
                &&& MStatus::spec_parse_at(s@, i as int) == Some((j as int, m))
                &&& i <= j <= s.len()
                &&& m.wf()
            },
            None => MStatus::spec_parse_at(s@, i as int) is None,
        },
{
    let j0 = match eat_tag(s, i, "(") {
        Some(j) => j,
        None => { return None; },
    };
    let j1 = skip_ws_at(s, j0);
    let j2 = match eat_tag(s, j1, "M") {
        Some(j) => j,
        None => { return None; },
    };
    let (j3, n) = match parse_pos_u8(s, j2) {
        Some(r) => r,
        None => { return None; },
    };
    let j4 = skip_ws_at(s, j3);
    match eat_tag(s, j4, ")") {
        Some(j5) => Some((j5, MStatus { num: n })),
        None => None,
    }
}

impl MaybeMStatus {
    pub open spec fn wf(self) -> bool {
        match self.0 {
            Some(m) => m.wf(),
            None => true,
        }
    }

    pub fn get(&self) -> (r: Option<&MStatus>)
        ensures
            match r {
                Some(m) => self.0 == Some(*m),
                None => self.0 is None,
            },
    {
        self.0.as_ref()
    }

    pub fn new(m: Option<MStatus>) -> (r: MaybeMStatus)
        ensures
            r == (MaybeMStatus(m)),
    {
        MaybeMStatus(m)
    }

    /// Renders to nothing when absent, and with a single leading space when
    /// present.
    pub open spec fn spec_render(self) -> Seq<char> {
        match self.0 {
            Some(m) => " "@ + m.spec_render(),
            None => Seq::<char>::empty(),
        }
    }

    pub fn render_onto(&self, out: &mut Vec<char>)
        ensures
            final(out)@ == old(out)@ + self.spec_render(),
    {
        match self.0.as_ref() {
            Some(m) => {
                push_str_chars(out, " ");
                m.render_onto(out);
                assert(final(out)@ =~= old(out)@ + self.spec_render());
            },
            None => {
                assert(final(out)@ =~= old(out)@ + self.spec_render());
            },
        }
    }

    /// An optional chip status marker: consumes nothing when no marker is
    /// present.
    pub open spec fn spec_parse_at(s: Seq<char>, i: int) -> (int, MaybeMStatus)
        recommends
            0 <= i <= s.len(),
    {
        match MStatus::spec_parse_at(s, i) {
            Some((j, m)) => (j, MaybeMStatus(Some(m))),
            None => (i, MaybeMStatus(None)),
        }
    }

    pub fn parse_at(s: &Vec<char>, i: usize) -> (r: (usize, MaybeMStatus))
        requires
            i <= s.len(),
        ensures
            Self::spec_parse_at(s@, i as int) == (r.0 as int, r.1),
            i <= r.0 <= s.len(),
            r.1.wf(),
    {
        match parse_m_status(s, i) {
            Some((j, m)) => (j, MaybeMStatus(Some(m))),
            None => (i, MaybeMStatus(None)),
        }
    }
}

} // verus!
