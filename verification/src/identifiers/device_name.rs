//! The unified device name: the family grammars and the top-level
//! dispatcher that never fails.
//!
//! The dispatcher commits to a family by its keyword. A committed body
//! that does not parse, or text left over after one that does, falls back
//! to the verbatim [`DeviceName::UnImplemented`] variant at this level and
//! this level only, so parsing is total.

pub mod ipad;
pub mod iphone;

use vstd::prelude::*;
use crate::text::{
    skip_ws, match_tag,
    skip_ws_at, eat_tag, str_to_chars, chars_to_string,
    lemma_skip_ws_is,
};
use crate::identifiers::device_name::ipad::{IPadVariant, lemma_ipad_roundtrip};
use crate::identifiers::device_name::iphone::{IPhoneVariant, lemma_iphone_roundtrip};

verus! {

/// A device name as the simulator tooling prints it: a recognized iPhone
/// or iPad, or any other string kept verbatim.
#[derive(Debug, Clone)]
pub enum DeviceName {
    IPhone(IPhoneVariant),
    IPad(IPadVariant),
    UnImplemented(String),
}

/// The specification-level twin of [`DeviceName`], holding the raw text of
/// an unrecognized name as a character sequence.
pub enum DeviceNameView {
    IPhone(IPhoneVariant),
    IPad(IPadVariant),
    UnImplemented(Seq<char>),
}

impl View for DeviceName {
    type V = DeviceNameView;

    open spec fn view(&self) -> DeviceNameView {
        match self {
            DeviceName::IPhone(v) => DeviceNameView::IPhone(*v),
            DeviceName::IPad(v) => DeviceNameView::IPad(*v),
            DeviceName::UnImplemented(raw) => DeviceNameView::UnImplemented(raw@),
        }
    }
}

impl DeviceNameView {
    pub open spec fn wf(self) -> bool {
        match self {
            DeviceNameView::IPhone(v) => v.wf(),
            DeviceNameView::IPad(v) => v.wf(),
            DeviceNameView::UnImplemented(_) => true,
        }
    }

    pub open spec fn parsed_successfully(self) -> bool {
        !(self is UnImplemented)
    }

    /// The exact text this value renders to; an unrecognized name renders
    /// to its original text unchanged.
    pub open spec fn spec_render(self) -> Seq<char> {
        match self {
            DeviceNameView::IPhone(v) => v.spec_render(),
            DeviceNameView::IPad(v) => v.spec_render(),
            DeviceNameView::UnImplemented(raw) => raw,
        }
    }
}

/// The total top-level parse: tries the iPad family, then the iPhone
/// family, and otherwise keeps the string verbatim. A parsed name must
/// reach the end of the string, up to trailing whitespace.
pub open spec fn spec_parse_device_name(s: Seq<char>) -> DeviceNameView {
    let i = skip_ws(s, 0);
    if match_tag(s, i, "iPad"@) {
        match IPadVariant::spec_parse_at(s, i) {
            Some((j, v)) => if skip_ws(s, j) == s.len() {
                DeviceNameView::IPad(v)
            } else {
                DeviceNameView::UnImplemented(s)
            },
            None => DeviceNameView::UnImplemented(s),
        }
    } else if match_tag(s, i, "iPhone"@) {
        match IPhoneVariant::spec_parse_at(s, i) {
            Some((j, v)) => if skip_ws(s, j) == s.len() {
                DeviceNameView::IPhone(v)
            } else {
                DeviceNameView::UnImplemented(s)
            },
            None => DeviceNameView::UnImplemented(s),
        }
    } else {
        DeviceNameView::UnImplemented(s)
    }
}

impl DeviceName {
    /// Parses any string: this function is total, and an input no grammar
    /// recognizes comes back verbatim in [`DeviceName::UnImplemented`].
    pub fn parse(raw: &str) -> (d: DeviceName)
        ensures
            d@ == spec_parse_device_name(raw@),
            d@.wf(),
    {
        let s = str_to_chars(raw);
        let i = skip_ws_at(&s, 0);
        if eat_tag(&s, i, "iPad").is_some() {
            match IPadVariant::parse_at(&s, i) {
                Some((j, v)) => {
                    let j2 = skip_ws_at(&s, j);
                    if j2 == s.len() {
                        DeviceName::IPad(v)
                    } else {
                        DeviceName::UnImplemented(raw.to_owned())
                    }
                },
                None => DeviceName::UnImplemented(raw.to_owned()),
            }
        } else if eat_tag(&s, i, "iPhone").is_some() {
            match IPhoneVariant::parse_at(&s, i) {
                Some((j, v)) => {
                    let j2 = skip_ws_at(&s, j);
                    if j2 == s.len() {
                        DeviceName::IPhone(v)
                    } else {
                        DeviceName::UnImplemented(raw.to_owned())
                    }
                },
                None => DeviceName::UnImplemented(raw.to_owned()),
            }
        } else {
            DeviceName::UnImplemented(raw.to_owned())
        }
    }

    /// Renders the canonical string form; for an unrecognized name, the
    /// stored raw string unchanged.
    pub fn display(&self) -> (out: String)
        ensures
            out@ == self@.spec_render(),
    {
        match self {
            DeviceName::IPhone(v) => {
                let mut buf: Vec<char> = Vec::new();
                v.render_onto(&mut buf);
                chars_to_string(&buf)
            },
            DeviceName::IPad(v) => {
                let mut buf: Vec<char> = Vec::new();
                v.render_onto(&mut buf);
                chars_to_string(&buf)
            },
            DeviceName::UnImplemented(raw) => raw.clone(),
        }
    }

    /// True for every name some family grammar recognized.
    pub fn parsed_successfully(&self) -> (b: bool)
        ensures
            b == self@.parsed_successfully(),
    {
        !matches!(self, DeviceName::UnImplemented(_))
    }

    pub fn is_iphone(&self) -> (b: bool)
        ensures
            b == (self@ is IPhone),
    {
        matches!(self, DeviceName::IPhone(_))
    }

    pub fn is_ipad(&self) -> (b: bool)
        ensures
            b == (self@ is IPad),
    {
        matches!(self, DeviceName::IPad(_))
    }

    pub fn get_ipad(&self) -> (r: Option<&IPadVariant>)
        ensures
            match r {
                Some(v) => self@ == DeviceNameView::IPad(*v),
                None => !(self@ is IPad),
            },
    {
        match self {
            DeviceName::IPad(ipad) => Some(ipad),
            _ => None,
        }
    }

    pub fn get_iphone(&self) -> (r: Option<&IPhoneVariant>)
        ensures
            match r {
                Some(v) => self@ == DeviceNameView::IPhone(*v),
                None => !(self@ is IPhone),
            },
    {
        match self {
            DeviceName::IPhone(iphone) => Some(iphone),
            _ => None,
        }
    }
}

/// Two device names denote the same device: same family and model, with
/// unrecognized names comparing by their text. Presentation never counts.
pub open spec fn spec_same_name(a: DeviceName, b: DeviceName) -> bool {
    match (a, b) {
        (DeviceName::IPhone(x), DeviceName::IPhone(y)) => x.same_model(y),
        (DeviceName::IPad(x), DeviceName::IPad(y)) => x.same_model(y),
        (DeviceName::UnImplemented(s), DeviceName::UnImplemented(t)) => s@ == t@,
        _ => false,
    }
}

impl PartialEq for DeviceName {
    fn eq(&self, other: &DeviceName) -> (r: bool)
        ensures
            r == spec_same_name(*self, *other),
    {
        match (self, other) {
            (DeviceName::IPhone(x), DeviceName::IPhone(y)) => x.eq(y),
            (DeviceName::IPad(x), DeviceName::IPad(y)) => x.eq(y),
            (DeviceName::UnImplemented(s), DeviceName::UnImplemented(t)) => s.eq(t),
            _ => false,
        }
    }
}

impl vstd::std_specs::cmp::PartialEqSpecImpl for DeviceName {
    open spec fn obeys_eq_spec() -> bool {
        true
    }

    open spec fn eq_spec(&self, other: &DeviceName) -> bool {
        spec_same_name(*self, *other)
    }
}

impl DeviceName {
    /// An owned copy of this name.
    pub fn duplicate(&self) -> (r: DeviceName)
        ensures
            r == *self,
    {
        match self {
            DeviceName::IPhone(v) => DeviceName::IPhone(*v),
            DeviceName::IPad(v) => DeviceName::IPad(*v),
            DeviceName::UnImplemented(raw) => DeviceName::UnImplemented(raw.clone()),
        }
    }

    /// Compares two names of the same family by that family's documented
    /// order. Across families, or when either name is unrecognized, no
    /// order is defined and the result is `None`.
    pub fn compare(&self, other: &DeviceName) -> (r: Option<core::cmp::Ordering>)
        ensures
            match (self, other) {
                (DeviceName::IPhone(x), DeviceName::IPhone(y)) => r == Some(x.cmp_spec(*y)),
                (DeviceName::IPad(x), DeviceName::IPad(y)) => r == Some(x.cmp_spec(*y)),
                _ => r is None,
            },
    {
        match (self, other) {
            (DeviceName::IPhone(x), DeviceName::IPhone(y)) => x.partial_cmp(y),
            (DeviceName::IPad(x), DeviceName::IPad(y)) => x.partial_cmp(y),
            _ => None,
        }
    }
}

/// The round-trip law: rendering any recognized, well-formed device name
/// and parsing the result yields the same name back, byte for byte of
/// meaning. Together with [`DeviceName::display`] and
/// [`DeviceName::parse`], whose contracts tie them to the functions here,
/// this pins down both directions of the grammar.
pub proof fn lemma_parse_display_roundtrip(d: DeviceNameView)
    requires
        d.wf(),
        d.parsed_successfully(),
    ensures
        spec_parse_device_name(d.spec_render()) == d,
{
    reveal_strlit("iPad");
    reveal_strlit("iPhone");
    let s = d.spec_render();
    match d {
        DeviceNameView::IPad(v) => {
            lemma_ipad_roundtrip(s, 0, v);
            assert(match_tag(s, 0, "iPad"@));
            assert(s[0] == "iPad"@[0]);
            lemma_skip_ws_is(s, 0, 0);
            lemma_skip_ws_is(s, s.len() as int, s.len() as int);
        },
        DeviceNameView::IPhone(v) => {
            lemma_iphone_roundtrip(s, 0, v);
            assert(match_tag(s, 0, "iPhone"@));
            assert(s[0] == "iPhone"@[0]);
            lemma_skip_ws_is(s, 0, 0);
            assert(!match_tag(s, 0, "iPad"@)) by {
                assert(s[2int] == "iPhone"@[2int]);
                assert(s[2int] != "iPad"@[2int]);
            }
            lemma_skip_ws_is(s, s.len() as int, s.len() as int);
        },
        DeviceNameView::UnImplemented(_) => {
        },
    }
}

} // verus!
