//! The key-value report printed by `codesign -d`, and the typed signing
//! record extracted from it.
//!
//! The report is a run of `key=value` lines. A compound value such as
//! "Sealed Resources version=2 rules=10 files=0" parses as the key
//! "Sealed Resources version" with everything after the first `=` as its
//! value.

use vstd::prelude::*;
use crate::error::Error;
use crate::text::{
    skip_ws, find_char, match_tag, digit_run_end, is_digit_char, digit_val,
    skip_ws_at, find_char_at, eat_tag, digit_run_at, str_to_chars, chars_range_to_string, str_eq,
    is_digit, digit_of,
    lemma_skip_ws_bounds, lemma_find_char_bounds,
};

verus! {

// ----------------------------------------------------------------------
// the key-value grammar
// ----------------------------------------------------------------------

/// One entry per `key=value` line, keys and values as character
/// sequences, in report order.
pub open spec fn kv_view(v: Seq<(String, String)>) -> Seq<(Seq<char>, Seq<char>)> {
    v.map_values(|p: (String, String)| (p.0@, p.1@))
}

/// Parses `key=value` entries from `i` on: a non-empty key up to `=`, a
/// non-empty value up to the end of the line, then any whitespace. Stops
/// at the first position where no further entry starts, and returns that
/// position with the entries read so far.
pub open spec fn spec_kv_from(s: Seq<char>, i: int) -> (int, Seq<(Seq<char>, Seq<char>)>)
    recommends
        0 <= i <= s.len(),
    decreases s.len() - i when 0 <= i <= s.len() via spec_kv_from_dec
{
    let je = find_char(s, i, '=');
    if je == i || je >= s.len() {
        (i, Seq::empty())
    } else {
        let jv = find_char(s, je + 1, '\n');
        if jv == je + 1 {
            (i, Seq::empty())
        } else {
            let j2 = skip_ws(s, jv);
            let r = spec_kv_from(s, j2);
            (r.0, seq![(s.subrange(i, je), s.subrange(je + 1, jv))] + r.1)
        }
    }
}

#[via_fn]
proof fn spec_kv_from_dec(s: Seq<char>, i: int) {
    lemma_find_char_bounds(s, i, '=');
    let je = find_char(s, i, '=');
    if i < je && je < s.len() {
        lemma_find_char_bounds(s, je + 1, '\n');
        let jv = find_char(s, je + 1, '\n');
        if jv > je + 1 {
            lemma_skip_ws_bounds(s, jv);
        }
    }
}

/// The whole report: at least one entry, and nothing left over.
pub open spec fn spec_display_entries(s: Seq<char>) -> Option<Seq<(Seq<char>, Seq<char>)>> {
    let r = spec_kv_from(s, 0);
    if r.1.len() >= 1 && r.0 == s.len() {
        Some(r.1)
    } else {
        None
    }
}

/// When reading a whole report into a [`SignedKeys`] record succeeds: the
/// report parses, the required keys are present, the timestamp parses.
pub open spec fn spec_signed_keys_ok(s: Seq<char>) -> bool {
    match spec_display_entries(s) {
        Some(es) => {
            &&& spec_lookup(es, "Authority"@) is Some
            &&& spec_lookup(es, "Executable"@) is Some
            &&& spec_lookup(es, "Identifier"@) is Some
            &&& match spec_lookup(es, "Signed Time"@) {
                Some(t) => spec_parse_date(t) is Some,
                None => false,
            }
        },
        None => false,
    }
}

fn parse_kv_from(s: &Vec<char>, i: usize) -> (r: (usize, Vec<(String, String)>))
    requires
        i <= s.len(),
    ensures
        r.0 as int == spec_kv_from(s@, i as int).0,
        kv_view(r.1@) =~= spec_kv_from(s@, i as int).1,
        i <= r.0 <= s.len(),
    decreases s.len() - i,
{
    proof {
        lemma_find_char_bounds(s@, i as int, '=');
    }
    let je = find_char_at(s, i, '=');
    if je == i || je == s.len() {
        return (i, Vec::new());
    }
    let jv = find_char_at(s, je + 1, '\n');
    if jv == je + 1 {
        return (i, Vec::new());
    }
    let j2 = skip_ws_at(s, jv);
    let (jr, rest) = parse_kv_from(s, j2);
    let key = chars_range_to_string(s, i, je);
    let val = chars_range_to_string(s, je + 1, jv);
    let mut out: Vec<(String, String)> = Vec::new();
    out.push((key, val));
    let mut rest = rest;
    out.append(&mut rest);
    proof {
        assert(kv_view(out@) =~= spec_kv_from(s@, i as int).1);
    }
    (jr, out)
}

// ----------------------------------------------------------------------
// lookup in the report
// ----------------------------------------------------------------------

/// The value of the first entry with the given key.
pub open spec fn spec_lookup(es: Seq<(Seq<char>, Seq<char>)>, key: Seq<char>) -> Option<Seq<char>>
    decreases es.len(),
{
    if es.len() == 0 {
        None
    } else if es[0].0 == key {
        Some(es[0].1)
    } else {
        spec_lookup(es.subrange(1, es.len() as int), key)
    }
}

proof fn lemma_lookup_skip(es: Seq<(Seq<char>, Seq<char>)>, key: Seq<char>, k: int)
    requires
        0 <= k <= es.len(),
        forall|m: int| 0 <= m < k ==> (#[trigger] es[m]).0 != key,
    ensures
        spec_lookup(es, key) == spec_lookup(es.subrange(k, es.len() as int), key),
    decreases k,
{
    if k == 0 {
        assert(es.subrange(0, es.len() as int) =~= es);
    } else {
        lemma_lookup_skip(es, key, k - 1);
        let tail = es.subrange(k - 1, es.len() as int);
        assert(tail[0] == es[k - 1]);
        assert(spec_lookup(tail, key) == spec_lookup(tail.subrange(1, tail.len() as int), key));
        assert(tail.subrange(1, tail.len() as int) =~= es.subrange(k, es.len() as int));
    }
}

/// Finds the first entry with the given key and hands back a copy of its
/// value.
fn lookup(entries: &Vec<(String, String)>, key: &str) -> (r: Option<String>)
    ensures
        match r {
            Some(v) => spec_lookup(kv_view(entries@), key@) == Some(v@),
            None => spec_lookup(kv_view(entries@), key@) is None,
        },
{
    let ghost es = kv_view(entries@);
    let mut k: usize = 0;
    while k < entries.len()
        invariant
            k <= entries.len(),
            es == kv_view(entries@),
            es.len() == entries.len(),
            forall|m: int| 0 <= m < k ==> (#[trigger] es[m]).0 != key@,
        decreases entries.len() - k,
    {
        if str_eq(entries[k].0.as_str(), key) {
            proof {
                lemma_lookup_skip(es, key@, k as int);
                let tail = es.subrange(k as int, es.len() as int);
                assert(tail[0] == es[k as int]);
            }
            return Some(entries[k].1.clone());
        }
        proof {
            assert(es[k as int].0 == entries@[k as int].0@);
        }
        k = k + 1;
    }
    proof {
        lemma_lookup_skip(es, key@, es.len() as int);
        assert(es.subrange(es.len() as int, es.len() as int) =~= Seq::<(Seq<char>, Seq<char>)>::empty());
    }
    None
}

// ----------------------------------------------------------------------
// the signing timestamp
// ----------------------------------------------------------------------

/// A signing timestamp such as "16 Mar 2024 at 2:41:28 pm", held as plain
/// calendar fields on a twelve-hour clock.
#[derive(Debug, Clone, Copy, PartialEq, Eq, Structural)]
pub struct SignedDateTime {
    pub day: u8,
    /// 1 for January through 12 for December.
    pub month: u8,
    pub year: u16,
    /// 1 through 12.
    pub hour: u8,
    pub minute: u8,
    pub second: u8,
    /// True in the afternoon.
    pub pm: bool,
}

/// The separators the timestamp uses: an ordinary space or the narrow
/// no-break space the tool emits before the day period.
pub open spec fn is_space_like(c: char) -> bool {
    c == ' ' || c == '\u{202f}'
}

fn space_like(c: char) -> (b: bool)
    ensures
        b == is_space_like(c),
{
    c == ' ' || c == '\u{202f}'
}

/// A two-digit number at `i`.
pub open spec fn spec_two_digits(s: Seq<char>, i: int) -> Option<int> {
    if 0 <= i && i + 2 <= s.len() && is_digit_char(s[i]) && is_digit_char(s[i + 1]) {
        Some(digit_val(s[i]) * 10 + digit_val(s[i + 1]))
    } else {
        None
    }
}

fn two_digits(s: &Vec<char>, i: usize) -> (r: Option<u8>)
    requires
        i <= s.len(),
    ensures
        match r {
            Some(v) => spec_two_digits(s@, i as int) == Some(v as int),
            None => spec_two_digits(s@, i as int) is None,
        },
{
    if s.len() - i >= 2 {
        let a = s[i];
        let b = s[i + 1];
        if is_digit(a) && is_digit(b) {
            let d0 = digit_of(a);
            let d1 = digit_of(b);
            Some(d0 * 10 + d1)
        } else {
            None
        }
    } else {
        None
    }
}

/// The month number of a three-letter month name at `i`, or zero.
pub open spec fn spec_month_at(s: Seq<char>, i: int) -> int {
    if match_tag(s, i, "Jan"@) { 1 }
    else if match_tag(s, i, "Feb"@) { 2 }
    else if match_tag(s, i, "Mar"@) { 3 }
    else if match_tag(s, i, "Apr"@) { 4 }
    else if match_tag(s, i, "May"@) { 5 }
    else if match_tag(s, i, "Jun"@) { 6 }
    else if match_tag(s, i, "Jul"@) { 7 }
    else if match_tag(s, i, "Aug"@) { 8 }
    else if match_tag(s, i, "Sep"@) { 9 }
    else if match_tag(s, i, "Oct"@) { 10 }
    else if match_tag(s, i, "Nov"@) { 11 }
    else if match_tag(s, i, "Dec"@) { 12 }
    else { 0 }
}

fn month_at(s: &Vec<char>, i: usize) -> (m: u8)
    requires
        i <= s.len(),
    ensures
        m as int == spec_month_at(s@, i as int),
{
    if eat_tag(s, i, "Jan").is_some() { 1 }
    else if eat_tag(s, i, "Feb").is_some() { 2 }
    else if eat_tag(s, i, "Mar").is_some() { 3 }
    else if eat_tag(s, i, "Apr").is_some() { 4 }
    else if eat_tag(s, i, "May").is_some() { 5 }
    else if eat_tag(s, i, "Jun").is_some() { 6 }
    else if eat_tag(s, i, "Jul").is_some() { 7 }
    else if eat_tag(s, i, "Aug").is_some() { 8 }
    else if eat_tag(s, i, "Sep").is_some() { 9 }
    else if eat_tag(s, i, "Oct").is_some() { 10 }
    else if eat_tag(s, i, "Nov").is_some() { 11 }
    else if eat_tag(s, i, "Dec").is_some() { 12 }
    else { 0 }
}

/// Days in a calendar month, leap years included.
pub open spec fn spec_days_in_month(month: int, year: int) -> int {
    if month == 2 {
        if year % 4 == 0 && (year % 100 != 0 || year % 400 == 0) { 29 } else { 28 }
    } else if month == 4 || month == 6 || month == 9 || month == 11 {
        30
    } else {
        31
    }
}

fn days_in_month(month: u8, year: u16) -> (d: u8)
    ensures
        d as int == spec_days_in_month(month as int, year as int),
{
    if month == 2 {
        if year % 4 == 0 && (year % 100 != 0 || year % 400 == 0) { 29 } else { 28 }
    } else if month == 4 || month == 6 || month == 9 || month == 11 {
        30
    } else {
        31
    }
}

/// The timestamp grammar: a two-digit day, a short month name, a
/// four-digit year, the word `at`, a clock time on the twelve-hour clock,
/// and a day period, with nothing left over. The day must exist in the
/// named month.
pub open spec fn spec_parse_date(s: Seq<char>) -> Option<SignedDateTime> {
    match spec_two_digits(s, 0) {
        Some(day) => {
            if s.len() > 2 && is_space_like(s[2]) && spec_month_at(s, 3) != 0 && s.len() > 6
                && is_space_like(s[6]) {
                let month = spec_month_at(s, 3);
                match (spec_two_digits(s, 7), spec_two_digits(s, 9)) {
                    (Some(yh), Some(yl)) => {
                        let year = yh * 100 + yl;
                        if s.len() > 11 && is_space_like(s[11]) && match_tag(s, 12, "at"@)
                            && s.len() > 14 && is_space_like(s[14]) {
                            let h_end = digit_run_end(s, 15);
                            let hlen = h_end - 15;
                            if 1 <= hlen <= 2 {
                                let hour = if hlen == 1 {
                                    digit_val(s[15])
                                } else {
                                    digit_val(s[15]) * 10 + digit_val(s[16])
                                };
                                if h_end < s.len() && s[h_end] == ':' {
                                    match (spec_two_digits(s, h_end + 1), spec_two_digits(s, h_end + 4)) {
                                        (Some(minute), Some(second)) => {
                                            let jp = h_end + 6;
                                            if s[h_end + 3] == ':' && jp + 3 == s.len()
                                                && is_space_like(s[jp])
                                                && (s[jp + 2] == 'm' || s[jp + 2] == 'M')
                                                && (s[jp + 1] == 'a' || s[jp + 1] == 'A'
                                                    || s[jp + 1] == 'p' || s[jp + 1] == 'P')
                                                && 1 <= day <= spec_days_in_month(month, year)
                                                && 1 <= hour <= 12 && minute <= 59 && second <= 59 {
                                                Some(SignedDateTime {
                                                    day: day as u8,
                                                    month: month as u8,
                                                    year: year as u16,
                                                    hour: hour as u8,
                                                    minute: minute as u8,
                                                    second: second as u8,
                                                    pm: s[jp + 1] == 'p' || s[jp + 1] == 'P',
                                                })
                                            } else {
                                                None
                                            }
                                        },
                                        _ => None,
                                    }
                                } else {
                                    None
                                }
                            } else {
                                None
                            }
                        } else {
                            None
                        }
                    },
                    _ => None,
                }
            } else {
                None
            }
        },
        None => None,
    }
}

/// Parses a signing timestamp.
pub fn parse_date(s: &Vec<char>) -> (r: Option<SignedDateTime>)
    ensures
        r == spec_parse_date(s@),
{
    let day = match two_digits(s, 0) {
        Some(d) => d,
        None => { return None; },
    };
    if !(s.len() > 2 && space_like(s[2])) {
        return None;
    }
    let month = month_at(s, 3);
    if month == 0 {
        return None;
    }
    if !(s.len() > 6 && space_like(s[6])) {
        return None;
    }
    let yh = match two_digits(s, 7) {
        Some(v) => v,
        None => { return None; },
    };
    let yl = match two_digits(s, 9) {
        Some(v) => v,
        None => { return None; },
    };
    let year: u16 = (yh as u16) * 100 + (yl as u16);
    if !(s.len() > 11 && space_like(s[11])) {
        return None;
    }
    if eat_tag(s, 12, "at").is_none() {
        return None;
    }
    if !(s.len() > 14 && space_like(s[14])) {
        return None;
    }
    let h_end = digit_run_at(s, 15);
    let hlen = h_end - 15;
    if !(1 <= hlen && hlen <= 2) {
        return None;
    }
    proof {
        crate::text::lemma_digit_run_bounds(s@, 15);
    }
    let hour: u8 = if hlen == 1 {
        digit_of(s[15])
    } else {
        digit_of(s[15]) * 10 + digit_of(s[16])
    };
    if !(h_end < s.len() && s[h_end] == ':') {
        return None;
    }
    let minute = match two_digits(s, h_end + 1) {
        Some(v) => v,
        None => { return None; },
    };
    if h_end + 3 == s.len() || s[h_end + 3] != ':' {
        return None;
    }
    let second = match two_digits(s, h_end + 4) {
        Some(v) => v,
        None => { return None; },
    };
    let jp = h_end + 6;
    if !(s.len() - jp == 3 && space_like(s[jp])) {
        return None;
    }
    let pc = s[jp + 1];
    let mc = s[jp + 2];
    if !(mc == 'm' || mc == 'M') {
        return None;
    }
    if !(pc == 'a' || pc == 'A' || pc == 'p' || pc == 'P') {
        return None;
    }
    let dim = days_in_month(month, year);
    if !(1 <= day && day <= dim && 1 <= hour && hour <= 12 && minute <= 59 && second <= 59) {
        return None;
    }
    Some(SignedDateTime {
        day,
        month,
        year,
        hour,
        minute,
        second,
        pm: pc == 'p' || pc == 'P',
    })
}

// ----------------------------------------------------------------------
// the typed signing record
// ----------------------------------------------------------------------

/// The fields consumers read from a `codesign -d` report, together with
/// every entry of the report as it was read.
#[derive(Debug, Clone)]
pub struct SignedKeys {
    /// The first signing authority of the report.
    pub authority_1: String,
    pub executable: String,
    pub identifier: String,
    pub signed_time: SignedDateTime,
    /// Every entry of the report, the parsed keys included, in order.
    pub raw: Vec<(String, String)>,
}

impl SignedKeys {
    /// The first signing authority.
    pub fn authority_1(&self) -> (r: &str)
        ensures
            r@ == self.authority_1@,
    {
        self.authority_1.as_str()
    }

    pub fn executable(&self) -> (r: &str)
        ensures
            r@ == self.executable@,
    {
        self.executable.as_str()
    }

    pub fn identifier(&self) -> (r: &str)
        ensures
            r@ == self.identifier@,
    {
        self.identifier.as_str()
    }

    pub fn signed_time(&self) -> (r: &SignedDateTime)
        ensures
            r == self.signed_time,
    {
        &self.signed_time
    }

    /// Every entry of the report, the parsed keys included, in report
    /// order.
    pub fn raw(&self) -> (r: &Vec<(String, String)>)
        ensures
            r == self.raw,
    {
        &self.raw
    }

    /// The well-formedness this type keeps: the typed fields hold what a
    /// lookup in the raw report yields.
    pub open spec fn wf(self) -> bool {
        let es = kv_view(self.raw@);
        &&& spec_lookup(es, "Authority"@) == Some(self.authority_1@)
        &&& spec_lookup(es, "Executable"@) == Some(self.executable@)
        &&& spec_lookup(es, "Identifier"@) == Some(self.identifier@)
        &&& match spec_lookup(es, "Signed Time"@) {
            Some(t) => spec_parse_date(t) == Some(self.signed_time),
            None => false,
        }
    }

    /// Builds the record from parsed entries. Succeeds exactly when the
    /// four required keys are present and the timestamp parses; the error
    /// names the first missing key, in the order the fields are read.
    pub fn from_parsed(raw: Vec<(String, String)>) -> (r: Result<SignedKeys, Error>)
        ensures
            match r {
                Ok(keys) => {
                    &&& keys.raw@ == raw@
                    &&& keys.wf()
                },
                Err(e) => {
                    let es = kv_view(raw@);
                    match e {
                        Error::SigningPropertyNotFound { missing_key } => {
                            ||| (missing_key@ == "Authority"@ && spec_lookup(es, "Authority"@) is None)
                            ||| (missing_key@ == "Executable"@ && spec_lookup(es, "Executable"@) is None)
                            ||| (missing_key@ == "Identifier"@ && spec_lookup(es, "Identifier"@) is None)
                            ||| (missing_key@ == "Signed Time"@ && spec_lookup(es, "Signed Time"@) is None)
                        },
                        Error::ParseDateFailed { raw: t } => {
                            &&& spec_lookup(es, "Signed Time"@) == Some(t@)
                            &&& spec_parse_date(t@) is None
                        },
                        _ => false,
                    }
                },
            },
    {
        let authority_1 = match lookup(&raw, "Authority") {
            Some(v) => v,
            None => {
                let mut k = String::new();
                k.append("Authority");
                return Err(Error::SigningPropertyNotFound { missing_key: k });
            },
        };
        let executable = match lookup(&raw, "Executable") {
            Some(v) => v,
            None => {
                let mut k = String::new();
                k.append("Executable");
                return Err(Error::SigningPropertyNotFound { missing_key: k });
            },
        };
        let identifier = match lookup(&raw, "Identifier") {
            Some(v) => v,
            None => {
                let mut k = String::new();
                k.append("Identifier");
                return Err(Error::SigningPropertyNotFound { missing_key: k });
            },
        };
        let time_text = match lookup(&raw, "Signed Time") {
            Some(v) => v,
            None => {
                let mut k = String::new();
                k.append("Signed Time");
                return Err(Error::SigningPropertyNotFound { missing_key: k });
            },
        };
        let time_chars = str_to_chars(time_text.as_str());
        let signed_time = match parse_date(&time_chars) {
            Some(t) => t,
            None => {
                return Err(Error::ParseDateFailed { raw: time_text });
            },
        };
        Ok(SignedKeys { authority_1, executable, identifier, signed_time, raw })
    }

    /// Parses a whole `codesign -d` report. Succeeds exactly when the
    /// report is a run of `key=value` lines holding the required keys and
    /// a well-formed timestamp.
    pub fn from_raw(input: &str) -> (r: Result<SignedKeys, Error>)
        ensures
            r is Ok <==> spec_signed_keys_ok(input@),
            match r {
                Ok(keys) => {
                    &&& spec_display_entries(input@) == Some(kv_view(keys.raw@))
                    &&& keys.wf()
                },
                Err(e) => match spec_display_entries(input@) {
                    None => e matches Error::OutputParseFailed { name, raw }
                        && name@ == "SignedKeys"@ && raw@ == input@,
                    Some(es) => match e {
                        Error::SigningPropertyNotFound { missing_key } => {
                            ||| (missing_key@ == "Authority"@ && spec_lookup(es, "Authority"@) is None)
                            ||| (missing_key@ == "Executable"@ && spec_lookup(es, "Executable"@) is None)
                            ||| (missing_key@ == "Identifier"@ && spec_lookup(es, "Identifier"@) is None)
                            ||| (missing_key@ == "Signed Time"@ && spec_lookup(es, "Signed Time"@) is None)
                        },
                        Error::ParseDateFailed { raw: t } => {
                            &&& spec_lookup(es, "Signed Time"@) == Some(t@)
                            &&& spec_parse_date(t@) is None
                        },
                        _ => false,
                    },
                },
            },
    {
        let s = str_to_chars(input);
        let (jr, entries) = parse_kv_from(&s, 0);
        if entries.len() >= 1 && jr == s.len() {
            proof {
                assert(spec_display_entries(input@) == Some(kv_view(entries@)));
            }
            Self::from_parsed(entries)
        } else {
            let mut n = String::new();
            n.append("SignedKeys");
            Err(Error::OutputParseFailed { name: n, raw: input.to_owned() })
        }
    }
}

} // verus!
