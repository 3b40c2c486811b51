//! Backend identifiers, their canonical spellings, and typo-aware
//! resolution.
//!
//! Canonical resolution is deliberately exact-match only: a case variant such
//! as `RISC0` is never accepted silently.  A separate, normalized alias table
//! exists purely to power "did you mean" diagnostics.

use vstd::prelude::*;

verus! {

/// The zero-knowledge virtual-machine backends recognized by the rewriter.
#[derive(Debug, Clone, Copy, PartialEq, Eq, Structural)]
pub enum ZkvmIdent {
    Risc0,
    Sp1,
    Pico,
    Ziren,
    Zisk,
}

/// The single exact spelling that silently resolves to a backend.
pub open spec fn spec_canonical_name(id: ZkvmIdent) -> Seq<char> {
    match id {
        ZkvmIdent::Risc0 => "risc0"@,
        ZkvmIdent::Sp1 => "sp1"@,
        ZkvmIdent::Pico => "pico"@,
        ZkvmIdent::Ziren => "ziren"@,
        ZkvmIdent::Zisk => "zisk"@,
    }
}

/// Exact-match canonical resolution: no trimming, no case folding.
pub open spec fn spec_resolve(s: Seq<char>) -> Option<ZkvmIdent> {
    if s == "risc0"@ {
        Some(ZkvmIdent::Risc0)
    } else if s == "sp1"@ {
        Some(ZkvmIdent::Sp1)
    } else if s == "pico"@ {
        Some(ZkvmIdent::Pico)
    } else if s == "ziren"@ {
        Some(ZkvmIdent::Ziren)
    } else if s == "zisk"@ {
        Some(ZkvmIdent::Zisk)
    } else {
        None
    }
}

/// Character-by-character equality of two string slices.
pub fn str_eq(a: &str, b: &str) -> (r: bool)
    ensures
        r == (a@ == b@),
{
    let a_len = a.unicode_len();
    let b_len = b.unicode_len();
    if a_len != b_len {
        return false;
    }
    let mut i: usize = 0;
    while i < a_len
        invariant
            a_len == a@.len(),
            b_len == b@.len(),
            a_len == b_len,
            i <= a_len,
            forall|j: int| 0 <= j < i ==> a@[j] == b@[j],
        decreases a_len - i,
    {
        if a.get_char(i) != b.get_char(i) {
            return false;
        }
        i += 1;
    }
    proof {
        assert(a@ =~= b@);
    }
    true
}

/// A character stripped from the ends of a token during normalization.
pub open spec fn spec_is_space(c: char) -> bool {
    c == ' ' || c == '\t' || c == '\n' || c == '\r'
}

/// Leading whitespace removed.
pub open spec fn spec_trim_start(s: Seq<char>) -> Seq<char>
    decreases s.len(),
{
    if s.len() > 0 && spec_is_space(s[0]) {
        spec_trim_start(s.drop_first())
    } else {
        s
    }
}

/// Trailing whitespace removed.
pub open spec fn spec_trim_end(s: Seq<char>) -> Seq<char>
    decreases s.len(),
{
    if s.len() > 0 && spec_is_space(s[s.len() - 1]) {
        spec_trim_end(s.drop_last())
    } else {
        s
    }
}

/// Surrounding whitespace removed.
pub open spec fn spec_trim(s: Seq<char>) -> Seq<char> {
    spec_trim_end(spec_trim_start(s))
}

/// An upper-case ASCII letter mapped to its lower-case form; every other
/// character is left alone.
pub open spec fn spec_lower_char(c: char) -> char {
    if 'A' <= c && c <= 'Z' {
        ((c as int) + 32) as char
    } else {
        c
    }
}

/// Each character lower-cased.
pub open spec fn spec_lower(s: Seq<char>) -> Seq<char> {
    Seq::new(s.len(), |i: int| spec_lower_char(s[i]))
}

/// The normalized form of a raw token: trimmed, then lower-cased.  Alias
/// lookup - and only alias lookup - works on this form.
pub open spec fn spec_normalize(s: Seq<char>) -> Seq<char> {
    spec_lower(spec_trim(s))
}

fn is_space_char(c: char) -> (r: bool)
    ensures
        r == spec_is_space(c),
{
    c == ' ' || c == '\t' || c == '\n' || c == '\r'
}

fn lower_char(c: char) -> (r: char)
    ensures
        r == spec_lower_char(c),
{
    if c >= 'A' && c <= 'Z' {
        (c as u8 + 32) as char
    } else {
        c
    }
}

/// The index range that survives trimming: `s@.subrange(lo, hi)` is the
/// trimmed token.
fn trim_bounds(s: &str) -> (r: (usize, usize))
    ensures
        ({
            let (lo, hi) = r;
            &&& lo <= hi <= s@.len()
            &&& spec_trim(s@) == s@.subrange(lo as int, hi as int)
        }),
{
    let len = s.unicode_len();
    let mut lo: usize = 0;
    proof {
        assert(s@.skip(0) =~= s@);
    }
    loop
        invariant
            lo <= len,
            len == s@.len(),
            spec_trim_start(s@) == spec_trim_start(s@.skip(lo as int)),
        ensures
            lo <= len,
            len == s@.len(),
            spec_trim_start(s@) == s@.subrange(lo as int, len as int),
        decreases len - lo,
    {
        if lo == len {
            proof {
                assert(s@.skip(lo as int) =~= s@.subrange(lo as int, len as int));
                assert(s@.skip(lo as int).len() == 0);
            }
            break;
        }
        if !is_space_char(s.get_char(lo)) {
            proof {
                assert(s@.skip(lo as int) =~= s@.subrange(lo as int, len as int));
                assert(s@.skip(lo as int)[0] == s@[lo as int]);
            }
            break;
        }
        proof {
            assert(s@.skip(lo as int)[0] == s@[lo as int]);
            assert(s@.skip(lo as int).drop_first() =~= s@.skip(lo as int + 1));
        }
        lo += 1;
    }
    let mut hi: usize = len;
    loop
        invariant
            lo <= hi <= len,
            len == s@.len(),
            spec_trim_start(s@) == s@.subrange(lo as int, len as int),
            spec_trim_end(s@.subrange(lo as int, len as int)) == spec_trim_end(
                s@.subrange(lo as int, hi as int),
            ),
        ensures
            lo <= hi <= len,
            spec_trim_end(s@.subrange(lo as int, len as int)) == s@.subrange(
                lo as int,
                hi as int,
            ),
        decreases hi,
    {
        if hi == lo {
            break;
        }
        if !is_space_char(s.get_char(hi - 1)) {
            proof {
                let t = s@.subrange(lo as int, hi as int);
                assert(t[t.len() - 1] == s@[hi - 1]);
            }
            break;
        }
        proof {
            let t = s@.subrange(lo as int, hi as int);
            assert(t[t.len() - 1] == s@[hi - 1]);
            assert(t.drop_last() =~= s@.subrange(lo as int, hi - 1));
        }
        hi -= 1;
    }
    (lo, hi)
}

/// Does the normalized form of `s` equal `t` letter for letter?
fn norm_eq(s: &str, t: &str) -> (r: bool)
    ensures
        r == (spec_normalize(s@) == t@),
{
    let (lo, hi) = trim_bounds(s);
    let t_len = t.unicode_len();
    if hi - lo != t_len {
        return false;
    }
    let mut i: usize = 0;
    while i < t_len
        invariant
            lo <= hi <= s@.len(),
            spec_trim(s@) == s@.subrange(lo as int, hi as int),
            t_len == t@.len(),
            hi - lo == t_len,
            i <= t_len,
            forall|j: int| 0 <= j < i ==> spec_lower_char(s@[lo + j]) == t@[j],
        decreases t_len - i,
    {
        if lower_char(s.get_char(lo + i)) != t.get_char(i) {
            proof {
                assert(spec_normalize(s@)[i as int] == spec_lower_char(s@[lo + i]));
            }
            return false;
        }
        i += 1;
    }
    proof {
        assert(spec_normalize(s@) =~= t@);
    }
    true
}

impl ZkvmIdent {
    /// The canonical spelling of this backend.
    pub fn canonical_name(self) -> (r: &'static str)
        ensures
            r@ == spec_canonical_name(self),
    {
        match self {
            ZkvmIdent::Risc0 => "risc0",
            ZkvmIdent::Sp1 => "sp1",
            ZkvmIdent::Pico => "pico",
            ZkvmIdent::Ziren => "ziren",
            ZkvmIdent::Zisk => "zisk",
        }
    }

    /// Exact-match resolution of a raw token against the canonical
    /// spellings.  Succeeds only on a letter-for-letter match.
    pub fn resolve_canonical(s: &str) -> (r: Option<ZkvmIdent>)
        ensures
            r == spec_resolve(s@),
    {
        if str_eq(s, "risc0") {
            Some(ZkvmIdent::Risc0)
        } else if str_eq(s, "sp1") {
            Some(ZkvmIdent::Sp1)
        } else if str_eq(s, "pico") {
            Some(ZkvmIdent::Pico)
        } else if str_eq(s, "ziren") {
            Some(ZkvmIdent::Ziren)
        } else if str_eq(s, "zisk") {
            Some(ZkvmIdent::Zisk)
        } else {
            None
        }
    }
}

/// The alias table: fixed normalized spellings (legacy names, vendor names,
/// common misspellings, and the canonical names themselves) that earn a
/// "did you mean" suggestion.  An alias is never accepted silently.
pub open spec fn spec_suggest(n: Seq<char>) -> Option<ZkvmIdent> {
    if n == "r0"@ || n == "risc0"@ {
        Some(ZkvmIdent::Risc0)
    } else if n == "succinct"@ || n == "sp1"@ {
        Some(ZkvmIdent::Sp1)
    } else if n == "brevis"@ || n == "brevis-pico"@ || n == "picovm"@ || n == "pico-vm"@ || n
        == "pico"@ {
        Some(ZkvmIdent::Pico)
    } else if n == "zkm"@ || n == "ziren"@ {
        Some(ZkvmIdent::Ziren)
    } else if n == "zisk"@ {
        Some(ZkvmIdent::Zisk)
    } else {
        None
    }
}

/// Ghost form of a failed identifier resolution: the offending raw token
/// and the canonical spelling to suggest, if any alias matched.
pub struct SpecParseError {
    pub input: Seq<char>,
    pub suggestion: Option<Seq<char>>,
}

/// The error returned when a raw token names no backend: it carries the
/// token itself and an optional suggested canonical spelling.
#[derive(Debug)]
pub enum ParseZkvmIdentError {
    UnknownZkvm { input: String, suggestion: Option<String> },
}

impl View for ParseZkvmIdentError {
    type V = SpecParseError;

    open spec fn view(&self) -> SpecParseError {
        match self {
            ParseZkvmIdentError::UnknownZkvm { input, suggestion } => SpecParseError {
                input: input@,
                suggestion: match suggestion {
                    Some(s) => Some(s@),
                    None => None,
                },
            },
        }
    }
}

impl PartialEq for ParseZkvmIdentError {
    fn eq(&self, other: &Self) -> (r: bool) {
        match (self, other) {
            (
                ParseZkvmIdentError::UnknownZkvm { input: i1, suggestion: s1 },
                ParseZkvmIdentError::UnknownZkvm { input: i2, suggestion: s2 },
            ) => {
                let inputs_eq = str_eq(i1.as_str(), i2.as_str());
                let suggestions_eq = match (s1, s2) {
                    (Some(a), Some(b)) => str_eq(a.as_str(), b.as_str()),
                    (None, None) => true,
                    _ => false,
                };
                inputs_eq && suggestions_eq
            },
        }
    }
}

impl vstd::std_specs::cmp::PartialEqSpecImpl for ParseZkvmIdentError {
    open spec fn obeys_eq_spec() -> bool {
        true
    }

    open spec fn eq_spec(&self, other: &Self) -> bool {
        self@ == other@
    }
}

impl ParseZkvmIdentError {
    /// A failure with no suggestion to offer.
    pub fn unknown(vm: String) -> (r: Self)
        ensures
            r@ == (SpecParseError { input: vm@, suggestion: None }),
    {
        ParseZkvmIdentError::UnknownZkvm { input: vm, suggestion: None }
    }

    /// A failure that names the canonical spelling the user probably meant.
    pub fn suggestion(vm: String, suggestion: String) -> (r: Self)
        ensures
            r@ == (SpecParseError { input: vm@, suggestion: Some(suggestion@) }),
    {
        ParseZkvmIdentError::UnknownZkvm { input: vm, suggestion: Some(suggestion) }
    }
}

/// The trailing part of the diagnostic: either the suggested spelling or
/// the list of every valid canonical option.
pub open spec fn spec_format_suggestion(suggestion: Option<Seq<char>>) -> Seq<char> {
    match suggestion {
        Some(v) => " - maybe you wanted to use `"@ + v + "`?"@,
        None => " - valid options are `risc0`, `sp1`, `pico`, `ziren` and `zisk`."@,
    }
}

/// Renders the suggestion part of an "unknown zkvm" diagnostic.
pub fn format_suggestion(suggestion: &Option<String>) -> (r: String)
    ensures
        r@ == spec_format_suggestion(
            match suggestion {
                Some(s) => Some(s@),
                None => None,
            },
        ),
{
    match suggestion {
        Some(v) => {
            let mut m = " - maybe you wanted to use `".to_owned();
            m.append(v.as_str());
            m.append("`?");
            m
        },
        None => " - valid options are `risc0`, `sp1`, `pico`, `ziren` and `zisk`.".to_owned(),
    }
}

/// The full rendered diagnostic for a failed resolution.
pub open spec fn spec_parse_error_message(e: SpecParseError) -> Seq<char> {
    "unknown zkvm \""@ + e.input + "\""@ + spec_format_suggestion(e.suggestion)
}

impl ParseZkvmIdentError {
    /// The diagnostic text, exactly as the host pipeline reports it.
    pub fn message(&self) -> (r: String)
        ensures
            r@ == spec_parse_error_message(self@),
    {
        match self {
            ParseZkvmIdentError::UnknownZkvm { input, suggestion } => {
                let mut m = "unknown zkvm \"".to_owned();
                m.append(input.as_str());
                m.append("\"");
                let suffix = format_suggestion(suggestion);
                m.append(suffix.as_str());
                m
            },
        }
    }
}

/// The expected outcome of a full (diagnosing) resolution of `s`.
pub open spec fn spec_parse(s: Seq<char>) -> Result<ZkvmIdent, SpecParseError> {
    match spec_resolve(s) {
        Some(id) => Ok(id),
        None => Err(
            SpecParseError {
                input: s,
                suggestion: match spec_suggest(spec_normalize(s)) {
                    Some(id) => Some(spec_canonical_name(id)),
                    None => None,
                },
            },
        ),
    }
}

impl ZkvmIdent {
    /// Alias lookup on the normalized token, used purely to decorate a
    /// failed resolution with a suggestion.
    pub fn suggest(s: &str) -> (r: Option<ZkvmIdent>)
        ensures
            r == spec_suggest(spec_normalize(s@)),
    {
        if norm_eq(s, "r0") || norm_eq(s, "risc0") {
            Some(ZkvmIdent::Risc0)
        } else if norm_eq(s, "succinct") || norm_eq(s, "sp1") {
            Some(ZkvmIdent::Sp1)
        } else if norm_eq(s, "brevis") || norm_eq(s, "brevis-pico") || norm_eq(s, "picovm")
            || norm_eq(s, "pico-vm") || norm_eq(s, "pico") {
            Some(ZkvmIdent::Pico)
        } else if norm_eq(s, "zkm") || norm_eq(s, "ziren") {
            Some(ZkvmIdent::Ziren)
        } else if norm_eq(s, "zisk") {
            Some(ZkvmIdent::Zisk)
        } else {
            None
        }
    }

    /// Full resolution: exact canonical match, or an error that names the
    /// offending token and, where an alias matches, the intended spelling.
    pub fn parse(s: &str) -> (r: Result<ZkvmIdent, ParseZkvmIdentError>)
        ensures
            match spec_parse(s@) {
                Ok(id) => r == Ok::<ZkvmIdent, ParseZkvmIdentError>(id),
                Err(e) => r matches Err(actual) && actual@ == e,
            },
    {
        match Self::resolve_canonical(s) {
            Some(id) => Ok(id),
            None => {
                let raw = s.to_owned();
                match Self::suggest(s) {
                    Some(id) => Err(
                        ParseZkvmIdentError::suggestion(raw, id.canonical_name().to_owned()),
                    ),
                    None => Err(ParseZkvmIdentError::unknown(raw)),
                }
            },
        }
    }
}

impl core::str::FromStr for ZkvmIdent {
    type Err = ParseZkvmIdentError;

    fn from_str(s: &str) -> Result<ZkvmIdent, ParseZkvmIdentError> {
        ZkvmIdent::parse(s)
    }
}

} // verus!
