//! What the library assumes of the `regex` crate: compiled expressions, and
//! the captures they find in a text.
use regex::Regex;
use vstd::prelude::*;
use vstd::string::StringSliceAdditionalSpecFns;
use vstd::utf8::is_char_boundary;

verus! {

#[verifier::external_type_specification]
#[verifier::external_body]
pub struct ExRegex(regex::Regex);

#[verifier::external_type_specification]
#[verifier::external_body]
pub struct ExRegexError(regex::Error);

/// The pattern text that a compiled expression was built from.
pub uninterp spec fn regex_source(re: Regex) -> Seq<char>;

/// Whether `regex::Regex::new` accepts a pattern text.
pub uninterp spec fn regex_accepts(source: Seq<char>) -> bool;

/// The successive non-overlapping matches of a pattern in a text, leftmost
/// first; each match given by the byte span of every capture group, by group
/// index (group 0 is the whole match; `None` for a group that took no part).
pub uninterp spec fn regex_captures(source: Seq<char>, text: Seq<char>) -> Seq<
    Seq<Option<(usize, usize)>>,
>;

/// A span that can slice a text of these bytes: ordered, in bounds, and on
/// code point boundaries.
pub open spec fn slices(bytes: Seq<u8>, span: (usize, usize)) -> bool {
    &&& span.0 <= span.1 <= bytes.len()
    &&& is_char_boundary(bytes, span.0 as int)
    &&& is_char_boundary(bytes, span.1 as int)
}

/// A match has its whole-match group, and every group span slices the text.
pub open spec fn spans_ok(m: Seq<Option<(usize, usize)>>, bytes: Seq<u8>) -> bool {
    &&& m.len() > 0
    &&& m[0] is Some
    &&& forall|j: int| 0 <= j < m.len() && (#[trigger] m[j]) is Some ==> slices(bytes, m[j]->0)
}

/// Every match of the sequence has well-formed spans.
pub open spec fn well_spanned(caps: Seq<Seq<Option<(usize, usize)>>>, bytes: Seq<u8>) -> bool {
    forall|i: int| 0 <= i < caps.len() ==> spans_ok(#[trigger] caps[i], bytes)
}

/// Relies on `regex::Regex::new`: it fails exactly on the patterns it does not
/// accept, and the expression it builds keeps its pattern text.
pub assume_specification[ regex::Regex::new ](re: &str) -> (r: Result<Regex, regex::Error>)
    ensures
        r is Ok <==> regex_accepts(re@),
        r matches Ok(x) ==> regex_source(x) == re@,
;

/// Relies on `regex::Regex::captures_iter`, with `Captures::iter` and the
/// offsets of each `Match`: the matches in order, each group's byte span, group 0
/// always present, every offset on a code point boundary of the text.
#[verifier::external_body]
pub(crate) fn captures_all(re: &Regex, text: &str) -> (r: Vec<Vec<Option<(usize, usize)>>>)
    ensures
        r.deep_view() == regex_captures(regex_source(*re), text@),
        well_spanned(r.deep_view(), text.spec_bytes()),
{
    re.captures_iter(text).map(|caps| caps.iter().map(|g| g.map(|m| (m.start(), m.end()))).collect()).collect()
}

} // verus!
