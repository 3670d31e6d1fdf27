//! A field pattern: one compiled expression and the three rules that say how
//! its matches are read.
use crate::matcher::{captures_all, regex_captures, regex_source, spans_ok, well_spanned};
use crate::text::is_digit_byte;
use regex::Regex;
use vstd::prelude::*;
use vstd::string::StringSliceAdditionalSpecFns;

verus! {

/// The group spans of one match; index 0 is the whole match.
pub type Groups = Seq<Option<(usize, usize)>>;

/// Whether the character just before `start` or just after `end` is a digit.
/// In UTF-8 an ASCII digit byte is always a whole character, so the character
/// next to a match is a digit exactly when the byte next to it is one.
pub open spec fn digit_adjacent(bytes: Seq<u8>, start: int, end: int) -> bool {
    (0 < start <= bytes.len() && is_digit_byte(bytes[start - 1])) || (0 <= end < bytes.len()
        && is_digit_byte(bytes[end]))
}

/// Whether a raw match counts: with `no_numbers_surrounding`, one with a
/// digit right beside it does not.
pub open spec fn admitted(no_numbers_surrounding: bool, bytes: Seq<u8>, m: Groups) -> bool {
    !(no_numbers_surrounding && m.len() > 0 && match m[0] {
        Some(sp) => digit_adjacent(bytes, sp.0 as int, sp.1 as int),
        None => false,
    })
}

/// Of the matches `caps` found in a text of these bytes, the one that
/// decides: of those that count, the last with `capture_last`, else the first.
pub open spec fn pick(
    capture_last: bool,
    no_numbers_surrounding: bool,
    bytes: Seq<u8>,
    caps: Seq<Groups>,
) -> Option<Groups> {
    let kept = caps.filter(|m: Groups| admitted(no_numbers_surrounding, bytes, m));
    if kept.len() == 0 {
        None
    } else if capture_last {
        Some(kept.last())
    } else {
        Some(kept[0])
    }
}

/// The match of `source` that decides a field in `text`, if any.
pub open spec fn decisive(
    source: Seq<char>,
    capture_last: bool,
    no_numbers_surrounding: bool,
    text: &str,
) -> Option<Groups> {
    pick(capture_last, no_numbers_surrounding, text.spec_bytes(), regex_captures(source, text@))
}

/// A matched field: its compiled expression and the rules applied to its matches.
#[derive(Debug)]
pub struct Pattern {
    regex: Regex,
    before_title: bool,
    capture_last: bool,
    no_numbers_surrounding: bool,
}

impl Pattern {
    pub closed spec fn source(&self) -> Seq<char> {
        regex_source(self.regex)
    }

    pub closed spec fn spec_before_title(&self) -> bool {
        self.before_title
    }

    pub closed spec fn spec_capture_last(&self) -> bool {
        self.capture_last
    }

    pub closed spec fn spec_no_numbers_surrounding(&self) -> bool {
        self.no_numbers_surrounding
    }

    /// The match that decides this pattern's field in `text`, if any.
    pub open spec fn spec_captures(&self, text: &str) -> Option<Groups> {
        decisive(self.source(), self.spec_capture_last(), self.spec_no_numbers_surrounding(), text)
    }

    pub fn new(regex: Regex, before_title: bool, capture_last: bool, no_numbers_surrounding: bool) -> (p: Self)
        ensures
            p.source() == regex_source(regex),
            p.spec_before_title() == before_title,
            p.spec_capture_last() == capture_last,
            p.spec_no_numbers_surrounding() == no_numbers_surrounding,
    {
        Pattern { regex, before_title, capture_last, no_numbers_surrounding }
    }

    /// The match that decides this field in `text`, as the byte spans of its
    /// groups.
    pub fn captures(&self, text: &str) -> (r: Option<Vec<Option<(usize, usize)>>>)
        ensures
            r.deep_view() == self.spec_captures(text),
            r.deep_view() matches Some(m) ==> spans_ok(m, text.spec_bytes()),
    {
        let all = captures_all(&self.regex, text);
        select_match(self.capture_last, self.no_numbers_surrounding, text, all)
    }

    pub fn before_title(&self) -> (r: bool)
        ensures
            r == self.spec_before_title(),
    {
        self.before_title
    }
}

fn admits(no_numbers_surrounding: bool, bytes: &[u8], m: &Vec<Option<(usize, usize)>>) -> (r: bool)
    requires
        spans_ok(m.deep_view(), bytes@),
    ensures
        r == admitted(no_numbers_surrounding, bytes@, m.deep_view()),
{
    if !no_numbers_surrounding {
        return true;
    }
    let (start, end) = match m[0] {
        Some(sp) => sp,
        None => {
            return true;
        },
    };
    if start > 0 && 48 <= bytes[start - 1] && bytes[start - 1] <= 57 {
        return false;
    }
    if end < bytes.len() && 48 <= bytes[end] && bytes[end] <= 57 {
        return false;
    }
    true
}

/// Of the matches `all` found in `text`, the one that decides: of those that
/// count, the last with `capture_last`, else the first.
pub fn select_match(
    capture_last: bool,
    no_numbers_surrounding: bool,
    text: &str,
    all: Vec<Vec<Option<(usize, usize)>>>,
) -> (r: Option<Vec<Option<(usize, usize)>>>)
    requires
        well_spanned(all.deep_view(), text.spec_bytes()),
    ensures
        r.deep_view() == pick(capture_last, no_numbers_surrounding, text.spec_bytes(), all.deep_view()),
        r.deep_view() matches Some(m) ==> spans_ok(m, text.spec_bytes()),
{
    let mut all = all;
    let bytes = text.as_bytes();
    let ghost caps = all.deep_view();
    let ghost pred = |m: Groups| admitted(no_numbers_surrounding, text.spec_bytes(), m);
    let mut chosen: Option<usize> = None;
    let mut n: usize = 0;
    let mut i: usize = 0;
    while i < all.len()
        invariant
            i <= all.len(),
            caps == all.deep_view(),
            pred == (|m: Groups| admitted(no_numbers_surrounding, text.spec_bytes(), m)),
            well_spanned(caps, text.spec_bytes()),
            bytes@ == text.spec_bytes(),
            n == caps.take(i as int).filter(pred).len(),
            n == 0 <==> chosen is None,
            chosen matches Some(k) ==> k < i && caps[k as int] == if capture_last {
                caps.take(i as int).filter(pred).last()
            } else {
                caps.take(i as int).filter(pred)[0]
            },
        decreases all.len() - i,
    {
        let ghost before = caps.take(i as int).filter(pred);
        assert(caps.take(i as int + 1).drop_last() =~= caps.take(i as int));
        assert(caps.take(i as int + 1).last() == caps[i as int]);
        reveal(Seq::filter);
        assert(all[i as int].deep_view() == caps[i as int]);
        let ok = admits(no_numbers_surrounding, bytes, &all[i]);
        if ok {
            assert(pred(caps[i as int]));
            assert(caps.take(i as int + 1).filter(pred) == before.push(caps[i as int]));
            if capture_last || n == 0 {
                chosen = Some(i);
            }
            n = n + 1;
        } else {
            assert(!pred(caps[i as int]));
            assert(caps.take(i as int + 1).filter(pred) == before);
        }
        i = i + 1;
    }
    assert(caps.take(all.len() as int) =~= caps);
    match chosen {
        None => None,
        Some(k) => {
            let m = all.swap_remove(k);
            assert(m.deep_view() == caps[k as int]);
            Some(m)
        },
    }
}

} // verus!
