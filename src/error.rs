//! The failure of an extraction: what every field's pattern found, for
//! diagnosis.
use vstd::prelude::*;

verus! {

/// Reported when no title could be found: for each field, by name, the text
/// its pattern found, if any.
#[derive(Debug)]
pub struct ErrorMatch {
    matches: Vec<(&'static str, Option<String>)>,
}

impl ErrorMatch {
    /// The entries, as field names and found texts.
    pub closed spec fn entries(&self) -> Seq<(Seq<char>, Option<Seq<char>>)> {
        self.matches.deep_view()
    }

    pub fn new(matches: Vec<(&'static str, Option<String>)>) -> (r: ErrorMatch)
        ensures
            r.entries() == matches.deep_view(),
    {
        ErrorMatch { matches }
    }

    pub fn matches(&self) -> (r: &Vec<(&'static str, Option<String>)>)
        ensures
            r.deep_view() == self.entries(),
    {
        &self.matches
    }

    pub fn description(&self) -> (r: &'static str)
        ensures
            r@ == "Couldn't find a title."@,
    {
        "Couldn't find a title."
    }
}

} // verus!
