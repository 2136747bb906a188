//! Regular expressions, as the `regex` crate compiles and runs them.
//!
//! The behaviour of a regular expression is not modelled here. It is named:
//! each result below is a function of the pattern's source text and of the
//! text that is searched, and the contracts of this crate are stated over
//! those names.

use vstd::prelude::*;
use vstd::string::StringExecFns;

verus! {

/// What `regex::Regex::new` makes of a pattern: `None` where the pattern
/// compiles, otherwise the text of the error it reports.
pub uninterp spec fn regex_fault(pattern: Seq<char>) -> Option<Seq<char>>;

/// The byte offset at which the leftmost match of a compiled `pattern`
/// starts in `haystack`, as `Regex::find` reports it; `None` without a match.
pub uninterp spec fn regex_first_match(pattern: Seq<char>, haystack: Seq<char>) -> Option<usize>;

/// The number of successive non-overlapping matches of a compiled `pattern`
/// in `haystack`, as `Regex::find_iter` yields them.
pub uninterp spec fn regex_match_count(pattern: Seq<char>, haystack: Seq<char>) -> usize;

/// The text that capture group `index` of a compiled `pattern` holds in the
/// leftmost match in `haystack`, as `Regex::captures` and `Captures::get`
/// report it; `None` without a match, where the group took no part in it,
/// and where the pattern has no group of that index.
pub uninterp spec fn regex_group(pattern: Seq<char>, haystack: Seq<char>, index: usize) -> Option<
    Seq<char>,
>;

/// Calls `regex::Regex::new` and keeps only whether it succeeded: `None` for
/// a pattern that compiles, otherwise the error's text.
#[verifier::external_body]
fn pattern_fault(pattern: &str) -> (r: Option<String>)
    ensures
        r.deep_view() == regex_fault(pattern@),
{
    match regex::Regex::new(pattern) {
        Ok(_) => None,
        Err(e) => Some(e.to_string()),
    }
}

/// Calls `regex::Regex::find` with the compiled `pattern` and returns the
/// start of the match that it found.
#[verifier::external_body]
fn first_match(pattern: &str, haystack: &str) -> (r: Option<usize>)
    requires
        regex_fault(pattern@) is None,
    ensures
        r == regex_first_match(pattern@, haystack@),
{
    match regex::Regex::new(pattern) {
        Ok(re) => re.find(haystack).map(|m| m.start()),
        Err(_) => None,
    }
}

/// Calls `regex::Regex::find_iter` with the compiled `pattern` and counts
/// the matches that it yields.
#[verifier::external_body]
fn match_count(pattern: &str, haystack: &str) -> (r: usize)
    requires
        regex_fault(pattern@) is None,
    ensures
        r == regex_match_count(pattern@, haystack@),
{
    match regex::Regex::new(pattern) {
        Ok(re) => re.find_iter(haystack).count(),
        Err(_) => 0,
    }
}

/// Calls `regex::Regex::captures` with the compiled `pattern` and returns
/// the text that `Captures::get` gives for the group `index`.
#[verifier::external_body]
fn capture_group(pattern: &str, haystack: &str, index: usize) -> (r: Option<String>)
    requires
        regex_fault(pattern@) is None,
    ensures
        r.deep_view() == regex_group(pattern@, haystack@, index),
{
    match regex::Regex::new(pattern) {
        Ok(re) => re.captures(haystack).and_then(|c| c.get(index)).map(|m| m.as_str().to_string()),
        Err(_) => None,
    }
}

/// A regular expression that compiles, kept as its source text. That the
/// text compiles is settled once, when the matcher is made; a search hands
/// the text to the `regex` crate, which compiles it for that search.
#[derive(Debug)]
pub struct Matcher {
    source: String,
}

impl View for Matcher {
    type V = Seq<char>;

    /// The source text of the expression.
    closed spec fn view(&self) -> Seq<char> {
        self.source@
    }
}

impl DeepView for Matcher {
    type V = Seq<char>;

    open spec fn deep_view(&self) -> Seq<char> {
        self@
    }
}

impl Clone for Matcher {
    fn clone(&self) -> (r: Self)
        ensures
            r == *self,
    {
        proof {
            use_type_invariant(self);
        }
        Matcher { source: self.source.clone() }
    }
}

impl Matcher {
    #[verifier::type_invariant]
    spec fn compiles(&self) -> bool {
        regex_fault(self.source@) is None
    }

    /// Accepts `pattern` if and only if it compiles; the error is the text
    /// that the compiler reports.
    pub fn new(pattern: &str) -> (r: Result<Matcher, String>)
        ensures
            match r {
                Ok(m) => m@ == pattern@ && regex_fault(pattern@) is None,
                Err(e) => regex_fault(pattern@) == Some(e@),
            },
    {
        match pattern_fault(pattern) {
            None => Ok(Matcher { source: String::from_str(pattern) }),
            Some(e) => Err(e),
        }
    }

    /// The source text of the expression.
    pub fn as_str(&self) -> (r: &str)
        ensures
            r@ == self@,
    {
        self.source.as_str()
    }

    /// The byte offset at which the leftmost match starts in `haystack`.
    pub fn find(&self, haystack: &str) -> (r: Option<usize>)
        ensures
            r == regex_first_match(self@, haystack@),
    {
        proof {
            use_type_invariant(self);
        }
        first_match(self.source.as_str(), haystack)
    }

    /// Whether the expression matches somewhere in `haystack`.
    pub fn is_match(&self, haystack: &str) -> (r: bool)
        ensures
            r == regex_first_match(self@, haystack@).is_some(),
    {
        self.find(haystack).is_some()
    }

    /// The number of successive non-overlapping matches in `haystack`.
    pub fn count_matches(&self, haystack: &str) -> (r: usize)
        ensures
            r == regex_match_count(self@, haystack@),
    {
        proof {
            use_type_invariant(self);
        }
        match_count(self.source.as_str(), haystack)
    }

    /// The text of the capture group `index` in the leftmost match; group 0
    /// is the whole match.
    pub fn group(&self, haystack: &str, index: usize) -> (r: Option<String>)
        ensures
            r.deep_view() == regex_group(self@, haystack@, index),
    {
        proof {
            use_type_invariant(self);
        }
        capture_group(self.source.as_str(), haystack, index)
    }
}

} // verus!
