//! Regular-expression patterns used by the schema/table allow and deny lists.

use vstd::prelude::*;

verus! {

/// Whether `regex::Regex::new` accepts the pattern (with its default limits).
pub uninterp spec fn regex_compiles(pattern: Seq<char>) -> bool;

/// Whether the regex built from `pattern` matches somewhere in `haystack`
/// (`regex::Regex::is_match`: an unanchored search).
pub uninterp spec fn regex_matches(pattern: Seq<char>, haystack: Seq<char>) -> bool;

#[verifier::external_type_specification]
#[verifier::external_body]
pub struct ExRegex(regex::Regex);

/// `Clone` of `regex::Regex`: a copy of the same compiled regex (it shares
/// the compiled program). Trusted to return; nothing else is claimed here.
pub assume_specification[ <regex::Regex as Clone>::clone ](r: &regex::Regex) -> regex::Regex;

/// A pattern together with the regex compiled from it.
///
/// The compiled regex is only ever built by [`CompiledRegex::compile`], from
/// exactly the text kept in `source`.
#[derive(Clone, Debug)]
pub struct CompiledRegex {
    source: String,
    re: regex::Regex,
}

impl CompiledRegex {
    /// The pattern text this regex was compiled from.
    pub closed spec fn pattern(&self) -> Seq<char> {
        self.source@
    }

    /// Calls `regex::Regex::new` on the pattern. Trusted: the result is `Some`
    /// exactly when `regex_compiles` holds of the pattern, and then it keeps
    /// the pattern text.
    #[verifier::external_body]
    pub(crate) fn compile(pattern: &String) -> (r: Option<CompiledRegex>)
        ensures
            r is Some <==> regex_compiles(pattern@),
            r matches Some(c) ==> c.pattern() == pattern@,
    {
        match regex::Regex::new(pattern.as_str()) {
            Ok(re) => Some(CompiledRegex { source: pattern.clone(), re }),
            Err(_) => None,
        }
    }

    /// Calls `regex::Regex::is_match`. Trusted: the answer is
    /// `regex_matches` of the pattern and the haystack.
    #[verifier::external_body]
    pub(crate) fn is_match(&self, haystack: &str) -> (b: bool)
        ensures
            b == regex_matches(self.pattern(), haystack@),
    {
        self.re.is_match(haystack)
    }

    /// The pattern text.
    pub fn as_str(&self) -> (s: &str)
        ensures
            s@ == self.pattern(),
    {
        self.source.as_str()
    }
}

} // verus!
