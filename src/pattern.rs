//! Regular expressions, compiled and run by the `regex` crate.
use vstd::prelude::*;

verus! {

#[verifier::external_type_specification]
#[verifier::external_body]
pub struct ExRegex(regex::Regex);

/// What `regex::Regex::new` makes of a pattern: success, or the text of its error.
pub uninterp spec fn regex_compile_outcome(pattern: Seq<char>) -> Result<(), Seq<char>>;

/// Whether the regex compiled from `pattern` matches anywhere in `haystack`.
pub uninterp spec fn regex_finds(pattern: Seq<char>, haystack: Seq<char>) -> bool;

/// A compiled regex together with the pattern it was compiled from. Only
/// `compile_regex` builds one, so `re` is always the compilation of `pattern`.
pub(crate) struct CompiledRegex {
    pattern: String,
    re: regex::Regex,
}

impl CompiledRegex {
    pub closed spec fn pattern(&self) -> Seq<char> {
        self.pattern@
    }
}

/// Relies on `regex::Regex::new`: it succeeds or fails on the pattern alone, and
/// the error's text depends on the pattern alone.
#[verifier::external_body]
pub(crate) fn compile_regex(pattern: &str) -> (r: Result<CompiledRegex, String>)
    ensures
        regex_compile_outcome(pattern@) is Ok <==> r.is_ok(),
        r matches Ok(c) ==> c.pattern() == pattern@,
        r matches Err(m) ==> (regex_compile_outcome(pattern@) matches Err(t) && t == m@),
{
    match regex::Regex::new(pattern) {
        Ok(re) => Ok(CompiledRegex { pattern: pattern.to_string(), re }),
        Err(e) => Err(e.to_string()),
    }
}

/// Relies on `regex::Regex::is_match`: true iff the regex matches somewhere in
/// the haystack, a function of the pattern and the haystack.
#[verifier::external_body]
pub(crate) fn is_match(re: &CompiledRegex, haystack: &str) -> (r: bool)
    ensures
        r == regex_finds(re.pattern(), haystack@),
{
    re.re.is_match(haystack)
}

/// A pattern matches a text when it compiles and its regex finds a match in the text.
pub open spec fn pattern_matches(pattern: Seq<char>, text: Seq<char>) -> bool {
    regex_compile_outcome(pattern) is Ok && regex_finds(pattern, text)
}

/// Fail-open matching: a pattern that does not compile matches nothing.
pub fn pattern_matches_text(pattern: &str, text: &str) -> (r: bool)
    ensures
        r == pattern_matches(pattern@, text@),
{
    match compile_regex(pattern) {
        Ok(re) => is_match(&re, text),
        Err(_) => false,
    }
}

} // verus!
