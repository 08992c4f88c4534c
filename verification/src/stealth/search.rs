//! Byte regexes of the `regex` crate, compiled and searched behind
//! trusted contracts.
use vstd::prelude::*;

verus! {

#[verifier::external_type_specification]
#[verifier::external_body]
pub struct ExRegex(regex::bytes::Regex);

#[verifier::external_type_specification]
#[verifier::external_body]
pub struct ExRegexError(regex::Error);

/// Whether `pattern` compiles to a byte regex (`regex::bytes::Regex::new`
/// returns `Ok`).
pub uninterp spec fn regex_compiles(pattern: Seq<char>) -> bool;

/// The byte range `(start, end)` of the first (leftmost) match of `pattern`
/// in `haystack`, as `regex::bytes::Regex::find` reports it.
pub uninterp spec fn regex_first_match(pattern: Seq<char>, haystack: Seq<u8>) -> Option<(usize, usize)>;

/// A compiled byte regex together with the pattern it was compiled from.
/// Its fields are private to this module, and `compile_pattern` is the one
/// way to make one, so the regex is always the one compiled from the
/// pattern it carries.
pub struct CompiledPattern {
    regex: regex::bytes::Regex,
    pattern: Ghost<Seq<char>>,
}

impl CompiledPattern {
    /// The pattern the regex was compiled from.
    pub closed spec fn pattern(&self) -> Seq<char> {
        self.pattern@
    }
}

/// Compiles `pattern` with `regex::bytes::Regex::new`. The contract claims
/// that compilation succeeds exactly on the patterns that the name
/// `regex_compiles` holds of, and that the compiled value remembers its
/// pattern.
#[verifier::external_body]
pub(crate) fn compile_pattern(pattern: &str) -> (r: Result<CompiledPattern, regex::Error>)
    ensures
        r is Ok <==> regex_compiles(pattern@),
        r matches Ok(c) ==> c.pattern() == pattern@,
{
    regex::bytes::Regex::new(pattern).map(|regex| CompiledPattern { regex, pattern: Ghost(pattern@) })
}

/// Searches `haystack` with `regex::bytes::Regex::find`. The contract claims
/// that the result is the first match of the compiled pattern, named
/// `regex_first_match`, and, as the crate documents for `Match`, that its
/// range lies within the haystack with `start <= end`.
#[verifier::external_body]
pub(crate) fn find_first(compiled: &CompiledPattern, haystack: &[u8]) -> (r: Option<(usize, usize)>)
    ensures
        r == regex_first_match(compiled.pattern(), haystack@),
        r matches Some((s, e)) ==> s <= e <= haystack@.len(),
{
    compiled.regex.find(haystack).map(|m| (m.start(), m.end()))
}

} // verus!
