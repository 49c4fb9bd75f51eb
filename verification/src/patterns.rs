//! Regular expressions, as the `regex` crate compiles and runs them.

use vstd::prelude::*;

verus! {

/// What `regex::Regex::new` reports for `pattern`: `None` when it compiles,
/// the text of its error otherwise.
pub uninterp spec fn regex_compile_error(pattern: Seq<char>) -> Option<Seq<char>>;

/// What `regex::Regex::is_match` answers for the compiled `pattern` on
/// `haystack`: whether the pattern matches anywhere in it.
pub uninterp spec fn regex_finds(pattern: Seq<char>, haystack: Seq<char>) -> bool;

/// `pattern` is a regular expression that `regex` accepts.
pub open spec fn regex_compiles(pattern: Seq<char>) -> bool {
    regex_compile_error(pattern) is None
}

/// `regex::Regex::new(pattern)` and, when it compiles, `is_match` on
/// `haystack`: the error's text (its `Display`) when the pattern does not
/// compile, otherwise whether it matches anywhere in `haystack`.
#[verifier::external_body]
fn regex_run(pattern: &str, haystack: &str) -> (r: Result<bool, String>)
    ensures
        match regex_compile_error(pattern@) {
            Some(e) => r matches Err(m) && m@ == e,
            None => r matches Ok(b) && b == regex_finds(pattern@, haystack@),
        },
{
    match regex::Regex::new(pattern) {
        Ok(re) => Ok(re.is_match(haystack)),
        Err(e) => Err(e.to_string()),
    }
}

/// Whether `pattern` matches anywhere in `haystack`; `None` exactly when the
/// pattern does not compile.
pub(crate) fn regex_match(pattern: &str, haystack: &str) -> (r: Option<bool>)
    ensures
        r is Some == regex_compiles(pattern@),
        r matches Some(b) ==> b == regex_finds(pattern@, haystack@),
{
    match regex_run(pattern, haystack) {
        Ok(b) => Some(b),
        Err(_) => None,
    }
}

/// The text of the error that compiling `pattern` reports, or `None` when it
/// compiles.
pub(crate) fn regex_error(pattern: &str) -> (r: Option<String>)
    ensures
        r is None == regex_compile_error(pattern@) is None,
        r matches Some(e) ==> regex_compile_error(pattern@) == Some(e@),
{
    match regex_run(pattern, "") {
        Ok(_) => None,
        Err(e) => Some(e),
    }
}

} // verus!
