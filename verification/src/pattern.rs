//! Entry-point detection for snippets, delegated to the regex crate.
//!
//! Each language's wrap-or-keep decision tests the snippet against a fixed
//! pattern; what a pattern matches is named, not restated, so contracts can
//! be exact about everything around the match test.

use vstd::prelude::*;

verus! {

/// Whether compiling `pattern` with regex::Regex::new succeeds and the
/// resulting automaton matches somewhere in `text`; false on an invalid
/// pattern. A function of the two strings alone.
pub uninterp spec fn regex_match(pattern: Seq<char>, text: Seq<char>) -> bool;

/// What `regex_is_replaced` returns: `text` with its first `pattern` match
/// rewritten through `template` (group references substituted); `text`
/// unchanged on an invalid pattern or no match. A function of the three
/// strings alone.
pub uninterp spec fn regex_replaced(
    pattern: Seq<char>,
    text: Seq<char>,
    template: Seq<char>,
) -> Seq<char>;

/// Relies on regex::Regex::new and Regex::is_match: whether the pattern,
/// if it compiles, matches anywhere in the text.
#[verifier::external_body]
pub fn regex_is_match(pattern: &str, text: &str) -> (r: bool)
    ensures
        r == regex_match(pattern@, text@),
{
    match regex::Regex::new(pattern) {
        Ok(re) => re.is_match(text),
        Err(_) => false,
    }
}

/// Relies on regex::Regex::new and Regex::replace: the first match of the
/// pattern, if it compiles and matches, rewritten through the template.
#[verifier::external_body]
pub fn regex_is_replaced(pattern: &str, text: &str, template: &str) -> (r: String)
    ensures
        r@ == regex_replaced(pattern@, text@, template@),
{
    match regex::Regex::new(pattern) {
        Ok(re) => re.replace(text, template).into_owned(),
        Err(_) => text.to_owned(),
    }
}

} // verus!
