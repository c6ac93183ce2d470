//! The regular-expression engine: the calls into the `regex` crate that the
//! library makes, with what it relies on of each.

use vstd::prelude::*;
use regex::Regex;

verus! {

#[verifier::external_type_specification]
#[verifier::external_body]
pub struct ExRegex(Regex);

#[verifier::external_type_specification]
#[verifier::external_body]
pub struct ExRegexError(regex::Error);

/// The pattern text a compiled regex was built from (what `Regex::as_str`
/// hands back).
pub uninterp spec fn regex_pattern(re: Regex) -> Seq<char>;

/// Whether a compiled regex was built by `RegexBuilder` with
/// `case_insensitive(true)` and every other option at its default.
pub uninterp spec fn regex_built_case_insensitive(re: Regex) -> bool;

/// Whether `RegexBuilder`, with `case_insensitive(true)` and every other
/// option (the size and nesting limits included) at its default, builds a
/// regex from this pattern text.
pub uninterp spec fn regex_accepts(pattern: Seq<char>) -> bool;

/// Whether the regex built from this pattern text, with
/// `case_insensitive(true)` and every other option at its default, finds a
/// match somewhere in `text`.
pub uninterp spec fn regex_finds(pattern: Seq<char>, text: Seq<char>) -> bool;

/// The characters that `regex::escape` prefixes with a backslash
/// (`regex_syntax::is_meta_character`).
pub open spec fn is_regex_meta(c: char) -> bool {
    c == '\\' || c == '.' || c == '+' || c == '*' || c == '?' || c == '(' || c == ')' || c
        == '|' || c == '[' || c == ']' || c == '{' || c == '}' || c == '^' || c == '$' || c
        == '#' || c == '&' || c == '-' || c == '~'
}

/// A single character written so that a regex matches it literally.
pub open spec fn regex_escaped(c: char) -> Seq<char> {
    if is_regex_meta(c) {
        seq!['\\', c]
    } else {
        seq![c]
    }
}

/// Relies on `regex::escape`: each meta character gets a backslash in front
/// of it, every other character is kept as it is.
#[verifier::external_body]
pub(crate) fn escape_char(c: char) -> (r: Vec<char>)
    ensures
        r@ == regex_escaped(c),
{
    regex::escape(&c.to_string()).chars().collect()
}

/// Relies on `RegexBuilder::new(..).case_insensitive(true).build()`: it
/// succeeds exactly when the builder so configured accepts the text (it
/// fails on a syntax error, or when the compiled program exceeds the size
/// limit), and the regex it builds keeps the pattern text it was given.
#[verifier::external_body]
pub(crate) fn build_case_insensitive(pattern: &Vec<char>) -> (r: Result<Regex, regex::Error>)
    ensures
        r is Ok <==> regex_accepts(pattern@),
        r matches Ok(re) ==> regex_pattern(re) == pattern@ && regex_built_case_insensitive(re),
{
    let text: String = pattern.iter().collect();
    regex::RegexBuilder::new(&text).case_insensitive(true).build()
}

/// Relies on `Regex::is_match`: whether the regex finds a match in `text`.
/// What that is is stated only of a regex built by `build_case_insensitive`;
/// other builder options change the answer.
#[verifier::external_body]
pub(crate) fn regex_is_match(re: &Regex, text: &str) -> (r: bool)
    ensures
        regex_built_case_insensitive(*re) ==> r == regex_finds(regex_pattern(*re), text@),
{
    re.is_match(text)
}

} // verus!
