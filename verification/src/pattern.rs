//! The line patterns of the library are regular expressions of the `regex`
//! crate. This module is the only place where that crate is called: it
//! declares the crate's types, names what its functions return, and wraps the
//! calls. What the wrappers state of the crate is taken on trust; the rest of
//! the library is proved from it.
//!
//! The library makes its regexes with `Regex::new` only. For such a regex what
//! a search finds is determined by the pattern text and the haystack, which
//! is why the results below are named over those two texts.

use crate::config::ConfigError;
use vstd::prelude::*;

verus! {

/// A compiled regular expression of the `regex` crate.
#[verifier::external_type_specification]
#[verifier::external_body]
pub struct ExRegex(regex::Regex);

/// The error that `Regex::new` returns for a pattern that it cannot compile.
#[verifier::external_type_specification]
#[verifier::external_body]
pub struct ExRegexError(regex::Error);

/// The text that a regex was compiled from: what `Regex::as_str` returns.
pub uninterp spec fn regex_source(re: regex::Regex) -> Seq<char>;

/// Whether `Regex::new` compiles `pattern`: it refuses a pattern with a
/// syntax error and one whose compiled form exceeds the default size limit.
pub uninterp spec fn regex_accepts(pattern: Seq<char>) -> bool;

/// What `Regex::captures` finds in `haystack` for the regex compiled from
/// `pattern`: `None` where nothing matches, else the capture groups of the
/// leftmost match by index, group 0 being the whole match. A group that took
/// no part in the match is `None`.
pub uninterp spec fn regex_groups(pattern: Seq<char>, haystack: Seq<char>) -> Option<
    Seq<Option<Seq<char>>>,
>;

/// What `Regex::is_match` answers for the regex compiled from `pattern`:
/// whether it matches anywhere in `haystack`.
pub uninterp spec fn regex_matches(pattern: Seq<char>, haystack: Seq<char>) -> bool;

/// The characters that `regex::escape` puts a backslash before.
pub open spec fn is_meta_character(c: char) -> bool {
    c == '\\' || c == '.' || c == '+' || c == '*' || c == '?' || c == '(' || c == ')' || c == '|'
        || c == '[' || c == ']' || c == '{' || c == '}' || c == '^' || c == '$' || c == '#'
        || c == '&' || c == '-' || c == '~'
}

/// `text` with a backslash before each meta character.
pub open spec fn escaped(text: Seq<char>) -> Seq<char>
    decreases text.len(),
{
    if text.len() == 0 {
        Seq::empty()
    } else if is_meta_character(text.last()) {
        escaped(text.drop_last()).push('\\').push(text.last())
    } else {
        escaped(text.drop_last()).push(text.last())
    }
}

/// The capture groups of one match as plain texts.
pub type Groups = Vec<Option<String>>;

/// The texts of a group list.
pub open spec fn groups_view(groups: Seq<Option<String>>) -> Seq<Option<Seq<char>>> {
    Seq::new(
        groups.len(),
        |i: int|
            match groups[i] {
                Some(text) => Some(text@),
                None => None,
            },
    )
}

/// The texts of a search result.
pub open spec fn found_view(found: Option<Groups>) -> Option<Seq<Option<Seq<char>>>> {
    match found {
        Some(groups) => Some(groups_view(groups@)),
        None => None,
    }
}

/// `regex::escape`: every meta character of `text` gets a backslash before
/// it, and the other characters are kept as they are.
#[verifier::external_body]
pub(crate) fn escape(text: &str) -> (out: String)
    ensures
        out@ == escaped(text@),
{
    regex::escape(text)
}

/// `Regex::new`: compiles `pattern` or refuses it. A regex that it returns
/// reports `pattern` as its source.
#[verifier::external_body]
pub(crate) fn compile(pattern: &str) -> (made: Result<regex::Regex, regex::Error>)
    ensures
        made is Ok <==> regex_accepts(pattern@),
        made matches Ok(re) ==> regex_source(re) == pattern@,
{
    regex::Regex::new(pattern)
}

/// `Regex::captures`, with every group of the match copied out as a text.
#[verifier::external_body]
pub(crate) fn captures(re: &regex::Regex, haystack: &str) -> (found: Option<Groups>)
    ensures
        found_view(found) == regex_groups(regex_source(*re), haystack@),
{
    re.captures(haystack).map(
        |caps| caps.iter().map(|group| group.map(|m| m.as_str().to_string())).collect(),
    )
}

/// `Regex::is_match`.
#[verifier::external_body]
pub(crate) fn is_match(re: &regex::Regex, haystack: &str) -> (found: bool)
    ensures
        found == regex_matches(regex_source(*re), haystack@),
{
    re.is_match(haystack)
}

/// What the error says of a pattern that does not compile.
pub open spec fn refusal(pattern: Seq<char>) -> Seq<char> {
    "invalid pattern: "@ + pattern
}

/// Compiles `pattern`, or says that it cannot be compiled.
pub(crate) fn compile_pattern(pattern: &str) -> (made: Result<regex::Regex, ConfigError>)
    ensures
        match made {
            Ok(re) => regex_accepts(pattern@) && regex_source(re) == pattern@,
            Err(error) => !regex_accepts(pattern@) && error@ == refusal(pattern@),
        },
{
    match compile(pattern) {
        Ok(re) => Ok(re),
        Err(_) => {
            let mut message = "invalid pattern: ".to_owned();
            message.append(pattern);
            Err(ConfigError::new(message))
        },
    }
}

} // verus!
