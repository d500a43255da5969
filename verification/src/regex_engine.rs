//! Regular expressions, as the `regex` crate understands them.
//!
//! Which texts a regular expression matches is not restated here: each
//! question put to the `regex` crate has a name, and the contracts of the
//! callers speak of those names. Nothing in this file is proved; every
//! function in it states what the `regex` crate documents.

use vstd::prelude::*;

verus! {

/// Whether `Regex::new` accepts `pattern`.
pub uninterp spec fn regex_compiles(pattern: Seq<char>) -> bool;

/// Whether the regular expression `pattern` matches anywhere in `text`:
/// what `Regex::is_match` answers.
pub uninterp spec fn regex_matches(pattern: Seq<char>, text: Seq<char>) -> bool;

/// The part of `text` that the first match of `pattern` covers, if it matches:
/// group 0 of what `Regex::captures` returns.
pub uninterp spec fn regex_whole_match(pattern: Seq<char>, text: Seq<char>) -> Option<Seq<char>>;

/// `text` with the first match of `pattern` replaced by `replacement`, in which
/// `$name` stands for a capture group: what `Regex::replace` returns.
pub uninterp spec fn regex_replaced(
    pattern: Seq<char>,
    text: Seq<char>,
    replacement: Seq<char>,
) -> Seq<char>;

/// Compiles `pattern` with `regex::Regex::new` and drops the result. Fails,
/// with the text of the crate's error, exactly when the pattern does not
/// compile.
#[verifier::external_body]
pub(crate) fn check_pattern(pattern: &str) -> (r: Result<(), String>)
    ensures
        r is Ok <==> regex_compiles(pattern@),
{
    match regex::Regex::new(pattern) {
        Ok(_) => Ok(()),
        Err(e) => Err(e.to_string()),
    }
}

/// Compiles `pattern` with `regex::Regex::new` and asks `Regex::is_match`
/// whether it matches anywhere in `text`. Fails, with the text of the crate's
/// error, exactly when the pattern does not compile.
#[verifier::external_body]
pub(crate) fn is_match(pattern: &str, text: &str) -> (r: Result<bool, String>)
    ensures
        r is Ok <==> regex_compiles(pattern@),
        r matches Ok(found) ==> found == regex_matches(pattern@, text@),
{
    match regex::Regex::new(pattern) {
        Ok(re) => Ok(re.is_match(text)),
        Err(e) => Err(e.to_string()),
    }
}

/// Compiles `pattern` with `regex::Regex::new` and returns the text of group 0
/// of `Regex::captures` on `text`, which is the whole first match. Fails, with
/// the text of the crate's error, exactly when the pattern does not compile.
#[verifier::external_body]
pub(crate) fn whole_match(pattern: &str, text: &str) -> (r: Result<Option<String>, String>)
    ensures
        r is Ok <==> regex_compiles(pattern@),
        r matches Ok(found) ==> match found {
            Some(part) => regex_whole_match(pattern@, text@) == Some(part@),
            None => regex_whole_match(pattern@, text@) is None,
        },
{
    match regex::Regex::new(pattern) {
        Ok(re) => match re.captures(text) {
            Some(groups) => Ok(Some(groups[0].to_string())),
            None => Ok(None),
        },
        Err(e) => Err(e.to_string()),
    }
}

/// Compiles `pattern` with `regex::Regex::new` and returns what
/// `Regex::replace` makes of `text` and `replacement`. Fails, with the text of
/// the crate's error, exactly when the pattern does not compile.
#[verifier::external_body]
pub(crate) fn replace_first(pattern: &str, text: &str, replacement: &str) -> (r: Result<
    String,
    String,
>)
    ensures
        r is Ok <==> regex_compiles(pattern@),
        r matches Ok(replaced) ==> replaced@ == regex_replaced(pattern@, text@, replacement@),
{
    match regex::Regex::new(pattern) {
        Ok(re) => Ok(re.replace(text, replacement).into_owned()),
        Err(e) => Err(e.to_string()),
    }
}

} // verus!
