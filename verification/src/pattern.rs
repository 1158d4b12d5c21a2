//! Regular expressions, as far as the resolver uses them.

use regex::Regex;
use vstd::prelude::*;

verus! {

/// `regex::Regex`, a compiled regular expression. Nothing inside it is
/// visible to the proofs.
#[verifier::external_type_specification]
#[verifier::external_body]
pub struct ExRegex(Regex);

/// `regex::Error`, the reason for which a pattern does not compile. Nothing
/// inside it is visible to the proofs.
#[verifier::external_type_specification]
#[verifier::external_body]
pub struct ExRegexError(regex::Error);

/// Whether `re` is an expression as `Regex::new` builds it from `pattern`.
/// The library makes no expression in another way.
pub uninterp spec fn compiled_from(re: Regex, pattern: Seq<char>) -> bool;

/// Whether `Regex::new` accepts `pattern`.
pub uninterp spec fn compiles(pattern: Seq<char>) -> bool;

/// Whether the expression that `Regex::new` builds from `pattern` matches
/// somewhere in `text`.
pub uninterp spec fn matches_somewhere(pattern: Seq<char>, text: Seq<char>) -> bool;

/// The pattern of the characters that are no ASCII letters or digits.
pub const NON_ALPHANUMERIC: &'static str = "[^a-zA-Z0-9]";

/// Whether `c` is an ASCII letter or digit.
pub open spec fn is_alphanumeric(c: char) -> bool {
    'a' <= c <= 'z' || 'A' <= c <= 'Z' || '0' <= c <= '9'
}

/// `text` with every character that is no ASCII letter or digit replaced by
/// `with`.
pub open spec fn with_others_replaced(text: Seq<char>, with: char) -> Seq<char> {
    Seq::new(
        text.len(),
        |i: int|
            if is_alphanumeric(text[i]) {
                text[i]
            } else {
                with
            },
    )
}

/// `regex::Regex::new`. It fails exactly on the patterns that do not compile,
/// and what it returns is the expression built from the pattern it was given.
#[verifier::external_body]
pub(crate) fn compile(pattern: &str) -> (r: Result<Regex, regex::Error>)
    ensures
        r is Ok == compiles(pattern@),
        r matches Ok(re) ==> compiled_from(re, pattern@),
{
    Regex::new(pattern)
}

/// `regex::Regex::is_match`. For an expression built from a pattern, the
/// answer depends on that pattern and on the text alone.
#[verifier::external_body]
pub(crate) fn is_match(re: &Regex, text: &str) -> (b: bool)
    ensures
        forall|pattern: Seq<char>| #[trigger]
            compiled_from(*re, pattern) ==> b == matches_somewhere(pattern, text@),
{
    re.is_match(text)
}

/// `regex::Regex::replace_all`, for the expression built from
/// `[^a-zA-Z0-9]` and a replacement of one character other than `$`. That
/// expression matches every single character that is no ASCII letter or
/// digit, and nothing else, and a replacement without `$` stands for itself.
/// So every such character is replaced by the replacement, and every other
/// character stays.
#[verifier::external_body]
pub(crate) fn replace_all(re: &Regex, text: &str, replacement: &str) -> (r: String)
    requires
        compiled_from(*re, NON_ALPHANUMERIC@),
        replacement@.len() == 1,
        replacement@[0] != '$',
    ensures
        r@ == with_others_replaced(text@, replacement@[0]),
{
    re.replace_all(text, replacement).into_owned()
}

} // verus!
