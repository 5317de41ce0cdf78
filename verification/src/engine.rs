//! The boundary to the `regex` crate: its types, the names of what its
//! functions return, and one wrapper per function that the library calls.
//! Nothing in this file is proved; every contract here is taken from the
//! documentation and source of `regex`.

use vstd::prelude::*;
use regex::Regex;

verus! {

/// `regex::Regex`, a compiled regular expression. The verifier sees nothing
/// inside it; what the library knows of one it knows through `compiled_from`.
#[verifier::external_type_specification]
#[verifier::external_body]
pub struct ExRegex(regex::Regex);

/// `regex::Error`, the error of a pattern that does not compile. It is
/// carried to where it is turned into a failure of the library.
#[verifier::external_type_specification]
#[verifier::external_body]
pub struct ExRegexError(regex::Error);

/// The pattern text that `Regex::new` built `re` from, which is also what
/// `Regex::as_str` returns for it. `None` for a regex that was configured
/// in any other way (through `RegexBuilder` with options of its own): such a
/// regex does not behave as its pattern text alone says.
pub uninterp spec fn compiled_from(re: Regex) -> Option<Seq<char>>;

/// Whether `Regex::new` accepts `pattern`: it is valid syntax and its
/// compiled program stays within the default size limit. For one build of
/// the `regex` crate this depends on the pattern alone.
pub uninterp spec fn pattern_compiles(pattern: Seq<char>) -> bool;

/// Whether the regex that `Regex::new(pattern)` builds has a match anywhere
/// in `text`, as `Regex::is_match` reports it.
pub uninterp spec fn pattern_matches(pattern: Seq<char>, text: Seq<char>) -> bool;

/// What `Regex::replace_all` returns for the regex that `Regex::new(pattern)`
/// builds, the haystack `text` and the replacement string `template`: `text`
/// with every non-overlapping match replaced by the expansion of `template`.
pub uninterp spec fn replacement_text(
    pattern: Seq<char>,
    text: Seq<char>,
    template: Seq<char>,
) -> Seq<char>;

/// The text that `Display` prints for a `regex::Error`.
pub uninterp spec fn error_text(error: regex::Error) -> Seq<char>;

/// The report on a pattern that `Regex::new` does not accept: the text of
/// the error that it returns for `pattern`.
pub uninterp spec fn compile_report(pattern: Seq<char>) -> Seq<char>;

/// The capture groups of the regex that `Regex::new(pattern)` builds, as
/// `Regex::capture_names` walks them: one entry for each group in the order
/// of the group index, with the name of the group where it has one. The
/// entry at index 0 stands for the whole match.
pub uninterp spec fn pattern_groups(pattern: Seq<char>) -> Seq<Option<Seq<char>>>;

/// The names of a list of groups as plain texts.
pub open spec fn group_names(groups: Seq<Option<String>>) -> Seq<Option<Seq<char>>> {
    Seq::new(
        groups.len(),
        |i: int|
            match groups[i] {
                Some(name) => Some(name@),
                None => None,
            },
    )
}

/// `Regex::new`. Claims that it succeeds exactly on the patterns that
/// `pattern_compiles` names, that the regex it returns was built from
/// `pattern` with the default options, and that the error it returns
/// depends on the pattern alone.
#[verifier::external_body]
pub(crate) fn regex_new(pattern: &str) -> (res: Result<Regex, regex::Error>)
    ensures
        res is Ok <==> pattern_compiles(pattern@),
        res matches Ok(re) ==> compiled_from(re) == Some(pattern@),
        res matches Err(error) ==> error_text(error) == compile_report(pattern@),
{
    Regex::new(pattern)
}

/// `Display` for `regex::Error`, through `to_string`.
#[verifier::external_body]
pub(crate) fn regex_error_text(error: &regex::Error) -> (message: String)
    ensures
        message@ == error_text(*error),
{
    error.to_string()
}

/// `Regex::capture_names`, with each name copied into a `String`. Claims
/// that, for a regex built by `Regex::new`, the groups depend on the
/// pattern alone.
#[verifier::external_body]
pub(crate) fn regex_capture_names(re: &Regex) -> (groups: Vec<Option<String>>)
    requires
        compiled_from(*re) is Some,
    ensures
        group_names(groups@) == pattern_groups(compiled_from(*re)->0),
{
    re.capture_names().map(|name| name.map(|text| text.to_owned())).collect()
}

/// `Regex::as_str`. Claims that it returns the pattern text that the regex
/// was built from.
#[verifier::external_body]
pub(crate) fn regex_as_str(re: &Regex) -> (pattern: &str)
    requires
        compiled_from(*re) is Some,
    ensures
        Some(pattern@) == compiled_from(*re),
{
    re.as_str()
}

/// `Regex::is_match`. Claims that, for a regex built by `Regex::new`, the
/// answer depends on the pattern and the haystack alone.
#[verifier::external_body]
pub(crate) fn regex_is_match(re: &Regex, text: &str) -> (found: bool)
    requires
        compiled_from(*re) is Some,
    ensures
        found == pattern_matches(compiled_from(*re)->0, text@),
{
    re.is_match(text)
}

/// `Regex::replace_all` with a string as the replacement. Claims that, for a
/// regex built by `Regex::new`, the result depends on the pattern, the
/// haystack and the replacement string alone, and that a haystack without a
/// match comes back unchanged.
#[verifier::external_body]
pub(crate) fn regex_replace_all(re: &Regex, text: &str, template: &str) -> (out: String)
    requires
        compiled_from(*re) is Some,
    ensures
        out@ == if pattern_matches(compiled_from(*re)->0, text@) {
            replacement_text(compiled_from(*re)->0, text@, template@)
        } else {
            text@
        },
{
    re.replace_all(text, template).into_owned()
}

} // verus!
