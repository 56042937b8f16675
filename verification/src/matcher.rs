//! The compiled matcher: building it from a configuration, and asking it
//! whether a message contains a forbidden term.

use crate::normalize::{normal_form, normalize};
use crate::pattern::{build_pattern, pattern_text, term_texts};
use crate::substitution::SubstitutionTable;
use vstd::prelude::*;

verus! {

/// `regex::Regex`, a compiled regular expression. Nothing inside it is
/// visible here.
#[verifier::external_type_specification]
#[verifier::external_body]
pub struct ExRegex(regex::Regex);

/// `regex::Error`, what the regex engine returns for a pattern that it does
/// not compile. Nothing inside it is visible here.
#[verifier::external_type_specification]
#[verifier::external_body]
pub struct ExRegexError(regex::Error);

/// Why a configuration could not be turned into a matcher.
#[derive(Debug, PartialEq, Eq)]
pub enum FilterError {
    /// The list of forbidden terms is empty.
    EmptyTermList,
    /// The term at this position of the list is the empty string.
    EmptyTerm { index: usize },
    /// The regex engine did not accept the pattern; `message` is its own
    /// account of why.
    PatternCompilation { message: String },
}

/// A pattern together with the regex compiled from it. Once built it is never
/// changed, and can be shared between any number of readers.
#[derive(Debug)]
pub struct Matcher {
    source: String,
    engine: regex::Regex,
}

impl View for Matcher {
    type V = Seq<char>;

    /// The text of the pattern that the matcher was compiled from.
    closed spec fn view(&self) -> Seq<char> {
        self.source@
    }
}

/// Whether the regex compiled from `pattern` finds a match somewhere in
/// `haystack`.
pub uninterp spec fn regex_finds(pattern: Seq<char>, haystack: Seq<char>) -> bool;

/// Whether a matcher for `pattern` flags `text`: whether the regex finds a
/// match in the normal form of `text`.
pub open spec fn flagged(pattern: Seq<char>, text: Seq<char>) -> bool {
    regex_finds(pattern, normal_form(text))
}

/// Whether a list of terms can be compiled: it has a term, and no term is
/// empty.
pub open spec fn usable_terms(terms: Seq<Seq<char>>) -> bool {
    &&& terms.len() > 0
    &&& forall|i: int| 0 <= i < terms.len() ==> (#[trigger] terms[i]).len() > 0
}

/// Whether `index` is the position of the first empty term of `terms`.
pub open spec fn is_first_empty_term(terms: Seq<Seq<char>>, index: int) -> bool {
    &&& 0 <= index < terms.len()
    &&& terms[index].len() == 0
    &&& forall|j: int| 0 <= j < index ==> (#[trigger] terms[j]).len() > 0
}

/// Compiles `pattern` with `regex::Regex::new` and keeps the compiled regex
/// beside the text it came from. This is the only place where a matcher is
/// made, so the regex of every matcher is the one compiled from its source.
///
/// Not proved: that a matcher that comes back holds `pattern` as its source.
/// Nothing is said of when the regex engine accepts a pattern: that is up to
/// its syntax and to its size limit, which counts the bytes that the compiled
/// form takes on the machine at hand.
#[verifier::external_body]
fn compile(pattern: String) -> (compiled: Result<Matcher, regex::Error>)
    ensures
        compiled matches Ok(matcher) ==> matcher@ == pattern@,
{
    match regex::Regex::new(&pattern) {
        Ok(engine) => Ok(Matcher { source: pattern, engine }),
        Err(error) => Err(error),
    }
}

/// Asks `regex::Regex::is_match` whether the compiled regex of `matcher`
/// matches anywhere in `haystack`.
///
/// Not proved: that the answer depends on nothing but the pattern that the
/// regex was compiled from and the haystack. What the answer is for a given
/// pattern and haystack is not stated: it only has a name.
#[verifier::external_body]
fn engine_is_match(matcher: &Matcher, haystack: &str) -> (found: bool)
    ensures
        found == regex_finds(matcher@, haystack@),
{
    matcher.engine.is_match(haystack)
}

/// The text that `regex::Error` displays for `error`, of which nothing is
/// claimed.
#[verifier::external_body]
fn describe(error: &regex::Error) -> (message: String) {
    error.to_string()
}

/// Turns what the regex engine made of a pattern into the filter's own result:
/// the matcher if there is one, and otherwise a compilation error that carries
/// the engine's message.
pub fn accept_compiled(compiled: Result<Matcher, regex::Error>) -> (built: Result<
    Matcher,
    FilterError,
>)
    ensures
        match compiled {
            Ok(matcher) => built == Ok::<Matcher, FilterError>(matcher),
            Err(_) => built matches Err(FilterError::PatternCompilation { .. }),
        },
{
    match compiled {
        Ok(matcher) => Ok(matcher),
        Err(error) => Err(FilterError::PatternCompilation { message: describe(&error) }),
    }
}

/// The position of the first empty term of `terms`, if there is one.
fn first_empty_term(terms: &[&str]) -> (found: Option<usize>)
    ensures
        match found {
            Some(index) => is_first_empty_term(term_texts(terms@), index as int),
            None => forall|j: int|
                0 <= j < terms@.len() ==> (#[trigger] term_texts(terms@)[j]).len() > 0,
        },
{
    let mut i: usize = 0;
    while i < terms.len()
        invariant
            i <= terms.len(),
            forall|j: int| 0 <= j < i ==> (#[trigger] term_texts(terms@)[j]).len() > 0,
        decreases terms.len() - i,
    {
        if terms[i].is_empty() {
            return Some(i);
        }
        i += 1;
    }
    None
}

/// Compiles the forbidden `terms`, with the confusable characters of `table`,
/// into a matcher.
///
/// An empty list and an empty term are refused. Otherwise the pattern is
/// handed to the regex engine, and the matcher that comes back, if one does,
/// holds exactly that pattern.
pub fn build_matcher(terms: &[&str], table: &SubstitutionTable) -> (built: Result<
    Matcher,
    FilterError,
>)
    ensures
        match built {
            Ok(matcher) => {
                &&& usable_terms(term_texts(terms@))
                &&& matcher@ == pattern_text(term_texts(terms@), table@)
            },
            Err(FilterError::EmptyTermList) => terms@.len() == 0,
            Err(FilterError::EmptyTerm { index }) => is_first_empty_term(
                term_texts(terms@),
                index as int,
            ),
            Err(FilterError::PatternCompilation { .. }) => usable_terms(term_texts(terms@)),
        },
{
    if terms.len() == 0 {
        return Err(FilterError::EmptyTermList);
    }
    match first_empty_term(terms) {
        Some(index) => Err(FilterError::EmptyTerm { index }),
        None => accept_compiled(compile(build_pattern(terms, table))),
    }
}

/// Whether `text`, brought into normal form, contains a match of the
/// matcher's pattern anywhere.
pub fn matches(matcher: &Matcher, text: &str) -> (found: bool)
    ensures
        found == flagged(matcher@, text@),
{
    let normalized = normalize(text);
    engine_is_match(matcher, normalized.as_str())
}

impl Matcher {
    /// The text of the pattern that this matcher was compiled from.
    pub fn pattern(&self) -> (text: &str)
        ensures
            text@ == self@,
    {
        self.source.as_str()
    }
}

} // verus!
