//! Regular expressions, compiled and matched by the `regex` crate.

use vstd::prelude::*;
use vstd::string::*;
use crate::text::opt_str;

verus! {

/// `regex::Regex`, carried through as a value that is not looked into.
#[verifier::external_type_specification]
#[verifier::external_body]
pub struct ExRegex(regex::Regex);

/// `regex::Error`, the reason why a pattern did not compile.
#[verifier::external_type_specification]
#[verifier::external_body]
pub struct ExRegexError(regex::Error);

/// Whether `regex::Regex::new` accepts `pattern`.
pub uninterp spec fn regex_compiles(pattern: Seq<char>) -> bool;

/// The pattern that a compiled expression was made from: what
/// `regex::Regex::as_str` returns.
pub uninterp spec fn regex_source(re: regex::Regex) -> Seq<char>;

/// Whether the expression compiled from `pattern` matches anywhere in `text`:
/// what `regex::Regex::is_match` returns.
pub uninterp spec fn regex_matches(pattern: Seq<char>, text: Seq<char>) -> bool;

/// Calls `regex::Regex::new`. The contract names the patterns that compile and
/// records that the compiled expression keeps the pattern it was given.
#[verifier::external_body]
fn regex_new(pattern: &str) -> (r: Result<regex::Regex, regex::Error>)
    ensures
        r is Ok <==> regex_compiles(pattern@),
        r matches Ok(re) ==> regex_source(re) == pattern@,
{
    regex::Regex::new(pattern)
}

/// Calls `regex::Regex::is_match`. The contract names the result as a function
/// of the expression's pattern and the text.
#[verifier::external_body]
fn regex_is_match(re: &regex::Regex, text: &str) -> (b: bool)
    ensures
        b == regex_matches(regex_source(*re), text@),
{
    re.is_match(text)
}

/// A compiled pattern.
pub struct Pattern {
    re: regex::Regex,
}

impl Pattern {
    /// The text of the pattern.
    pub closed spec fn source(&self) -> Seq<char> {
        regex_source(self.re)
    }

    /// Whether the pattern matches anywhere in `text`.
    pub open spec fn accepts(&self, text: Seq<char>) -> bool {
        regex_matches(self.source(), text)
    }

    /// Compiles `pattern`; `None` when it is not a valid expression.
    pub fn compile(pattern: &str) -> (r: Option<Pattern>)
        ensures
            r is Some <==> regex_compiles(pattern@),
            r matches Some(p) ==> p.source() == pattern@,
    {
        match regex_new(pattern) {
            Ok(re) => Some(Pattern { re }),
            Err(_) => None,
        }
    }

    /// Whether the pattern matches anywhere in `text`.
    pub fn is_match(&self, text: &str) -> (b: bool)
        ensures
            b == self.accepts(text@),
    {
        regex_is_match(&self.re, text)
    }
}

/// A test on texts: every text passes, or those that a pattern matches.
pub enum Filter {
    /// Every text passes.
    Any,
    /// The texts that the pattern matches pass.
    Matching(Pattern),
}

/// The mathematical value of a `Filter`.
pub enum FilterView {
    Any,
    Matching(Seq<char>),
}

impl FilterView {
    /// Whether `text` passes.
    pub open spec fn accepts(self, text: Seq<char>) -> bool {
        match self {
            FilterView::Any => true,
            FilterView::Matching(p) => regex_matches(p, text),
        }
    }
}

/// Whether a pattern was given that is no valid expression.
pub open spec fn is_broken(pattern: Option<Seq<char>>) -> bool {
    pattern matches Some(p) && !regex_compiles(p)
}

/// The filter that a pattern stands for. Without a pattern every text
/// passes, as with the pattern `.*`; a pattern that is no valid expression
/// counts as none.
pub open spec fn filter_of(pattern: Option<Seq<char>>) -> FilterView {
    match pattern {
        Some(p) => if regex_compiles(p) {
            FilterView::Matching(p)
        } else {
            FilterView::Any
        },
        None => FilterView::Any,
    }
}

impl View for Filter {
    type V = FilterView;

    open spec fn view(&self) -> FilterView {
        match self {
            Filter::Any => FilterView::Any,
            Filter::Matching(p) => FilterView::Matching(p.source()),
        }
    }
}

impl Filter {
    /// The filter that `pattern` stands for, and whether the pattern was
    /// given but is no valid expression.
    pub fn new(pattern: Option<&str>) -> (r: (Filter, bool))
        ensures
            r.0@ == filter_of(opt_str(pattern)),
            r.1 == is_broken(opt_str(pattern)),
    {
        match pattern {
            Some(p) => match Pattern::compile(p) {
                Some(compiled) => (Filter::Matching(compiled), false),
                None => (Filter::Any, true),
            },
            None => (Filter::Any, false),
        }
    }

    /// Whether `text` passes.
    pub fn accepts(&self, text: &str) -> (b: bool)
        ensures
            b == self@.accepts(text@),
    {
        match self {
            Filter::Any => true,
            Filter::Matching(p) => p.is_match(text),
        }
    }
}

} // verus!
