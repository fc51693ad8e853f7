//! Selecting the walked entries whose full path matches a regular expression.
use vstd::prelude::*;
use regex::Regex;
use crate::error::FerryError;
use crate::string_views;

verus! {

#[verifier::external_type_specification]
#[verifier::external_body]
pub struct ExRegex(regex::Regex);

#[verifier::external_type_specification]
#[verifier::external_body]
pub struct ExRegexError(regex::Error);

/// Whether the regex crate compiles `pattern`.
pub uninterp spec fn pattern_compiles(pattern: Seq<char>) -> bool;

/// Whether the regex compiled from `pattern` matches somewhere in `text`.
pub uninterp spec fn pattern_matches(pattern: Seq<char>, text: Seq<char>) -> bool;

/// Relies on `regex::Regex::new`: it returns a regex exactly when the
/// pattern compiles.
#[verifier::external_body]
fn compile_regex(pattern: &str) -> (r: Result<Regex, regex::Error>)
    ensures
        r is Ok <==> pattern_compiles(pattern@),
{
    Regex::new(pattern)
}

/// Relies on the `Display` impl of `regex::Error` for a readable message.
#[verifier::external_body]
fn regex_error_message(e: &regex::Error) -> String {
    e.to_string()
}

/// A compiled regular expression, with the pattern it was compiled from.
#[derive(Debug)]
pub struct PathMatcher {
    regex: Regex,
    pattern: String,
}

impl PathMatcher {
    /// The pattern that the regex was compiled from.
    pub closed spec fn pattern(&self) -> Seq<char> {
        self.pattern@
    }

    /// Compiles `pattern`; a pattern that does not compile is refused.
    pub fn new(pattern: &str) -> (r: Result<PathMatcher, FerryError>)
        ensures
            r is Ok <==> pattern_compiles(pattern@),
            r matches Ok(m) ==> m.pattern() == pattern@,
            r matches Err(e) ==> e is InvalidPattern,
    {
        match compile_regex(pattern) {
            Ok(regex) => Ok(PathMatcher { regex, pattern: pattern.to_owned() }),
            Err(e) => Err(FerryError::InvalidPattern { message: regex_error_message(&e) }),
        }
    }

    /// Relies on `regex::Regex::is_match` on the regex that `new` compiled
    /// from `self.pattern`: whether it matches anywhere in `text`.
    #[verifier::external_body]
    fn is_match(&self, text: &str) -> (r: bool)
        ensures
            r == pattern_matches(self.pattern(), text@),
    {
        self.regex.is_match(text)
    }
}

/// The entries among the first `n` whose mark is set, in order.
pub open spec fn marked_among(entries: Seq<Seq<char>>, marks: Seq<bool>, n: nat) -> Seq<
    Seq<char>,
>
    decreases n,
{
    if n == 0 {
        Seq::empty()
    } else {
        let before = marked_among(entries, marks, (n - 1) as nat);
        if marks[n - 1] {
            before.push(entries[n - 1])
        } else {
            before
        }
    }
}

/// The entries whose full path matches `pattern`, in walk order.
pub open spec fn matching_entries(pattern: Seq<char>, entries: Seq<Seq<char>>) -> Seq<Seq<char>> {
    marked_among(
        entries,
        Seq::new(entries.len(), |i: int| pattern_matches(pattern, entries[i])),
        entries.len(),
    )
}

/// Keeps the entries whose mark is set, in order.
pub fn keep_marked(entries: &Vec<String>, marks: &Vec<bool>) -> (r: Vec<String>)
    requires
        marks.len() == entries.len(),
    ensures
        string_views(r@) == marked_among(string_views(entries@), marks@, entries.len() as nat),
{
    let mut r: Vec<String> = Vec::new();
    let mut i: usize = 0;
    while i < entries.len()
        invariant
            marks.len() == entries.len(),
            i <= entries.len(),
            string_views(r@) == marked_among(string_views(entries@), marks@, i as nat),
        decreases entries.len() - i,
    {
        if marks[i] {
            r.push(entries[i].clone());
        }
        proof {
            assert(string_views(r@) =~= marked_among(
                string_views(entries@),
                marks@,
                (i + 1) as nat,
            ));
        }
        i += 1;
    }
    r
}

/// The walked entries whose full path (not only the final component)
/// matches the regular expression, in walk order.
pub fn run_regex_selection(matcher: &PathMatcher, entries: &Vec<String>) -> (r: Vec<String>)
    ensures
        string_views(r@) == matching_entries(matcher.pattern(), string_views(entries@)),
{
    let mut marks: Vec<bool> = Vec::new();
    let mut i: usize = 0;
    while i < entries.len()
        invariant
            i <= entries.len(),
            marks.len() == i,
            forall|k: int|
                0 <= k < i ==> marks@[k] == pattern_matches(matcher.pattern(), entries@[k]@),
        decreases entries.len() - i,
    {
        marks.push(matcher.is_match(entries[i].as_str()));
        i += 1;
    }
    let ghost vs = string_views(entries@);
    assert(marks@ =~= Seq::new(vs.len(), |k: int| pattern_matches(matcher.pattern(), vs[k])));
    keep_marked(entries, &marks)
}

} // verus!
