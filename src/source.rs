use crate::errors::SourceError;
use crate::formatter::groups_text;
use vstd::prelude::*;

verus! {

#[verifier::external_type_specification]
#[verifier::external_body]
pub struct ExRegex(regex::Regex);

#[verifier::external_type_specification]
#[verifier::external_body]
pub struct ExRegexError(regex::Error);

/// Whether the regex crate accepts a pattern.
pub uninterp spec fn compiles(pattern: Seq<char>) -> bool;

/// The capture groups of the first match of `pattern` in `text`, group 0 being the
/// whole match and `None` standing for a group that took no part in it.
pub uninterp spec fn captures_of(pattern: Seq<char>, text: Seq<char>) -> Option<Seq<Option<Seq<char>>>>;

/// Relies on regex::Regex::new: whether the pattern compiles depends on the pattern alone.
#[verifier::external_body]
fn compile_regex(pattern: &str) -> (r: Result<regex::Regex, regex::Error>)
    ensures
        r is Ok == compiles(pattern@),
{
    regex::Regex::new(pattern)
}

/// A compiled regular expression together with the pattern it was compiled from.
pub struct Pattern {
    re: regex::Regex,
    text: String,
}

impl View for Pattern {
    type V = Seq<char>;

    closed spec fn view(&self) -> Seq<char> {
        self.text@
    }
}

/// Relies on regex::Regex::captures and Captures::iter: the groups of the first match, in
/// order, each as the text it matched. `re` was compiled from `text` by `Pattern::new`.
#[verifier::external_body]
fn regex_captures(pattern: &Pattern, text: &str) -> (r: Option<Vec<Option<String>>>)
    ensures
        r is Some == captures_of(pattern@, text@) is Some,
        r is Some ==> groups_text(r->0@) == captures_of(pattern@, text@)->0,
{
    pattern.re.captures(text).map(|c| c.iter().map(|g| g.map(|m| m.as_str().to_string())).collect())
}

impl Pattern {
    /// Compiles a pattern; one that the regex crate refuses gives a `SourceError`.
    pub fn new(pattern: &str) -> (r: Result<Pattern, SourceError>)
        ensures
            r is Ok == compiles(pattern@),
            r is Ok ==> r->Ok_0@ == pattern@,
            r is Err ==> r->Err_0.message@ == "invalid pattern"@,
    {
        match compile_regex(pattern) {
            Ok(re) => Ok(Pattern { re, text: pattern.to_string() }),
            Err(_) => {
                let message = "invalid pattern";
                Err(SourceError::new(message.to_string()))
            },
        }
    }

    pub fn as_str(&self) -> (r: &str)
        ensures
            r@ == self@,
    {
        self.text.as_str()
    }

    /// The capture groups of the first match in `text`, or `None` where nothing matches.
    pub fn captures(&self, text: &str) -> (r: Option<Vec<Option<String>>>)
        ensures
            r is Some == captures_of(self@, text@) is Some,
            r is Some ==> groups_text(r->0@) == captures_of(self@, text@)->0,
    {
        regex_captures(self, text)
    }
}

/// The direction of a natural-order sort.
#[derive(Clone, Copy, Debug, PartialEq, Eq, Structural)]
pub enum SortOrder {
    Asc,
    Desc,
}

pub open spec fn clamped_depth(depth: nat, max_depth: Option<nat>) -> nat {
    match max_depth {
        Some(m) => if m < depth {
            m
        } else {
            depth
        },
        None => depth,
    }
}

/// The depth that a walk visits: `depth`, but never beyond `max_depth` when one is given.
pub fn effective_depth(depth: usize, max_depth: Option<usize>) -> (r: usize)
    ensures
        r as nat == clamped_depth(
            depth as nat,
            match max_depth {
                Some(m) => Some(m as nat),
                None => None,
            },
        ),
{
    match max_depth {
        Some(m) => if m < depth {
            m
        } else {
            depth
        },
        None => depth,
    }
}

/// Where candidate names come from.
pub enum Source {
    /// Pairs of (input name, output name), taken as they are, in this order.
    Mapping(Vec<(String, String)>),
    /// The entries of the current directory, sorted in the natural order.
    Sort(SortOrder),
    /// The paths at one depth below the current directory that a pattern matches:
    /// the pattern, the depth, and the greatest depth allowed.
    Regex(Pattern, usize, Option<usize>),
    /// A source of no known kind.
    Unknown,
}

impl Default for Source {
    fn default() -> (r: Source)
        ensures
            r is Unknown,
    {
        Source::Unknown
    }
}

impl Source {
    pub fn map(pairs: Vec<(String, String)>) -> (r: Source)
        ensures
            r == Source::Mapping(pairs),
    {
        Source::Mapping(pairs)
    }

    pub fn sort(order: SortOrder) -> (r: Source)
        ensures
            r == Source::Sort(order),
    {
        Source::Sort(order)
    }

    /// A regex source; a pattern that does not compile gives a `SourceError`.
    pub fn regex(pattern: &str, depth: usize, max_depth: Option<usize>) -> (r: Result<Source, SourceError>)
        ensures
            r is Ok == compiles(pattern@),
            r is Ok ==> (match r->Ok_0 {
                Source::Regex(p, d, m) => p@ == pattern@ && d == depth && m == max_depth,
                _ => false,
            }),
            r is Err ==> r->Err_0.message@ == "invalid pattern"@,
    {
        match Pattern::new(pattern) {
            Ok(p) => Ok(Source::Regex(p, depth, max_depth)),
            Err(e) => Err(e),
        }
    }

    /// The single depth that a regex source walks, or `None` for other sources.
    pub fn walk_depth(&self) -> (r: Option<usize>)
        ensures
            match self {
                Source::Regex(_, d, m) => r is Some && r->0 as nat == clamped_depth(
                    *d as nat,
                    match *m {
                        Some(x) => Some(x as nat),
                        None => None,
                    },
                ),
                _ => r is None,
            },
    {
        match self {
            Source::Regex(_, d, m) => Some(effective_depth(*d, *m)),
            _ => None,
        }
    }
}

} // verus!
