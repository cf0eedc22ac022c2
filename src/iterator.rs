use crate::errors::{FormatError, InputError, SourceError};
use crate::formatter::{fill, render, views, Formatter};
use crate::naming::{decimal, decimal_string, extension_of, finish_name, with_extension};
use crate::natural::{sort_names, sorted_by};
use crate::source::{captures_of, clamped_depth, effective_depth, Pattern, SortOrder, Source};
use vstd::prelude::*;

verus! {

pub open spec fn pair_text(p: (String, String)) -> (Seq<char>, Seq<char>) {
    (p.0@, p.1@)
}

pub open spec fn pairs_text(s: Seq<(String, String)>) -> Seq<(Seq<char>, Seq<char>)> {
    s.map_values(|p: (String, String)| pair_text(p))
}

/// The name made for `input`: the rendered template, with the extension of `input`
/// kept when asked.
pub open spec fn made_name(template: Seq<char>, vars: Seq<Seq<char>>, input: Seq<char>, preserve_extension: bool) -> Seq<char> {
    with_extension(
        render(template, vars),
        if preserve_extension {
            extension_of(input)
        } else {
            None
        },
    )
}

/// `out` is what a sort source gives for a directory holding `entries`: every entry once,
/// in the natural order, the i-th (from 1) renamed by the template from its name and `i`.
pub open spec fn sorted_listing(
    entries: Seq<Seq<char>>,
    order: SortOrder,
    template: Seq<char>,
    preserve_extension: bool,
    out: Seq<(Seq<char>, Seq<char>)>,
) -> bool {
    let names = out.map_values(|p: (Seq<char>, Seq<char>)| p.0);
    &&& out.len() == entries.len()
    &&& names.to_multiset() == entries.to_multiset()
    &&& sorted_by(names, order)
    &&& forall|i: int|
        0 <= i < out.len() ==> (#[trigger] out[i]).1 == made_name(
            template,
            seq![names[i], decimal((i + 1) as nat)],
            names[i],
            preserve_extension,
        )
}

pub open spec fn is_empty_formatter(r: Result<InputIterator, InputError>) -> bool {
    match r {
        Err(InputError::Format(FormatError::EmptyFormatter)) => true,
        _ => false,
    }
}

pub open spec fn is_source_error(r: Result<InputIterator, InputError>) -> bool {
    match r {
        Err(InputError::Source(e)) => e.message@ == "unknown source"@,
        _ => false,
    }
}

/// A single-pass sequence of (input, new name) pairs.
pub enum InputIterator {
    /// Pairs worked out in advance, and the position of the next one.
    VectorIterator { pairs: Vec<(String, String)>, pos: usize },
    /// Paths met by a walk at one depth are matched against a pattern as they come.
    DirectoryIterator { formatter: Formatter, re: Pattern, preserve_extension: bool, depth: usize },
}

impl InputIterator {
    /// The pairs that are still to come from a precomputed list.
    pub open spec fn remaining(&self) -> Seq<(Seq<char>, Seq<char>)> {
        match self {
            InputIterator::VectorIterator { pairs, pos } => if *pos <= pairs@.len() {
                pairs_text(pairs@.subrange(*pos as int, pairs@.len() as int))
            } else {
                Seq::empty()
            },
            InputIterator::DirectoryIterator { .. } => Seq::empty(),
        }
    }

    /// Builds the iterator for `source`. A sort source ranks `entries`, the names of the
    /// entries of the current directory in the order they were read; other sources ignore them.
    pub fn new(source: Source, formatter: Option<Formatter>, preserve_extension: bool, entries: &Vec<String>) -> (r:
        Result<InputIterator, InputError>)
        ensures
            source is Mapping ==> r is Ok && r->Ok_0 is VectorIterator && r->Ok_0.remaining()
                == pairs_text(source->Mapping_0@),
            !(source is Mapping) && formatter is None ==> is_empty_formatter(r),
            source is Sort && formatter is Some ==> r is Ok && r->Ok_0 is VectorIterator
                && sorted_listing(
                views(entries@),
                source->Sort_0,
                formatter->Some_0@,
                preserve_extension,
                r->Ok_0.remaining(),
            ),
            source is Regex && formatter is Some ==> r is Ok && (match r->Ok_0 {
                InputIterator::DirectoryIterator { formatter: f, re, preserve_extension: p, depth } => f@
                    == formatter->Some_0@ && re@ == source->Regex_0@ && p == preserve_extension
                    && depth as nat == clamped_depth(
                    source->Regex_1 as nat,
                    match source->Regex_2 {
                        Some(m) => Some(m as nat),
                        None => None,
                    },
                ),
                _ => false,
            }),
            source is Unknown && formatter is Some ==> is_source_error(r),
    {
        let formatter = match source {
            Source::Mapping(pairs) => {
                proof {
                    assert(pairs@.subrange(0, pairs@.len() as int) =~= pairs@);
                }
                return Ok(InputIterator::VectorIterator { pairs, pos: 0 });
            },
            _ => match formatter {
                Some(f) => f,
                None => {
                    return Err(InputError::Format(FormatError::EmptyFormatter));
                },
            },
        };
        match source {
            Source::Sort(order) => {
                let pairs = Self::sorted_pairs(entries, order, &formatter, preserve_extension);
                proof {
                    assert(pairs@.subrange(0, pairs@.len() as int) =~= pairs@);
                }
                Ok(InputIterator::VectorIterator { pairs, pos: 0 })
            },
            Source::Regex(re, depth, max_depth) => {
                let depth = effective_depth(depth, max_depth);
                Ok(InputIterator::DirectoryIterator { formatter, re, preserve_extension, depth })
            },
            _ => {
                let message = "unknown source";
                Err(InputError::Source(SourceError::new(message.to_string())))
            },
        }
    }

    fn sorted_pairs(entries: &Vec<String>, order: SortOrder, formatter: &Formatter, preserve_extension: bool) -> (r:
        Vec<(String, String)>)
        ensures
            sorted_listing(views(entries@), order, formatter@, preserve_extension, pairs_text(r@)),
    {
        let names = sort_names(entries, order);
        let mut pairs: Vec<(String, String)> = Vec::new();
        let mut i: usize = 0;
        while i < names.len()
            invariant
                names@.len() == entries@.len(),
                i <= names@.len(),
                pairs@.len() == i,
                forall|j: int|
                    0 <= j < i ==> (#[trigger] pairs@[j]).0@ == names@[j]@ && pairs@[j].1@ == made_name(
                        formatter@,
                        seq![names@[j]@, decimal((j + 1) as nat)],
                        names@[j]@,
                        preserve_extension,
                    ),
            decreases names@.len() - i,
        {
            let input = names[i].clone();
            let index = decimal_string(i + 1);
            let vars = vec![input.clone(), index];
            proof {
                assert(views(vars@) =~= seq![names@[i as int]@, decimal((i + 1) as nat)]);
            }
            let rendered = formatter.format(vars.as_slice());
            let output = finish_name(rendered, input.as_str(), preserve_extension);
            pairs.push((input, output));
            i = i + 1;
        }
        proof {
            let out = pairs_text(pairs@);
            let ns = out.map_values(|p: (Seq<char>, Seq<char>)| p.0);
            assert(ns =~= views(names@));
        }
        pairs
    }

    /// The next precomputed pair. A directory iterator holds none: its pairs come from
    /// `candidate`, one walked path at a time.
    pub fn next(&mut self) -> (r: Option<(String, String)>)
        ensures
            old(self).remaining().len() == 0 ==> r is None && final(self).remaining().len() == 0,
            old(self).remaining().len() > 0 ==> r is Some && pair_text(r->0) == old(self).remaining()[0]
                && final(self).remaining() == old(self).remaining().drop_first(),
            r is None ==> final(self).remaining().len() == 0,
            (*old(self)) is DirectoryIterator ==> *final(self) == *old(self),
            (*old(self)) is VectorIterator ==> (*final(self)) is VectorIterator,
    {
        match self {
            InputIterator::VectorIterator { pairs, pos } => {
                if *pos < pairs.len() {
                    let ghost rest = pairs@.subrange(*pos as int, pairs@.len() as int);
                    let item = (pairs[*pos].0.clone(), pairs[*pos].1.clone());
                    *pos = *pos + 1;
                    proof {
                        assert(pairs@.subrange(*pos as int, pairs@.len() as int) =~= rest.drop_first());
                        assert(pairs_text(rest.drop_first()) =~= pairs_text(rest).drop_first());
                    }
                    Some(item)
                } else {
                    None
                }
            },
            InputIterator::DirectoryIterator { .. } => None,
        }
    }

    /// The depth that a directory iterator walks, or `None` for a precomputed list.
    pub fn walk_depth(&self) -> (r: Option<usize>)
        ensures
            match self {
                InputIterator::DirectoryIterator { depth, .. } => r == Some(*depth),
                _ => r is None,
            },
    {
        match self {
            InputIterator::DirectoryIterator { depth, .. } => Some(*depth),
            _ => None,
        }
    }

    /// The pair for one path met by the walk, relative to its root, or `None` where the
    /// pattern does not match it (and always for a precomputed list).
    pub fn candidate(&self, path: &str) -> (r: Option<(String, String)>)
        ensures
            match self {
                InputIterator::DirectoryIterator { formatter, re, preserve_extension, .. } => match captures_of(
                    re@,
                    path@,
                ) {
                    Some(groups) => r is Some && pair_text(r->0) == (
                        path@,
                        made_name(formatter@, fill(groups), path@, *preserve_extension),
                    ),
                    None => r is None,
                },
                _ => r is None,
            },
    {
        match self {
            InputIterator::DirectoryIterator { formatter, re, preserve_extension, .. } => {
                match re.captures(path) {
                    Some(groups) => {
                        let rendered = formatter.format_groups(&groups);
                        let output = finish_name(rendered, path, *preserve_extension);
                        Some((path.to_string(), output))
                    },
                    None => None,
                }
            },
            _ => None,
        }
    }
}

} // verus!
