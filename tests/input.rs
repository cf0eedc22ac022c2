use renamer::formatter::Formatter;
use renamer::iterator::InputIterator;
use renamer::naming::{add_extension, decimal_string, extension, finish_name};
use renamer::natural::{compare, sort_names};
use renamer::source::{effective_depth, Pattern, SortOrder, Source};
use renamer::{FormatError, InputError};
use std::cmp::Ordering;

fn strings(names: &[&str]) -> Vec<String> {
    names.iter().map(|s| s.to_string()).collect()
}

fn drain(it: &mut InputIterator) -> Vec<(String, String)> {
    let mut out = Vec::new();
    while let Some(p) = it.next() {
        out.push(p);
    }
    out
}

fn pair(a: &str, b: &str) -> (String, String) {
    (a.to_string(), b.to_string())
}

#[test]
fn map_source_yields_pairs_unchanged_in_order() {
    let pairs = vec![pair("z.txt", "one"), pair("a.txt", "two"), pair("m", "")];
    let mut it = InputIterator::new(Source::map(pairs.clone()), None, true, &Vec::new()).unwrap();
    assert_eq!(drain(&mut it), pairs);
}

#[test]
fn empty_map_source_yields_nothing() {
    let mut it = InputIterator::new(Source::map(Vec::new()), None, false, &Vec::new()).unwrap();
    assert_eq!(it.next(), None);
}

#[test]
fn sort_source_yields_one_numbered_pair_per_entry() {
    let f = Formatter::new("{0}-{1}").unwrap();
    let entries = strings(&["x10", "x9", "x1", "y"]);
    let mut it = InputIterator::new(Source::sort(SortOrder::Asc), Some(f), false, &entries).unwrap();
    assert_eq!(
        drain(&mut it),
        vec![pair("x1", "x1-1"), pair("x9", "x9-2"), pair("x10", "x10-3"), pair("y", "y-4")]
    );
}

#[test]
fn sort_source_descending() {
    let f = Formatter::new("n{1}").unwrap();
    let entries = strings(&["a1", "a10", "a2"]);
    let mut it = InputIterator::new(Source::sort(SortOrder::Desc), Some(f), false, &entries).unwrap();
    assert_eq!(drain(&mut it), vec![pair("a10", "n1"), pair("a2", "n2"), pair("a1", "n3")]);
}

#[test]
fn natural_order_ranks_digit_runs_by_value() {
    let sorted = sort_names(&strings(&["a2", "a10", "a1"]), SortOrder::Asc);
    assert_eq!(sorted, strings(&["a1", "a2", "a10"]));
    assert_eq!(compare("file2", "file10", SortOrder::Asc), Ordering::Less);
    assert_eq!(compare("file2", "file10", SortOrder::Desc), Ordering::Greater);
}

#[test]
fn sort_of_nothing_is_nothing() {
    assert_eq!(sort_names(&Vec::new(), SortOrder::Asc), Vec::<String>::new());
}

#[test]
fn regex_depth_is_clamped_to_max_depth() {
    assert_eq!(effective_depth(5, Some(3)), 3);
    assert_eq!(effective_depth(5, Some(3)), effective_depth(3, None));
    assert_eq!(effective_depth(2, Some(3)), 2);
    assert_eq!(effective_depth(0, None), 0);
    let clamped = Source::regex("x", 5, Some(3)).unwrap();
    let plain = Source::regex("x", 3, None).unwrap();
    assert_eq!(clamped.walk_depth(), Some(3));
    assert_eq!(clamped.walk_depth(), plain.walk_depth());
    let f = Formatter::new("{0}").unwrap();
    let it = InputIterator::new(clamped, Some(f), false, &Vec::new()).unwrap();
    assert_eq!(it.walk_depth(), Some(3));
}

#[test]
fn extension_keeps_only_last_segment() {
    assert_eq!(extension("report.final.csv"), Some("csv".to_string()));
    assert_eq!(extension("README"), None);
    assert_eq!(extension(".bashrc"), None);
    assert_eq!(finish_name("new".to_string(), "report.final.csv", true), "new.csv");
    assert_eq!(finish_name("new".to_string(), "report.final.csv", false), "new");
    assert_eq!(finish_name("new".to_string(), "README", true), "new");
    assert_eq!(add_extension("a".to_string(), Some("csv".to_string())), "a.csv");
    assert_eq!(add_extension("a".to_string(), None), "a");
}

#[test]
fn out_of_range_placeholder_renders_empty() {
    let f = Formatter::new("a{5}b{1}c").unwrap();
    assert_eq!(f.format(&strings(&["zero", "one"])), "abonec");
}

#[test]
fn placeholders_and_plain_braces() {
    let f = Formatter::new("{0}_{10}_{}_{x}_{1").unwrap();
    let vars = strings(&["v0", "v1", "v2", "v3", "v4", "v5", "v6", "v7", "v8", "v9", "v10"]);
    assert_eq!(f.format(&vars), "v0_v10_{}_{x}_{1");
    let huge = Formatter::new("<{99999999999999999999999}>").unwrap();
    assert_eq!(huge.format(&vars), "<>");
}

#[test]
fn format_groups_reads_missing_groups_as_empty() {
    let f = Formatter::new("{0}|{1}|{2}").unwrap();
    let groups = vec![Some("ab".to_string()), None, Some("b".to_string())];
    assert_eq!(f.format_groups(&groups), "ab||b");
}

#[test]
fn empty_template_is_refused() {
    assert!(matches!(Formatter::new(""), Err(FormatError::EmptyFormatter)));
    assert_eq!(Formatter::new("x").unwrap().template(), "x");
}

#[test]
fn sort_source_needs_a_formatter() {
    let r = InputIterator::new(Source::sort(SortOrder::Asc), None, false, &strings(&["a"]));
    assert!(matches!(r, Err(InputError::Format(FormatError::EmptyFormatter))));
    let r = InputIterator::new(Source::regex("a", 1, None).unwrap(), None, false, &Vec::new());
    assert!(matches!(r, Err(InputError::Format(FormatError::EmptyFormatter))));
    let r = InputIterator::new(Source::map(vec![pair("a", "b")]), None, false, &Vec::new());
    assert!(r.is_ok());
}

#[test]
fn default_source_is_refused() {
    let f = Formatter::new("{0}").unwrap();
    match InputIterator::new(Source::default(), Some(f), false, &Vec::new()) {
        Err(InputError::Source(e)) => assert_eq!(e.message(), "unknown source"),
        _ => panic!("expected a source error"),
    }
}

#[test]
fn exhausted_iterator_stays_exhausted() {
    let mut it = InputIterator::new(Source::map(vec![pair("a", "b")]), None, false, &Vec::new()).unwrap();
    assert_eq!(it.next(), Some(pair("a", "b")));
    assert_eq!(it.next(), None);
    assert_eq!(it.next(), None);
    assert_eq!(it.next(), None);
}

#[test]
fn sort_end_to_end_with_extension() {
    let f = Formatter::new("file_{1}").unwrap();
    let entries = strings(&["b.txt", "a.txt", "c10.txt"]);
    let mut it = InputIterator::new(Source::sort(SortOrder::Asc), Some(f), true, &entries).unwrap();
    assert_eq!(
        drain(&mut it),
        vec![pair("a.txt", "file_1.txt"), pair("b.txt", "file_2.txt"), pair("c10.txt", "file_3.txt")]
    );
    assert_eq!(it.next(), None);
}

#[test]
fn regex_candidate_formats_captures() {
    let src = Source::regex(r"^(\w+)-(\d+)(x)?\.jpg$", 1, None).unwrap();
    let f = Formatter::new("{2}_{1}{3}").unwrap();
    let mut it = InputIterator::new(src, Some(f), true, &Vec::new()).unwrap();
    assert_eq!(it.candidate("photo-12.jpg"), Some(pair("photo-12.jpg", "12_photo.jpg")));
    assert_eq!(it.candidate("notes.txt"), None);
    assert_eq!(it.next(), None);
}

#[test]
fn invalid_pattern_is_refused() {
    assert!(Source::regex("(", 1, None).is_err());
    assert!(Pattern::new("(").is_err());
    let p = Pattern::new("a(b)?").unwrap();
    assert_eq!(p.as_str(), "a(b)?");
    assert_eq!(p.captures("xa"), Some(vec![Some("a".to_string()), None]));
    assert_eq!(p.captures("x"), None);
}

#[test]
fn decimal_numbers() {
    assert_eq!(decimal_string(0), "0");
    assert_eq!(decimal_string(7), "7");
    assert_eq!(decimal_string(120), "120");
    assert_eq!(decimal_string(usize::MAX), usize::MAX.to_string());
}
