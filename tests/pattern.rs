use ferry::error::FerryError;
use ferry::pattern::{keep_marked, run_regex_selection, PathMatcher};

fn walk() -> Vec<String> {
    ["a", "a/doc_001.pdf", "b", "b/doc_001.pdf", "b/doc_002.pdf"]
        .iter()
        .map(|s| s.to_string())
        .collect()
}

#[test]
fn regex_matches_the_full_path() {
    let m = PathMatcher::new("doc_001\\.pdf$").unwrap();
    assert_eq!(run_regex_selection(&m, &walk()), vec!["a/doc_001.pdf", "b/doc_001.pdf"]);
    let m = PathMatcher::new("^a/").unwrap();
    assert_eq!(run_regex_selection(&m, &walk()), vec!["a/doc_001.pdf"]);
}

#[test]
fn regex_on_basename_alone_would_miss_directories() {
    let m = PathMatcher::new("^b").unwrap();
    assert_eq!(run_regex_selection(&m, &walk()), vec!["b", "b/doc_001.pdf", "b/doc_002.pdf"]);
}

#[test]
fn invalid_pattern_is_a_validation_error() {
    let e = PathMatcher::new("doc_(").unwrap_err();
    assert!(e.is_validation());
    match e {
        FerryError::InvalidPattern { message } => assert!(!message.is_empty()),
        e => panic!("unexpected {:?}", e),
    }
}

#[test]
fn keep_marked_keeps_order() {
    let out = keep_marked(&walk(), &vec![true, false, false, true, true]);
    assert_eq!(out, vec!["a", "b/doc_001.pdf", "b/doc_002.pdf"]);
}
