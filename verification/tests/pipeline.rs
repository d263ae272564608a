use minigrep::config::{resolve, SearchConfig, Source};
use minigrep::content::Content;
use minigrep::report::{exit_code, render_matches, search_outcome, RunOutcome};
use minigrep::search::search;

fn config(query: &str, case_sensitive: bool) -> SearchConfig {
    SearchConfig {
        query: String::from(query),
        source: Source::Stdin,
        case_sensitive,
    }
}

#[test]
fn end_to_end_case_sensitive() {
    let args = vec![String::from("wor"), String::from("testfile.txt")];
    let cfg = match resolve(&args) {
        Ok(cfg) => cfg,
        Err(_) => panic!("arguments should resolve"),
    };
    assert!(cfg.case_sensitive);
    assert_eq!(cfg.query, "wor");
    assert!(matches!(cfg.source, Source::FilePath(ref p) if p == "testfile.txt"));
    let content = Content::from_text("hello world\ngoodbye\nWORLD peace");
    let found = search(&content, &cfg);
    let lines = render_matches(&found);
    assert_eq!(lines, vec![String::from("1: hello world")]);
    let outcome = search_outcome(found.len());
    assert_eq!(exit_code(&outcome), 0);
}

#[test]
fn end_to_end_ignore_case() {
    let args = vec![
        String::from("wor"),
        String::from("testfile.txt"),
        String::from("--ignore-case"),
    ];
    let cfg = match resolve(&args) {
        Ok(cfg) => cfg,
        Err(_) => panic!("arguments should resolve"),
    };
    assert!(!cfg.case_sensitive);
    let content = Content::from_text("hello world\ngoodbye\nWORLD peace");
    let found = search(&content, &cfg);
    let lines = render_matches(&found);
    assert_eq!(
        lines,
        vec![String::from("1: hello world"), String::from("3: WORLD peace")]
    );
    let outcome = search_outcome(found.len());
    assert_eq!(exit_code(&outcome), 0);
}

#[test]
fn case_sensitivity_on_single_line() {
    let content = Content::from_text("Hello");
    let sensitive = search(&content, &config("hello", true));
    assert_eq!(sensitive.len(), 0);
    let insensitive = search(&content, &config("hello", false));
    assert_eq!(insensitive.len(), 1);
    assert_eq!(insensitive[0].line_number, 1);
    assert_eq!(insensitive[0].text, "Hello");
}

#[test]
fn empty_query_matches_every_line_in_order() {
    let content = Content::from_text("one\ntwo\nthree");
    let found = search(&content, &config("", true));
    assert_eq!(found.len(), 3);
    assert_eq!(found[0].line_number, 1);
    assert_eq!(found[0].text, "one");
    assert_eq!(found[1].line_number, 2);
    assert_eq!(found[1].text, "two");
    assert_eq!(found[2].line_number, 3);
    assert_eq!(found[2].text, "three");
}

#[test]
fn search_twice_gives_identical_output() {
    let content = Content::from_text("body\nnobody\nBody double\nbo dy");
    let cfg = config("body", false);
    let first = search(&content, &cfg);
    let second = search(&content, &cfg);
    assert_eq!(first.len(), second.len());
    for (a, b) in first.iter().zip(second.iter()) {
        assert_eq!(a.line_number, b.line_number);
        assert_eq!(a.text, b.text);
    }
}

#[test]
fn empty_input_gives_no_lines_and_no_matches() {
    let content = Content::from_text("");
    assert_eq!(content.line_count(), 0);
    let found = search(&content, &config("anything", true));
    assert_eq!(found.len(), 0);
    let outcome = search_outcome(found.len());
    assert_eq!(outcome, RunOutcome::NoMatches);
    assert_eq!(exit_code(&outcome), 1);
}

#[test]
fn every_reported_line_contains_the_query() {
    let content = Content::from_text("a needle here\nnothing\nneedles galore\nnee dle");
    let found = search(&content, &config("needle", true));
    assert_eq!(found.len(), 2);
    for m in &found {
        assert!(m.text.contains("needle"));
    }
    assert_eq!(found[0].line_number, 1);
    assert_eq!(found[1].line_number, 3);
}
