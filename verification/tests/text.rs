//! The pure text evidence primitives on concrete content.

use clomonitor_core::text::{
    content_matches, file_name_matches, find_first, find_first_url, find_url, path_exists,
};

#[test]
fn content_match_is_case_sensitive_when_asked() {
    let readme = "# Project\n\n## Adopters\n\nSome adopters.\n";
    assert!(content_matches(readme, "## Adopters", true));
    assert!(!content_matches(readme, "## ADOPTERS", true));
    assert!(content_matches(readme, "## ADOPTERS", false));
    assert!(!content_matches(readme, "## Roadmap", false));
}

#[test]
fn content_match_on_empty_pattern_and_content() {
    assert!(content_matches("anything", "", true));
    assert!(content_matches("", "", true));
    assert!(!content_matches("", "x", true));
    assert!(!content_matches("ab", "abc", true));
}

#[test]
fn find_first_returns_the_leftmost_occurrence() {
    assert_eq!(find_first("abcabc", "bc", true), Some(1));
    assert_eq!(find_first("abcabc", "zz", true), None);
    assert_eq!(find_first("aAa", "A", false), Some(0));
}

#[test]
fn file_names_match_literally_or_by_prefix() {
    assert!(file_name_matches("ADOPTERS.md", "adopters*", false));
    assert!(!file_name_matches("ADOPTERS.md", "adopters*", true));
    assert!(file_name_matches("adopters.md", "adopters*", true));
    assert!(file_name_matches("ADOPTERS", "adopters*", false));
    assert!(file_name_matches("LICENSE", "LICENSE", true));
    assert!(!file_name_matches("LICENSE.txt", "LICENSE", true));
    assert!(!file_name_matches("NOTES.md", "adopters*", false));
}

#[test]
fn path_exists_checks_every_entry_against_every_pattern() {
    let entries = vec![
        String::from("README.md"),
        String::from("ADOPTERS.md"),
        String::from("src"),
    ];
    let patterns = vec![String::from("adopters*")];
    assert!(path_exists(&entries, &patterns, false));
    assert!(!path_exists(&entries, &patterns, true));

    let none: Vec<String> = vec![String::from("governance*")];
    assert!(!path_exists(&entries, &none, false));
    let empty: Vec<String> = Vec::new();
    assert!(!path_exists(&empty, &patterns, false));
}

#[test]
fn url_extraction_runs_to_the_first_delimiter() {
    let readme = "badge: [x](https://app.fossa.io/api/projects/custom+1) more";
    assert_eq!(
        find_url(readme, "https://app.fossa.io/"),
        Some(String::from("https://app.fossa.io/api/projects/custom+1"))
    );
    assert_eq!(find_url(readme, "https://snyk.io/"), None);
}

#[test]
fn url_prefixes_are_tried_in_priority_order() {
    let prefixes = vec![
        String::from("https://app.fossa.io/"),
        String::from("https://snyk.io/"),
    ];
    // Both services appear; the first prefix in the list wins even
    // though the other occurs earlier in the content.
    let readme = "https://snyk.io/test/github/x/y and https://app.fossa.io/api/projects/z";
    assert_eq!(
        find_first_url(readme, &prefixes),
        Some(String::from("https://app.fossa.io/api/projects/z"))
    );
    assert_eq!(
        find_first_url("only https://snyk.io/test here", &prefixes),
        Some(String::from("https://snyk.io/test"))
    );
    assert_eq!(find_first_url("no badge at all", &prefixes), None);
}

#[test]
fn url_extraction_stops_at_whitespace_or_end() {
    assert_eq!(
        find_url("see https://snyk.io/test/github/x/y today", "https://snyk.io/"),
        Some(String::from("https://snyk.io/test/github/x/y"))
    );
    assert_eq!(
        find_url("https://snyk.io/test", "https://snyk.io/"),
        Some(String::from("https://snyk.io/test"))
    );
}
