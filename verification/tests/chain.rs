//! The OR-fallback chain protocol on concrete source reports.

use clomonitor_core::outcome::{best_effort, resolve_chain, LintError, Outcome};

#[test]
fn first_affirmative_source_settles_the_item() {
    // Source 2 finds the evidence; what later sources would report is
    // irrelevant, and they are not consulted.
    let sources = vec![
        Outcome::NotFound,
        Outcome::Found,
        Outcome::Failed(LintError::FetchError),
    ];
    let (result, consumed) = resolve_chain(&sources);
    assert_eq!(result, Ok(true));
    assert_eq!(consumed, 2);
}

#[test]
fn affirmative_first_source_consults_nothing_else() {
    let sources = vec![Outcome::Found, Outcome::Found, Outcome::Found];
    let (result, consumed) = resolve_chain(&sources);
    assert_eq!(result, Ok(true));
    assert_eq!(consumed, 1);
}

#[test]
fn all_negative_sources_resolve_to_false() {
    let sources = vec![Outcome::NotFound, Outcome::NotFound, Outcome::NotFound];
    let (result, consumed) = resolve_chain(&sources);
    assert_eq!(result, Ok(false));
    assert_eq!(consumed, 3);
}

#[test]
fn empty_chain_resolves_to_false() {
    let sources: Vec<Outcome> = Vec::new();
    let (result, consumed) = resolve_chain(&sources);
    assert_eq!(result, Ok(false));
    assert_eq!(consumed, 0);
}

#[test]
fn failing_first_source_aborts_with_its_error() {
    // The second source would have found the evidence, but it is never
    // invoked: the first source's error propagates.
    let sources = vec![Outcome::Failed(LintError::IoError), Outcome::Found];
    let (result, consumed) = resolve_chain(&sources);
    assert_eq!(result, Err(LintError::IoError));
    assert_eq!(consumed, 1);
}

#[test]
fn later_failing_source_aborts_after_negatives() {
    let sources = vec![
        Outcome::NotFound,
        Outcome::Failed(LintError::FetchError),
        Outcome::Found,
    ];
    let (result, consumed) = resolve_chain(&sources);
    assert_eq!(result, Err(LintError::FetchError));
    assert_eq!(consumed, 2);
}

#[test]
fn config_error_propagates_like_any_other() {
    let sources = vec![Outcome::Failed(LintError::ConfigError)];
    let (result, consumed) = resolve_chain(&sources);
    assert_eq!(result, Err(LintError::ConfigError));
    assert_eq!(consumed, 1);
}

#[test]
fn best_effort_failure_degrades_to_not_found() {
    assert_eq!(
        best_effort(Outcome::Failed(LintError::IoError)),
        Outcome::NotFound
    );
    assert_eq!(best_effort(Outcome::Found), Outcome::Found);
    assert_eq!(best_effort(Outcome::NotFound), Outcome::NotFound);

    // A degraded failure lets the fallback source settle the item.
    let sources = vec![
        best_effort(Outcome::Failed(LintError::IoError)),
        Outcome::Found,
    ];
    let (result, _) = resolve_chain(&sources);
    assert_eq!(result, Ok(true));
}
