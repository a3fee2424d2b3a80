//! End-to-end runs over gathered evidence: the resolvers and the
//! assembler on concrete scenarios.

use clomonitor_core::license::{detect_license, LicenseRule};
use clomonitor_core::outcome::{LintError, Outcome};
use clomonitor_core::report::{LicenseScanning, Metadata, RepoMetadata};
use clomonitor_core::resolver::{
    lint, lint_best_practices, lint_documentation, lint_legal, BestPracticesEvidence, DocEvidence,
    Evidence, LegalEvidence, LicenseEvidence, SecurityEvidence,
};
use clomonitor_core::text::{content_matches, path_exists};

fn doc_evidence() -> DocEvidence {
    DocEvidence {
        adopters_local: Outcome::NotFound,
        adopters_header: Outcome::NotFound,
        code_of_conduct_local: Outcome::NotFound,
        code_of_conduct_header: Outcome::NotFound,
        code_of_conduct_default: Outcome::NotFound,
        contributing_local: Outcome::NotFound,
        contributing_header: Outcome::NotFound,
        contributing_default: Outcome::NotFound,
        changelog_local: Outcome::NotFound,
        changelog_header: Outcome::NotFound,
        changelog_release: Outcome::NotFound,
        governance_local: Outcome::NotFound,
        governance_header: Outcome::NotFound,
        maintainers_local: Outcome::NotFound,
        readme_local: Outcome::NotFound,
        roadmap_local: Outcome::NotFound,
        roadmap_header: Outcome::NotFound,
    }
}

fn best_practices_evidence() -> BestPracticesEvidence {
    BestPracticesEvidence {
        artifacthub_badge: Outcome::NotFound,
        community_meeting: Outcome::NotFound,
        dco_commits: Outcome::NotFound,
        dco_check: Outcome::NotFound,
        openssf_badge: Outcome::NotFound,
        recent_release: Outcome::NotFound,
    }
}

fn evidence() -> Evidence {
    Evidence {
        documentation: doc_evidence(),
        license: LicenseEvidence {
            detected: Ok(None),
            scanning_readme: Ok(None),
        },
        best_practices: best_practices_evidence(),
        security: SecurityEvidence {
            policy_local: Outcome::NotFound,
            policy_header: Outcome::NotFound,
            policy_default: Outcome::NotFound,
        },
        legal: LegalEvidence {
            trademark_footer: Outcome::NotFound,
        },
    }
}

fn repo_metadata() -> RepoMetadata {
    RepoMetadata {
        homepage: None,
        license_id: None,
    }
}

fn approved() -> Vec<String> {
    vec![String::from("Apache-2.0"), String::from("MIT")]
}

fn from_bool(found: bool) -> Outcome {
    if found {
        Outcome::Found
    } else {
        Outcome::NotFound
    }
}

#[test]
fn adopters_file_settles_the_item_without_the_readme() {
    // The root holds ADOPTERS.md; the README source is not needed (it
    // could not even answer here) and the item still resolves to true.
    let entries = vec![String::from("ADOPTERS.md"), String::from("README.md")];
    let patterns = vec![String::from("adopters*")];
    let mut ev = evidence();
    ev.documentation.adopters_local = from_bool(path_exists(&entries, &patterns, false));
    ev.documentation.adopters_header = Outcome::Failed(LintError::IoError);
    let report = lint(&None, &repo_metadata(), &ev, &approved()).unwrap();
    assert!(report.documentation.adopters);
}

#[test]
fn adopters_heading_in_readme_is_the_fallback() {
    let entries = vec![String::from("README.md")];
    let patterns = vec![String::from("adopters*")];
    let readme = "# Project\n\n## Adopters\n\n- Some company\n";
    let mut ev = evidence();
    ev.documentation.adopters_local = from_bool(path_exists(&entries, &patterns, false));
    ev.documentation.adopters_header = from_bool(content_matches(readme, "## Adopters", true));
    let report = lint(&None, &repo_metadata(), &ev, &approved()).unwrap();
    assert!(report.documentation.adopters);
}

#[test]
fn detected_apache_license_is_approved() {
    let rules = vec![LicenseRule {
        spdx_id: String::from("Apache-2.0"),
        marker: String::from("Apache License"),
    }];
    let content = "    Apache License\n  Version 2.0, January 2004\n";
    let mut ev = evidence();
    ev.license.detected = Ok(detect_license(content, &rules));
    let report = lint(&None, &repo_metadata(), &ev, &approved()).unwrap();
    assert_eq!(report.license.spdx_id, Some(String::from("Apache-2.0")));
    assert_eq!(report.license.approved, Some(true));
    assert_eq!(report.license.scanning, None);
}

#[test]
fn unassessed_declared_license_resolves_to_nothing() {
    let gh = RepoMetadata {
        homepage: None,
        license_id: Some(String::from("NOASSERTION")),
    };
    let report = lint(&None, &gh, &evidence(), &approved()).unwrap();
    assert_eq!(report.license.spdx_id, None);
    assert_eq!(report.license.approved, None);
}

#[test]
fn declared_license_is_the_fallback_and_need_not_be_approved() {
    let gh = RepoMetadata {
        homepage: None,
        license_id: Some(String::from("WTFPL")),
    };
    let report = lint(&None, &gh, &evidence(), &approved()).unwrap();
    assert_eq!(report.license.spdx_id, Some(String::from("WTFPL")));
    assert_eq!(report.license.approved, Some(false));
}

#[test]
fn empty_homepage_means_no_website_and_no_trademark_fetch() {
    let gh = RepoMetadata {
        homepage: Some(String::new()),
        license_id: None,
    };
    let mut ev = evidence();
    // The trademark source would fail — but with an empty homepage it
    // is never attempted, so the run still succeeds.
    ev.legal.trademark_footer = Outcome::Failed(LintError::FetchError);
    let report = lint(&None, &gh, &ev, &approved()).unwrap();
    assert!(!report.documentation.website);
    assert!(!report.legal.trademark_footer);
}

#[test]
fn nonempty_homepage_sets_website_and_consults_trademark_source() {
    let gh = RepoMetadata {
        homepage: Some(String::from("https://project.example.org")),
        license_id: None,
    };
    let mut ev = evidence();
    ev.legal.trademark_footer = Outcome::Found;
    let report = lint(&None, &gh, &ev, &approved()).unwrap();
    assert!(report.documentation.website);
    assert!(report.legal.trademark_footer);
}

#[test]
fn one_failing_section_fails_the_whole_run_with_its_error() {
    let mut ev = evidence();
    ev.security.policy_default = Outcome::Failed(LintError::FetchError);
    let result = lint(&None, &repo_metadata(), &ev, &approved());
    assert_eq!(result.unwrap_err(), LintError::FetchError);
}

#[test]
fn failing_first_source_aborts_the_section_despite_later_evidence() {
    let mut ev = evidence();
    ev.documentation.adopters_local = Outcome::Failed(LintError::IoError);
    ev.documentation.adopters_header = Outcome::Found;
    let result = lint(&None, &repo_metadata(), &ev, &approved());
    assert_eq!(result.unwrap_err(), LintError::IoError);
}

#[test]
fn dco_commit_inspection_is_best_effort() {
    let mut ev = best_practices_evidence();
    ev.dco_commits = Outcome::Failed(LintError::IoError);
    ev.dco_check = Outcome::Found;
    let section = lint_best_practices(&ev).unwrap();
    assert!(section.dco);

    // Whereas the remote DCO check's failure propagates.
    let mut ev = best_practices_evidence();
    ev.dco_commits = Outcome::NotFound;
    ev.dco_check = Outcome::Failed(LintError::FetchError);
    assert_eq!(lint_best_practices(&ev).unwrap_err(), LintError::FetchError);
}

#[test]
fn changelog_falls_back_to_the_release_body() {
    let mut ev = doc_evidence();
    ev.changelog_release = Outcome::Found;
    let section = lint_documentation(&ev, &repo_metadata()).unwrap();
    assert!(section.changelog);
    assert!(!section.adopters);
    assert!(!section.readme);
}

#[test]
fn community_health_default_file_is_the_last_fallback() {
    let mut ev = doc_evidence();
    ev.code_of_conduct_default = Outcome::Found;
    let section = lint_documentation(&ev, &repo_metadata()).unwrap();
    assert!(section.code_of_conduct);
}

#[test]
fn configured_scanning_url_shadows_the_readme_source() {
    let md = Metadata {
        license_scanning: Some(LicenseScanning {
            url: Some(String::from("https://app.fossa.io/api/projects/mine")),
        }),
    };
    let mut ev = evidence();
    // The README source would fail, but the configured override means
    // it is never consulted.
    ev.license.scanning_readme = Err(LintError::IoError);
    let report = lint(&Some(md), &repo_metadata(), &ev, &approved()).unwrap();
    assert_eq!(
        report.license.scanning,
        Some(String::from("https://app.fossa.io/api/projects/mine"))
    );
}

#[test]
fn readme_scanning_url_is_the_fallback() {
    let mut ev = evidence();
    ev.license.scanning_readme = Ok(Some(String::from("https://snyk.io/test/github/x/y")));
    let report = lint(&None, &repo_metadata(), &ev, &approved()).unwrap();
    assert_eq!(
        report.license.scanning,
        Some(String::from("https://snyk.io/test/github/x/y"))
    );

    let mut ev = evidence();
    ev.license.scanning_readme = Err(LintError::IoError);
    let result = lint(&None, &repo_metadata(), &ev, &approved());
    assert_eq!(result.unwrap_err(), LintError::IoError);
}

#[test]
fn legal_section_alone_can_fail_the_run() {
    let gh = RepoMetadata {
        homepage: Some(String::from("https://project.example.org")),
        license_id: None,
    };
    let mut ev = evidence();
    ev.legal.trademark_footer = Outcome::Failed(LintError::FetchError);
    assert_eq!(
        lint_legal(&ev.legal, &gh).unwrap_err(),
        LintError::FetchError
    );
    let result = lint(&None, &gh, &ev, &approved());
    assert_eq!(result.unwrap_err(), LintError::FetchError);
}
