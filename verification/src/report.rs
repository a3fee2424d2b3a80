//! The report produced by a lint run, and the read-only inputs the
//! resolvers work from.
//!
//! The report schema is stable: every field is always present, and a
//! field whose evidence was not found carries `false` (or `None`), so
//! the shape of the output never depends on what was found.

use vstd::prelude::*;

verus! {

/// A linter report for a repository of kind primary.
#[derive(Clone, Debug, PartialEq)]
pub struct Report {
    pub documentation: Documentation,
    pub license: License,
    pub best_practices: BestPractices,
    pub security: Security,
    pub legal: Legal,
}

/// Documentation section of the report.
#[derive(Clone, Copy, Debug, PartialEq, Eq, Structural)]
pub struct Documentation {
    pub adopters: bool,
    pub code_of_conduct: bool,
    pub contributing: bool,
    pub changelog: bool,
    pub governance: bool,
    pub maintainers: bool,
    pub readme: bool,
    pub roadmap: bool,
    pub website: bool,
}

/// License section of the report.
#[derive(Clone, Debug, PartialEq)]
pub struct License {
    pub approved: Option<bool>,
    pub scanning: Option<String>,
    pub spdx_id: Option<String>,
}

/// BestPractices section of the report.
#[derive(Clone, Copy, Debug, PartialEq, Eq, Structural)]
pub struct BestPractices {
    pub artifacthub_badge: bool,
    pub community_meeting: bool,
    pub dco: bool,
    pub openssf_badge: bool,
    pub recent_release: bool,
}

/// Security section of the report.
#[derive(Clone, Copy, Debug, PartialEq, Eq, Structural)]
pub struct Security {
    pub security_policy: bool,
}

/// Legal section of the report.
#[derive(Clone, Copy, Debug, PartialEq, Eq, Structural)]
pub struct Legal {
    pub trademark_footer: bool,
}

/// The license section with its text fields abstracted to character
/// sequences; contracts speak of a [`License`] through this view.
pub struct LicenseView {
    pub approved: Option<bool>,
    pub scanning: Option<Seq<char>>,
    pub spdx_id: Option<Seq<char>>,
}

/// The view of an optional owned string: the character sequence it
/// holds, if any.
pub open spec fn opt_text_view(text: Option<String>) -> Option<Seq<char>> {
    match text {
        Some(s) => Some(s@),
        None => None,
    }
}

impl View for License {
    type V = LicenseView;

    open spec fn view(&self) -> LicenseView {
        LicenseView {
            approved: self.approved,
            scanning: opt_text_view(self.scanning),
            spdx_id: opt_text_view(self.spdx_id),
        }
    }
}

/// The whole report with the license section abstracted to its view.
pub struct ReportView {
    pub documentation: Documentation,
    pub license: LicenseView,
    pub best_practices: BestPractices,
    pub security: Security,
    pub legal: Legal,
}

impl View for Report {
    type V = ReportView;

    open spec fn view(&self) -> ReportView {
        ReportView {
            documentation: self.documentation,
            license: self.license@,
            best_practices: self.best_practices,
            security: self.security,
            legal: self.legal,
        }
    }
}

/// Repository metadata fetched once per run from the remote forge and
/// shared, read-only, across the resolvers: the declared homepage and
/// the declared license identifier, as plain values.
#[derive(Clone, Debug, PartialEq)]
pub struct RepoMetadata {
    /// The homepage URL the repository declares, if any.
    pub homepage: Option<String>,
    /// The license identifier the forge reports for the repository,
    /// if any. May be a sentinel value meaning "not assessed".
    pub license_id: Option<String>,
}

/// Project-local configuration, loaded (outside this crate) from the
/// repository's metadata file, if present.
#[derive(Clone, Debug, PartialEq)]
pub struct Metadata {
    pub license_scanning: Option<LicenseScanning>,
}

/// The license-scanning override a project may declare in its
/// project-local configuration.
#[derive(Clone, Debug, PartialEq)]
pub struct LicenseScanning {
    pub url: Option<String>,
}

} // verus!
