//! Category resolvers and the report assembler.
//!
//! Each checklist item is resolved by one OR-fallback chain over the
//! evidence its sources reported (see [`crate::outcome`]). The caller
//! gathers the raw evidence — directory listings, file contents, remote
//! answers — with whatever I/O it likes (the independent sections may be
//! gathered concurrently), and hands each source's report in as an
//! [`Outcome`]. Resolution itself is pure: a section resolver either
//! produces its section of the report or fails with the first
//! propagating error in its chains, in chain order; the assembler
//! surfaces the first failing section's error, in section order, and
//! produces no partial report.

use vstd::prelude::*;
use crate::outcome::{Outcome, LintError, chain_result, spec_best_effort, best_effort, resolve_chain};
use crate::report::{
    Report, ReportView, Documentation, License, LicenseView, BestPractices, Security, Legal,
    RepoMetadata, Metadata, opt_text_view,
};
use crate::license::{list_contains, is_approved};

verus! {

/// A chain of one evidence source.
pub open spec fn chain1(first: Outcome) -> Result<bool, LintError> {
    chain_result(seq![first])
}

/// A chain of two evidence sources, tried in order.
pub open spec fn chain2(first: Outcome, second: Outcome) -> Result<bool, LintError> {
    chain_result(seq![first, second])
}

/// A chain of three evidence sources, tried in order.
pub open spec fn chain3(first: Outcome, second: Outcome, third: Outcome) -> Result<
    bool,
    LintError,
> {
    chain_result(seq![first, second, third])
}

/// Resolve a chain of one source.
pub fn resolve1(first: Outcome) -> (r: Result<bool, LintError>)
    ensures
        r == chain1(first),
{
    let mut sources: Vec<Outcome> = Vec::new();
    sources.push(first);
    proof {
        assert(sources@ =~= seq![first]);
    }
    resolve_chain(&sources).0
}

/// Resolve a chain of two sources, tried in order.
pub fn resolve2(first: Outcome, second: Outcome) -> (r: Result<bool, LintError>)
    ensures
        r == chain2(first, second),
{
    let mut sources: Vec<Outcome> = Vec::new();
    sources.push(first);
    sources.push(second);
    proof {
        assert(sources@ =~= seq![first, second]);
    }
    resolve_chain(&sources).0
}

/// Resolve a chain of three sources, tried in order.
pub fn resolve3(first: Outcome, second: Outcome, third: Outcome) -> (r: Result<bool, LintError>)
    ensures
        r == chain3(first, second, third),
{
    let mut sources: Vec<Outcome> = Vec::new();
    sources.push(first);
    sources.push(second);
    sources.push(third);
    proof {
        assert(sources@ =~= seq![first, second, third]);
    }
    resolve_chain(&sources).0
}

/// What each evidence source for the documentation section reported.
/// `_local` sources are file-presence checks under the repository root,
/// `_header` sources are pattern matches against the README, `_default`
/// sources ask the forge whether the file is inherited from the
/// organization's community-health repository, and `changelog_release`
/// matches the most recent release body.
#[derive(Clone, Copy, Debug, PartialEq, Eq, Structural)]
pub struct DocEvidence {
    pub adopters_local: Outcome,
    pub adopters_header: Outcome,
    pub code_of_conduct_local: Outcome,
    pub code_of_conduct_header: Outcome,
    pub code_of_conduct_default: Outcome,
    pub contributing_local: Outcome,
    pub contributing_header: Outcome,
    pub contributing_default: Outcome,
    pub changelog_local: Outcome,
    pub changelog_header: Outcome,
    pub changelog_release: Outcome,
    pub governance_local: Outcome,
    pub governance_header: Outcome,
    pub maintainers_local: Outcome,
    pub readme_local: Outcome,
    pub roadmap_local: Outcome,
    pub roadmap_header: Outcome,
}

/// What each evidence source for the best-practices section reported.
/// `dco_commits` (sign-off trailers in the local commit history) is a
/// best-effort source: its failure degrades to "not found".
#[derive(Clone, Copy, Debug, PartialEq, Eq, Structural)]
pub struct BestPracticesEvidence {
    pub artifacthub_badge: Outcome,
    pub community_meeting: Outcome,
    pub dco_commits: Outcome,
    pub dco_check: Outcome,
    pub openssf_badge: Outcome,
    pub recent_release: Outcome,
}

/// What each evidence source for the security section reported.
#[derive(Clone, Copy, Debug, PartialEq, Eq, Structural)]
pub struct SecurityEvidence {
    pub policy_local: Outcome,
    pub policy_header: Outcome,
    pub policy_default: Outcome,
}

/// What the evidence source for the legal section reported: whether the
/// homepage's content matches the trademark-footer pattern. Consulted
/// only when the repository declares a non-empty homepage.
#[derive(Clone, Copy, Debug, PartialEq, Eq, Structural)]
pub struct LegalEvidence {
    pub trademark_footer: Outcome,
}

/// What the value-typed license sources reported: the identifier
/// detected from local license file content, and the scanning URL found
/// in the README, each either a value (or its absence) or the error
/// that kept the source from answering.
#[derive(Debug, PartialEq)]
pub struct LicenseEvidence {
    pub detected: Result<Option<String>, LintError>,
    pub scanning_readme: Result<Option<String>, LintError>,
}

/// All gathered evidence for one lint run.
#[derive(Debug, PartialEq)]
pub struct Evidence {
    pub documentation: DocEvidence,
    pub license: LicenseEvidence,
    pub best_practices: BestPracticesEvidence,
    pub security: SecurityEvidence,
    pub legal: LegalEvidence,
}

/// Whether the repository declares a non-empty homepage.
pub open spec fn spec_website(gh: RepoMetadata) -> bool {
    match gh.homepage {
        Some(url) => url@.len() > 0,
        None => false,
    }
}

/// The documentation section the evidence resolves to, or the first
/// propagating error, in item order.
pub open spec fn spec_documentation(ev: DocEvidence, gh: RepoMetadata) -> Result<
    Documentation,
    LintError,
> {
    let adopters = chain2(ev.adopters_local, ev.adopters_header);
    let code_of_conduct = chain3(
        ev.code_of_conduct_local,
        ev.code_of_conduct_header,
        ev.code_of_conduct_default,
    );
    let contributing = chain3(ev.contributing_local, ev.contributing_header, ev.contributing_default);
    let changelog = chain3(ev.changelog_local, ev.changelog_header, ev.changelog_release);
    let governance = chain2(ev.governance_local, ev.governance_header);
    let maintainers = chain1(ev.maintainers_local);
    let readme = chain1(ev.readme_local);
    let roadmap = chain2(ev.roadmap_local, ev.roadmap_header);
    if adopters is Err {
        Err(adopters->Err_0)
    } else if code_of_conduct is Err {
        Err(code_of_conduct->Err_0)
    } else if contributing is Err {
        Err(contributing->Err_0)
    } else if changelog is Err {
        Err(changelog->Err_0)
    } else if governance is Err {
        Err(governance->Err_0)
    } else if maintainers is Err {
        Err(maintainers->Err_0)
    } else if readme is Err {
        Err(readme->Err_0)
    } else if roadmap is Err {
        Err(roadmap->Err_0)
    } else {
        Ok(
            Documentation {
                adopters: adopters->Ok_0,
                code_of_conduct: code_of_conduct->Ok_0,
                contributing: contributing->Ok_0,
                changelog: changelog->Ok_0,
                governance: governance->Ok_0,
                maintainers: maintainers->Ok_0,
                readme: readme->Ok_0,
                roadmap: roadmap->Ok_0,
                website: spec_website(gh),
            },
        )
    }
}

/// Run the documentation checks over the gathered evidence and prepare
/// the report's documentation section.
pub fn lint_documentation(ev: &DocEvidence, gh: &RepoMetadata) -> (r: Result<
    Documentation,
    LintError,
>)
    ensures
        r == spec_documentation(*ev, *gh),
{
    let adopters = match resolve2(ev.adopters_local, ev.adopters_header) {
        Ok(found) => found,
        Err(e) => {
            return Err(e);
        },
    };
    let code_of_conduct = match resolve3(
        ev.code_of_conduct_local,
        ev.code_of_conduct_header,
        ev.code_of_conduct_default,
    ) {
        Ok(found) => found,
        Err(e) => {
            return Err(e);
        },
    };
    let contributing = match resolve3(
        ev.contributing_local,
        ev.contributing_header,
        ev.contributing_default,
    ) {
        Ok(found) => found,
        Err(e) => {
            return Err(e);
        },
    };
    let changelog = match resolve3(ev.changelog_local, ev.changelog_header, ev.changelog_release) {
        Ok(found) => found,
        Err(e) => {
            return Err(e);
        },
    };
    let governance = match resolve2(ev.governance_local, ev.governance_header) {
        Ok(found) => found,
        Err(e) => {
            return Err(e);
        },
    };
    let maintainers = match resolve1(ev.maintainers_local) {
        Ok(found) => found,
        Err(e) => {
            return Err(e);
        },
    };
    let readme = match resolve1(ev.readme_local) {
        Ok(found) => found,
        Err(e) => {
            return Err(e);
        },
    };
    let roadmap = match resolve2(ev.roadmap_local, ev.roadmap_header) {
        Ok(found) => found,
        Err(e) => {
            return Err(e);
        },
    };
    let website = match &gh.homepage {
        Some(url) => !url.as_str().is_empty(),
        None => false,
    };
    Ok(
        Documentation {
            adopters,
            code_of_conduct,
            contributing,
            changelog,
            governance,
            maintainers,
            readme,
            roadmap,
            website,
        },
    )
}

/// The best-practices section the evidence resolves to, or the first
/// propagating error, in item order. The local commit-history source of
/// the DCO item is best-effort: its failure counts as "not found".
pub open spec fn spec_best_practices(ev: BestPracticesEvidence) -> Result<
    BestPractices,
    LintError,
> {
    let artifacthub_badge = chain1(ev.artifacthub_badge);
    let community_meeting = chain1(ev.community_meeting);
    let dco = chain2(spec_best_effort(ev.dco_commits), ev.dco_check);
    let openssf_badge = chain1(ev.openssf_badge);
    let recent_release = chain1(ev.recent_release);
    if artifacthub_badge is Err {
        Err(artifacthub_badge->Err_0)
    } else if community_meeting is Err {
        Err(community_meeting->Err_0)
    } else if dco is Err {
        Err(dco->Err_0)
    } else if openssf_badge is Err {
        Err(openssf_badge->Err_0)
    } else if recent_release is Err {
        Err(recent_release->Err_0)
    } else {
        Ok(
            BestPractices {
                artifacthub_badge: artifacthub_badge->Ok_0,
                community_meeting: community_meeting->Ok_0,
                dco: dco->Ok_0,
                openssf_badge: openssf_badge->Ok_0,
                recent_release: recent_release->Ok_0,
            },
        )
    }
}

/// Run the best-practices checks over the gathered evidence and prepare
/// the report's best-practices section.
pub fn lint_best_practices(ev: &BestPracticesEvidence) -> (r: Result<BestPractices, LintError>)
    ensures
        r == spec_best_practices(*ev),
{
    let artifacthub_badge = match resolve1(ev.artifacthub_badge) {
        Ok(found) => found,
        Err(e) => {
            return Err(e);
        },
    };
    let community_meeting = match resolve1(ev.community_meeting) {
        Ok(found) => found,
        Err(e) => {
            return Err(e);
        },
    };
    let dco = match resolve2(best_effort(ev.dco_commits), ev.dco_check) {
        Ok(found) => found,
        Err(e) => {
            return Err(e);
        },
    };
    let openssf_badge = match resolve1(ev.openssf_badge) {
        Ok(found) => found,
        Err(e) => {
            return Err(e);
        },
    };
    let recent_release = match resolve1(ev.recent_release) {
        Ok(found) => found,
        Err(e) => {
            return Err(e);
        },
    };
    Ok(
        BestPractices {
            artifacthub_badge,
            community_meeting,
            dco,
            openssf_badge,
            recent_release,
        },
    )
}

/// The security section the evidence resolves to, or the error that
/// aborted its chain.
pub open spec fn spec_security(ev: SecurityEvidence) -> Result<Security, LintError> {
    match chain3(ev.policy_local, ev.policy_header, ev.policy_default) {
        Ok(found) => Ok(Security { security_policy: found }),
        Err(e) => Err(e),
    }
}

/// Run the security checks over the gathered evidence and prepare the
/// report's security section.
pub fn lint_security(ev: &SecurityEvidence) -> (r: Result<Security, LintError>)
    ensures
        r == spec_security(*ev),
{
    match resolve3(ev.policy_local, ev.policy_header, ev.policy_default) {
        Ok(found) => Ok(Security { security_policy: found }),
        Err(e) => Err(e),
    }
}

/// The legal section the evidence resolves to. The trademark-footer
/// source fetches the homepage, so it is consulted — and can fail —
/// only when the repository declares a non-empty homepage; otherwise
/// the item is `false` outright.
pub open spec fn spec_legal(ev: LegalEvidence, gh: RepoMetadata) -> Result<Legal, LintError> {
    if spec_website(gh) {
        match chain1(ev.trademark_footer) {
            Ok(found) => Ok(Legal { trademark_footer: found }),
            Err(e) => Err(e),
        }
    } else {
        Ok(Legal { trademark_footer: false })
    }
}

/// Run the legal checks over the gathered evidence and prepare the
/// report's legal section.
pub fn lint_legal(ev: &LegalEvidence, gh: &RepoMetadata) -> (r: Result<Legal, LintError>)
    ensures
        r == spec_legal(*ev, *gh),
{
    let website = match &gh.homepage {
        Some(url) => !url.as_str().is_empty(),
        None => false,
    };
    if website {
        match resolve1(ev.trademark_footer) {
            Ok(found) => Ok(Legal { trademark_footer: found }),
            Err(e) => Err(e),
        }
    } else {
        Ok(Legal { trademark_footer: false })
    }
}

/// The identifier the forge declares for the repository, unless it is
/// the sentinel meaning "not assessed".
pub open spec fn spec_declared_license(gh: RepoMetadata) -> Option<Seq<char>> {
    match gh.license_id {
        Some(id) => if id@ != "NOASSERTION"@ {
            Some(id@)
        } else {
            None
        },
        None => None,
    }
}

/// The scanning URL the project-local configuration declares, if any.
pub open spec fn spec_config_scanning(md: Option<Metadata>) -> Option<Seq<char>> {
    match md {
        Some(m) => match m.license_scanning {
            Some(scanning) => opt_text_view(scanning.url),
            None => None,
        },
        None => None,
    }
}

/// The license section the evidence resolves to, or the first
/// propagating error: the identifier detected from local content falls
/// back to the forge's declared identifier (sentinel rejected);
/// `approved` is present exactly when an identifier was resolved, and
/// then holds its membership in the approved list; the configured
/// scanning URL falls back to the one found in the README.
pub open spec fn spec_license(
    md: Option<Metadata>,
    gh: RepoMetadata,
    ev: LicenseEvidence,
    approved: Seq<String>,
) -> Result<LicenseView, LintError> {
    match ev.detected {
        Err(e) => Err(e),
        Ok(detected) => {
            let spdx_id = match detected {
                Some(id) => Some(id@),
                None => spec_declared_license(gh),
            };
            let approved_membership = match spdx_id {
                Some(id) => Some(list_contains(approved, id)),
                None => None,
            };
            match spec_config_scanning(md) {
                Some(url) => Ok(
                    LicenseView { approved: approved_membership, scanning: Some(url), spdx_id },
                ),
                None => match ev.scanning_readme {
                    Err(e) => Err(e),
                    Ok(found) => Ok(
                        LicenseView {
                            approved: approved_membership,
                            scanning: opt_text_view(found),
                            spdx_id,
                        },
                    ),
                },
            }
        },
    }
}

/// Run the license checks over the gathered evidence and prepare the
/// report's license section.
pub fn lint_license(
    md: &Option<Metadata>,
    gh: &RepoMetadata,
    ev: &LicenseEvidence,
    approved: &Vec<String>,
) -> (r: Result<License, LintError>)
    ensures
        (r matches Ok(lic) ==> Ok::<LicenseView, LintError>(lic@) == spec_license(
            *md,
            *gh,
            *ev,
            approved@,
        )),
        (r matches Err(e) ==> Err::<LicenseView, LintError>(e) == spec_license(
            *md,
            *gh,
            *ev,
            approved@,
        )),
{
    let detected = match &ev.detected {
        Err(e) => {
            return Err(*e);
        },
        Ok(d) => d,
    };
    let spdx_id: Option<String> = match detected {
        Some(id) => Some(id.clone()),
        None => {
            match &gh.license_id {
                Some(id) => {
                    let sentinel: String = ("NOASSERTION").to_owned();
                    if *id == sentinel {
                        None
                    } else {
                        Some(id.clone())
                    }
                },
                None => None,
            }
        },
    };
    let approved_membership: Option<bool> = match &spdx_id {
        Some(id) => Some(is_approved(id, approved)),
        None => None,
    };
    let configured: Option<String> = match md {
        Some(m) => match &m.license_scanning {
            Some(scanning) => match &scanning.url {
                Some(url) => Some(url.clone()),
                None => None,
            },
            None => None,
        },
        None => None,
    };
    let scanning: Option<String> = match configured {
        Some(url) => Some(url),
        None => {
            match &ev.scanning_readme {
                Err(e) => {
                    return Err(*e);
                },
                Ok(Some(url)) => Some(url.clone()),
                Ok(None) => None,
            }
        },
    };
    Ok(License { approved: approved_membership, scanning, spdx_id })
}

/// The report the whole run resolves to, or the first failing section's
/// error, in section order: documentation, best practices, security,
/// legal, license. The first four sections are independent of one
/// another and may be gathered and resolved concurrently; whichever
/// fails, the run is an error and no partial report exists.
pub open spec fn spec_lint(
    md: Option<Metadata>,
    gh: RepoMetadata,
    ev: Evidence,
    approved: Seq<String>,
) -> Result<ReportView, LintError> {
    let documentation = spec_documentation(ev.documentation, gh);
    let best_practices = spec_best_practices(ev.best_practices);
    let security = spec_security(ev.security);
    let legal = spec_legal(ev.legal, gh);
    if documentation is Err {
        Err(documentation->Err_0)
    } else if best_practices is Err {
        Err(best_practices->Err_0)
    } else if security is Err {
        Err(security->Err_0)
    } else if legal is Err {
        Err(legal->Err_0)
    } else {
        match spec_license(md, gh, ev.license, approved) {
            Err(e) => Err(e),
            Ok(license) => Ok(
                ReportView {
                    documentation: documentation->Ok_0,
                    license,
                    best_practices: best_practices->Ok_0,
                    security: security->Ok_0,
                    legal: legal->Ok_0,
                },
            ),
        }
    }
}

/// Lint the gathered evidence and return the report, or the first
/// failing section's error.
pub fn lint(
    md: &Option<Metadata>,
    gh: &RepoMetadata,
    ev: &Evidence,
    approved: &Vec<String>,
) -> (r: Result<Report, LintError>)
    ensures
        (r matches Ok(report) ==> Ok::<ReportView, LintError>(report@) == spec_lint(
            *md,
            *gh,
            *ev,
            approved@,
        )),
        (r matches Err(e) ==> Err::<ReportView, LintError>(e) == spec_lint(
            *md,
            *gh,
            *ev,
            approved@,
        )),
{
    let documentation = match lint_documentation(&ev.documentation, gh) {
        Ok(section) => section,
        Err(e) => {
            return Err(e);
        },
    };
    let best_practices = match lint_best_practices(&ev.best_practices) {
        Ok(section) => section,
        Err(e) => {
            return Err(e);
        },
    };
    let security = match lint_security(&ev.security) {
        Ok(section) => section,
        Err(e) => {
            return Err(e);
        },
    };
    let legal = match lint_legal(&ev.legal, gh) {
        Ok(section) => section,
        Err(e) => {
            return Err(e);
        },
    };
    let license = match lint_license(md, gh, &ev.license, approved) {
        Ok(section) => section,
        Err(e) => {
            return Err(e);
        },
    };
    Ok(Report { documentation, license, best_practices, security, legal })
}

/// Law: `approved` is absent exactly when no identifier was resolved;
/// otherwise it holds the resolved identifier's membership in the
/// approved list.
pub proof fn lemma_approved_iff_identifier(
    md: Option<Metadata>,
    gh: RepoMetadata,
    ev: LicenseEvidence,
    approved: Seq<String>,
)
    ensures
        spec_license(md, gh, ev, approved) matches Ok(lic) ==> ((lic.approved is Some
            <==> lic.spdx_id is Some) && (lic.spdx_id matches Some(id) ==> lic.approved == Some(
            list_contains(approved, id),
        ))),
{
}

/// Law: when exactly one of the four independent sections fails, the
/// whole run fails, and with exactly that section's error.
pub proof fn lemma_single_section_failure(
    md: Option<Metadata>,
    gh: RepoMetadata,
    ev: Evidence,
    approved: Seq<String>,
    e: LintError,
)
    requires
        ({
            let documentation = spec_documentation(ev.documentation, gh);
            let best_practices = spec_best_practices(ev.best_practices);
            let security = spec_security(ev.security);
            let legal = spec_legal(ev.legal, gh);
            ||| (documentation == Err::<Documentation, LintError>(e) && best_practices is Ok
                && security is Ok && legal is Ok)
            ||| (documentation is Ok && best_practices == Err::<BestPractices, LintError>(e)
                && security is Ok && legal is Ok)
            ||| (documentation is Ok && best_practices is Ok && security == Err::<
                Security,
                LintError,
            >(e) && legal is Ok)
            ||| (documentation is Ok && best_practices is Ok && security is Ok && legal == Err::<
                Legal,
                LintError,
            >(e))
        }),
    ensures
        spec_lint(md, gh, ev, approved) == Err::<ReportView, LintError>(e),
{
}

/// Law: the two DCO sources are trusted differently, on purpose. A
/// failing local commit-history inspection never decides anything: the
/// item is then settled by the remote check alone — whereas the remote
/// check's own failure aborts the section.
pub proof fn lemma_dco_local_failure_is_not_fatal(ev: BestPracticesEvidence, e: LintError)
    requires
        ev.dco_commits == Outcome::Failed(e),
        !(ev.dco_check matches Outcome::Failed(_)),
    ensures
        chain2(spec_best_effort(ev.dco_commits), ev.dco_check) == Ok::<bool, LintError>(
            ev.dco_check is Found,
        ),
{
    reveal_with_fuel(crate::outcome::chain_result, 3);
    let sources = seq![spec_best_effort(ev.dco_commits), ev.dco_check];
    assert(sources[0] is NotFound);
    assert(sources.drop_first() =~= seq![ev.dco_check]);
    if ev.dco_check is NotFound {
        assert(sources.drop_first().drop_first() =~= Seq::<Outcome>::empty());
    }
}

/// Law: with no homepage, or an empty one, the website item is `false`
/// and the legal section is `false` without the trademark source ever
/// being consulted — even a failing trademark source cannot abort the
/// run.
pub proof fn lemma_empty_homepage_skips_remote(
    doc_ev: DocEvidence,
    legal_ev: LegalEvidence,
    gh: RepoMetadata,
)
    requires
        gh.homepage matches Some(url) ==> url@.len() == 0,
    ensures
        spec_documentation(doc_ev, gh) matches Ok(documentation) ==> !documentation.website,
        spec_legal(legal_ev, gh) == Ok::<Legal, LintError>(Legal { trademark_footer: false }),
{
}

} // verus!

