//! License classification: detecting an identifier from license file
//! content and testing membership in the approved list.
//!
//! Classification is driven by a table of rules, each pairing an
//! identifier with a canonical fragment of that license's text; the
//! table itself is configuration, compiled once at startup and passed
//! in by the caller. Detection returns the identifier of the first rule
//! whose fragment the content contains.

use vstd::prelude::*;
use crate::text::contains_pattern;

verus! {

/// One classification rule: content that contains `marker` is the
/// license named by `spdx_id`.
#[derive(Clone, Debug)]
pub struct LicenseRule {
    pub spdx_id: String,
    pub marker: String,
}

/// The identifier detection resolves to: that of the first rule whose
/// canonical fragment occurs in the content, or none if no rule matches.
pub open spec fn spec_detect(content: Seq<char>, rules: Seq<LicenseRule>) -> Option<Seq<char>>
    decreases rules.len(),
{
    if rules.len() == 0 {
        None
    } else if contains_pattern(content, rules[0].marker@, true) {
        Some(rules[0].spdx_id@)
    } else {
        spec_detect(content, rules.drop_first())
    }
}

proof fn lemma_detect_skip(content: Seq<char>, rules: Seq<LicenseRule>, k: int)
    requires
        0 <= k <= rules.len(),
        forall|j: int| 0 <= j < k ==> !contains_pattern(content, rules[j].marker@, true),
    ensures
        spec_detect(content, rules) == spec_detect(content, rules.skip(k)),
    decreases k,
{
    if k == 0 {
        assert(rules.skip(0) =~= rules);
    } else {
        assert(!contains_pattern(content, rules[0].marker@, true));
        assert(forall|j: int| 0 <= j < k - 1 ==> rules.drop_first()[j] == rules[j + 1]);
        lemma_detect_skip(content, rules.drop_first(), k - 1);
        assert(rules.drop_first().skip(k - 1) =~= rules.skip(k));
    }
}

/// Classify license file content against the rule table: the identifier
/// of the first rule whose canonical fragment the content contains, or
/// none when no rule gives a confident match.
pub fn detect_license(content: &str, rules: &Vec<LicenseRule>) -> (r: Option<String>)
    ensures
        crate::report::opt_text_view(r) == spec_detect(content@, rules@),
{
    let mut k: usize = 0;
    while k < rules.len()
        invariant
            k <= rules@.len(),
            forall|j: int| 0 <= j < k ==> !contains_pattern(content@, rules@[j].marker@, true),
        decreases rules@.len() - k,
    {
        if crate::text::content_matches(content, rules[k].marker.as_str(), true) {
            proof {
                lemma_detect_skip(content@, rules@, k as int);
                assert(rules@.skip(k as int)[0] == rules@[k as int]);
            }
            return Some(rules[k].spdx_id.clone());
        }
        k = k + 1;
    }
    proof {
        lemma_detect_skip(content@, rules@, rules@.len() as int);
        assert(rules@.skip(rules@.len() as int) =~= Seq::<LicenseRule>::empty());
    }
    None
}

/// Whether the list holds an identifier with exactly this text.
pub open spec fn list_contains(list: Seq<String>, id: Seq<char>) -> bool {
    exists|i: int| 0 <= i < list.len() && list[i]@ == id
}

/// Whether a resolved identifier is on the approved allow-list.
pub fn is_approved(spdx_id: &String, approved: &Vec<String>) -> (r: bool)
    ensures
        r == list_contains(approved@, spdx_id@),
{
    let mut i: usize = 0;
    while i < approved.len()
        invariant
            i <= approved@.len(),
            forall|j: int| 0 <= j < i ==> approved@[j]@ != spdx_id@,
        decreases approved@.len() - i,
    {
        if approved[i] == *spdx_id {
            return true;
        }
        i = i + 1;
    }
    false
}

} // verus!
