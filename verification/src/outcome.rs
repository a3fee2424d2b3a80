//! Three-valued evidence outcomes and the OR-fallback chain protocol.
//!
//! A checklist item is resolved by consulting an ordered list of evidence
//! sources. Each source reports one of three things: the evidence was
//! found, it was not found, or the source itself failed. Resolution walks
//! the list in priority order, stops at the first source that either
//! finds the evidence or fails, and reports `false` only when every
//! source reported "not found".

use vstd::prelude::*;

verus! {

/// Why a checklist item could not be resolved. "Not found" is never an
/// error: only a genuine inability to determine an answer is.
#[derive(Clone, Copy, Debug, PartialEq, Eq, Structural)]
pub enum LintError {
    /// A local path that had to be inspected could not be read.
    IoError,
    /// A remote source could not be reached or answered malformed data.
    FetchError,
    /// The project-local configuration file exists but is malformed.
    ConfigError,
}

/// What a single evidence source reported.
#[derive(Clone, Copy, Debug, PartialEq, Eq, Structural)]
pub enum Outcome {
    /// The source found the evidence it was asked for.
    Found,
    /// The source answered, and the evidence is not there.
    NotFound,
    /// The source could not determine an answer.
    Failed(LintError),
}

/// The value an OR-fallback chain resolves to: the first source that
/// finds its evidence settles the item as `true`, the first source that
/// fails aborts resolution with its error, and a chain whose sources all
/// report "not found" settles the item as `false`.
pub open spec fn chain_result(sources: Seq<Outcome>) -> Result<bool, LintError>
    decreases sources.len(),
{
    if sources.len() == 0 {
        Ok(false)
    } else {
        match sources[0] {
            Outcome::Found => Ok(true),
            Outcome::NotFound => chain_result(sources.drop_first()),
            Outcome::Failed(e) => Err(e),
        }
    }
}

/// How many sources resolution consults: every source up to and including
/// the first one that reports something other than "not found". Sources
/// past that point are never invoked.
pub open spec fn chain_consumed(sources: Seq<Outcome>) -> int
    decreases sources.len(),
{
    if sources.len() == 0 {
        0
    } else if sources[0] is NotFound {
        1 + chain_consumed(sources.drop_first())
    } else {
        1
    }
}

proof fn lemma_chain_skip(sources: Seq<Outcome>, k: int)
    requires
        0 <= k <= sources.len(),
        forall|j: int| 0 <= j < k ==> sources[j] is NotFound,
    ensures
        chain_result(sources) == chain_result(sources.skip(k)),
        chain_consumed(sources) == k + chain_consumed(sources.skip(k)),
    decreases k,
{
    if k == 0 {
        assert(sources.skip(0) =~= sources);
    } else {
        assert(sources[0] is NotFound);
        assert(forall|j: int| 0 <= j < k - 1 ==> sources.drop_first()[j] is NotFound);
        lemma_chain_skip(sources.drop_first(), k - 1);
        assert(sources.drop_first().skip(k - 1) =~= sources.skip(k));
    }
}

/// Resolve one OR-fallback chain, given what each source in priority
/// order would report. Returns the resolved value (or the aborting
/// error) together with the number of sources actually consulted.
pub fn resolve_chain(sources: &Vec<Outcome>) -> (r: (Result<bool, LintError>, usize))
    ensures
        r.0 == chain_result(sources@),
        r.1 == chain_consumed(sources@),
{
    let n = sources.len();
    let mut i: usize = 0;
    while i < n
        invariant
            i <= n,
            n == sources@.len(),
            forall|j: int| 0 <= j < i ==> sources@[j] is NotFound,
        decreases n - i,
    {
        match sources[i] {
            Outcome::Found => {
                proof {
                    lemma_chain_skip(sources@, i as int);
                    assert(sources@.skip(i as int)[0] == sources@[i as int]);
                }
                return (Ok(true), i + 1);
            },
            Outcome::NotFound => {
                i = i + 1;
            },
            Outcome::Failed(e) => {
                proof {
                    lemma_chain_skip(sources@, i as int);
                    assert(sources@.skip(i as int)[0] == sources@[i as int]);
                }
                return (Err(e), i + 1);
            },
        }
    }
    proof {
        lemma_chain_skip(sources@, n as int);
        assert(sources@.skip(n as int) =~= Seq::<Outcome>::empty());
    }
    (Ok(false), n)
}

/// What a best-effort source contributes to its chain: its own failure
/// degrades to "not found" instead of aborting the item, because an
/// equally valid fallback source exists further down the chain.
pub open spec fn spec_best_effort(source: Outcome) -> Outcome {
    match source {
        Outcome::Failed(_) => Outcome::NotFound,
        _ => source,
    }
}

/// Degrade a best-effort source's failure to a negative answer.
pub fn best_effort(source: Outcome) -> (r: Outcome)
    ensures
        r == spec_best_effort(source),
{
    match source {
        Outcome::Failed(_) => Outcome::NotFound,
        other => other,
    }
}

/// Law: resolution never consults more sources than the chain has.
pub proof fn lemma_consumed_bounds(sources: Seq<Outcome>)
    ensures
        0 <= chain_consumed(sources) <= sources.len(),
    decreases sources.len(),
{
    if sources.len() > 0 && sources[0] is NotFound {
        lemma_consumed_bounds(sources.drop_first());
    }
}

/// Law: if every source before source `k` reports "not found" and source
/// `k` finds its evidence, the item resolves to `true` and exactly the
/// first `k + 1` sources are consulted — whatever the later sources
/// would have reported, they are never invoked.
pub proof fn lemma_first_affirmative_resolves(sources: Seq<Outcome>, k: int)
    requires
        0 <= k < sources.len(),
        sources[k] is Found,
        forall|j: int| 0 <= j < k ==> sources[j] is NotFound,
    ensures
        chain_result(sources) == Ok::<bool, LintError>(true),
        chain_consumed(sources) == k + 1,
{
    lemma_chain_skip(sources, k);
    assert(sources.skip(k)[0] == sources[k]);
}

/// Law: a chain whose sources all report "not found" resolves to
/// `false`, and every source is consulted.
pub proof fn lemma_all_negative_resolves_false(sources: Seq<Outcome>)
    requires
        forall|j: int| 0 <= j < sources.len() ==> sources[j] is NotFound,
    ensures
        chain_result(sources) == Ok::<bool, LintError>(false),
        chain_consumed(sources) == sources.len(),
{
    lemma_chain_skip(sources, sources.len() as int);
    assert(sources.skip(sources.len() as int) =~= Seq::<Outcome>::empty());
}

/// Law: if every source before source `k` reports "not found" and source
/// `k` fails, resolution aborts with exactly that source's error, and
/// the sources after it are never invoked.
pub proof fn lemma_error_aborts_chain(sources: Seq<Outcome>, k: int)
    requires
        0 <= k < sources.len(),
        sources[k] matches Outcome::Failed(_),
        forall|j: int| 0 <= j < k ==> sources[j] is NotFound,
    ensures
        chain_result(sources) == Err::<bool, LintError>(sources[k]->Failed_0),
        chain_consumed(sources) == k + 1,
{
    lemma_chain_skip(sources, k);
    assert(sources.skip(k)[0] == sources[k]);
}

/// Law: the failure of a best-effort source does not abort its chain;
/// the chain goes on exactly as if the source had reported "not found".
pub proof fn lemma_best_effort_failure_continues(e: LintError, rest: Seq<Outcome>)
    ensures
        chain_result(seq![spec_best_effort(Outcome::Failed(e))] + rest) == chain_result(rest),
{
    assert((seq![Outcome::NotFound] + rest)[0] is NotFound);
    assert((seq![Outcome::NotFound] + rest).drop_first() =~= rest);
}

} // verus!
