//! Resolution of a path: the candidates to fetch, and the choice of one
//! document from what the fetches gave.
use vstd::prelude::*;
use crate::candidate::{
    CrateStructure, candidates, is_candidate, path_segments, plausible_shapes, split_path,
};
use crate::document::{CrateDocument, DocumentModel};
use crate::extract::{document_of, extract_page};

verus! {

/// What fetching one candidate's page gave.
#[derive(Clone, Debug, PartialEq, Eq)]
pub enum PageOutcome {
    /// The page exists; its markup.
    Found(String),
    /// The host answered with a status other than success: no such page.
    Absent,
    /// The request failed below HTTP (connection, TLS, a broken body).
    Failed,
}

/// Why a resolution failed.
#[derive(Clone, Copy, Debug, PartialEq, Eq, Structural)]
pub enum ResolveError {
    /// A page could not be fetched at all.
    TransportFailure,
}

/// Whether an HTTP status means that the page exists.
pub fn is_success(status: u16) -> (r: bool)
    ensures
        r == (200 <= status <= 299),
{
    200 <= status && status <= 299
}

/// The outcome of fetching a page that answered with `status`, and with
/// `body` where a body was read.
pub fn page_outcome(status: u16, body: Option<String>) -> (r: PageOutcome)
    ensures
        !(200 <= status <= 299) ==> r == PageOutcome::Absent,
        (200 <= status <= 299) ==> r == match body {
            Some(b) => PageOutcome::Found(b),
            None => PageOutcome::Failed,
        },
{
    if !is_success(status) {
        PageOutcome::Absent
    } else {
        match body {
            Some(b) => PageOutcome::Found(b),
            None => PageOutcome::Failed,
        }
    }
}

/// The crate's name and the candidates of a path, in priority order; `None`
/// for an empty path.
pub fn plan_resolution(path: &str) -> (r: Option<(String, Vec<CrateStructure>)>)
    ensures
        r is None <==> path@.len() == 0,
        r matches Some((name, cs)) ==> {
            let segs = path_segments(path@);
            &&& name@ == segs[0]
            &&& cs@.len() == plausible_shapes(segs.len()).len()
            &&& forall|i: int| 0 <= i < cs@.len() ==> #[trigger] is_candidate(cs@[i], segs, plausible_shapes(segs.len())[i])
            &&& forall|i: int| 0 <= i < cs@.len() ==> #[trigger] cs@[i].wf()
        },
{
    if path.is_empty() {
        return None;
    }
    let segs = split_path(path);
    let cs = candidates(&segs);
    let name = segs[0].clone();
    assert(segs.deep_view()[0] == segs[0]@);
    Some((name, cs))
}

/// The document that one fetch outcome gives for its candidate.
pub open spec fn outcome_document(o: PageOutcome, c: CrateStructure) -> Option<DocumentModel> {
    match o {
        PageOutcome::Found(markup) => document_of(markup@, c),
        _ => None,
    }
}

/// The document of the first candidate, from `i` on, whose outcome yields one.
pub open spec fn first_document(cs: Seq<CrateStructure>, outcomes: Seq<PageOutcome>, i: int) -> Option<DocumentModel>
    decreases outcomes.len() - i,
{
    if i < 0 || i >= outcomes.len() || i >= cs.len() {
        None
    } else {
        match outcome_document(outcomes[i], cs[i]) {
            Some(d) => Some(d),
            None => first_document(cs, outcomes, i + 1),
        }
    }
}

/// Whether some fetch failed below HTTP.
pub open spec fn any_failed(outcomes: Seq<PageOutcome>) -> bool {
    exists|i: int| 0 <= i < outcomes.len() && #[trigger] outcomes[i] == PageOutcome::Failed
}

/// Chooses the document of a resolution from the outcomes of its candidates,
/// given in the candidates' order: a failed fetch fails the resolution; else
/// the first candidate in priority order whose page yields a document wins,
/// whatever order the fetches completed in; else nothing was found.
pub fn choose_document(cs: &Vec<CrateStructure>, outcomes: &Vec<PageOutcome>) -> (r: Result<
    Option<CrateDocument>,
    ResolveError,
>)
    requires
        cs@.len() == outcomes@.len(),
    ensures
        any_failed(outcomes@) ==> r == Err::<Option<CrateDocument>, ResolveError>(ResolveError::TransportFailure),
        !any_failed(outcomes@) ==> (r matches Ok(d) && d.deep_view() == first_document(cs@, outcomes@, 0)),
{
    let mut i: usize = 0;
    while i < outcomes.len()
        invariant
            i <= outcomes@.len(),
            forall|j: int| 0 <= j < i ==> #[trigger] outcomes@[j] != PageOutcome::Failed,
        decreases outcomes@.len() - i,
    {
        if let PageOutcome::Failed = outcomes[i] {
            return Err(ResolveError::TransportFailure);
        }
        i = i + 1;
    }
    assert(!any_failed(outcomes@));
    let mut k: usize = 0;
    while k < outcomes.len()
        invariant
            k <= outcomes@.len() == cs@.len(),
            !any_failed(outcomes@),
            first_document(cs@, outcomes@, 0) == first_document(cs@, outcomes@, k as int),
        decreases outcomes@.len() - k,
    {
        if let PageOutcome::Found(markup) = &outcomes[k] {
            let found = extract_page(markup.as_str(), &cs[k]);
            if found.is_some() {
                return Ok(found);
            }
        }
        k = k + 1;
    }
    Ok(None)
}

/// A path whose every candidate page is absent resolves to nothing found, not
/// to a failure.
pub proof fn lemma_all_absent_is_not_found(cs: Seq<CrateStructure>, outcomes: Seq<PageOutcome>)
    requires
        forall|i: int| 0 <= i < outcomes.len() ==> #[trigger] outcomes[i] == PageOutcome::Absent,
    ensures
        !any_failed(outcomes),
        first_document(cs, outcomes, 0) is None,
{
    lemma_absent_from(cs, outcomes, 0);
}

proof fn lemma_absent_from(cs: Seq<CrateStructure>, outcomes: Seq<PageOutcome>, i: int)
    requires
        0 <= i,
        forall|j: int| 0 <= j < outcomes.len() ==> #[trigger] outcomes[j] == PageOutcome::Absent,
    ensures
        first_document(cs, outcomes, i) is None,
    decreases outcomes.len() - i,
{
    if i < outcomes.len() && i < cs.len() {
        lemma_absent_from(cs, outcomes, i + 1);
    }
}

/// The first candidate whose page yields a document wins over every later
/// one, whatever the later ones yield.
pub proof fn lemma_priority_wins(cs: Seq<CrateStructure>, outcomes: Seq<PageOutcome>, w: int)
    requires
        0 <= w < outcomes.len() == cs.len(),
        outcome_document(outcomes[w], cs[w]) is Some,
        forall|j: int| 0 <= j < w ==> #[trigger] outcome_document(outcomes[j], cs[j]) is None,
    ensures
        first_document(cs, outcomes, 0) == outcome_document(outcomes[w], cs[w]),
{
    lemma_winner_from(cs, outcomes, w, 0);
}

proof fn lemma_winner_from(cs: Seq<CrateStructure>, outcomes: Seq<PageOutcome>, w: int, i: int)
    requires
        0 <= i <= w < outcomes.len() == cs.len(),
        outcome_document(outcomes[w], cs[w]) is Some,
        forall|j: int| 0 <= j < w ==> #[trigger] outcome_document(outcomes[j], cs[j]) is None,
    ensures
        first_document(cs, outcomes, i) == outcome_document(outcomes[w], cs[w]),
    decreases w - i,
{
    if i < w {
        lemma_winner_from(cs, outcomes, w, i + 1);
    }
}

} // verus!
