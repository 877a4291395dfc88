//! How far a cleanup request has come, and how it is triaged.

use vstd::prelude::*;
use crate::drift::candidates::{
    DriftCleanupBuild, DriftCleanupBuildView, LoadedRequest, LoadedRequestView,
    build_drift_cleanup, candidate_key, cleanup_build, current_candidate, is_current, item_key,
};
use crate::drift::types::{
    DriftCleanupCandidate, DriftCleanupCandidateView, DriftCleanupProgressItem,
    DriftCleanupProgressItemView, DriftCleanupProgressKind, DriftCleanupProgressKindView,
    DriftCleanupProgressReport, DriftCleanupProgressReportView, DriftCleanupRequestDocument,
    DriftCleanupRequestDocumentView, DriftCleanupRequestItem, DriftCleanupRequestItemView,
    DriftCleanupRequestVerifyReport,
};
use crate::drift::verify::{
    drift_cleanup_request_verify, note_schema, request_verdict, schema_remark,
};
use crate::list::{
    chosen, extend, last_where, law_last_where, law_one_more, lemma_any, lemma_tally_bound,
    sorted_set, tally, unique_sorted,
};
use crate::registry::Registry;
use crate::scan::Observation;
use crate::text::{ends, same, step};

verus! {

broadcast use {vstd::seq::group_seq_axioms, vstd::string::group_string_axioms};

/// The item of this kind and target; the last one where there are several.
pub open spec fn item_for(
    items: Seq<DriftCleanupRequestItemView>,
    key: (Seq<char>, Seq<char>),
) -> Option<DriftCleanupRequestItemView> {
    last_where(items, |i: DriftCleanupRequestItemView| item_key(i) == key)
}

/// The item of this kind and target; the last one where there are several.
pub fn find_item<'a>(items: &'a Vec<DriftCleanupRequestItem>, kind: &str, target: &str) -> (r:
    Option<&'a DriftCleanupRequestItem>)
    ensures
        r.deep_view() == item_for(items.deep_view(), (kind@, target@)),
{
    let ghost all = items.deep_view();
    let mut hit: Option<&'a DriftCleanupRequestItem> = None;
    let mut i: usize = 0;
    proof {
        ends(all);
    }
    while i < items.len()
        invariant
            i <= items@.len(),
            all == items.deep_view(),
            hit.deep_view() == item_for(all.take(i as int), (kind@, target@)),
        decreases items@.len() - i,
    {
        proof {
            step(all, i as int);
        }
        if same(&items[i].kind, kind) && same(&items[i].target, target) {
            hit = Some(&items[i]);
        }
        i = i + 1;
    }
    proof {
        ends(all);
    }
    hit
}

/// The candidate of this kind and target; the last one where there are several.
pub open spec fn candidate_for(
    candidates: Seq<DriftCleanupCandidateView>,
    key: (Seq<char>, Seq<char>),
) -> Option<DriftCleanupCandidateView> {
    last_where(candidates, |c: DriftCleanupCandidateView| candidate_key(c) == key)
}

/// The candidate of this kind and target; the last one where there are several.
pub fn find_candidate<'a>(
    candidates: &'a Vec<DriftCleanupCandidate>,
    kind: &str,
    target: &str,
) -> (r: Option<&'a DriftCleanupCandidate>)
    ensures
        r.deep_view() == candidate_for(candidates.deep_view(), (kind@, target@)),
{
    let ghost all = candidates.deep_view();
    let mut hit: Option<&'a DriftCleanupCandidate> = None;
    let mut i: usize = 0;
    proof {
        ends(all);
    }
    while i < candidates.len()
        invariant
            i <= candidates@.len(),
            all == candidates.deep_view(),
            hit.deep_view() == candidate_for(all.take(i as int), (kind@, target@)),
        decreases candidates@.len() - i,
    {
        proof {
            step(all, i as int);
        }
        if same(&candidates[i].kind, kind) && same(&candidates[i].target, target) {
            hit = Some(&candidates[i]);
        }
        i = i + 1;
    }
    proof {
        ends(all);
    }
    hit
}

// ---------------------------------------------------------------------------
// Progress
// ---------------------------------------------------------------------------

/// The candidates that the request lacks.
pub open spec fn missing_items(
    candidates: Seq<DriftCleanupCandidateView>,
    items: Seq<DriftCleanupRequestItemView>,
) -> Seq<DriftCleanupProgressItemView> {
    chosen(
        candidates,
        |c: DriftCleanupCandidateView|
            if item_for(items, candidate_key(c)) is None {
                Some(
                    DriftCleanupProgressItemView {
                        kind: c.kind,
                        target: c.target,
                        request_id: None,
                        approval_status: None,
                        risk: c.risk,
                    },
                )
            } else {
                None
            },
    )
}

/// The items that are no longer candidates.
pub open spec fn stale_items_of(
    candidates: Seq<DriftCleanupCandidateView>,
    items: Seq<DriftCleanupRequestItemView>,
) -> Seq<DriftCleanupProgressItemView> {
    chosen(
        items,
        |i: DriftCleanupRequestItemView|
            if is_current(candidates, item_key(i)) {
                None
            } else {
                Some(
                    DriftCleanupProgressItemView {
                        kind: i.kind,
                        target: i.target,
                        request_id: Some(i.request_id),
                        approval_status: Some(i.approval_status),
                        risk: i.risk,
                    },
                )
            },
    )
}

/// Which candidates of a kind are counted.
#[derive(Debug, Clone, Copy, PartialEq, Eq, Structural)]
pub enum CandidateClass {
    All,
    Matched,
    Missing,
    Approved,
    NeedsCleanup,
    Rejected,
    Unknown,
}

/// Whether a candidate falls into a class, given its item in the request.
pub open spec fn in_class(item: Option<DriftCleanupRequestItemView>, class: CandidateClass) -> bool {
    match (class, item) {
        (CandidateClass::All, _) => true,
        (CandidateClass::Missing, None) => true,
        (CandidateClass::Missing, Some(_)) => false,
        (_, None) => false,
        (CandidateClass::Matched, Some(_)) => true,
        (CandidateClass::Approved, Some(i)) => i.approval_status == "approved"@,
        (CandidateClass::NeedsCleanup, Some(i)) => i.approval_status == "needs_cleanup"@,
        (CandidateClass::Rejected, Some(i)) => i.approval_status == "rejected"@,
        (CandidateClass::Unknown, Some(i)) => i.approval_status != "approved"@ && i.approval_status
            != "needs_cleanup"@ && i.approval_status != "rejected"@,
    }
}

/// Whether a candidate falls into a class, given its item in the request.
pub fn falls_in_class(item: Option<&DriftCleanupRequestItem>, class: CandidateClass) -> (r: bool)
    ensures
        r == in_class(item.deep_view(), class),
{
    match item {
        None => class == CandidateClass::All || class == CandidateClass::Missing,
        Some(i) => match class {
            CandidateClass::All => true,
            CandidateClass::Missing => false,
            CandidateClass::Matched => true,
            CandidateClass::Approved => same(&i.approval_status, "approved"),
            CandidateClass::NeedsCleanup => same(&i.approval_status, "needs_cleanup"),
            CandidateClass::Rejected => same(&i.approval_status, "rejected"),
            CandidateClass::Unknown => !same(&i.approval_status, "approved") && !same(
                &i.approval_status,
                "needs_cleanup",
            ) && !same(&i.approval_status, "rejected"),
        },
    }
}

/// How many candidates of a kind fall into a class.
pub open spec fn candidates_in(
    candidates: Seq<DriftCleanupCandidateView>,
    items: Seq<DriftCleanupRequestItemView>,
    kind: Seq<char>,
    class: CandidateClass,
) -> nat {
    tally(
        candidates,
        |c: DriftCleanupCandidateView|
            c.kind == kind && in_class(item_for(items, candidate_key(c)), class),
    )
}

/// How many items of a kind there are, or how many of them are stale.
pub open spec fn items_of_kind(
    candidates: Seq<DriftCleanupCandidateView>,
    items: Seq<DriftCleanupRequestItemView>,
    kind: Seq<char>,
    stale_only: bool,
) -> nat {
    tally(
        items,
        |i: DriftCleanupRequestItemView|
            i.kind == kind && (stale_only ==> !is_current(candidates, item_key(i))),
    )
}

/// Counts the candidates of a kind that fall into a class.
pub fn count_candidates(
    candidates: &Vec<DriftCleanupCandidate>,
    items: &Vec<DriftCleanupRequestItem>,
    kind: &str,
    class: CandidateClass,
) -> (r: usize)
    ensures
        r == candidates_in(candidates.deep_view(), items.deep_view(), kind@, class),
{
    let ghost all = candidates.deep_view();
    let mut n: usize = 0;
    let mut i: usize = 0;
    proof {
        ends(all);
    }
    while i < candidates.len()
        invariant
            i <= candidates@.len(),
            n <= i,
            all == candidates.deep_view(),
            n == candidates_in(all.take(i as int), items.deep_view(), kind@, class),
        decreases candidates@.len() - i,
    {
        proof {
            step(all, i as int);
        }
        let c = &candidates[i];
        if same(&c.kind, kind) && falls_in_class(find_item(items, &c.kind, &c.target), class) {
            n = n + 1;
        }
        i = i + 1;
    }
    proof {
        ends(all);
    }
    n
}

/// Counts the items of a kind, or the stale ones among them.
pub fn count_items_of_kind(
    candidates: &Vec<DriftCleanupCandidate>,
    items: &Vec<DriftCleanupRequestItem>,
    kind: &str,
    stale_only: bool,
) -> (r: usize)
    ensures
        r == items_of_kind(candidates.deep_view(), items.deep_view(), kind@, stale_only),
{
    let ghost all = items.deep_view();
    let mut n: usize = 0;
    let mut i: usize = 0;
    proof {
        ends(all);
    }
    while i < items.len()
        invariant
            i <= items@.len(),
            n <= i,
            all == items.deep_view(),
            n == items_of_kind(candidates.deep_view(), all.take(i as int), kind@, stale_only),
        decreases items@.len() - i,
    {
        proof {
            step(all, i as int);
        }
        let item = &items[i];
        if same(&item.kind, kind) && (!stale_only || !current_candidate(
            candidates,
            &item.kind,
            &item.target,
        )) {
            n = n + 1;
        }
        i = i + 1;
    }
    proof {
        ends(all);
    }
    n
}

/// Progress for one kind of resource.
pub open spec fn kind_progress(
    candidates: Seq<DriftCleanupCandidateView>,
    items: Seq<DriftCleanupRequestItemView>,
    kind: Seq<char>,
) -> DriftCleanupProgressKindView {
    DriftCleanupProgressKindView {
        kind,
        current_candidates: candidates_in(candidates, items, kind, CandidateClass::All),
        request_items: items_of_kind(candidates, items, kind, false),
        matched_current: candidates_in(candidates, items, kind, CandidateClass::Matched),
        missing_current: candidates_in(candidates, items, kind, CandidateClass::Missing),
        stale_items: items_of_kind(candidates, items, kind, true),
        approved: candidates_in(candidates, items, kind, CandidateClass::Approved),
        needs_cleanup: candidates_in(candidates, items, kind, CandidateClass::NeedsCleanup),
        rejected: candidates_in(candidates, items, kind, CandidateClass::Rejected),
        unknown: candidates_in(candidates, items, kind, CandidateClass::Unknown),
    }
}

/// Progress for one kind of resource.
pub fn progress_of_kind(
    candidates: &Vec<DriftCleanupCandidate>,
    items: &Vec<DriftCleanupRequestItem>,
    kind: &str,
) -> (r: DriftCleanupProgressKind)
    ensures
        r.deep_view() == kind_progress(candidates.deep_view(), items.deep_view(), kind@),
{
    DriftCleanupProgressKind {
        kind: kind.to_string(),
        current_candidates: count_candidates(candidates, items, kind, CandidateClass::All),
        request_items: count_items_of_kind(candidates, items, kind, false),
        matched_current: count_candidates(candidates, items, kind, CandidateClass::Matched),
        missing_current: count_candidates(candidates, items, kind, CandidateClass::Missing),
        stale_items: count_items_of_kind(candidates, items, kind, true),
        approved: count_candidates(candidates, items, kind, CandidateClass::Approved),
        needs_cleanup: count_candidates(candidates, items, kind, CandidateClass::NeedsCleanup),
        rejected: count_candidates(candidates, items, kind, CandidateClass::Rejected),
        unknown: count_candidates(candidates, items, kind, CandidateClass::Unknown),
    }
}

/// The kinds of candidates and items, in order and each once.
pub open spec fn all_kinds(
    candidates: Seq<DriftCleanupCandidateView>,
    items: Seq<DriftCleanupRequestItemView>,
) -> Seq<Seq<char>> {
    sorted_set(
        candidates.map_values(|c: DriftCleanupCandidateView| c.kind) + items.map_values(
            |i: DriftCleanupRequestItemView| i.kind,
        ),
    )
}

/// The kinds of candidates and items, in order and each once.
pub fn list_kinds(
    candidates: &Vec<DriftCleanupCandidate>,
    items: &Vec<DriftCleanupRequestItem>,
) -> (r: Vec<String>)
    ensures
        r.deep_view() == all_kinds(candidates.deep_view(), items.deep_view()),
{
    let ghost a = candidates.deep_view().map_values(|c: DriftCleanupCandidateView| c.kind);
    let ghost b = items.deep_view().map_values(|i: DriftCleanupRequestItemView| i.kind);
    let mut kinds: Vec<String> = Vec::new();
    let mut i: usize = 0;
    while i < candidates.len()
        invariant
            i <= candidates@.len(),
            kinds@.len() == i,
            forall|j: int|
                0 <= j < i ==> (#[trigger] kinds@[j])@ == candidates.deep_view()[j].kind,
        decreases candidates@.len() - i,
    {
        kinds.push(candidates[i].kind.clone());
        i = i + 1;
    }
    let mut k: usize = 0;
    while k < items.len()
        invariant
            k <= items@.len(),
            i == candidates@.len(),
            kinds@.len() == i + k,
            forall|j: int|
                0 <= j < i ==> (#[trigger] kinds@[j])@ == candidates.deep_view()[j].kind,
            forall|j: int|
                i <= j < i + k ==> (#[trigger] kinds@[j])@ == items.deep_view()[j - i].kind,
        decreases items@.len() - k,
    {
        kinds.push(items[k].kind.clone());
        k = k + 1;
    }
    proof {
        assert(kinds.deep_view() =~= a + b);
    }
    unique_sorted(kinds)
}

/// Progress for every kind, in the order of the kinds.
pub open spec fn progress_by_kind(
    candidates: Seq<DriftCleanupCandidateView>,
    items: Seq<DriftCleanupRequestItemView>,
) -> Seq<DriftCleanupProgressKindView> {
    let kinds = all_kinds(candidates, items);
    Seq::new(kinds.len(), |i: int| kind_progress(candidates, items, kinds[i]))
}

/// Progress for every kind, in the order of the kinds.
pub fn list_progress_by_kind(
    candidates: &Vec<DriftCleanupCandidate>,
    items: &Vec<DriftCleanupRequestItem>,
) -> (r: Vec<DriftCleanupProgressKind>)
    ensures
        r.deep_view() == progress_by_kind(candidates.deep_view(), items.deep_view()),
{
    let kinds = list_kinds(candidates, items);
    let ghost c = candidates.deep_view();
    let ghost t = items.deep_view();
    let mut out: Vec<DriftCleanupProgressKind> = Vec::new();
    let mut i: usize = 0;
    while i < kinds.len()
        invariant
            i <= kinds@.len(),
            out@.len() == i,
            c == candidates.deep_view(),
            t == items.deep_view(),
            forall|j: int|
                0 <= j < i ==> (#[trigger] out@[j]).deep_view() == kind_progress(
                    c,
                    t,
                    kinds.deep_view()[j],
                ),
        decreases kinds@.len() - i,
    {
        out.push(progress_of_kind(candidates, items, &kinds[i]));
        i = i + 1;
    }
    proof {
        assert(out.deep_view() =~= progress_by_kind(c, t));
    }
    out
}

/// What is wrong with a request as far as progress is concerned.
pub open spec fn progress_limitations(
    path: Seq<char>,
    document: DriftCleanupRequestDocumentView,
    build: DriftCleanupBuildView,
) -> Seq<Seq<char>> {
    build.limitations + schema_remark(document) + request_verdict(path, document).limitations
}

/// The progress of a request that was read.
pub open spec fn document_progress(
    path: Seq<char>,
    document: DriftCleanupRequestDocumentView,
    build: DriftCleanupBuildView,
) -> DriftCleanupProgressReportView {
    let items = document.items;
    let missing = missing_items(build.candidates, items);
    let stale = stale_items_of(build.candidates, items);
    let verdict = request_verdict(path, document);
    let limitations = progress_limitations(path, document, build);
    DriftCleanupProgressReportView {
        ok: limitations.len() == 0,
        read_only: true,
        status: if limitations.len() > 0 {
            "blocked"@
        } else if missing.len() > 0 || stale.len() > 0 {
            "sync_required"@
        } else if verdict.approved > 0 || verdict.needs_cleanup > 0 || verdict.rejected > 0 {
            "reviewed"@
        } else {
            "pending_review"@
        },
        request_file: path,
        current_candidates: build.candidates.len(),
        request_items: items.len(),
        matched_current: (build.candidates.len() - missing.len()) as nat,
        missing_current: missing.len(),
        stale_items: stale.len(),
        approved: verdict.approved,
        needs_cleanup: verdict.needs_cleanup,
        rejected: verdict.rejected,
        unknown: verdict.unknown,
        by_kind: progress_by_kind(build.candidates, items),
        missing,
        stale,
        limitations: sorted_set(limitations),
    }
}

/// The candidates that the request lacks.
pub fn list_missing(
    candidates: &Vec<DriftCleanupCandidate>,
    items: &Vec<DriftCleanupRequestItem>,
) -> (r: Vec<DriftCleanupProgressItem>)
    ensures
        r.deep_view() == missing_items(candidates.deep_view(), items.deep_view()),
        r@.len() <= candidates@.len(),
{
    let ghost all = candidates.deep_view();
    let mut out: Vec<DriftCleanupProgressItem> = Vec::new();
    let mut i: usize = 0;
    proof {
        ends(all);
        assert(out.deep_view() =~= Seq::<DriftCleanupProgressItemView>::empty());
    }
    while i < candidates.len()
        invariant
            i <= candidates@.len(),
            out@.len() <= i,
            all == candidates.deep_view(),
            out.deep_view() == missing_items(all.take(i as int), items.deep_view()),
        decreases candidates@.len() - i,
    {
        proof {
            step(all, i as int);
        }
        let c = &candidates[i];
        if find_item(items, &c.kind, &c.target).is_none() {
            out.push(
                DriftCleanupProgressItem {
                    kind: c.kind.clone(),
                    target: c.target.clone(),
                    request_id: None,
                    approval_status: None,
                    risk: c.risk.clone(),
                },
            );
        }
        i = i + 1;
    }
    proof {
        ends(all);
    }
    out
}

/// The items that are no longer candidates.
pub fn list_stale(
    candidates: &Vec<DriftCleanupCandidate>,
    items: &Vec<DriftCleanupRequestItem>,
) -> (r: Vec<DriftCleanupProgressItem>)
    ensures
        r.deep_view() == stale_items_of(candidates.deep_view(), items.deep_view()),
{
    let ghost all = items.deep_view();
    let mut out: Vec<DriftCleanupProgressItem> = Vec::new();
    let mut i: usize = 0;
    proof {
        ends(all);
        assert(out.deep_view() =~= Seq::<DriftCleanupProgressItemView>::empty());
    }
    while i < items.len()
        invariant
            i <= items@.len(),
            all == items.deep_view(),
            out.deep_view() == stale_items_of(candidates.deep_view(), all.take(i as int)),
        decreases items@.len() - i,
    {
        proof {
            step(all, i as int);
        }
        let item = &items[i];
        if !current_candidate(candidates, &item.kind, &item.target) {
            out.push(
                DriftCleanupProgressItem {
                    kind: item.kind.clone(),
                    target: item.target.clone(),
                    request_id: Some(item.request_id.clone()),
                    approval_status: Some(item.approval_status.clone()),
                    risk: item.risk.clone(),
                },
            );
        }
        i = i + 1;
    }
    proof {
        ends(all);
    }
    out
}

/// The progress of a request that was read.
fn cleanup_progress_from_document(
    path: &str,
    document: &DriftCleanupRequestDocument,
    verify: &DriftCleanupRequestVerifyReport,
    build: &DriftCleanupBuild,
) -> (r: DriftCleanupProgressReport)
    requires
        verify.deep_view() == request_verdict(path@, document.deep_view()),
    ensures
        r.deep_view() == document_progress(path@, document.deep_view(), build.deep_view()),
{
    let mut limitations = build.limitations.clone();
    note_schema(document, &mut limitations);
    extend(&mut limitations, &verify.limitations);
    let missing = list_missing(&build.candidates, &document.items);
    let stale = list_stale(&build.candidates, &document.items);
    let missing_current = missing.len();
    let stale_items = stale.len();
    let ok = limitations.is_empty();
    let status = if !ok {
        "blocked"
    } else if missing_current > 0 || stale_items > 0 {
        "sync_required"
    } else if verify.approved > 0 || verify.needs_cleanup > 0 || verify.rejected > 0 {
        "reviewed"
    } else {
        "pending_review"
    };
    DriftCleanupProgressReport {
        ok,
        read_only: true,
        status: status.to_string(),
        request_file: path.to_string(),
        current_candidates: build.candidates.len(),
        request_items: document.items.len(),
        matched_current: build.candidates.len() - missing_current,
        missing_current,
        stale_items,
        approved: verify.approved,
        needs_cleanup: verify.needs_cleanup,
        rejected: verify.rejected,
        unknown: verify.unknown,
        by_kind: list_progress_by_kind(&build.candidates, &document.items),
        missing,
        stale,
        limitations: unique_sorted(limitations),
    }
}

/// The progress of a loaded request.
pub open spec fn request_progress(
    build: DriftCleanupBuildView,
    request: LoadedRequestView,
) -> DriftCleanupProgressReportView {
    match request.document {
        Some(document) => document_progress(request.path, document, build),
        None => DriftCleanupProgressReportView {
            ok: false,
            read_only: true,
            status: "blocked"@,
            request_file: request.path,
            current_candidates: build.candidates.len(),
            request_items: 0,
            matched_current: 0,
            missing_current: build.candidates.len(),
            stale_items: 0,
            approved: 0,
            needs_cleanup: 0,
            rejected: 0,
            unknown: 0,
            by_kind: Seq::empty(),
            missing: Seq::empty(),
            stale: Seq::empty(),
            limitations: seq![request.error],
        },
    }
}

/// The progress of a loaded request against given candidates.
pub fn progress_against(build: &DriftCleanupBuild, request: &LoadedRequest) -> (r:
    DriftCleanupProgressReport)
    ensures
        r.deep_view() == request_progress(build.deep_view(), request.deep_view()),
{
    match &request.document {
        Some(document) => {
            let verify = drift_cleanup_request_verify(request);
            cleanup_progress_from_document(&request.path, document, &verify, build)
        },
        None => DriftCleanupProgressReport {
            ok: false,
            read_only: true,
            status: "blocked".to_string(),
            request_file: request.path.clone(),
            current_candidates: build.candidates.len(),
            request_items: 0,
            matched_current: 0,
            missing_current: build.candidates.len(),
            stale_items: 0,
            approved: 0,
            needs_cleanup: 0,
            rejected: 0,
            unknown: 0,
            by_kind: Vec::new(),
            missing: Vec::new(),
            stale: Vec::new(),
            limitations: vec![request.error.clone()],
        },
    }
}

/// The progress of a loaded request.
pub fn drift_cleanup_request_progress(
    registry: &Registry,
    observation: &Observation,
    request: &LoadedRequest,
) -> (r: DriftCleanupProgressReport)
    ensures
        r.deep_view() == request_progress(
            cleanup_build(registry.deep_view(), observation.deep_view()),
            request.deep_view(),
        ),
{
    let build = build_drift_cleanup(registry, observation);
    progress_against(&build, request)
}

// ---------------------------------------------------------------------------
// Laws
// ---------------------------------------------------------------------------

/// Whether a request has an item of this kind and target.
pub open spec fn is_requested(
    items: Seq<DriftCleanupRequestItemView>,
    kind: Seq<char>,
    target: Seq<char>,
) -> bool {
    exists|i: int|
        0 <= i < items.len() && (#[trigger] items[i]).kind == kind && items[i].target == target
}

/// Whether a candidate of this kind and target is there.
pub open spec fn is_observed(
    candidates: Seq<DriftCleanupCandidateView>,
    kind: Seq<char>,
    target: Seq<char>,
) -> bool {
    exists|i: int|
        0 <= i < candidates.len() && (#[trigger] candidates[i]).kind == kind
            && candidates[i].target == target
}

/// Looking for an item finds one exactly where the request has one, and looking for a
/// candidate finds one exactly where it is there.
pub proof fn law_lookups(
    candidates: Seq<DriftCleanupCandidateView>,
    items: Seq<DriftCleanupRequestItemView>,
    kind: Seq<char>,
    target: Seq<char>,
)
    ensures
        item_for(items, (kind, target)) is Some <==> is_requested(items, kind, target),
        item_for(items, (kind, target)) matches Some(item) ==> item.kind == kind && item.target
            == target && items.contains(item),
        candidate_for(candidates, (kind, target)) is Some <==> is_observed(
            candidates,
            kind,
            target,
        ),
        candidate_for(candidates, (kind, target)) matches Some(c) ==> c.kind == kind && c.target
            == target && candidates.contains(c),
        is_current(candidates, (kind, target)) <==> is_observed(candidates, kind, target),
{
    let p = |i: DriftCleanupRequestItemView| item_key(i) == (kind, target);
    let q = |c: DriftCleanupCandidateView| candidate_key(c) == (kind, target);
    law_last_where(items, p);
    law_last_where(candidates, q);
    lemma_any(candidates, q);
    if is_requested(items, kind, target) {
        let i = choose|i: int|
            0 <= i < items.len() && (#[trigger] items[i]).kind == kind && items[i].target == target;
        assert(p(items[i]));
    }
    if is_observed(candidates, kind, target) {
        let i = choose|i: int|
            0 <= i < candidates.len() && (#[trigger] candidates[i]).kind == kind
                && candidates[i].target == target;
        assert(q(candidates[i]));
    }
    if item_for(items, (kind, target)) is Some {
        let i = choose|i: int|
            0 <= i < items.len() && #[trigger] items[i] == last_where(items, p)->0 && p(items[i])
                && forall|j: int| i < j < items.len() ==> !p(#[trigger] items[j]);
        assert(items[i].kind == kind);
    }
    if candidate_for(candidates, (kind, target)) is Some {
        let i = choose|i: int|
            0 <= i < candidates.len() && #[trigger] candidates[i] == last_where(candidates, q)->0
                && q(candidates[i]) && forall|j: int|
                i < j < candidates.len() ==> !q(#[trigger] candidates[j]);
        assert(candidates[i].kind == kind);
    }
}

/// What is missing of a request are the candidates that it has no item for; what is stale
/// are its items that no candidate is there for.
pub proof fn law_missing_and_stale(
    candidates: Seq<DriftCleanupCandidateView>,
    items: Seq<DriftCleanupRequestItemView>,
    x: DriftCleanupProgressItemView,
)
    ensures
        missing_items(candidates, items).contains(x) <==> x.request_id is None && x.approval_status
            is None && exists|i: int|
            0 <= i < candidates.len() && (#[trigger] candidates[i]).kind == x.kind
                && candidates[i].target == x.target && candidates[i].risk == x.risk
                && !is_requested(items, candidates[i].kind, candidates[i].target),
        stale_items_of(candidates, items).contains(x) <==> exists|i: int|
            0 <= i < items.len() && (#[trigger] items[i]).kind == x.kind && items[i].target
                == x.target && items[i].risk == x.risk && Some(items[i].request_id) == x.request_id
                && Some(items[i].approval_status) == x.approval_status && !is_observed(
                candidates,
                items[i].kind,
                items[i].target,
            ),
        missing_items(candidates, items).len() == tally(
            candidates,
            |c: DriftCleanupCandidateView| !is_requested(items, c.kind, c.target),
        ),
        stale_items_of(candidates, items).len() == tally(
            items,
            |i: DriftCleanupRequestItemView| !is_observed(candidates, i.kind, i.target),
        ),
{
    lemma_missing_one(candidates, items, x);
    lemma_stale_one(candidates, items, x);
    lemma_missing_count(candidates, items);
    lemma_stale_count(candidates, items);
}

proof fn lemma_missing_one(
    candidates: Seq<DriftCleanupCandidateView>,
    items: Seq<DriftCleanupRequestItemView>,
    x: DriftCleanupProgressItemView,
)
    ensures
        missing_items(candidates, items).contains(x) <==> x.request_id is None && x.approval_status
            is None && exists|i: int|
            0 <= i < candidates.len() && (#[trigger] candidates[i]).kind == x.kind
                && candidates[i].target == x.target && candidates[i].risk == x.risk
                && !is_requested(items, candidates[i].kind, candidates[i].target),
    decreases candidates.len(),
{
    if candidates.len() > 0 {
        let d = candidates.drop_last();
        let c = candidates.last();
        let last = candidates.len() - 1;
        lemma_missing_one(d, items, x);
        law_lookups(candidates, items, c.kind, c.target);
        assert(candidates[last] == c);
        assert forall|i: int| 0 <= i < d.len() implies #[trigger] d[i] == candidates[i] by {}
        let entry = DriftCleanupProgressItemView {
            kind: c.kind,
            target: c.target,
            request_id: None,
            approval_status: None,
            risk: c.risk,
        };
        law_one_more(missing_items(d, items), entry, x);
        if missing_items(d, items).contains(x) {
            let i = choose|i: int|
                0 <= i < d.len() && (#[trigger] d[i]).kind == x.kind && d[i].target == x.target
                    && d[i].risk == x.risk && !is_requested(items, d[i].kind, d[i].target);
            assert(candidates[i].kind == x.kind);
        }
        if exists|i: int|
            0 <= i < candidates.len() && (#[trigger] candidates[i]).kind == x.kind
                && candidates[i].target == x.target && candidates[i].risk == x.risk
                && !is_requested(items, candidates[i].kind, candidates[i].target) {
            let i = choose|i: int|
                0 <= i < candidates.len() && (#[trigger] candidates[i]).kind == x.kind
                    && candidates[i].target == x.target && candidates[i].risk == x.risk
                    && !is_requested(items, candidates[i].kind, candidates[i].target);
            if i < last {
                assert(d[i].kind == x.kind);
            }
        }
    }
}

proof fn lemma_stale_one(
    candidates: Seq<DriftCleanupCandidateView>,
    items: Seq<DriftCleanupRequestItemView>,
    x: DriftCleanupProgressItemView,
)
    ensures
        stale_items_of(candidates, items).contains(x) <==> exists|i: int|
            0 <= i < items.len() && (#[trigger] items[i]).kind == x.kind && items[i].target
                == x.target && items[i].risk == x.risk && Some(items[i].request_id) == x.request_id
                && Some(items[i].approval_status) == x.approval_status && !is_observed(
                candidates,
                items[i].kind,
                items[i].target,
            ),
    decreases items.len(),
{
    if items.len() > 0 {
        let d = items.drop_last();
        let c = items.last();
        let last = items.len() - 1;
        lemma_stale_one(candidates, d, x);
        law_lookups(candidates, items, c.kind, c.target);
        assert(items[last] == c);
        assert forall|i: int| 0 <= i < d.len() implies #[trigger] d[i] == items[i] by {}
        let entry = DriftCleanupProgressItemView {
            kind: c.kind,
            target: c.target,
            request_id: Some(c.request_id),
            approval_status: Some(c.approval_status),
            risk: c.risk,
        };
        law_one_more(stale_items_of(candidates, d), entry, x);
        if stale_items_of(candidates, d).contains(x) {
            let i = choose|i: int|
                0 <= i < d.len() && (#[trigger] d[i]).kind == x.kind && d[i].target == x.target
                    && d[i].risk == x.risk && Some(d[i].request_id) == x.request_id && Some(
                    d[i].approval_status,
                ) == x.approval_status && !is_observed(candidates, d[i].kind, d[i].target);
            assert(items[i].kind == x.kind);
        }
        if exists|i: int|
            0 <= i < items.len() && (#[trigger] items[i]).kind == x.kind && items[i].target
                == x.target && items[i].risk == x.risk && Some(items[i].request_id) == x.request_id
                && Some(items[i].approval_status) == x.approval_status && !is_observed(
                candidates,
                items[i].kind,
                items[i].target,
            ) {
            let i = choose|i: int|
                0 <= i < items.len() && (#[trigger] items[i]).kind == x.kind && items[i].target
                    == x.target && items[i].risk == x.risk && Some(items[i].request_id)
                    == x.request_id && Some(items[i].approval_status) == x.approval_status
                    && !is_observed(candidates, items[i].kind, items[i].target);
            if i < last {
                assert(d[i].kind == x.kind);
            }
        }
    }
}

proof fn lemma_missing_count(
    candidates: Seq<DriftCleanupCandidateView>,
    items: Seq<DriftCleanupRequestItemView>,
)
    ensures
        missing_items(candidates, items).len() == tally(
            candidates,
            |c: DriftCleanupCandidateView| !is_requested(items, c.kind, c.target),
        ),
    decreases candidates.len(),
{
    if candidates.len() > 0 {
        lemma_missing_count(candidates.drop_last(), items);
        law_lookups(candidates, items, candidates.last().kind, candidates.last().target);
    }
}

proof fn lemma_stale_count(
    candidates: Seq<DriftCleanupCandidateView>,
    items: Seq<DriftCleanupRequestItemView>,
)
    ensures
        stale_items_of(candidates, items).len() == tally(
            items,
            |i: DriftCleanupRequestItemView| !is_observed(candidates, i.kind, i.target),
        ),
    decreases items.len(),
{
    if items.len() > 0 {
        lemma_stale_count(candidates, items.drop_last());
        law_lookups(candidates, items, items.last().kind, items.last().target);
    }
}

/// The progress of a request is blocked where something is wrong with it or with what was
/// observed; else it has to be brought up to date where something is missing or stale;
/// else it is reviewed where an item is decided on, and waits for that otherwise. The
/// counts are those of the candidates and the items.
pub proof fn law_progress(
    path: Seq<char>,
    document: DriftCleanupRequestDocumentView,
    build: DriftCleanupBuildView,
)
    ensures
        ({
            let p = document_progress(path, document, build);
            let items = document.items;
            let verdict = request_verdict(path, document);
            &&& p.ok <==> build.limitations.len() == 0 && document.schema_version
                == "opsctl.drift_cleanup_request.v1"@ && verdict.limitations.len() == 0
            &&& p.status == "blocked"@ <==> !p.ok
            &&& p.status == "sync_required"@ <==> p.ok && (p.missing_current > 0 || p.stale_items
                > 0)
            &&& p.status == "reviewed"@ <==> p.ok && p.missing_current == 0 && p.stale_items == 0
                && (verdict.approved > 0 || verdict.needs_cleanup > 0 || verdict.rejected > 0)
            &&& p.current_candidates == build.candidates.len()
            &&& p.request_items == items.len()
            &&& p.missing_current == tally(
                build.candidates,
                |c: DriftCleanupCandidateView| !is_requested(items, c.kind, c.target),
            )
            &&& p.stale_items == tally(
                items,
                |i: DriftCleanupRequestItemView| !is_observed(build.candidates, i.kind, i.target),
            )
            &&& p.matched_current + p.missing_current == p.current_candidates
            &&& p.missing.len() == p.missing_current
            &&& p.stale.len() == p.stale_items
            &&& p.approved == verdict.approved
            &&& p.needs_cleanup == verdict.needs_cleanup
            &&& p.rejected == verdict.rejected
            &&& p.unknown == verdict.unknown
        }),
{
    lemma_missing_count(build.candidates, document.items);
    lemma_stale_count(build.candidates, document.items);
    lemma_tally_bound(
        build.candidates,
        |c: DriftCleanupCandidateView| !is_requested(document.items, c.kind, c.target),
    );
    reveal_strlit("blocked");
    reveal_strlit("sync_required");
    reveal_strlit("reviewed");
    reveal_strlit("pending_review");
    assert("blocked"@.len() == 7 && "sync_required"@.len() == 13 && "reviewed"@.len() == 8
        && "pending_review"@.len() == 14);
}

} // verus!
