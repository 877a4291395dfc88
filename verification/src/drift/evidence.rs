//! Collecting read-only evidence for the items of a cleanup request.

use vstd::prelude::*;
use crate::drift::candidates::{
    LoadedRequest, LoadedRequestView, build_drift_cleanup, cleanup_build, current_candidate,
    is_current, item_key,
};
use crate::drift::findings::no_filter;
use crate::drift::mark::{item_is_named, names_item};
use crate::drift::ownership::{drift_ownership, drift_ownership_spec};
use crate::drift::plan::{cleanup_execution_plan_entry, plan_entry, plan_required};
use crate::drift::progress::{is_observed, law_lookups};
use crate::drift::types::{
    DriftCleanupCandidate, DriftCleanupCandidateView, DriftCleanupEvidenceEntry,
    DriftCleanupEvidenceEntryView, DriftCleanupEvidenceOptions, DriftCleanupEvidenceOptionsView,
    DriftCleanupEvidenceReport, DriftCleanupEvidenceReportView, DriftCleanupRequestDocument,
    DriftCleanupRequestDocumentView, DriftCleanupRequestItem, DriftCleanupRequestItemView,
    DriftFilter, DriftOwnershipFinding, DriftOwnershipFindingView,
};
use crate::drift::verify::{
    fits_on_a_line, given_remark, note_schema, schema_remark, validate_given_text,
};
use crate::list::{
    all_labelled, chosen, extend, gathered, increasing, last_where, law_either_list, law_one_more,
    law_sorted_set, note, note_all, noted, put, same_texts, sorted_set, tally, unique_sorted,
};
use crate::number::{bool_text, bool_word};
use crate::registry::{Registry, RegistryView};
use crate::scan::{Observation, ObservationView};
use crate::text::{cat2, ends, law_found_parts_are_there, same, step, trim, trimmed};

verus! {

broadcast use {vstd::seq::group_seq_axioms, vstd::string::group_string_axioms};

// ---------------------------------------------------------------------------
// Selecting items
// ---------------------------------------------------------------------------

/// Whether the options name items by id or target.
pub open spec fn names_some_item(options: DriftCleanupEvidenceOptionsView) -> bool {
    options.request_ids.len() > 0 || options.targets.len() > 0 || options.target_prefix is Some
        || options.target_contains is Some || options.target_suffix is Some
}

/// Whether the options name items by id or target.
pub fn has_item_selector(options: &DriftCleanupEvidenceOptions<'_>) -> (r: bool)
    ensures
        r == names_some_item(options.deep_view()),
{
    options.request_ids.len() > 0 || options.targets.len() > 0 || options.target_prefix.is_some()
        || options.target_contains.is_some() || options.target_suffix.is_some()
}

/// Whether evidence is to be collected for an item.
pub open spec fn evidence_selects(
    item: DriftCleanupRequestItemView,
    options: DriftCleanupEvidenceOptionsView,
) -> bool {
    (options.kind is None || options.kind == Some(item.kind)) && if names_some_item(options) {
        names_item(
            options.request_ids,
            options.targets,
            options.target_prefix,
            options.target_contains,
            options.target_suffix,
            item,
        )
    } else {
        options.all
    }
}

/// Whether evidence is to be collected for an item.
pub fn cleanup_evidence_matches(
    item: &DriftCleanupRequestItem,
    options: &DriftCleanupEvidenceOptions<'_>,
) -> (r: bool)
    ensures
        r == evidence_selects(item.deep_view(), options.deep_view()),
{
    if let Some(kind) = options.kind {
        if !same(kind, &item.kind) {
            return false;
        }
    }
    if has_item_selector(options) {
        item_is_named(
            options.request_ids,
            options.targets,
            options.target_prefix,
            options.target_contains,
            options.target_suffix,
            item,
        )
    } else {
        options.all
    }
}

/// What is said of each selector that holds nothing but white space.
pub open spec fn empty_selectors(values: Seq<Seq<char>>, remark: Seq<char>) -> Seq<Seq<char>> {
    gathered(values, |v: Seq<char>| noted(trimmed(v).len() == 0, remark))
}

/// Remarks on each selector that holds nothing but white space.
pub fn note_empty_selectors(values: &[String], remark: &str, limitations: &mut Vec<String>)
    ensures
        final(limitations).deep_view() == old(limitations).deep_view() + empty_selectors(
            values.deep_view(),
            remark@,
        ),
{
    let ghost start = limitations.deep_view();
    let ghost all = values.deep_view();
    let mut i: usize = 0;
    proof {
        ends(all);
        assert(start + Seq::<Seq<char>>::empty() =~= start);
    }
    while i < values.len()
        invariant
            i <= values@.len(),
            all == values.deep_view(),
            limitations.deep_view() == start + empty_selectors(all.take(i as int), remark@),
        decreases values@.len() - i,
    {
        proof {
            step(all, i as int);
        }
        let bare = trim(&values[i]);
        note(limitations, bare.as_str().is_empty(), remark);
        proof {
            assert(limitations.deep_view() =~= start + empty_selectors(all.take(i + 1), remark@));
        }
        i = i + 1;
    }
    proof {
        ends(all);
    }
}

/// Everything that is wrong with a request to collect evidence.
#[verifier::opaque]
pub open spec fn evidence_option_limitations(options: DriftCleanupEvidenceOptionsView) -> Seq<
    Seq<char>,
> {
    Seq::empty() + noted(
        !options.all && !names_some_item(options),
        "select cleanup request items with --request-id/--target/target filters or pass --all"@,
    ) + given_remark("kind"@, options.kind) + given_remark("target_prefix"@, options.target_prefix)
        + given_remark("target_contains"@, options.target_contains) + given_remark(
        "target_suffix"@,
        options.target_suffix,
    ) + empty_selectors(options.request_ids, "request_id selector must not be empty"@)
        + empty_selectors(options.targets, "target selector must not be empty"@)
}

/// Everything that is wrong with a request to collect evidence.
pub fn validate_cleanup_evidence_options(options: &DriftCleanupEvidenceOptions<'_>) -> (r: Vec<
    String,
>)
    ensures
        r.deep_view() == evidence_option_limitations(options.deep_view()),
{
    let mut l: Vec<String> = Vec::new();
    proof {
        reveal(evidence_option_limitations);
        assert(l.deep_view() =~= Seq::<Seq<char>>::empty());
    }
    let named = has_item_selector(options);
    note(
        &mut l,
        !options.all && !named,
        "select cleanup request items with --request-id/--target/target filters or pass --all",
    );
    validate_given_text("kind", options.kind, &mut l);
    validate_given_text("target_prefix", options.target_prefix, &mut l);
    validate_given_text("target_contains", options.target_contains, &mut l);
    validate_given_text("target_suffix", options.target_suffix, &mut l);
    note_empty_selectors(options.request_ids, "request_id selector must not be empty", &mut l);
    note_empty_selectors(options.targets, "target selector must not be empty", &mut l);
    l
}

// ---------------------------------------------------------------------------
// Evidence for one item
// ---------------------------------------------------------------------------

/// What is known of the owner of a resource: the last finding with its kind and
/// target.
pub open spec fn ownership_for(
    findings: Seq<DriftOwnershipFindingView>,
    key: (Seq<char>, Seq<char>),
) -> Option<DriftOwnershipFindingView> {
    last_where(findings, |f: DriftOwnershipFindingView| (f.kind, f.target) == key)
}

/// What is known of the owner of a resource.
pub fn find_ownership<'a>(findings: &'a Vec<DriftOwnershipFinding>, kind: &str, target: &str) -> (r:
    Option<&'a DriftOwnershipFinding>)
    ensures
        r.deep_view() == ownership_for(findings.deep_view(), (kind@, target@)),
{
    let ghost all = findings.deep_view();
    let mut hit: Option<&'a DriftOwnershipFinding> = None;
    let mut i: usize = 0;
    proof {
        ends(all);
    }
    while i < findings.len()
        invariant
            i <= findings@.len(),
            all == findings.deep_view(),
            hit.deep_view() == ownership_for(all.take(i as int), (kind@, target@)),
        decreases findings@.len() - i,
    {
        proof {
            step(all, i as int);
        }
        if same(&findings[i].kind, kind) && same(&findings[i].target, target) {
            hit = Some(&findings[i]);
        }
        i = i + 1;
    }
    proof {
        ends(all);
    }
    hit
}

/// What is known of the owner, as evidence.
pub open spec fn owner_evidence(ownership: Option<DriftOwnershipFindingView>) -> Seq<Seq<char>> {
    match ownership {
        Some(f) => f.evidence.push("review_action="@ + f.review_action).push(
            "cleanup_risk="@ + f.cleanup_risk,
        ).push("exact_match_required="@ + bool_word(f.exact_match_required)),
        None => Seq::<Seq<char>>::empty().push("current_ownership_evidence=unavailable"@),
    }
}

/// The services that may own a resource.
pub open spec fn owner_candidates(ownership: Option<DriftOwnershipFindingView>) -> Seq<Seq<char>> {
    match ownership {
        Some(f) => f.service_candidates,
        None => Seq::empty(),
    }
}

/// What identifies a resource.
pub open spec fn owner_fingerprint(
    item: DriftCleanupRequestItemView,
    ownership: Option<DriftOwnershipFindingView>,
) -> Seq<Seq<char>> {
    match ownership {
        Some(f) => f.resource_fingerprint,
        None => seq!["kind="@ + item.kind, "target="@ + item.target],
    }
}

/// The evidence for an item, sorted and without repeats.
pub open spec fn collected_evidence(
    item: DriftCleanupRequestItemView,
    current: bool,
    ownership: Option<DriftOwnershipFindingView>,
) -> Seq<Seq<char>> {
    sorted_set(
        owner_evidence(ownership).push("current_candidate="@ + bool_word(current)) + all_labelled(
            "service_candidate="@,
            owner_candidates(ownership),
        ) + all_labelled("resource_fingerprint="@, owner_fingerprint(item, ownership))
            + all_labelled("required_evidence="@, plan_entry(item).required_evidence),
    )
}

/// Whether collecting evidence changes an item.
pub open spec fn evidence_changes(
    item: DriftCleanupRequestItemView,
    current: bool,
    ownership: Option<DriftOwnershipFindingView>,
) -> bool {
    item.collected_evidence != collected_evidence(item, current, ownership)
        || item.evidence_collected_at is None
}

/// What collecting evidence says of one item.
pub open spec fn evidence_entry(
    item: DriftCleanupRequestItemView,
    current: bool,
    ownership: Option<DriftOwnershipFindingView>,
) -> DriftCleanupEvidenceEntryView {
    DriftCleanupEvidenceEntryView {
        request_id: item.request_id,
        kind: item.kind,
        target: item.target,
        current_candidate: current,
        confidence: match ownership {
            Some(f) => Some(f.confidence),
            None => None,
        },
        service_candidates: sorted_set(owner_candidates(ownership)),
        evidence: collected_evidence(item, current, ownership),
        resource_fingerprint: sorted_set(owner_fingerprint(item, ownership)),
        required_evidence: plan_entry(item).required_evidence,
        changed: evidence_changes(item, current, ownership),
        limitations: sorted_set(
            Seq::empty() + noted(
                !current,
                "item is not present in the current cleanup candidate scan; sync before approval"@,
            ) + noted(
                ownership is None,
                "ownership evidence is unavailable for this item; manual inspection is required"@,
            ),
        ),
    }
}

/// What collecting evidence says of one item.
pub fn cleanup_evidence_entry(
    item: &DriftCleanupRequestItem,
    current: bool,
    ownership: Option<&DriftOwnershipFinding>,
) -> (r: DriftCleanupEvidenceEntry)
    ensures
        r.deep_view() == evidence_entry(item.deep_view(), current, ownership.deep_view()),
{
    let plan = cleanup_execution_plan_entry(item);
    let mut limitations: Vec<String> = Vec::new();
    proof {
        assert(limitations.deep_view() =~= Seq::<Seq<char>>::empty());
    }
    note(
        &mut limitations,
        !current,
        "item is not present in the current cleanup candidate scan; sync before approval",
    );
    note(
        &mut limitations,
        ownership.is_none(),
        "ownership evidence is unavailable for this item; manual inspection is required",
    );
    let mut evidence: Vec<String>;
    let confidence: Option<String>;
    let candidates: Vec<String>;
    let fingerprint: Vec<String>;
    match ownership {
        Some(f) => {
            evidence = f.evidence.clone();
            put(&mut evidence, &cat2("review_action=", &f.review_action));
            put(&mut evidence, &cat2("cleanup_risk=", &f.cleanup_risk));
            put(&mut evidence, &cat2("exact_match_required=", bool_text(f.exact_match_required)));
            confidence = Some(f.confidence.clone());
            candidates = f.service_candidates.clone();
            fingerprint = f.resource_fingerprint.clone();
        },
        None => {
            evidence = Vec::new();
            proof {
                assert(evidence.deep_view() =~= Seq::<Seq<char>>::empty());
            }
            put(&mut evidence, "current_ownership_evidence=unavailable");
            confidence = None;
            candidates = Vec::new();
            fingerprint = vec![cat2("kind=", &item.kind), cat2("target=", &item.target)];
            proof {
                assert(candidates.deep_view() =~= Seq::<Seq<char>>::empty());
                assert(fingerprint.deep_view() =~= owner_fingerprint(item.deep_view(), None));
            }
        },
    }
    put(&mut evidence, &cat2("current_candidate=", bool_text(current)));
    note_all(&mut evidence, "service_candidate=", &candidates);
    note_all(&mut evidence, "resource_fingerprint=", &fingerprint);
    note_all(&mut evidence, "required_evidence=", &plan.required_evidence);
    let collected = unique_sorted(evidence);
    let changed = !same_texts(&item.collected_evidence, &collected)
        || item.evidence_collected_at.is_none();
    DriftCleanupEvidenceEntry {
        request_id: item.request_id.clone(),
        kind: item.kind.clone(),
        target: item.target.clone(),
        current_candidate: current,
        confidence,
        service_candidates: unique_sorted(candidates),
        evidence: collected,
        resource_fingerprint: unique_sorted(fingerprint),
        required_evidence: plan.required_evidence,
        changed,
        limitations: unique_sorted(limitations),
    }
}

// ---------------------------------------------------------------------------
// Evidence for a request
// ---------------------------------------------------------------------------

/// What the server shows, as far as evidence speaks of it.
#[derive(Debug)]
pub struct EvidenceSource {
    pub candidates: Vec<DriftCleanupCandidate>,
    pub findings: Vec<DriftOwnershipFinding>,
    pub limitations: Vec<String>,
}

/// View of [`EvidenceSource`].
#[verifier::ext_equal]
pub struct EvidenceSourceView {
    pub candidates: Seq<DriftCleanupCandidateView>,
    pub findings: Seq<DriftOwnershipFindingView>,
    pub limitations: Seq<Seq<char>>,
}

impl DeepView for EvidenceSource {
    type V = EvidenceSourceView;

    open spec fn deep_view(&self) -> EvidenceSourceView {
        EvidenceSourceView {
            candidates: self.candidates.deep_view(),
            findings: self.findings.deep_view(),
            limitations: self.limitations.deep_view(),
        }
    }
}

/// The outcome of collecting evidence, and the document to write where there is
/// one.
#[derive(Debug)]
pub struct DriftCleanupEvidencePlan {
    pub report: DriftCleanupEvidenceReport,
    pub write: Option<DriftCleanupRequestDocument>,
}

/// View of [`DriftCleanupEvidencePlan`].
#[verifier::ext_equal]
pub struct DriftCleanupEvidencePlanView {
    pub report: DriftCleanupEvidenceReportView,
    pub write: Option<DriftCleanupRequestDocumentView>,
}

impl DeepView for DriftCleanupEvidencePlan {
    type V = DriftCleanupEvidencePlanView;

    open spec fn deep_view(&self) -> DriftCleanupEvidencePlanView {
        DriftCleanupEvidencePlanView {
            report: self.report.deep_view(),
            write: self.write.deep_view(),
        }
    }
}

/// What collecting evidence does with the items of a request.
#[derive(Debug)]
pub struct EvidencedItems {
    pub items: Vec<DriftCleanupRequestItem>,
    pub entries: Vec<DriftCleanupEvidenceEntry>,
    pub updated: usize,
    pub unchanged: usize,
}

/// View of [`EvidencedItems`].
#[verifier::ext_equal]
pub struct EvidencedItemsView {
    pub items: Seq<DriftCleanupRequestItemView>,
    pub entries: Seq<DriftCleanupEvidenceEntryView>,
    pub updated: nat,
    pub unchanged: nat,
}

impl DeepView for EvidencedItems {
    type V = EvidencedItemsView;

    open spec fn deep_view(&self) -> EvidencedItemsView {
        EvidencedItemsView {
            items: self.items.deep_view(),
            entries: self.entries.deep_view(),
            updated: self.updated as nat,
            unchanged: self.unchanged as nat,
        }
    }
}

/// What the server shows.
pub open spec fn evidence_source(
    registry: RegistryView,
    observation: ObservationView,
) -> EvidenceSourceView {
    let build = cleanup_build(registry, observation);
    let ownership = drift_ownership_spec(registry, observation, no_filter());
    EvidenceSourceView {
        candidates: build.candidates,
        findings: ownership.findings,
        limitations: build.limitations + ownership.limitations,
    }
}

/// What the server shows.
pub fn read_evidence_source(registry: &Registry, observation: &Observation) -> (r: EvidenceSource)
    ensures
        r.deep_view() == evidence_source(registry.deep_view(), observation.deep_view()),
{
    let build = build_drift_cleanup(registry, observation);
    let ownership = drift_ownership(
        registry,
        observation,
        &DriftFilter { code: None, target: None },
    );
    let mut limitations = build.limitations;
    extend(&mut limitations, &ownership.limitations);
    EvidenceSource { candidates: build.candidates, findings: ownership.findings, limitations }
}

/// What collecting evidence says of an item of a request.
pub open spec fn entry_from(
    source: EvidenceSourceView,
    item: DriftCleanupRequestItemView,
) -> DriftCleanupEvidenceEntryView {
    evidence_entry(
        item,
        is_current(source.candidates, item_key(item)),
        ownership_for(source.findings, item_key(item)),
    )
}

/// An item after evidence was collected: its evidence and the time are replaced
/// if and only if it is selected and its evidence changes.
pub open spec fn item_with_evidence(
    source: EvidenceSourceView,
    item: DriftCleanupRequestItemView,
    options: DriftCleanupEvidenceOptionsView,
    now: Seq<char>,
) -> DriftCleanupRequestItemView {
    if evidence_selects(item, options) && entry_from(source, item).changed {
        DriftCleanupRequestItemView {
            collected_evidence: entry_from(source, item).evidence,
            evidence_collected_at: Some(now),
            ..item
        }
    } else {
        item
    }
}

/// The items after evidence was collected.
pub open spec fn items_with_evidence(
    source: EvidenceSourceView,
    items: Seq<DriftCleanupRequestItemView>,
    options: DriftCleanupEvidenceOptionsView,
    now: Seq<char>,
) -> Seq<DriftCleanupRequestItemView> {
    items.map_values(
        |i: DriftCleanupRequestItemView| item_with_evidence(source, i, options, now),
    )
}

/// What collecting evidence says of the selected items.
pub open spec fn evidence_entries(
    source: EvidenceSourceView,
    items: Seq<DriftCleanupRequestItemView>,
    options: DriftCleanupEvidenceOptionsView,
) -> Seq<DriftCleanupEvidenceEntryView> {
    chosen(
        items,
        |i: DriftCleanupRequestItemView|
            if evidence_selects(i, options) {
                Some(entry_from(source, i))
            } else {
                None
            },
    )
}

/// How many selected items change, or stay.
pub open spec fn evidenced_count(
    source: EvidenceSourceView,
    items: Seq<DriftCleanupRequestItemView>,
    options: DriftCleanupEvidenceOptionsView,
    changed: bool,
) -> nat {
    tally(
        items,
        |i: DriftCleanupRequestItemView|
            evidence_selects(i, options) && entry_from(source, i).changed == changed,
    )
}

/// What collecting evidence does with the items of a request.
pub fn collect_item_evidence(
    source: &EvidenceSource,
    items: &Vec<DriftCleanupRequestItem>,
    options: &DriftCleanupEvidenceOptions<'_>,
    now: &str,
) -> (r: EvidencedItems)
    ensures
        r.items.deep_view() == items_with_evidence(
            source.deep_view(),
            items.deep_view(),
            options.deep_view(),
            now@,
        ),
        r.entries.deep_view() == evidence_entries(
            source.deep_view(),
            items.deep_view(),
            options.deep_view(),
        ),
        r.updated == evidenced_count(
            source.deep_view(),
            items.deep_view(),
            options.deep_view(),
            true,
        ),
        r.unchanged == evidenced_count(
            source.deep_view(),
            items.deep_view(),
            options.deep_view(),
            false,
        ),
{
    let ghost all = items.deep_view();
    let ghost o = options.deep_view();
    let ghost src = source.deep_view();
    let mut out: Vec<DriftCleanupRequestItem> = Vec::new();
    let mut entries: Vec<DriftCleanupEvidenceEntry> = Vec::new();
    let mut updated: usize = 0;
    let mut unchanged: usize = 0;
    let mut i: usize = 0;
    proof {
        ends(all);
        assert(entries.deep_view() =~= Seq::<DriftCleanupEvidenceEntryView>::empty());
    }
    while i < items.len()
        invariant
            i <= items@.len(),
            all == items.deep_view(),
            o == options.deep_view(),
            src == source.deep_view(),
            out@.len() == i,
            forall|j: int|
                0 <= j < i ==> (#[trigger] out@[j]).deep_view() == item_with_evidence(
                    src,
                    all[j],
                    o,
                    now@,
                ),
            entries.deep_view() == evidence_entries(src, all.take(i as int), o),
            updated <= i,
            unchanged <= i,
            updated == evidenced_count(src, all.take(i as int), o, true),
            unchanged == evidenced_count(src, all.take(i as int), o, false),
        decreases items@.len() - i,
    {
        let item = &items[i];
        proof {
            step(all, i as int);
            assert(all[i as int] == item.deep_view());
        }
        let mut copy = item.clone();
        if cleanup_evidence_matches(item, options) {
            let current = current_candidate(&source.candidates, &item.kind, &item.target);
            let ownership = find_ownership(&source.findings, &item.kind, &item.target);
            let entry = cleanup_evidence_entry(item, current, ownership);
            if entry.changed {
                updated = updated + 1;
                copy.collected_evidence = entry.evidence.clone();
                copy.evidence_collected_at = Some(now.to_string());
            } else {
                unchanged = unchanged + 1;
            }
            entries.push(entry);
        }
        out.push(copy);
        i = i + 1;
    }
    proof {
        ends(all);
        assert(out.deep_view() =~= items_with_evidence(src, all, o, now@));
    }
    EvidencedItems { items: out, entries, updated, unchanged }
}

/// Everything that keeps evidence from being written.
pub open spec fn all_evidence_limitations(
    source: EvidenceSourceView,
    document: DriftCleanupRequestDocumentView,
    options: DriftCleanupEvidenceOptionsView,
) -> Seq<Seq<char>> {
    evidence_option_limitations(options) + source.limitations + schema_remark(document) + noted(
        evidence_entries(source, document.items, options).len() == 0,
        "no cleanup request items matched the selector"@,
    )
}

/// The outcome of collecting evidence before anything is written: the document
/// is to be written if and only if nothing is wrong, execution is asked for, and
/// some item changes.
pub open spec fn evidence_plan_of(
    source: EvidenceSourceView,
    request: LoadedRequestView,
    options: DriftCleanupEvidenceOptionsView,
    now: Seq<char>,
) -> DriftCleanupEvidencePlanView {
    match request.document {
        None => DriftCleanupEvidencePlanView {
            report: DriftCleanupEvidenceReportView {
                ok: false,
                execute: options.execute,
                read_only: !options.execute,
                status: "blocked"@,
                request_file: request.path,
                matched: 0,
                updated: 0,
                unchanged: 0,
                backup_file: None,
                entries: Seq::empty(),
                limitations: seq![request.error],
            },
            write: None,
        },
        Some(document) => {
            let limitations = all_evidence_limitations(source, document, options);
            let entries = evidence_entries(source, document.items, options);
            let updated = evidenced_count(source, document.items, options, true);
            let ok = limitations.len() == 0;
            DriftCleanupEvidencePlanView {
                report: DriftCleanupEvidenceReportView {
                    ok,
                    execute: options.execute,
                    read_only: !options.execute,
                    status: if !ok {
                        "blocked"@
                    } else if !options.execute {
                        "planned"@
                    } else if updated == 0 {
                        "unchanged"@
                    } else {
                        "updated"@
                    },
                    request_file: request.path,
                    matched: entries.len(),
                    updated,
                    unchanged: evidenced_count(source, document.items, options, false),
                    backup_file: None,
                    entries,
                    limitations: sorted_set(limitations),
                },
                write: if ok && options.execute && updated > 0 {
                    Some(
                        DriftCleanupRequestDocumentView {
                            items: items_with_evidence(source, document.items, options, now),
                            ..document
                        },
                    )
                } else {
                    None
                },
            }
        },
    }
}

/// Collects evidence from what the server shows.
pub fn evidence_against(
    source: &EvidenceSource,
    request: &LoadedRequest,
    options: &DriftCleanupEvidenceOptions<'_>,
    now: &str,
) -> (r: DriftCleanupEvidencePlan)
    ensures
        r.deep_view() == evidence_plan_of(
            source.deep_view(),
            request.deep_view(),
            options.deep_view(),
            now@,
        ),
{
    let document = match &request.document {
        Some(document) => document,
        None => {
            return DriftCleanupEvidencePlan {
                report: DriftCleanupEvidenceReport {
                    ok: false,
                    execute: options.execute,
                    read_only: !options.execute,
                    status: "blocked".to_string(),
                    request_file: request.path.clone(),
                    matched: 0,
                    updated: 0,
                    unchanged: 0,
                    backup_file: None,
                    entries: Vec::new(),
                    limitations: vec![request.error.clone()],
                },
                write: None,
            };
        },
    };
    let mut limitations = validate_cleanup_evidence_options(options);
    extend(&mut limitations, &source.limitations);
    note_schema(document, &mut limitations);
    let collected = collect_item_evidence(source, &document.items, options, now);
    let matched = collected.entries.len();
    note(&mut limitations, matched == 0, "no cleanup request items matched the selector");
    let ok = limitations.is_empty();
    let status = if !ok {
        "blocked"
    } else if !options.execute {
        "planned"
    } else if collected.updated == 0 {
        "unchanged"
    } else {
        "updated"
    };
    DriftCleanupEvidencePlan {
        report: DriftCleanupEvidenceReport {
            ok,
            execute: options.execute,
            read_only: !options.execute,
            status: status.to_string(),
            request_file: request.path.clone(),
            matched,
            updated: collected.updated,
            unchanged: collected.unchanged,
            backup_file: None,
            entries: collected.entries,
            limitations: unique_sorted(limitations),
        },
        write: if ok && options.execute && collected.updated > 0 {
            Some(
                DriftCleanupRequestDocument {
                    schema_version: document.schema_version.clone(),
                    generated_at: document.generated_at.clone(),
                    source_active_findings: document.source_active_findings,
                    source_candidates: document.source_candidates,
                    items: collected.items,
                },
            )
        } else {
            None
        },
    }
}

/// Collects read-only evidence for the selected items of a loaded request.
pub fn drift_cleanup_request_evidence(
    options: &DriftCleanupEvidenceOptions<'_>,
    observation: &Observation,
    request: &LoadedRequest,
    now: &str,
) -> (r: DriftCleanupEvidencePlan)
    ensures
        r.deep_view() == evidence_plan_of(
            evidence_source(options.deep_view().registry, observation.deep_view()),
            request.deep_view(),
            options.deep_view(),
            now@,
        ),
{
    let source = read_evidence_source(options.registry, observation);
    evidence_against(&source, request, options, now)
}

/// The report of collecting evidence after its document was written, or could
/// not be.
pub open spec fn written_evidence(
    report: DriftCleanupEvidenceReportView,
    backup_file: Option<Seq<char>>,
    error: Seq<char>,
) -> DriftCleanupEvidenceReportView {
    match backup_file {
        Some(path) => DriftCleanupEvidenceReportView { backup_file: Some(path), ..report },
        None => DriftCleanupEvidenceReportView {
            ok: false,
            status: "blocked"@,
            limitations: sorted_set(report.limitations.push(error)),
            ..report
        },
    }
}

/// The report of collecting evidence after its document was written, or could
/// not be: the path of the backup, or the error.
pub fn finish_cleanup_evidence(
    report: DriftCleanupEvidenceReport,
    backup_file: Option<&str>,
    error: &str,
) -> (r: DriftCleanupEvidenceReport)
    ensures
        r.deep_view() == written_evidence(report.deep_view(), backup_file.deep_view(), error@),
{
    let mut report = report;
    match backup_file {
        Some(path) => {
            report.backup_file = Some(path.to_string());
        },
        None => {
            let mut limitations = report.limitations;
            put(&mut limitations, error);
            report.limitations = unique_sorted(limitations);
            report.ok = false;
            report.status = "blocked".to_string();
        },
    }
    report
}

// ---------------------------------------------------------------------------
// Laws
// ---------------------------------------------------------------------------

/// Collecting evidence records no decision: whatever an operator writes into an
/// item, and whatever the item is, stays as it is.
pub proof fn law_evidence_records_no_decision(
    source: EvidenceSourceView,
    items: Seq<DriftCleanupRequestItemView>,
    options: DriftCleanupEvidenceOptionsView,
    now: Seq<char>,
    i: int,
)
    requires
        0 <= i < items.len(),
    ensures
        items_with_evidence(source, items, options, now)[i] == (DriftCleanupRequestItemView {
            collected_evidence: items_with_evidence(
                source,
                items,
                options,
                now,
            )[i].collected_evidence,
            evidence_collected_at: items_with_evidence(
                source,
                items,
                options,
                now,
            )[i].evidence_collected_at,
            ..items[i]
        }),
{
}

/// Collecting evidence twice from the same server changes nothing the second
/// time: the evidence that is now on record is what would be collected.
pub proof fn law_evidence_is_collected_once(
    source: EvidenceSourceView,
    item: DriftCleanupRequestItemView,
    options: DriftCleanupEvidenceOptionsView,
    first: Seq<char>,
    second: Seq<char>,
)
    ensures
        ({
            let once = item_with_evidence(source, item, options, first);
            item_with_evidence(source, once, options, second) == once
        }),
{
    let once = item_with_evidence(source, item, options, first);
    reveal(plan_required);
    assert(plan_entry(once).required_evidence == plan_entry(item).required_evidence);
}

/// Nothing is written in a dry run.
pub proof fn law_dry_run_evidence_writes_nothing(
    source: EvidenceSourceView,
    request: LoadedRequestView,
    options: DriftCleanupEvidenceOptionsView,
    now: Seq<char>,
)
    requires
        !options.execute,
    ensures
        evidence_plan_of(source, request, options, now).write is None,
{
}

/// An item is selected exactly where it is of the kind that is asked for, if any, and is
/// named by its id or its target, or, where nothing is named, all are asked for.
pub proof fn law_which_items_get_evidence(
    item: DriftCleanupRequestItemView,
    options: DriftCleanupEvidenceOptionsView,
)
    ensures
        evidence_selects(item, options) <==> {
            let named = options.request_ids.len() > 0 || options.targets.len() > 0
                || options.target_prefix is Some || options.target_contains is Some
                || options.target_suffix is Some;
            &&& options.kind is None || options.kind->0 == item.kind
            &&& !named ==> options.all
            &&& named ==> {
                ||| options.request_ids.contains(item.request_id)
                ||| options.targets.contains(item.target)
                ||| options.target_prefix is Some && exists|rest: Seq<char>|
                    item.target == #[trigger] (options.target_prefix->0 + rest)
                ||| options.target_contains is Some && exists|front: Seq<char>, back: Seq<char>|
                    item.target == #[trigger] (front + options.target_contains->0 + back)
                ||| options.target_suffix is Some && exists|front: Seq<char>|
                    item.target == #[trigger] (front + options.target_suffix->0)
            }
        },
{
    if options.target_prefix is Some {
        law_found_parts_are_there(item.target, options.target_prefix->0);
    }
    if options.target_contains is Some {
        law_found_parts_are_there(item.target, options.target_contains->0);
    }
    if options.target_suffix is Some {
        law_found_parts_are_there(item.target, options.target_suffix->0);
    }
}

/// What is collected for an item tells whether it is still observed, who may own it, what
/// was found of it, and what is still asked of it, and nothing else.
pub proof fn law_what_is_collected(
    item: DriftCleanupRequestItemView,
    current: bool,
    ownership: Option<DriftOwnershipFindingView>,
    x: Seq<char>,
)
    ensures
        increasing(collected_evidence(item, current, ownership)),
        collected_evidence(item, current, ownership).contains(x) <==> {
            ||| x == "current_candidate="@ + (if current {
                "true"@
            } else {
                "false"@
            })
            ||| ownership is None && x == "current_ownership_evidence=unavailable"@
            ||| ownership is None && x == "resource_fingerprint="@ + ("kind="@ + item.kind)
            ||| ownership is None && x == "resource_fingerprint="@ + ("target="@ + item.target)
            ||| ownership is Some && {
                let f = ownership->0;
                ||| f.evidence.contains(x)
                ||| x == "review_action="@ + f.review_action
                ||| x == "cleanup_risk="@ + f.cleanup_risk
                ||| x == "exact_match_required="@ + (if f.exact_match_required {
                    "true"@
                } else {
                    "false"@
                })
                ||| exists|i: int|
                    0 <= i < f.service_candidates.len() && x == "service_candidate="@
                        + #[trigger] f.service_candidates[i]
                ||| exists|i: int|
                    0 <= i < f.resource_fingerprint.len() && x == "resource_fingerprint="@
                        + #[trigger] f.resource_fingerprint[i]
            }
            ||| exists|i: int|
                0 <= i < plan_entry(item).required_evidence.len() && x == "required_evidence="@
                    + #[trigger] plan_entry(item).required_evidence[i]
        },
{
    let a = owner_evidence(ownership);
    let b = a.push("current_candidate="@ + bool_word(current));
    let c = all_labelled("service_candidate="@, owner_candidates(ownership));
    let d = all_labelled("resource_fingerprint="@, owner_fingerprint(item, ownership));
    let e = all_labelled("required_evidence="@, plan_entry(item).required_evidence);
    law_sorted_set(b + c + d + e);
    law_either_list(b, c, x);
    law_either_list(b + c, d, x);
    law_either_list(b + c + d, e, x);
    law_one_more(a, "current_candidate="@ + bool_word(current), x);
    lemma_labels("service_candidate="@, owner_candidates(ownership), x);
    lemma_labels("resource_fingerprint="@, owner_fingerprint(item, ownership), x);
    lemma_labels("required_evidence="@, plan_entry(item).required_evidence, x);
    match ownership {
        Some(f) => {
            let r = "review_action="@ + f.review_action;
            let s = "cleanup_risk="@ + f.cleanup_risk;
            let t = "exact_match_required="@ + bool_word(f.exact_match_required);
            law_one_more(f.evidence, r, x);
            law_one_more(f.evidence.push(r), s, x);
            law_one_more(f.evidence.push(r).push(s), t, x);
        },
        None => {
            law_one_more(Seq::empty(), "current_ownership_evidence=unavailable"@, x);
            let p = owner_fingerprint(item, ownership);
            assert(p[0] == "kind="@ + item.kind && p[1] == "target="@ + item.target && p.len()
                == 2);
        },
    }
}

proof fn lemma_labels(prefix: Seq<char>, texts: Seq<Seq<char>>, x: Seq<char>)
    ensures
        all_labelled(prefix, texts).contains(x) <==> exists|i: int|
            0 <= i < texts.len() && x == prefix + #[trigger] texts[i],
{
    let all = all_labelled(prefix, texts);
    if all.contains(x) {
        let i = choose|i: int| 0 <= i < all.len() && all[i] == x;
        assert(x == prefix + texts[i]);
    }
    if exists|i: int| 0 <= i < texts.len() && x == prefix + #[trigger] texts[i] {
        let i = choose|i: int| 0 <= i < texts.len() && x == prefix + #[trigger] texts[i];
        assert(all[i] == x);
    }
}

/// Evidence is recorded with its time exactly for the selected items for which it is new
/// or was never collected; all other items stay as they are.
pub proof fn law_where_evidence_is_recorded(
    source: EvidenceSourceView,
    item: DriftCleanupRequestItemView,
    options: DriftCleanupEvidenceOptionsView,
    now: Seq<char>,
)
    ensures
        ({
            let found = collected_evidence(
                item,
                is_observed(source.candidates, item.kind, item.target),
                ownership_for(source.findings, (item.kind, item.target)),
            );
            let new = item_with_evidence(source, item, options, now);
            let due = evidence_selects(item, options) && (item.collected_evidence != found
                || item.evidence_collected_at is None);
            &&& due ==> new.collected_evidence == found && new.evidence_collected_at == Some(now)
            &&& !due ==> new == item
            &&& new.approval_status == item.approval_status
            &&& new.request_id == item.request_id
        }),
{
    law_lookups(source.candidates, Seq::empty(), item.kind, item.target);
}

/// What collecting evidence comes to: it is refused where something stands against it or
/// nothing is selected; otherwise the items are written where it is to be executed and
/// something changes.
pub proof fn law_what_collecting_comes_to(
    source: EvidenceSourceView,
    request: LoadedRequestView,
    options: DriftCleanupEvidenceOptionsView,
    now: Seq<char>,
)
    requires
        request.document is Some,
    ensures
        ({
            let document = request.document->0;
            let plan = evidence_plan_of(source, request, options, now);
            &&& plan.report.ok ==> {
                &&& source.limitations.len() == 0
                &&& document.schema_version == "opsctl.drift_cleanup_request.v1"@
                &&& plan.report.matched > 0
                &&& options.all || names_some_item(options)
            }
            &&& plan.write is Some <==> plan.report.ok && options.execute && plan.report.updated > 0
            &&& plan.write matches Some(written) ==> written.items == items_with_evidence(
                source,
                document.items,
                options,
                now,
            )
            &&& plan.report.read_only == !options.execute
            &&& plan.report.status == "blocked"@ <==> !plan.report.ok
            &&& plan.report.status == "planned"@ <==> plan.report.ok && !options.execute
            &&& plan.report.status == "updated"@ <==> plan.write is Some
            &&& plan.report.updated == tally(
                document.items,
                |i: DriftCleanupRequestItemView|
                    evidence_selects(i, options) && entry_from(source, i).changed == true,
            )
        }),
{
    let document = request.document->0;
    if all_evidence_limitations(source, document, options).len() == 0 {
        assert(evidence_option_limitations(options).len() == 0);
        reveal(evidence_option_limitations);
    }
    reveal_strlit("blocked");
    reveal_strlit("planned");
    reveal_strlit("updated");
    reveal_strlit("unchanged");
    assert("blocked"@[0] == 'b' && "planned"@[0] == 'p' && "updated"@[1] == 'p' && "unchanged"@[1]
        == 'n' && "updated"@[0] == 'u' && "unchanged"@[0] == 'u');
}

/// A report on what was to be written names the backup that was made; where none was, it is
/// blocked, and the failure stands with its other limits.
pub proof fn law_written_evidence(report: DriftCleanupEvidenceReportView, backup_file: Option<Seq<char>>, error: Seq<char>)
    ensures
        ({
            let r = written_evidence(report, backup_file, error);
            &&& backup_file is Some ==> r.backup_file == backup_file && r.ok == report.ok
                && r.status == report.status && r.limitations == report.limitations
            &&& backup_file is None ==> !r.ok && r.status == "blocked"@ && r.limitations.contains(
                error,
            ) && r.backup_file == report.backup_file
            &&& r.entries == report.entries && r.request_file == report.request_file
        }),
{
    law_sorted_set(report.limitations.push(error));
    law_one_more(report.limitations, error, error);
}

/// Evidence is collected from the candidates and the owners that were found, with the
/// limits of both.
pub proof fn law_where_evidence_comes_from(registry: RegistryView, observation: ObservationView)
    ensures
        ({
            let s = evidence_source(registry, observation);
            &&& s.candidates == cleanup_build(registry, observation).candidates
            &&& s.findings == drift_ownership_spec(registry, observation, no_filter()).findings
            &&& s.limitations.len() == 0 <==> cleanup_build(registry, observation).limitations.len()
                == 0 && drift_ownership_spec(
                registry,
                observation,
                no_filter(),
            ).limitations.len() == 0
        }),
        no_filter().code is None && no_filter().target is None,
{
}

/// Whether a text that was given can be used: it is not empty and fits on a line.
pub open spec fn is_usable_text(value: Option<Seq<char>>) -> bool {
    value is Some ==> value->0.len() > 0 && fits_on_a_line(value)
}

proof fn lemma_given(label: Seq<char>, value: Option<Seq<char>>)
    ensures
        given_remark(label, value).len() == 0 <==> is_usable_text(value),
{
}

proof fn lemma_selectors(values: Seq<Seq<char>>, remark: Seq<char>)
    ensures
        empty_selectors(values, remark).len() == 0 <==> forall|i: int|
            0 <= i < values.len() ==> trimmed(#[trigger] values[i]).len() > 0,
    decreases values.len(),
{
    if values.len() > 0 {
        let d = values.drop_last();
        lemma_selectors(d, remark);
        assert(values[values.len() - 1] == values.last());
        assert forall|i: int| 0 <= i < d.len() implies #[trigger] d[i] == values[i] by {}
        if empty_selectors(values, remark).len() == 0 {
            assert forall|i: int| 0 <= i < values.len() implies trimmed(
                #[trigger] values[i],
            ).len() > 0 by {
                if i < d.len() {
                    assert(d[i] == values[i]);
                }
            }
        }
        if forall|i: int| 0 <= i < values.len() ==> trimmed(#[trigger] values[i]).len() > 0 {
            assert forall|i: int| 0 <= i < d.len() implies trimmed(#[trigger] d[i]).len() > 0 by {
                assert(d[i] == values[i]);
            }
        }
    }
}

/// Evidence is collected exactly where all items or some selector is asked for, what was
/// given can be used, the sources have no limits, the request has the known format, and
/// something is selected.
#[verifier::spinoff_prover]
#[verifier::rlimit(40)]
pub proof fn law_when_evidence_is_collected(
    source: EvidenceSourceView,
    request: LoadedRequestView,
    options: DriftCleanupEvidenceOptionsView,
    now: Seq<char>,
)
    requires
        request.document is Some,
    ensures
        evidence_plan_of(source, request, options, now).report.ok <==> {
            &&& options.all || names_some_item(options)
            &&& is_usable_text(options.kind) && is_usable_text(options.target_prefix)
                && is_usable_text(options.target_contains) && is_usable_text(options.target_suffix)
            &&& forall|i: int|
                0 <= i < options.request_ids.len() ==> trimmed(
                    #[trigger] options.request_ids[i],
                ).len() > 0
            &&& forall|i: int|
                0 <= i < options.targets.len() ==> trimmed(#[trigger] options.targets[i]).len() > 0
            &&& source.limitations.len() == 0
            &&& request.document->0.schema_version == "opsctl.drift_cleanup_request.v1"@
            &&& evidence_entries(source, request.document->0.items, options).len() > 0
        },
{
    reveal(evidence_option_limitations);
    lemma_given("kind"@, options.kind);
    lemma_given("target_prefix"@, options.target_prefix);
    lemma_given("target_contains"@, options.target_contains);
    lemma_given("target_suffix"@, options.target_suffix);
    lemma_selectors(options.request_ids, "request_id selector must not be empty"@);
    lemma_selectors(options.targets, "target selector must not be empty"@);
}

} // verus!
