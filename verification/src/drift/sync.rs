//! Bringing a cleanup request up to date with the server.

use vstd::prelude::*;
use crate::drift::candidates::{
    DriftCleanupBuild, DriftCleanupBuildView, LoadedRequest, LoadedRequestView,
    build_drift_cleanup, candidate_key, cleanup_build, cleanup_request_item, current_candidate,
    is_current, item_key, request_item, request_schema, request_schema_version,
};
use crate::drift::progress::{
    CandidateClass, candidates_in, count_candidates, count_items_of_kind, find_item, is_observed,
    is_requested, item_for, items_of_kind, law_lookups, missing_items, stale_items_of,
};
use crate::drift::types::{
    DriftCleanupCandidate, DriftCleanupCandidateView, DriftCleanupProgressItemView,
    DriftCleanupRequestDocument, DriftCleanupRequestDocumentView, DriftCleanupRequestItem,
    DriftCleanupRequestItemView, DriftCleanupSyncDiffItem, DriftCleanupSyncDiffItemView,
    DriftCleanupSyncDiffKind, DriftCleanupSyncDiffKindView, DriftCleanupSyncEntry,
    DriftCleanupSyncEntryView, DriftCleanupSyncOptions, DriftCleanupSyncReport,
    DriftCleanupSyncReportView,
};
use crate::drift::verify::{note_schema, schema_remark};
use crate::list::{
    any, chosen, law_one_more, law_sorted_set, law_tally_agrees, lemma_any, note, noted,
    same_texts, sorted_set, tally, unique_sorted,
};
use crate::scan::Observation;
use crate::text::{as_text, ends, same, same_opt, step};

verus! {

broadcast use {vstd::seq::group_seq_axioms, vstd::string::group_string_axioms};

// ---------------------------------------------------------------------------
// Equality of documents
// ---------------------------------------------------------------------------

/// Whether two optional flags are equal.
pub fn same_flag(a: Option<bool>, b: Option<bool>) -> (r: bool)
    ensures
        r == (a == b),
{
    match (a, b) {
        (Some(x), Some(y)) => x == y,
        (None, None) => true,
        _ => false,
    }
}

/// Whether two optional texts are equal.
pub fn same_field(a: &Option<String>, b: &Option<String>) -> (r: bool)
    ensures
        r == (a.deep_view() == b.deep_view()),
{
    same_opt(as_text(a), as_text(b))
}

/// Whether two items are equal in every field.
pub fn same_item(a: &DriftCleanupRequestItem, b: &DriftCleanupRequestItem) -> (r: bool)
    ensures
        r == (a.deep_view() == b.deep_view()),
{
    same(&a.request_id, &b.request_id) && same(&a.kind, &b.kind) && same(&a.target, &b.target)
        && same(&a.code, &b.code) && same(&a.risk, &b.risk) && same_flag(a.running, b.running)
        && same_flag(a.public_bind, b.public_bind) && same_field(&a.data_risk, &b.data_risk)
        && same_field(&a.observed_status, &b.observed_status) && same(
        &a.planned_action,
        &b.planned_action,
    ) && same(&a.approval_status, &b.approval_status) && same_field(&a.owner, &b.owner)
        && same_field(&a.reason, &b.reason) && same_field(&a.operator_note, &b.operator_note)
        && same_field(&a.cleanup_strategy, &b.cleanup_strategy) && same_field(
        &a.exact_resource_id,
        &b.exact_resource_id,
    ) && same_field(&a.backup_snapshot_id, &b.backup_snapshot_id) && same_field(
        &a.restore_drill_id,
        &b.restore_drill_id,
    ) && same_field(&a.maintenance_window, &b.maintenance_window) && same_field(
        &a.rollback_plan,
        &b.rollback_plan,
    ) && same_field(&a.approval_expires_at, &b.approval_expires_at) && same_texts(
        &a.collected_evidence,
        &b.collected_evidence,
    ) && same_field(&a.evidence_collected_at, &b.evidence_collected_at)
        && a.destructive_command_generated == b.destructive_command_generated && same(
        &a.rationale,
        &b.rationale,
    )
}

/// Whether two documents differ in anything but the moment they were made.
pub open spec fn documents_differ(
    a: DriftCleanupRequestDocumentView,
    b: DriftCleanupRequestDocumentView,
) -> bool {
    ||| a.schema_version != b.schema_version
    ||| a.source_active_findings != b.source_active_findings
    ||| a.source_candidates != b.source_candidates
    ||| a.items != b.items
}

/// Whether two documents differ in anything but the moment they were made.
pub fn cleanup_request_documents_differ(
    a: &DriftCleanupRequestDocument,
    b: &DriftCleanupRequestDocument,
) -> (r: bool)
    ensures
        r == documents_differ(a.deep_view(), b.deep_view()),
{
    if !same(&a.schema_version, &b.schema_version) || a.source_active_findings
        != b.source_active_findings || a.source_candidates != b.source_candidates || a.items.len()
        != b.items.len() {
        proof {
            assert(a.items.deep_view().len() == a.items@.len());
            assert(b.items.deep_view().len() == b.items@.len());
        }
        return true;
    }
    let mut i: usize = 0;
    while i < a.items.len()
        invariant
            a.items@.len() == b.items@.len(),
            i <= a.items@.len(),
            forall|j: int| 0 <= j < i ==> a.items.deep_view()[j] == b.items.deep_view()[j],
        decreases a.items@.len() - i,
    {
        if !same_item(&a.items[i], &b.items[i]) {
            proof {
                assert(a.items.deep_view()[i as int] != b.items.deep_view()[i as int]);
            }
            return true;
        }
        i = i + 1;
    }
    proof {
        assert(a.items.deep_view() =~= b.items.deep_view());
    }
    false
}

// ---------------------------------------------------------------------------
// The synced items
// ---------------------------------------------------------------------------

/// A fresh item with the review fields of an existing one.
pub open spec fn with_review(
    item: DriftCleanupRequestItemView,
    existing: DriftCleanupRequestItemView,
) -> DriftCleanupRequestItemView {
    DriftCleanupRequestItemView {
        request_id: existing.request_id,
        approval_status: existing.approval_status,
        owner: existing.owner,
        reason: existing.reason,
        operator_note: existing.operator_note,
        cleanup_strategy: existing.cleanup_strategy,
        exact_resource_id: existing.exact_resource_id,
        backup_snapshot_id: existing.backup_snapshot_id,
        restore_drill_id: existing.restore_drill_id,
        maintenance_window: existing.maintenance_window,
        rollback_plan: existing.rollback_plan,
        approval_expires_at: existing.approval_expires_at,
        collected_evidence: existing.collected_evidence,
        evidence_collected_at: existing.evidence_collected_at,
        ..item
    }
}

/// A fresh item with the review fields of an existing one.
pub fn preserve_cleanup_review_fields(
    item: DriftCleanupRequestItem,
    existing: &DriftCleanupRequestItem,
) -> (r: DriftCleanupRequestItem)
    ensures
        r.deep_view() == with_review(item.deep_view(), existing.deep_view()),
{
    DriftCleanupRequestItem {
        request_id: existing.request_id.clone(),
        kind: item.kind,
        target: item.target,
        code: item.code,
        risk: item.risk,
        running: item.running,
        public_bind: item.public_bind,
        data_risk: item.data_risk,
        observed_status: item.observed_status,
        planned_action: item.planned_action,
        approval_status: existing.approval_status.clone(),
        owner: existing.owner.clone(),
        reason: existing.reason.clone(),
        operator_note: existing.operator_note.clone(),
        cleanup_strategy: existing.cleanup_strategy.clone(),
        exact_resource_id: existing.exact_resource_id.clone(),
        backup_snapshot_id: existing.backup_snapshot_id.clone(),
        restore_drill_id: existing.restore_drill_id.clone(),
        maintenance_window: existing.maintenance_window.clone(),
        rollback_plan: existing.rollback_plan.clone(),
        approval_expires_at: existing.approval_expires_at.clone(),
        collected_evidence: existing.collected_evidence.clone(),
        evidence_collected_at: existing.evidence_collected_at.clone(),
        destructive_command_generated: item.destructive_command_generated,
        rationale: item.rationale,
    }
}

/// The synced item of a candidate: with the review fields of the item that the
/// request already has for it, else fresh.
pub open spec fn synced_item(
    index: nat,
    candidate: DriftCleanupCandidateView,
    items: Seq<DriftCleanupRequestItemView>,
) -> DriftCleanupRequestItemView {
    match item_for(items, candidate_key(candidate)) {
        Some(existing) => with_review(request_item(index, candidate), existing),
        None => request_item(index, candidate),
    }
}

/// The synced items: one for each candidate, in the order of the candidates.
pub open spec fn synced_items(
    candidates: Seq<DriftCleanupCandidateView>,
    items: Seq<DriftCleanupRequestItemView>,
) -> Seq<DriftCleanupRequestItemView> {
    Seq::new(candidates.len(), |i: int| synced_item(i as nat, candidates[i], items))
}

/// What a sync does with the candidates.
pub open spec fn kept_entries(
    candidates: Seq<DriftCleanupCandidateView>,
    items: Seq<DriftCleanupRequestItemView>,
) -> Seq<DriftCleanupSyncEntryView> {
    Seq::new(
        candidates.len(),
        |i: int|
            {
                let item = synced_item(i as nat, candidates[i], items);
                match item_for(items, candidate_key(candidates[i])) {
                    Some(existing) => DriftCleanupSyncEntryView {
                        kind: item.kind,
                        target: item.target,
                        action: "preserve_current"@,
                        previous_request_id: Some(existing.request_id),
                        new_request_id: Some(item.request_id),
                        approval_status: item.approval_status,
                    },
                    None => DriftCleanupSyncEntryView {
                        kind: item.kind,
                        target: item.target,
                        action: "add_current"@,
                        previous_request_id: None,
                        new_request_id: Some(item.request_id),
                        approval_status: item.approval_status,
                    },
                }
            },
    )
}

/// The candidates that a sync adds.
pub open spec fn added_items_of(
    candidates: Seq<DriftCleanupCandidateView>,
    items: Seq<DriftCleanupRequestItemView>,
) -> Seq<DriftCleanupSyncDiffItemView>
    decreases candidates.len(),
{
    if candidates.len() == 0 {
        Seq::empty()
    } else {
        let before = added_items_of(candidates.drop_last(), items);
        let index = (candidates.len() - 1) as nat;
        let c = candidates.last();
        if item_for(items, candidate_key(c)) is Some {
            before
        } else {
            let item = request_item(index, c);
            before.push(
                DriftCleanupSyncDiffItemView {
                    kind: item.kind,
                    target: item.target,
                    action: "add_current"@,
                    request_id: Some(item.request_id),
                    approval_status: Some(item.approval_status),
                    risk: item.risk,
                },
            )
        }
    }
}

/// The stale items that a sync removes.
pub open spec fn removed_items_of(
    candidates: Seq<DriftCleanupCandidateView>,
    items: Seq<DriftCleanupRequestItemView>,
) -> Seq<DriftCleanupSyncDiffItemView> {
    chosen(
        items,
        |i: DriftCleanupRequestItemView|
            if is_current(candidates, item_key(i)) {
                None
            } else {
                Some(
                    DriftCleanupSyncDiffItemView {
                        kind: i.kind,
                        target: i.target,
                        action: "remove_stale"@,
                        request_id: Some(i.request_id),
                        approval_status: Some(i.approval_status),
                        risk: i.risk,
                    },
                )
            },
    )
}

/// What a sync does with the stale items.
pub open spec fn removed_entries(
    candidates: Seq<DriftCleanupCandidateView>,
    items: Seq<DriftCleanupRequestItemView>,
) -> Seq<DriftCleanupSyncEntryView> {
    chosen(
        items,
        |i: DriftCleanupRequestItemView|
            if is_current(candidates, item_key(i)) {
                None
            } else {
                Some(
                    DriftCleanupSyncEntryView {
                        kind: i.kind,
                        target: i.target,
                        action: "remove_stale"@,
                        previous_request_id: Some(i.request_id),
                        new_request_id: None,
                        approval_status: i.approval_status,
                    },
                )
            },
    )
}

/// How many candidates the request already has an item for.
pub open spec fn matched_count(
    candidates: Seq<DriftCleanupCandidateView>,
    items: Seq<DriftCleanupRequestItemView>,
) -> nat {
    tally(
        candidates,
        |c: DriftCleanupCandidateView| item_for(items, candidate_key(c)) is Some,
    )
}

/// How many candidates have an item that was already reviewed.
pub open spec fn reviewed_count(
    candidates: Seq<DriftCleanupCandidateView>,
    items: Seq<DriftCleanupRequestItemView>,
) -> nat {
    tally(
        candidates,
        |c: DriftCleanupCandidateView|
            item_for(items, candidate_key(c)) is Some && item_for(
                items,
                candidate_key(c),
            )->0.approval_status != "unknown"@,
    )
}

/// The kinds that a sync touches, in order and each once.
pub open spec fn sync_kinds(
    candidates: Seq<DriftCleanupCandidateView>,
    removed: Seq<DriftCleanupSyncDiffItemView>,
) -> Seq<Seq<char>> {
    sorted_set(
        candidates.map_values(|c: DriftCleanupCandidateView| c.kind) + removed.map_values(
            |i: DriftCleanupSyncDiffItemView| i.kind,
        ),
    )
}

/// What a sync changes for each kind.
pub open spec fn sync_summary(
    candidates: Seq<DriftCleanupCandidateView>,
    items: Seq<DriftCleanupRequestItemView>,
) -> Seq<DriftCleanupSyncDiffKindView> {
    let kinds = sync_kinds(candidates, removed_items_of(candidates, items));
    Seq::new(
        kinds.len(),
        |i: int|
            DriftCleanupSyncDiffKindView {
                kind: kinds[i],
                added: candidates_in(candidates, items, kinds[i], CandidateClass::Missing),
                removed_stale: items_of_kind(candidates, items, kinds[i], true),
                preserved_current: candidates_in(
                    candidates,
                    items,
                    kinds[i],
                    CandidateClass::Matched,
                ),
            },
    )
}

/// What to do next after a sync.
pub open spec fn sync_next_actions(
    execute: bool,
    changed: bool,
    added: nat,
    removed_stale: nat,
) -> Seq<Seq<char>> {
    Seq::empty() + noted(
        changed && !execute,
        "review added_items and removed_stale_items, then rerun sync with --execute if the diff is expected"@,
    ) + noted(
        added > 0,
        "review newly observed drift items before cleanup/adoption decisions"@,
    ) + noted(
        removed_stale > 0,
        "confirm removed_stale_items really disappeared before relying on older approval state"@,
    ) + noted(!changed, "cleanup request already matches current drift candidates"@) + noted(
        changed && execute,
        "run cleanup-request progress to confirm the written review file is aligned"@,
    )
}

/// What to do next after a sync.
pub fn cleanup_sync_next_actions(
    execute: bool,
    changed: bool,
    added: usize,
    removed_stale: usize,
) -> (r: Vec<String>)
    ensures
        r.deep_view() == sync_next_actions(execute, changed, added as nat, removed_stale as nat),
{
    let mut actions: Vec<String> = Vec::new();
    proof {
        assert(actions.deep_view() =~= Seq::<Seq<char>>::empty());
    }
    note(
        &mut actions,
        changed && !execute,
        "review added_items and removed_stale_items, then rerun sync with --execute if the diff is expected",
    );
    note(
        &mut actions,
        added > 0,
        "review newly observed drift items before cleanup/adoption decisions",
    );
    note(
        &mut actions,
        removed_stale > 0,
        "confirm removed_stale_items really disappeared before relying on older approval state",
    );
    note(&mut actions, !changed, "cleanup request already matches current drift candidates");
    note(
        &mut actions,
        changed && execute,
        "run cleanup-request progress to confirm the written review file is aligned",
    );
    actions
}

/// What a sync does with the candidates of the server.
#[derive(Debug)]
pub struct SyncedCandidates {
    pub items: Vec<DriftCleanupRequestItem>,
    pub entries: Vec<DriftCleanupSyncEntry>,
    pub added: Vec<DriftCleanupSyncDiffItem>,
    pub matched: usize,
    pub reviewed: usize,
}

/// View of [`SyncedCandidates`].
#[verifier::ext_equal]
pub struct SyncedCandidatesView {
    pub items: Seq<DriftCleanupRequestItemView>,
    pub entries: Seq<DriftCleanupSyncEntryView>,
    pub added: Seq<DriftCleanupSyncDiffItemView>,
    pub matched: nat,
    pub reviewed: nat,
}

impl DeepView for SyncedCandidates {
    type V = SyncedCandidatesView;

    open spec fn deep_view(&self) -> SyncedCandidatesView {
        SyncedCandidatesView {
            items: self.items.deep_view(),
            entries: self.entries.deep_view(),
            added: self.added.deep_view(),
            matched: self.matched as nat,
            reviewed: self.reviewed as nat,
        }
    }
}

impl Clone for SyncedCandidates {
    fn clone(&self) -> (r: Self)
        ensures
            r.deep_view() == self.deep_view(),
    {
        SyncedCandidates {
            items: self.items.clone(),
            entries: self.entries.clone(),
            added: self.added.clone(),
            matched: self.matched,
            reviewed: self.reviewed,
        }
    }
}

/// What a sync does with the stale items of a request.
#[derive(Debug)]
pub struct RemovedItems {
    pub entries: Vec<DriftCleanupSyncEntry>,
    pub removed: Vec<DriftCleanupSyncDiffItem>,
}

/// View of [`RemovedItems`].
#[verifier::ext_equal]
pub struct RemovedItemsView {
    pub entries: Seq<DriftCleanupSyncEntryView>,
    pub removed: Seq<DriftCleanupSyncDiffItemView>,
}

impl DeepView for RemovedItems {
    type V = RemovedItemsView;

    open spec fn deep_view(&self) -> RemovedItemsView {
        RemovedItemsView {
            entries: self.entries.deep_view(),
            removed: self.removed.deep_view(),
        }
    }
}

impl Clone for RemovedItems {
    fn clone(&self) -> (r: Self)
        ensures
            r.deep_view() == self.deep_view(),
    {
        RemovedItems {
            entries: self.entries.clone(),
            removed: self.removed.clone(),
        }
    }
}

/// The outcome of a sync, and the document to write where there is one.
#[derive(Debug)]
pub struct DriftCleanupSyncPlan {
    pub report: DriftCleanupSyncReport,
    pub write: Option<DriftCleanupRequestDocument>,
}

/// View of [`DriftCleanupSyncPlan`].
#[verifier::ext_equal]
pub struct DriftCleanupSyncPlanView {
    pub report: DriftCleanupSyncReportView,
    pub write: Option<DriftCleanupRequestDocumentView>,
}

impl DeepView for DriftCleanupSyncPlan {
    type V = DriftCleanupSyncPlanView;

    open spec fn deep_view(&self) -> DriftCleanupSyncPlanView {
        DriftCleanupSyncPlanView {
            report: self.report.deep_view(),
            write: self.write.deep_view(),
        }
    }
}

impl Clone for DriftCleanupSyncPlan {
    fn clone(&self) -> (r: Self)
        ensures
            r.deep_view() == self.deep_view(),
    {
        DriftCleanupSyncPlan {
            report: self.report.clone(),
            write: self.write.clone(),
        }
    }
}

/// What a sync does with the candidates of the server.
pub fn sync_candidates(
    candidates: &Vec<DriftCleanupCandidate>,
    items: &Vec<DriftCleanupRequestItem>,
) -> (r: SyncedCandidates)
    ensures
        r.items.deep_view() == synced_items(candidates.deep_view(), items.deep_view()),
        r.entries.deep_view() == kept_entries(candidates.deep_view(), items.deep_view()),
        r.added.deep_view() == added_items_of(candidates.deep_view(), items.deep_view()),
        r.matched == matched_count(candidates.deep_view(), items.deep_view()),
        r.reviewed == reviewed_count(candidates.deep_view(), items.deep_view()),
{
    let ghost all = candidates.deep_view();
    let ghost old_items = items.deep_view();
    let mut out: Vec<DriftCleanupRequestItem> = Vec::new();
    let mut entries: Vec<DriftCleanupSyncEntry> = Vec::new();
    let mut added: Vec<DriftCleanupSyncDiffItem> = Vec::new();
    let mut matched: usize = 0;
    let mut reviewed: usize = 0;
    let mut i: usize = 0;
    proof {
        ends(all);
        assert(added.deep_view() =~= Seq::<DriftCleanupSyncDiffItemView>::empty());
    }
    while i < candidates.len()
        invariant
            i <= candidates@.len(),
            all == candidates.deep_view(),
            old_items == items.deep_view(),
            out@.len() == i,
            entries@.len() == i,
            forall|j: int|
                0 <= j < i ==> (#[trigger] out@[j]).deep_view() == synced_items(
                    all,
                    old_items,
                )[j],
            forall|j: int|
                0 <= j < i ==> (#[trigger] entries@[j]).deep_view() == kept_entries(
                    all,
                    old_items,
                )[j],
            added.deep_view() == added_items_of(all.take(i as int), old_items),
            matched <= i,
            reviewed <= i,
            matched == matched_count(all.take(i as int), old_items),
            reviewed == reviewed_count(all.take(i as int), old_items),
        decreases candidates@.len() - i,
    {
        let candidate = &candidates[i];
        proof {
            step(all, i as int);
        }
        let fresh = cleanup_request_item(i, candidate);
        match find_item(items, &candidate.kind, &candidate.target) {
            Some(existing) => {
                matched = matched + 1;
                if !same(&existing.approval_status, "unknown") {
                    reviewed = reviewed + 1;
                }
                let item = preserve_cleanup_review_fields(fresh, existing);
                entries.push(
                    DriftCleanupSyncEntry {
                        kind: item.kind.clone(),
                        target: item.target.clone(),
                        action: "preserve_current".to_string(),
                        previous_request_id: Some(existing.request_id.clone()),
                        new_request_id: Some(item.request_id.clone()),
                        approval_status: item.approval_status.clone(),
                    },
                );
                out.push(item);
            },
            None => {
                added.push(
                    DriftCleanupSyncDiffItem {
                        kind: fresh.kind.clone(),
                        target: fresh.target.clone(),
                        action: "add_current".to_string(),
                        request_id: Some(fresh.request_id.clone()),
                        approval_status: Some(fresh.approval_status.clone()),
                        risk: fresh.risk.clone(),
                    },
                );
                entries.push(
                    DriftCleanupSyncEntry {
                        kind: fresh.kind.clone(),
                        target: fresh.target.clone(),
                        action: "add_current".to_string(),
                        previous_request_id: None,
                        new_request_id: Some(fresh.request_id.clone()),
                        approval_status: fresh.approval_status.clone(),
                    },
                );
                out.push(fresh);
            },
        }
        i = i + 1;
    }
    proof {
        ends(all);
        assert(out.deep_view() =~= synced_items(all, old_items));
        assert(entries.deep_view() =~= kept_entries(all, old_items));
    }
    SyncedCandidates { items: out, entries, added, matched, reviewed }
}

/// What a sync does with the stale items of a request.
pub fn remove_stale_items(
    candidates: &Vec<DriftCleanupCandidate>,
    items: &Vec<DriftCleanupRequestItem>,
) -> (r: RemovedItems)
    ensures
        r.entries.deep_view() == removed_entries(candidates.deep_view(), items.deep_view()),
        r.removed.deep_view() == removed_items_of(candidates.deep_view(), items.deep_view()),
{
    let ghost all = items.deep_view();
    let ghost c = candidates.deep_view();
    let mut entries: Vec<DriftCleanupSyncEntry> = Vec::new();
    let mut removed: Vec<DriftCleanupSyncDiffItem> = Vec::new();
    let mut i: usize = 0;
    proof {
        ends(all);
        assert(entries.deep_view() =~= Seq::<DriftCleanupSyncEntryView>::empty());
        assert(removed.deep_view() =~= Seq::<DriftCleanupSyncDiffItemView>::empty());
    }
    while i < items.len()
        invariant
            i <= items@.len(),
            all == items.deep_view(),
            c == candidates.deep_view(),
            entries.deep_view() == removed_entries(c, all.take(i as int)),
            removed.deep_view() == removed_items_of(c, all.take(i as int)),
        decreases items@.len() - i,
    {
        let item = &items[i];
        proof {
            step(all, i as int);
        }
        if !current_candidate(candidates, &item.kind, &item.target) {
            removed.push(
                DriftCleanupSyncDiffItem {
                    kind: item.kind.clone(),
                    target: item.target.clone(),
                    action: "remove_stale".to_string(),
                    request_id: Some(item.request_id.clone()),
                    approval_status: Some(item.approval_status.clone()),
                    risk: item.risk.clone(),
                },
            );
            entries.push(
                DriftCleanupSyncEntry {
                    kind: item.kind.clone(),
                    target: item.target.clone(),
                    action: "remove_stale".to_string(),
                    previous_request_id: Some(item.request_id.clone()),
                    new_request_id: None,
                    approval_status: item.approval_status.clone(),
                },
            );
        }
        i = i + 1;
    }
    proof {
        ends(all);
    }
    RemovedItems { entries, removed }
}

/// What a sync changes for each kind.
pub fn list_sync_summary(
    candidates: &Vec<DriftCleanupCandidate>,
    items: &Vec<DriftCleanupRequestItem>,
    removed: &Vec<DriftCleanupSyncDiffItem>,
) -> (r: Vec<DriftCleanupSyncDiffKind>)
    requires
        removed.deep_view() == removed_items_of(candidates.deep_view(), items.deep_view()),
    ensures
        r.deep_view() == sync_summary(candidates.deep_view(), items.deep_view()),
{
    let ghost c = candidates.deep_view();
    let ghost t = items.deep_view();
    let ghost a = c.map_values(|c: DriftCleanupCandidateView| c.kind);
    let ghost b = removed.deep_view().map_values(|i: DriftCleanupSyncDiffItemView| i.kind);
    let mut kinds: Vec<String> = Vec::new();
    let mut i: usize = 0;
    while i < candidates.len()
        invariant
            i <= candidates@.len(),
            kinds@.len() == i,
            c == candidates.deep_view(),
            forall|j: int| 0 <= j < i ==> (#[trigger] kinds@[j])@ == c[j].kind,
        decreases candidates@.len() - i,
    {
        kinds.push(candidates[i].kind.clone());
        i = i + 1;
    }
    let mut k: usize = 0;
    while k < removed.len()
        invariant
            k <= removed@.len(),
            i == candidates@.len(),
            c == candidates.deep_view(),
            kinds@.len() == i + k,
            forall|j: int| 0 <= j < i ==> (#[trigger] kinds@[j])@ == c[j].kind,
            forall|j: int|
                i <= j < i + k ==> (#[trigger] kinds@[j])@ == removed.deep_view()[j - i].kind,
        decreases removed@.len() - k,
    {
        kinds.push(removed[k].kind.clone());
        k = k + 1;
    }
    proof {
        assert(kinds.deep_view() =~= a + b);
    }
    let kinds = unique_sorted(kinds);
    let ghost ks = sync_kinds(c, removed.deep_view());
    let mut out: Vec<DriftCleanupSyncDiffKind> = Vec::new();
    let mut n: usize = 0;
    while n < kinds.len()
        invariant
            n <= kinds@.len(),
            out@.len() == n,
            c == candidates.deep_view(),
            t == items.deep_view(),
            ks == kinds.deep_view(),
            forall|j: int|
                0 <= j < n ==> (#[trigger] out@[j]).deep_view() == (DriftCleanupSyncDiffKindView {
                    kind: ks[j],
                    added: candidates_in(c, t, ks[j], CandidateClass::Missing),
                    removed_stale: items_of_kind(c, t, ks[j], true),
                    preserved_current: candidates_in(c, t, ks[j], CandidateClass::Matched),
                }),
        decreases kinds@.len() - n,
    {
        out.push(
            DriftCleanupSyncDiffKind {
                kind: kinds[n].clone(),
                added: count_candidates(candidates, items, &kinds[n], CandidateClass::Missing),
                removed_stale: count_items_of_kind(candidates, items, &kinds[n], true),
                preserved_current: count_candidates(
                    candidates,
                    items,
                    &kinds[n],
                    CandidateClass::Matched,
                ),
            },
        );
        n = n + 1;
    }
    proof {
        assert(out.deep_view() =~= sync_summary(c, t));
    }
    out
}

// ---------------------------------------------------------------------------
// The sync
// ---------------------------------------------------------------------------

/// The document that a sync gives.
pub open spec fn synced_document(
    build: DriftCleanupBuildView,
    document: DriftCleanupRequestDocumentView,
    generated_at: Seq<char>,
) -> DriftCleanupRequestDocumentView {
    DriftCleanupRequestDocumentView {
        schema_version: request_schema(),
        generated_at: Some(generated_at),
        source_active_findings: build.active_findings,
        source_candidates: build.candidates.len(),
        items: synced_items(build.candidates, document.items),
    }
}

/// The outcome of a sync before anything is written: the document is to be
/// written if and only if nothing is wrong, execution is asked for, and it
/// differs from the one that was read.
pub open spec fn sync_plan(
    build: DriftCleanupBuildView,
    request: LoadedRequestView,
    execute: bool,
    generated_at: Seq<char>,
) -> DriftCleanupSyncPlanView {
    match request.document {
        None => DriftCleanupSyncPlanView {
            report: DriftCleanupSyncReportView {
                ok: false,
                execute,
                status: "blocked"@,
                request_file: request.path,
                backup_file: None,
                current_candidates: build.candidates.len(),
                previous_items: 0,
                written_items: 0,
                matched_current: 0,
                added: 0,
                removed_stale: 0,
                preserved_reviewed: 0,
                changed: false,
                diff_summary: Seq::empty(),
                added_items: Seq::empty(),
                removed_stale_items: Seq::empty(),
                entries: Seq::empty(),
                next_actions: seq!["fix or regenerate the cleanup request YAML before syncing"@],
                limitations: seq![request.error],
            },
            write: None,
        },
        Some(document) => {
            let limitations = build.limitations + schema_remark(document);
            let synced = synced_document(build, document, generated_at);
            let changed = documents_differ(document, synced);
            let added = added_items_of(build.candidates, document.items);
            let removed = removed_items_of(build.candidates, document.items);
            let ok = limitations.len() == 0;
            DriftCleanupSyncPlanView {
                report: DriftCleanupSyncReportView {
                    ok,
                    execute,
                    status: if !ok {
                        "blocked"@
                    } else if !execute {
                        "dry_run"@
                    } else if changed {
                        "updated"@
                    } else {
                        "unchanged"@
                    },
                    request_file: request.path,
                    backup_file: None,
                    current_candidates: build.candidates.len(),
                    previous_items: document.items.len(),
                    written_items: synced.items.len(),
                    matched_current: matched_count(build.candidates, document.items),
                    added: added.len(),
                    removed_stale: removed.len(),
                    preserved_reviewed: reviewed_count(build.candidates, document.items),
                    changed,
                    diff_summary: sync_summary(build.candidates, document.items),
                    added_items: added,
                    removed_stale_items: removed,
                    entries: kept_entries(build.candidates, document.items) + removed_entries(
                        build.candidates,
                        document.items,
                    ),
                    next_actions: sync_next_actions(execute, changed, added.len(), removed.len()),
                    limitations: sorted_set(limitations),
                },
                write: if ok && execute && changed {
                    Some(synced)
                } else {
                    None
                },
            }
        },
    }
}

/// Brings a cleanup request up to date with given candidates.
pub fn sync_against(
    build: &DriftCleanupBuild,
    request: &LoadedRequest,
    execute: bool,
    generated_at: &str,
) -> (r: DriftCleanupSyncPlan)
    ensures
        r.deep_view() == sync_plan(
            build.deep_view(),
            request.deep_view(),
            execute,
            generated_at@,
        ),
{
    let document = match &request.document {
        Some(document) => document,
        None => {
            return DriftCleanupSyncPlan {
                report: DriftCleanupSyncReport {
                    ok: false,
                    execute,
                    status: "blocked".to_string(),
                    request_file: request.path.clone(),
                    backup_file: None,
                    current_candidates: build.candidates.len(),
                    previous_items: 0,
                    written_items: 0,
                    matched_current: 0,
                    added: 0,
                    removed_stale: 0,
                    preserved_reviewed: 0,
                    changed: false,
                    diff_summary: Vec::new(),
                    added_items: Vec::new(),
                    removed_stale_items: Vec::new(),
                    entries: Vec::new(),
                    next_actions: vec![
                        "fix or regenerate the cleanup request YAML before syncing".to_string(),
                    ],
                    limitations: vec![request.error.clone()],
                },
                write: None,
            };
        },
    };
    let mut limitations = build.limitations.clone();
    note_schema(document, &mut limitations);
    let kept = sync_candidates(&build.candidates, &document.items);
    let gone = remove_stale_items(&build.candidates, &document.items);
    let summary = list_sync_summary(&build.candidates, &document.items, &gone.removed);
    let mut entries = kept.entries;
    let mut gone_entries = gone.entries;
    let ghost first = entries.deep_view();
    let ghost second = gone_entries.deep_view();
    entries.append(&mut gone_entries);
    proof {
        assert(entries.deep_view() =~= first + second);
    }
    let written_items = kept.items.len();
    let synced = DriftCleanupRequestDocument {
        schema_version: request_schema_version().to_string(),
        generated_at: Some(generated_at.to_string()),
        source_active_findings: build.active_findings,
        source_candidates: build.candidates.len(),
        items: kept.items,
    };
    let changed = cleanup_request_documents_differ(document, &synced);
    let ok = limitations.is_empty();
    let status = if !ok {
        "blocked"
    } else if !execute {
        "dry_run"
    } else if changed {
        "updated"
    } else {
        "unchanged"
    };
    let added = kept.added.len();
    let removed_stale = gone.removed.len();
    DriftCleanupSyncPlan {
        report: DriftCleanupSyncReport {
            ok,
            execute,
            status: status.to_string(),
            request_file: request.path.clone(),
            backup_file: None,
            current_candidates: build.candidates.len(),
            previous_items: document.items.len(),
            written_items,
            matched_current: kept.matched,
            added,
            removed_stale,
            preserved_reviewed: kept.reviewed,
            changed,
            diff_summary: summary,
            added_items: kept.added,
            removed_stale_items: gone.removed,
            entries,
            next_actions: cleanup_sync_next_actions(execute, changed, added, removed_stale),
            limitations: unique_sorted(limitations),
        },
        write: if ok && execute && changed {
            Some(synced)
        } else {
            None
        },
    }
}

/// Brings a cleanup request up to date with the server.
pub fn drift_cleanup_request_sync(
    options: &DriftCleanupSyncOptions<'_>,
    observation: &Observation,
    request: &LoadedRequest,
    generated_at: &str,
) -> (r: DriftCleanupSyncPlan)
    ensures
        r.deep_view() == sync_plan(
            cleanup_build(options.deep_view().registry, observation.deep_view()),
            request.deep_view(),
            options.execute,
            generated_at@,
        ),
{
    let build = build_drift_cleanup(options.registry, observation);
    sync_against(&build, request, options.execute, generated_at)
}

/// The report of a sync after its document was written, or could not be.
pub open spec fn written_sync(
    report: DriftCleanupSyncReportView,
    backup_file: Option<Seq<char>>,
    error: Seq<char>,
) -> DriftCleanupSyncReportView {
    match backup_file {
        Some(path) => DriftCleanupSyncReportView { backup_file: Some(path), ..report },
        None => DriftCleanupSyncReportView {
            ok: false,
            status: "blocked"@,
            limitations: sorted_set(report.limitations.push(error)),
            ..report
        },
    }
}

/// The report of a sync after its document was written, or could not be: the
/// path of the backup, or the error.
pub fn finish_cleanup_sync(
    report: DriftCleanupSyncReport,
    backup_file: Option<&str>,
    error: &str,
) -> (r: DriftCleanupSyncReport)
    ensures
        r.deep_view() == written_sync(report.deep_view(), backup_file.deep_view(), error@),
{
    let mut report = report;
    match backup_file {
        Some(path) => {
            report.backup_file = Some(path.to_string());
        },
        None => {
            let mut limitations = report.limitations;
            let ghost before = limitations.deep_view();
            limitations.push(error.to_string());
            proof {
                assert(limitations.deep_view() =~= before.push(error@));
            }
            report.limitations = unique_sorted(limitations);
            report.ok = false;
            report.status = "blocked".to_string();
        },
    }
    report
}

// ---------------------------------------------------------------------------
// Laws
// ---------------------------------------------------------------------------

proof fn lemma_item_for_found(
    items: Seq<DriftCleanupRequestItemView>,
    key: (Seq<char>, Seq<char>),
    i: int,
)
    requires
        0 <= i < items.len(),
        item_key(items[i]) == key,
    ensures
        item_for(items, key) is Some,
        item_key(item_for(items, key)->0) == key,
    decreases items.len(),
{
    if item_key(items.last()) != key {
        assert(items.drop_last()[i] == items[i]);
        lemma_item_for_found(items.drop_last(), key, i);
    }
}

proof fn lemma_nothing_chosen<A, B>(s: Seq<A>, f: spec_fn(A) -> Option<B>)
    requires
        forall|i: int| 0 <= i < s.len() ==> f(#[trigger] s[i]) is None,
    ensures
        chosen(s, f).len() == 0,
    decreases s.len(),
{
    if s.len() > 0 {
        assert forall|i: int| 0 <= i < s.drop_last().len() implies f(
            #[trigger] s.drop_last()[i],
        ) is None by {
            assert(s.drop_last()[i] == s[i]);
        }
        lemma_nothing_chosen(s.drop_last(), f);
        assert(f(s[s.len() - 1]) is None);
    }
}

/// A synced item keeps the key of its candidate.
pub proof fn law_synced_items_match_candidates(
    candidates: Seq<DriftCleanupCandidateView>,
    items: Seq<DriftCleanupRequestItemView>,
)
    ensures
        synced_items(candidates, items).len() == candidates.len(),
        forall|i: int|
            0 <= i < candidates.len() ==> item_key(#[trigger] synced_items(candidates, items)[i])
                == candidate_key(candidates[i]),
{
}

/// What an operator recorded about a resource survives every sync: its request
/// id, approval, owner, reason, notes and evidence.
pub proof fn law_sync_preserves_review(
    candidates: Seq<DriftCleanupCandidateView>,
    items: Seq<DriftCleanupRequestItemView>,
    i: int,
)
    requires
        0 <= i < candidates.len(),
        item_for(items, candidate_key(candidates[i])) is Some,
    ensures
        ({
            let new = synced_items(candidates, items)[i];
            let existing = item_for(items, candidate_key(candidates[i]))->0;
            &&& new.request_id == existing.request_id
            &&& new.approval_status == existing.approval_status
            &&& new.owner == existing.owner
            &&& new.reason == existing.reason
            &&& new.operator_note == existing.operator_note
            &&& new.cleanup_strategy == existing.cleanup_strategy
            &&& new.exact_resource_id == existing.exact_resource_id
            &&& new.backup_snapshot_id == existing.backup_snapshot_id
            &&& new.restore_drill_id == existing.restore_drill_id
            &&& new.maintenance_window == existing.maintenance_window
            &&& new.rollback_plan == existing.rollback_plan
            &&& new.approval_expires_at == existing.approval_expires_at
            &&& new.collected_evidence == existing.collected_evidence
            &&& new.evidence_collected_at == existing.evidence_collected_at
        }),
{
}

/// After a sync nothing is missing from the request and nothing in it is stale.
pub proof fn law_sync_aligns(
    candidates: Seq<DriftCleanupCandidateView>,
    items: Seq<DriftCleanupRequestItemView>,
)
    ensures
        missing_items(candidates, synced_items(candidates, items)).len() == 0,
        stale_items_of(candidates, synced_items(candidates, items)).len() == 0,
{
    let synced = synced_items(candidates, items);
    let f = |c: DriftCleanupCandidateView|
        if item_for(synced, candidate_key(c)) is None {
            Some(
                DriftCleanupProgressItemView {
                    kind: c.kind,
                    target: c.target,
                    request_id: None,
                    approval_status: None,
                    risk: c.risk,
                },
            )
        } else {
            None
        };
    assert forall|i: int| 0 <= i < candidates.len() implies f(#[trigger] candidates[i]) is None by {
        assert(item_key(synced[i]) == candidate_key(candidates[i]));
        lemma_item_for_found(synced, candidate_key(candidates[i]), i);
    }
    lemma_nothing_chosen(candidates, f);
    assert(missing_items(candidates, synced) == chosen(candidates, f));
    let g = |i: DriftCleanupRequestItemView|
        if is_current(candidates, item_key(i)) {
            None
        } else {
            Some(
                DriftCleanupProgressItemView {
                    kind: i.kind,
                    target: i.target,
                    request_id: Some(i.request_id),
                    approval_status: Some(i.approval_status),
                    risk: i.risk,
                },
            )
        };
    assert forall|i: int| 0 <= i < synced.len() implies g(#[trigger] synced[i]) is None by {
        let p = |c: DriftCleanupCandidateView| candidate_key(c) == item_key(synced[i]);
        assert(p(candidates[i]));
        lemma_any(candidates, p);
        assert(is_current(candidates, item_key(synced[i])) == any(candidates, p));
    }
    lemma_nothing_chosen(synced, g);
    assert(stale_items_of(candidates, synced) == chosen(synced, g));
}

proof fn lemma_item_for_unique(
    items: Seq<DriftCleanupRequestItemView>,
    i: int,
)
    requires
        0 <= i < items.len(),
        forall|a: int, b: int|
            0 <= a < b < items.len() ==> item_key(#[trigger] items[a]) != item_key(
                #[trigger] items[b],
            ),
    ensures
        item_for(items, item_key(items[i])) == Some(items[i]),
    decreases items.len(),
{
    if i < items.len() - 1 {
        assert(item_key(items[i]) != item_key(items[items.len() - 1]));
        let d = items.drop_last();
        assert forall|a: int, b: int| 0 <= a < b < d.len() implies item_key(#[trigger] d[a])
            != item_key(#[trigger] d[b]) by {
            assert(d[a] == items[a]);
            assert(d[b] == items[b]);
        }
        lemma_item_for_unique(d, i);
        assert(d[i] == items[i]);
    }
}

/// A second sync against the same candidates changes nothing, as long as no two
/// candidates have the same kind and target.
pub proof fn law_sync_is_idempotent(
    build: DriftCleanupBuildView,
    document: DriftCleanupRequestDocumentView,
    first: Seq<char>,
    second: Seq<char>,
)
    requires
        forall|a: int, b: int|
            0 <= a < b < build.candidates.len() ==> candidate_key(#[trigger] build.candidates[a])
                != candidate_key(#[trigger] build.candidates[b]),
    ensures
        !documents_differ(
            synced_document(build, document, first),
            synced_document(build, synced_document(build, document, first), second),
        ),
{
    let once = synced_items(build.candidates, document.items);
    let twice = synced_items(build.candidates, once);
    assert forall|a: int, b: int| 0 <= a < b < once.len() implies item_key(#[trigger] once[a])
        != item_key(#[trigger] once[b]) by {
        assert(item_key(once[a]) == candidate_key(build.candidates[a]));
        assert(item_key(once[b]) == candidate_key(build.candidates[b]));
    }
    assert forall|i: int| 0 <= i < once.len() implies once[i] == twice[i] by {
        lemma_item_for_unique(once, i);
        assert(item_key(once[i]) == candidate_key(build.candidates[i]));
    }
    assert(once =~= twice);
}

/// A synced item is about its candidate: what was observed is that of the candidate, and
/// where the request had no item for it, it waits for a decision.
pub proof fn law_synced_items_tell_what_was_observed(
    candidates: Seq<DriftCleanupCandidateView>,
    items: Seq<DriftCleanupRequestItemView>,
    i: int,
)
    requires
        0 <= i < candidates.len(),
    ensures
        ({
            let item = synced_items(candidates, items)[i];
            let c = candidates[i];
            let fresh = request_item(i as nat, c);
            &&& item.kind == c.kind
            &&& item.target == c.target
            &&& item.code == fresh.code
            &&& item.risk == fresh.risk
            &&& item.running == fresh.running
            &&& item.public_bind == fresh.public_bind
            &&& item.data_risk == fresh.data_risk
            &&& item.observed_status == fresh.observed_status
            &&& item.planned_action == fresh.planned_action
            &&& item.destructive_command_generated == fresh.destructive_command_generated
            &&& !is_requested(items, c.kind, c.target) ==> item == fresh
        }),
{
    law_lookups(candidates, items, candidates[i].kind, candidates[i].target);
}

/// Syncing adds an item for each candidate that has none, and removes each item that no
/// candidate is there for; it says so, and counts them.
pub proof fn law_what_a_sync_changes(
    candidates: Seq<DriftCleanupCandidateView>,
    items: Seq<DriftCleanupRequestItemView>,
    x: DriftCleanupSyncDiffItemView,
)
    ensures
        added_items_of(candidates, items).contains(x) ==> x.action == "add_current"@ && is_observed(
            candidates,
            x.kind,
            x.target,
        ) && !is_requested(items, x.kind, x.target),
        removed_items_of(candidates, items).contains(x) ==> x.action == "remove_stale"@
            && is_requested(items, x.kind, x.target) && !is_observed(candidates, x.kind, x.target),
        added_items_of(candidates, items).len() == tally(
            candidates,
            |c: DriftCleanupCandidateView| !is_requested(items, c.kind, c.target),
        ),
        removed_items_of(candidates, items).len() == tally(
            items,
            |i: DriftCleanupRequestItemView| !is_observed(candidates, i.kind, i.target),
        ),
        matched_count(candidates, items) == tally(
            candidates,
            |c: DriftCleanupCandidateView| is_requested(items, c.kind, c.target),
        ),
{
    lemma_added(candidates, items, x);
    lemma_removed(candidates, items, x);
    let p = |c: DriftCleanupCandidateView| item_for(items, candidate_key(c)) is Some;
    let q = |c: DriftCleanupCandidateView| is_requested(items, c.kind, c.target);
    assert forall|i: int| 0 <= i < candidates.len() implies p(#[trigger] candidates[i]) == q(
        candidates[i],
    ) by {
        law_lookups(candidates, items, candidates[i].kind, candidates[i].target);
    }
    law_tally_agrees(candidates, p, q);
}

proof fn lemma_added(
    candidates: Seq<DriftCleanupCandidateView>,
    items: Seq<DriftCleanupRequestItemView>,
    x: DriftCleanupSyncDiffItemView,
)
    ensures
        added_items_of(candidates, items).contains(x) ==> x.action == "add_current"@ && is_observed(
            candidates,
            x.kind,
            x.target,
        ) && !is_requested(items, x.kind, x.target),
        added_items_of(candidates, items).len() == tally(
            candidates,
            |c: DriftCleanupCandidateView| !is_requested(items, c.kind, c.target),
        ),
    decreases candidates.len(),
{
    if candidates.len() > 0 {
        let d = candidates.drop_last();
        let c = candidates.last();
        let last = candidates.len() - 1;
        lemma_added(d, items, x);
        law_lookups(candidates, items, c.kind, c.target);
        assert(candidates[last] == c);
        if added_items_of(d, items).contains(x) {
            let i = choose|i: int|
                0 <= i < d.len() && (#[trigger] d[i]).kind == x.kind && d[i].target == x.target;
            assert(candidates[i].kind == x.kind);
        }
        let before = added_items_of(d, items);
        let now = added_items_of(candidates, items);
        if now.contains(x) && now.len() > before.len() {
            law_one_more(before, now.last(), x);
            assert(now =~= before.push(now.last()));
            if x == now.last() {
                assert(candidates[last].kind == x.kind);
            }
        }
    }
}

proof fn lemma_removed(
    candidates: Seq<DriftCleanupCandidateView>,
    items: Seq<DriftCleanupRequestItemView>,
    x: DriftCleanupSyncDiffItemView,
)
    ensures
        removed_items_of(candidates, items).contains(x) ==> x.action == "remove_stale"@
            && is_requested(items, x.kind, x.target) && !is_observed(candidates, x.kind, x.target),
        removed_items_of(candidates, items).len() == tally(
            items,
            |i: DriftCleanupRequestItemView| !is_observed(candidates, i.kind, i.target),
        ),
    decreases items.len(),
{
    if items.len() > 0 {
        let d = items.drop_last();
        let c = items.last();
        let last = items.len() - 1;
        lemma_removed(candidates, d, x);
        law_lookups(candidates, items, c.kind, c.target);
        assert(items[last] == c);
        if removed_items_of(candidates, d).contains(x) {
            let i = choose|i: int|
                0 <= i < d.len() && (#[trigger] d[i]).kind == x.kind && d[i].target == x.target;
            assert(items[i].kind == x.kind);
        }
        let before = removed_items_of(candidates, d);
        let now = removed_items_of(candidates, items);
        if now.contains(x) && now.len() > before.len() {
            law_one_more(before, now.last(), x);
            assert(now =~= before.push(now.last()));
            if x == now.last() {
                assert(items[last].kind == x.kind);
            }
        }
    }
}

/// What a sync comes to: it is refused where something is wrong with what was observed or
/// the request has another format; otherwise the synced request is written where it is to
/// be executed and something changes.
pub proof fn law_what_a_sync_comes_to(
    build: DriftCleanupBuildView,
    request: LoadedRequestView,
    execute: bool,
    generated_at: Seq<char>,
)
    requires
        request.document is Some,
    ensures
        ({
            let document = request.document->0;
            let plan = sync_plan(build, request, execute, generated_at);
            let changed = document.schema_version != "opsctl.drift_cleanup_request.v1"@
                || document.source_active_findings != build.active_findings
                || document.source_candidates != build.candidates.len() || document.items
                != synced_items(build.candidates, document.items);
            &&& plan.report.ok <==> build.limitations.len() == 0 && document.schema_version
                == "opsctl.drift_cleanup_request.v1"@
            &&& plan.report.changed <==> changed
            &&& plan.write is Some <==> plan.report.ok && execute && changed
            &&& plan.write matches Some(written) ==> {
                &&& written.schema_version == "opsctl.drift_cleanup_request.v1"@
                &&& written.generated_at == Some(generated_at)
                &&& written.source_active_findings == build.active_findings
                &&& written.source_candidates == build.candidates.len()
                &&& written.items == synced_items(build.candidates, document.items)
            }
            &&& plan.report.status == "blocked"@ <==> !plan.report.ok
            &&& plan.report.status == "dry_run"@ <==> plan.report.ok && !execute
            &&& plan.report.status == "updated"@ <==> plan.write is Some
            &&& plan.report.status == "unchanged"@ <==> plan.report.ok && execute && !changed
            &&& plan.report.current_candidates == build.candidates.len()
            &&& plan.report.previous_items == document.items.len()
            &&& plan.report.written_items == build.candidates.len()
        }),
{
    reveal_strlit("blocked");
    reveal_strlit("dry_run");
    reveal_strlit("updated");
    reveal_strlit("unchanged");
    assert("blocked"@[0] == 'b' && "dry_run"@[0] == 'd' && "updated"@[1] == 'p' && "unchanged"@[1]
        == 'n' && "updated"@[0] == 'u' && "unchanged"@[0] == 'u');
}

/// A report on what was to be written names the backup that was made; where none was, it is
/// blocked, and the failure stands with its other limits.
pub proof fn law_written_syncs(report: DriftCleanupSyncReportView, backup_file: Option<Seq<char>>, error: Seq<char>)
    ensures
        ({
            let r = written_sync(report, backup_file, error);
            &&& backup_file is Some ==> r.backup_file == backup_file && r.ok == report.ok
                && r.status == report.status && r.limitations == report.limitations
            &&& backup_file is None ==> !r.ok && r.status == "blocked"@ && r.limitations.contains(
                error,
            ) && r.backup_file == report.backup_file
            &&& r.entries == report.entries && r.request_file == report.request_file
        }),
{
    law_sorted_set(report.limitations.push(error));
    law_one_more(report.limitations, error, error);
}

/// What is to be done after a sync: to review what was added and removed, and to write it or
/// to confirm that it was written, or nothing where nothing changed.
pub proof fn law_what_a_sync_asks_next(
    execute: bool,
    changed: bool,
    added: nat,
    removed_stale: nat,
)
    ensures
        sync_next_actions(execute, changed, added, removed_stale).len() == 1 + (if added > 0 {
            1int
        } else {
            0
        }) + (if removed_stale > 0 {
            1int
        } else {
            0
        }),
        changed && !execute ==> sync_next_actions(execute, changed, added, removed_stale)[0]
            == "review added_items and removed_stale_items, then rerun sync with --execute if the diff is expected"@,
        changed && execute ==> sync_next_actions(execute, changed, added, removed_stale).last()
            == "run cleanup-request progress to confirm the written review file is aligned"@,
        !changed ==> sync_next_actions(execute, changed, added, removed_stale).last()
            == "cleanup request already matches current drift candidates"@,
{
}

} // verus!
