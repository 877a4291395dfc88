//! What an operator has to approve, and what is missing before they can.

use vstd::prelude::*;
use crate::drift::candidates::{
    DriftCleanupBuild, DriftCleanupBuildView, LoadedRequest, LoadedRequestView,
    build_drift_cleanup, cleanup_build, current_candidate, is_current, item_key,
};
use crate::drift::ownership::drift_ownership_spec;
use crate::drift::plan::{
    cleanup_execution_plan_entry, count_entry_approval, drift_cleanup_execution_plan,
    entries_with_approval, execution_plan, plan_entry,
};
use crate::drift::progress::{progress_against, request_progress};
use crate::drift::triage::{
    copy_pairs, count_pair, find_plan_entry, pair_count, pair_keys, plan_entry_for,
};
use crate::drift::types::{
    DriftCleanupApprovalBucket, DriftCleanupApprovalBucketView,
    DriftCleanupApprovalMissingEvidence, DriftCleanupApprovalMissingEvidenceView,
    DriftCleanupApprovalPackEntry, DriftCleanupApprovalPackEntryView,
    DriftCleanupApprovalPackReport, DriftCleanupApprovalPackReportView,
    DriftCleanupApprovalSummaryReport, DriftCleanupApprovalSummaryReportView,
    DriftCleanupCandidate, DriftCleanupCandidateView, DriftCleanupExecutionPlanEntry,
    DriftCleanupExecutionPlanEntryView, DriftCleanupExecutionPlanReport,
    DriftCleanupExecutionPlanReportView, DriftCleanupProgressItem, DriftCleanupProgressItemView,
    DriftCleanupProgressReport, DriftCleanupProgressReportView, DriftCleanupRequestItem,
    DriftCleanupRequestItemView, DriftCleanupVolumeOwnershipEntry,
    DriftCleanupVolumeOwnershipEntryView, DriftOwnershipReport, DriftOwnershipReportView,
};
use crate::drift::verify::{is_set, note_schema, schema_remark};
use crate::drift::volumes::{
    any_database_hint, limit_of, note_status_filter, read_limit, read_status_filter,
    read_volume_ownership, some_database_hint, status_filter_remark, status_passes, volume_filter,
    volume_ownership_against, volume_report, wanted_status,
};
use crate::each::{
    any_where, choose_each, count_where, find_last, gather_each, keep_front, map_each,
};
use crate::list::{
    Ranked, all_labelled, any, chosen, extend, front, gathered, last_where, law_chosen,
    law_either_list, law_noted, law_pairs_are_ordered, law_ranked, law_sorted_set,
    law_sorted_values_keep_all, lemma_sorted_by_keeps, less, note, note_all, noted, pair_lt, put,
    rank, sort_stable, sorted_by, sorted_set, tally, unique_ranked, unique_sorted,
};
use crate::number::{count_text, decimal};
use crate::registry::Registry;
use crate::scan::Observation;
use crate::text::{
    as_text, cat2, cat3, cat4, is_text, join, joined, or_text, own_opt, same, shell_hint,
    shell_hint_spec, text_or,
};

verus! {

broadcast use {vstd::seq::group_seq_axioms, vstd::string::group_string_axioms};

// ---------------------------------------------------------------------------
// Summary
// ---------------------------------------------------------------------------

/// A piece of evidence that an item of a request lacks.
#[derive(Debug)]
pub struct EvidenceGap {
    pub evidence: String,
    pub kind: String,
    pub request_id: String,
}

/// View of [`EvidenceGap`].
#[verifier::ext_equal]
pub struct EvidenceGapView {
    pub evidence: Seq<char>,
    pub kind: Seq<char>,
    pub request_id: Seq<char>,
}

impl DeepView for EvidenceGap {
    type V = EvidenceGapView;

    open spec fn deep_view(&self) -> EvidenceGapView {
        EvidenceGapView {
            evidence: self.evidence.deep_view(),
            kind: self.kind.deep_view(),
            request_id: self.request_id.deep_view(),
        }
    }
}

/// What an item lacks before it can be cleaned up.
pub open spec fn entry_gaps(entry: DriftCleanupExecutionPlanEntryView) -> Seq<Seq<char>> {
    if entry.approval_status == "unknown"@ {
        Seq::<Seq<char>>::empty().push(
            "classification is required: adopt, ignore with expiry, needs_cleanup, or leave unknown"@,
        )
    } else {
        entry.required_evidence + all_labelled("blocker must be fixed: "@, entry.blockers)
    }
}

/// What an item lacks, each with the item's kind and id.
pub open spec fn gaps_of_entry(entry: DriftCleanupExecutionPlanEntryView) -> Seq<EvidenceGapView> {
    entry_gaps(entry).map_values(
        |e: Seq<char>|
            EvidenceGapView { evidence: e, kind: entry.kind, request_id: entry.request_id },
    )
}

/// What the items lack.
pub open spec fn gaps_of(entries: Seq<DriftCleanupExecutionPlanEntryView>) -> Seq<EvidenceGapView> {
    gathered(entries, |e: DriftCleanupExecutionPlanEntryView| gaps_of_entry(e))
}

/// What an item lacks, each with the item's kind and id.
pub fn list_entry_gaps(entry: &DriftCleanupExecutionPlanEntry) -> (r: Vec<EvidenceGap>)
    ensures
        r.deep_view() == gaps_of_entry(entry.deep_view()),
{
    let mut texts: Vec<String> = Vec::new();
    proof {
        assert(texts.deep_view() =~= Seq::<Seq<char>>::empty());
    }
    if same(&entry.approval_status, "unknown") {
        put(
            &mut texts,
            "classification is required: adopt, ignore with expiry, needs_cleanup, or leave unknown",
        );
    } else {
        texts = entry.required_evidence.clone();
        note_all(&mut texts, "blocker must be fixed: ", &entry.blockers);
    }
    map_each(
        &texts,
        |e: &String| -> (r: EvidenceGap)
            ensures
                r.deep_view() == (EvidenceGapView {
                    evidence: e@,
                    kind: entry.deep_view().kind,
                    request_id: entry.deep_view().request_id,
                })
            {
                EvidenceGap {
                    evidence: e.clone(),
                    kind: entry.kind.clone(),
                    request_id: entry.request_id.clone(),
                }
            },
        Ghost(
            |e: Seq<char>|
                EvidenceGapView {
                    evidence: e,
                    kind: entry.deep_view().kind,
                    request_id: entry.deep_view().request_id,
                },
        ),
    )
}

/// What the items lack.
pub fn list_gaps(entries: &Vec<DriftCleanupExecutionPlanEntry>) -> (r: Vec<EvidenceGap>)
    ensures
        r.deep_view() == gaps_of(entries.deep_view()),
{
    gather_each(
        entries,
        |e: &DriftCleanupExecutionPlanEntry| -> (r: Vec<EvidenceGap>)
            ensures
                r.deep_view() == gaps_of_entry(e.deep_view())
            { list_entry_gaps(e) },
        Ghost(|e: DriftCleanupExecutionPlanEntryView| gaps_of_entry(e)),
    )
}

/// The kinds of the items that lack a piece of evidence, in their order.
pub open spec fn gap_kinds(gaps: Seq<EvidenceGapView>, evidence: Seq<char>) -> Seq<Seq<char>> {
    chosen(
        gaps,
        |g: EvidenceGapView|
            if g.evidence == evidence {
                Some(g.kind)
            } else {
                None
            },
    )
}

/// The ids of the items that lack a piece of evidence, in their order.
pub open spec fn gap_ids(gaps: Seq<EvidenceGapView>, evidence: Seq<char>) -> Seq<Seq<char>> {
    chosen(
        gaps,
        |g: EvidenceGapView|
            if g.evidence == evidence {
                Some(g.request_id)
            } else {
                None
            },
    )
}

/// What the summary says of a piece of evidence.
pub open spec fn missing_entry(gaps: Seq<EvidenceGapView>, evidence: Seq<char>) -> DriftCleanupApprovalMissingEvidenceView {
    DriftCleanupApprovalMissingEvidenceView {
        evidence,
        items: gap_kinds(gaps, evidence).len(),
        kinds: sorted_set(gap_kinds(gaps, evidence)),
        sample_request_ids: front(gap_ids(gaps, evidence), 5),
    }
}

/// What the summary says of each piece of evidence that is missing.
pub open spec fn missing_entries(gaps: Seq<EvidenceGapView>) -> Seq<
    DriftCleanupApprovalMissingEvidenceView,
> {
    sorted_set(gaps.map_values(|g: EvidenceGapView| g.evidence)).map_values(
        |e: Seq<char>| missing_entry(gaps, e),
    )
}

/// What the summary says of a piece of evidence.
pub fn build_missing_entry(gaps: &Vec<EvidenceGap>, evidence: &str) -> (r:
    DriftCleanupApprovalMissingEvidence)
    ensures
        r.deep_view() == missing_entry(gaps.deep_view(), evidence@),
{
    let kinds = choose_each(
        gaps,
        |g: &EvidenceGap| -> (r: Option<String>)
            ensures
                r.deep_view() == (if g.deep_view().evidence == evidence@ {
                    Some(g.deep_view().kind)
                } else {
                    None
                })
            {
                if same(&g.evidence, evidence) {
                    Some(g.kind.clone())
                } else {
                    None
                }
            },
        Ghost(
            |g: EvidenceGapView|
                if g.evidence == evidence@ {
                    Some(g.kind)
                } else {
                    None
                },
        ),
    );
    let ids = choose_each(
        gaps,
        |g: &EvidenceGap| -> (r: Option<String>)
            ensures
                r.deep_view() == (if g.deep_view().evidence == evidence@ {
                    Some(g.deep_view().request_id)
                } else {
                    None
                })
            {
                if same(&g.evidence, evidence) {
                    Some(g.request_id.clone())
                } else {
                    None
                }
            },
        Ghost(
            |g: EvidenceGapView|
                if g.evidence == evidence@ {
                    Some(g.request_id)
                } else {
                    None
                },
        ),
    );
    proof {
        assert(kinds.deep_view() == gap_kinds(gaps.deep_view(), evidence@));
        assert(kinds.deep_view().len() == kinds@.len());
    }
    let items = kinds.len();
    DriftCleanupApprovalMissingEvidence {
        evidence: evidence.to_string(),
        items,
        kinds: unique_sorted(kinds),
        sample_request_ids: keep_front(ids, 5),
    }
}

/// What the summary says of each piece of evidence that is missing.
pub fn list_missing_entries(gaps: &Vec<EvidenceGap>) -> (r: Vec<
    DriftCleanupApprovalMissingEvidence,
>)
    ensures
        r.deep_view() == missing_entries(gaps.deep_view()),
{
    let names = unique_sorted(
        map_each(
            gaps,
            |g: &EvidenceGap| -> (r: String)
                ensures
                    r.deep_view() == g.deep_view().evidence
                { g.evidence.clone() },
            Ghost(|g: EvidenceGapView| g.evidence),
        ),
    );
    map_each(
        &names,
        |e: &String| -> (r: DriftCleanupApprovalMissingEvidence)
            ensures
                r.deep_view() == missing_entry(gaps.deep_view(), e@)
            { build_missing_entry(gaps, e) },
        Ghost(|e: Seq<char>| missing_entry(gaps.deep_view(), e)),
    )
}

/// The status and the kind of each entry.
pub open spec fn entry_status_kinds(entries: Seq<DriftCleanupExecutionPlanEntryView>) -> Seq<
    (Seq<char>, Seq<char>),
> {
    entries.map_values(|e: DriftCleanupExecutionPlanEntryView| (e.approval_status, e.kind))
}

/// How many entries there are of each status and kind.
pub open spec fn approval_buckets(entries: Seq<DriftCleanupExecutionPlanEntryView>) -> Seq<
    DriftCleanupApprovalBucketView,
> {
    pair_keys(entry_status_kinds(entries)).map_values(
        |k: (Seq<char>, Seq<char>)|
            DriftCleanupApprovalBucketView {
                approval_status: k.0,
                kind: k.1,
                items: pair_count(entry_status_kinds(entries), k),
            },
    )
}

/// How many entries there are of each status and kind.
pub fn list_approval_buckets(entries: &Vec<DriftCleanupExecutionPlanEntry>) -> (r: Vec<
    DriftCleanupApprovalBucket,
>)
    ensures
        r.deep_view() == approval_buckets(entries.deep_view()),
{
    let pairs = map_each(
        entries,
        |e: &DriftCleanupExecutionPlanEntry| -> (r: (String, String))
            ensures
                r.deep_view() == (e.deep_view().approval_status, e.deep_view().kind)
            { (e.approval_status.clone(), e.kind.clone()) },
        Ghost(|e: DriftCleanupExecutionPlanEntryView| (e.approval_status, e.kind)),
    );
    let keys = unique_ranked(copy_pairs(&pairs));
    map_each(
        &keys,
        |k: &(String, String)| -> (r: DriftCleanupApprovalBucket)
            ensures
                r.deep_view() == (DriftCleanupApprovalBucketView {
                    approval_status: k.deep_view().0,
                    kind: k.deep_view().1,
                    items: pair_count(pairs.deep_view(), k.deep_view()),
                })
            {
                DriftCleanupApprovalBucket {
                    approval_status: k.0.clone(),
                    kind: k.1.clone(),
                    items: count_pair(&pairs, &k.0, &k.1),
                }
            },
        Ghost(
            |k: (Seq<char>, Seq<char>)|
                DriftCleanupApprovalBucketView {
                    approval_status: k.0,
                    kind: k.1,
                    items: pair_count(entry_status_kinds(entries.deep_view()), k),
                },
        ),
    )
}

/// The steps that lead to an approval.
pub open spec fn summary_actions(unknown: nat, needs_cleanup: nat, plan: DriftCleanupExecutionPlanReportView) -> Seq<Seq<char>> {
    Seq::<Seq<char>>::empty() + noted(
        unknown > 0,
        "classify "@ + decimal(unknown) + " unknown items before they can be adopted, ignored, or cleaned"@,
    ) + noted(
        needs_cleanup > 0,
        "complete required evidence for "@ + decimal(needs_cleanup) + " needs_cleanup items before approval"@,
    ) + noted(
        plan.needs_approval > 0,
        decimal(plan.needs_approval) + " cleanup items still require human approval evidence"@,
    ) + noted(
        plan.ready > 0,
        decimal(plan.ready) + " approved items can proceed to request-execution; cleanup remains manual"@,
    ) + noted(
        plan.blocked > 0,
        "fix "@ + decimal(plan.blocked) + " blocked cleanup entries before requesting execution approval"@,
    )
}

/// The steps that lead to an approval.
pub fn list_summary_actions(unknown: usize, needs_cleanup: usize, plan: &DriftCleanupExecutionPlanReport) -> (r: Vec<String>)
    ensures
        r.deep_view() == summary_actions(unknown as nat, needs_cleanup as nat, plan.deep_view()),
{
    let mut list: Vec<String> = Vec::new();
    proof {
        assert(list.deep_view() =~= Seq::<Seq<char>>::empty());
    }
    note(
        &mut list,
        unknown > 0,
        &cat3("classify ", &count_text(unknown), " unknown items before they can be adopted, ignored, or cleaned"),
    );
    note(
        &mut list,
        needs_cleanup > 0,
        &cat3("complete required evidence for ", &count_text(needs_cleanup), " needs_cleanup items before approval"),
    );
    note(
        &mut list,
        plan.needs_approval > 0,
        &cat2(&count_text(plan.needs_approval), " cleanup items still require human approval evidence"),
    );
    note(
        &mut list,
        plan.ready > 0,
        &cat2(&count_text(plan.ready), " approved items can proceed to request-execution; cleanup remains manual"),
    );
    note(
        &mut list,
        plan.blocked > 0,
        &cat3("fix ", &count_text(plan.blocked), " blocked cleanup entries before requesting execution approval"),
    );
    list
}

/// What to do next about the approvals.
pub open spec fn summary_next_actions(
    unknown: nat,
    needs_cleanup: nat,
    plan: DriftCleanupExecutionPlanReportView,
) -> Seq<Seq<char>> {
    let actions = summary_actions(unknown, needs_cleanup, plan);
    if actions.len() == 0 {
        actions.push("no cleanup approval work is pending"@)
    } else {
        actions
    }
}

/// What to do next about the approvals.
pub fn cleanup_approval_summary_next_actions(
    unknown: usize,
    needs_cleanup: usize,
    plan: &DriftCleanupExecutionPlanReport,
) -> (r: Vec<String>)
    ensures
        r.deep_view() == summary_next_actions(
            unknown as nat,
            needs_cleanup as nat,
            plan.deep_view(),
        ),
{
    let mut actions = list_summary_actions(unknown, needs_cleanup, plan);
    proof {
        assert(actions.deep_view().len() == actions@.len());
    }
    if actions.len() == 0 {
        put(&mut actions, "no cleanup approval work is pending");
    }
    actions
}

/// The approvals that a plan still needs.
pub open spec fn approval_summary(plan: DriftCleanupExecutionPlanReportView) -> DriftCleanupApprovalSummaryReportView {
    let unknown = entries_with_approval(plan.entries, "unknown"@);
    let needs_cleanup = entries_with_approval(plan.entries, "needs_cleanup"@);
    let blocked = plan.blocked > 0 || plan.limitations.len() > 0;
    DriftCleanupApprovalSummaryReportView {
        ok: !blocked,
        read_only: true,
        status: if blocked {
            "blocked"@
        } else if plan.ready > 0 {
            "ready_for_human_execution_request"@
        } else if needs_cleanup > 0 {
            "needs_human_approval"@
        } else if unknown > 0 {
            "classification_required"@
        } else {
            "no_cleanup_pending"@
        },
        request_file: plan.request_file,
        total_items: plan.total_items,
        unknown,
        needs_cleanup,
        approved: plan.approved,
        ready: plan.ready,
        needs_approval: plan.needs_approval,
        blocked: plan.blocked,
        skipped: plan.skipped,
        by_status_kind: approval_buckets(plan.entries),
        missing_evidence: missing_entries(gaps_of(plan.entries)),
        next_actions: summary_next_actions(unknown, needs_cleanup, plan),
        limitations: plan.limitations,
    }
}

/// The approvals that a plan still needs.
pub fn summarize_approvals(plan: &DriftCleanupExecutionPlanReport) -> (r:
    DriftCleanupApprovalSummaryReport)
    ensures
        r.deep_view() == approval_summary(plan.deep_view()),
{
    let unknown = count_entry_approval(&plan.entries, "unknown");
    let needs_cleanup = count_entry_approval(&plan.entries, "needs_cleanup");
    let blocked = plan.blocked > 0 || plan.limitations.len() > 0;
    let status = if blocked {
        "blocked"
    } else if plan.ready > 0 {
        "ready_for_human_execution_request"
    } else if needs_cleanup > 0 {
        "needs_human_approval"
    } else if unknown > 0 {
        "classification_required"
    } else {
        "no_cleanup_pending"
    };
    let gaps = list_gaps(&plan.entries);
    DriftCleanupApprovalSummaryReport {
        ok: !blocked,
        read_only: true,
        status: status.to_string(),
        request_file: plan.request_file.clone(),
        total_items: plan.total_items,
        unknown,
        needs_cleanup,
        approved: plan.approved,
        ready: plan.ready,
        needs_approval: plan.needs_approval,
        blocked: plan.blocked,
        skipped: plan.skipped,
        by_status_kind: list_approval_buckets(&plan.entries),
        missing_evidence: list_missing_entries(&gaps),
        next_actions: cleanup_approval_summary_next_actions(unknown, needs_cleanup, plan),
        limitations: plan.limitations.clone(),
    }
}

/// The approvals that a loaded request still needs.
pub fn drift_cleanup_approval_summary(request: &LoadedRequest) -> (r:
    DriftCleanupApprovalSummaryReport)
    ensures
        r.deep_view() == approval_summary(execution_plan(request.deep_view())),
{
    summarize_approvals(&drift_cleanup_execution_plan(request))
}

// ---------------------------------------------------------------------------
// One entry of the approval pack
// ---------------------------------------------------------------------------

/// What to confirm before an approval.
pub open spec fn pack_checklist() -> Seq<Seq<char>> {
    seq![
        "confirm business owner for each resource"@,
        "confirm exact_resource_id still matches current observed drift"@,
        "add owner, reason, cleanup_strategy, maintenance_window, rollback_plan, and approval_expires_at before approval"@,
        "for Docker volumes, add backup_snapshot_id and restore_drill_id before approval"@,
        "request cleanup execution approval only after execution-plan reports ready items"@,
        "opsctl still records manual handoff only; it does not delete Docker containers, volumes, compose projects, or listeners"@,
    ]
}

/// What to confirm before an approval.
pub fn cleanup_approval_pack_checklist() -> (r: Vec<String>)
    ensures
        r.deep_view() == pack_checklist(),
{
    let list: Vec<String> = vec![
        "confirm business owner for each resource".to_string(),
        "confirm exact_resource_id still matches current observed drift".to_string(),
        "add owner, reason, cleanup_strategy, maintenance_window, rollback_plan, and approval_expires_at before approval".to_string(),
        "for Docker volumes, add backup_snapshot_id and restore_drill_id before approval".to_string(),
        "request cleanup execution approval only after execution-plan reports ready items".to_string(),
        "opsctl still records manual handoff only; it does not delete Docker containers, volumes, compose projects, or listeners".to_string(),
    ];
    proof {
        assert(list.deep_view() =~= pack_checklist());
    }
    list
}

/// Why nothing is ever removed here.
pub open spec fn no_destruction() -> Seq<char> {
    "opsctl only records manual cleanup handoff; destructive Docker/container/volume/systemd/port cleanup remains outside this executor"@
}

/// Why nothing is ever removed here.
pub fn cleanup_destructive_execution_reason() -> (r: String)
    ensures
        r@ == no_destruction(),
{
    "opsctl only records manual cleanup handoff; destructive Docker/container/volume/systemd/port cleanup remains outside this executor".to_string()
}

/// Whether an item belongs into the pack.
pub open spec fn pack_selects(
    item: DriftCleanupRequestItemView,
    kind: Option<Seq<char>>,
    status: Seq<char>,
) -> bool {
    (kind is None || kind == Some(item.kind)) && status_passes(item.approval_status, status)
}

/// Whether an item belongs into the pack.
pub fn cleanup_pack_matches(item: &DriftCleanupRequestItem, kind: Option<&str>, status: &str) -> (r:
    bool)
    ensures
        r == pack_selects(item.deep_view(), kind.deep_view(), status@),
{
    if let Some(wanted) = kind {
        if !same(wanted, &item.kind) {
            return false;
        }
    }
    same(status, "all") || same(&item.approval_status, status)
}

/// The words of the command that approves an item.
#[verifier::opaque]
pub open spec fn approval_words(path: Seq<char>, item: DriftCleanupRequestItemView) -> Seq<Seq<char>> {
    (Seq::<Seq<char>>::empty().push(
        "opsctl registry drift cleanup-request mark"@,
    ).push(
        shell_hint_spec(path),
    ).push(
        "--request-id"@,
    ).push(
        shell_hint_spec(item.request_id),
    ).push(
        "--approval-status approved --owner"@,
    ).push(
        shell_hint_spec(text_or(item.owner, "<owner>"@)),
    ).push(
        "--reason"@,
    ).push(
        shell_hint_spec(text_or(item.reason, "<reason>"@)),
    ).push(
        "--cleanup-strategy"@,
    ).push(
        shell_hint_spec(text_or(item.cleanup_strategy, "service_owner_cleanup"@)),
    ).push(
        "--exact-resource-id"@,
    ).push(
        shell_hint_spec(text_or(item.exact_resource_id, item.target)),
    ).push(
        "--maintenance-window"@,
    ).push(
        shell_hint_spec(text_or(item.maintenance_window, "<maintenance-window>"@)),
    ).push(
        "--rollback-plan"@,
    ).push(
        shell_hint_spec(text_or(item.rollback_plan, "<rollback-plan>"@)),
    ).push(
        "--approval-expires-at"@,
    ).push(
        shell_hint_spec(text_or(item.approval_expires_at, "<RFC3339-expiry>"@)),
    ) + noted(
        item.kind == "docker-volume"@ || item.data_risk is Some,
        "--backup-snapshot-id "@ + shell_hint_spec(text_or(item.backup_snapshot_id, "<backup-snapshot-id>"@)) + " --restore-drill-id "@ + shell_hint_spec(text_or(item.restore_drill_id, "<restore-drill-id>"@)),
    )).push(
        "--execute"@,
    )
}

/// The words of the command that approves an item.
pub fn list_approval_words(path: &str, item: &DriftCleanupRequestItem) -> (r: Vec<String>)
    ensures
        r.deep_view() == approval_words(path@, item.deep_view()),
{
    let mut list: Vec<String> = Vec::new();
    proof {
        reveal(approval_words);
        assert(list.deep_view() =~= Seq::<Seq<char>>::empty());
    }
    put(&mut list, "opsctl registry drift cleanup-request mark");
    put(&mut list, &shell_hint(path));
    put(&mut list, "--request-id");
    put(&mut list, &shell_hint(&item.request_id));
    put(&mut list, "--approval-status approved --owner");
    put(&mut list, &shell_hint(or_text(as_text(&item.owner), "<owner>")));
    put(&mut list, "--reason");
    put(&mut list, &shell_hint(or_text(as_text(&item.reason), "<reason>")));
    put(&mut list, "--cleanup-strategy");
    put(
        &mut list,
        &shell_hint(or_text(as_text(&item.cleanup_strategy), "service_owner_cleanup")),
    );
    put(&mut list, "--exact-resource-id");
    put(&mut list, &shell_hint(or_text(as_text(&item.exact_resource_id), &item.target)));
    put(&mut list, "--maintenance-window");
    put(
        &mut list,
        &shell_hint(or_text(as_text(&item.maintenance_window), "<maintenance-window>")),
    );
    put(&mut list, "--rollback-plan");
    put(&mut list, &shell_hint(or_text(as_text(&item.rollback_plan), "<rollback-plan>")));
    put(&mut list, "--approval-expires-at");
    put(&mut list, &shell_hint(or_text(as_text(&item.approval_expires_at), "<RFC3339-expiry>")));
    note(
        &mut list,
        same(&item.kind, "docker-volume") || item.data_risk.is_some(),
        &cat4("--backup-snapshot-id ", &shell_hint(or_text(as_text(&item.backup_snapshot_id), "<backup-snapshot-id>")), " --restore-drill-id ", &shell_hint(or_text(as_text(&item.restore_drill_id), "<restore-drill-id>"))),
    );
    put(&mut list, "--execute");
    list
}

/// The command that approves an item.
pub open spec fn approval_command(path: Seq<char>, item: DriftCleanupRequestItemView) -> Seq<char> {
    joined(approval_words(path, item), " "@)
}

/// The command that approves an item.
pub fn cleanup_approval_command_template(path: &str, item: &DriftCleanupRequestItem) -> (r: String)
    ensures
        r@ == approval_command(path@, item.deep_view()),
{
    join(&list_approval_words(path, item), " ")
}

/// Whether a resource is among the listed ones.
pub open spec fn key_listed(
    items: Seq<DriftCleanupProgressItemView>,
    key: (Seq<char>, Seq<char>),
) -> bool {
    any(items, |i: DriftCleanupProgressItemView| (i.kind, i.target) == key)
}

/// Whether a resource is among the listed ones.
pub fn is_listed(items: &Vec<DriftCleanupProgressItem>, kind: &str, target: &str) -> (r: bool)
    ensures
        r == key_listed(items.deep_view(), (kind@, target@)),
{
    any_where(
        items,
        |i: &DriftCleanupProgressItem| -> (b: bool)
            ensures
                b == ((i.deep_view().kind, i.deep_view().target) == (kind@, target@))
            { same(&i.kind, kind) && same(&i.target, target) },
        Ghost(|i: DriftCleanupProgressItemView| (i.kind, i.target) == (kind@, target@)),
    )
}

/// What is known of the volume of an item: the last entry with its id.
pub open spec fn volume_for(
    entries: Seq<DriftCleanupVolumeOwnershipEntryView>,
    request_id: Seq<char>,
) -> Option<DriftCleanupVolumeOwnershipEntryView> {
    last_where(entries, |e: DriftCleanupVolumeOwnershipEntryView| e.request_id == request_id)
}

/// What is known of the volume of an item.
pub fn find_volume<'a>(entries: &'a Vec<DriftCleanupVolumeOwnershipEntry>, request_id: &str) -> (r:
    Option<&'a DriftCleanupVolumeOwnershipEntry>)
    ensures
        r.deep_view() == volume_for(entries.deep_view(), request_id@),
{
    find_last(
        entries,
        |e: &DriftCleanupVolumeOwnershipEntry| -> (b: bool)
            ensures
                b == (e.deep_view().request_id == request_id@)
            { same(&e.request_id, request_id) },
        Ghost(|e: DriftCleanupVolumeOwnershipEntryView| e.request_id == request_id@),
    )
}

/// What an operator should note about an item.
pub open spec fn pack_notes(
    item: DriftCleanupRequestItemView,
    inactive: bool,
    volume: Option<DriftCleanupVolumeOwnershipEntryView>,
) -> Seq<Seq<char>> {
    sorted_set(
        Seq::<Seq<char>>::empty() + noted(
            inactive,
            "item is not active in the current cleanup candidate scan; sync before approval"@,
        ) + noted(
            item.kind == "docker-volume"@,
            "Docker volume cleanup requires backup_snapshot_id and restore_drill_id before approval"@,
        ) + noted(
            item.running == Some(true),
            "running resources require a service-specific stop or maintenance plan"@,
        ) + noted(
            item.public_bind == Some(true),
            "public listeners require owner confirmation and a rollback plan before approval"@,
        ) + noted(
            volume is Some && some_database_hint(volume->0.content_hints),
            "database-like volume content detected; require backup and restore verification before approval"@,
        ) + noted(
            volume is Some && volume->0.sample_truncated,
            "volume content sample was truncated; inspect manually before approval"@,
        ) + noted(
            volume is Some && volume->0.mounted_by_containers.len() > 0,
            "volume is still mounted by container(s); do not approve cleanup before owner confirmation"@,
        ),
    )
}

/// What an operator should note about an item.
pub fn list_pack_notes(
    item: &DriftCleanupRequestItem,
    inactive: bool,
    volume: Option<&DriftCleanupVolumeOwnershipEntry>,
) -> (r: Vec<String>)
    ensures
        r.deep_view() == pack_notes(item.deep_view(), inactive, volume.deep_view()),
{
    let database = match volume {
        Some(v) => any_database_hint(&v.content_hints),
        None => false,
    };
    let truncated = match volume {
        Some(v) => v.sample_truncated,
        None => false,
    };
    let mounted = match volume {
        Some(v) => v.mounted_by_containers.len() > 0,
        None => false,
    };
    let mut list: Vec<String> = Vec::new();
    proof {
        assert(list.deep_view() =~= Seq::<Seq<char>>::empty());
    }
    note(
        &mut list,
        inactive,
        "item is not active in the current cleanup candidate scan; sync before approval",
    );
    note(
        &mut list,
        same(&item.kind, "docker-volume"),
        "Docker volume cleanup requires backup_snapshot_id and restore_drill_id before approval",
    );
    note(
        &mut list,
        is_set(item.running),
        "running resources require a service-specific stop or maintenance plan",
    );
    note(
        &mut list,
        is_set(item.public_bind),
        "public listeners require owner confirmation and a rollback plan before approval",
    );
    note(
        &mut list,
        database,
        "database-like volume content detected; require backup and restore verification before approval",
    );
    note(
        &mut list,
        truncated,
        "volume content sample was truncated; inspect manually before approval",
    );
    note(
        &mut list,
        mounted,
        "volume is still mounted by container(s); do not approve cleanup before owner confirmation",
    );
    unique_sorted(list)
}

/// What the pack says of an item.
pub open spec fn pack_entry(
    path: Seq<char>,
    item: DriftCleanupRequestItemView,
    current: bool,
    stale: bool,
    plan: DriftCleanupExecutionPlanEntryView,
    volume: Option<DriftCleanupVolumeOwnershipEntryView>,
) -> DriftCleanupApprovalPackEntryView {
    DriftCleanupApprovalPackEntryView {
        request_id: item.request_id,
        kind: item.kind,
        target: item.target,
        risk: item.risk,
        approval_status: item.approval_status,
        current_candidate: current,
        running: item.running,
        public_bind: item.public_bind,
        data_risk: item.data_risk,
        owner: item.owner,
        reason: item.reason,
        cleanup_strategy: item.cleanup_strategy,
        exact_resource_id: item.exact_resource_id,
        backup_snapshot_id: item.backup_snapshot_id,
        restore_drill_id: item.restore_drill_id,
        maintenance_window: item.maintenance_window,
        rollback_plan: item.rollback_plan,
        approval_expires_at: item.approval_expires_at,
        evidence_collected_at: item.evidence_collected_at,
        collected_evidence: item.collected_evidence,
        required_evidence: plan.required_evidence,
        safeguards: plan.safeguards,
        blockers: plan.blockers,
        volume_mountpoint_readable: match volume {
            Some(v) => v.mountpoint_readable,
            None => None,
        },
        volume_sampled_size_bytes: match volume {
            Some(v) => v.sampled_size_bytes,
            None => None,
        },
        volume_sample_truncated: match volume {
            Some(v) => Some(v.sample_truncated),
            None => None,
        },
        volume_mounted_by_containers: match volume {
            Some(v) => v.mounted_by_containers,
            None => Seq::empty(),
        },
        volume_service_candidates: match volume {
            Some(v) => v.service_candidates,
            None => Seq::empty(),
        },
        volume_top_level_entries: match volume {
            Some(v) => v.top_level_entries,
            None => Seq::empty(),
        },
        volume_content_hints: match volume {
            Some(v) => v.content_hints,
            None => Seq::empty(),
        },
        volume_cleanup_evidence_checklist: match volume {
            Some(v) => v.cleanup_evidence_checklist,
            None => Seq::empty(),
        },
        review_notes: pack_notes(item, stale || !current, volume),
        approval_command_template: approval_command(path, item),
    }
}

/// What the pack says of an item.
pub fn cleanup_approval_pack_entry(
    path: &str,
    item: &DriftCleanupRequestItem,
    current: bool,
    stale: bool,
    plan: &DriftCleanupExecutionPlanEntry,
    volume: Option<&DriftCleanupVolumeOwnershipEntry>,
) -> (r: DriftCleanupApprovalPackEntry)
    ensures
        r.deep_view() == pack_entry(
            path@,
            item.deep_view(),
            current,
            stale,
            plan.deep_view(),
            volume.deep_view(),
        ),
{
    let none: Vec<String> = Vec::new();
    proof {
        assert(none.deep_view() =~= Seq::<Seq<char>>::empty());
    }
    let mut readable: Option<bool> = None;
    let mut size: Option<u64> = None;
    let mut truncated: Option<bool> = None;
    let mut mounted = none.clone();
    let mut owners = none.clone();
    let mut top = none.clone();
    let mut hints = none.clone();
    let mut checklist = none;
    if let Some(v) = volume {
        readable = v.mountpoint_readable;
        size = v.sampled_size_bytes;
        truncated = Some(v.sample_truncated);
        mounted = v.mounted_by_containers.clone();
        owners = v.service_candidates.clone();
        top = v.top_level_entries.clone();
        hints = v.content_hints.clone();
        checklist = v.cleanup_evidence_checklist.clone();
    }
    DriftCleanupApprovalPackEntry {
        request_id: item.request_id.clone(),
        kind: item.kind.clone(),
        target: item.target.clone(),
        risk: item.risk.clone(),
        approval_status: item.approval_status.clone(),
        current_candidate: current,
        running: item.running,
        public_bind: item.public_bind,
        data_risk: item.data_risk.clone(),
        owner: item.owner.clone(),
        reason: item.reason.clone(),
        cleanup_strategy: item.cleanup_strategy.clone(),
        exact_resource_id: item.exact_resource_id.clone(),
        backup_snapshot_id: item.backup_snapshot_id.clone(),
        restore_drill_id: item.restore_drill_id.clone(),
        maintenance_window: item.maintenance_window.clone(),
        rollback_plan: item.rollback_plan.clone(),
        approval_expires_at: item.approval_expires_at.clone(),
        evidence_collected_at: item.evidence_collected_at.clone(),
        collected_evidence: item.collected_evidence.clone(),
        required_evidence: plan.required_evidence.clone(),
        safeguards: plan.safeguards.clone(),
        blockers: plan.blockers.clone(),
        volume_mountpoint_readable: readable,
        volume_sampled_size_bytes: size,
        volume_sample_truncated: truncated,
        volume_mounted_by_containers: mounted,
        volume_service_candidates: owners,
        volume_top_level_entries: top,
        volume_content_hints: hints,
        volume_cleanup_evidence_checklist: checklist,
        review_notes: list_pack_notes(item, stale || !current, volume),
        approval_command_template: cleanup_approval_command_template(path, item),
    }
}

// ---------------------------------------------------------------------------
// The approval pack
// ---------------------------------------------------------------------------

/// High risk first.
pub open spec fn risk_rank(risk: Seq<char>) -> nat {
    if risk == "high"@ {
        0
    } else if risk == "medium"@ {
        1
    } else {
        2
    }
}

/// Volumes first.
pub open spec fn kind_rank(kind: Seq<char>) -> nat {
    if kind == "docker-volume"@ {
        0
    } else if kind == "docker-container"@ {
        1
    } else if kind == "compose-project"@ {
        2
    } else if kind == "port"@ {
        3
    } else {
        4
    }
}

/// The place of a risk and a kind in the pack.
pub fn cleanup_approval_pack_priority(risk: &str, kind: &str) -> (r: (u8, u8))
    ensures
        r.0 == risk_rank(risk@),
        r.1 == kind_rank(kind@),
{
    let first: u8 = if same(risk, "high") {
        0
    } else if same(risk, "medium") {
        1
    } else {
        2
    };
    let second: u8 = if same(kind, "docker-volume") {
        0
    } else if same(kind, "docker-container") {
        1
    } else if same(kind, "compose-project") {
        2
    } else if same(kind, "port") {
        3
    } else {
        4
    };
    (first, second)
}

impl Ranked for DriftCleanupApprovalPackEntry {
    /// By risk, by the rank of the kind, by target, and by kind.
    open spec fn before(
        a: DriftCleanupApprovalPackEntryView,
        b: DriftCleanupApprovalPackEntryView,
    ) -> bool {
        risk_rank(a.risk) < risk_rank(b.risk) || risk_rank(a.risk) == risk_rank(b.risk) && (
        kind_rank(a.kind) < kind_rank(b.kind) || kind_rank(a.kind) == kind_rank(b.kind) && pair_lt(
            (a.target, a.kind),
            (b.target, b.kind),
        ))
    }

    fn ranks_before(&self, other: &Self) -> (r: bool) {
        let mine = cleanup_approval_pack_priority(&self.risk, &self.kind);
        let theirs = cleanup_approval_pack_priority(&other.risk, &other.kind);
        if mine.0 != theirs.0 {
            return mine.0 < theirs.0;
        }
        if mine.1 != theirs.1 {
            return mine.1 < theirs.1;
        }
        less(&self.target, &other.target) || (same(&self.target, &other.target) && less(
            &self.kind,
            &other.kind,
        ))
    }
}

/// What the pack is made from.
#[derive(Debug)]
pub struct PackSource {
    pub candidates: Vec<DriftCleanupCandidate>,
    pub progress: DriftCleanupProgressReport,
    pub plan: DriftCleanupExecutionPlanReport,
    pub volumes: Vec<DriftCleanupVolumeOwnershipEntry>,
}

/// View of [`PackSource`].
#[verifier::ext_equal]
pub struct PackSourceView {
    pub candidates: Seq<DriftCleanupCandidateView>,
    pub progress: DriftCleanupProgressReportView,
    pub plan: DriftCleanupExecutionPlanReportView,
    pub volumes: Seq<DriftCleanupVolumeOwnershipEntryView>,
}

impl DeepView for PackSource {
    type V = PackSourceView;

    open spec fn deep_view(&self) -> PackSourceView {
        PackSourceView {
            candidates: self.candidates.deep_view(),
            progress: self.progress.deep_view(),
            plan: self.plan.deep_view(),
            volumes: self.volumes.deep_view(),
        }
    }
}

/// What the pack says of an item, where the item belongs into it.
pub open spec fn pack_entry_of(
    path: Seq<char>,
    source: PackSourceView,
    item: DriftCleanupRequestItemView,
    kind: Option<Seq<char>>,
    status: Seq<char>,
) -> Option<DriftCleanupApprovalPackEntryView> {
    if pack_selects(item, kind, status) {
        Some(
            pack_entry(
                path,
                item,
                is_current(source.candidates, item_key(item)) && !key_listed(
                    source.progress.missing,
                    item_key(item),
                ),
                key_listed(source.progress.stale, item_key(item)),
                match plan_entry_for(source.plan.entries, item.request_id) {
                    Some(entry) => entry,
                    None => plan_entry(item),
                },
                volume_for(source.volumes, item.request_id),
            ),
        )
    } else {
        None
    }
}

/// What the pack says of an item, where the item belongs into it.
pub fn select_pack_entry(
    path: &str,
    source: &PackSource,
    item: &DriftCleanupRequestItem,
    kind: Option<&str>,
    status: &str,
) -> (r: Option<DriftCleanupApprovalPackEntry>)
    ensures
        r.deep_view() == pack_entry_of(
            path@,
            source.deep_view(),
            item.deep_view(),
            kind.deep_view(),
            status@,
        ),
{
    if !cleanup_pack_matches(item, kind, status) {
        return None;
    }
    let current = current_candidate(&source.candidates, &item.kind, &item.target) && !is_listed(
        &source.progress.missing,
        &item.kind,
        &item.target,
    );
    let stale = is_listed(&source.progress.stale, &item.kind, &item.target);
    let volume = find_volume(&source.volumes, &item.request_id);
    match find_plan_entry(&source.plan.entries, &item.request_id) {
        Some(entry) => Some(
            cleanup_approval_pack_entry(path, item, current, stale, entry, volume),
        ),
        None => {
            let entry = cleanup_execution_plan_entry(item);
            Some(cleanup_approval_pack_entry(path, item, current, stale, &entry, volume))
        },
    }
}

/// The entries of the pack, in its order.
pub open spec fn pack_entries(
    path: Seq<char>,
    source: PackSourceView,
    items: Seq<DriftCleanupRequestItemView>,
    kind: Option<Seq<char>>,
    status: Seq<char>,
) -> Seq<DriftCleanupApprovalPackEntryView> {
    sorted_by(
        chosen(
            items,
            |i: DriftCleanupRequestItemView| pack_entry_of(path, source, i, kind, status),
        ),
        rank::<DriftCleanupApprovalPackEntry>(),
    )
}

/// The entries of the pack, in its order.
pub fn list_pack_entries(
    path: &str,
    source: &PackSource,
    items: &Vec<DriftCleanupRequestItem>,
    kind: Option<&str>,
    status: &str,
) -> (r: Vec<DriftCleanupApprovalPackEntry>)
    ensures
        r.deep_view() == pack_entries(
            path@,
            source.deep_view(),
            items.deep_view(),
            kind.deep_view(),
            status@,
        ),
{
    sort_stable(
        choose_each(
            items,
            |i: &DriftCleanupRequestItem| -> (r: Option<DriftCleanupApprovalPackEntry>)
                ensures
                    r.deep_view() == pack_entry_of(
                        path@,
                        source.deep_view(),
                        i.deep_view(),
                        kind.deep_view(),
                        status@,
                    )
                { select_pack_entry(path, source, i, kind, status) },
            Ghost(
                |i: DriftCleanupRequestItemView|
                    pack_entry_of(path@, source.deep_view(), i, kind.deep_view(), status@),
            ),
        ),
    )
}

/// What the pack counts.
#[derive(Debug, Clone, Copy)]
pub enum PackTrait {
    DataBearing,
    Running,
    PublicBind,
}

/// Whether an entry counts.
pub open spec fn pack_has(entry: DriftCleanupApprovalPackEntryView, t: PackTrait) -> bool {
    match t {
        PackTrait::DataBearing => entry.kind == "docker-volume"@ || entry.data_risk is Some,
        PackTrait::Running => entry.running == Some(true),
        PackTrait::PublicBind => entry.public_bind == Some(true),
    }
}

/// How many entries count.
pub open spec fn pack_with(entries: Seq<DriftCleanupApprovalPackEntryView>, t: PackTrait) -> nat {
    tally(entries, |e: DriftCleanupApprovalPackEntryView| pack_has(e, t))
}

/// How many entries count.
pub fn count_pack(entries: &Vec<DriftCleanupApprovalPackEntry>, t: PackTrait) -> (r: usize)
    ensures
        r == pack_with(entries.deep_view(), t),
{
    count_where(
        entries,
        |e: &DriftCleanupApprovalPackEntry| -> (b: bool)
            ensures
                b == pack_has(e.deep_view(), t)
            {
                match t {
                    PackTrait::DataBearing => same(&e.kind, "docker-volume")
                        || e.data_risk.is_some(),
                    PackTrait::Running => is_set(e.running),
                    PackTrait::PublicBind => is_set(e.public_bind),
                }
            },
        Ghost(|e: DriftCleanupApprovalPackEntryView| pack_has(e, t)),
    )
}

/// The commands that go on from the pack.
pub open spec fn pack_commands(path: Seq<char>) -> Seq<Seq<char>> {
    let request = shell_hint_spec(path);
    Seq::<Seq<char>>::empty().push(
        "opsctl registry drift cleanup-request dashboard "@ + request + " --json"@,
    ).push(
        "opsctl registry drift cleanup-request worklist "@ + request + " --status needs_cleanup --json"@,
    ).push(
        "opsctl registry drift cleanup-request evidence "@ + request + " --all --execute"@,
    ).push(
        "opsctl registry drift cleanup-request approval-pack "@ + request + " --status needs_cleanup --json"@,
    )
}

/// The commands that go on from the pack.
pub fn list_pack_commands(path: &str) -> (r: Vec<String>)
    ensures
        r.deep_view() == pack_commands(path@),
{
    let request = shell_hint(path);
    let mut list: Vec<String> = Vec::new();
    proof {
        assert(list.deep_view() =~= Seq::<Seq<char>>::empty());
    }
    put(
        &mut list,
        &cat3("opsctl registry drift cleanup-request dashboard ", &request, " --json"),
    );
    put(
        &mut list,
        &cat3("opsctl registry drift cleanup-request worklist ", &request, " --status needs_cleanup --json"),
    );
    put(
        &mut list,
        &cat3("opsctl registry drift cleanup-request evidence ", &request, " --all --execute"),
    );
    put(
        &mut list,
        &cat3("opsctl registry drift cleanup-request approval-pack ", &request, " --status needs_cleanup --json"),
    );
    list
}

/// Whether a text says `blocked`.
pub open spec fn is_blocked(status: Seq<char>) -> bool {
    status == "blocked"@
}

/// What an operator has to approve. `ownership` speaks of volumes only.
pub open spec fn approval_pack(
    build: DriftCleanupBuildView,
    ownership: DriftOwnershipReportView,
    request: LoadedRequestView,
    kind: Option<Seq<char>>,
    status_filter: Option<Seq<char>>,
    limit: nat,
) -> DriftCleanupApprovalPackReportView {
    let progress = request_progress(build, request);
    let plan = execution_plan(request);
    let filter = wanted_status(status_filter);
    match request.document {
        None => DriftCleanupApprovalPackReportView {
            ok: false,
            read_only: true,
            status: "blocked"@,
            request_file: request.path,
            filter_kind: kind,
            filter_status: filter,
            limit: limit_of(limit),
            total_matching_items: 0,
            returned_items: 0,
            human_approval_required: true,
            destructive_execution_supported: false,
            destructive_execution_reason: no_destruction(),
            missing_current: progress.missing_current,
            stale_items: progress.stale_items,
            needs_approval: plan.needs_approval,
            ready: plan.ready,
            data_bearing_items: 0,
            running_items: 0,
            public_bind_items: 0,
            entries: Seq::empty(),
            checklist: pack_checklist(),
            safe_next_commands: Seq::empty(),
            limitations: seq![request.error],
        },
        Some(document) => {
            let limitations = progress.limitations + plan.limitations + status_filter_remark(filter)
                + schema_remark(document);
            let source = PackSourceView {
                candidates: build.candidates,
                progress,
                plan,
                volumes: if kind is None || kind == Some("docker-volume"@) {
                    volume_report(
                        build,
                        ownership,
                        request,
                        Some("all"@),
                        usize::MAX as nat,
                    ).entries
                } else {
                    Seq::empty()
                },
            };
            let all = pack_entries(request.path, source, document.items, kind, filter);
            let entries = front(all, limit_of(limit));
            let blocked = limitations.len() > 0 || is_blocked(plan.status) || is_blocked(
                progress.status,
            );
            DriftCleanupApprovalPackReportView {
                ok: !blocked,
                read_only: true,
                status: if blocked {
                    "blocked"@
                } else if progress.missing_current > 0 || progress.stale_items > 0 {
                    "sync_required"@
                } else if all.len() > 0 {
                    "approval_pack_ready"@
                } else {
                    "empty"@
                },
                request_file: request.path,
                filter_kind: kind,
                filter_status: filter,
                limit: limit_of(limit),
                total_matching_items: all.len(),
                returned_items: entries.len(),
                human_approval_required: all.len() > 0,
                destructive_execution_supported: false,
                destructive_execution_reason: no_destruction(),
                missing_current: progress.missing_current,
                stale_items: progress.stale_items,
                needs_approval: plan.needs_approval,
                ready: plan.ready,
                data_bearing_items: pack_with(entries, PackTrait::DataBearing),
                running_items: pack_with(entries, PackTrait::Running),
                public_bind_items: pack_with(entries, PackTrait::PublicBind),
                entries,
                checklist: pack_checklist(),
                safe_next_commands: pack_commands(request.path),
                limitations: sorted_set(limitations),
            }
        },
    }
}

/// What an operator has to approve, from what the server shows.
pub fn approval_pack_against(
    build: &DriftCleanupBuild,
    ownership: &DriftOwnershipReport,
    request: &LoadedRequest,
    kind: Option<&str>,
    status_filter: Option<&str>,
    limit: usize,
) -> (r: DriftCleanupApprovalPackReport)
    ensures
        r.deep_view() == approval_pack(
            build.deep_view(),
            ownership.deep_view(),
            request.deep_view(),
            kind.deep_view(),
            status_filter.deep_view(),
            limit as nat,
        ),
{
    let progress = progress_against(build, request);
    let plan = drift_cleanup_execution_plan(request);
    let filter_status = read_status_filter(status_filter);
    let limit = read_limit(limit);
    let missing_current = progress.missing_current;
    let stale_items = progress.stale_items;
    let needs_approval = plan.needs_approval;
    let ready = plan.ready;
    let document = match &request.document {
        Some(document) => document,
        None => {
            return DriftCleanupApprovalPackReport {
                ok: false,
                read_only: true,
                status: "blocked".to_string(),
                request_file: request.path.clone(),
                filter_kind: own_opt(kind),
                filter_status,
                limit,
                total_matching_items: 0,
                returned_items: 0,
                human_approval_required: true,
                destructive_execution_supported: false,
                destructive_execution_reason: cleanup_destructive_execution_reason(),
                missing_current,
                stale_items,
                needs_approval,
                ready,
                data_bearing_items: 0,
                running_items: 0,
                public_bind_items: 0,
                entries: Vec::new(),
                checklist: cleanup_approval_pack_checklist(),
                safe_next_commands: Vec::new(),
                limitations: vec![request.error.clone()],
            };
        },
    };
    let mut limitations = progress.limitations.clone();
    extend(&mut limitations, &plan.limitations);
    note_status_filter(&filter_status, &mut limitations);
    note_schema(document, &mut limitations);
    let blocked = limitations.len() > 0 || same(&plan.status, "blocked") || same(
        &progress.status,
        "blocked",
    );
    let mut volumes: Vec<DriftCleanupVolumeOwnershipEntry> = Vec::new();
    proof {
        assert(volumes.deep_view() =~= Seq::<DriftCleanupVolumeOwnershipEntryView>::empty());
    }
    if kind.is_none() || is_text(kind, "docker-volume") {
        volumes = volume_ownership_against(
            build,
            ownership,
            request,
            Some("all"),
            usize::MAX,
        ).entries;
    }
    let source = PackSource {
        candidates: build.candidates.clone(),
        progress,
        plan,
        volumes,
    };
    let all = list_pack_entries(&request.path, &source, &document.items, kind, &filter_status);
    proof {
        assert(all.deep_view().len() == all@.len());
    }
    let total = all.len();
    let entries = keep_front(all, limit);
    proof {
        assert(entries.deep_view().len() == entries@.len());
    }
    let status = if blocked {
        "blocked"
    } else if missing_current > 0 || stale_items > 0 {
        "sync_required"
    } else if total > 0 {
        "approval_pack_ready"
    } else {
        "empty"
    };
    DriftCleanupApprovalPackReport {
        ok: !blocked,
        read_only: true,
        status: status.to_string(),
        request_file: request.path.clone(),
        filter_kind: own_opt(kind),
        filter_status,
        limit,
        total_matching_items: total,
        returned_items: entries.len(),
        human_approval_required: total > 0,
        destructive_execution_supported: false,
        destructive_execution_reason: cleanup_destructive_execution_reason(),
        missing_current,
        stale_items,
        needs_approval,
        ready,
        data_bearing_items: count_pack(&entries, PackTrait::DataBearing),
        running_items: count_pack(&entries, PackTrait::Running),
        public_bind_items: count_pack(&entries, PackTrait::PublicBind),
        entries,
        checklist: cleanup_approval_pack_checklist(),
        safe_next_commands: list_pack_commands(&request.path),
        limitations: unique_sorted(limitations),
    }
}

/// What an operator has to approve.
pub fn drift_cleanup_approval_pack(
    registry: &Registry,
    observation: &Observation,
    request: &LoadedRequest,
    kind: Option<&str>,
    status_filter: Option<&str>,
    limit: usize,
) -> (r: DriftCleanupApprovalPackReport)
    ensures
        r.deep_view() == approval_pack(
            cleanup_build(registry.deep_view(), observation.deep_view()),
            drift_ownership_spec(registry.deep_view(), observation.deep_view(), volume_filter()),
            request.deep_view(),
            kind.deep_view(),
            status_filter.deep_view(),
            limit as nat,
        ),
{
    let build = build_drift_cleanup(registry, observation);
    let ownership = read_volume_ownership(registry, observation);
    approval_pack_against(&build, &ownership, request, kind, status_filter, limit)
}

// ---------------------------------------------------------------------------
// Laws
// ---------------------------------------------------------------------------

/// The pack never offers to remove anything, and it asks for a human approval
/// whenever it holds an entry.
pub proof fn law_pack_needs_a_human(
    build: DriftCleanupBuildView,
    ownership: DriftOwnershipReportView,
    request: LoadedRequestView,
    kind: Option<Seq<char>>,
    status_filter: Option<Seq<char>>,
    limit: nat,
)
    ensures
        ({
            let pack = approval_pack(build, ownership, request, kind, status_filter, limit);
            &&& !pack.destructive_execution_supported
            &&& pack.entries.len() > 0 ==> pack.human_approval_required
            &&& pack.returned_items <= pack.limit
        }),
{
}

/// A larger limit shows the same entries first, and all of them are shown up to the
/// limit, which is at least one. Counts that do not speak of the entries shown stay.
pub proof fn law_larger_limits_show_more_to_approve(
    build: DriftCleanupBuildView,
    ownership: DriftOwnershipReportView,
    request: LoadedRequestView,
    kind: Option<Seq<char>>,
    status_filter: Option<Seq<char>>,
    small: nat,
    large: nat,
)
    requires
        small <= large,
    ensures
        ({
            let a = approval_pack(build, ownership, request, kind, status_filter, small);
            let b = approval_pack(build, ownership, request, kind, status_filter, large);
            let most: nat = if small < 1 {
                1
            } else {
                small
            };
            &&& a.entries.is_prefix_of(b.entries)
            &&& a.returned_items == a.entries.len()
            &&& a.returned_items == (if a.total_matching_items < most {
                a.total_matching_items
            } else {
                most
            })
            &&& a == (DriftCleanupApprovalPackReportView {
                limit: a.limit,
                returned_items: a.returned_items,
                data_bearing_items: a.data_bearing_items,
                running_items: a.running_items,
                public_bind_items: a.public_bind_items,
                entries: a.entries,
                ..b
            })
        }),
{
}

/// What an entry lacks: for one nobody classified, its classification; for another, the
/// evidence that it requires and a fix of each of its blockers.
pub proof fn law_what_an_entry_lacks(entry: DriftCleanupExecutionPlanEntryView, x: Seq<char>)
    ensures
        entry.approval_status == "unknown"@ ==> entry_gaps(entry) == seq![
            "classification is required: adopt, ignore with expiry, needs_cleanup, or leave unknown"@,
        ],
        entry.approval_status != "unknown"@ ==> (entry_gaps(entry).contains(x) <==> (
        entry.required_evidence.contains(x) || exists|i: int|
            0 <= i < entry.blockers.len() && x == "blocker must be fixed: "@
                + #[trigger] entry.blockers[i])),
{
    let prefix = "blocker must be fixed: "@;
    let labels = all_labelled(prefix, entry.blockers);
    law_either_list(entry.required_evidence, labels, x);
    assert(labels.len() == entry.blockers.len());
    assert forall|i: int| 0 <= i < labels.len() implies #[trigger] labels[i] == prefix
        + entry.blockers[i] by {}
    if labels.contains(x) {
        let i = choose|i: int| 0 <= i < labels.len() && labels[i] == x;
        assert(x == prefix + entry.blockers[i]);
    }
    if exists|i: int| 0 <= i < entry.blockers.len() && x == prefix + #[trigger] entry.blockers[i] {
        let i = choose|i: int|
            0 <= i < entry.blockers.len() && x == prefix + #[trigger] entry.blockers[i];
        assert(labels[i] == x);
    }
}

/// The gaps in some evidence.
pub open spec fn in_evidence(evidence: Seq<char>) -> spec_fn(EvidenceGapView) -> bool {
    |g: EvidenceGapView| g.evidence == evidence
}

proof fn lemma_gap_count(gaps: Seq<EvidenceGapView>, evidence: Seq<char>)
    ensures
        gap_kinds(gaps, evidence).len() == tally(gaps, in_evidence(evidence)),
        gap_ids(gaps, evidence).len() == tally(gaps, in_evidence(evidence)),
    decreases gaps.len(),
{
    if gaps.len() > 0 {
        lemma_gap_count(gaps.drop_last(), evidence);
    }
}

/// Evidence that something lacks is reported once, with how many lack it and of which
/// kinds they are.
pub proof fn law_missing_evidence(gaps: Seq<EvidenceGapView>, i: int)
    requires
        0 <= i < gaps.len(),
    ensures
        exists|m: int|
            0 <= m < missing_entries(gaps).len() && (#[trigger] missing_entries(gaps)[m]).evidence
                == gaps[i].evidence && missing_entries(gaps)[m].items == tally(
                gaps,
                in_evidence(gaps[i].evidence),
            ) && missing_entries(gaps)[m].kinds.contains(gaps[i].kind),
        forall|m: int|
            0 <= m < missing_entries(gaps).len() ==> exists|j: int|
                0 <= j < gaps.len() && (#[trigger] gaps[j]).evidence == (
                #[trigger] missing_entries(gaps)[m]).evidence,
{
    let words = gaps.map_values(|g: EvidenceGapView| g.evidence);
    let all = sorted_set(words);
    let e = gaps[i].evidence;
    law_sorted_set(words);
    assert(words[i] == e);
    assert(words.contains(e));
    let m = choose|m: int| 0 <= m < all.len() && all[m] == e;
    assert(missing_entries(gaps)[m] == missing_entry(gaps, e));
    lemma_gap_count(gaps, e);
    let f = |g: EvidenceGapView|
        if g.evidence == e {
            Some(g.kind)
        } else {
            None
        };
    law_chosen(gaps, f, gaps[i].kind);
    assert(f(gaps[i]) == Some(gaps[i].kind));
    law_sorted_set(gap_kinds(gaps, e));
    assert(gap_kinds(gaps, e).contains(gaps[i].kind));
    assert forall|m: int| 0 <= m < missing_entries(gaps).len() implies exists|j: int|
        0 <= j < gaps.len() && (#[trigger] gaps[j]).evidence == (
        #[trigger] missing_entries(gaps)[m]).evidence by {
        assert(all.contains(all[m]));
        assert(words.contains(all[m]));
        let j = choose|j: int| 0 <= j < words.len() && words[j] == all[m];
        assert(gaps[j].evidence == missing_entries(gaps)[m].evidence);
    }
}

/// The entries with a status and of a kind.
pub open spec fn entry_of_status_and_kind(status: Seq<char>, kind: Seq<char>) -> spec_fn(
    DriftCleanupExecutionPlanEntryView,
) -> bool {
    |x: DriftCleanupExecutionPlanEntryView| x.approval_status == status && x.kind == kind
}

/// Each pair of a status and a kind that occurs has its bucket, which counts its entries.
pub proof fn law_approval_buckets(entries: Seq<DriftCleanupExecutionPlanEntryView>, i: int)
    requires
        0 <= i < entries.len(),
    ensures
        exists|b: int|
            0 <= b < approval_buckets(entries).len() && (#[trigger] approval_buckets(
                entries,
            )[b]).approval_status == entries[i].approval_status && approval_buckets(entries)[b].kind
                == entries[i].kind && approval_buckets(entries)[b].items == tally(
                entries,
                entry_of_status_and_kind(entries[i].approval_status, entries[i].kind),
            ),
{
    let pairs = entry_status_kinds(entries);
    law_pairs_are_ordered();
    law_sorted_values_keep_all(pairs, rank::<(String, String)>(), i);
    let keys = pair_keys(pairs);
    let key = (entries[i].approval_status, entries[i].kind);
    assert(pairs[i] == key);
    let b = choose|b: int| 0 <= b < keys.len() && keys[b] == key;
    lemma_entry_bucket_size(entries, key);
    assert(approval_buckets(entries)[b].items == pair_count(pairs, key));
    assert(approval_buckets(entries)[b].kind == entries[i].kind);
}

proof fn lemma_entry_bucket_size(
    entries: Seq<DriftCleanupExecutionPlanEntryView>,
    key: (Seq<char>, Seq<char>),
)
    ensures
        pair_count(entry_status_kinds(entries), key) == tally(
            entries,
            entry_of_status_and_kind(key.0, key.1),
        ),
    decreases entries.len(),
{
    if entries.len() > 0 {
        lemma_entry_bucket_size(entries.drop_last(), key);
        assert(entry_status_kinds(entries).drop_last() =~= entry_status_kinds(entries.drop_last()));
    }
}

/// What approving comes to: it is blocked where an entry or the plan is; else some entries
/// are ready, or some need cleanup, or some are unclassified, or nothing is left.
pub proof fn law_what_approving_comes_to(plan: DriftCleanupExecutionPlanReportView)
    ensures
        ({
            let r = approval_summary(plan);
            let blocked = plan.blocked > 0 || plan.limitations.len() > 0;
            let dirty = exists|i: int|
                0 <= i < plan.entries.len() && (#[trigger] plan.entries[i]).approval_status
                    == "needs_cleanup"@;
            let unclassified = exists|i: int|
                0 <= i < plan.entries.len() && (#[trigger] plan.entries[i]).approval_status
                    == "unknown"@;
            &&& r.ok <==> !blocked
            &&& r.status == "blocked"@ <==> blocked
            &&& r.status == "ready_for_human_execution_request"@ <==> !blocked && plan.ready > 0
            &&& r.status == "needs_human_approval"@ <==> !blocked && plan.ready == 0 && dirty
            &&& r.status == "classification_required"@ <==> !blocked && plan.ready == 0 && !dirty
                && unclassified
            &&& r.status == "no_cleanup_pending"@ <==> !blocked && plan.ready == 0 && !dirty
                && !unclassified
            &&& r.ready == plan.ready && r.blocked == plan.blocked && r.approved == plan.approved
                && r.total_items == plan.total_items
            &&& r.unknown > 0 <==> unclassified
            &&& r.needs_cleanup > 0 <==> dirty
        }),
{
    lemma_entries_with_approval(plan.entries, "needs_cleanup"@);
    lemma_entries_with_approval(plan.entries, "unknown"@);
    reveal_strlit("blocked");
    reveal_strlit("ready_for_human_execution_request");
    reveal_strlit("needs_human_approval");
    reveal_strlit("classification_required");
    reveal_strlit("no_cleanup_pending");
    assert("blocked"@.len() == 7 && "ready_for_human_execution_request"@.len() == 33
        && "needs_human_approval"@.len() == 20 && "classification_required"@.len() == 23
        && "no_cleanup_pending"@.len() == 18);
}

proof fn lemma_entries_with_approval(
    entries: Seq<DriftCleanupExecutionPlanEntryView>,
    status: Seq<char>,
)
    ensures
        entries_with_approval(entries, status) > 0 <==> exists|i: int|
            0 <= i < entries.len() && (#[trigger] entries[i]).approval_status == status,
    decreases entries.len(),
{
    if entries.len() > 0 {
        let d = entries.drop_last();
        lemma_entries_with_approval(d, status);
        assert(entries[entries.len() - 1] == entries.last());
        if entries_with_approval(d, status) > 0 {
            let i = choose|i: int|
                0 <= i < d.len() && (#[trigger] d[i]).approval_status == status;
            assert(entries[i].approval_status == status);
        }
        if exists|i: int|
            0 <= i < entries.len() && (#[trigger] entries[i]).approval_status == status {
            let i = choose|i: int|
                0 <= i < entries.len() && (#[trigger] entries[i]).approval_status == status;
            if i < d.len() {
                assert(d[i].approval_status == status);
            }
        }
    }
}

/// A pack holds an entry for an item where the kind asked for is its kind, or none is
/// asked for, and the status asked for is its status, or all are. The entry is about the
/// item, and warns of what approving it could break.
pub proof fn law_what_is_packed(
    path: Seq<char>,
    source: PackSourceView,
    item: DriftCleanupRequestItemView,
    kind: Option<Seq<char>>,
    status: Seq<char>,
)
    ensures
        match pack_entry_of(path, source, item, kind, status) {
            None => (kind is Some && kind->0 != item.kind) || (status != "all"@ && status
                != item.approval_status),
            Some(e) => {
                &&& kind is None || kind->0 == item.kind
                &&& status == "all"@ || status == item.approval_status
                &&& e.request_id == item.request_id && e.kind == item.kind && e.target
                    == item.target && e.approval_status == item.approval_status && e.risk
                    == item.risk && e.owner == item.owner && e.exact_resource_id
                    == item.exact_resource_id && e.rollback_plan == item.rollback_plan
                &&& e.review_notes.contains(
                    "Docker volume cleanup requires backup_snapshot_id and restore_drill_id before approval"@,
                ) <== item.kind == "docker-volume"@
                &&& e.review_notes.contains(
                    "running resources require a service-specific stop or maintenance plan"@,
                ) <== item.running == Some(true)
                &&& e.review_notes.contains(
                    "public listeners require owner confirmation and a rollback plan before approval"@,
                ) <== item.public_bind == Some(true)
                &&& e.review_notes.contains(
                    "item is not active in the current cleanup candidate scan; sync before approval"@,
                ) <== !e.current_candidate
                &&& e.current_candidate ==> is_current(source.candidates, item_key(item))
                &&& e.review_notes.len() > 0 ==> item.kind == "docker-volume"@ || item.running
                    == Some(true) || item.public_bind == Some(true) || !e.current_candidate
                    || key_listed(source.progress.stale, item_key(item)) || volume_for(
                    source.volumes,
                    item.request_id,
                ) is Some
            },
        },
{
    if pack_selects(item, kind, status) {
        let e = pack_entry_of(path, source, item, kind, status)->0;
        lemma_pack_notes(
            item,
            key_listed(source.progress.stale, item_key(item)) || !e.current_candidate,
            volume_for(source.volumes, item.request_id),
        );
    }
}

#[verifier::spinoff_prover]
#[verifier::rlimit(60)]
proof fn lemma_pack_notes(
    item: DriftCleanupRequestItemView,
    inactive: bool,
    volume: Option<DriftCleanupVolumeOwnershipEntryView>,
)
    ensures
        ({
            let notes = pack_notes(item, inactive, volume);
            &&& item.kind == "docker-volume"@ ==> notes.contains(
                "Docker volume cleanup requires backup_snapshot_id and restore_drill_id before approval"@,
            )
            &&& item.running == Some(true) ==> notes.contains(
                "running resources require a service-specific stop or maintenance plan"@,
            )
            &&& item.public_bind == Some(true) ==> notes.contains(
                "public listeners require owner confirmation and a rollback plan before approval"@,
            )
            &&& inactive ==> notes.contains(
                "item is not active in the current cleanup candidate scan; sync before approval"@,
            )
            &&& notes.len() > 0 ==> item.kind == "docker-volume"@ || item.running == Some(true)
                || item.public_bind == Some(true) || inactive || volume is Some
        }),
{
    let n1 = noted(
        inactive,
        "item is not active in the current cleanup candidate scan; sync before approval"@,
    );
    let n2 = noted(
        item.kind == "docker-volume"@,
        "Docker volume cleanup requires backup_snapshot_id and restore_drill_id before approval"@,
    );
    let n3 = noted(
        item.running == Some(true),
        "running resources require a service-specific stop or maintenance plan"@,
    );
    let n4 = noted(
        item.public_bind == Some(true),
        "public listeners require owner confirmation and a rollback plan before approval"@,
    );
    let n5 = noted(
        volume is Some && some_database_hint(volume->0.content_hints),
        "database-like volume content detected; require backup and restore verification before approval"@,
    );
    let n6 = noted(
        volume is Some && volume->0.sample_truncated,
        "volume content sample was truncated; inspect manually before approval"@,
    );
    let n7 = noted(
        volume is Some && volume->0.mounted_by_containers.len() > 0,
        "volume is still mounted by container(s); do not approve cleanup before owner confirmation"@,
    );
    let s1 = Seq::<Seq<char>>::empty() + n1;
    let s2 = s1 + n2;
    let s3 = s2 + n3;
    let s4 = s3 + n4;
    let s5 = s4 + n5;
    let s6 = s5 + n6;
    let s7 = s6 + n7;
    let notes = pack_notes(item, inactive, volume);
    assert(equal(notes, sorted_set(s7)));
    law_sorted_set(s7);
    assert(s1 =~= n1);
    assert forall|x: Seq<char>|
        n1.contains(x) || n2.contains(x) || n3.contains(x) || n4.contains(x) implies
        #[trigger] s7.contains(x) by {
        law_either_list(n1, n2, x);
        law_either_list(s2, n3, x);
        law_either_list(s3, n4, x);
        law_either_list(s4, n5, x);
        law_either_list(s5, n6, x);
        law_either_list(s6, n7, x);
    }
    let x1 = "item is not active in the current cleanup candidate scan; sync before approval"@;
    let x2 =
        "Docker volume cleanup requires backup_snapshot_id and restore_drill_id before approval"@;
    let x3 = "running resources require a service-specific stop or maintenance plan"@;
    let x4 = "public listeners require owner confirmation and a rollback plan before approval"@;
    law_noted(inactive, x1, x1);
    law_noted(item.kind == "docker-volume"@, x2, x2);
    law_noted(item.running == Some(true), x3, x3);
    law_noted(item.public_bind == Some(true), x4, x4);
    assert(inactive ==> s7.contains(x1));
    assert(item.kind == "docker-volume"@ ==> s7.contains(x2));
    assert(item.running == Some(true) ==> s7.contains(x3));
    assert(item.public_bind == Some(true) ==> s7.contains(x4));
}

/// What a pack comes to: it is blocked where the plan, the progress or the request is;
/// else the request is to be synced, or there is something to approve, or nothing.
pub proof fn law_what_a_pack_comes_to(
    build: DriftCleanupBuildView,
    ownership: DriftOwnershipReportView,
    request: LoadedRequestView,
    kind: Option<Seq<char>>,
    status_filter: Option<Seq<char>>,
    limit: nat,
)
    requires
        request.document is Some,
    ensures
        ({
            let pack = approval_pack(build, ownership, request, kind, status_filter, limit);
            let progress = request_progress(build, request);
            let behind = progress.missing_current > 0 || progress.stale_items > 0;
            &&& pack.status == "blocked"@ <==> !pack.ok
            &&& pack.ok <==> progress.status != "blocked"@ && execution_plan(request).status
                != "blocked"@ && progress.limitations.len() == 0 && execution_plan(
                request,
            ).limitations.len() == 0 && request.document->0.schema_version
                == "opsctl.drift_cleanup_request.v1"@ && (pack.filter_status == "all"@
                || pack.filter_status == "unknown"@ || pack.filter_status == "needs_cleanup"@
                || pack.filter_status == "approved"@ || pack.filter_status == "rejected"@)
            &&& pack.status == "sync_required"@ <==> pack.ok && behind
            &&& pack.status == "approval_pack_ready"@ <==> pack.ok && !behind
                && pack.total_matching_items > 0
            &&& pack.status == "empty"@ <==> pack.ok && !behind && pack.total_matching_items == 0
            &&& pack.human_approval_required <==> pack.total_matching_items > 0
            &&& pack.ready == execution_plan(request).ready
            &&& pack.read_only
        }),
{
    reveal_strlit("blocked");
    reveal_strlit("sync_required");
    reveal_strlit("approval_pack_ready");
    reveal_strlit("empty");
    assert("blocked"@.len() == 7 && "sync_required"@.len() == 13 && "approval_pack_ready"@.len()
        == 19 && "empty"@.len() == 5);
}

/// A pack lists high risks first, then medium ones; under the same risk volumes, then
/// containers, projects and ports.
pub proof fn law_what_is_approved_first(
    path: Seq<char>,
    source: PackSourceView,
    items: Seq<DriftCleanupRequestItemView>,
    kind: Option<Seq<char>>,
    status: Seq<char>,
    i: int,
    j: int,
)
    requires
        0 <= i < j < pack_entries(path, source, items, kind, status).len(),
    ensures
        ({
            let all = pack_entries(path, source, items, kind, status);
            &&& all[j].risk == "high"@ ==> all[i].risk == "high"@
            &&& all[j].risk == "medium"@ ==> all[i].risk == "high"@ || all[i].risk == "medium"@
            &&& all[i].risk == all[j].risk && all[j].kind == "docker-volume"@ ==> all[i].kind
                == "docker-volume"@
            &&& all[i].risk == all[j].risk && all[j].kind == "docker-container"@ ==> all[i].kind
                == "docker-volume"@ || all[i].kind == "docker-container"@
        }),
{
    let s = chosen(
        items,
        |i: DriftCleanupRequestItemView| pack_entry_of(path, source, i, kind, status),
    );
    let before = rank::<DriftCleanupApprovalPackEntry>();
    lemma_sorted_by_keeps(s, before, |x: DriftCleanupApprovalPackEntryView| true);
    law_ranked(
        s,
        before,
        |x: DriftCleanupApprovalPackEntryView|
            risk_rank(x.risk) as int * 5 + kind_rank(x.kind) as int,
        |x: DriftCleanupApprovalPackEntryView| (x.target, x.kind),
        i,
        j,
    );
    reveal_strlit("docker-volume");
    reveal_strlit("docker-container");
    reveal_strlit("high");
    reveal_strlit("medium");
    assert("docker-volume"@.len() == 13 && "docker-container"@.len() == 16 && "high"@.len() == 4
        && "medium"@.len() == 6);
}

/// What is to be done next: a step for each thing that is left, unknown items, those that
/// need cleanup or approval, ready and blocked ones; or one that says nothing is pending.
pub proof fn law_what_approving_asks_next(
    unknown: nat,
    needs_cleanup: nat,
    plan: DriftCleanupExecutionPlanReportView,
)
    ensures
        ({
            let left = (if unknown > 0 {
                1int
            } else {
                0
            }) + (if needs_cleanup > 0 {
                1int
            } else {
                0
            }) + (if plan.needs_approval > 0 {
                1int
            } else {
                0
            }) + (if plan.ready > 0 {
                1int
            } else {
                0
            }) + (if plan.blocked > 0 {
                1int
            } else {
                0
            });
            &&& left > 0 ==> summary_next_actions(unknown, needs_cleanup, plan).len() == left
            &&& left == 0 ==> summary_next_actions(unknown, needs_cleanup, plan) == seq![
                "no cleanup approval work is pending"@,
            ]
        }),
{
    if unknown == 0 && needs_cleanup == 0 && plan.needs_approval == 0 && plan.ready == 0
        && plan.blocked == 0 {
        assert(summary_next_actions(unknown, needs_cleanup, plan) =~= seq![
            "no cleanup approval work is pending"@,
        ]);
    }
}

/// What an item in a pack counts as.
pub proof fn law_what_packed_items_count_as(entry: DriftCleanupApprovalPackEntryView)
    ensures
        pack_has(entry, PackTrait::DataBearing) <==> entry.kind == "docker-volume"@
            || entry.data_risk is Some,
        pack_has(entry, PackTrait::Running) <==> entry.running == Some(true),
        pack_has(entry, PackTrait::PublicBind) <==> entry.public_bind == Some(true),
{
}

} // verus!
