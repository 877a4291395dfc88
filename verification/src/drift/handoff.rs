//! Handing an approved cleanup over to an operator, and recording what came of
//! it.

use vstd::prelude::*;
use crate::drift::candidates::{
    DriftCleanupBuild, DriftCleanupBuildView, LoadedRequest, LoadedRequestView,
    build_drift_cleanup, cleanup_build, item_key,
};
use crate::drift::plan::{drift_cleanup_execution_plan, execution_plan};
use crate::drift::progress::{candidate_for, find_candidate, is_observed, law_lookups};
use crate::drift::runbook::{find_item_with_id, is_ready, item_with_id};
use crate::drift::triage::{count_distinct_candidates, distinct_candidates};
use crate::drift::types::{
    DriftCleanupCandidate, DriftCleanupCandidateView, DriftCleanupExecuteOptions,
    DriftCleanupExecuteOptionsView, DriftCleanupExecuteReport, DriftCleanupExecuteReportView,
    DriftCleanupExecutionPlanEntry, DriftCleanupExecutionPlanEntryView,
    DriftCleanupExecutionPlanReport, DriftCleanupExecutionPlanReportView,
    DriftCleanupFinalizeOptions, DriftCleanupFinalizeOptionsView, DriftCleanupFinalizeReport,
    DriftCleanupFinalizeReportView, DriftCleanupPreExecutionCheck,
    DriftCleanupPreExecutionCheckView, DriftCleanupRequestDocument,
    DriftCleanupRequestDocumentView, DriftCleanupRequestItem, DriftCleanupRequestItemView,
};
use crate::drift::verify::{
    fits_on_a_line, is_set, option_remark, option_remarks, validate_optional_adopt_text,
    validate_texts,
};
use crate::each::{choose_each, count_where, gather_each, map_each};
use crate::hex::{hex_encode, hex_of};
use crate::json::{
    json_array, json_array_spec, json_flag, json_flag_spec, json_member, json_member_spec,
    json_object, json_object_spec, json_optional, json_optional_spec, json_quoted, json_texts,
    json_texts_spec,
};
use crate::list::{
    chosen, extend, gathered, includes, law_chosen, law_gathered, law_sorted_set, law_tally,
    lemma_gathered_nothing, note, noted, put, sorted_set, tally, unique_sorted,
};
use crate::number::{bool_text, bool_word, count_text, decimal};
use crate::outside::{json_quote, sha256, sha256_digest};
use crate::scan::Observation;
use crate::text::{as_text, blank, cat2, cat4, cat5, cat6, is_blank, is_text, own_opt, same};

verus! {

broadcast use {vstd::seq::group_seq_axioms, vstd::string::group_string_axioms};

// ---------------------------------------------------------------------------
// The digest of a request
// ---------------------------------------------------------------------------

/// An item as members of a JSON object.
#[verifier::opaque]
pub open spec fn item_members(i: DriftCleanupRequestItemView) -> Seq<Seq<char>> {
    (Seq::<Seq<char>>::empty().push(
        json_member_spec("request_id"@, json_quoted(i.request_id)),
    ).push(
        json_member_spec("kind"@, json_quoted(i.kind)),
    ).push(
        json_member_spec("target"@, json_quoted(i.target)),
    ).push(
        json_member_spec("code"@, json_quoted(i.code)),
    ).push(
        json_member_spec("risk"@, json_quoted(i.risk)),
    ).push(
        json_member_spec("running"@, json_flag_spec(i.running)),
    ).push(
        json_member_spec("public_bind"@, json_flag_spec(i.public_bind)),
    ).push(
        json_member_spec("data_risk"@, json_optional_spec(i.data_risk)),
    ).push(
        json_member_spec("observed_status"@, json_optional_spec(i.observed_status)),
    ).push(
        json_member_spec("planned_action"@, json_quoted(i.planned_action)),
    ).push(
        json_member_spec("approval_status"@, json_quoted(i.approval_status)),
    ).push(
        json_member_spec("owner"@, json_optional_spec(i.owner)),
    ).push(
        json_member_spec("reason"@, json_optional_spec(i.reason)),
    ).push(
        json_member_spec("operator_note"@, json_optional_spec(i.operator_note)),
    ).push(
        json_member_spec("cleanup_strategy"@, json_optional_spec(i.cleanup_strategy)),
    ).push(
        json_member_spec("exact_resource_id"@, json_optional_spec(i.exact_resource_id)),
    ).push(
        json_member_spec("backup_snapshot_id"@, json_optional_spec(i.backup_snapshot_id)),
    ).push(
        json_member_spec("restore_drill_id"@, json_optional_spec(i.restore_drill_id)),
    ).push(
        json_member_spec("maintenance_window"@, json_optional_spec(i.maintenance_window)),
    ).push(
        json_member_spec("rollback_plan"@, json_optional_spec(i.rollback_plan)),
    ).push(
        json_member_spec("approval_expires_at"@, json_optional_spec(i.approval_expires_at)),
    ) + noted(
        i.collected_evidence.len() > 0,
        json_member_spec("collected_evidence"@, json_texts_spec(i.collected_evidence)),
    ) + noted(
        i.evidence_collected_at is Some,
        json_member_spec("evidence_collected_at"@, json_optional_spec(i.evidence_collected_at)),
    )).push(
        json_member_spec("destructive_command_generated"@, bool_word(i.destructive_command_generated)),
    ).push(
        json_member_spec("rationale"@, json_quoted(i.rationale)),
    )
}

/// An item as members of a JSON object.
pub fn list_item_members(i: &DriftCleanupRequestItem) -> (r: Vec<String>)
    ensures
        r.deep_view() == item_members(i.deep_view()),
{
    let mut list: Vec<String> = Vec::new();
    proof {
        reveal(item_members);
        assert(list.deep_view() =~= Seq::<Seq<char>>::empty());
    }
    put(&mut list, &json_member("request_id", &json_quote(&i.request_id)));
    put(&mut list, &json_member("kind", &json_quote(&i.kind)));
    put(&mut list, &json_member("target", &json_quote(&i.target)));
    put(&mut list, &json_member("code", &json_quote(&i.code)));
    put(&mut list, &json_member("risk", &json_quote(&i.risk)));
    put(&mut list, &json_member("running", json_flag(i.running)));
    put(&mut list, &json_member("public_bind", json_flag(i.public_bind)));
    put(&mut list, &json_member("data_risk", &json_optional(as_text(&i.data_risk))));
    put(&mut list, &json_member("observed_status", &json_optional(as_text(&i.observed_status))));
    put(&mut list, &json_member("planned_action", &json_quote(&i.planned_action)));
    put(&mut list, &json_member("approval_status", &json_quote(&i.approval_status)));
    put(&mut list, &json_member("owner", &json_optional(as_text(&i.owner))));
    put(&mut list, &json_member("reason", &json_optional(as_text(&i.reason))));
    put(&mut list, &json_member("operator_note", &json_optional(as_text(&i.operator_note))));
    put(
        &mut list,
        &json_member("cleanup_strategy", &json_optional(as_text(&i.cleanup_strategy))),
    );
    put(
        &mut list,
        &json_member("exact_resource_id", &json_optional(as_text(&i.exact_resource_id))),
    );
    put(
        &mut list,
        &json_member("backup_snapshot_id", &json_optional(as_text(&i.backup_snapshot_id))),
    );
    put(
        &mut list,
        &json_member("restore_drill_id", &json_optional(as_text(&i.restore_drill_id))),
    );
    put(
        &mut list,
        &json_member("maintenance_window", &json_optional(as_text(&i.maintenance_window))),
    );
    put(&mut list, &json_member("rollback_plan", &json_optional(as_text(&i.rollback_plan))));
    put(
        &mut list,
        &json_member("approval_expires_at", &json_optional(as_text(&i.approval_expires_at))),
    );
    note(
        &mut list,
        i.collected_evidence.len() > 0,
        &json_member("collected_evidence", &json_texts(&i.collected_evidence)),
    );
    note(
        &mut list,
        i.evidence_collected_at.is_some(),
        &json_member("evidence_collected_at", &json_optional(as_text(&i.evidence_collected_at))),
    );
    put(
        &mut list,
        &json_member("destructive_command_generated", bool_text(i.destructive_command_generated)),
    );
    put(&mut list, &json_member("rationale", &json_quote(&i.rationale)));
    list
}

/// The items as JSON.
pub open spec fn items_json(items: Seq<DriftCleanupRequestItemView>) -> Seq<char> {
    json_array_spec(
        items.map_values(|i: DriftCleanupRequestItemView| json_object_spec(item_members(i))),
    )
}

/// The items as JSON.
pub fn write_items_json(items: &Vec<DriftCleanupRequestItem>) -> (r: String)
    ensures
        r@ == items_json(items.deep_view()),
{
    json_array(
        &map_each(
            items,
            |i: &DriftCleanupRequestItem| -> (r: String)
                ensures
                    r.deep_view() == json_object_spec(item_members(i.deep_view()))
                { json_object(&list_item_members(i)) },
            Ghost(|i: DriftCleanupRequestItemView| json_object_spec(item_members(i))),
        ),
    )
}

/// A request as members of a JSON object.
pub open spec fn document_members(d: DriftCleanupRequestDocumentView) -> Seq<Seq<char>> {
    Seq::<Seq<char>>::empty().push(
        json_member_spec("schema_version"@, json_quoted(d.schema_version)),
    ).push(
        json_member_spec("generated_at"@, json_optional_spec(d.generated_at)),
    ).push(
        json_member_spec("source_active_findings"@, decimal(d.source_active_findings)),
    ).push(
        json_member_spec("source_candidates"@, decimal(d.source_candidates)),
    ).push(
        json_member_spec("items"@, items_json(d.items)),
    )
}

/// A request as members of a JSON object.
pub fn list_document_members(d: &DriftCleanupRequestDocument) -> (r: Vec<String>)
    ensures
        r.deep_view() == document_members(d.deep_view()),
{
    let mut list: Vec<String> = Vec::new();
    proof {
        assert(list.deep_view() =~= Seq::<Seq<char>>::empty());
    }
    put(&mut list, &json_member("schema_version", &json_quote(&d.schema_version)));
    put(&mut list, &json_member("generated_at", &json_optional(as_text(&d.generated_at))));
    put(
        &mut list,
        &json_member("source_active_findings", &count_text(d.source_active_findings)),
    );
    put(&mut list, &json_member("source_candidates", &count_text(d.source_candidates)));
    put(&mut list, &json_member("items", &write_items_json(&d.items)));
    list
}

/// The digest of a request: SHA-256 of its JSON, in hexadecimal.
pub open spec fn request_sha256(document: DriftCleanupRequestDocumentView) -> Seq<char> {
    hex_of(sha256(vstd::utf8::encode_utf8(json_object_spec(document_members(document)))))
}

/// The digest of a request: SHA-256 of its JSON, in hexadecimal.
pub fn cleanup_request_sha256(document: &DriftCleanupRequestDocument) -> (r: String)
    ensures
        r@ == request_sha256(document.deep_view()),
{
    let text = json_object(&list_document_members(document));
    let digest = sha256_digest(text.as_str().as_bytes());
    hex_encode(digest.as_slice())
}

// ---------------------------------------------------------------------------
// Checking again before the handover
// ---------------------------------------------------------------------------

/// The token that approves a plan.
pub open spec fn approval_token(plan: DriftCleanupExecutionPlanReportView) -> Seq<char> {
    "drift-cleanup:"@ + decimal(plan.total_items) + ":"@ + decimal(plan.ready) + ":"@ + decimal(
        plan.skipped,
    )
}

/// The token that approves a plan.
pub fn expected_drift_cleanup_approval_token(plan: &DriftCleanupExecutionPlanReport) -> (r: String)
    ensures
        r@ == approval_token(plan.deep_view()),
{
    cat6(
        "drift-cleanup:",
        &count_text(plan.total_items),
        ":",
        &count_text(plan.ready),
        ":",
        &count_text(plan.skipped),
    )
}

/// The ids of the items that are ready.
pub open spec fn ready_ids(entries: Seq<DriftCleanupExecutionPlanEntryView>) -> Seq<Seq<char>> {
    sorted_set(
        chosen(
            entries,
            |e: DriftCleanupExecutionPlanEntryView|
                if is_ready(e) {
                    Some(e.request_id)
                } else {
                    None
                },
        ),
    )
}

/// The ids of the items that are ready.
pub fn list_ready_ids(entries: &Vec<DriftCleanupExecutionPlanEntry>) -> (r: Vec<String>)
    ensures
        r.deep_view() == ready_ids(entries.deep_view()),
{
    unique_sorted(
        choose_each(
            entries,
            |e: &DriftCleanupExecutionPlanEntry| -> (r: Option<String>)
                ensures
                    r.deep_view() == (if is_ready(e.deep_view()) {
                        Some(e.deep_view().request_id)
                    } else {
                        None
                    })
                {
                    if same(&e.status, "ready_for_human_execution_request") {
                        Some(e.request_id.clone())
                    } else {
                        None
                    }
                },
            Ghost(
                |e: DriftCleanupExecutionPlanEntryView|
                    if is_ready(e) {
                        Some(e.request_id)
                    } else {
                        None
                    },
            ),
        ),
    )
}

/// What the server shows of a ready item.
#[derive(Debug, Clone, Copy, PartialEq, Eq, Structural)]
pub enum Recheck {
    /// The item is not ready.
    Skipped,
    /// The resource is gone.
    Missing,
    /// The resource is there, but the item names another one.
    Mismatch,
    /// The resource is the one that the item names.
    Match,
}

/// What the server shows of an item.
pub open spec fn recheck(
    candidates: Seq<DriftCleanupCandidateView>,
    ids: Seq<Seq<char>>,
    item: DriftCleanupRequestItemView,
) -> Recheck {
    if !ids.contains(item.request_id) {
        Recheck::Skipped
    } else {
        match candidate_for(candidates, item_key(item)) {
            None => Recheck::Missing,
            Some(candidate) => if item.exact_resource_id == Some(candidate.target) {
                Recheck::Match
            } else {
                Recheck::Mismatch
            },
        }
    }
}

/// What the server shows of an item.
pub fn recheck_item(
    candidates: &Vec<DriftCleanupCandidate>,
    ids: &Vec<String>,
    item: &DriftCleanupRequestItem,
) -> (r: Recheck)
    ensures
        r == recheck(candidates.deep_view(), ids.deep_view(), item.deep_view()),
{
    if !includes(ids, &item.request_id) {
        Recheck::Skipped
    } else {
        match find_candidate(candidates, &item.kind, &item.target) {
            None => Recheck::Missing,
            Some(candidate) => if is_text(as_text(&item.exact_resource_id), &candidate.target) {
                Recheck::Match
            } else {
                Recheck::Mismatch
            },
        }
    }
}

/// What speaks against handing an item over.
pub open spec fn recheck_blockers(
    candidates: Seq<DriftCleanupCandidateView>,
    ids: Seq<Seq<char>>,
    item: DriftCleanupRequestItemView,
) -> Seq<Seq<char>> {
    match recheck(candidates, ids, item) {
        Recheck::Missing => Seq::<Seq<char>>::empty().push(
            "ready item "@ + item.request_id + " target "@ + item.target
                + " is not present in current observed cleanup candidates"@,
        ),
        Recheck::Mismatch => Seq::<Seq<char>>::empty().push(
            "ready item "@ + item.request_id
                + " exact_resource_id does not match current target "@ + item.target,
        ),
        _ => Seq::empty(),
    }
}

/// What speaks against handing an item over.
pub fn list_recheck_blockers(
    candidates: &Vec<DriftCleanupCandidate>,
    ids: &Vec<String>,
    item: &DriftCleanupRequestItem,
) -> (r: Vec<String>)
    ensures
        r.deep_view() == recheck_blockers(
            candidates.deep_view(),
            ids.deep_view(),
            item.deep_view(),
        ),
{
    let mut list: Vec<String> = Vec::new();
    proof {
        assert(list.deep_view() =~= Seq::<Seq<char>>::empty());
    }
    match recheck_item(candidates, ids, item) {
        Recheck::Missing => {
            put(
                &mut list,
                &cat5(
                    "ready item ",
                    &item.request_id,
                    " target ",
                    &item.target,
                    " is not present in current observed cleanup candidates",
                ),
            );
        },
        Recheck::Mismatch => {
            put(
                &mut list,
                &cat4(
                    "ready item ",
                    &item.request_id,
                    " exact_resource_id does not match current target ",
                    &item.target,
                ),
            );
        },
        _ => {},
    }
    list
}

/// How many items the server shows this way.
pub open spec fn rechecked(
    candidates: Seq<DriftCleanupCandidateView>,
    ids: Seq<Seq<char>>,
    items: Seq<DriftCleanupRequestItemView>,
    outcome: Recheck,
) -> nat {
    tally(items, |i: DriftCleanupRequestItemView| recheck(candidates, ids, i) == outcome)
}

/// How many items the server shows this way.
pub fn count_rechecked(
    candidates: &Vec<DriftCleanupCandidate>,
    ids: &Vec<String>,
    items: &Vec<DriftCleanupRequestItem>,
    outcome: Recheck,
) -> (r: usize)
    ensures
        r == rechecked(
            candidates.deep_view(),
            ids.deep_view(),
            items.deep_view(),
            outcome,
        ),
{
    count_where(
        items,
        |i: &DriftCleanupRequestItem| -> (b: bool)
            ensures
                b == (recheck(candidates.deep_view(), ids.deep_view(), i.deep_view()) == outcome)
            { recheck_item(candidates, ids, i) == outcome },
        Ghost(
            |i: DriftCleanupRequestItemView|
                recheck(candidates.deep_view(), ids.deep_view(), i) == outcome,
        ),
    )
}

proof fn lemma_rechecked_bound(
    candidates: Seq<DriftCleanupCandidateView>,
    ids: Seq<Seq<char>>,
    items: Seq<DriftCleanupRequestItemView>,
)
    ensures
        rechecked(candidates, ids, items, Recheck::Match) + rechecked(
            candidates,
            ids,
            items,
            Recheck::Mismatch,
        ) <= items.len(),
    decreases items.len(),
{
    if items.len() > 0 {
        lemma_rechecked_bound(candidates, ids, items.drop_last());
    }
}

/// Whether the ready items are still what the server shows.
pub open spec fn pre_execution_check(
    build: DriftCleanupBuildView,
    request: LoadedRequestView,
    plan: DriftCleanupExecutionPlanReportView,
) -> DriftCleanupPreExecutionCheckView {
    let ids = ready_ids(plan.entries);
    match request.document {
        None => DriftCleanupPreExecutionCheckView {
            ok: false,
            read_only: true,
            current_candidates: distinct_candidates(build.candidates),
            ready_items: ids.len(),
            matched_current: 0,
            missing_current: ids.len(),
            exact_mismatch: 0,
            blockers: Seq::<Seq<char>>::empty().push(
                "failed to read cleanup request for revalidation: "@ + request.error,
            ),
        },
        Some(document) => {
            let mismatch = rechecked(build.candidates, ids, document.items, Recheck::Mismatch);
            let missing = rechecked(build.candidates, ids, document.items, Recheck::Missing);
            let blockers = sorted_set(
                build.limitations + gathered(
                    document.items,
                    |i: DriftCleanupRequestItemView| recheck_blockers(build.candidates, ids, i),
                ),
            );
            DriftCleanupPreExecutionCheckView {
                ok: blockers.len() == 0 && missing == 0 && mismatch == 0,
                read_only: true,
                current_candidates: distinct_candidates(build.candidates),
                ready_items: ids.len(),
                matched_current: rechecked(build.candidates, ids, document.items, Recheck::Match)
                    + mismatch,
                missing_current: missing,
                exact_mismatch: mismatch,
                blockers,
            }
        },
    }
}

/// Whether the ready items are still what the server shows.
pub fn drift_cleanup_pre_execution_check(
    build: &DriftCleanupBuild,
    request: &LoadedRequest,
    plan: &DriftCleanupExecutionPlanReport,
) -> (r: DriftCleanupPreExecutionCheck)
    ensures
        r.deep_view() == pre_execution_check(
            build.deep_view(),
            request.deep_view(),
            plan.deep_view(),
        ),
{
    let ids = list_ready_ids(&plan.entries);
    proof {
        assert(ids.deep_view().len() == ids@.len());
    }
    let document = match &request.document {
        Some(document) => document,
        None => {
            let mut blockers: Vec<String> = Vec::new();
            proof {
                assert(blockers.deep_view() =~= Seq::<Seq<char>>::empty());
            }
            put(
                &mut blockers,
                &cat2("failed to read cleanup request for revalidation: ", &request.error),
            );
            return DriftCleanupPreExecutionCheck {
                ok: false,
                read_only: true,
                current_candidates: count_distinct_candidates(&build.candidates),
                ready_items: ids.len(),
                matched_current: 0,
                missing_current: ids.len(),
                exact_mismatch: 0,
                blockers,
            };
        },
    };
    let items = &document.items;
    let candidates = &build.candidates;
    let matched = count_rechecked(candidates, &ids, items, Recheck::Match);
    let mismatch = count_rechecked(candidates, &ids, items, Recheck::Mismatch);
    let missing = count_rechecked(candidates, &ids, items, Recheck::Missing);
    let mut all = build.limitations.clone();
    let more = gather_each(
        items,
        |i: &DriftCleanupRequestItem| -> (r: Vec<String>)
            ensures
                r.deep_view() == recheck_blockers(
                    candidates.deep_view(),
                    ids.deep_view(),
                    i.deep_view(),
                )
            { list_recheck_blockers(candidates, &ids, i) },
        Ghost(
            |i: DriftCleanupRequestItemView|
                recheck_blockers(candidates.deep_view(), ids.deep_view(), i),
        ),
    );
    extend(&mut all, &more);
    let blockers = unique_sorted(all);
    proof {
        lemma_rechecked_bound(candidates.deep_view(), ids.deep_view(), items.deep_view());
        assert(blockers.deep_view().len() == blockers@.len());
        assert(items.deep_view().len() == items.len() <= usize::MAX);
    }
    DriftCleanupPreExecutionCheck {
        ok: blockers.len() == 0 && missing == 0 && mismatch == 0,
        read_only: true,
        current_candidates: count_distinct_candidates(candidates),
        ready_items: ids.len(),
        matched_current: matched + mismatch,
        missing_current: missing,
        exact_mismatch: mismatch,
        blockers,
    }
}

// ---------------------------------------------------------------------------
// The handover
// ---------------------------------------------------------------------------

/// The scope of the approval that a handover needs.
pub open spec fn execution_scope() -> Seq<char> {
    "drift_cleanup_execution_request"@
}

/// The scope of the approval that a handover needs.
pub fn drift_cleanup_execution_scope() -> (r: &'static str)
    ensures
        r@ == execution_scope(),
{
    "drift_cleanup_execution_request"
}

/// Everything that keeps a cleanup from being handed over.
pub open spec fn handoff_limitations(
    options: DriftCleanupExecuteOptionsView,
    plan: DriftCleanupExecutionPlanReportView,
    check: DriftCleanupPreExecutionCheckView,
    readable: bool,
) -> Seq<Seq<char>> {
    plan.limitations + noted(
        !readable,
        "cleanup request could not be hashed before handoff"@,
    ) + check.blockers + option_remark("reason"@, options.reason) + noted(
        plan.status != "ready_for_human_execution_request"@,
        "cleanup execute requires ready execution plan; current status is "@ + plan.status,
    ) + noted(
        options.execute && blank(options.reason),
        "reason is required when executing cleanup handoff"@,
    ) + noted(
        options.execute && !options.approval_satisfied,
        "cleanup execute requires an approved approval record with scope "@ + execution_scope(),
    ) + noted(
        options.execute && options.approval_token is Some && options.approval_token != Some(
            approval_token(plan),
        ),
        "invalid cleanup approval token; rerun cleanup-request execute without --execute to inspect expected token"@,
    ) + noted(
        options.execute && options.approval_token is None,
        "approval_token is required with --execute"@,
    )
}

/// Everything that keeps a cleanup from being handed over.
pub fn list_handoff_limitations(
    options: &DriftCleanupExecuteOptions<'_>,
    plan: &DriftCleanupExecutionPlanReport,
    check: &DriftCleanupPreExecutionCheck,
    readable: bool,
) -> (r: Vec<String>)
    ensures
        r.deep_view() == handoff_limitations(
            options.deep_view(),
            plan.deep_view(),
            check.deep_view(),
            readable,
        ),
{
    let token = expected_drift_cleanup_approval_token(plan);
    let mut l = plan.limitations.clone();
    note(&mut l, !readable, "cleanup request could not be hashed before handoff");
    extend(&mut l, &check.blockers);
    validate_optional_adopt_text("reason", options.reason, &mut l);
    note(
        &mut l,
        !same(&plan.status, "ready_for_human_execution_request"),
        &cat2(
            "cleanup execute requires ready execution plan; current status is ",
            &plan.status,
        ),
    );
    note(
        &mut l,
        options.execute && is_blank(options.reason),
        "reason is required when executing cleanup handoff",
    );
    note(
        &mut l,
        options.execute && !options.approval_satisfied,
        &cat2(
            "cleanup execute requires an approved approval record with scope ",
            drift_cleanup_execution_scope(),
        ),
    );
    note(
        &mut l,
        options.execute && options.approval_token.is_some() && !is_text(
            options.approval_token,
            &token,
        ),
        "invalid cleanup approval token; rerun cleanup-request execute without --execute to inspect expected token",
    );
    note(
        &mut l,
        options.execute && options.approval_token.is_none(),
        "approval_token is required with --execute",
    );
    l
}

/// The handover of a cleanup. It is to be recorded if and only if its status is
/// `manual_handoff_recorded`.
pub open spec fn execute_handoff(
    options: DriftCleanupExecuteOptionsView,
    build: DriftCleanupBuildView,
    request: LoadedRequestView,
) -> DriftCleanupExecuteReportView {
    let plan = execution_plan(request);
    let check = pre_execution_check(build, request, plan);
    let limitations = handoff_limitations(options, plan, check, request.document is Some);
    let ok = limitations.len() == 0;
    DriftCleanupExecuteReportView {
        ok,
        execute: options.execute,
        status: if !ok {
            "blocked"@
        } else if options.execute {
            "manual_handoff_recorded"@
        } else {
            "ready_for_approval"@
        },
        decision: if options.execute {
            "allow_manual_handoff"@
        } else {
            "require_approval"@
        },
        request_file: request.path,
        request_sha256: match request.document {
            Some(document) => Some(request_sha256(document)),
            None => None,
        },
        ready: plan.ready,
        total_items: plan.total_items,
        approval_token: if options.execute {
            None
        } else {
            Some(approval_token(plan))
        },
        expected_approval_token: Some(approval_token(plan)),
        manual_execution_only: true,
        pre_execution_check: check,
        limitations: sorted_set(limitations),
        journal_path: None,
        journal_written: false,
    }
}

/// Hands a cleanup over, from what the server shows.
pub fn execute_handoff_against(
    options: &DriftCleanupExecuteOptions<'_>,
    build: &DriftCleanupBuild,
    request: &LoadedRequest,
) -> (r: DriftCleanupExecuteReport)
    ensures
        r.deep_view() == execute_handoff(
            options.deep_view(),
            build.deep_view(),
            request.deep_view(),
        ),
{
    let sha256 = match &request.document {
        Some(document) => Some(cleanup_request_sha256(document)),
        None => None,
    };
    let plan = drift_cleanup_execution_plan(request);
    let check = drift_cleanup_pre_execution_check(build, request, &plan);
    let limitations = list_handoff_limitations(
        options,
        &plan,
        &check,
        request.document.is_some(),
    );
    proof {
        assert(limitations.deep_view().len() == limitations@.len());
    }
    let ok = limitations.len() == 0;
    let status = if !ok {
        "blocked"
    } else if options.execute {
        "manual_handoff_recorded"
    } else {
        "ready_for_approval"
    };
    let decision = if options.execute {
        "allow_manual_handoff"
    } else {
        "require_approval"
    };
    DriftCleanupExecuteReport {
        ok,
        execute: options.execute,
        status: status.to_string(),
        decision: decision.to_string(),
        request_file: request.path.clone(),
        request_sha256: sha256,
        ready: plan.ready,
        total_items: plan.total_items,
        approval_token: if options.execute {
            None
        } else {
            Some(expected_drift_cleanup_approval_token(&plan))
        },
        expected_approval_token: Some(expected_drift_cleanup_approval_token(&plan)),
        manual_execution_only: true,
        pre_execution_check: check,
        limitations: unique_sorted(limitations),
        journal_path: None,
        journal_written: false,
    }
}

/// Hands the cleanup of a loaded request over to an operator.
pub fn drift_cleanup_execute_handoff(
    options: &DriftCleanupExecuteOptions<'_>,
    observation: &Observation,
    request: &LoadedRequest,
) -> (r: DriftCleanupExecuteReport)
    ensures
        r.deep_view() == execute_handoff(
            options.deep_view(),
            cleanup_build(options.deep_view().registry, observation.deep_view()),
            request.deep_view(),
        ),
{
    let build = build_drift_cleanup(options.registry, observation);
    execute_handoff_against(options, &build, request)
}

// ---------------------------------------------------------------------------
// The outcome
// ---------------------------------------------------------------------------

/// Whether an outcome can be recorded.
pub open spec fn known_outcome(outcome: Seq<char>) -> bool {
    outcome == "cleaned"@ || outcome == "not_cleaned"@ || outcome == "adopted"@ || outcome
        == "ignored"@ || outcome == "failed"@
}

/// Everything that is wrong with the outcome of a cleanup.
#[verifier::opaque]
pub open spec fn finalize_limitations(
    options: DriftCleanupFinalizeOptionsView,
    request: LoadedRequestView,
    item: Option<DriftCleanupRequestItemView>,
) -> Seq<Seq<char>> {
    Seq::<Seq<char>>::empty() + option_remark("request_id"@, Some(options.request_id))
        + option_remark("reason"@, options.reason) + option_remarks("evidence"@, options.evidence)
        + noted(
        !known_outcome(options.outcome),
        "outcome must be cleaned, not_cleaned, adopted, ignored, or failed"@,
    ) + noted(
        options.execute && blank(options.reason),
        "reason is required when executing cleanup finalize"@,
    ) + noted(request.document is None, request.error) + noted(
        item is None,
        "request_id not found in cleanup request: "@ + options.request_id,
    ) + noted(
        options.outcome == "cleaned"@ && options.evidence.len() == 0,
        "evidence is required for cleaned outcome"@,
    ) + noted(
        options.outcome == "cleaned"@ && item is Some && (item->0.data_risk is Some
            || item->0.public_bind == Some(true)) && options.evidence.len() < 2,
        "high-risk cleaned outcome requires at least two evidence entries"@,
    )
}

/// Everything that is wrong with the outcome of a cleanup.
pub fn list_finalize_limitations(
    options: &DriftCleanupFinalizeOptions<'_>,
    request: &LoadedRequest,
    item: &Option<DriftCleanupRequestItem>,
) -> (r: Vec<String>)
    ensures
        r.deep_view() == finalize_limitations(
            options.deep_view(),
            request.deep_view(),
            item.deep_view(),
        ),
{
    let risky = match item {
        Some(found) => found.data_risk.is_some() || is_set(found.public_bind),
        None => false,
    };
    let cleaned = same(options.outcome, "cleaned");
    let mut l: Vec<String> = Vec::new();
    proof {
        reveal(finalize_limitations);
        assert(l.deep_view() =~= Seq::<Seq<char>>::empty());
    }
    validate_optional_adopt_text("request_id", Some(options.request_id), &mut l);
    validate_optional_adopt_text("reason", options.reason, &mut l);
    let evidence = options.evidence.as_slice();
    proof {
        assert(evidence.deep_view() =~= options.evidence.deep_view());
    }
    validate_texts("evidence", evidence, &mut l);
    note(
        &mut l,
        !cleaned && !same(options.outcome, "not_cleaned") && !same(options.outcome, "adopted")
            && !same(options.outcome, "ignored") && !same(options.outcome, "failed"),
        "outcome must be cleaned, not_cleaned, adopted, ignored, or failed",
    );
    note(
        &mut l,
        options.execute && is_blank(options.reason),
        "reason is required when executing cleanup finalize",
    );
    note(&mut l, request.document.is_none(), &request.error);
    note(
        &mut l,
        item.is_none(),
        &cat2("request_id not found in cleanup request: ", options.request_id),
    );
    note(
        &mut l,
        cleaned && options.evidence.len() == 0,
        "evidence is required for cleaned outcome",
    );
    note(
        &mut l,
        cleaned && risky && options.evidence.len() < 2,
        "high-risk cleaned outcome requires at least two evidence entries",
    );
    l
}

/// The outcome of a cleanup. It is to be recorded if and only if its status is
/// `recorded`.
pub open spec fn finalize(
    options: DriftCleanupFinalizeOptionsView,
    request: LoadedRequestView,
) -> DriftCleanupFinalizeReportView {
    let item = match request.document {
        Some(document) => item_with_id(document.items, options.request_id),
        None => None,
    };
    let limitations = finalize_limitations(options, request, item);
    let ok = limitations.len() == 0;
    DriftCleanupFinalizeReportView {
        ok,
        execute: options.execute,
        status: if !ok {
            "blocked"@
        } else if options.execute {
            "recorded"@
        } else {
            "dry_run"@
        },
        request_file: request.path,
        request_id: options.request_id,
        outcome: options.outcome,
        reason: options.reason,
        evidence: options.evidence,
        item,
        limitations,
        journal_path: None,
        journal_written: false,
    }
}

/// Records the outcome of a cleanup.
pub fn drift_cleanup_finalize(
    options: &DriftCleanupFinalizeOptions<'_>,
    request: &LoadedRequest,
) -> (r: DriftCleanupFinalizeReport)
    ensures
        r.deep_view() == finalize(options.deep_view(), request.deep_view()),
{
    let item = match &request.document {
        Some(document) => match find_item_with_id(&document.items, options.request_id) {
            Some(found) => Some(found.clone()),
            None => None,
        },
        None => None,
    };
    let l = list_finalize_limitations(options, request, &item);
    proof {
        assert(l.deep_view().len() == l@.len());
    }
    let ok = l.len() == 0;
    let status = if !ok {
        "blocked"
    } else if options.execute {
        "recorded"
    } else {
        "dry_run"
    };
    DriftCleanupFinalizeReport {
        ok,
        execute: options.execute,
        status: status.to_string(),
        request_file: request.path.clone(),
        request_id: options.request_id.to_string(),
        outcome: options.outcome.to_string(),
        reason: own_opt(options.reason),
        evidence: options.evidence.clone(),
        item,
        limitations: l,
        journal_path: None,
        journal_written: false,
    }
}

// ---------------------------------------------------------------------------
// Laws
// ---------------------------------------------------------------------------

/// A handover that goes through has a ready plan, an approval, its token, a
/// reason, and items that are still what the server shows. It is always manual.
pub proof fn law_handoff_is_approved_and_current(
    options: DriftCleanupExecuteOptionsView,
    build: DriftCleanupBuildView,
    request: LoadedRequestView,
)
    requires
        options.execute,
        execute_handoff(options, build, request).ok,
    ensures
        options.approval_satisfied,
        options.approval_token == Some(approval_token(execution_plan(request))),
        !blank(options.reason),
        execution_plan(request).status == "ready_for_human_execution_request"@,
        pre_execution_check(build, request, execution_plan(request)).blockers.len() == 0,
        execute_handoff(options, build, request).manual_execution_only,
        execute_handoff(options, build, request).request_sha256 is Some,
{
}

proof fn lemma_gathered_empty(
    candidates: Seq<DriftCleanupCandidateView>,
    ids: Seq<Seq<char>>,
    items: Seq<DriftCleanupRequestItemView>,
)
    requires
        gathered(
            items,
            |i: DriftCleanupRequestItemView| recheck_blockers(candidates, ids, i),
        ).len() == 0,
    ensures
        rechecked(candidates, ids, items, Recheck::Missing) == 0,
        rechecked(candidates, ids, items, Recheck::Mismatch) == 0,
    decreases items.len(),
{
    if items.len() > 0 {
        lemma_gathered_empty(candidates, ids, items.drop_last());
    }
}

/// A check without blockers finds every ready item on the server, and each names
/// the resource that is there.
pub proof fn law_unblocked_check_is_ok(
    build: DriftCleanupBuildView,
    request: LoadedRequestView,
    plan: DriftCleanupExecutionPlanReportView,
)
    requires
        pre_execution_check(build, request, plan).blockers.len() == 0,
    ensures
        pre_execution_check(build, request, plan).ok,
        pre_execution_check(build, request, plan).missing_current == 0,
        pre_execution_check(build, request, plan).exact_mismatch == 0,
{
    let ids = ready_ids(plan.entries);
    if let Some(document) = request.document {
        let all = build.limitations + gathered(
            document.items,
            |i: DriftCleanupRequestItemView| recheck_blockers(build.candidates, ids, i),
        );
        law_sorted_set(all);
        if all.len() > 0 {
            assert(all.contains(all[0]));
            assert(sorted_set(all).contains(all[0]));
        }
        lemma_gathered_empty(build.candidates, ids, document.items);
    }
}

/// What is ready is looked for once more: it is there exactly where a candidate has its
/// kind and target and it names that target as the exact resource.
pub proof fn law_rechecks(
    candidates: Seq<DriftCleanupCandidateView>,
    ids: Seq<Seq<char>>,
    item: DriftCleanupRequestItemView,
)
    ensures
        recheck(candidates, ids, item) == Recheck::Skipped <==> !ids.contains(item.request_id),
        recheck(candidates, ids, item) == Recheck::Missing <==> ids.contains(item.request_id)
            && !is_observed(candidates, item.kind, item.target),
        recheck(candidates, ids, item) == Recheck::Match <==> ids.contains(item.request_id)
            && is_observed(candidates, item.kind, item.target) && item.exact_resource_id == Some(
            item.target,
        ),
        recheck(candidates, ids, item) == Recheck::Mismatch <==> ids.contains(item.request_id)
            && is_observed(candidates, item.kind, item.target) && item.exact_resource_id != Some(
            item.target,
        ),
        recheck_blockers(candidates, ids, item).len() > 0 <==> recheck(candidates, ids, item)
            == Recheck::Missing || recheck(candidates, ids, item) == Recheck::Mismatch,
{
    law_lookups(candidates, Seq::empty(), item.kind, item.target);
}

/// What is ready are the items whose plan says so.
pub proof fn law_ready_ids(entries: Seq<DriftCleanupExecutionPlanEntryView>, id: Seq<char>)
    ensures
        ready_ids(entries).contains(id) <==> exists|i: int|
            0 <= i < entries.len() && (#[trigger] entries[i]).request_id == id && entries[i].status
                == "ready_for_human_execution_request"@,
{
    let f = |e: DriftCleanupExecutionPlanEntryView|
        if is_ready(e) {
            Some(e.request_id)
        } else {
            None
        };
    let s = chosen(entries, f);
    law_sorted_set(s);
    law_chosen(entries, f, id);
    if exists|i: int|
        0 <= i < entries.len() && (#[trigger] entries[i]).request_id == id && entries[i].status
            == "ready_for_human_execution_request"@ {
        let i = choose|i: int|
            0 <= i < entries.len() && (#[trigger] entries[i]).request_id == id && entries[i].status
                == "ready_for_human_execution_request"@;
        assert(f(entries[i]) == Some(id));
    }
    if s.contains(id) {
        let i = choose|i: int| 0 <= i < entries.len() && f(#[trigger] entries[i]) == Some(id);
        assert(entries[i].request_id == id);
    }
}

/// The check before a handoff is passed exactly where nothing is wrong with what was
/// observed, and every item that is ready is still there as it is named.
pub proof fn law_check_before_handoff(
    build: DriftCleanupBuildView,
    request: LoadedRequestView,
    plan: DriftCleanupExecutionPlanReportView,
)
    ensures
        pre_execution_check(build, request, plan).ok <==> {
            &&& request.document is Some
            &&& build.limitations.len() == 0
            &&& forall|i: int|
                0 <= i < request.document->0.items.len() && ready_ids(plan.entries).contains(
                    (#[trigger] request.document->0.items[i]).request_id,
                ) ==> is_observed(
                    build.candidates,
                    request.document->0.items[i].kind,
                    request.document->0.items[i].target,
                ) && request.document->0.items[i].exact_resource_id == Some(
                    request.document->0.items[i].target,
                )
        },
        pre_execution_check(build, request, plan).ok <==> pre_execution_check(
            build,
            request,
            plan,
        ).blockers.len() == 0,
{
    if request.document is Some {
        let items = request.document->0.items;
        let ids = ready_ids(plan.entries);
        let f = |i: DriftCleanupRequestItemView| recheck_blockers(build.candidates, ids, i);
        let found = gathered(items, f);
        let all = build.limitations + found;
        law_sorted_set(all);
        if all.len() > 0 {
            assert(all.contains(all[0]));
            assert(sorted_set(all).contains(all[0]));
        }
        if found.len() == 0 {
            assert forall|i: int|
                0 <= i < items.len() && ids.contains((#[trigger] items[i]).request_id) implies
                is_observed(build.candidates, items[i].kind, items[i].target)
                && items[i].exact_resource_id == Some(items[i].target) by {
                lemma_gathered_nothing(items, f, i);
                law_rechecks(build.candidates, ids, items[i]);
            }
        } else {
            let x = found[0];
            assert(found.contains(x));
            law_gathered(items, f, x);
            let i = choose|i: int| 0 <= i < items.len() && f(#[trigger] items[i]).contains(x);
            law_rechecks(build.candidates, ids, items[i]);
        }
        let p = |i: DriftCleanupRequestItemView|
            recheck(build.candidates, ids, i) == Recheck::Missing;
        let q = |i: DriftCleanupRequestItemView|
            recheck(build.candidates, ids, i) == Recheck::Mismatch;
        law_tally(items, Seq::empty(), p);
        law_tally(items, Seq::empty(), q);
        assert(rechecked(build.candidates, ids, items, Recheck::Missing) == tally(items, p));
        assert(rechecked(build.candidates, ids, items, Recheck::Mismatch) == tally(items, q));
        if tally(items, p) > 0 {
            let i = choose|i: int| 0 <= i < items.len() && p(#[trigger] items[i]);
            law_rechecks(build.candidates, ids, items[i]);
            if found.len() == 0 {
                lemma_gathered_nothing(items, f, i);
            }
        }
        if tally(items, q) > 0 {
            let i = choose|i: int| 0 <= i < items.len() && q(#[trigger] items[i]);
            law_rechecks(build.candidates, ids, items[i]);
            if found.len() == 0 {
                lemma_gathered_nothing(items, f, i);
            }
        }
    }
}

/// A handoff is recorded exactly where the plan is ready and nothing is wrong with it, the
/// check before it is passed, and, where it is to be executed, a reason is given, the
/// approval is there, and the token is that of the plan.
pub proof fn law_when_a_handoff_is_fine(
    options: DriftCleanupExecuteOptionsView,
    build: DriftCleanupBuildView,
    request: LoadedRequestView,
)
    ensures
        ({
            let plan = execution_plan(request);
            let report = execute_handoff(options, build, request);
            let token = "drift-cleanup:"@ + decimal(plan.total_items) + ":"@ + decimal(plan.ready)
                + ":"@ + decimal(plan.skipped);
            &&& report.ok <==> {
                &&& plan.limitations.len() == 0
                &&& request.document is Some
                &&& pre_execution_check(build, request, plan).ok
                &&& fits_on_a_line(options.reason)
                &&& plan.status == "ready_for_human_execution_request"@
                &&& options.execute ==> {
                    &&& options.reason is Some && options.reason->0.len() > 0
                    &&& options.approval_satisfied
                    &&& options.approval_token == Some(token)
                }
            }
            &&& report.status == "manual_handoff_recorded"@ <==> report.ok && options.execute
            &&& report.status == "ready_for_approval"@ <==> report.ok && !options.execute
            &&& report.status == "blocked"@ <==> !report.ok
            &&& report.expected_approval_token == Some(token)
            &&& report.approval_token == (if options.execute {
                None
            } else {
                Some(token)
            })
            &&& report.manual_execution_only
            &&& report.ready == plan.ready
            &&& report.total_items == plan.total_items
        }),
{
    let plan = execution_plan(request);
    law_check_before_handoff(build, request, plan);
    let check = pre_execution_check(build, request, plan);
    assert(option_remark("reason"@, options.reason).len() == 0 <==> fits_on_a_line(
        options.reason,
    ));
    reveal_strlit("manual_handoff_recorded");
    reveal_strlit("ready_for_approval");
    reveal_strlit("blocked");
    assert("manual_handoff_recorded"@.len() == 23 && "ready_for_approval"@.len() == 18
        && "blocked"@.len() == 7);
}

/// An outcome is recorded exactly where it is a known one, the item is in the request, the
/// texts can stand in it, a reason is given where it is to be executed, and there is
/// evidence of a cleanup: one piece, and two for data and for public listeners.
#[verifier::spinoff_prover]
#[verifier::rlimit(60)]
pub proof fn law_when_an_outcome_is_recorded(
    options: DriftCleanupFinalizeOptionsView,
    request: LoadedRequestView,
)
    ensures
        ({
            let report = finalize(options, request);
            let item = if request.document is Some {
                item_with_id(request.document->0.items, options.request_id)
            } else {
                None
            };
            &&& report.ok <==> {
                &&& fits_on_a_line(Some(options.request_id))
                &&& fits_on_a_line(options.reason)
                &&& option_remarks("evidence"@, options.evidence).len() == 0
                &&& options.outcome == "cleaned"@ || options.outcome == "not_cleaned"@
                    || options.outcome == "adopted"@ || options.outcome == "ignored"@
                    || options.outcome == "failed"@
                &&& options.execute ==> options.reason is Some && options.reason->0.len() > 0
                &&& item is Some
                &&& options.outcome == "cleaned"@ ==> options.evidence.len() > 0
                &&& options.outcome == "cleaned"@ && (item->0.data_risk is Some
                    || item->0.public_bind == Some(true)) ==> options.evidence.len() >= 2
            }
            &&& report.item == item
            &&& report.outcome == options.outcome
            &&& report.status == "recorded"@ <==> report.ok && options.execute
            &&& report.status == "blocked"@ <==> !report.ok
        }),
{
    reveal(finalize_limitations);
    assert(option_remark("reason"@, options.reason).len() == 0 <==> fits_on_a_line(
        options.reason,
    ));
    assert(option_remark("request_id"@, Some(options.request_id)).len() == 0 <==> fits_on_a_line(
        Some(options.request_id),
    ));
    reveal_strlit("recorded");
    reveal_strlit("dry_run");
    reveal_strlit("blocked");
    assert("recorded"@.len() == 8 && "dry_run"@[0] == 'd' && "blocked"@[0] == 'b'
        && "blocked"@.len() == 7 && "dry_run"@.len() == 7);
}

} // verus!
