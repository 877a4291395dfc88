//! Which items of a cleanup request are ready for a manual handoff.

use vstd::prelude::*;
use crate::drift::candidates::{LoadedRequest, LoadedRequestView};
use crate::drift::types::{
    DriftCleanupExecutionPlanEntry, DriftCleanupExecutionPlanEntryView,
    DriftCleanupExecutionPlanReport, DriftCleanupExecutionPlanReportView,
    DriftCleanupRequestDocumentView, DriftCleanupRequestItem, DriftCleanupRequestItemView,
};
use crate::drift::verify::{
    bad_expiry, drift_cleanup_request_verify, expiry_is_bad, is_set, request_verdict,
};
use crate::list::{
    law_either_list, law_noted, law_sorted_set, law_tally_of_images, note, noted, sorted_set,
    tally, unique_sorted,
};
use crate::outside::rfc3339_nanos;
use crate::text::{as_text, blank, ends, is_blank, is_text, same, step};

verus! {

broadcast use {vstd::seq::group_seq_axioms, vstd::string::group_string_axioms};

/// The safeguards that hold for every item.
pub open spec fn base_safeguards() -> Seq<Seq<char>> {
    seq![
        "global opsctl lock before any future execution"@,
        "exact resource match immediately before any future execution"@,
        "JSONL audit record for every future execution attempt"@,
        "no MCP cleanup execution path"@,
    ]
}

/// The safeguards that hold for every item.
pub fn list_base_safeguards() -> (r: Vec<String>)
    ensures
        r.deep_view() == base_safeguards(),
{
    vec![
        "global opsctl lock before any future execution".to_string(),
        "exact resource match immediately before any future execution".to_string(),
        "JSONL audit record for every future execution attempt".to_string(),
        "no MCP cleanup execution path".to_string(),
    ]
}

/// Whether an item is public, running or of high risk.
pub open spec fn is_risky(item: DriftCleanupRequestItemView) -> bool {
    item.public_bind == Some(true) || item.running == Some(true) || item.risk == "high"@
}

/// Whether an item is public, running or of high risk.
pub fn item_is_risky(item: &DriftCleanupRequestItem) -> (r: bool)
    ensures
        r == is_risky(item.deep_view()),
{
    is_set(item.public_bind) || is_set(item.running) || same(&item.risk, "high")
}

/// A strategy that removes the resource through its owner.
pub open spec fn removing_strategy(strategy: Option<Seq<char>>) -> bool {
    strategy == Some("service_owner_cleanup"@) || strategy == Some("compose_owner_cleanup"@)
        || strategy == Some("manual_staging_cleanup"@)
}

/// A strategy that keeps the resource.
pub open spec fn keeping_strategy(strategy: Option<Seq<char>>) -> bool {
    strategy == Some("adopt_instead"@) || strategy == Some("ignore_instead"@)
}

/// Whether an item is left out of execution planning.
pub open spec fn left_out(status: Seq<char>) -> bool {
    status == "unknown"@ || status == "rejected"@
}

/// What an item must still be given before it can be ready.
#[verifier::opaque]
pub open spec fn plan_required(item: DriftCleanupRequestItemView) -> Seq<Seq<char>> {
    Seq::empty() + noted(
        item.approval_status == "needs_cleanup"@,
        "approval_status must be changed to approved after human review"@,
    ) + noted(
        item.cleanup_strategy is None,
        "cleanup_strategy is required for execution planning"@,
    ) + noted(
        blank(item.exact_resource_id),
        "exact_resource_id is required to avoid broad cleanup"@,
    ) + noted(blank(item.owner), "owner is required"@) + noted(
        blank(item.reason),
        "reason is required"@,
    ) + noted(
        blank(item.approval_expires_at),
        "approval_expires_at is required for approved cleanup"@,
    ) + noted(
        is_risky(item) && blank(item.maintenance_window),
        "maintenance_window is required for high-risk/running/public cleanup"@,
    ) + noted(
        is_risky(item) && blank(item.rollback_plan),
        "rollback_plan is required for high-risk/running/public cleanup"@,
    ) + noted(
        item.data_risk is Some && blank(item.backup_snapshot_id),
        "backup_snapshot_id is required for data-bearing cleanup"@,
    ) + noted(
        item.data_risk is Some && blank(item.restore_drill_id),
        "restore_drill_id is required for data-bearing cleanup"@,
    )
}

/// What keeps an item from being planned at all.
#[verifier::opaque]
pub open spec fn plan_blockers(item: DriftCleanupRequestItemView) -> Seq<Seq<char>> {
    Seq::empty() + noted(
        item.destructive_command_generated,
        "cleanup request must not contain generated destructive commands"@,
    ) + noted(
        item.cleanup_strategy is Some && !removing_strategy(item.cleanup_strategy)
            && !keeping_strategy(item.cleanup_strategy),
        "cleanup_strategy must be service_owner_cleanup, compose_owner_cleanup, manual_staging_cleanup, adopt_instead, or ignore_instead"@,
    ) + noted(
        !blank(item.approval_expires_at) && bad_expiry(item.approval_expires_at),
        "approval_expires_at must be RFC3339"@,
    )
}

/// Whether an item is ready: approved, with nothing missing and no blocker. An
/// item that is unknown or rejected is skipped.
pub open spec fn plan_entry(item: DriftCleanupRequestItemView) -> DriftCleanupExecutionPlanEntryView {
    let destructive = noted(
        item.destructive_command_generated,
        "cleanup request must not contain generated destructive commands"@,
    );
    if left_out(item.approval_status) {
        DriftCleanupExecutionPlanEntryView {
            request_id: item.request_id,
            kind: item.kind,
            target: item.target,
            approval_status: item.approval_status,
            risk: item.risk,
            status: if item.destructive_command_generated {
                "blocked"@
            } else {
                "skipped"@
            },
            cleanup_strategy: item.cleanup_strategy,
            required_evidence: Seq::empty(),
            safeguards: base_safeguards(),
            blockers: Seq::empty() + destructive,
            destructive_command_generated: item.destructive_command_generated,
        }
    } else {
        DriftCleanupExecutionPlanEntryView {
            request_id: item.request_id,
            kind: item.kind,
            target: item.target,
            approval_status: item.approval_status,
            risk: item.risk,
            status: if plan_blockers(item).len() > 0 {
                "blocked"@
            } else if item.approval_status == "approved"@ && plan_required(item).len() == 0 {
                "ready_for_human_execution_request"@
            } else {
                "needs_human_approval"@
            },
            cleanup_strategy: item.cleanup_strategy,
            required_evidence: sorted_set(plan_required(item)),
            safeguards: sorted_set(
                base_safeguards() + noted(
                    keeping_strategy(item.cleanup_strategy),
                    "cleanup redirects to registry adopt/ignore workflow instead of deletion"@,
                ),
            ),
            blockers: sorted_set(plan_blockers(item)),
            destructive_command_generated: item.destructive_command_generated,
        }
    }
}

/// What an item must still be given before it can be ready.
pub fn list_plan_required(item: &DriftCleanupRequestItem) -> (r: Vec<String>)
    ensures
        r.deep_view() == plan_required(item.deep_view()),
{
    let mut required: Vec<String> = Vec::new();
    proof {
        reveal(plan_required);
        assert(required.deep_view() =~= Seq::<Seq<char>>::empty());
    }
    note(
        &mut required,
        same(&item.approval_status, "needs_cleanup"),
        "approval_status must be changed to approved after human review",
    );
    note(
        &mut required,
        item.cleanup_strategy.is_none(),
        "cleanup_strategy is required for execution planning",
    );
    note(
        &mut required,
        is_blank(as_text(&item.exact_resource_id)),
        "exact_resource_id is required to avoid broad cleanup",
    );
    note(&mut required, is_blank(as_text(&item.owner)), "owner is required");
    note(&mut required, is_blank(as_text(&item.reason)), "reason is required");
    note(
        &mut required,
        is_blank(as_text(&item.approval_expires_at)),
        "approval_expires_at is required for approved cleanup",
    );
    let risky = item_is_risky(item);
    note(
        &mut required,
        risky && is_blank(as_text(&item.maintenance_window)),
        "maintenance_window is required for high-risk/running/public cleanup",
    );
    note(
        &mut required,
        risky && is_blank(as_text(&item.rollback_plan)),
        "rollback_plan is required for high-risk/running/public cleanup",
    );
    let data = item.data_risk.is_some();
    note(
        &mut required,
        data && is_blank(as_text(&item.backup_snapshot_id)),
        "backup_snapshot_id is required for data-bearing cleanup",
    );
    note(
        &mut required,
        data && is_blank(as_text(&item.restore_drill_id)),
        "restore_drill_id is required for data-bearing cleanup",
    );
    required
}

/// What keeps an item from being planned at all.
pub fn list_plan_blockers(item: &DriftCleanupRequestItem) -> (r: Vec<String>)
    ensures
        r.deep_view() == plan_blockers(item.deep_view()),
{
    let mut blockers: Vec<String> = Vec::new();
    proof {
        reveal(plan_blockers);
        assert(blockers.deep_view() =~= Seq::<Seq<char>>::empty());
    }
    note(
        &mut blockers,
        item.destructive_command_generated,
        "cleanup request must not contain generated destructive commands",
    );
    let strategy = as_text(&item.cleanup_strategy);
    let removes = is_text(strategy, "service_owner_cleanup") || is_text(
        strategy,
        "compose_owner_cleanup",
    ) || is_text(strategy, "manual_staging_cleanup");
    let keeps = is_text(strategy, "adopt_instead") || is_text(strategy, "ignore_instead");
    note(
        &mut blockers,
        strategy.is_some() && !removes && !keeps,
        "cleanup_strategy must be service_owner_cleanup, compose_owner_cleanup, manual_staging_cleanup, adopt_instead, or ignore_instead",
    );
    let expiry = as_text(&item.approval_expires_at);
    note(
        &mut blockers,
        !is_blank(expiry) && expiry_is_bad(expiry),
        "approval_expires_at must be RFC3339",
    );
    blockers
}

/// Whether an item is ready, and what it lacks.
pub fn cleanup_execution_plan_entry(item: &DriftCleanupRequestItem) -> (r:
    DriftCleanupExecutionPlanEntry)
    ensures
        r.deep_view() == plan_entry(item.deep_view()),
{
    let mut safeguards = list_base_safeguards();
    if same(&item.approval_status, "unknown") || same(&item.approval_status, "rejected") {
        let mut blockers: Vec<String> = Vec::new();
        proof {
            assert(blockers.deep_view() =~= Seq::<Seq<char>>::empty());
        }
        note(
            &mut blockers,
            item.destructive_command_generated,
            "cleanup request must not contain generated destructive commands",
        );
        return DriftCleanupExecutionPlanEntry {
            request_id: item.request_id.clone(),
            kind: item.kind.clone(),
            target: item.target.clone(),
            approval_status: item.approval_status.clone(),
            risk: item.risk.clone(),
            status: (if item.destructive_command_generated {
                "blocked"
            } else {
                "skipped"
            }).to_string(),
            cleanup_strategy: item.cleanup_strategy.clone(),
            required_evidence: Vec::new(),
            safeguards,
            blockers,
            destructive_command_generated: item.destructive_command_generated,
        };
    }
    let required = list_plan_required(item);
    let blockers = list_plan_blockers(item);
    let strategy = as_text(&item.cleanup_strategy);
    note(
        &mut safeguards,
        is_text(strategy, "adopt_instead") || is_text(strategy, "ignore_instead"),
        "cleanup redirects to registry adopt/ignore workflow instead of deletion",
    );
    let status = if blockers.len() > 0 {
        "blocked"
    } else if same(&item.approval_status, "approved") && required.len() == 0 {
        "ready_for_human_execution_request"
    } else {
        "needs_human_approval"
    };
    DriftCleanupExecutionPlanEntry {
        request_id: item.request_id.clone(),
        kind: item.kind.clone(),
        target: item.target.clone(),
        approval_status: item.approval_status.clone(),
        risk: item.risk.clone(),
        status: status.to_string(),
        cleanup_strategy: item.cleanup_strategy.clone(),
        required_evidence: unique_sorted(required),
        safeguards: unique_sorted(safeguards),
        blockers: unique_sorted(blockers),
        destructive_command_generated: item.destructive_command_generated,
    }
}

/// An item is ready only if an operator approved it, its owner, reason, strategy
/// and exact resource are recorded, and its data has a backup and a restore
/// drill on record.
pub proof fn law_ready_items_are_approved_and_evidenced(item: DriftCleanupRequestItemView)
    requires
        plan_entry(item).status == "ready_for_human_execution_request"@,
    ensures
        item.approval_status == "approved"@,
        !item.destructive_command_generated,
        !blank(item.owner),
        !blank(item.reason),
        !blank(item.exact_resource_id),
        removing_strategy(item.cleanup_strategy) || keeping_strategy(item.cleanup_strategy),
        !blank(item.approval_expires_at),
        rfc3339_nanos(item.approval_expires_at->0) is Some,
        is_risky(item) ==> !blank(item.maintenance_window) && !blank(item.rollback_plan),
        item.data_risk is Some ==> !blank(item.backup_snapshot_id) && !blank(
            item.restore_drill_id,
        ),
{
    law_what_becomes_of_an_item(item);
}

// ---------------------------------------------------------------------------
// The execution plan of a request
// ---------------------------------------------------------------------------

/// The entries of the items.
pub open spec fn plan_entries(items: Seq<DriftCleanupRequestItemView>) -> Seq<
    DriftCleanupExecutionPlanEntryView,
> {
    items.map_values(|i: DriftCleanupRequestItemView| plan_entry(i))
}

/// The entries of the items.
pub fn list_plan_entries(items: &Vec<DriftCleanupRequestItem>) -> (r: Vec<
    DriftCleanupExecutionPlanEntry,
>)
    ensures
        r.deep_view() == plan_entries(items.deep_view()),
{
    let mut out: Vec<DriftCleanupExecutionPlanEntry> = Vec::new();
    let mut i: usize = 0;
    while i < items.len()
        invariant
            i <= items@.len(),
            out@.len() == i,
            forall|j: int|
                0 <= j < i ==> (#[trigger] out@[j]).deep_view() == plan_entry(
                    items.deep_view()[j],
                ),
        decreases items@.len() - i,
    {
        out.push(cleanup_execution_plan_entry(&items[i]));
        i = i + 1;
    }
    proof {
        assert(out.deep_view() =~= plan_entries(items.deep_view()));
    }
    out
}

/// How many entries have this status.
pub open spec fn entries_with_status(
    entries: Seq<DriftCleanupExecutionPlanEntryView>,
    status: Seq<char>,
) -> nat {
    tally(entries, |e: DriftCleanupExecutionPlanEntryView| e.status == status)
}

/// How many entries have this approval status.
pub open spec fn entries_with_approval(
    entries: Seq<DriftCleanupExecutionPlanEntryView>,
    status: Seq<char>,
) -> nat {
    tally(entries, |e: DriftCleanupExecutionPlanEntryView| e.approval_status == status)
}

/// Counts the entries with this status.
pub fn count_entry_status(entries: &Vec<DriftCleanupExecutionPlanEntry>, status: &str) -> (r: usize)
    ensures
        r == entries_with_status(entries.deep_view(), status@),
{
    let ghost all = entries.deep_view();
    let mut n: usize = 0;
    let mut i: usize = 0;
    proof {
        ends(all);
    }
    while i < entries.len()
        invariant
            i <= entries@.len(),
            n <= i,
            all == entries.deep_view(),
            n == entries_with_status(all.take(i as int), status@),
        decreases entries@.len() - i,
    {
        proof {
            step(all, i as int);
        }
        if same(&entries[i].status, status) {
            n = n + 1;
        }
        i = i + 1;
    }
    proof {
        ends(all);
    }
    n
}

/// Counts the entries with this approval status.
pub fn count_entry_approval(entries: &Vec<DriftCleanupExecutionPlanEntry>, status: &str) -> (r:
    usize)
    ensures
        r == entries_with_approval(entries.deep_view(), status@),
{
    let ghost all = entries.deep_view();
    let mut n: usize = 0;
    let mut i: usize = 0;
    proof {
        ends(all);
    }
    while i < entries.len()
        invariant
            i <= entries@.len(),
            n <= i,
            all == entries.deep_view(),
            n == entries_with_approval(all.take(i as int), status@),
        decreases entries@.len() - i,
    {
        proof {
            step(all, i as int);
        }
        if same(&entries[i].approval_status, status) {
            n = n + 1;
        }
        i = i + 1;
    }
    proof {
        ends(all);
    }
    n
}

/// What is wrong with a request as far as planning is concerned.
pub open spec fn plan_limitations(
    path: Seq<char>,
    document: DriftCleanupRequestDocumentView,
) -> Seq<Seq<char>> {
    let verdict = request_verdict(path, document);
    verdict.limitations + noted(!verdict.ok, "cleanup request verification is blocked"@)
}

/// The status of a plan with these counts.
pub open spec fn plan_status(
    limited: bool,
    blocked: nat,
    ready: nat,
    needs_approval: nat,
) -> Seq<char> {
    if blocked > 0 || limited {
        "blocked"@
    } else if ready > 0 {
        "ready_for_human_execution_request"@
    } else if needs_approval > 0 {
        "needs_human_approval"@
    } else {
        "no_approved_cleanup"@
    }
}

/// The execution plan of a loaded request.
pub open spec fn execution_plan(request: LoadedRequestView) -> DriftCleanupExecutionPlanReportView {
    match request.document {
        None => DriftCleanupExecutionPlanReportView {
            ok: false,
            read_only: true,
            status: "blocked"@,
            request_file: request.path,
            total_items: 0,
            approved: 0,
            ready: 0,
            needs_approval: 0,
            blocked: 0,
            skipped: 0,
            entries: Seq::empty(),
            limitations: seq![request.error],
        },
        Some(document) => {
            let entries = plan_entries(document.items);
            let limitations = plan_limitations(request.path, document);
            let ready = entries_with_status(entries, "ready_for_human_execution_request"@);
            let needs_approval = entries_with_status(entries, "needs_human_approval"@);
            let blocked = entries_with_status(entries, "blocked"@);
            DriftCleanupExecutionPlanReportView {
                ok: blocked == 0 && limitations.len() == 0 && (ready > 0 || needs_approval == 0),
                read_only: true,
                status: plan_status(limitations.len() > 0, blocked, ready, needs_approval),
                request_file: request.path,
                total_items: entries.len(),
                approved: entries_with_approval(entries, "approved"@),
                ready,
                needs_approval,
                blocked,
                skipped: entries_with_status(entries, "skipped"@),
                entries,
                limitations: sorted_set(limitations),
            }
        },
    }
}

/// The execution plan of a loaded request.
pub fn drift_cleanup_execution_plan(request: &LoadedRequest) -> (r: DriftCleanupExecutionPlanReport)
    ensures
        r.deep_view() == execution_plan(request.deep_view()),
{
    let verify = drift_cleanup_request_verify(request);
    let document = match &request.document {
        Some(document) => document,
        None => {
            return DriftCleanupExecutionPlanReport {
                ok: false,
                read_only: true,
                status: "blocked".to_string(),
                request_file: request.path.clone(),
                total_items: 0,
                approved: 0,
                ready: 0,
                needs_approval: 0,
                blocked: 0,
                skipped: 0,
                entries: Vec::new(),
                limitations: vec![request.error.clone()],
            };
        },
    };
    let mut limitations = verify.limitations;
    note(&mut limitations, !verify.ok, "cleanup request verification is blocked");
    let entries = list_plan_entries(&document.items);
    let ready = count_entry_status(&entries, "ready_for_human_execution_request");
    let needs_approval = count_entry_status(&entries, "needs_human_approval");
    let blocked = count_entry_status(&entries, "blocked");
    let status = if blocked > 0 || limitations.len() > 0 {
        "blocked"
    } else if ready > 0 {
        "ready_for_human_execution_request"
    } else if needs_approval > 0 {
        "needs_human_approval"
    } else {
        "no_approved_cleanup"
    };
    DriftCleanupExecutionPlanReport {
        ok: blocked == 0 && limitations.len() == 0 && (ready > 0 || needs_approval == 0),
        read_only: true,
        status: status.to_string(),
        request_file: request.path.clone(),
        total_items: entries.len(),
        approved: count_entry_approval(&entries, "approved"),
        ready,
        needs_approval,
        blocked,
        skipped: count_entry_status(&entries, "skipped"),
        entries,
        limitations: unique_sorted(limitations),
    }
}

/// The four outcomes of an item are exclusive and cover every item.
pub proof fn law_plan_counts_add_up(request: LoadedRequestView)
    ensures
        execution_plan(request).ready + execution_plan(request).needs_approval + execution_plan(
            request,
        ).blocked + execution_plan(request).skipped == execution_plan(request).total_items,
{
    if let Some(document) = request.document {
        lemma_outcomes_cover(document.items);
    }
}

proof fn lemma_outcomes_cover(items: Seq<DriftCleanupRequestItemView>)
    ensures
        entries_with_status(plan_entries(items), "ready_for_human_execution_request"@)
            + entries_with_status(plan_entries(items), "needs_human_approval"@)
            + entries_with_status(plan_entries(items), "blocked"@) + entries_with_status(
            plan_entries(items),
            "skipped"@,
        ) == items.len(),
    decreases items.len(),
{
    if items.len() > 0 {
        let e = plan_entries(items);
        assert(e.drop_last() =~= plan_entries(items.drop_last()));
        assert(e.last() == plan_entry(items.last()));
        lemma_outcomes_cover(items.drop_last());
        reveal_strlit("ready_for_human_execution_request");
        reveal_strlit("blocked");
        reveal_strlit("skipped");
        reveal_strlit("needs_human_approval");
        assert("blocked"@[0] != "skipped"@[0]);
        assert("blocked"@.len() != "ready_for_human_execution_request"@.len());
        assert("skipped"@.len() != "ready_for_human_execution_request"@.len());
        assert("needs_human_approval"@.len() != "ready_for_human_execution_request"@.len());
        assert("needs_human_approval"@.len() != "skipped"@.len());
        assert("needs_human_approval"@.len() != "blocked"@.len());
    } else {
        assert(plan_entries(items) =~= Seq::empty());
    }
}

/// A text that is there and is not empty.
pub open spec fn filled_in(text: Option<Seq<char>>) -> bool {
    text is Some && text->0.len() > 0
}

/// One of the five ways to deal with an item.
pub open spec fn known_way(way: Option<Seq<char>>) -> bool {
    ||| way == Some("service_owner_cleanup"@)
    ||| way == Some("compose_owner_cleanup"@)
    ||| way == Some("manual_staging_cleanup"@)
    ||| way == Some("adopt_instead"@)
    ||| way == Some("ignore_instead"@)
}

/// All that an approved item has to come with.
pub open spec fn fully_evidenced(item: DriftCleanupRequestItemView) -> bool {
    &&& item.cleanup_strategy is Some
    &&& filled_in(item.exact_resource_id)
    &&& filled_in(item.owner)
    &&& filled_in(item.reason)
    &&& filled_in(item.approval_expires_at)
    &&& item.public_bind == Some(true) || item.running == Some(true) || item.risk == "high"@
        ==> filled_in(item.maintenance_window) && filled_in(item.rollback_plan)
    &&& item.data_risk is Some ==> filled_in(item.backup_snapshot_id) && filled_in(
        item.restore_drill_id,
    )
}

/// What no item may have: a command that destroys something, a way to deal with it
/// that is not known, or an expiry that is no point in time.
pub open spec fn wrongly_filled_in(item: DriftCleanupRequestItemView) -> bool {
    ||| item.destructive_command_generated
    ||| item.cleanup_strategy is Some && !known_way(item.cleanup_strategy)
    ||| filled_in(item.approval_expires_at) && rfc3339_nanos(item.approval_expires_at->0) is None
}

proof fn lemma_plan_words()
    ensures
        "approved"@ != "unknown"@ && "approved"@ != "rejected"@ && "needs_cleanup"@ != "approved"@,
        "blocked"@ != "skipped"@ && "blocked"@ != "ready_for_human_execution_request"@,
        "blocked"@ != "needs_human_approval"@ && "skipped"@ != "needs_human_approval"@,
        "skipped"@ != "ready_for_human_execution_request"@,
        "needs_human_approval"@ != "ready_for_human_execution_request"@,
{
    reveal_strlit("approved");
    reveal_strlit("unknown");
    reveal_strlit("rejected");
    reveal_strlit("needs_cleanup");
    reveal_strlit("blocked");
    reveal_strlit("skipped");
    reveal_strlit("needs_human_approval");
    reveal_strlit("ready_for_human_execution_request");
    assert("approved"@[0] != "rejected"@[0]);
    assert("approved"@.len() != "unknown"@.len());
    assert("approved"@.len() != "needs_cleanup"@.len());
    assert("blocked"@[0] != "skipped"@[0]);
    assert("blocked"@.len() != "needs_human_approval"@.len());
    assert("blocked"@.len() != "ready_for_human_execution_request"@.len());
    assert("skipped"@.len() != "needs_human_approval"@.len());
    assert("skipped"@.len() != "ready_for_human_execution_request"@.len());
    assert("needs_human_approval"@.len() != "ready_for_human_execution_request"@.len());
}

/// An item is ready exactly where it is approved, comes with all that is asked of it,
/// and has nothing that it may not have. One that is unknown or rejected is skipped.
/// What is blocked has something that it may not have. All others wait for approval.
pub proof fn law_what_becomes_of_an_item(item: DriftCleanupRequestItemView)
    ensures
        plan_entry(item).status == "ready_for_human_execution_request"@ <==> {
            &&& item.approval_status == "approved"@
            &&& fully_evidenced(item)
            &&& !wrongly_filled_in(item)
        },
        plan_entry(item).status == "skipped"@ <==> {
            &&& item.approval_status == "unknown"@ || item.approval_status == "rejected"@
            &&& !item.destructive_command_generated
        },
        plan_entry(item).status == "blocked"@ <==> {
            ||| item.destructive_command_generated
            ||| {
                &&& item.approval_status != "unknown"@
                &&& item.approval_status != "rejected"@
                &&& wrongly_filled_in(item)
            }
        },
        plan_entry(item).status == "needs_human_approval"@ <==> {
            &&& item.approval_status != "unknown"@
            &&& item.approval_status != "rejected"@
            &&& !wrongly_filled_in(item)
            &&& !(item.approval_status == "approved"@ && fully_evidenced(item))
        },
        plan_entry(item).request_id == item.request_id,
        plan_entry(item).kind == item.kind,
        plan_entry(item).target == item.target,
        plan_entry(item).approval_status == item.approval_status,
        plan_entry(item).risk == item.risk,
        plan_entry(item).cleanup_strategy == item.cleanup_strategy,
        plan_entry(item).destructive_command_generated == item.destructive_command_generated,
{
    reveal(plan_required);
    reveal(plan_blockers);
    lemma_plan_words();
}

/// What is still asked of an item is named, one text for each thing that is missing,
/// and nothing else is; so are the things that it may not have.
#[verifier::spinoff_prover]
#[verifier::rlimit(60)]
pub proof fn law_what_is_missing_is_named(item: DriftCleanupRequestItemView, x: Seq<char>)
    requires
        item.approval_status != "unknown"@,
        item.approval_status != "rejected"@,
    ensures
        plan_entry(item).required_evidence.contains(x) <==> {
            let risky = item.public_bind == Some(true) || item.running == Some(true) || item.risk
                == "high"@;
            ||| item.approval_status == "needs_cleanup"@ && x
                == "approval_status must be changed to approved after human review"@
            ||| item.cleanup_strategy is None && x
                == "cleanup_strategy is required for execution planning"@
            ||| !filled_in(item.exact_resource_id) && x
                == "exact_resource_id is required to avoid broad cleanup"@
            ||| !filled_in(item.owner) && x == "owner is required"@
            ||| !filled_in(item.reason) && x == "reason is required"@
            ||| !filled_in(item.approval_expires_at) && x
                == "approval_expires_at is required for approved cleanup"@
            ||| risky && !filled_in(item.maintenance_window) && x
                == "maintenance_window is required for high-risk/running/public cleanup"@
            ||| risky && !filled_in(item.rollback_plan) && x
                == "rollback_plan is required for high-risk/running/public cleanup"@
            ||| item.data_risk is Some && !filled_in(item.backup_snapshot_id) && x
                == "backup_snapshot_id is required for data-bearing cleanup"@
            ||| item.data_risk is Some && !filled_in(item.restore_drill_id) && x
                == "restore_drill_id is required for data-bearing cleanup"@
        },
        plan_entry(item).blockers.contains(x) <==> {
            ||| item.destructive_command_generated && x
                == "cleanup request must not contain generated destructive commands"@
            ||| item.cleanup_strategy is Some && !known_way(item.cleanup_strategy) && x
                == "cleanup_strategy must be service_owner_cleanup, compose_owner_cleanup, manual_staging_cleanup, adopt_instead, or ignore_instead"@
            ||| filled_in(item.approval_expires_at) && rfc3339_nanos(item.approval_expires_at->0)
                is None && x == "approval_expires_at must be RFC3339"@
        },
{
    reveal(plan_required);
    reveal(plan_blockers);
    law_sorted_set(plan_required(item));
    law_sorted_set(plan_blockers(item));
    let risky = is_risky(item);
    let n = Seq::<Seq<char>>::empty();
    let a = noted(
        item.approval_status == "needs_cleanup"@,
        "approval_status must be changed to approved after human review"@,
    );
    let b = noted(
        item.cleanup_strategy is None,
        "cleanup_strategy is required for execution planning"@,
    );
    let c = noted(
        blank(item.exact_resource_id),
        "exact_resource_id is required to avoid broad cleanup"@,
    );
    let d = noted(blank(item.owner), "owner is required"@);
    let e = noted(blank(item.reason), "reason is required"@);
    let f = noted(
        blank(item.approval_expires_at),
        "approval_expires_at is required for approved cleanup"@,
    );
    let g = noted(
        risky && blank(item.maintenance_window),
        "maintenance_window is required for high-risk/running/public cleanup"@,
    );
    let h = noted(
        risky && blank(item.rollback_plan),
        "rollback_plan is required for high-risk/running/public cleanup"@,
    );
    let i = noted(
        item.data_risk is Some && blank(item.backup_snapshot_id),
        "backup_snapshot_id is required for data-bearing cleanup"@,
    );
    let j = noted(
        item.data_risk is Some && blank(item.restore_drill_id),
        "restore_drill_id is required for data-bearing cleanup"@,
    );
    law_either_list(n, a, x);
    law_either_list(n + a, b, x);
    law_either_list(n + a + b, c, x);
    law_either_list(n + a + b + c, d, x);
    law_either_list(n + a + b + c + d, e, x);
    law_either_list(n + a + b + c + d + e, f, x);
    law_either_list(n + a + b + c + d + e + f, g, x);
    law_either_list(n + a + b + c + d + e + f + g, h, x);
    law_either_list(n + a + b + c + d + e + f + g + h, i, x);
    law_either_list(n + a + b + c + d + e + f + g + h + i, j, x);
    assert(!n.contains(x));
    assert forall|b: bool, t: Seq<char>| #[trigger] noted(b, t).contains(x) <==> b && x == t by {
        law_noted(b, t, x);
    }
    let k = noted(
        item.destructive_command_generated,
        "cleanup request must not contain generated destructive commands"@,
    );
    let l = noted(
        item.cleanup_strategy is Some && !removing_strategy(item.cleanup_strategy)
            && !keeping_strategy(item.cleanup_strategy),
        "cleanup_strategy must be service_owner_cleanup, compose_owner_cleanup, manual_staging_cleanup, adopt_instead, or ignore_instead"@,
    );
    let m = noted(
        !blank(item.approval_expires_at) && bad_expiry(item.approval_expires_at),
        "approval_expires_at must be RFC3339"@,
    );
    law_either_list(n, k, x);
    law_either_list(n + k, l, x);
    law_either_list(n + k + l, m, x);
}

/// The counts of a plan are those of the items of each outcome, and the plan is fine
/// only where nothing is blocked, nothing is wrong with the request, and something is
/// ready or nothing waits for approval.
pub proof fn law_plan_counts_its_items(request: LoadedRequestView)
    requires
        request.document is Some,
    ensures
        ({
            let items = request.document->0.items;
            let plan = execution_plan(request);
            let verdict = request_verdict(request.path, request.document->0);
            &&& plan.read_only
            &&& plan.request_file == request.path
            &&& plan.total_items == items.len()
            &&& plan.entries.len() == items.len()
            &&& forall|i: int|
                0 <= i < items.len() ==> #[trigger] plan.entries[i] == plan_entry(items[i])
            &&& plan.ready == tally(
                items,
                |i: DriftCleanupRequestItemView|
                    i.approval_status == "approved"@ && fully_evidenced(i) && !wrongly_filled_in(i),
            )
            &&& plan.skipped == tally(
                items,
                |i: DriftCleanupRequestItemView|
                    (i.approval_status == "unknown"@ || i.approval_status == "rejected"@)
                        && !i.destructive_command_generated,
            )
            &&& plan.approved == tally(
                items,
                |i: DriftCleanupRequestItemView| i.approval_status == "approved"@,
            )
            &&& plan.ok <==> plan.blocked == 0 && verdict.ok && verdict.limitations.len() == 0 && (
            plan.ready > 0 || plan.needs_approval == 0)
            &&& plan.ok && plan.ready > 0 ==> plan.status == "ready_for_human_execution_request"@
            &&& plan.blocked > 0 || !verdict.ok ==> plan.status == "blocked"@ && !plan.ok
            &&& plan.status == "ready_for_human_execution_request"@ ==> plan.ok && plan.ready > 0
            &&& plan.status == "needs_human_approval"@ ==> plan.needs_approval > 0 && plan.ready
                == 0 && plan.blocked == 0
        }),
{
    let items = request.document->0.items;
    let entries = plan_entries(items);
    lemma_plan_words();
    reveal_strlit("no_approved_cleanup");
    reveal_strlit("ready_for_human_execution_request");
    reveal_strlit("needs_human_approval");
    reveal_strlit("blocked");
    assert("no_approved_cleanup"@.len() != "ready_for_human_execution_request"@.len());
    assert("no_approved_cleanup"@.len() != "needs_human_approval"@.len());
    assert("no_approved_cleanup"@.len() != "blocked"@.len());
    assert forall|i: int| 0 <= i < items.len() implies {
        &&& (plan_entry(#[trigger] items[i]).status == "ready_for_human_execution_request"@) == (
        items[i].approval_status == "approved"@ && fully_evidenced(items[i]) && !wrongly_filled_in(
            items[i],
        ))
        &&& (plan_entry(items[i]).status == "skipped"@) == ((items[i].approval_status == "unknown"@
            || items[i].approval_status == "rejected"@) && !items[i].destructive_command_generated)
        &&& plan_entry(items[i]).approval_status == items[i].approval_status
    } by {
        law_what_becomes_of_an_item(items[i]);
    }
    let f = |i: DriftCleanupRequestItemView| plan_entry(i);
    law_tally_of_images(
        items,
        f,
        |e: DriftCleanupExecutionPlanEntryView| e.status == "ready_for_human_execution_request"@,
        |i: DriftCleanupRequestItemView|
            i.approval_status == "approved"@ && fully_evidenced(i) && !wrongly_filled_in(i),
    );
    law_tally_of_images(
        items,
        f,
        |e: DriftCleanupExecutionPlanEntryView| e.status == "skipped"@,
        |i: DriftCleanupRequestItemView|
            (i.approval_status == "unknown"@ || i.approval_status == "rejected"@)
                && !i.destructive_command_generated,
    );
    law_tally_of_images(
        items,
        f,
        |e: DriftCleanupExecutionPlanEntryView| e.approval_status == "approved"@,
        |i: DriftCleanupRequestItemView| i.approval_status == "approved"@,
    );
}

} // verus!
