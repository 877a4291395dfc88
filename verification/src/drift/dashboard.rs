//! The state of a cleanup request at a glance.

use vstd::prelude::*;
use crate::drift::approval::{approval_summary, is_blocked, summarize_approvals};
use crate::drift::candidates::{
    DriftCleanupBuild, DriftCleanupBuildView, LoadedRequest, LoadedRequestView,
    build_drift_cleanup, cleanup_build,
};
use crate::drift::plan::{drift_cleanup_execution_plan, execution_plan};
use crate::drift::progress::{progress_against, request_progress};
use crate::drift::runbook::{drift_cleanup_runbook, runbook};
use crate::drift::triage::{drift_cleanup_request_triage, filled, nonempty, request_triage};
use crate::drift::types::{
    DriftCleanupApprovalSummaryReport, DriftCleanupApprovalSummaryReportView,
    DriftCleanupDashboardReport, DriftCleanupDashboardReportView, DriftCleanupDecisionOption,
    DriftCleanupDecisionOptionView, DriftCleanupExecutionGateReport,
    DriftCleanupExecutionGateReportView, DriftCleanupExecutionPlanReport,
    DriftCleanupExecutionPlanReportView, DriftCleanupProgressReport,
    DriftCleanupProgressReportView, DriftCleanupTriageItem, DriftCleanupTriageItemView,
    DriftCleanupTriageReport, DriftCleanupTriageReportView, DriftCleanupWorklistItem,
    DriftCleanupWorklistItemView, DriftCleanupWorklistReport, DriftCleanupWorklistReportView,
};
use crate::drift::verify::is_set;
use crate::drift::volumes::{limit_of, read_limit};
use crate::each::{choose_each, keep_front};
use crate::list::{
    Ranked, chosen, extend, front, labelled, law_chosen, law_ranked, law_sorted_set,
    lemma_sorted_by_keeps, less, note, note_some, noted, pair_lt, put, rank, sort_stable,
    sorted_by, sorted_set, unique_sorted,
};
use crate::number::{count_text, decimal, sum_text};
use crate::registry::Registry;
use crate::scan::Observation;
use crate::text::{
    cat3, cat5, cat6, cat7, is_text, lowered, own_opt, same, shell_hint, shell_hint_spec, to_lower,
    trim, trimmed,
};

verus! {

broadcast use {vstd::seq::group_seq_axioms, vstd::string::group_string_axioms};

// ---------------------------------------------------------------------------
// Dashboard
// ---------------------------------------------------------------------------

/// What to do next about a request.
pub open spec fn dashboard_steps(
    status: Seq<char>,
    progress: DriftCleanupProgressReportView,
    approval: DriftCleanupApprovalSummaryReportView,
    path: Seq<char>,
) -> Seq<Seq<char>> {
    let request = shell_hint_spec(path);
    let none = Seq::<Seq<char>>::empty();
    if status == "sync_required"@ {
        none.push(
            "run opsctl registry drift cleanup-request sync "@ + request
                + " --execute after reviewing stale_items="@ + decimal(progress.stale_items)
                + " missing_current="@ + decimal(progress.missing_current),
        )
    } else if status == "classification_required"@ {
        none.push(
            "classify "@ + decimal(approval.unknown)
                + " unknown cleanup request items with cleanup-request mark or the drift TUI review workflow"@,
        ).push(
            "inspect details with opsctl registry drift cleanup-request triage "@ + request
                + " --json"@,
        )
    } else if status == "approval_required"@ {
        none.push(
            "complete owner, reason, cleanup_strategy, exact_resource_id, maintenance_window, rollback_plan, approval_expires_at, and data evidence for "@
                + decimal(approval.needs_cleanup + approval.needs_approval) + " item(s)"@,
        ).push(
            "summarize gaps with opsctl registry drift cleanup-request approval-summary "@ + request
                + " --json"@,
        )
    } else if status == "ready_for_human_execution_request"@ {
        none.push(
            "request audited approval with opsctl registry drift cleanup-request request-execution "@
                + request + " --reason <reason>"@,
        ).push(
            "build the manual runbook with opsctl registry drift cleanup-request runbook "@
                + request + " --json"@,
        )
    } else if status == "no_cleanup_pending"@ {
        none.push("no cleanup request items are pending approval or execution"@)
    } else if status == "blocked"@ {
        none.push(
            "fix blocked cleanup request validation before continuing; inspect opsctl registry drift cleanup-request verify "@
                + request + " --json"@,
        )
    } else {
        none
    }
}

/// What to do next about a request.
pub fn list_dashboard_steps(
    status: &str,
    progress: &DriftCleanupProgressReport,
    approval: &DriftCleanupApprovalSummaryReport,
    path: &str,
) -> (r: Vec<String>)
    ensures
        r.deep_view() == dashboard_steps(
            status@,
            progress.deep_view(),
            approval.deep_view(),
            path@,
        ),
{
    let request = shell_hint(path);
    let mut list: Vec<String> = Vec::new();
    proof {
        assert(list.deep_view() =~= Seq::<Seq<char>>::empty());
    }
    if same(status, "sync_required") {
        put(
            &mut list,
            &cat6(
                "run opsctl registry drift cleanup-request sync ",
                &request,
                " --execute after reviewing stale_items=",
                &count_text(progress.stale_items),
                " missing_current=",
                &count_text(progress.missing_current),
            ),
        );
    } else if same(status, "classification_required") {
        put(
            &mut list,
            &cat3(
                "classify ",
                &count_text(approval.unknown),
                " unknown cleanup request items with cleanup-request mark or the drift TUI review workflow",
            ),
        );
        put(
            &mut list,
            &cat3(
                "inspect details with opsctl registry drift cleanup-request triage ",
                &request,
                " --json",
            ),
        );
    } else if same(status, "approval_required") {
        put(
            &mut list,
            &cat3(
                "complete owner, reason, cleanup_strategy, exact_resource_id, maintenance_window, rollback_plan, approval_expires_at, and data evidence for ",
                &sum_text(approval.needs_cleanup, approval.needs_approval),
                " item(s)",
            ),
        );
        put(
            &mut list,
            &cat3(
                "summarize gaps with opsctl registry drift cleanup-request approval-summary ",
                &request,
                " --json",
            ),
        );
    } else if same(status, "ready_for_human_execution_request") {
        put(
            &mut list,
            &cat3(
                "request audited approval with opsctl registry drift cleanup-request request-execution ",
                &request,
                " --reason <reason>",
            ),
        );
        put(
            &mut list,
            &cat3(
                "build the manual runbook with opsctl registry drift cleanup-request runbook ",
                &request,
                " --json",
            ),
        );
    } else if same(status, "no_cleanup_pending") {
        put(&mut list, "no cleanup request items are pending approval or execution");
    } else if same(status, "blocked") {
        put(
            &mut list,
            &cat3(
                "fix blocked cleanup request validation before continuing; inspect opsctl registry drift cleanup-request verify ",
                &request,
                " --json",
            ),
        );
    }
    list
}

/// What to do next about a request.
pub open spec fn dashboard_next_actions(
    status: Seq<char>,
    progress: DriftCleanupProgressReportView,
    approval: DriftCleanupApprovalSummaryReportView,
    plan: DriftCleanupExecutionPlanReportView,
    path: Seq<char>,
) -> Seq<Seq<char>> {
    sorted_set(
        dashboard_steps(status, progress, approval, path) + noted(
            plan.blocked > 0,
            "fix "@ + decimal(plan.blocked) + " blocked execution plan entries before approval"@,
        ),
    )
}

/// What to do next about a request.
pub fn cleanup_dashboard_next_actions(
    status: &str,
    progress: &DriftCleanupProgressReport,
    approval: &DriftCleanupApprovalSummaryReport,
    plan: &DriftCleanupExecutionPlanReport,
    path: &str,
) -> (r: Vec<String>)
    ensures
        r.deep_view() == dashboard_next_actions(
            status@,
            progress.deep_view(),
            approval.deep_view(),
            plan.deep_view(),
            path@,
        ),
{
    let mut list = list_dashboard_steps(status, progress, approval, path);
    note(
        &mut list,
        plan.blocked > 0,
        &cat3(
            "fix ",
            &count_text(plan.blocked),
            " blocked execution plan entries before approval",
        ),
    );
    unique_sorted(list)
}

/// The status of a request.
pub open spec fn dashboard_status(
    blocked: bool,
    progress: DriftCleanupProgressReportView,
    approval: DriftCleanupApprovalSummaryReportView,
    ready: nat,
) -> Seq<char> {
    if blocked {
        "blocked"@
    } else if progress.stale_items > 0 || progress.missing_current > 0 {
        "sync_required"@
    } else if approval.unknown > 0 {
        "classification_required"@
    } else if approval.needs_cleanup > 0 || approval.needs_approval > 0 {
        "approval_required"@
    } else if ready > 0 {
        "ready_for_human_execution_request"@
    } else {
        "no_cleanup_pending"@
    }
}

/// The state of a request.
pub open spec fn dashboard(
    build: DriftCleanupBuildView,
    request: LoadedRequestView,
) -> DriftCleanupDashboardReportView {
    let progress = request_progress(build, request);
    let plan = execution_plan(request);
    let approval = approval_summary(plan);
    let book = runbook(request);
    let limitations = progress.limitations + approval.limitations + plan.limitations + if plan.ready
        > 0 && book.status == "blocked"@ {
        book.limitations
    } else {
        Seq::empty()
    };
    let blocked = limitations.len() > 0 || is_blocked(progress.status) || is_blocked(
        approval.status,
    ) || is_blocked(plan.status);
    let status = dashboard_status(blocked, progress, approval, plan.ready);
    DriftCleanupDashboardReportView {
        ok: !blocked && progress.stale_items == 0 && progress.missing_current == 0,
        read_only: true,
        status,
        request_file: request.path,
        progress,
        approval_summary: approval,
        execution_plan: plan,
        runbook_status: book.status,
        runbook_ready_steps: book.ready,
        next_actions: dashboard_next_actions(status, progress, approval, plan, request.path),
        limitations: sorted_set(limitations),
    }
}

/// The state of a request, from what the server shows.
pub fn dashboard_against(build: &DriftCleanupBuild, request: &LoadedRequest) -> (r:
    DriftCleanupDashboardReport)
    ensures
        r.deep_view() == dashboard(build.deep_view(), request.deep_view()),
{
    let progress = progress_against(build, request);
    let plan = drift_cleanup_execution_plan(request);
    let approval = summarize_approvals(&plan);
    let book = drift_cleanup_runbook(request);
    let mut limitations = progress.limitations.clone();
    extend(&mut limitations, &approval.limitations);
    extend(&mut limitations, &plan.limitations);
    let ghost before = limitations.deep_view();
    if plan.ready > 0 && same(&book.status, "blocked") {
        extend(&mut limitations, &book.limitations);
    } else {
        proof {
            assert(before + Seq::<Seq<char>>::empty() =~= before);
        }
    }
    proof {
        assert(limitations.deep_view().len() == limitations@.len());
    }
    let blocked = limitations.len() > 0 || same(&progress.status, "blocked") || same(
        &approval.status,
        "blocked",
    ) || same(&plan.status, "blocked");
    let unsynced = progress.stale_items > 0 || progress.missing_current > 0;
    let status = if blocked {
        "blocked"
    } else if unsynced {
        "sync_required"
    } else if approval.unknown > 0 {
        "classification_required"
    } else if approval.needs_cleanup > 0 || approval.needs_approval > 0 {
        "approval_required"
    } else if plan.ready > 0 {
        "ready_for_human_execution_request"
    } else {
        "no_cleanup_pending"
    };
    let next_actions = cleanup_dashboard_next_actions(
        status,
        &progress,
        &approval,
        &plan,
        &request.path,
    );
    DriftCleanupDashboardReport {
        ok: !blocked && !unsynced,
        read_only: true,
        status: status.to_string(),
        request_file: request.path.clone(),
        progress,
        approval_summary: approval,
        execution_plan: plan,
        runbook_status: book.status,
        runbook_ready_steps: book.ready,
        next_actions,
        limitations: unique_sorted(limitations),
    }
}

/// The state of a loaded request.
pub fn drift_cleanup_dashboard(
    registry: &Registry,
    observation: &Observation,
    request: &LoadedRequest,
) -> (r: DriftCleanupDashboardReport)
    ensures
        r.deep_view() == dashboard(
            cleanup_build(registry.deep_view(), observation.deep_view()),
            request.deep_view(),
        ),
{
    dashboard_against(&build_drift_cleanup(registry, observation), request)
}

// ---------------------------------------------------------------------------
// Worklist
// ---------------------------------------------------------------------------

/// The status that a worklist is limited to; `all` where none is given.
pub open spec fn worklist_status(filter: Option<Seq<char>>) -> Seq<char> {
    match filter {
        Some(text) => if trimmed(text).len() > 0 {
            lowered(trimmed(text))
        } else {
            lowered("all"@)
        },
        None => lowered("all"@),
    }
}

/// The status that a worklist is limited to.
pub fn read_worklist_status(filter: Option<&str>) -> (r: String)
    ensures
        r@ == worklist_status(filter.deep_view()),
{
    if let Some(text) = filter {
        let bare = trim(text);
        if !bare.as_str().is_empty() {
            return to_lower(&bare);
        }
    }
    to_lower("all")
}

/// What an adoption needs.
pub open spec fn adopt_fields() -> Seq<Seq<char>> {
    seq![
        "service_id"@,
        "reason"@,
    ]
}

/// What an adoption needs.
pub fn list_adopt_fields() -> (r: Vec<String>)
    ensures
        r.deep_view() == adopt_fields(),
{
    let list: Vec<String> = vec![
        "service_id".to_string(),
        "reason".to_string(),
    ];
    proof {
        assert(list.deep_view() =~= adopt_fields());
    }
    list
}

/// What an ignore rule needs.
pub open spec fn ignore_fields() -> Seq<Seq<char>> {
    seq![
        "owner"@,
        "reason"@,
        "expires_at"@,
    ]
}

/// What an ignore rule needs.
pub fn list_ignore_fields() -> (r: Vec<String>)
    ensures
        r.deep_view() == ignore_fields(),
{
    let list: Vec<String> = vec![
        "owner".to_string(),
        "reason".to_string(),
        "expires_at".to_string(),
    ];
    proof {
        assert(list.deep_view() =~= ignore_fields());
    }
    list
}

/// What a cleanup needs.
pub open spec fn cleanup_fields(data: bool) -> Seq<Seq<char>> {
    Seq::<Seq<char>>::empty().push(
        "owner"@,
    ).push(
        "reason"@,
    ).push(
        "cleanup_strategy"@,
    ).push(
        "exact_resource_id"@,
    ).push(
        "maintenance_window"@,
    ).push(
        "rollback_plan"@,
    ).push(
        "approval_expires_at"@,
    ) + noted(data, "backup_snapshot_id"@) + noted(data, "restore_drill_id"@)
}

/// What a cleanup needs.
pub fn list_cleanup_fields(data: bool) -> (r: Vec<String>)
    ensures
        r.deep_view() == cleanup_fields(data),
{
    let mut list: Vec<String> = Vec::new();
    proof {
        assert(list.deep_view() =~= Seq::<Seq<char>>::empty());
    }
    put(&mut list, "owner");
    put(&mut list, "reason");
    put(&mut list, "cleanup_strategy");
    put(&mut list, "exact_resource_id");
    put(&mut list, "maintenance_window");
    put(&mut list, "rollback_plan");
    put(&mut list, "approval_expires_at");
    note(&mut list, data, "backup_snapshot_id");
    note(&mut list, data, "restore_drill_id");
    list
}

/// One decision that an operator can take.
pub open spec fn decision_option(
    action: Seq<char>,
    command: Seq<char>,
    writes_registry: bool,
    required_fields: Seq<Seq<char>>,
    detail: Seq<char>,
) -> DriftCleanupDecisionOptionView {
    DriftCleanupDecisionOptionView {
        action,
        command,
        writes_registry,
        requires_execute: true,
        required_fields,
        detail,
    }
}

/// One decision that an operator can take.
pub fn build_decision_option(
    action: &str,
    command: String,
    writes_registry: bool,
    required_fields: Vec<String>,
    detail: &str,
) -> (r: DriftCleanupDecisionOption)
    ensures
        r.deep_view() == decision_option(
            action@,
            command@,
            writes_registry,
            required_fields.deep_view(),
            detail@,
        ),
{
    DriftCleanupDecisionOption {
        action: action.to_string(),
        command,
        writes_registry,
        requires_execute: true,
        required_fields,
        detail: detail.to_string(),
    }
}

/// The decisions that an operator can take about an item.
pub open spec fn decision_options(path: Seq<char>, item: DriftCleanupTriageItemView) -> Seq<
    DriftCleanupDecisionOptionView,
> {
    let target = shell_hint_spec(item.target);
    let kind = shell_hint_spec(item.kind);
    let request = shell_hint_spec(path);
    let id = shell_hint_spec(item.request_id);
    let data = item.data_risk is Some;
    seq![
        decision_option(
            "adopt"@,
            "opsctl registry drift adopt --kind "@ + kind + " --target "@ + target
                + " --service-id <service-id> --reason <reason> --execute"@,
            true,
            adopt_fields(),
            "use only after confirming this observed resource belongs to a registered production service"@,
        ),
        decision_option(
            "ignore"@,
            "opsctl registry drift ignore --kind "@ + kind + " --target "@ + target
                + " --owner <owner> --reason <reason> --expires-at <RFC3339> --execute"@,
            true,
            ignore_fields(),
            "use for system, expected temporary, or intentionally unmanaged resources; always set an expiry"@,
        ),
        decision_option(
            "needs_cleanup"@,
            "opsctl registry drift cleanup-request mark "@ + request + " --request-id "@ + id
                + " --approval-status needs_cleanup --owner <owner> --reason <reason> --cleanup-strategy service_owner_cleanup --exact-resource-id "@
                + target
                + " --maintenance-window <window> --rollback-plan <plan> --approval-expires-at <RFC3339>"@
                + (if data {
                " --backup-snapshot-id <snapshot-id> --restore-drill-id <restore-drill-id>"@
            } else {
                ""@
            }) + " --execute"@,
            false,
            cleanup_fields(data),
            "marks the request for later approval; it still does not delete or stop the resource"@,
        ),
        decision_option(
            "keep_unknown"@,
            "opsctl registry drift cleanup-request mark "@ + request + " --request-id "@ + id
                + " --approval-status unknown --execute"@,
            false,
            Seq::empty(),
            "keeps the item explicitly unresolved for a later review pass"@,
        ),
    ]
}

/// The decisions that an operator can take about an item.
pub fn cleanup_decision_options(path: &str, item: &DriftCleanupTriageItem) -> (r: Vec<
    DriftCleanupDecisionOption,
>)
    ensures
        r.deep_view() == decision_options(path@, item.deep_view()),
{
    let target = shell_hint(&item.target);
    let kind = shell_hint(&item.kind);
    let request = shell_hint(path);
    let id = shell_hint(&item.request_id);
    let data = item.data_risk.is_some();
    let evidence = if data {
        " --backup-snapshot-id <snapshot-id> --restore-drill-id <restore-drill-id>"
    } else {
        ""
    };
    let none: Vec<String> = Vec::new();
    proof {
        assert(none.deep_view() =~= Seq::<Seq<char>>::empty());
    }
    let options: Vec<DriftCleanupDecisionOption> = vec![
        build_decision_option(
            "adopt",
            cat5(
                "opsctl registry drift adopt --kind ",
                &kind,
                " --target ",
                &target,
                " --service-id <service-id> --reason <reason> --execute",
            ),
            true,
            list_adopt_fields(),
            "use only after confirming this observed resource belongs to a registered production service",
        ),
        build_decision_option(
            "ignore",
            cat5(
                "opsctl registry drift ignore --kind ",
                &kind,
                " --target ",
                &target,
                " --owner <owner> --reason <reason> --expires-at <RFC3339> --execute",
            ),
            true,
            list_ignore_fields(),
            "use for system, expected temporary, or intentionally unmanaged resources; always set an expiry",
        ),
        build_decision_option(
            "needs_cleanup",
            cat3(
                &cat7(
                    "opsctl registry drift cleanup-request mark ",
                    &request,
                    " --request-id ",
                    &id,
                    " --approval-status needs_cleanup --owner <owner> --reason <reason> --cleanup-strategy service_owner_cleanup --exact-resource-id ",
                    &target,
                    " --maintenance-window <window> --rollback-plan <plan> --approval-expires-at <RFC3339>",
                ),
                evidence,
                " --execute",
            ),
            false,
            list_cleanup_fields(data),
            "marks the request for later approval; it still does not delete or stop the resource",
        ),
        build_decision_option(
            "keep_unknown",
            cat5(
                "opsctl registry drift cleanup-request mark ",
                &request,
                " --request-id ",
                &id,
                " --approval-status unknown --execute",
            ),
            false,
            none,
            "keeps the item explicitly unresolved for a later review pass",
        ),
    ];
    proof {
        assert(options.deep_view() =~= decision_options(path@, item.deep_view()));
    }
    options
}

/// What the worklist says of an item.
pub open spec fn worklist_item(path: Seq<char>, item: DriftCleanupTriageItemView) -> DriftCleanupWorklistItemView {
    DriftCleanupWorklistItemView {
        request_id: item.request_id,
        kind: item.kind,
        target: item.target,
        approval_status: item.approval_status,
        risk: item.risk,
        current_candidate: item.current_candidate,
        data_risk: item.data_risk,
        public_bind: item.public_bind,
        running: item.running,
        suggested_next_step: item.suggested_next_step,
        evidence: item.evidence,
        required_evidence: item.required_evidence,
        blockers: item.blockers,
        decision_options: decision_options(path, item),
    }
}

/// What the worklist says of an item.
pub fn cleanup_worklist_item(path: &str, item: &DriftCleanupTriageItem) -> (r:
    DriftCleanupWorklistItem)
    ensures
        r.deep_view() == worklist_item(path@, item.deep_view()),
{
    DriftCleanupWorklistItem {
        request_id: item.request_id.clone(),
        kind: item.kind.clone(),
        target: item.target.clone(),
        approval_status: item.approval_status.clone(),
        risk: item.risk.clone(),
        current_candidate: item.current_candidate,
        data_risk: item.data_risk.clone(),
        public_bind: item.public_bind,
        running: item.running,
        suggested_next_step: item.suggested_next_step.clone(),
        evidence: item.evidence.clone(),
        required_evidence: item.required_evidence.clone(),
        blockers: item.blockers.clone(),
        decision_options: cleanup_decision_options(path, item),
    }
}

/// The place of an item in the worklist.
pub open spec fn worklist_rank(item: DriftCleanupWorklistItemView) -> nat {
    let base: nat = if item.approval_status == "needs_cleanup"@ {
        0
    } else {
        4
    };
    if item.approval_status != "needs_cleanup"@ && item.approval_status != "unknown"@ {
        8
    } else if item.risk == "high"@ {
        base
    } else if item.data_risk is Some {
        base + 1
    } else if item.public_bind == Some(true) {
        base + 2
    } else {
        base + 3
    }
}

/// The place of an item in the worklist.
pub fn cleanup_worklist_priority(item: &DriftCleanupWorklistItem) -> (r: u8)
    ensures
        r == worklist_rank(item.deep_view()),
{
    let first = same(&item.approval_status, "needs_cleanup");
    let base: u8 = if first {
        0
    } else {
        4
    };
    if !first && !same(&item.approval_status, "unknown") {
        8
    } else if same(&item.risk, "high") {
        base
    } else if item.data_risk.is_some() {
        base + 1
    } else if is_set(item.public_bind) {
        base + 2
    } else {
        base + 3
    }
}

impl Ranked for DriftCleanupWorklistItem {
    /// By urgency, then by kind, then by target.
    open spec fn before(a: DriftCleanupWorklistItemView, b: DriftCleanupWorklistItemView) -> bool {
        worklist_rank(a) < worklist_rank(b) || worklist_rank(a) == worklist_rank(b) && pair_lt(
            (a.kind, a.target),
            (b.kind, b.target),
        )
    }

    fn ranks_before(&self, other: &Self) -> (r: bool) {
        let mine = cleanup_worklist_priority(self);
        let theirs = cleanup_worklist_priority(other);
        mine < theirs || (mine == theirs && (less(&self.kind, &other.kind) || (same(
            &self.kind,
            &other.kind,
        ) && less(&self.target, &other.target))))
    }
}

/// The kind that a worklist is limited to, if any.
pub open spec fn worklist_kind(filter: Option<Seq<char>>) -> Option<Seq<char>> {
    match filter {
        Some(text) => nonempty(Some(trimmed(text))),
        None => None,
    }
}

/// The items of a list that pass the kind filter.
pub open spec fn worklist_part(
    path: Seq<char>,
    items: Seq<DriftCleanupTriageItemView>,
    kind: Option<Seq<char>>,
) -> Seq<DriftCleanupWorklistItemView> {
    chosen(
        items,
        |i: DriftCleanupTriageItemView|
            if kind is None || kind == Some(i.kind) {
                Some(worklist_item(path, i))
            } else {
                None
            },
    )
}

/// The items of a list that pass the kind filter.
pub fn list_worklist_part(path: &str, items: &Vec<DriftCleanupTriageItem>, kind: Option<&str>) -> (r:
    Vec<DriftCleanupWorklistItem>)
    ensures
        r.deep_view() == worklist_part(path@, items.deep_view(), kind.deep_view()),
{
    choose_each(
        items,
        |i: &DriftCleanupTriageItem| -> (r: Option<DriftCleanupWorklistItem>)
            ensures
                r.deep_view() == (if kind.deep_view() is None || kind.deep_view() == Some(
                    i.deep_view().kind,
                ) {
                    Some(worklist_item(path@, i.deep_view()))
                } else {
                    None
                })
            {
                if kind.is_none() || is_text(kind, &i.kind) {
                    Some(cleanup_worklist_item(path, i))
                } else {
                    None
                }
            },
        Ghost(
            |i: DriftCleanupTriageItemView|
                if kind.deep_view() is None || kind.deep_view() == Some(i.kind) {
                    Some(worklist_item(path@, i))
                } else {
                    None
                },
        ),
    )
}

/// What to do next with the worklist.
pub open spec fn worklist_next_actions(
    path: Seq<char>,
    total: nat,
    status: Seq<char>,
    kind: Option<Seq<char>>,
) -> Seq<Seq<char>> {
    let none = Seq::<Seq<char>>::empty();
    if total == 0 {
        none.push("no cleanup request items match the worklist filters"@)
    } else {
        sorted_set(
            none.push(
                "review "@ + decimal(total)
                    + " matching item(s) and choose exactly one decision option per item"@,
            ).push(
                "after edits, rerun opsctl registry drift cleanup-request dashboard "@
                    + shell_hint_spec(path) + " --json"@,
            ) + noted(
                status == "unknown"@ || status == "all"@,
                "for formal resources, prefer adopt; for expected unmanaged resources, use expiring ignore; for test residue, mark needs_cleanup"@,
            ) + noted(
                status == "needs_cleanup"@ || status == "all"@,
                "never approve data-risk cleanup without backup_snapshot_id and restore_drill_id"@,
            ) + labelled("current worklist is limited to kind="@, kind),
        )
    }
}

/// What to do next with the worklist.
pub fn cleanup_worklist_next_actions(
    path: &str,
    total: usize,
    status: &str,
    kind: Option<&str>,
) -> (r: Vec<String>)
    ensures
        r.deep_view() == worklist_next_actions(path@, total as nat, status@, kind.deep_view()),
{
    let mut list: Vec<String> = Vec::new();
    proof {
        assert(list.deep_view() =~= Seq::<Seq<char>>::empty());
    }
    if total == 0 {
        put(&mut list, "no cleanup request items match the worklist filters");
        return list;
    }
    put(
        &mut list,
        &cat3(
            "review ",
            &count_text(total),
            " matching item(s) and choose exactly one decision option per item",
        ),
    );
    put(
        &mut list,
        &cat3(
            "after edits, rerun opsctl registry drift cleanup-request dashboard ",
            &shell_hint(path),
            " --json",
        ),
    );
    note(
        &mut list,
        same(status, "unknown") || same(status, "all"),
        "for formal resources, prefer adopt; for expected unmanaged resources, use expiring ignore; for test residue, mark needs_cleanup",
    );
    note(
        &mut list,
        same(status, "needs_cleanup") || same(status, "all"),
        "never approve data-risk cleanup without backup_snapshot_id and restore_drill_id",
    );
    note_some(&mut list, "current worklist is limited to kind=", kind);
    unique_sorted(list)
}

/// The items to decide on, most urgent first.
pub open spec fn worklist(
    triage: DriftCleanupTriageReportView,
    path: Seq<char>,
    kind: Option<Seq<char>>,
    status_filter: Option<Seq<char>>,
    limit: nat,
) -> DriftCleanupWorklistReportView {
    let status = worklist_status(status_filter);
    let limitations = triage.limitations + noted(
        status != "all"@ && status != "unknown"@ && status != "needs_cleanup"@,
        "status filter must be all, unknown, or needs_cleanup for cleanup worklist"@,
    );
    let all = sorted_by(
        (if status == "all"@ || status == "unknown"@ {
            worklist_part(path, triage.unknown_items, worklist_kind(kind))
        } else {
            Seq::empty()
        }) + (if status == "all"@ || status == "needs_cleanup"@ {
            worklist_part(path, triage.needs_cleanup_items, worklist_kind(kind))
        } else {
            Seq::empty()
        }),
        rank::<DriftCleanupWorklistItem>(),
    );
    let blocked = limitations.len() > 0 || is_blocked(triage.status);
    DriftCleanupWorklistReportView {
        ok: !blocked,
        read_only: true,
        status: if blocked {
            "blocked"@
        } else if all.len() > 0 {
            "review_required"@
        } else {
            "empty"@
        },
        request_file: path,
        filter_kind: kind,
        filter_status: status,
        limit: limit_of(limit),
        total_matching_items: all.len(),
        returned_items: front(all, limit_of(limit)).len(),
        items: front(all, limit_of(limit)),
        next_actions: worklist_next_actions(path, all.len(), status, kind),
        limitations: sorted_set(limitations),
    }
}

/// The items to decide on, from a triage.
pub fn worklist_from(
    triage: &DriftCleanupTriageReport,
    path: &str,
    kind: Option<&str>,
    status_filter: Option<&str>,
    limit: usize,
) -> (r: DriftCleanupWorklistReport)
    ensures
        r.deep_view() == worklist(
            triage.deep_view(),
            path@,
            kind.deep_view(),
            status_filter.deep_view(),
            limit as nat,
        ),
{
    let filter_status = read_worklist_status(status_filter);
    let limit = read_limit(limit);
    let everything = same(&filter_status, "all");
    let unknown = everything || same(&filter_status, "unknown");
    let needs_cleanup = everything || same(&filter_status, "needs_cleanup");
    let mut limitations = triage.limitations.clone();
    note(
        &mut limitations,
        !unknown && !needs_cleanup,
        "status filter must be all, unknown, or needs_cleanup for cleanup worklist",
    );
    let bare: String;
    let mut wanted: Option<&str> = None;
    if let Some(text) = kind {
        bare = trim(text);
        wanted = filled(Some(bare.as_str()));
    }
    let mut items: Vec<DriftCleanupWorklistItem> = Vec::new();
    proof {
        assert(items.deep_view() =~= Seq::<DriftCleanupWorklistItemView>::empty());
    }
    if unknown {
        items = list_worklist_part(path, &triage.unknown_items, wanted);
    }
    let ghost first = items.deep_view();
    if needs_cleanup {
        let mut more = list_worklist_part(path, &triage.needs_cleanup_items, wanted);
        let ghost second = more.deep_view();
        items.append(&mut more);
        proof {
            assert(items.deep_view() =~= first + second);
        }
    } else {
        proof {
            assert(first =~= first + Seq::<DriftCleanupWorklistItemView>::empty());
        }
    }
    let all = sort_stable(items);
    proof {
        assert(all.deep_view().len() == all@.len());
        assert(limitations.deep_view().len() == limitations@.len());
    }
    let total = all.len();
    let kept = keep_front(all, limit);
    proof {
        assert(kept.deep_view().len() == kept@.len());
    }
    let blocked = limitations.len() > 0 || same(&triage.status, "blocked");
    let status = if blocked {
        "blocked"
    } else if total > 0 {
        "review_required"
    } else {
        "empty"
    };
    let next_actions = cleanup_worklist_next_actions(path, total, &filter_status, kind);
    DriftCleanupWorklistReport {
        ok: !blocked,
        read_only: true,
        status: status.to_string(),
        request_file: path.to_string(),
        filter_kind: own_opt(kind),
        filter_status,
        limit,
        total_matching_items: total,
        returned_items: kept.len(),
        items: kept,
        next_actions,
        limitations: unique_sorted(limitations),
    }
}

/// The items of a loaded request to decide on.
pub fn drift_cleanup_worklist(
    registry: &Registry,
    observation: &Observation,
    request: &LoadedRequest,
    kind: Option<&str>,
    status_filter: Option<&str>,
    limit: usize,
) -> (r: DriftCleanupWorklistReport)
    ensures
        r.deep_view() == worklist(
            request_triage(
                cleanup_build(registry.deep_view(), observation.deep_view()),
                request.deep_view(),
            ),
            request.deep_view().path,
            kind.deep_view(),
            status_filter.deep_view(),
            limit as nat,
        ),
{
    let triage = drift_cleanup_request_triage(registry, observation, request);
    worklist_from(&triage, &request.path, kind, status_filter, limit)
}

// ---------------------------------------------------------------------------
// Execution gate
// ---------------------------------------------------------------------------

/// The status of an execution request.
pub open spec fn gate_status(status: Seq<char>) -> Seq<char> {
    if status == "ready_for_human_execution_request"@ {
        "ready_for_manual_handoff"@
    } else if status == "no_cleanup_pending"@ {
        "no_cleanup_pending"@
    } else if status == "sync_required"@ {
        "blocked_until_synced"@
    } else if status == "classification_required"@ {
        "blocked_until_classified"@
    } else if status == "approval_required"@ {
        "blocked_until_approved"@
    } else {
        "blocked"@
    }
}

/// The status of an execution request.
pub fn execution_gate_status(status: &str) -> (r: &'static str)
    ensures
        r@ == gate_status(status@),
{
    if same(status, "ready_for_human_execution_request") {
        "ready_for_manual_handoff"
    } else if same(status, "no_cleanup_pending") {
        "no_cleanup_pending"
    } else if same(status, "sync_required") {
        "blocked_until_synced"
    } else if same(status, "classification_required") {
        "blocked_until_classified"
    } else if same(status, "approval_required") {
        "blocked_until_approved"
    } else {
        "blocked"
    }
}

/// What an execution request asks for.
pub open spec fn gate_step(status: Seq<char>) -> Seq<char> {
    if status == "blocked_until_synced"@ {
        "sync the cleanup request with current observed drift after reviewing the diff"@
    } else if status == "blocked_until_classified"@ {
        "classify unknown items as adopt, ignore, needs_cleanup, or keep unknown"@
    } else if status == "blocked_until_approved"@ {
        "complete owner, reason, exact_resource_id, evidence, maintenance window, rollback plan, and approval expiry"@
    } else if status == "ready_for_manual_handoff"@ {
        "request cleanup execution approval, then record a manual handoff only after revalidation"@
    } else if status == "no_cleanup_pending"@ {
        "no cleanup execution is pending for this request"@
    } else {
        "fix cleanup request validation blockers"@
    }
}

/// What an execution request asks for.
pub fn execution_gate_step(status: &str) -> (r: &'static str)
    ensures
        r@ == gate_step(status@),
{
    if same(status, "blocked_until_synced") {
        "sync the cleanup request with current observed drift after reviewing the diff"
    } else if same(status, "blocked_until_classified") {
        "classify unknown items as adopt, ignore, needs_cleanup, or keep unknown"
    } else if same(status, "blocked_until_approved") {
        "complete owner, reason, exact_resource_id, evidence, maintenance window, rollback plan, and approval expiry"
    } else if same(status, "ready_for_manual_handoff") {
        "request cleanup execution approval, then record a manual handoff only after revalidation"
    } else if same(status, "no_cleanup_pending") {
        "no cleanup execution is pending for this request"
    } else {
        "fix cleanup request validation blockers"
    }
}

/// The commands that lead to an execution request.
pub open spec fn gate_commands(status: Seq<char>, path: Seq<char>) -> Seq<Seq<char>> {
    let request = shell_hint_spec(path);
    let none = Seq::<Seq<char>>::empty();
    if status == "blocked_until_synced"@ {
        none.push(
            "opsctl registry drift cleanup-request sync "@ + request + " --execute"@,
        )
    } else if status == "blocked_until_classified"@ {
        none.push(
            "opsctl registry drift cleanup-request worklist "@ + request
                + " --status unknown --json"@,
        ).push("opsctl registry drift cleanup-request triage "@ + request + " --json"@)
    } else if status == "blocked_until_approved"@ {
        none.push(
            "opsctl registry drift cleanup-request approval-summary "@ + request + " --json"@,
        ).push(
            "opsctl registry drift cleanup-request worklist "@ + request
                + " --status needs_cleanup --json"@,
        )
    } else if status == "ready_for_manual_handoff"@ {
        none.push(
            "opsctl registry drift cleanup-request request-execution "@ + request
                + " --reason <reason>"@,
        ).push("opsctl registry drift cleanup-request runbook "@ + request + " --json"@).push(
            "opsctl registry drift cleanup-request execute "@ + request
                + " --approval-token <token> --reason <reason> --execute"@,
        )
    } else {
        none.push("opsctl registry drift cleanup-request dashboard "@ + request + " --json"@)
    }
}

/// The commands that lead to an execution request.
pub fn list_gate_commands(status: &str, path: &str) -> (r: Vec<String>)
    ensures
        r.deep_view() == gate_commands(status@, path@),
{
    let request = shell_hint(path);
    let mut list: Vec<String> = Vec::new();
    proof {
        assert(list.deep_view() =~= Seq::<Seq<char>>::empty());
    }
    if same(status, "blocked_until_synced") {
        put(
            &mut list,
            &cat3("opsctl registry drift cleanup-request sync ", &request, " --execute"),
        );
    } else if same(status, "blocked_until_classified") {
        put(
            &mut list,
            &cat3(
                "opsctl registry drift cleanup-request worklist ",
                &request,
                " --status unknown --json",
            ),
        );
        put(
            &mut list,
            &cat3("opsctl registry drift cleanup-request triage ", &request, " --json"),
        );
    } else if same(status, "blocked_until_approved") {
        put(
            &mut list,
            &cat3("opsctl registry drift cleanup-request approval-summary ", &request, " --json"),
        );
        put(
            &mut list,
            &cat3(
                "opsctl registry drift cleanup-request worklist ",
                &request,
                " --status needs_cleanup --json",
            ),
        );
    } else if same(status, "ready_for_manual_handoff") {
        put(
            &mut list,
            &cat3(
                "opsctl registry drift cleanup-request request-execution ",
                &request,
                " --reason <reason>",
            ),
        );
        put(
            &mut list,
            &cat3("opsctl registry drift cleanup-request runbook ", &request, " --json"),
        );
        put(
            &mut list,
            &cat3(
                "opsctl registry drift cleanup-request execute ",
                &request,
                " --approval-token <token> --reason <reason> --execute",
            ),
        );
    } else {
        put(
            &mut list,
            &cat3("opsctl registry drift cleanup-request dashboard ", &request, " --json"),
        );
    }
    list
}

/// Whether a cleanup may be handed over to an operator. Nothing is ever removed
/// automatically.
pub open spec fn execution_gate(board: DriftCleanupDashboardReportView) -> DriftCleanupExecutionGateReportView {
    let status = gate_status(board.status);
    DriftCleanupExecutionGateReportView {
        ok: status == "ready_for_manual_handoff"@ || status == "no_cleanup_pending"@,
        read_only: true,
        status,
        request_file: board.request_file,
        auto_cleanup_supported: false,
        destructive_executor_status: "not_implemented_by_design"@,
        destructive_execution_supported: false,
        destructive_execution_reason:
            "opsctl only records manual cleanup handoff; Docker/container/volume/systemd deletion is intentionally outside this executor"@,
        manual_handoff_status: board.runbook_status,
        unknown: board.approval_summary.unknown,
        needs_cleanup: board.approval_summary.needs_cleanup,
        approved: board.approval_summary.approved,
        ready: board.execution_plan.ready,
        blocked: board.execution_plan.blocked,
        stale_items: board.progress.stale_items,
        missing_current: board.progress.missing_current,
        required_steps: Seq::<Seq<char>>::empty().push(gate_step(status)),
        commands: gate_commands(status, board.request_file),
        limitations: board.limitations,
    }
}

/// Whether a cleanup may be handed over to an operator.
pub fn gate_from(board: DriftCleanupDashboardReport) -> (r: DriftCleanupExecutionGateReport)
    ensures
        r.deep_view() == execution_gate(board.deep_view()),
{
    let status = execution_gate_status(&board.status);
    let mut required_steps: Vec<String> = Vec::new();
    proof {
        assert(required_steps.deep_view() =~= Seq::<Seq<char>>::empty());
    }
    put(&mut required_steps, execution_gate_step(status));
    let commands = list_gate_commands(status, &board.request_file);
    DriftCleanupExecutionGateReport {
        ok: same(status, "ready_for_manual_handoff") || same(status, "no_cleanup_pending"),
        read_only: true,
        status: status.to_string(),
        request_file: board.request_file,
        auto_cleanup_supported: false,
        destructive_executor_status: "not_implemented_by_design".to_string(),
        destructive_execution_supported: false,
        destructive_execution_reason:
            "opsctl only records manual cleanup handoff; Docker/container/volume/systemd deletion is intentionally outside this executor".to_string(),
        manual_handoff_status: board.runbook_status,
        unknown: board.approval_summary.unknown,
        needs_cleanup: board.approval_summary.needs_cleanup,
        approved: board.approval_summary.approved,
        ready: board.execution_plan.ready,
        blocked: board.execution_plan.blocked,
        stale_items: board.progress.stale_items,
        missing_current: board.progress.missing_current,
        required_steps,
        commands,
        limitations: board.limitations,
    }
}

/// Whether the cleanup of a loaded request may be handed over to an operator.
pub fn drift_cleanup_execution_gate(
    registry: &Registry,
    observation: &Observation,
    request: &LoadedRequest,
) -> (r: DriftCleanupExecutionGateReport)
    ensures
        r.deep_view() == execution_gate(
            dashboard(
                cleanup_build(registry.deep_view(), observation.deep_view()),
                request.deep_view(),
            ),
        ),
{
    gate_from(drift_cleanup_dashboard(registry, observation, request))
}

// ---------------------------------------------------------------------------
// Laws
// ---------------------------------------------------------------------------

/// An execution request never removes anything, and it opens for a handover only if the
/// request is in step with the server, every item is classified, nothing waits
/// for an approval, no item is blocked, and some item is ready.
pub proof fn law_gate_opens_only_when_everything_is_settled(
    build: DriftCleanupBuildView,
    request: LoadedRequestView,
)
    ensures
        ({
            let gate = execution_gate(dashboard(build, request));
            &&& !gate.auto_cleanup_supported
            &&& !gate.destructive_execution_supported
            &&& gate.status == "ready_for_manual_handoff"@ ==> {
                &&& gate.stale_items == 0
                &&& gate.missing_current == 0
                &&& gate.unknown == 0
                &&& gate.needs_cleanup == 0
                &&& gate.blocked == 0
                &&& gate.ready > 0
                &&& gate.limitations.len() == 0
            }
        }),
{
    reveal_strlit("ready_for_manual_handoff");
    reveal_strlit("no_cleanup_pending");
    reveal_strlit("blocked_until_synced");
    reveal_strlit("blocked_until_classified");
    reveal_strlit("blocked_until_approved");
    reveal_strlit("blocked");
    reveal_strlit("sync_required");
    reveal_strlit("classification_required");
    reveal_strlit("approval_required");
    reveal_strlit("ready_for_human_execution_request");
    assert("ready_for_manual_handoff"@[0] == 'r');
    assert("no_cleanup_pending"@[0] == 'n');
    assert("blocked_until_synced"@[0] == 'b');
    assert("blocked_until_classified"@[0] == 'b');
    assert("blocked_until_approved"@[0] == 'b');
    assert("blocked"@[0] == 'b');
    assert("sync_required"@[0] == 's');
    assert("classification_required"@[0] == 'c');
    assert("approval_required"@[0] == 'a');
    assert("ready_for_human_execution_request"@[0] == 'r');
    let board = dashboard(build, request);
    assert(gate_status(board.status) == "ready_for_manual_handoff"@ ==> board.status
        == "ready_for_human_execution_request"@);
}

/// A larger limit lists the same work first and changes nothing else, and all of it is
/// listed up to the limit, which is at least one.
pub proof fn law_larger_limits_list_more_work(
    triage: DriftCleanupTriageReportView,
    path: Seq<char>,
    kind: Option<Seq<char>>,
    status_filter: Option<Seq<char>>,
    small: nat,
    large: nat,
)
    requires
        small <= large,
    ensures
        ({
            let a = worklist(triage, path, kind, status_filter, small);
            let b = worklist(triage, path, kind, status_filter, large);
            let most: nat = if small < 1 {
                1
            } else {
                small
            };
            &&& a.items.is_prefix_of(b.items)
            &&& a.returned_items == a.items.len()
            &&& a.returned_items == (if a.total_matching_items < most {
                a.total_matching_items
            } else {
                most
            })
            &&& a == (DriftCleanupWorklistReportView {
                limit: a.limit,
                returned_items: a.returned_items,
                items: a.items,
                ..b
            })
        }),
{
}

/// Where a request stands: it is blocked where something stands against it; else it is to
/// be synced, classified, approved, executed, or nothing is left to do, in that order.
pub proof fn law_where_a_request_stands(build: DriftCleanupBuildView, request: LoadedRequestView)
    ensures
        ({
            let d = dashboard(build, request);
            let behind = d.progress.stale_items > 0 || d.progress.missing_current > 0;
            let open = d.approval_summary.needs_cleanup > 0 || d.approval_summary.needs_approval
                > 0;
            let blocked = d.limitations.len() > 0 || d.progress.status == "blocked"@
                || d.approval_summary.status == "blocked"@ || d.execution_plan.status
                == "blocked"@;
            &&& d.status == "blocked"@ <==> blocked
            &&& d.status == "sync_required"@ <==> !blocked && behind
            &&& d.status == "classification_required"@ <==> !blocked && !behind
                && d.approval_summary.unknown > 0
            &&& d.status == "approval_required"@ <==> !blocked && !behind
                && d.approval_summary.unknown == 0 && open
            &&& d.status == "ready_for_human_execution_request"@ <==> !blocked && !behind
                && d.approval_summary.unknown == 0 && !open && d.execution_plan.ready > 0
            &&& d.status == "no_cleanup_pending"@ <==> !blocked && !behind
                && d.approval_summary.unknown == 0 && !open && d.execution_plan.ready == 0
            &&& d.ok <==> !blocked && !behind
            &&& d.progress == request_progress(build, request)
            &&& d.execution_plan == execution_plan(request)
            &&& d.approval_summary == approval_summary(execution_plan(request))
            &&& d.read_only
        }),
{
    let progress = request_progress(build, request);
    let plan = execution_plan(request);
    let approval = approval_summary(plan);
    let book = runbook(request);
    let limitations = progress.limitations + approval.limitations + plan.limitations + if plan.ready
        > 0 && book.status == "blocked"@ {
        book.limitations
    } else {
        Seq::empty()
    };
    law_sorted_set(limitations);
    if limitations.len() > 0 {
        assert(limitations.contains(limitations[0]));
        assert(sorted_set(limitations).contains(limitations[0]));
        assert(sorted_set(limitations).len() > 0);
    }
    lemma_dashboard_words();
}

proof fn lemma_dashboard_words()
    ensures
        "blocked"@.len() == 7,
        "sync_required"@.len() == 13,
        "classification_required"@.len() == 23,
        "approval_required"@.len() == 17,
        "ready_for_human_execution_request"@.len() == 33,
        "no_cleanup_pending"@.len() == 18,
        "ready_for_manual_handoff"@.len() == 24,
        "blocked_until_synced"@.len() == 20,
        "blocked_until_classified"@[0] == 'b' && "blocked_until_classified"@.len() == 24,
        "blocked_until_approved"@.len() == 22,
        "ready_for_manual_handoff"@[0] == 'r',
{
    reveal_strlit("blocked");
    reveal_strlit("sync_required");
    reveal_strlit("classification_required");
    reveal_strlit("approval_required");
    reveal_strlit("ready_for_human_execution_request");
    reveal_strlit("no_cleanup_pending");
    reveal_strlit("ready_for_manual_handoff");
    reveal_strlit("blocked_until_synced");
    reveal_strlit("blocked_until_classified");
    reveal_strlit("blocked_until_approved");
}

/// Whether execution can be asked for, from where the request stands: exactly where the
/// request is ready or nothing is pending.
pub proof fn law_when_the_gate_is_open(board: DriftCleanupDashboardReportView)
    ensures
        ({
            let g = execution_gate(board);
            &&& g.status == "ready_for_manual_handoff"@ <==> board.status
                == "ready_for_human_execution_request"@
            &&& g.status == "no_cleanup_pending"@ <==> board.status == "no_cleanup_pending"@
            &&& g.status == "blocked_until_synced"@ <==> board.status == "sync_required"@
            &&& g.status == "blocked_until_classified"@ <==> board.status
                == "classification_required"@
            &&& g.status == "blocked_until_approved"@ <==> board.status == "approval_required"@
            &&& g.ok <==> board.status == "ready_for_human_execution_request"@ || board.status
                == "no_cleanup_pending"@
            &&& g.unknown == board.approval_summary.unknown && g.ready == board.execution_plan.ready
                && g.blocked == board.execution_plan.blocked && g.stale_items
                == board.progress.stale_items && g.missing_current
                == board.progress.missing_current && g.approved == board.approval_summary.approved
                && g.needs_cleanup == board.approval_summary.needs_cleanup
            &&& g.limitations == board.limitations
        }),
{
    lemma_dashboard_words();
}

/// Four decisions can be taken on an item; the first two write the registry, and each
/// names what it needs. What holds data needs a snapshot and a restore drill to be cleaned
/// up.
pub proof fn law_which_decisions_can_be_taken(path: Seq<char>, item: DriftCleanupTriageItemView)
    ensures
        ({
            let o = worklist_item(path, item).decision_options;
            &&& o.len() == 4
            &&& o[0].action == "adopt"@ && o[1].action == "ignore"@ && o[2].action
                == "needs_cleanup"@ && o[3].action == "keep_unknown"@
            &&& o[0].writes_registry && o[1].writes_registry && !o[2].writes_registry
                && !o[3].writes_registry
            &&& forall|i: int| 0 <= i < 4 ==> (#[trigger] o[i]).requires_execute
            &&& o[0].required_fields.contains("service_id"@) && o[0].required_fields.contains(
                "reason"@,
            )
            &&& o[1].required_fields.contains("expires_at"@) && o[1].required_fields.contains(
                "reason"@,
            ) && o[1].required_fields.contains("owner"@)
            &&& o[2].required_fields.contains("rollback_plan"@) && o[2].required_fields.contains(
                "exact_resource_id"@,
            )
            &&& o[2].required_fields.contains("backup_snapshot_id"@) <==> item.data_risk is Some
            &&& o[2].required_fields.contains("restore_drill_id"@) <==> item.data_risk is Some
            &&& o[3].required_fields.len() == 0
        }),
{
    let o = worklist_item(path, item).decision_options;
    let data = item.data_risk is Some;
    assert(o[0].required_fields[0] == "service_id"@ && o[0].required_fields[1] == "reason"@);
    assert(o[1].required_fields[0] == "owner"@ && o[1].required_fields[1] == "reason"@
        && o[1].required_fields[2] == "expires_at"@);
    assert(o[2].required_fields == cleanup_fields(data));
    lemma_cleanup_fields(data);
}

proof fn lemma_cleanup_fields(data: bool)
    ensures
        cleanup_fields(data).contains("rollback_plan"@),
        cleanup_fields(data).contains("exact_resource_id"@),
        cleanup_fields(data).contains("backup_snapshot_id"@) <==> data,
        cleanup_fields(data).contains("restore_drill_id"@) <==> data,
{
    reveal_strlit("owner");
    reveal_strlit("reason");
    reveal_strlit("cleanup_strategy");
    reveal_strlit("exact_resource_id");
    reveal_strlit("maintenance_window");
    reveal_strlit("rollback_plan");
    reveal_strlit("approval_expires_at");
    reveal_strlit("backup_snapshot_id");
    reveal_strlit("restore_drill_id");
    let f = cleanup_fields(data);
    assert(f[3] == "exact_resource_id"@);
    assert(f[5] == "rollback_plan"@);
    if data {
        assert(f[7] == "backup_snapshot_id"@);
        assert(f[8] == "restore_drill_id"@);
    } else {
        assert(f.len() == 7);
        assert("owner"@[0] == 'o' && "reason"@[2] == 'a' && "cleanup_strategy"@[0] == 'c'
            && "exact_resource_id"@[0] == 'e' && "maintenance_window"@[0] == 'm'
            && "rollback_plan"@[1] == 'o' && "approval_expires_at"@[0] == 'a'
            && "backup_snapshot_id"@[0] == 'b' && "restore_drill_id"@[0] == 'r'
            && "restore_drill_id"@[1] == 'e' && "restore_drill_id"@[2] == 's');
        assert(f[0] == "owner"@ && f[1] == "reason"@ && f[2] == "cleanup_strategy"@ && f[4]
            == "maintenance_window"@ && f[6] == "approval_expires_at"@);
        assert forall|i: int| 0 <= i < f.len() implies #[trigger] f[i] != "backup_snapshot_id"@
            && f[i] != "restore_drill_id"@ by {
            assert(i == 0 || i == 1 || i == 2 || i == 3 || i == 4 || i == 5 || i == 6);
        }
    }
}

/// An item of a worklist is about one of the triage, and tells what that told.
pub proof fn law_worklist_items(path: Seq<char>, item: DriftCleanupTriageItemView)
    ensures
        ({
            let w = worklist_item(path, item);
            &&& w.request_id == item.request_id && w.kind == item.kind && w.target == item.target
                && w.approval_status == item.approval_status && w.risk == item.risk
            &&& w.current_candidate == item.current_candidate && w.data_risk == item.data_risk
                && w.public_bind == item.public_bind && w.running == item.running
            &&& w.required_evidence == item.required_evidence && w.blockers == item.blockers
        }),
{
}

/// What is in a worklist: the unknown items where these or all are asked for, and those
/// that need cleanup likewise, of the kind asked for.
pub proof fn law_what_a_worklist_holds(
    path: Seq<char>,
    items: Seq<DriftCleanupTriageItemView>,
    kind: Option<Seq<char>>,
    x: DriftCleanupWorklistItemView,
)
    ensures
        worklist_part(path, items, kind).contains(x) <==> exists|i: int|
            0 <= i < items.len() && (kind is None || kind->0 == items[i].kind) && x
                == worklist_item(path, #[trigger] items[i]),
{
    let f = |i: DriftCleanupTriageItemView|
        if kind is None || kind == Some(i.kind) {
            Some(worklist_item(path, i))
        } else {
            None
        };
    law_chosen(items, f, x);
    assert forall|i: int| 0 <= i < items.len() implies (f(#[trigger] items[i]) == Some(x) <==> (kind
        is None || kind->0 == items[i].kind) && x == worklist_item(path, items[i])) by {}
}

/// A worklist is blocked exactly where the triage is or has limits, or another status is
/// asked for; its items are sorted by urgency.
pub proof fn law_worklists(
    triage: DriftCleanupTriageReportView,
    path: Seq<char>,
    kind: Option<Seq<char>>,
    status_filter: Option<Seq<char>>,
    limit: nat,
    i: int,
    j: int,
)
    ensures
        ({
            let r = worklist(triage, path, kind, status_filter, limit);
            let known = r.filter_status == "all"@ || r.filter_status == "unknown"@
                || r.filter_status == "needs_cleanup"@;
            &&& r.ok <==> triage.limitations.len() == 0 && triage.status != "blocked"@ && known
            &&& r.status == "blocked"@ <==> !r.ok
            &&& r.status == "review_required"@ <==> r.ok && r.total_matching_items > 0
            &&& r.status == "empty"@ <==> r.ok && r.total_matching_items == 0
            &&& 0 <= i < j < r.items.len() ==> worklist_rank(r.items[i]) <= worklist_rank(
                r.items[j],
            )
            &&& r.filter_status == "unknown"@ && worklist_kind(kind) is None
                ==> r.total_matching_items == triage.unknown_items.len()
            &&& r.filter_status == "needs_cleanup"@ && worklist_kind(kind) is None
                ==> r.total_matching_items == triage.needs_cleanup_items.len()
            &&& r.filter_status == "all"@ && worklist_kind(kind) is None ==> r.total_matching_items
                == triage.unknown_items.len() + triage.needs_cleanup_items.len()
        }),
{
    let r = worklist(triage, path, kind, status_filter, limit);
    let status = worklist_status(status_filter);
    reveal_strlit("blocked");
    reveal_strlit("review_required");
    reveal_strlit("empty");
    reveal_strlit("all");
    reveal_strlit("unknown");
    reveal_strlit("needs_cleanup");
    assert("blocked"@.len() == 7 && "review_required"@.len() == 15 && "empty"@.len() == 5
        && "all"@.len() == 3 && "unknown"@.len() == 7 && "needs_cleanup"@.len() == 13);
    let s = (if status == "all"@ || status == "unknown"@ {
        worklist_part(path, triage.unknown_items, worklist_kind(kind))
    } else {
        Seq::empty()
    }) + (if status == "all"@ || status == "needs_cleanup"@ {
        worklist_part(path, triage.needs_cleanup_items, worklist_kind(kind))
    } else {
        Seq::empty()
    });
    let before = rank::<DriftCleanupWorklistItem>();
    lemma_sorted_by_keeps(s, before, |x: DriftCleanupWorklistItemView| true);
    if 0 <= i < j < r.items.len() {
        law_ranked(
            s,
            before,
            |x: DriftCleanupWorklistItemView| worklist_rank(x) as int,
            |x: DriftCleanupWorklistItemView| (x.kind, x.target),
            i,
            j,
        );
    }
    if worklist_kind(kind) is None {
        lemma_whole_part(path, triage.unknown_items);
        lemma_whole_part(path, triage.needs_cleanup_items);
    }
}

proof fn lemma_whole_part(path: Seq<char>, items: Seq<DriftCleanupTriageItemView>)
    ensures
        worklist_part(path, items, None).len() == items.len(),
    decreases items.len(),
{
    if items.len() > 0 {
        lemma_whole_part(path, items.drop_last());
    }
}

/// The urgency of an item: what needs cleanup before what is unknown; in each, first high
/// risks, then what holds data, then public listeners.
pub proof fn law_urgency(a: DriftCleanupWorklistItemView, b: DriftCleanupWorklistItemView)
    ensures
        a.approval_status == "needs_cleanup"@ && b.approval_status == "unknown"@ ==> worklist_rank(a)
            < worklist_rank(b),
        a.approval_status == "unknown"@ && b.approval_status != "unknown"@ && b.approval_status
            != "needs_cleanup"@ ==> worklist_rank(a) < worklist_rank(b),
        a.approval_status == b.approval_status && (a.approval_status == "unknown"@
            || a.approval_status == "needs_cleanup"@) ==> {
            &&& a.risk == "high"@ && b.risk != "high"@ ==> worklist_rank(a) < worklist_rank(b)
            &&& a.risk != "high"@ && b.risk != "high"@ && a.data_risk is Some && b.data_risk is None
                ==> worklist_rank(a) < worklist_rank(b)
            &&& a.risk != "high"@ && b.risk != "high"@ && a.data_risk is None && b.data_risk is None
                && a.public_bind == Some(true) && b.public_bind != Some(true) ==> worklist_rank(a)
                < worklist_rank(b)
        },
{
    reveal_strlit("unknown");
    reveal_strlit("needs_cleanup");
    assert("unknown"@.len() == 7 && "needs_cleanup"@.len() == 13);
}

/// The status that a worklist is limited to: what was asked for, trimmed and in small
/// letters, or all.
pub proof fn law_worklist_filters(filter: Option<Seq<char>>)
    ensures
        filter is Some && trimmed(filter->0).len() > 0 ==> worklist_status(filter) == lowered(
            trimmed(filter->0),
        ) && worklist_kind(filter) == Some(trimmed(filter->0)),
        filter is None || trimmed(filter->0).len() == 0 ==> worklist_status(filter) == "all"@
            && worklist_kind(filter) is None,
{
    reveal_strlit("all");
    let word = "all"@;
    assert(lowered(word) =~= word);
}

} // verus!
