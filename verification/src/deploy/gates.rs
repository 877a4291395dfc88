//! Whether a deploy can go ahead.

use vstd::prelude::*;
use crate::deploy::operations::{
    deploy_operations, deploy_steps, needs_snapshot, planned_steps, snapshot_needed,
};
use crate::deploy::types::{
    DeployApprovalGate, DeployApprovalGateView, DeployExecutionReport, DeployExecutionReportView,
    DeployOperation, DeployOperationView, DeployOptions, DeployOptionsView, DeployPlan,
    DeployPlanView, DeployPreflightGate, DeployPreflightGateView, DeployReport, DeployReportView,
    DeploySnapshotGate, DeploySnapshotGateView, DeployStatus, PreflightReport, PreflightReportView,
    PreflightStatus, SnapshotCheck, SnapshotCheckView,
};
use crate::each::{choose_each, find_first, map_each};
use crate::list::{
    all_labelled, chosen, extend, first_where, includes, labelled, law_chosen, law_first_where,
    note, note_all, note_some, noted, put,
};
use crate::number::{bool_text, bool_word, count_text, decimal, decimal_text};
use crate::text::{
    as_text, cat2, cat3, cat4, cat6, cat7, is_text, join, joined, or_text, same, text_or,
};

verus! {

broadcast use {vstd::seq::group_seq_axioms, vstd::string::group_string_axioms};

/// The scope of the approval that executing a deploy needs.
pub open spec fn deploy_execution_scope() -> Seq<char> {
    "deploy_execution"@
}

/// The exit code for a status.
pub open spec fn exit_code(status: DeployStatus) -> i32 {
    match status {
        DeployStatus::Ready => 0,
        DeployStatus::NeedsApproval => 3,
        DeployStatus::Blocked => 2,
    }
}

/// The exit code for a status.
pub fn deploy_exit_code(status: DeployStatus) -> (r: i32)
    ensures
        r == exit_code(status),
{
    match status {
        DeployStatus::Ready => 0,
        DeployStatus::NeedsApproval => 3,
        DeployStatus::Blocked => 2,
    }
}

/// The decision for a status.
pub open spec fn decision(status: DeployStatus) -> Seq<char> {
    match status {
        DeployStatus::Ready => "allow"@,
        DeployStatus::NeedsApproval => "require_approval"@,
        DeployStatus::Blocked => "deny"@,
    }
}

/// The decision for a status.
pub fn deploy_decision(status: DeployStatus) -> (r: &'static str)
    ensures
        r@ == decision(status),
{
    match status {
        DeployStatus::Ready => "allow",
        DeployStatus::NeedsApproval => "require_approval",
        DeployStatus::Blocked => "deny",
    }
}

/// The word for a status.
pub open spec fn status_word(status: DeployStatus) -> Seq<char> {
    match status {
        DeployStatus::Ready => "Ready"@,
        DeployStatus::NeedsApproval => "NeedsApproval"@,
        DeployStatus::Blocked => "Blocked"@,
    }
}

/// The word for a status.
pub fn status_text(status: DeployStatus) -> (r: &'static str)
    ensures
        r@ == status_word(status),
{
    match status {
        DeployStatus::Ready => "Ready",
        DeployStatus::NeedsApproval => "NeedsApproval",
        DeployStatus::Blocked => "Blocked",
    }
}

/// The word for what a check says.
pub open spec fn preflight_word(status: PreflightStatus) -> Seq<char> {
    match status {
        PreflightStatus::Passed => "Passed"@,
        PreflightStatus::NeedsApproval => "NeedsApproval"@,
        PreflightStatus::Blocked => "Blocked"@,
    }
}

/// The word for what a check says.
pub fn preflight_text(status: PreflightStatus) -> (r: &'static str)
    ensures
        r@ == preflight_word(status),
{
    match status {
        PreflightStatus::Passed => "Passed",
        PreflightStatus::NeedsApproval => "NeedsApproval",
        PreflightStatus::Blocked => "Blocked",
    }
}

/// What a plan writes down for what a check says.
pub open spec fn preflight_label(status: PreflightStatus) -> Seq<char> {
    match status {
        PreflightStatus::Passed => "passed"@,
        PreflightStatus::NeedsApproval => "needs_approval"@,
        PreflightStatus::Blocked => "blocked"@,
    }
}

/// What a plan writes down for what a check says.
pub fn preflight_status_label(status: PreflightStatus) -> (r: &'static str)
    ensures
        r@ == preflight_label(status),
{
    match status {
        PreflightStatus::Passed => "passed",
        PreflightStatus::NeedsApproval => "needs_approval",
        PreflightStatus::Blocked => "blocked",
    }
}

/// Without a dry run, a deploy is refused here.
pub fn ensure_dry_run(dry_run: bool) -> (r: Result<(), String>)
    ensures
        r is Ok <==> dry_run,
        r is Err ==> r->Err_0@
            == "deploy execution requires --execute and --approval-token; rerun with --dry-run to inspect typed operations"@,
{
    if !dry_run {
        return Err(
            "deploy execution requires --execute and --approval-token; rerun with --dry-run to inspect typed operations".to_string(),
        );
    }
    Ok(())
}

/// The token that approves a deploy.
pub open spec fn deploy_token(plan_id: Seq<char>, snapshot_id: Option<Seq<char>>) -> Seq<char> {
    match snapshot_id {
        Some(id) => "deploy:"@ + plan_id + ":"@ + id,
        None => "deploy:"@ + plan_id,
    }
}

/// The token that approves a deploy.
pub fn expected_deploy_approval_token(plan: &DeployPlan, snapshot_id: Option<&str>) -> (r: String)
    ensures
        r@ == deploy_token(plan.deep_view().id, snapshot_id.deep_view()),
{
    match snapshot_id {
        Some(id) => cat4("deploy:", &plan.id, ":", id),
        None => cat2("deploy:", &plan.id),
    }
}

/// The token that approves going on with a deploy.
pub open spec fn resume_token(plan_id: Seq<char>, journal_id: Seq<char>) -> Seq<char> {
    "deploy-resume:"@ + plan_id + ":"@ + journal_id
}

/// The token that approves going on with a deploy.
pub fn expected_deploy_resume_approval_token(plan: &DeployPlan, journal_id: &str) -> (r: String)
    ensures
        r@ == resume_token(plan.deep_view().id, journal_id@),
{
    cat4("deploy-resume:", &plan.id, ":", journal_id)
}

/// The scope of the approval that going on with a deploy needs.
pub open spec fn resume_scope(journal_id: Seq<char>) -> Seq<char> {
    "deploy_resume"@ + "."@ + journal_id
}

/// The scope of the approval that going on with a deploy needs.
pub fn expected_deploy_resume_approval_scope(journal_id: &str) -> (r: String)
    ensures
        r@ == resume_scope(journal_id@),
{
    cat3("deploy_resume", ".", journal_id)
}

// ---------------------------------------------------------------------------
// Approvals
// ---------------------------------------------------------------------------

/// The scopes that are required and not approved.
pub open spec fn missing_scopes(
    required: Seq<Seq<char>>,
    approved: Seq<Seq<char>>,
) -> Seq<Seq<char>> {
    chosen(
        required,
        |scope: Seq<char>|
            if approved.contains(scope) {
                None
            } else {
                Some(scope)
            },
    )
}

/// Whether a plan has the approvals that it needs. There is no gate where it needs
/// none.
pub open spec fn approval_outcome(
    required: Seq<Seq<char>>,
    approved: Seq<Seq<char>>,
) -> Option<DeployApprovalGateView> {
    if required.len() == 0 {
        None
    } else {
        let missing = missing_scopes(required, approved);
        Some(
            DeployApprovalGateView { required, approved, missing, satisfied: missing.len() == 0 },
        )
    }
}

/// Whether a plan has the approvals that it needs.
pub fn approval_gate(approved: &Vec<String>, required: &Vec<String>) -> (r: Option<
    DeployApprovalGate,
>)
    ensures
        r.deep_view() == approval_outcome(required.deep_view(), approved.deep_view()),
{
    proof {
        assert(required.deep_view().len() == required@.len());
    }
    if required.len() == 0 {
        return None;
    }
    let missing = choose_each(
        required,
        |scope: &String| -> (r: Option<String>)
            ensures
                r.deep_view() == (if approved.deep_view().contains(scope@) {
                    None
                } else {
                    Some(scope@)
                })
            {
                if includes(approved, scope) {
                    None
                } else {
                    Some(scope.clone())
                }
            },
        Ghost(
            |scope: Seq<char>|
                if approved.deep_view().contains(scope) {
                    None
                } else {
                    Some(scope)
                },
        ),
    );
    proof {
        assert(missing.deep_view().len() == missing@.len());
    }
    let satisfied = missing.len() == 0;
    Some(
        DeployApprovalGate {
            required: required.clone(),
            approved: approved.clone(),
            missing,
            satisfied,
        },
    )
}

/// Whether a gate is open.
pub open spec fn gate_satisfied(gate: Option<DeployApprovalGateView>) -> bool {
    gate is Some && gate->0.satisfied
}

/// Whether a gate is open.
pub fn is_satisfied(gate: &Option<DeployApprovalGate>) -> (r: bool)
    ensures
        r == gate_satisfied(gate.deep_view()),
{
    match gate {
        Some(g) => g.satisfied,
        None => false,
    }
}

// ---------------------------------------------------------------------------
// Snapshots
// ---------------------------------------------------------------------------

/// A gate for a snapshot.
pub open spec fn snapshot_state(
    id: Seq<char>,
    status: Seq<char>,
    reason: Option<Seq<char>>,
) -> DeploySnapshotGateView {
    DeploySnapshotGateView { required: true, provided_id: Some(id), status, reason }
}

/// A gate for a snapshot.
pub fn make_snapshot_gate(id: &str, status: &str, reason: Option<String>) -> (r: DeploySnapshotGate)
    ensures
        r.deep_view() == snapshot_state(id@, status@, reason.deep_view()),
{
    DeploySnapshotGate {
        required: true,
        provided_id: Some(id.to_string()),
        status: status.to_string(),
        reason,
    }
}

/// Whether a snapshot was taken in a state that can be deployed.
pub open spec fn deployable(check: SnapshotCheckView, satisfied: bool) -> bool {
    check.status != "failed"@ && (check.preflight_status == "passed"@ || check.preflight_status
        == "needs_approval"@ && satisfied)
}

/// Whether a plan has the snapshot that it needs, and the refusal where it has not.
pub open spec fn snapshot_outcome(
    plan: DeployPlanView,
    snapshot_id: Option<Seq<char>>,
    check: SnapshotCheckView,
    satisfied: bool,
) -> (Option<DeploySnapshotGateView>, Option<Seq<char>>) {
    if !needs_snapshot(plan) {
        (None, None)
    } else if snapshot_id is None {
        (
            Some(
                DeploySnapshotGateView {
                    required: true,
                    provided_id: None,
                    status: "missing"@,
                    reason: Some("provide a matching snapshot id created by opsctl snapshot"@),
                },
            ),
            Some("snapshot_required is true but no --snapshot id was provided"@),
        )
    } else {
        let id = snapshot_id->0;
        if check.verification_error is Some {
            (
                Some(snapshot_state(id, "invalid"@, check.verification_error)),
                Some("snapshot "@ + id + " could not be verified"@),
            )
        } else if !check.ok {
            (
                Some(
                    snapshot_state(
                        id,
                        "invalid"@,
                        Some(
                            decimal(check.artifacts_failed)
                                + " snapshot artifact(s) failed checksum verification"@,
                        ),
                    ),
                ),
                Some("snapshot "@ + id + " artifact verification failed"@),
            )
        } else if check.plan_id != plan.id {
            (
                Some(
                    snapshot_state(
                        id,
                        "mismatched_plan"@,
                        Some("snapshot plan_id must match deploy plan id"@),
                    ),
                ),
                Some("snapshot "@ + id + " belongs to plan "@ + check.plan_id + ", not "@ + plan.id),
            )
        } else if check.archive_error is Some {
            (
                Some(snapshot_state(id, "invalid"@, check.archive_error)),
                Some("snapshot "@ + id + " archive could not be inspected"@),
            )
        } else if !check.archive_ok {
            (
                Some(
                    snapshot_state(
                        id,
                        "invalid"@,
                        Some(
                            decimal(check.archive_findings)
                                + " snapshot archive finding(s) must be fixed before deploy"@,
                        ),
                    ),
                ),
                Some("snapshot "@ + id + " archive inspection failed"@),
            )
        } else if !deployable(check, satisfied) {
            (
                Some(
                    snapshot_state(
                        id,
                        "not_deployable"@,
                        Some(
                            "snapshot status is "@ + check.status + ", preflight_status is "@
                                + check.preflight_status,
                        ),
                    ),
                ),
                Some("snapshot "@ + id + " is not deployable for the current approval state"@),
            )
        } else {
            (Some(snapshot_state(id, "verified"@, None)), None)
        }
    }
}

/// Whether a plan has the snapshot that it needs, and the refusal where it has not.
/// The check is that of the snapshot with this id.
pub fn snapshot_gate(
    plan: &DeployPlan,
    snapshot_id: Option<&str>,
    check: &SnapshotCheck,
    satisfied: bool,
) -> (r: (Option<DeploySnapshotGate>, Option<String>))
    ensures
        (r.0.deep_view(), r.1.deep_view()) == snapshot_outcome(
            plan.deep_view(),
            snapshot_id.deep_view(),
            check.deep_view(),
            satisfied,
        ),
{
    if !snapshot_needed(plan) {
        return (None, None);
    }
    let id = match snapshot_id {
        Some(id) => id,
        None => {
            return (
                Some(
                    DeploySnapshotGate {
                        required: true,
                        provided_id: None,
                        status: "missing".to_string(),
                        reason: Some(
                            "provide a matching snapshot id created by opsctl snapshot".to_string(),
                        ),
                    },
                ),
                Some("snapshot_required is true but no --snapshot id was provided".to_string()),
            );
        },
    };
    if check.verification_error.is_some() {
        return (
            Some(make_snapshot_gate(id, "invalid", check.verification_error.clone())),
            Some(cat3("snapshot ", id, " could not be verified")),
        );
    }
    if !check.ok {
        return (
            Some(
                make_snapshot_gate(
                    id,
                    "invalid",
                    Some(
                        cat2(
                            &count_text(check.artifacts_failed),
                            " snapshot artifact(s) failed checksum verification",
                        ),
                    ),
                ),
            ),
            Some(cat3("snapshot ", id, " artifact verification failed")),
        );
    }
    if !same(&check.plan_id, &plan.id) {
        return (
            Some(
                make_snapshot_gate(
                    id,
                    "mismatched_plan",
                    Some("snapshot plan_id must match deploy plan id".to_string()),
                ),
            ),
            Some(cat6("snapshot ", id, " belongs to plan ", &check.plan_id, ", not ", &plan.id)),
        );
    }
    if check.archive_error.is_some() {
        return (
            Some(make_snapshot_gate(id, "invalid", check.archive_error.clone())),
            Some(cat3("snapshot ", id, " archive could not be inspected")),
        );
    }
    if !check.archive_ok {
        return (
            Some(
                make_snapshot_gate(
                    id,
                    "invalid",
                    Some(
                        cat2(
                            &count_text(check.archive_findings),
                            " snapshot archive finding(s) must be fixed before deploy",
                        ),
                    ),
                ),
            ),
            Some(cat3("snapshot ", id, " archive inspection failed")),
        );
    }
    let allowed = same(&check.preflight_status, "passed") || (same(
        &check.preflight_status,
        "needs_approval",
    ) && satisfied);
    if same(&check.status, "failed") || !allowed {
        return (
            Some(
                make_snapshot_gate(
                    id,
                    "not_deployable",
                    Some(
                        cat4(
                            "snapshot status is ",
                            &check.status,
                            ", preflight_status is ",
                            &check.preflight_status,
                        ),
                    ),
                ),
            ),
            Some(cat3("snapshot ", id, " is not deployable for the current approval state")),
        );
    }
    (Some(make_snapshot_gate(id, "verified", None)), None)
}

// ---------------------------------------------------------------------------
// The plan as a whole
// ---------------------------------------------------------------------------

/// Whether a deploy can go ahead.
pub open spec fn overall_status(
    preflight: PreflightStatus,
    stale: bool,
    approval: Option<DeployApprovalGateView>,
    snapshot: Option<DeploySnapshotGateView>,
    refusals: Seq<Seq<char>>,
) -> DeployStatus {
    if stale || preflight == PreflightStatus::Blocked {
        DeployStatus::Blocked
    } else if snapshot is Some && snapshot->0.status != "verified"@ {
        DeployStatus::Blocked
    } else if preflight == PreflightStatus::NeedsApproval && !gate_satisfied(approval) {
        DeployStatus::NeedsApproval
    } else if refusals.len() > 0 {
        DeployStatus::NeedsApproval
    } else {
        DeployStatus::Ready
    }
}

/// Whether a deploy can go ahead.
pub fn deploy_status(
    preflight: PreflightStatus,
    stale: bool,
    approval: &Option<DeployApprovalGate>,
    snapshot: &Option<DeploySnapshotGate>,
    refusals: &Vec<String>,
) -> (r: DeployStatus)
    ensures
        r == overall_status(
            preflight,
            stale,
            approval.deep_view(),
            snapshot.deep_view(),
            refusals.deep_view(),
        ),
{
    if stale || preflight == PreflightStatus::Blocked {
        return DeployStatus::Blocked;
    }
    if let Some(gate) = snapshot {
        if !same(&gate.status, "verified") {
            return DeployStatus::Blocked;
        }
    }
    if preflight == PreflightStatus::NeedsApproval && !is_satisfied(approval) {
        return DeployStatus::NeedsApproval;
    }
    proof {
        assert(refusals.deep_view().len() == refusals@.len());
    }
    if refusals.len() > 0 {
        return DeployStatus::NeedsApproval;
    }
    DeployStatus::Ready
}

/// What a plan says about an earlier check of it.
pub open spec fn embedded_status(plan: DeployPlanView) -> Option<Seq<char>> {
    match plan.preflight {
        Some(state) => state.status,
        None => None,
    }
}

/// Whether a plan says something else about an earlier check than a fresh one does.
pub open spec fn is_stale(embedded: Option<Seq<char>>, fresh: PreflightStatus) -> bool {
    (embedded == Some("passed"@) || embedded == Some("needs_approval"@) || embedded == Some(
        "blocked"@,
    )) && embedded != Some(preflight_label(fresh))
}

/// Whether a plan says something else about an earlier check than a fresh one does.
pub fn stale_result(embedded: Option<&str>, fresh: PreflightStatus) -> (r: bool)
    ensures
        r == is_stale(embedded.deep_view(), fresh),
{
    (is_text(embedded, "passed") || is_text(embedded, "needs_approval") || is_text(
        embedded,
        "blocked",
    )) && !is_text(embedded, preflight_status_label(fresh))
}

/// Why a plan cannot go ahead.
pub open spec fn plan_refusals(
    stale: bool,
    preflight: PreflightStatus,
    satisfied: bool,
    snapshot: Option<Seq<char>>,
) -> Seq<Seq<char>> {
    noted(stale, "embedded preflight status does not match a fresh registry check"@) + noted(
        preflight == PreflightStatus::Blocked,
        "fresh preflight is blocked"@,
    ) + noted(
        preflight == PreflightStatus::NeedsApproval && !satisfied,
        "fresh preflight requires valid approval records for all required scopes"@,
    ) + labelled(""@, snapshot)
}

/// Why a plan cannot go ahead.
pub fn list_refusals(
    stale: bool,
    preflight: PreflightStatus,
    satisfied: bool,
    snapshot: Option<&str>,
) -> (r: Vec<String>)
    ensures
        r.deep_view() == plan_refusals(stale, preflight, satisfied, snapshot.deep_view()),
{
    let mut list: Vec<String> = Vec::new();
    note(&mut list, stale, "embedded preflight status does not match a fresh registry check");
    note(&mut list, preflight == PreflightStatus::Blocked, "fresh preflight is blocked");
    note(
        &mut list,
        preflight == PreflightStatus::NeedsApproval && !satisfied,
        "fresh preflight requires valid approval records for all required scopes",
    );
    note_some(&mut list, "", snapshot);
    proof {
        assert(list.deep_view() =~= plan_refusals(
            stale,
            preflight,
            satisfied,
            snapshot.deep_view(),
        ));
    }
    list
}

/// Whether a plan can be deployed, and how.
pub open spec fn deploy_report(
    options: DeployOptionsView,
    preflight: PreflightReportView,
    check: SnapshotCheckView,
) -> DeployReportView {
    let plan = options.plan;
    let embedded = embedded_status(plan);
    let stale = is_stale(embedded, preflight.status);
    let approval = approval_outcome(preflight.approvals_required, options.approved);
    let satisfied = gate_satisfied(approval);
    let snapshot = snapshot_outcome(plan, options.snapshot_id, check, satisfied);
    let refusals = plan_refusals(stale, preflight.status, satisfied, snapshot.1);
    let status = overall_status(preflight.status, stale, approval, snapshot.0, refusals);
    DeployReportView {
        plan_id: plan.id,
        dry_run: options.dry_run,
        status,
        execution_approval_token: if status == DeployStatus::Ready {
            Some(deploy_token(plan.id, options.snapshot_id))
        } else {
            None
        },
        execution_approval_scope: if status == DeployStatus::Ready {
            Some(deploy_execution_scope())
        } else {
            None
        },
        preflight: DeployPreflightGateView {
            fresh_status: preflight.status,
            embedded_status: embedded,
            stale_embedded_result: stale,
            report: preflight,
        },
        approval,
        snapshot: snapshot.0,
        operations: deploy_steps(plan),
        execution: None,
        approvals_required: preflight.approvals_required,
        refusals,
    }
}

/// Whether a plan can be deployed, and how. The fresh check of the plan is given,
/// and the check of the snapshot that is named.
pub fn plan_deploy(options: &DeployOptions<'_>, preflight: &PreflightReport, check: &SnapshotCheck)
    -> (r: DeployReport)
    requires
        planned_steps(options.deep_view().plan).len() <= u32::MAX,
    ensures
        r.deep_view() == deploy_report(
            options.deep_view(),
            preflight.deep_view(),
            check.deep_view(),
        ),
{
    let plan = options.plan;
    let embedded = match &plan.preflight {
        Some(state) => state.status.clone(),
        None => None,
    };
    let stale = stale_result(as_text(&embedded), preflight.status);
    let approval = approval_gate(options.approved, &preflight.approvals_required);
    let satisfied = is_satisfied(&approval);
    let (snapshot, refusal) = snapshot_gate(plan, options.snapshot_id, check, satisfied);
    let refusals = list_refusals(stale, preflight.status, satisfied, as_text(&refusal));
    let status = deploy_status(preflight.status, stale, &approval, &snapshot, &refusals);
    let ready = status == DeployStatus::Ready;
    let token = if ready {
        Some(expected_deploy_approval_token(plan, options.snapshot_id))
    } else {
        None
    };
    let scope = if ready {
        Some("deploy_execution".to_string())
    } else {
        None
    };
    DeployReport {
        plan_id: plan.id.clone(),
        dry_run: options.dry_run,
        status,
        execution_approval_token: token,
        execution_approval_scope: scope,
        preflight: DeployPreflightGate {
            fresh_status: preflight.status,
            embedded_status: embedded,
            stale_embedded_result: stale,
            report: preflight.clone(),
        },
        approval,
        snapshot,
        operations: deploy_operations(plan),
        execution: None,
        approvals_required: preflight.approvals_required.clone(),
        refusals,
    }
}

// ---------------------------------------------------------------------------
// Executing a deploy
// ---------------------------------------------------------------------------

/// What executing a deploy is asked for.
#[derive(Debug)]
pub struct DeployExecutionOptions<'a> {
    pub plan: &'a DeployPlan,
    pub snapshot_id: Option<&'a str>,
    /// The scopes that are approved for the plan.
    pub approved: &'a Vec<String>,
    pub approval_token: &'a str,
    /// The one step to take; all of them where there is none.
    pub operation_order: Option<u32>,
}

/// View of [`DeployExecutionOptions`].
#[verifier::ext_equal]
pub struct DeployExecutionOptionsView {
    pub plan: DeployPlanView,
    pub snapshot_id: Option<Seq<char>>,
    pub approved: Seq<Seq<char>>,
    pub approval_token: Seq<char>,
    pub operation_order: Option<u32>,
}

impl<'a> DeepView for DeployExecutionOptions<'a> {
    type V = DeployExecutionOptionsView;

    open spec fn deep_view(&self) -> DeployExecutionOptionsView {
        DeployExecutionOptionsView {
            plan: self.plan.deep_view(),
            snapshot_id: self.snapshot_id.deep_view(),
            approved: self.approved.deep_view(),
            approval_token: self.approval_token.deep_view(),
            operation_order: self.operation_order.deep_view(),
        }
    }
}

/// A deploy that may be executed, and the steps to take.
#[derive(Debug)]
pub struct DeployExecutionPlan {
    pub report: DeployReport,
    pub operations: Vec<DeployOperation>,
}

/// View of [`DeployExecutionPlan`].
#[verifier::ext_equal]
pub struct DeployExecutionPlanView {
    pub report: DeployReportView,
    pub operations: Seq<DeployOperationView>,
}

impl DeepView for DeployExecutionPlan {
    type V = DeployExecutionPlanView;

    open spec fn deep_view(&self) -> DeployExecutionPlanView {
        DeployExecutionPlanView {
            report: self.report.deep_view(),
            operations: self.operations.deep_view(),
        }
    }
}

/// The report for a deploy that is to be executed.
pub open spec fn execution_report(
    options: DeployExecutionOptionsView,
    preflight: PreflightReportView,
    check: SnapshotCheckView,
) -> DeployReportView {
    deploy_report(
        DeployOptionsView {
            plan: options.plan,
            dry_run: false,
            snapshot_id: options.snapshot_id,
            approved: options.approved,
        },
        preflight,
        check,
    )
}

/// The steps that are to be taken: the one that is asked for, or all.
pub open spec fn selected_steps(
    operations: Seq<DeployOperationView>,
    order: Option<u32>,
) -> Seq<DeployOperationView> {
    chosen(
        operations,
        |o: DeployOperationView|
            if order is None || o.order == order->0 {
                Some(o)
            } else {
                None
            },
    )
}

/// The steps that are to be taken.
pub fn select_operations(operations: &Vec<DeployOperation>, order: Option<u32>) -> (r: Vec<
    DeployOperation,
>)
    ensures
        r.deep_view() == selected_steps(operations.deep_view(), order),
{
    choose_each(
        operations,
        |o: &DeployOperation| -> (r: Option<DeployOperation>)
            ensures
                r.deep_view() == (if order is None || o.deep_view().order == order->0 {
                    Some(o.deep_view())
                } else {
                    None
                })
            {
                let wanted = match order {
                    Some(n) => o.order == n,
                    None => true,
                };
                if wanted {
                    Some(o.clone())
                } else {
                    None
                }
            },
        Ghost(
            |o: DeployOperationView|
                if order is None || o.order == order->0 {
                    Some(o)
                } else {
                    None
                },
        ),
    )
}

/// Whether the one step that is asked for is the reload of Caddy.
pub open spec fn lone_reload(operations: Seq<DeployOperationView>, order: Option<u32>) -> bool {
    match order {
        Some(n) => match first_where(operations, |o: DeployOperationView| o.order == n) {
            Some(o) => o.kind == "ReloadCaddy"@,
            None => false,
        },
        None => false,
    }
}

/// Whether the one step that is asked for is the reload of Caddy.
pub fn is_lone_reload(operations: &Vec<DeployOperation>, order: Option<u32>) -> (r: bool)
    ensures
        r == lone_reload(operations.deep_view(), order),
{
    match order {
        Some(n) => match find_first(
            operations,
            |o: &DeployOperation| -> (b: bool)
                ensures
                    b == (o.deep_view().order == n)
                { o.order == n },
            Ghost(|o: DeployOperationView| o.order == n),
        ) {
            Some(o) => same(&o.kind, "ReloadCaddy"),
            None => false,
        },
        None => false,
    }
}

/// A step's number as it is written for debugging.
pub open spec fn debug_order(order: Option<u32>) -> Seq<char> {
    match order {
        Some(n) => "Some("@ + decimal(n as nat) + ")"@,
        None => "None"@,
    }
}

/// A step's number as it is written for debugging.
pub fn debug_order_text(order: Option<u32>) -> (r: String)
    ensures
        r@ == debug_order(order),
{
    match order {
        Some(n) => cat3("Some(", &decimal_text(n as u64), ")"),
        None => "None".to_string(),
    }
}

/// Why a deploy is not executed.
pub open spec fn execution_refusal(
    report: DeployReportView,
    options: DeployExecutionOptionsView,
) -> Option<Seq<char>> {
    if report.status != DeployStatus::Ready {
        Some(
            "deploy plan is not ready for execution; current status is "@ + status_word(
                report.status,
            ),
        )
    } else if !options.approved.contains(deploy_execution_scope()) {
        Some(
            "deploy execution requires an approved approval record with scope "@
                + deploy_execution_scope(),
        )
    } else if options.approval_token != deploy_token(options.plan.id, options.snapshot_id) {
        Some(
            "invalid deploy approval token; rerun deploy --dry-run and use the printed execution_approval_token"@,
        )
    } else if lone_reload(report.operations, options.operation_order) {
        Some("ReloadCaddy requires full deploy execution after ValidateCaddy succeeds"@)
    } else if selected_steps(report.operations, options.operation_order).len() == 0 {
        Some("deploy operation not found: "@ + debug_order(options.operation_order))
    } else {
        None
    }
}

/// Decides whether a deploy is executed, and with which steps; an error says why
/// not.
pub fn execute_deploy(
    options: &DeployExecutionOptions<'_>,
    preflight: &PreflightReport,
    check: &SnapshotCheck,
) -> (r: Result<DeployExecutionPlan, String>)
    requires
        planned_steps(options.deep_view().plan).len() <= u32::MAX,
    ensures
        ({
            let report = execution_report(
                options.deep_view(),
                preflight.deep_view(),
                check.deep_view(),
            );
            match execution_refusal(report, options.deep_view()) {
                Some(why) => r is Err && r->Err_0@ == why,
                None => r is Ok && r->Ok_0.deep_view() == (DeployExecutionPlanView {
                    report,
                    operations: selected_steps(
                        report.operations,
                        options.deep_view().operation_order,
                    ),
                }),
            }
        }),
{
    let report = plan_deploy(
        &DeployOptions {
            plan: options.plan,
            dry_run: false,
            snapshot_id: options.snapshot_id,
            approved: options.approved,
        },
        preflight,
        check,
    );
    if report.status != DeployStatus::Ready {
        return Err(
            cat2(
                "deploy plan is not ready for execution; current status is ",
                status_text(report.status),
            ),
        );
    }
    if !includes(options.approved, "deploy_execution") {
        return Err(
            cat2(
                "deploy execution requires an approved approval record with scope ",
                "deploy_execution",
            ),
        );
    }
    let expected = expected_deploy_approval_token(options.plan, options.snapshot_id);
    if !same(options.approval_token, &expected) {
        return Err(
            "invalid deploy approval token; rerun deploy --dry-run and use the printed execution_approval_token".to_string(),
        );
    }
    if is_lone_reload(&report.operations, options.operation_order) {
        return Err(
            "ReloadCaddy requires full deploy execution after ValidateCaddy succeeds".to_string(),
        );
    }
    let operations = select_operations(&report.operations, options.operation_order);
    proof {
        assert(operations.deep_view().len() == operations@.len());
    }
    if operations.len() == 0 {
        return Err(
            cat2("deploy operation not found: ", &debug_order_text(options.operation_order)),
        );
    }
    Ok(DeployExecutionPlan { report, operations })
}

/// The report with what came of the deploy.
pub open spec fn executed_report(
    report: DeployReportView,
    execution: DeployExecutionReportView,
) -> DeployReportView {
    DeployReportView {
        execution: Some(execution),
        status: if execution.status == "success"@ {
            DeployStatus::Ready
        } else {
            DeployStatus::Blocked
        },
        dry_run: false,
        ..report
    }
}

/// Adds what came of the deploy to its report.
pub fn finish_deploy(report: DeployReport, execution: DeployExecutionReport) -> (r: DeployReport)
    ensures
        r.deep_view() == executed_report(report.deep_view(), execution.deep_view()),
{
    let mut r = report;
    r.status = if same(&execution.status, "success") {
        DeployStatus::Ready
    } else {
        DeployStatus::Blocked
    };
    r.execution = Some(execution);
    r.dry_run = false;
    r
}

// ---------------------------------------------------------------------------
// The report as text
// ---------------------------------------------------------------------------

/// A step in a line.
pub open spec fn step_line(o: DeployOperationView) -> Seq<char> {
    decimal(o.order as nat) + "\t"@ + o.kind + "\t"@ + o.target + "\tprivileged="@ + bool_word(
        o.requires_privilege,
    )
}

/// The head of a report.
pub open spec fn report_head(report: DeployReportView) -> Seq<Seq<char>> {
    Seq::<Seq<char>>::empty().push("plan: "@ + report.plan_id).push(
        "status: "@ + status_word(report.status),
    ).push("preflight: "@ + preflight_word(report.preflight.fresh_status)).push(
        "operations: "@ + decimal(report.operations.len()),
    )
}

/// What a report says about the snapshot.
pub open spec fn snapshot_report_lines(snapshot: Option<DeploySnapshotGateView>) -> Seq<Seq<char>> {
    match snapshot {
        Some(gate) => Seq::<Seq<char>>::empty().push(
            "snapshot: "@ + text_or(gate.provided_id, "missing"@),
        ).push("snapshot_status: "@ + gate.status),
        None => Seq::empty(),
    }
}

/// What a report says about the execution.
pub open spec fn execution_lines(execution: Option<DeployExecutionReportView>) -> Seq<Seq<char>> {
    match execution {
        Some(e) => Seq::<Seq<char>>::empty().push("execution: "@ + e.status).push(
            "journal: "@ + e.journal_path,
        ),
        None => Seq::empty(),
    }
}

/// The lines of a report.
pub open spec fn report_lines(report: DeployReportView) -> Seq<Seq<char>> {
    report_head(report) + snapshot_report_lines(report.snapshot) + labelled(
        "execution_approval_token: "@,
        report.execution_approval_token,
    ) + execution_lines(report.execution) + all_labelled("refusal: "@, report.refusals)
        + report.operations.map_values(|o: DeployOperationView| step_line(o))
}

/// A report as text.
pub fn report_text(report: &DeployReport) -> (r: String)
    ensures
        r@ == joined(report_lines(report.deep_view()), "\n"@),
{
    let mut list: Vec<String> = Vec::new();
    proof {
        assert(list.deep_view() =~= Seq::<Seq<char>>::empty());
        assert(report.operations.deep_view().len() == report.operations@.len());
    }
    put(&mut list, &cat2("plan: ", &report.plan_id));
    put(&mut list, &cat2("status: ", status_text(report.status)));
    put(&mut list, &cat2("preflight: ", preflight_text(report.preflight.fresh_status)));
    put(&mut list, &cat2("operations: ", &count_text(report.operations.len())));
    let mut snapshot: Vec<String> = Vec::new();
    proof {
        assert(snapshot.deep_view() =~= Seq::<Seq<char>>::empty());
    }
    if let Some(gate) = &report.snapshot {
        put(
            &mut snapshot,
            &cat2("snapshot: ", or_text(as_text(&gate.provided_id), "missing")),
        );
        put(&mut snapshot, &cat2("snapshot_status: ", &gate.status));
    }
    extend(&mut list, &snapshot);
    note_some(
        &mut list,
        "execution_approval_token: ",
        as_text(&report.execution_approval_token),
    );
    let mut execution: Vec<String> = Vec::new();
    proof {
        assert(execution.deep_view() =~= Seq::<Seq<char>>::empty());
    }
    if let Some(e) = &report.execution {
        put(&mut execution, &cat2("execution: ", &e.status));
        put(&mut execution, &cat2("journal: ", &e.journal_path));
    }
    extend(&mut list, &execution);
    note_all(&mut list, "refusal: ", &report.refusals);
    let steps = map_each(
        &report.operations,
        |o: &DeployOperation| -> (t: String)
            ensures
                t.deep_view() == step_line(o.deep_view())
            {
                cat7(
                    &decimal_text(o.order as u64),
                    "\t",
                    &o.kind,
                    "\t",
                    &o.target,
                    "\tprivileged=",
                    bool_text(o.requires_privilege),
                )
            },
        Ghost(|o: DeployOperationView| step_line(o)),
    );
    extend(&mut list, &steps);
    join(&list, "\n")
}

// ---------------------------------------------------------------------------
// Laws
// ---------------------------------------------------------------------------

/// A deploy is ready if and only if nothing refuses it. Then the fresh check is not
/// blocked, its approvals are all there, and a snapshot that is needed is verified.
pub proof fn law_ready_means_nothing_refuses(
    options: DeployOptionsView,
    preflight: PreflightReportView,
    check: SnapshotCheckView,
)
    ensures
        ({
            let report = deploy_report(options, preflight, check);
            &&& report.status == DeployStatus::Ready <==> report.refusals.len() == 0
            &&& report.status == DeployStatus::Ready ==> preflight.status
                != PreflightStatus::Blocked
            &&& report.status == DeployStatus::Ready && preflight.status
                == PreflightStatus::NeedsApproval ==> gate_satisfied(report.approval)
            &&& report.status == DeployStatus::Ready && needs_snapshot(options.plan)
                ==> report.snapshot is Some && report.snapshot->0.status == "verified"@
            &&& report.execution_approval_token is Some <==> report.status == DeployStatus::Ready
        }),
{
    reveal_strlit("verified");
    reveal_strlit("invalid");
    reveal_strlit("missing");
    reveal_strlit("mismatched_plan");
    reveal_strlit("not_deployable");
    assert("verified"@.len() == 8);
    assert("invalid"@.len() == 7);
    assert("missing"@.len() == 7);
    assert("mismatched_plan"@.len() == 15);
    assert("not_deployable"@.len() == 14);
}

/// An approval gate is open if and only if every required scope is approved.
pub proof fn law_approval_covers_every_scope(required: Seq<Seq<char>>, approved: Seq<Seq<char>>)
    requires
        required.len() > 0,
    ensures
        gate_satisfied(approval_outcome(required, approved)) <==> forall|i: int|
            0 <= i < required.len() ==> approved.contains(#[trigger] required[i]),
{
    lemma_missing(required, approved);
}

proof fn lemma_missing(required: Seq<Seq<char>>, approved: Seq<Seq<char>>)
    ensures
        missing_scopes(required, approved).len() == 0 <==> forall|i: int|
            0 <= i < required.len() ==> approved.contains(#[trigger] required[i]),
    decreases required.len(),
{
    if required.len() > 0 {
        let d = required.drop_last();
        lemma_missing(d, approved);
        assert(required[required.len() - 1] == required.last());
        if approved.contains(required.last()) {
            assert forall|i: int| 0 <= i < d.len() implies required[i] == #[trigger] d[i] by {}
            if missing_scopes(required, approved).len() == 0 {
                assert forall|i: int| 0 <= i < required.len() implies approved.contains(
                    #[trigger] required[i],
                ) by {
                    if i < d.len() {
                        assert(d[i] == required[i]);
                    }
                }
            } else {
                let i = choose|i: int| 0 <= i < d.len() && !approved.contains(#[trigger] d[i]);
                assert(required[i] == d[i]);
            }
        }
    }
}

/// A deploy is executed only where its plan is ready, the scope for it is approved,
/// and the token is that of this plan and this snapshot.
pub proof fn law_execution_needs_approval(
    report: DeployReportView,
    options: DeployExecutionOptionsView,
)
    requires
        execution_refusal(report, options) is None,
    ensures
        report.status == DeployStatus::Ready,
        options.approved.contains(deploy_execution_scope()),
        options.approval_token == deploy_token(options.plan.id, options.snapshot_id),
        selected_steps(report.operations, options.operation_order).len() > 0,
        !lone_reload(report.operations, options.operation_order),
{
}

/// Whether an earlier check that a plan speaks of came to something else than the fresh
/// one.
pub open spec fn outdated(plan: DeployPlanView, fresh: PreflightStatus) -> bool {
    plan.preflight matches Some(state) && state.status matches Some(word) && {
        ||| word == "passed"@ && fresh != PreflightStatus::Passed
        ||| word == "needs_approval"@ && fresh != PreflightStatus::NeedsApproval
        ||| word == "blocked"@ && fresh != PreflightStatus::Blocked
    }
}

/// Whether something has to be approved, and all of it is.
pub open spec fn all_approved(required: Seq<Seq<char>>, approved: Seq<Seq<char>>) -> bool {
    required.len() > 0 && forall|i: int|
        0 <= i < required.len() ==> approved.contains(#[trigger] required[i])
}

/// Whether a snapshot will do for a plan: it was given, could be verified, is sound, is
/// that of this plan, has a sound archive, did not fail, and was taken of a plan that
/// passed its check or is approved.
pub open spec fn good_snapshot(
    plan: DeployPlanView,
    snapshot_id: Option<Seq<char>>,
    check: SnapshotCheckView,
    approved: bool,
) -> bool {
    &&& snapshot_id is Some
    &&& check.verification_error is None
    &&& check.ok
    &&& check.plan_id == plan.id
    &&& check.archive_error is None
    &&& check.archive_ok
    &&& check.status != "failed"@
    &&& check.preflight_status == "passed"@ || check.preflight_status == "needs_approval"@
        && approved
}

proof fn lemma_gate_words()
    ensures
        "passed"@ != "needs_approval"@ && "passed"@ != "blocked"@ && "needs_approval"@
            != "blocked"@,
        "verified"@ != "missing"@ && "verified"@ != "invalid"@ && "verified"@ != "mismatched_plan"@,
        "verified"@ != "not_deployable"@,
{
    reveal_strlit("passed");
    reveal_strlit("needs_approval");
    reveal_strlit("blocked");
    reveal_strlit("verified");
    reveal_strlit("missing");
    reveal_strlit("invalid");
    reveal_strlit("mismatched_plan");
    reveal_strlit("not_deployable");
    assert("passed"@.len() == 6 && "needs_approval"@.len() == 14 && "blocked"@.len() == 7);
    assert("verified"@.len() == 8 && "missing"@.len() == 7 && "invalid"@.len() == 7);
    assert("mismatched_plan"@.len() == 15 && "not_deployable"@.len() == 14);
}

/// A plan is blocked exactly where an earlier check of it is outdated, the fresh one is
/// blocked, or a snapshot is required and none will do. Otherwise it needs approval
/// where the fresh check does and not everything is approved, and is ready where not.
/// Only a plan that is ready gets the token and the scope with which it is executed.
pub proof fn law_what_a_plan_comes_to(
    options: DeployOptionsView,
    preflight: PreflightReportView,
    check: SnapshotCheckView,
)
    ensures
        ({
            let plan = options.plan;
            let report = deploy_report(options, preflight, check);
            let approved = all_approved(preflight.approvals_required, options.approved);
            let blocked = outdated(plan, preflight.status) || preflight.status
                == PreflightStatus::Blocked || plan.snapshot_required == Some(true)
                && !good_snapshot(plan, options.snapshot_id, check, approved);
            let waiting = preflight.status == PreflightStatus::NeedsApproval && !approved;
            &&& report.status == (if blocked {
                DeployStatus::Blocked
            } else if waiting {
                DeployStatus::NeedsApproval
            } else {
                DeployStatus::Ready
            })
            &&& report.plan_id == plan.id
            &&& report.dry_run == options.dry_run
            &&& report.operations == deploy_steps(plan)
            &&& report.approvals_required == preflight.approvals_required
            &&& report.preflight.fresh_status == preflight.status
            &&& report.preflight.stale_embedded_result == outdated(plan, preflight.status)
            &&& report.execution_approval_scope == (if blocked || waiting {
                None
            } else {
                Some("deploy_execution"@)
            })
            &&& report.execution_approval_token == (if blocked || waiting {
                None
            } else if options.snapshot_id is Some {
                Some("deploy:"@ + plan.id + ":"@ + options.snapshot_id->0)
            } else {
                Some("deploy:"@ + plan.id)
            })
        }),
{
    lemma_gate_words();
    let plan = options.plan;
    let required = preflight.approvals_required;
    lemma_missing(required, options.approved);
    assert(gate_satisfied(approval_outcome(required, options.approved)) == all_approved(
        required,
        options.approved,
    ));
}

/// Why a plan cannot go ahead is said, once for each reason, and nothing else is.
pub proof fn law_why_a_plan_cannot_go_ahead(
    options: DeployOptionsView,
    preflight: PreflightReportView,
    check: SnapshotCheckView,
)
    ensures
        ({
            let plan = options.plan;
            let report = deploy_report(options, preflight, check);
            let approved = all_approved(preflight.approvals_required, options.approved);
            let a: int = if outdated(plan, preflight.status) {
                1
            } else {
                0
            };
            let b: int = if preflight.status == PreflightStatus::Blocked {
                1
            } else {
                0
            };
            let c: int = if preflight.status == PreflightStatus::NeedsApproval && !approved {
                1
            } else {
                0
            };
            let d: int = if plan.snapshot_required == Some(true) && !good_snapshot(
                plan,
                options.snapshot_id,
                check,
                approved,
            ) {
                1
            } else {
                0
            };
            &&& report.refusals.len() == a + b + c + d
            &&& a == 1 ==> report.refusals[0]
                == "embedded preflight status does not match a fresh registry check"@
            &&& b == 1 ==> report.refusals[a] == "fresh preflight is blocked"@
            &&& c == 1 ==> report.refusals[a + b]
                == "fresh preflight requires valid approval records for all required scopes"@
            &&& report.snapshot is Some <==> plan.snapshot_required == Some(true)
            &&& report.snapshot is Some ==> report.snapshot->0.required
                && report.snapshot->0.provided_id == options.snapshot_id
            &&& report.snapshot is Some ==> (report.snapshot->0.status == "verified"@ <==> d == 0)
        }),
{
    lemma_gate_words();
    let required = preflight.approvals_required;
    lemma_missing(required, options.approved);
    assert(gate_satisfied(approval_outcome(required, options.approved)) == all_approved(
        required,
        options.approved,
    ));
}

/// What is missing of the approvals is what is required and not approved.
pub proof fn law_missing_scopes(required: Seq<Seq<char>>, approved: Seq<Seq<char>>, x: Seq<char>)
    ensures
        missing_scopes(required, approved).contains(x) <==> required.contains(x)
            && !approved.contains(x),
{
    let f = |scope: Seq<char>|
        if approved.contains(scope) {
            None::<Seq<char>>
        } else {
            Some(scope)
        };
    law_chosen(required, f, x);
    if required.contains(x) && !approved.contains(x) {
        let i = choose|i: int| 0 <= i < required.len() && required[i] == x;
        assert(f(required[i]) == Some(x));
    }
    if missing_scopes(required, approved).contains(x) {
        let i = choose|i: int| 0 <= i < required.len() && f(#[trigger] required[i]) == Some(x);
        assert(required[i] == x);
    }
}

/// A deploy is executed exactly where it is ready, its execution is approved, the token
/// is that of this plan and this snapshot, and either all steps are asked for or one
/// that is there and does not reload Caddy.
pub proof fn law_when_a_deploy_is_executed(
    report: DeployReportView,
    options: DeployExecutionOptionsView,
)
    ensures
        execution_refusal(report, options) is None <==> {
            &&& report.status == DeployStatus::Ready
            &&& options.approved.contains("deploy_execution"@)
            &&& options.approval_token == (if options.snapshot_id is Some {
                "deploy:"@ + options.plan.id + ":"@ + options.snapshot_id->0
            } else {
                "deploy:"@ + options.plan.id
            })
            &&& match options.operation_order {
                None => report.operations.len() > 0,
                Some(n) => exists|j: int|
                    0 <= j < report.operations.len() && (#[trigger] report.operations[j]).order == n
                        && report.operations[j].kind != "ReloadCaddy"@ && forall|k: int|
                        0 <= k < j ==> (#[trigger] report.operations[k]).order != n,
            }
        },
{
    let all = report.operations;
    let order = options.operation_order;
    let f = |o: DeployOperationView|
        if order is None || o.order == order->0 {
            Some(o)
        } else {
            None::<DeployOperationView>
        };
    let some = chosen(all, f);
    assert(selected_steps(all, order) == some);
    if order is None {
        if all.len() > 0 {
            law_chosen(all, f, all[0]);
            assert(f(all[0]) == Some(all[0]));
        } else {
            assert(some.len() == 0);
        }
    } else {
        let n = order->0;
        let p = |o: DeployOperationView| o.order == n;
        law_first_where(all, p);
        if first_where(all, p) is Some {
            let i = choose|i: int|
                0 <= i < all.len() && #[trigger] all[i] == first_where(all, p)->0 && p(all[i])
                    && forall|j: int| 0 <= j < i ==> !p(#[trigger] all[j]);
            law_chosen(all, f, all[i]);
            assert(f(all[i]) == Some(all[i]));
            assert forall|k: int| 0 <= k < i implies (#[trigger] all[k]).order != n by {
                assert(!p(all[k]));
            }
            assert forall|j: int|
                0 <= j < all.len() && (#[trigger] all[j]).order == n && (forall|k: int|
                    0 <= k < j ==> (#[trigger] all[k]).order != n) implies j == i by {
                assert(p(all[j]));
                if i < j {
                    assert(all[i].order != n);
                }
                if j < i {
                    assert(!p(all[j]));
                }
            }
        } else {
            assert forall|j: int| 0 <= j < all.len() implies (#[trigger] all[j]).order != n by {
                assert(!p(all[j]));
            }
            if some.len() > 0 {
                law_chosen(all, f, some[0]);
                assert(some.contains(some[0]));
                let i = choose|i: int| 0 <= i < all.len() && f(#[trigger] all[i]) == Some(some[0]);
                assert(all[i].order == n);
            }
        }
    }
}

/// The steps that are taken are all of them, or those with the number that is asked
/// for.
pub proof fn law_selected_steps(
    operations: Seq<DeployOperationView>,
    order: Option<u32>,
    step: DeployOperationView,
)
    ensures
        selected_steps(operations, order).contains(step) <==> operations.contains(step) && (order
            is None || step.order == order->0),
{
    let f = |o: DeployOperationView|
        if order is None || o.order == order->0 {
            Some(o)
        } else {
            None::<DeployOperationView>
        };
    law_chosen(operations, f, step);
    if operations.contains(step) && (order is None || step.order == order->0) {
        let i = choose|i: int| 0 <= i < operations.len() && operations[i] == step;
        assert(f(operations[i]) == Some(step));
    }
    if selected_steps(operations, order).contains(step) {
        let i = choose|i: int|
            0 <= i < operations.len() && f(#[trigger] operations[i]) == Some(step);
        assert(operations[i] == step);
    }
}

/// The exit code is 0 for a plan that is ready, 2 for one that is blocked and 3 for one
/// that needs approval; the decision is to allow, to deny, or to require approval. A
/// deploy that was executed is ready afterwards exactly where it succeeded, and blocked
/// otherwise.
pub proof fn law_outcomes(
    status: DeployStatus,
    report: DeployReportView,
    execution: DeployExecutionReportView,
)
    ensures
        exit_code(status) == 0 <==> status == DeployStatus::Ready,
        exit_code(status) == 2 <==> status == DeployStatus::Blocked,
        exit_code(status) == 3 <==> status == DeployStatus::NeedsApproval,
        status == DeployStatus::Ready ==> decision(status) == "allow"@ && status_word(status)
            == "Ready"@,
        status == DeployStatus::Blocked ==> decision(status) == "deny"@ && status_word(status)
            == "Blocked"@,
        status == DeployStatus::NeedsApproval ==> decision(status) == "require_approval"@
            && status_word(status) == "NeedsApproval"@,
        executed_report(report, execution).status == DeployStatus::Ready <==> execution.status
            == "success"@,
        executed_report(report, execution).status != DeployStatus::NeedsApproval,
        executed_report(report, execution).execution == Some(execution),
        !executed_report(report, execution).dry_run,
{
}

/// A report as text tells the plan, the status, each refusal and each step, in order.
pub proof fn law_what_a_report_prints(report: DeployReportView, i: int)
    ensures
        ({
            let l = report_lines(report);
            let n = report.operations.len();
            &&& l[0] == "plan: "@ + report.plan_id
            &&& l[1] == "status: "@ + status_word(report.status)
            &&& l[2] == "preflight: "@ + preflight_word(report.preflight.fresh_status)
            &&& l[3] == "operations: "@ + decimal(n)
            &&& l.len() == 4 + n + report.refusals.len() + (if report.snapshot is Some {
                2int
            } else {
                0
            }) + (if report.execution is Some {
                2int
            } else {
                0
            }) + (if report.execution_approval_token is Some {
                1int
            } else {
                0
            })
            &&& 0 <= i < n ==> l[l.len() - n + i] == decimal(report.operations[i].order as nat)
                + "\t"@ + report.operations[i].kind + "\t"@ + report.operations[i].target
                + "\tprivileged="@ + bool_word(report.operations[i].requires_privilege)
            &&& 0 <= i < report.refusals.len() ==> l.contains("refusal: "@ + report.refusals[i])
        }),
        status_word(DeployStatus::Ready) == "Ready"@,
        status_word(DeployStatus::NeedsApproval) == "NeedsApproval"@,
        status_word(DeployStatus::Blocked) == "Blocked"@,
        preflight_word(PreflightStatus::Passed) == "Passed"@,
        preflight_word(PreflightStatus::NeedsApproval) == "NeedsApproval"@,
        preflight_word(PreflightStatus::Blocked) == "Blocked"@,
{
    let head = report_head(report);
    let snapshot = snapshot_report_lines(report.snapshot);
    let token = labelled("execution_approval_token: "@, report.execution_approval_token);
    let execution = execution_lines(report.execution);
    let refusals = all_labelled("refusal: "@, report.refusals);
    let steps = report.operations.map_values(|o: DeployOperationView| step_line(o));
    let l = report_lines(report);
    assert(equal(l, head + snapshot + token + execution + refusals + steps));
    let before = head + snapshot + token + execution;
    if 0 <= i < report.refusals.len() {
        assert(refusals[i] == "refusal: "@ + report.refusals[i]);
        assert(l[before.len() + i] == refusals[i]);
    }
    if 0 <= i < report.operations.len() {
        assert(l[l.len() - report.operations.len() + i] == steps[i]);
    }
}

/// A report for an execution is that of a deploy that is no dry run, of the same plan and
/// snapshot.
pub proof fn law_reports_for_executions(
    options: DeployExecutionOptionsView,
    preflight: PreflightReportView,
    check: SnapshotCheckView,
)
    ensures
        execution_report(options, preflight, check).plan_id == options.plan.id,
        !execution_report(options, preflight, check).dry_run,
{
}

} // verus!
