//! Taking the steps of a deploy, one by one, with a journal.

use vstd::prelude::*;
use crate::deploy::journal::{completed, first_failure, journal_schema};
use crate::deploy::operations::{
    caddyfile, deploy_steps, law_steps_come_in_phases, lemma_argv, lemma_phases, phase,
};
use crate::deploy::types::{
    DeployExecutionReport, DeployExecutionReportView, DeployHealthCheckResult,
    DeployHealthCheckResultView, DeployOperation, DeployOperationResult, DeployOperationResultView,
    DeployOperationView, DeployPlan, DeployPlanView, StaticSiteSync,
};
use crate::list::{includes, put};
use crate::number::{bool_text, bool_word};
use crate::text::{
    cat2, chars_of, is_white, law_trimmed, own_opt, same, text_between, trim, trimmed, white_space,
};

verus! {

broadcast use {vstd::seq::group_seq_axioms, vstd::string::group_string_axioms};

// ---------------------------------------------------------------------------
// Results of steps
// ---------------------------------------------------------------------------

/// How many characters of a program's output are kept.
pub const OUTPUT_PREVIEW_CHARS: usize = 8192;

/// The part of a program's output that is kept, before anything secret is taken
/// out of it.
pub open spec fn output_preview(raw: Seq<char>) -> Option<Seq<char>> {
    if trimmed(raw).len() == 0 {
        None
    } else if raw.len() > OUTPUT_PREVIEW_CHARS {
        Some(raw.take(OUTPUT_PREVIEW_CHARS as int) + "\n[truncated]"@)
    } else {
        Some(raw)
    }
}

/// The part of a program's output that is kept, before anything secret is taken
/// out of it.
pub fn preview_text(raw: &str) -> (r: Option<String>)
    ensures
        r.deep_view() == output_preview(raw@),
{
    if trim(raw).as_str().is_empty() {
        return None;
    }
    let a = chars_of(raw);
    if a.len() > OUTPUT_PREVIEW_CHARS {
        proof {
            assert(a@.subrange(0, OUTPUT_PREVIEW_CHARS as int) =~= raw@.take(
                OUTPUT_PREVIEW_CHARS as int,
            ));
        }
        Some(cat2(&text_between(&a, 0, OUTPUT_PREVIEW_CHARS), "\n[truncated]"))
    } else {
        Some(raw.to_string())
    }
}

/// What came of a step, without details.
pub open spec fn bare_result(
    operation: DeployOperationView,
    status: Seq<char>,
    status_code: Option<i32>,
    message: Option<Seq<char>>,
) -> DeployOperationResultView {
    DeployOperationResultView {
        order: operation.order,
        kind: operation.kind,
        target: operation.target,
        status,
        status_code,
        stdout_preview: None,
        stderr_preview: None,
        message,
        health_checks: Seq::empty(),
        rollback_suggestion: None,
    }
}

/// What came of a step, without details.
pub fn make_result(
    operation: &DeployOperation,
    status: &str,
    status_code: Option<i32>,
    message: Option<String>,
) -> (r: DeployOperationResult)
    ensures
        r.deep_view() == bare_result(
            operation.deep_view(),
            status@,
            status_code,
            message.deep_view(),
        ),
{
    let health_checks: Vec<DeployHealthCheckResult> = Vec::new();
    proof {
        assert(health_checks.deep_view() =~= Seq::<DeployHealthCheckResultView>::empty());
    }
    DeployOperationResult {
        order: operation.order,
        kind: operation.kind.clone(),
        target: operation.target.clone(),
        status: status.to_string(),
        status_code,
        stdout_preview: None,
        stderr_preview: None,
        message,
        health_checks,
        rollback_suggestion: None,
    }
}

/// A step that was done.
pub fn success_result(operation: &DeployOperation, message: String) -> (r: DeployOperationResult)
    ensures
        r.deep_view() == bare_result(operation.deep_view(), "success"@, Some(0), Some(message@)),
{
    make_result(operation, "success", Some(0), Some(message))
}

/// A step that cannot be taken.
pub fn unsupported_result(operation: &DeployOperation, message: &str) -> (r: DeployOperationResult)
    ensures
        r.deep_view() == bare_result(operation.deep_view(), "unsupported"@, None, Some(message@)),
{
    make_result(operation, "unsupported", None, Some(message.to_string()))
}

/// A step that failed, with what is kept of the program's output.
pub fn failure_result(
    operation: &DeployOperation,
    message: String,
    status_code: Option<i32>,
    stdout_preview: Option<String>,
    stderr_preview: Option<String>,
) -> (r: DeployOperationResult)
    ensures
        r.deep_view() == (DeployOperationResultView {
            stdout_preview: stdout_preview.deep_view(),
            stderr_preview: stderr_preview.deep_view(),
            ..bare_result(operation.deep_view(), "failed"@, status_code, Some(message@))
        }),
{
    let mut r = make_result(operation, "failed", status_code, Some(message));
    r.stdout_preview = stdout_preview;
    r.stderr_preview = stderr_preview;
    r
}

/// What came of a program. A failure has this message.
pub open spec fn command_outcome(
    operation: DeployOperationView,
    success: bool,
    status_code: Option<i32>,
    stdout_preview: Option<Seq<char>>,
    stderr_preview: Option<Seq<char>>,
    message: Seq<char>,
) -> DeployOperationResultView {
    DeployOperationResultView {
        stdout_preview,
        stderr_preview,
        ..bare_result(
            operation,
            if success {
                "success"@
            } else {
                "failed"@
            },
            status_code,
            if success {
                None
            } else {
                Some(message)
            },
        )
    }
}

/// What came of a program, with what is kept of its output.
pub fn command_result(
    operation: &DeployOperation,
    success: bool,
    status_code: Option<i32>,
    stdout_preview: Option<String>,
    stderr_preview: Option<String>,
    message: &str,
) -> (r: DeployOperationResult)
    ensures
        r.deep_view() == command_outcome(
            operation.deep_view(),
            success,
            status_code,
            stdout_preview.deep_view(),
            stderr_preview.deep_view(),
            message@,
        ),
{
    let mut r = if success {
        make_result(operation, "success", status_code, None)
    } else {
        make_result(operation, "failed", status_code, Some(message.to_string()))
    };
    r.stdout_preview = stdout_preview;
    r.stderr_preview = stderr_preview;
    r
}

// ---------------------------------------------------------------------------
// What to do for a step
// ---------------------------------------------------------------------------

/// What taking a step means.
#[derive(Debug, Clone, Copy, PartialEq, Eq, Structural)]
pub enum OperationAction {
    /// Nothing: a gate was passed before.
    GatePassed,
    WriteCaddyRoute,
    RunCommand,
    StaticSiteSync,
    HealthCheck,
    WriteRegistry,
    RunMigration,
    WriteFile,
    Unsupported,
}

/// What taking a step of this kind means.
pub open spec fn action_for(kind: Seq<char>) -> OperationAction {
    if kind == "PreflightCheck"@ || kind == "VerifySnapshot"@ || kind == "ReservePort"@ {
        OperationAction::GatePassed
    } else if kind == "WriteCaddyRoute"@ {
        OperationAction::WriteCaddyRoute
    } else if kind == "ValidateCaddy"@ || kind == "ReloadCaddy"@ || kind == "ComposeUp"@ || kind
        == "RunBuild"@ || kind == "LaravelOptimize"@ || kind == "SystemdService"@ {
        OperationAction::RunCommand
    } else if kind == "StaticSiteSync"@ {
        OperationAction::StaticSiteSync
    } else if kind == "PostDeployHealthCheck"@ {
        OperationAction::HealthCheck
    } else if kind == "WriteRegistry"@ {
        OperationAction::WriteRegistry
    } else if kind == "RunMigration"@ {
        OperationAction::RunMigration
    } else if kind == "WriteFile"@ {
        OperationAction::WriteFile
    } else {
        OperationAction::Unsupported
    }
}

/// What taking a step means.
pub fn execute_operation(operation: &DeployOperation) -> (r: OperationAction)
    ensures
        r == action_for(operation.deep_view().kind),
{
    let kind = &operation.kind;
    if same(kind, "PreflightCheck") || same(kind, "VerifySnapshot") || same(kind, "ReservePort") {
        OperationAction::GatePassed
    } else if same(kind, "WriteCaddyRoute") {
        OperationAction::WriteCaddyRoute
    } else if same(kind, "ValidateCaddy") || same(kind, "ReloadCaddy") || same(kind, "ComposeUp")
        || same(kind, "RunBuild") || same(kind, "LaravelOptimize") || same(
        kind,
        "SystemdService",
    ) {
        OperationAction::RunCommand
    } else if same(kind, "StaticSiteSync") {
        OperationAction::StaticSiteSync
    } else if same(kind, "PostDeployHealthCheck") {
        OperationAction::HealthCheck
    } else if same(kind, "WriteRegistry") {
        OperationAction::WriteRegistry
    } else if same(kind, "RunMigration") {
        OperationAction::RunMigration
    } else if same(kind, "WriteFile") {
        OperationAction::WriteFile
    } else {
        OperationAction::Unsupported
    }
}

/// What came of a step that needs nothing done.
pub fn gate_passed_result(operation: &DeployOperation) -> (r: DeployOperationResult)
    ensures
        r.deep_view() == bare_result(
            operation.deep_view(),
            "success"@,
            Some(0),
            Some("gate already verified before execution"@),
        ),
{
    success_result(operation, "gate already verified before execution".to_string())
}

/// What came of a step that nobody knows.
pub fn unknown_kind_result(operation: &DeployOperation) -> (r: DeployOperationResult)
    ensures
        r.deep_view() == bare_result(
            operation.deep_view(),
            "unsupported"@,
            None,
            Some("unsupported deploy operation kind: "@ + operation.deep_view().kind),
        ),
{
    unsupported_result(
        operation,
        &cat2("unsupported deploy operation kind: ", &operation.kind),
    )
}

/// What came of writing the registry.
pub fn registry_result(operation: &DeployOperation, updated: bool) -> (r: DeployOperationResult)
    ensures
        r.deep_view() == bare_result(
            operation.deep_view(),
            "success"@,
            Some(0),
            Some("registry updated="@ + bool_word(updated)),
        ),
{
    success_result(operation, cat2("registry updated=", bool_text(updated)))
}

/// A program to run.
#[derive(Debug)]
pub struct CommandCall {
    pub program: String,
    pub args: Vec<String>,
    pub working_dir: Option<String>,
}

/// View of [`CommandCall`].
#[verifier::ext_equal]
pub struct CommandCallView {
    pub program: Seq<char>,
    pub args: Seq<Seq<char>>,
    pub working_dir: Option<Seq<char>>,
}

impl DeepView for CommandCall {
    type V = CommandCallView;

    open spec fn deep_view(&self) -> CommandCallView {
        CommandCallView {
            program: self.program.deep_view(),
            args: self.args.deep_view(),
            working_dir: self.working_dir.deep_view(),
        }
    }
}

/// The argument of a step, with the Caddy configuration where it really is.
pub open spec fn placed_arg(kind: Seq<char>, arg: Seq<char>, config: Seq<char>) -> Seq<char> {
    if kind == "ValidateCaddy"@ && arg == caddyfile() {
        config
    } else {
        arg
    }
}

/// The arguments of a step.
pub fn normalized_operation_args(operation: &DeployOperation, caddyfile_path: &str) -> (r: Vec<
    String,
>)
    requires
        operation.argv@.len() > 0,
    ensures
        r.deep_view() == operation.deep_view().argv.drop_first().map_values(
            |arg: Seq<char>| placed_arg(operation.deep_view().kind, arg, caddyfile_path@),
        ),
{
    let ghost all = operation.argv.deep_view();
    let ghost f = |arg: Seq<char>|
        placed_arg(operation.deep_view().kind, arg, caddyfile_path@);
    let mut args: Vec<String> = Vec::new();
    let mut i: usize = 1;
    while i < operation.argv.len()
        invariant
            1 <= i <= operation.argv@.len(),
            all == operation.argv.deep_view(),
            args@.len() == i - 1,
            forall|j: int|
                0 <= j < i - 1 ==> (#[trigger] args.deep_view()[j]) == placed_arg(
                    operation.deep_view().kind,
                    all[j + 1],
                    caddyfile_path@,
                ),
        decreases operation.argv@.len() - i,
    {
        let arg = &operation.argv[i];
        let ghost before = args.deep_view();
        if same(&operation.kind, "ValidateCaddy") && same(arg, "/etc/caddy/Caddyfile") {
            put(&mut args, caddyfile_path);
        } else {
            put(&mut args, arg);
        }
        proof {
            assert(all[i as int] == arg@);
            assert(args.deep_view().len() == args@.len());
            assert forall|j: int| 0 <= j < i implies (#[trigger] args.deep_view()[j])
                == placed_arg(operation.deep_view().kind, all[j + 1], caddyfile_path@) by {
                if j < i - 1 {
                    assert(args.deep_view()[j] == before[j]);
                }
            }
        }
        i = i + 1;
    }
    proof {
        assert(args.deep_view() =~= all.drop_first().map_values(f));
    }
    args
}

/// The program that a step runs; an error if it has none.
pub fn execute_argv_operation(operation: &DeployOperation, caddyfile_path: &str) -> (r: Result<
    CommandCall,
    String,
>)
    ensures
        r is Ok <==> operation.deep_view().argv.len() > 0,
        r is Ok ==> r->Ok_0.deep_view() == (CommandCallView {
            program: operation.deep_view().argv[0],
            args: operation.deep_view().argv.drop_first().map_values(
                |arg: Seq<char>| placed_arg(operation.deep_view().kind, arg, caddyfile_path@),
            ),
            working_dir: operation.deep_view().working_dir,
        }),
        r is Err ==> r->Err_0@ == "operation has no argv"@,
{
    proof {
        assert(operation.argv.deep_view().len() == operation.argv@.len());
    }
    if operation.argv.len() == 0 {
        return Err("operation has no argv".to_string());
    }
    Ok(
        CommandCall {
            program: operation.argv[0].clone(),
            args: normalized_operation_args(operation, caddyfile_path),
            working_dir: operation.working_dir.clone(),
        },
    )
}

/// The setting that names another file for a program.
pub open spec fn program_setting(program: Seq<char>) -> Option<Seq<char>> {
    if program == "docker"@ {
        Some("OPSCTL_DOCKER_BIN"@)
    } else if program == "caddy"@ {
        Some("OPSCTL_CADDY_BIN"@)
    } else if program == "systemctl"@ {
        Some("OPSCTL_SYSTEMCTL_BIN"@)
    } else if program == "npm"@ {
        Some("OPSCTL_NPM_BIN"@)
    } else if program == "pnpm"@ {
        Some("OPSCTL_PNPM_BIN"@)
    } else if program == "bun"@ {
        Some("OPSCTL_BUN_BIN"@)
    } else if program == "php"@ {
        Some("OPSCTL_PHP_BIN"@)
    } else if program == "composer"@ {
        Some("OPSCTL_COMPOSER_BIN"@)
    } else {
        None
    }
}

/// The setting that names another file for a program.
pub fn controlled_program(program: &str) -> (r: Option<&'static str>)
    ensures
        r.deep_view() == program_setting(program@),
{
    if same(program, "docker") {
        Some("OPSCTL_DOCKER_BIN")
    } else if same(program, "caddy") {
        Some("OPSCTL_CADDY_BIN")
    } else if same(program, "systemctl") {
        Some("OPSCTL_SYSTEMCTL_BIN")
    } else if same(program, "npm") {
        Some("OPSCTL_NPM_BIN")
    } else if same(program, "pnpm") {
        Some("OPSCTL_PNPM_BIN")
    } else if same(program, "bun") {
        Some("OPSCTL_BUN_BIN")
    } else if same(program, "php") {
        Some("OPSCTL_PHP_BIN")
    } else if same(program, "composer") {
        Some("OPSCTL_COMPOSER_BIN")
    } else {
        None
    }
}

// ---------------------------------------------------------------------------
// The run
// ---------------------------------------------------------------------------

/// A run before its first step.
pub open spec fn fresh_run(
    journal_id: Seq<char>,
    journal_path: Seq<char>,
    plan_id: Seq<char>,
    snapshot_id: Option<Seq<char>>,
    started_at: Seq<char>,
    steps: nat,
) -> DeployExecutionReportView {
    DeployExecutionReportView {
        schema_version: journal_schema(),
        journal_id,
        journal_path,
        plan_id,
        snapshot_id,
        status: "running"@,
        started_at,
        completed_at: None,
        operations_total: steps,
        operations_executed: 0,
        operations_succeeded: 0,
        operations_failed: 0,
        operations_skipped: 0,
        registry_updated: false,
        results: Seq::empty(),
        limitations: Seq::empty(),
        rollback_suggestions: Seq::empty(),
    }
}

/// A run's counts add up to the number of its results.
pub open spec fn counts_add_up(run: DeployExecutionReportView) -> bool {
    run.operations_executed == run.operations_succeeded + run.operations_failed
        && run.operations_executed + run.operations_skipped == run.results.len()
}

/// Whether a run that has done nothing yet is one over so many operations.
pub open spec fn starts(run: DeployExecutionReportView, operations: nat) -> bool {
    &&& counts_add_up(run)
    &&& run.results.len() == 0
    &&& run.operations_total == operations
    &&& !run.registry_updated
}

/// Starts a run; an error if there is nothing to do.
pub fn start_run(
    journal_id: &str,
    journal_path: &str,
    plan: &DeployPlan,
    snapshot_id: Option<&str>,
    started_at: &str,
    operations: &Vec<DeployOperation>,
) -> (r: Result<DeployExecutionReport, String>)
    ensures
        r is Ok <==> operations@.len() > 0,
        r is Ok ==> r->Ok_0.deep_view() == fresh_run(
            journal_id@,
            journal_path@,
            plan.deep_view().id,
            snapshot_id.deep_view(),
            started_at@,
            operations@.len(),
        ) && starts(r->Ok_0.deep_view(), operations@.len()),
        r is Err ==> r->Err_0@ == "deploy operation list must not be empty"@,
{
    if operations.len() == 0 {
        return Err("deploy operation list must not be empty".to_string());
    }
    let run = DeployExecutionReport {
        schema_version: "opsctl.deploy_journal.v1".to_string(),
        journal_id: journal_id.to_string(),
        journal_path: journal_path.to_string(),
        plan_id: plan.id.clone(),
        snapshot_id: own_opt(snapshot_id),
        status: "running".to_string(),
        started_at: started_at.to_string(),
        completed_at: None,
        operations_total: operations.len(),
        operations_executed: 0,
        operations_succeeded: 0,
        operations_failed: 0,
        operations_skipped: 0,
        registry_updated: false,
        results: Vec::new(),
        limitations: Vec::new(),
        rollback_suggestions: Vec::new(),
    };
    proof {
        assert(run.results.deep_view() =~= Seq::<DeployOperationResultView>::empty());
        assert(run.limitations.deep_view() =~= Seq::<Seq<char>>::empty());
        assert(run.rollback_suggestions.deep_view() =~= Seq::<Seq<char>>::empty());
    }
    Ok(run)
}

/// Suggestions with one more, if it is not there yet.
pub open spec fn with_suggestion(
    suggestions: Seq<Seq<char>>,
    suggestion: Option<Seq<char>>,
) -> Seq<Seq<char>> {
    match suggestion {
        Some(text) => if suggestions.contains(text) {
            suggestions
        } else {
            suggestions.push(text)
        },
        None => suggestions,
    }
}

/// A run with one more result.
pub open spec fn recorded(
    run: DeployExecutionReportView,
    kind: Seq<char>,
    result: DeployOperationResultView,
) -> DeployExecutionReportView {
    let success = result.status == "success"@;
    let skipped = !success && result.status == "skipped"@;
    let failed = run.operations_failed + (if success || skipped {
        0nat
    } else {
        1nat
    });
    DeployExecutionReportView {
        operations_executed: run.operations_executed + (if skipped {
            0nat
        } else {
            1nat
        }),
        operations_succeeded: run.operations_succeeded + (if success {
            1nat
        } else {
            0nat
        }),
        operations_failed: failed,
        operations_skipped: run.operations_skipped + (if skipped {
            1nat
        } else {
            0nat
        }),
        registry_updated: run.registry_updated || (success && kind == "WriteRegistry"@),
        rollback_suggestions: with_suggestion(
            run.rollback_suggestions,
            result.rollback_suggestion,
        ),
        results: run.results.push(result),
        status: if failed > 0 {
            "failed"@
        } else {
            "running"@
        },
        ..run
    }
}

/// The step that a run takes next: the one after those that have a result, unless a
/// step has failed or none is left.
pub open spec fn next_step(
    run: DeployExecutionReportView,
    operations: Seq<DeployOperationView>,
) -> Option<DeployOperationView> {
    if run.operations_failed > 0 || run.results.len() >= operations.len() {
        None
    } else {
        Some(operations[run.results.len() as int])
    }
}

/// The step that a run takes next, if there is one.
pub fn next_operation<'a>(
    run: &DeployExecutionReport,
    operations: &'a Vec<DeployOperation>,
) -> (r: Option<&'a DeployOperation>)
    ensures
        r.deep_view() == next_step(run.deep_view(), operations.deep_view()),
{
    proof {
        assert(run.deep_view().results.len() == run.results@.len());
        assert(operations.deep_view().len() == operations@.len());
    }
    if run.operations_failed > 0 || run.results.len() >= operations.len() {
        None
    } else {
        Some(&operations[run.results.len()])
    }
}

/// Whether a run takes no further step: one has failed, or all have a result.
pub open spec fn run_is_over(run: DeployExecutionReportView) -> bool {
    run.operations_failed > 0 || run.results.len() >= run.operations_total
}

/// Records what came of a step. Says whether the run goes on.
pub fn record_result(
    run: &mut DeployExecutionReport,
    operation: &DeployOperation,
    result: DeployOperationResult,
) -> (r: bool)
    requires
        counts_add_up(old(run).deep_view()),
    ensures
        final(run).deep_view() == recorded(
            old(run).deep_view(),
            operation.deep_view().kind,
            result.deep_view(),
        ),
        counts_add_up(final(run).deep_view()),
        r == (final(run).deep_view().operations_failed == 0),
{
    let ghost before = run.deep_view();
    let ghost came = result.deep_view();
    let success = same(&result.status, "success");
    let skipped = !success && same(&result.status, "skipped");
    if let Some(text) = &result.rollback_suggestion {
        if !includes(&run.rollback_suggestions, text) {
            put(&mut run.rollback_suggestions, text);
        }
    }
    proof {
        assert(before.results.len() == run.results@.len());
    }
    run.results.push(result);
    let steps: usize = run.results.len();
    proof {
        assert(run.results.deep_view() =~= before.results.push(came));
        assert(steps == before.results.len() + 1);
    }
    if success {
        run.operations_executed = run.operations_executed + 1;
        run.operations_succeeded = run.operations_succeeded + 1;
        if same(&operation.kind, "WriteRegistry") {
            run.registry_updated = true;
        }
    } else if skipped {
        run.operations_skipped = run.operations_skipped + 1;
    } else {
        run.operations_executed = run.operations_executed + 1;
        run.operations_failed = run.operations_failed + 1;
    }
    run.status = if run.operations_failed > 0 {
        "failed".to_string()
    } else {
        "running".to_string()
    };
    run.operations_failed == 0
}

/// A run that is over.
pub open spec fn finished(run: DeployExecutionReportView, completed_at: Seq<char>) ->
    DeployExecutionReportView {
    DeployExecutionReportView {
        completed_at: Some(completed_at),
        status: if run.operations_failed == 0 {
            "success"@
        } else {
            "failed"@
        },
        ..run
    }
}

/// Ends a run that takes no further step.
pub fn finish_run(run: &mut DeployExecutionReport, completed_at: &str)
    requires
        run_is_over(old(run).deep_view()),
    ensures
        final(run).deep_view() == finished(old(run).deep_view(), completed_at@),
{
    run.completed_at = Some(completed_at.to_string());
    run.status = if run.operations_failed == 0 {
        "success".to_string()
    } else {
        "failed".to_string()
    };
}

// ---------------------------------------------------------------------------
// Laws
// ---------------------------------------------------------------------------

/// A run over operations. Each outcome is that of the step that is next; an outcome
/// that comes when no step is left changes nothing.
pub open spec fn run_over(
    start: DeployExecutionReportView,
    operations: Seq<DeployOperationView>,
    outcomes: Seq<DeployOperationResultView>,
) -> DeployExecutionReportView
    decreases outcomes.len(),
{
    if outcomes.len() == 0 {
        start
    } else {
        let run = run_over(start, operations, outcomes.drop_last());
        match next_step(run, operations) {
            Some(operation) => recorded(run, operation.kind, outcomes.last()),
            None => run,
        }
    }
}

/// Whether a recorded step wrote the registry.
pub open spec fn wrote_registry(
    operations: Seq<DeployOperationView>,
    results: Seq<DeployOperationResultView>,
) -> bool {
    exists|i: int|
        0 <= i < results.len() && i < operations.len() && (#[trigger] operations[i]).kind
            == "WriteRegistry"@ && results[i].status == "success"@
}

/// In every run the counts add up. The results are those of the operations, one for
/// one and in their order. All but the last are of steps that were done, and the run
/// has failed if and only if the last one was not. The registry counts as written if
/// and only if a recorded step that writes it succeeded.
pub proof fn law_runs_stop_at_the_first_failure(
    start: DeployExecutionReportView,
    operations: Seq<DeployOperationView>,
    outcomes: Seq<DeployOperationResultView>,
)
    requires
        starts(start, operations.len()),
    ensures
        ({
            let run = run_over(start, operations, outcomes);
            &&& counts_add_up(run)
            &&& run.operations_total == operations.len()
            &&& run.results.len() <= operations.len()
            &&& run.results.len() <= outcomes.len()
            &&& run.results == outcomes.take(run.results.len() as int)
            &&& forall|i: int|
                0 <= i < run.results.len() - 1 ==> completed(#[trigger] run.results[i])
            &&& run.operations_failed > 0 <==> run.results.len() > 0 && !completed(
                run.results.last(),
            )
            &&& run.registry_updated <==> wrote_registry(operations, run.results)
            &&& run.operations_failed == 0 && run.results.len() < operations.len()
                ==> run.results.len() == outcomes.len()
        }),
    decreases outcomes.len(),
{
    let run = run_over(start, operations, outcomes);
    if outcomes.len() == 0 {
        assert(run.results =~= outcomes.take(0));
    } else {
        let d = outcomes.drop_last();
        law_runs_stop_at_the_first_failure(start, operations, d);
        let prev = run_over(start, operations, d);
        let n = prev.results.len() as int;
        assert(prev.results =~= outcomes.take(n)) by {
            assert(d.take(n) =~= outcomes.take(n));
        }
        if next_step(prev, operations) is Some {
            assert(n == d.len());
            assert(run.results =~= outcomes.take(n + 1));
            assert forall|i: int| 0 <= i < run.results.len() - 1 implies completed(
                #[trigger] run.results[i],
            ) by {
                assert(run.results[i] == prev.results[i]);
                if i == n - 1 {
                    assert(prev.results.last() == prev.results[i]);
                }
            }
            assert(run.results.last() == outcomes.last());
            if wrote_registry(operations, prev.results) {
                let i = choose|i: int|
                    0 <= i < prev.results.len() && i < operations.len() && (
                    #[trigger] operations[i]).kind == "WriteRegistry"@ && prev.results[i].status
                        == "success"@;
                assert(run.results[i] == prev.results[i]);
                assert(wrote_registry(operations, run.results));
            }
            if wrote_registry(operations, run.results) && !wrote_registry(operations, prev.results) {
                let i = choose|i: int|
                    0 <= i < run.results.len() && i < operations.len() && (
                    #[trigger] operations[i]).kind == "WriteRegistry"@ && run.results[i].status
                        == "success"@;
                if i < n {
                    assert(run.results[i] == prev.results[i]);
                }
                assert(i == n);
            }
            if run.registry_updated && !prev.registry_updated {
                assert(operations[n].kind == "WriteRegistry"@);
                assert(wrote_registry(operations, run.results));
            }
        }
    }
}

/// A run that takes no further step is over, and did every step unless one failed.
pub proof fn law_runs_without_failure_do_every_step(
    start: DeployExecutionReportView,
    operations: Seq<DeployOperationView>,
    outcomes: Seq<DeployOperationResultView>,
)
    requires
        starts(start, operations.len()),
        next_step(run_over(start, operations, outcomes), operations) is None,
    ensures
        ({
            let run = run_over(start, operations, outcomes);
            &&& run_is_over(run)
            &&& run.operations_failed == 0 ==> run.results.len() == operations.len()
        }),
{
    law_runs_stop_at_the_first_failure(start, operations, outcomes);
}

/// A run that ended well did every step, and one that did not can be gone on with.
pub proof fn law_finished_runs_succeed_or_fail(
    start: DeployExecutionReportView,
    operations: Seq<DeployOperationView>,
    outcomes: Seq<DeployOperationResultView>,
    completed_at: Seq<char>,
)
    requires
        starts(start, operations.len()),
        run_is_over(run_over(start, operations, outcomes)),
    ensures
        ({
            let run = finished(run_over(start, operations, outcomes), completed_at);
            &&& run.status == "success"@ ==> run.results.len() == operations.len() && forall|i: int|
                0 <= i < run.results.len() ==> completed(#[trigger] run.results[i])
            &&& run.status == "failed"@ ==> first_failure(run.results) is Some
        }),
{
    law_runs_stop_at_the_first_failure(start, operations, outcomes);
    let run = run_over(start, operations, outcomes);
    reveal_strlit("success");
    reveal_strlit("failed");
    assert("success"@.len() == 7);
    assert("failed"@.len() == 6);
    if run.operations_failed == 0 {
        assert forall|i: int| 0 <= i < run.results.len() implies completed(
            #[trigger] run.results[i],
        ) by {
            if i == run.results.len() - 1 {
                assert(run.results.last() == run.results[i]);
            }
        }
    }
}

/// Whether a result is that of an operation: it carries its place, kind and target.
pub open spec fn result_names(
    result: DeployOperationResultView,
    operation: DeployOperationView,
) -> bool {
    result.order == operation.order && result.kind == operation.kind && result.target
        == operation.target
}

/// What is made of an operation names it, whether it is a plain result or that of a
/// command.
pub proof fn law_results_name_their_operation(
    operation: DeployOperationView,
    status: Seq<char>,
    status_code: Option<i32>,
    message: Option<Seq<char>>,
    previews: (Option<Seq<char>>, Option<Seq<char>>),
    success: bool,
    words: Seq<char>,
)
    ensures
        result_names(bare_result(operation, status, status_code, message), operation),
        result_names(
            command_outcome(operation, success, status_code, previews.0, previews.1, words),
            operation,
        ),
{
}

/// Where every outcome names the operation that is in its place, the results of a run
/// name its operations, one for one and in their order.
pub proof fn law_results_pair_with_operations(
    start: DeployExecutionReportView,
    operations: Seq<DeployOperationView>,
    outcomes: Seq<DeployOperationResultView>,
    i: int,
)
    requires
        starts(start, operations.len()),
        forall|k: int|
            0 <= k < outcomes.len() && k < operations.len() ==> result_names(
                #[trigger] outcomes[k],
                operations[k],
            ),
        0 <= i < run_over(start, operations, outcomes).results.len(),
    ensures
        i < operations.len(),
        result_names(run_over(start, operations, outcomes).results[i], operations[i]),
{
    law_runs_stop_at_the_first_failure(start, operations, outcomes);
    let run = run_over(start, operations, outcomes);
    assert(run.results[i] == outcomes[i]);
}

/// What a step of a kind comes to is settled for each kind that a deploy has, and only
/// for those; a command is run exactly for the steps of a deploy that have one.
pub proof fn law_steps_can_be_carried_out(plan: DeployPlanView, i: int)
    requires
        0 <= i < deploy_steps(plan).len(),
    ensures
        ({
            let step = deploy_steps(plan)[i];
            let action = action_for(step.kind);
            &&& action != OperationAction::Unsupported
            &&& action == OperationAction::RunCommand <==> step.argv.len() > 0
        }),
{
    law_steps_come_in_phases(plan, i, i);
    lemma_argv(plan, i);
    lemma_kinds_apart();
}

proof fn lemma_kinds_apart()
    ensures
        forall|k: Seq<char>| #[trigger]
            action_for(k) == OperationAction::RunCommand <==> 4 <= phase(k) <= 6 || 8 <= phase(k)
                <= 10,
        forall|k: Seq<char>| #[trigger] action_for(k) == OperationAction::Unsupported <==> phase(k)
            >= 15,
{
    lemma_phases();
}

/// Exactly the kinds of step that a deploy has are carried out, each in its own way.
pub proof fn law_actions(kind: Seq<char>)
    ensures
        action_for(kind) == OperationAction::WriteRegistry <==> kind == "WriteRegistry"@,
        action_for(kind) == OperationAction::RunMigration <==> kind == "RunMigration"@,
        action_for(kind) == OperationAction::WriteFile <==> kind == "WriteFile"@,
        action_for(kind) == OperationAction::HealthCheck <==> kind == "PostDeployHealthCheck"@,
        action_for(kind) == OperationAction::StaticSiteSync <==> kind == "StaticSiteSync"@,
        action_for(kind) == OperationAction::WriteCaddyRoute <==> kind == "WriteCaddyRoute"@,
        action_for(kind) == OperationAction::GatePassed <==> phase(kind) <= 2,
        action_for(kind) == OperationAction::Unsupported <==> phase(kind) == 15,
{
    lemma_phases();
}

/// Every outcome is recorded: it is counted once, as a success, as passed over, or as a
/// failure, and the run has failed as soon as one failure is counted. The registry
/// counts as written once its step succeeded.
pub proof fn law_outcomes_are_recorded(
    run: DeployExecutionReportView,
    kind: Seq<char>,
    result: DeployOperationResultView,
)
    ensures
        ({
            let now = recorded(run, kind, result);
            let good = result.status == "success"@;
            let passed = result.status == "skipped"@;
            let bad = !good && !passed;
            &&& now.results == run.results.push(result)
            &&& now.operations_succeeded == run.operations_succeeded + (if good {
                1int
            } else {
                0
            })
            &&& now.operations_skipped == run.operations_skipped + (if passed {
                1int
            } else {
                0
            })
            &&& now.operations_failed == run.operations_failed + (if bad {
                1int
            } else {
                0
            })
            &&& now.operations_executed == run.operations_executed + (if passed {
                0int
            } else {
                1
            })
            &&& now.status == (if now.operations_failed > 0 {
                "failed"@
            } else {
                "running"@
            })
            &&& now.registry_updated <==> run.registry_updated || good && kind == "WriteRegistry"@
            &&& now.operations_total == run.operations_total
            &&& now.plan_id == run.plan_id
            &&& now.journal_id == run.journal_id
            &&& now.snapshot_id == run.snapshot_id
        }),
{
    reveal_strlit("success");
    reveal_strlit("skipped");
    assert("success"@[1] != "skipped"@[1]);
}

/// The next step is the one behind those that have a result, as long as there is one
/// and nothing failed.
pub proof fn law_next_step(
    run: DeployExecutionReportView,
    operations: Seq<DeployOperationView>,
)
    ensures
        next_step(run, operations) is Some <==> run.operations_failed == 0 && run.results.len()
            < operations.len(),
        next_step(run, operations) is Some ==> next_step(run, operations)->0
            == operations[run.results.len() as int],
{
}

/// A new run has no results, has not written the registry, and waits for all steps.
pub proof fn law_new_runs_start(
    journal_id: Seq<char>,
    journal_path: Seq<char>,
    plan_id: Seq<char>,
    snapshot_id: Option<Seq<char>>,
    started_at: Seq<char>,
    steps: nat,
)
    ensures
        ({
            let run = fresh_run(journal_id, journal_path, plan_id, snapshot_id, started_at, steps);
            &&& starts(run, steps)
            &&& run.operations_failed == 0
            &&& run.plan_id == plan_id
            &&& run.journal_id == journal_id
            &&& run.snapshot_id == snapshot_id
            &&& run.schema_version == "opsctl.deploy_journal.v1"@
            &&& run.completed_at is None
        }),
{
}

/// A finished run succeeded exactly where all steps have a result and each of them was
/// done or passed over; it failed otherwise.
pub proof fn law_when_runs_succeed(
    start: DeployExecutionReportView,
    operations: Seq<DeployOperationView>,
    outcomes: Seq<DeployOperationResultView>,
    completed_at: Seq<char>,
)
    requires
        starts(start, operations.len()),
        start.operations_failed == 0,
        run_is_over(run_over(start, operations, outcomes)),
    ensures
        ({
            let run = finished(run_over(start, operations, outcomes), completed_at);
            &&& run.completed_at == Some(completed_at)
            &&& run.status == "success"@ <==> run.results.len() == operations.len() && forall|i: int|
                0 <= i < run.results.len() ==> (#[trigger] run.results[i]).status == "success"@
                    || run.results[i].status == "skipped"@
            &&& run.status == "failed"@ <==> run.status != "success"@
        }),
{
    law_runs_stop_at_the_first_failure(start, operations, outcomes);
    reveal_strlit("success");
    reveal_strlit("failed");
    assert("success"@.len() != "failed"@.len());
    let run = run_over(start, operations, outcomes);
    if run.operations_failed == 0 {
        assert forall|i: int| 0 <= i < run.results.len() implies (
        #[trigger] run.results[i]).status == "success"@ || run.results[i].status == "skipped"@ by {
            if i < run.results.len() - 1 {
                assert(completed(run.results[i]));
            } else {
                assert(run.results[i] == run.results.last());
            }
        }
    } else {
        assert(!completed(run.results.last()));
        assert(run.results.last() == run.results[run.results.len() - 1]);
    }
}

/// A preview of an output is there where the output is not blank; it is the output, cut
/// off behind its first characters where it is longer.
pub proof fn law_previews(raw: Seq<char>)
    ensures
        output_preview(raw) is None <==> forall|i: int|
            0 <= i < raw.len() ==> is_white(#[trigger] raw[i]),
        output_preview(raw) is Some && raw.len() <= OUTPUT_PREVIEW_CHARS ==> output_preview(raw)
            == Some(raw),
        output_preview(raw) is Some && raw.len() > OUTPUT_PREVIEW_CHARS ==> output_preview(raw)
            == Some(raw.take(OUTPUT_PREVIEW_CHARS as int) + "\n[truncated]"@),
{
    law_trimmed(raw, white_space());
    if output_preview(raw) is None {
        assert forall|i: int| 0 <= i < raw.len() implies is_white(#[trigger] raw[i]) by {
            assert(white_space()(raw[i]));
        }
    }
}

/// A command's step succeeds exactly where the command did, and names its step.
pub proof fn law_command_outcomes(
    operation: DeployOperationView,
    success: bool,
    status_code: Option<i32>,
    previews: (Option<Seq<char>>, Option<Seq<char>>),
    message: Seq<char>,
)
    ensures
        ({
            let result = command_outcome(
                operation,
                success,
                status_code,
                previews.0,
                previews.1,
                message,
            );
            &&& result.status == "success"@ <==> success
            &&& result.status == "failed"@ <==> !success
            &&& result.status_code == status_code
            &&& result.stdout_preview == previews.0
            &&& result.stderr_preview == previews.1
            &&& result.message == (if success {
                None
            } else {
                Some(message)
            })
            &&& result.order == operation.order
            &&& result.kind == operation.kind
            &&& result.target == operation.target
        }),
{
    reveal_strlit("success");
    reveal_strlit("failed");
    assert("success"@.len() != "failed"@.len());
}

/// The programs that a setting can replace, each by its own; no other program can be.
pub proof fn law_which_programs_can_be_replaced(program: Seq<char>)
    ensures
        program_setting("docker"@) == Some("OPSCTL_DOCKER_BIN"@),
        program_setting("caddy"@) == Some("OPSCTL_CADDY_BIN"@),
        program_setting("systemctl"@) == Some("OPSCTL_SYSTEMCTL_BIN"@),
        program_setting("npm"@) == Some("OPSCTL_NPM_BIN"@),
        program_setting("pnpm"@) == Some("OPSCTL_PNPM_BIN"@),
        program_setting("bun"@) == Some("OPSCTL_BUN_BIN"@),
        program_setting("php"@) == Some("OPSCTL_PHP_BIN"@),
        program_setting("composer"@) == Some("OPSCTL_COMPOSER_BIN"@),
        program_setting(program) is Some ==> program == "docker"@ || program == "caddy"@ || program
            == "systemctl"@ || program == "npm"@ || program == "pnpm"@ || program == "bun"@
            || program == "php"@ || program == "composer"@,
{
    reveal_strlit("docker");
    reveal_strlit("caddy");
    reveal_strlit("systemctl");
    reveal_strlit("npm");
    reveal_strlit("pnpm");
    reveal_strlit("bun");
    reveal_strlit("php");
    reveal_strlit("composer");
    assert("docker"@.len() == 6 && "caddy"@.len() == 5 && "systemctl"@.len() == 9 && "npm"@.len()
        == 3 && "pnpm"@.len() == 4 && "bun"@.len() == 3 && "php"@.len() == 3 && "composer"@.len()
        == 8 && "npm"@[0] == 'n' && "bun"@[0] == 'b' && "php"@[0] == 'p');
}

/// Only a check of the proxy's configuration has its file replaced by the one at hand.
pub proof fn law_which_arguments_are_replaced(kind: Seq<char>, arg: Seq<char>, config: Seq<char>)
    ensures
        placed_arg(kind, arg, config) == config || placed_arg(kind, arg, config) == arg,
        placed_arg(kind, arg, config) != arg ==> kind == "ValidateCaddy"@ && arg == caddyfile(),
        kind == "ValidateCaddy"@ ==> placed_arg(kind, caddyfile(), config) == config,
{
}

} // verus!
