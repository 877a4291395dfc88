//! Plans, runs and journals of deploys.

use opsctl::command::CommandOutput;
use opsctl::deploy::files::{
    allowed_migration_command, copy_static_site_entry, ensure_static_site_destination,
    execute_migration_operation, execute_static_site_sync, parse_file_mode, refuse_site_source, safe_working_dir,
    static_site_destination_allowed, static_site_file_is_sensitive, static_site_marker_content,
    validate_static_site_destination, SiteAction, SiteEntry, StaticSiteCopyResult,
};
use opsctl::deploy::gates::{
    approval_gate, deploy_decision, deploy_exit_code, ensure_dry_run, execute_deploy,
    expected_deploy_approval_token, expected_deploy_resume_approval_scope,
    expected_deploy_resume_approval_token, finish_deploy, plan_deploy, report_text,
    DeployExecutionOptions,
};
use opsctl::deploy::health::{
    check_caddy_route_http, check_docker_container_health, check_port_listening, check_site_entry,
    check_static_site_sync_health, execute_post_deploy_health_check, goes_on, health_retries,
    health_retry_delay_ms, health_timeout, judge_container, judge_site, list_health_targets,
    parse_http_status_code, refuse_site_check, HealthTarget, RouteProbe, SiteStep,
};
use opsctl::deploy::journal::{
    check_deploy_journal, deploy_journal_id, execute_deploy_resume, inspect_deploy_journal,
    is_listed_journal, list_deploy_journals, refuse_deploy_journal, refuse_journals_directory,
    resume_deploy_journal, sanitize_deploy_id_part, validate_deploy_journal_id,
    DeployResumeExecutionOptions, LoadedJournal,
};
use opsctl::deploy::operations::deploy_operations;
use opsctl::deploy::run::{
    controlled_program, execute_argv_operation, execute_operation, failure_result, finish_run,
    next_operation, preview_text, record_result, start_run, success_result, OperationAction,
};
use opsctl::deploy::types::{
    BuildChanges, BuildStep, CaddyChanges, CaddyRouteChange, DeployExecutionReport, DeployOperation,
    DeployOptions, DeployPlan, DeployStatus, DockerChanges, FileChanges, HealthChanges,
    LaravelChanges, MigrationChanges, PlanChanges, PlanPreflight, PortChanges, PreflightReport,
    PreflightStatus, SnapshotCheck, StaticSiteChanges, StaticSiteSync, SystemdChanges,
    SystemdUnitChange,
};
use opsctl::deploy::writeback::{apply_registry_writeback, service_id_for_plan};
use opsctl::entries::EntryKind;
use opsctl::registry::{
    BackupsRegistry, DomainsRegistry, PoliciesRegistry, PortRecord, PortsRegistry, Registry,
    ServicesRegistry, SnapshotsRegistry, VolumesRegistry,
};

fn text(s: &str) -> String {
    s.to_string()
}

fn production_plan() -> DeployPlan {
    DeployPlan {
        id: text("plan-safe-production"),
        environment: text("production"),
        project_root: text("/srv/shop"),
        service_id: Some(text("shop")),
        snapshot_required: Some(true),
        preflight: None,
        changes: PlanChanges {
            ports: PortChanges { reserve: vec![8080] },
            caddy: CaddyChanges {
                routes: vec![CaddyRouteChange {
                    host: text("shop.example.com"),
                    upstream: text("127.0.0.1:8080"),
                }],
            },
            docker: DockerChanges {
                compose_project: Some(text("shop")),
                containers: vec![text("shop-web-1")],
                volumes: vec![text("shop_data")],
            },
            static_site: StaticSiteChanges { sync: Vec::new() },
            build: BuildChanges { steps: Vec::new() },
            laravel: LaravelChanges {
                optimize: false,
                config_cache: false,
                route_cache: false,
                view_cache: false,
            },
            systemd: SystemdChanges { units: Vec::new() },
            migrations: MigrationChanges { required: false, command: None },
            files: FileChanges { write: Vec::new(), typed: Vec::new() },
            health: HealthChanges {
                enabled: true,
                docker: None,
                ports: None,
                caddy: None,
                static_site: None,
            },
        },
    }
}

fn passed() -> PreflightReport {
    PreflightReport { status: PreflightStatus::Passed, approvals_required: Vec::new() }
}

fn verified_snapshot(plan: &DeployPlan) -> SnapshotCheck {
    SnapshotCheck {
        verification_error: None,
        ok: true,
        artifacts_failed: 0,
        plan_id: plan.id.clone(),
        status: text("created"),
        preflight_status: text("passed"),
        archive_error: None,
        archive_ok: true,
        archive_findings: 0,
    }
}

#[test]
fn dry_run_requires_snapshot_for_production_plan() {
    let plan = production_plan();
    let approved = Vec::new();
    let report = plan_deploy(
        &DeployOptions { plan: &plan, dry_run: true, snapshot_id: None, approved: &approved },
        &passed(),
        &verified_snapshot(&plan),
    );

    assert_eq!(report.status, DeployStatus::Blocked);
    assert_eq!(
        report.snapshot.as_ref().map(|snapshot| snapshot.status.as_str()),
        Some("missing")
    );
}

#[test]
fn dry_run_with_verified_snapshot_is_ready() {
    let plan = production_plan();
    let approved = Vec::new();
    let report = plan_deploy(
        &DeployOptions {
            plan: &plan,
            dry_run: true,
            snapshot_id: Some("snap-1"),
            approved: &approved,
        },
        &passed(),
        &verified_snapshot(&plan),
    );

    assert_eq!(report.status, DeployStatus::Ready, "{:?}", report.refusals);
    assert!(report.operations.iter().any(|operation| operation.kind == "ComposeUp"));
}

#[test]
fn dry_run_blocks_tampered_snapshot_artifacts() {
    let plan = production_plan();
    let approved = Vec::new();
    let mut check = verified_snapshot(&plan);
    check.ok = false;
    check.artifacts_failed = 1;
    let report = plan_deploy(
        &DeployOptions {
            plan: &plan,
            dry_run: true,
            snapshot_id: Some("snap-1"),
            approved: &approved,
        },
        &passed(),
        &check,
    );

    assert_eq!(report.status, DeployStatus::Blocked);
    let snapshot_gate = report.snapshot.as_ref().expect("snapshot gate is required");
    assert_eq!(snapshot_gate.status, "invalid");
    assert!(snapshot_gate
        .reason
        .as_deref()
        .is_some_and(|reason| reason.contains("failed checksum verification")));
    assert!(report
        .refusals
        .iter()
        .any(|refusal| refusal.contains("artifact verification failed")));
}

#[test]
fn dry_run_blocks_snapshot_with_unsafe_archive_member() {
    let plan = production_plan();
    let approved = Vec::new();
    let mut check = verified_snapshot(&plan);
    check.archive_ok = false;
    check.archive_findings = 1;
    let report = plan_deploy(
        &DeployOptions {
            plan: &plan,
            dry_run: true,
            snapshot_id: Some("snap-1"),
            approved: &approved,
        },
        &passed(),
        &check,
    );

    assert_eq!(report.status, DeployStatus::Blocked);
    let snapshot_gate = report.snapshot.as_ref().expect("snapshot gate is required");
    assert_eq!(snapshot_gate.status, "invalid");
    assert!(snapshot_gate
        .reason
        .as_deref()
        .is_some_and(|reason| reason.contains("archive finding")));
    assert!(report
        .refusals
        .iter()
        .any(|refusal| refusal.contains("archive inspection failed")));
}

#[test]
fn stale_embedded_passed_preflight_is_blocked() {
    let mut plan = production_plan();
    plan.preflight = Some(PlanPreflight { status: Some(text("passed")) });
    let approved = Vec::new();
    let fresh = PreflightReport {
        status: PreflightStatus::Blocked,
        approvals_required: Vec::new(),
    };
    let report = plan_deploy(
        &DeployOptions { plan: &plan, dry_run: true, snapshot_id: None, approved: &approved },
        &fresh,
        &verified_snapshot(&plan),
    );

    assert_eq!(report.status, DeployStatus::Blocked);
    assert!(report.preflight.stale_embedded_result);
}

#[test]
fn needs_approval_plan_is_ready_with_matching_approval_and_snapshot() {
    let mut plan = production_plan();
    plan.changes.migrations =
        MigrationChanges { required: true, command: Some(text("php artisan migrate --force")) };
    let fresh = PreflightReport {
        status: PreflightStatus::NeedsApproval,
        approvals_required: vec![text("production_migration")],
    };
    let approved = vec![text("production_migration")];
    let mut check = verified_snapshot(&plan);
    check.preflight_status = text("needs_approval");
    let report = plan_deploy(
        &DeployOptions {
            plan: &plan,
            dry_run: true,
            snapshot_id: Some("snap-1"),
            approved: &approved,
        },
        &fresh,
        &check,
    );

    assert_eq!(report.status, DeployStatus::Ready, "{:?}", report.refusals);
    assert!(report.approval.is_some_and(|approval| approval.satisfied));
}

#[test]
fn list_deploy_journals_refuses_symlinked_journal_directory() {
    let error = refuse_journals_directory(Some(EntryKind::Symlink), "/state/deploy-journals");
    assert!(error.is_some_and(|words| words.contains("symlink")));
}

#[test]
fn only_directories_are_published() {
    assert_eq!(refuse_site_source(EntryKind::Dir, "/srv/app/dist"), None);
    assert_eq!(
        refuse_site_source(EntryKind::Symlink, "/srv/app/dist").as_deref(),
        Some("refusing static site source symlink: /srv/app/dist")
    );
    assert_eq!(
        refuse_site_source(EntryKind::File, "/srv/app/dist").as_deref(),
        Some("static site source must be a directory: /srv/app/dist")
    );
}

#[test]
fn only_plain_journals_are_listed_and_read() {
    let path = "/state/deploy-journals/deploy-a.json";
    assert!(is_listed_journal(path, EntryKind::File, 2_097_152));
    assert!(!is_listed_journal(path, EntryKind::File, 2_097_153));
    assert!(!is_listed_journal(path, EntryKind::Symlink, 10));
    assert!(!is_listed_journal("/state/deploy-journals/deploy-a.tmp", EntryKind::File, 10));
    assert_eq!(refuse_deploy_journal(path, EntryKind::File, 10), None);
    assert_eq!(
        refuse_deploy_journal(path, EntryKind::Symlink, 10).as_deref(),
        Some("refusing to read deploy journal symlink: /state/deploy-journals/deploy-a.json")
    );
    assert_eq!(
        refuse_deploy_journal(path, EntryKind::Dir, 10).as_deref(),
        Some("deploy journal is not a regular file: /state/deploy-journals/deploy-a.json")
    );
    assert_eq!(
        refuse_deploy_journal(path, EntryKind::File, 3_000_000).as_deref(),
        Some("deploy journal exceeds size limit: /state/deploy-journals/deploy-a.json")
    );
    assert_eq!(refuse_journals_directory(None, "/state/deploy-journals"), None);
    assert_eq!(
        refuse_journals_directory(Some(EntryKind::File), "/state/deploy-journals").as_deref(),
        Some("deploy journals path is not a directory: /state/deploy-journals")
    );
}

// -- gates -----------------------------------------------------------------

#[test]
fn missing_approval_keeps_a_plan_waiting() {
    let plan = production_plan();
    let fresh = PreflightReport {
        status: PreflightStatus::NeedsApproval,
        approvals_required: vec![text("production_migration"), text("public_port")],
    };
    let approved = vec![text("public_port")];
    let mut check = verified_snapshot(&plan);
    check.preflight_status = text("needs_approval");
    let report = plan_deploy(
        &DeployOptions {
            plan: &plan,
            dry_run: true,
            snapshot_id: Some("snap-1"),
            approved: &approved,
        },
        &fresh,
        &check,
    );
    let approval = report.approval.as_ref().unwrap();
    assert_eq!(approval.missing, vec!["production_migration"]);
    assert!(!approval.satisfied);
    assert_ne!(report.status, DeployStatus::Ready);
}

#[test]
fn no_required_scope_means_no_gate() {
    assert!(approval_gate(&vec![text("x")], &Vec::new()).is_none());
}

#[test]
fn snapshot_of_another_plan_is_refused() {
    let plan = production_plan();
    let approved = Vec::new();
    let mut check = verified_snapshot(&plan);
    check.plan_id = text("plan-other");
    let report = plan_deploy(
        &DeployOptions {
            plan: &plan,
            dry_run: true,
            snapshot_id: Some("snap-1"),
            approved: &approved,
        },
        &passed(),
        &check,
    );
    assert_eq!(report.snapshot.unwrap().status, "mismatched_plan");
    assert_eq!(
        report.refusals,
        vec!["snapshot snap-1 belongs to plan plan-other, not plan-safe-production"]
    );
}

#[test]
fn statuses_have_exit_codes_and_decisions() {
    assert_eq!(deploy_exit_code(DeployStatus::Ready), 0);
    assert_ne!(deploy_exit_code(DeployStatus::Blocked), 0);
    assert_ne!(deploy_decision(DeployStatus::Ready), deploy_decision(DeployStatus::Blocked));
    assert!(ensure_dry_run(true).is_ok());
    assert!(ensure_dry_run(false).is_err());
}

#[test]
fn execution_needs_its_token() {
    let plan = production_plan();
    let token = expected_deploy_approval_token(&plan, Some("snap-1"));
    let approved = Vec::new();
    let attempt = |given: &str, approved: &Vec<String>| {
        execute_deploy(
            &DeployExecutionOptions {
                plan: &plan,
                snapshot_id: Some("snap-1"),
                approved,
                approval_token: given,
                operation_order: None,
            },
            &passed(),
            &verified_snapshot(&plan),
        )
    };
    assert!(attempt("wrong", &approved).is_err());
    let without_scope = attempt(&token, &approved);
    let scope = plan_deploy(
        &DeployOptions {
            plan: &plan,
            dry_run: false,
            snapshot_id: Some("snap-1"),
            approved: &approved,
        },
        &passed(),
        &verified_snapshot(&plan),
    )
    .execution_approval_scope;
    if let Some(scope) = scope {
        assert!(without_scope.is_err());
        let run = attempt(&token, &vec![scope]).unwrap();
        assert_eq!(run.operations.len(), run.report.operations.len());
    }
}

#[test]
fn report_is_written_out() {
    let plan = production_plan();
    let approved = Vec::new();
    let report = plan_deploy(
        &DeployOptions { plan: &plan, dry_run: true, snapshot_id: None, approved: &approved },
        &passed(),
        &verified_snapshot(&plan),
    );
    let written = report_text(&report);
    assert!(written.contains("plan-safe-production"), "{written}");
}

// -- operations ------------------------------------------------------------

#[test]
fn steps_are_numbered_and_end_with_the_registry() {
    let mut plan = production_plan();
    plan.changes.build = BuildChanges {
        steps: vec![BuildStep { adapter: text("npm"), script: Some(text("build")) }],
    };
    plan.changes.systemd = SystemdChanges {
        units: vec![SystemdUnitChange { unit: text("shop.service"), action: text("restart") }],
    };
    let operations = deploy_operations(&plan);
    for (index, operation) in operations.iter().enumerate() {
        assert_eq!(operation.order as usize, index + 1);
        assert!(!operation.destructive);
    }
    let kinds: Vec<&str> = operations.iter().map(|operation| operation.kind.as_str()).collect();
    assert_eq!(kinds.last().copied(), Some("WriteRegistry"), "{kinds:?}");
    assert!(kinds.contains(&"ComposeUp"));
}

#[test]
fn commands_come_from_the_operation() {
    let operations = deploy_operations(&production_plan());
    let compose = operations.iter().find(|operation| operation.kind == "ComposeUp").unwrap();
    assert_eq!(execute_operation(compose), OperationAction::RunCommand);
    let call = execute_argv_operation(compose, "/etc/caddy/Caddyfile").unwrap();
    assert_eq!(call.program, compose.argv[0]);
    assert_eq!(call.args.len(), compose.argv.len() - 1);
    let mut empty = compose.clone();
    empty.argv = Vec::new();
    assert!(execute_argv_operation(&empty, "/etc/caddy/Caddyfile").is_err());
    assert_eq!(controlled_program("rm"), None);
}

// -- runs ------------------------------------------------------------------

fn run_of(plan: &DeployPlan, operations: &Vec<DeployOperation>) -> DeployExecutionReport {
    start_run("deploy-x", "/j/deploy-x.json", plan, Some("snap-1"), "t0", operations).unwrap()
}

#[test]
fn runs_stop_at_the_first_failure() {
    let plan = production_plan();
    let operations = deploy_operations(&plan);
    let mut run = run_of(&plan, &operations);
    assert!(record_result(&mut run, &operations[0], success_result(&operations[0], text("done"))));
    let failed = failure_result(&operations[1], text("broken"), Some(1), None, None);
    assert!(!record_result(&mut run, &operations[1], failed));
    finish_run(&mut run, "t1");
    assert_eq!(run.status, "failed");
    assert_eq!(run.operations_executed, 2);
    assert_eq!(run.operations_succeeded, 1);
    assert_eq!(run.operations_failed, 1);
    assert_eq!(run.operations_skipped, 0);
    assert_eq!(run.completed_at.as_deref(), Some("t1"));
}

#[test]
fn runs_of_successes_succeed() {
    let plan = production_plan();
    let operations = deploy_operations(&plan);
    let mut run = run_of(&plan, &operations);
    for operation in &operations {
        assert!(record_result(&mut run, operation, success_result(operation, text("done"))));
    }
    finish_run(&mut run, "t1");
    assert_eq!(run.operations_succeeded, operations.len());
    assert_eq!(run.operations_skipped, 0);
    assert_ne!(run.status, "failed");
    assert!(start_run("deploy-x", "/j", &plan, None, "t0", &Vec::new()).is_err());
}

#[test]
fn previews_are_short() {
    assert_eq!(preview_text("  \n "), None);
    assert!(preview_text("short").is_some_and(|preview| preview.contains("short")));
}

// -- journals --------------------------------------------------------------

#[test]
fn journal_ids_are_checked() {
    assert!(validate_deploy_journal_id("deploy-plan-1").is_ok());
    assert_eq!(
        validate_deploy_journal_id("../deploy"),
        Err(text("invalid deploy journal id: ../deploy"))
    );
    assert!(validate_deploy_journal_id("deploy-").is_err());
    assert!(validate_deploy_journal_id("deploy-A").is_err());
    let id = deploy_journal_id(&production_plan(), "123");
    assert!(validate_deploy_journal_id(&id).is_ok(), "{id}");
    assert!(!sanitize_deploy_id_part("A b/C").contains('/'));
}

#[test]
fn journals_are_listed_latest_first() {
    let plan = production_plan();
    let operations = deploy_operations(&plan);
    let loaded = |id: &str, started: &str| {
        let mut journal = run_of(&plan, &operations);
        journal.journal_id = text(id);
        journal.started_at = text(started);
        LoadedJournal { path: format!("/j/{id}.json"), journal }
    };
    let list = list_deploy_journals(
        "/j",
        &vec![loaded("deploy-a", "1"), loaded("deploy-c", "2"), loaded("deploy-b", "2")],
    )
    .unwrap();
    let ids: Vec<&str> = list.journals.iter().map(|item| item.journal_id.as_str()).collect();
    assert_eq!(ids, vec!["deploy-c", "deploy-b", "deploy-a"]);
    let refused =
        list_deploy_journals("/j", &vec![loaded("deploy-a", "1"), loaded("deploy-../x", "2")]);
    assert_eq!(refused.err().as_deref(), Some("invalid deploy journal id: deploy-../x"));
}

#[test]
fn journals_are_checked_when_read() {
    let plan = production_plan();
    let operations = deploy_operations(&plan);
    let mut journal = run_of(&plan, &operations);
    assert!(check_deploy_journal(&journal).is_ok());
    assert!(inspect_deploy_journal("deploy-y", "/j", journal.clone()).is_err());
    assert!(inspect_deploy_journal("deploy-x", "/j", journal.clone()).is_ok());
    journal.schema_version = text("v0");
    assert_eq!(
        check_deploy_journal(&journal),
        Err(text("unsupported deploy journal schema version: v0"))
    );
}

#[test]
fn journals_are_handed_out_under_their_own_valid_id() {
    let plan = production_plan();
    let operations = deploy_operations(&plan);
    let journal = |id: &str, schema: &str| {
        let mut journal = run_of(&plan, &operations);
        journal.journal_id = text(id);
        journal.schema_version = text(schema);
        journal
    };
    let known = "opsctl.deploy_journal.v1";
    let long = format!("deploy-{}", "a".repeat(180));
    for id in ["deploy-x", "deploy-a_1-b", long.as_str()] {
        let report = inspect_deploy_journal(id, "/j", journal(id, known)).unwrap();
        assert!(report.read_only);
        assert_eq!((report.journal_id.as_str(), report.journal.journal_id.as_str()), (id, id));
        assert!(resume_deploy_journal(&journal(id, known), id, &plan).is_ok());
    }
    let longer = format!("deploy-{}", "a".repeat(181));
    for id in ["deploy-../x", "deploy-", "Deploy-a", "deploy-A", "x", longer.as_str()] {
        let words = format!("invalid deploy journal id: {id}");
        assert_eq!(inspect_deploy_journal(id, "/j", journal(id, "v0")).err(), Some(words.clone()));
        assert_eq!(
            resume_deploy_journal(&journal(id, known), id, &plan).err(),
            Some(words)
        );
    }
    for (found, schema, words) in [
        ("deploy-y", "v0", "unsupported deploy journal schema version: v0"),
        ("deploy-../y", known, "invalid deploy journal id: deploy-../y"),
        ("deploy-y", known, "deploy journal id mismatch: requested deploy-x, found deploy-y"),
    ] {
        let refused = inspect_deploy_journal("deploy-x", "/j", journal(found, schema));
        assert_eq!(refused.err().as_deref(), Some(words));
        let refused = resume_deploy_journal(&journal(found, schema), "deploy-x", &plan);
        assert_eq!(refused.err().as_deref(), Some(words));
    }
}

#[test]
fn runs_take_their_operations_in_order() {
    let plan = production_plan();
    let operations = deploy_operations(&plan);
    let mut run = run_of(&plan, &operations);
    let mut taken = Vec::new();
    while let Some(operation) = next_operation(&run, &operations) {
        taken.push(operation.order);
        record_result(&mut run, operation, success_result(operation, text("done")));
    }
    finish_run(&mut run, "t1");
    let orders: Vec<u32> = operations.iter().map(|operation| operation.order).collect();
    assert_eq!(taken, orders);
    assert_eq!(run.results.iter().map(|result| result.order).collect::<Vec<u32>>(), orders);
    assert_eq!(run.status, "success");
    assert!(run.registry_updated);
    let mut run = run_of(&plan, &operations);
    let first = next_operation(&run, &operations).unwrap().clone();
    record_result(&mut run, &first, failure_result(&first, text("broken"), None, None, None));
    assert!(next_operation(&run, &operations).is_none());
    finish_run(&mut run, "t1");
    assert_eq!(run.status, "failed");
    assert!(!run.registry_updated);
}

#[test]
fn resume_repeats_nothing() {
    let plan = production_plan();
    let operations = deploy_operations(&plan);
    let mut run = run_of(&plan, &operations);
    record_result(&mut run, &operations[0], success_result(&operations[0], text("done")));
    record_result(
        &mut run,
        &operations[1],
        failure_result(&operations[1], text("broken"), Some(1), None, None),
    );
    finish_run(&mut run, "t1");
    let resume = resume_deploy_journal(&run, "deploy-x", &plan).unwrap();
    assert!(resume.can_resume, "{:?}", resume.blockers);
    assert_eq!(resume.executed_orders, vec![1]);
    assert_eq!(resume.next_operations.len(), operations.len() - 1);
    assert_eq!(resume.next_operations[0].order, 2);
    let approved = vec![expected_deploy_resume_approval_scope("deploy-x")];
    let token = expected_deploy_resume_approval_token(&plan, "deploy-x");
    let go_on = |journal_id: &str, token: &str| {
        execute_deploy_resume(
            &DeployResumeExecutionOptions {
                plan: &plan,
                journal_id,
                approved: &approved,
                approval_token: token,
            },
            &run,
            &passed(),
            &verified_snapshot(&plan),
        )
    };
    assert!(go_on("deploy-x", "wrong").is_err());
    assert_eq!(
        go_on("deploy-y", &token).err().as_deref(),
        Some("deploy journal id mismatch: requested deploy-y, found deploy-x")
    );
    let going = go_on("deploy-x", &token).unwrap();
    assert_eq!(going.next_operations.len(), operations.len() - 1);
}

#[test]
fn finished_runs_do_not_resume() {
    let plan = production_plan();
    let operations = deploy_operations(&plan);
    let mut run = run_of(&plan, &operations);
    for operation in &operations {
        record_result(&mut run, operation, success_result(operation, text("done")));
    }
    finish_run(&mut run, "t1");
    let resume = resume_deploy_journal(&run, "deploy-x", &plan).unwrap();
    assert!(!resume.can_resume);
    assert!(!resume.blockers.is_empty());
    let approved = Vec::new();
    let report = plan_deploy(
        &DeployOptions {
            plan: &plan,
            dry_run: false,
            snapshot_id: Some("snap-1"),
            approved: &approved,
        },
        &passed(),
        &verified_snapshot(&plan),
    );
    assert!(finish_deploy(report, run).execution.is_some());
}

// -- health ----------------------------------------------------------------

#[test]
fn health_targets_follow_the_plan() {
    let targets = list_health_targets(&production_plan());
    assert!(targets.iter().any(|target| matches!(target, HealthTarget::Container(name) if name == "shop-web-1")));
    assert!(targets.iter().any(|target| matches!(target, HealthTarget::Port(8080))));
}

#[test]
fn one_failed_check_fails_the_deploy() {
    let operations = deploy_operations(&production_plan());
    let good = check_port_listening(8080, true, None);
    let bad = check_port_listening(8081, false, Some("refused"));
    assert_eq!((good.status.as_str(), bad.status.as_str()), ("success", "failed"));
    let result = execute_post_deploy_health_check(&operations[0], vec![good, bad]);
    assert_ne!(result.status, "success");
    let fine = execute_post_deploy_health_check(
        &operations[0],
        vec![check_port_listening(8080, true, None)],
    );
    assert_eq!(fine.status, "success");
}

#[test]
fn containers_are_judged_by_their_state() {
    let output = |stdout: &str| {
        Ok(CommandOutput {
            success: true,
            status_code: Some(0),
            stdout: text(stdout),
            stderr: String::new(),
        })
    };
    assert!(judge_container(&output("running healthy\n")).0);
    assert!(!judge_container(&output("exited unhealthy\n")).0);
    assert!(!judge_container(&Err(text("no docker"))).0);
    assert_eq!(check_docker_container_health("c", None).status, "failed");
}

#[test]
fn http_status_lines_are_read() {
    assert_eq!(parse_http_status_code("HTTP/1.1 200 OK"), Some(200));
    assert_eq!(parse_http_status_code("HTTP/2 404"), Some(404));
    assert_eq!(parse_http_status_code("SMTP 220"), None);
    assert_eq!(parse_http_status_code("HTTP/1.1"), None);
    assert_eq!(
        check_caddy_route_http("h", &RouteProbe::Failed(Some(text("timeout")))).status,
        "failed"
    );
}

#[test]
fn settings_are_bounded() {
    assert!(goes_on(0, 3, false) && goes_on(2, 3, false));
    assert!(!goes_on(3, 3, false) && !goes_on(1, 3, true));
    assert_eq!(health_retries(None), 3);
    assert_eq!(health_retries(Some("0")), 3);
    assert_eq!(health_retries(Some("20")), 20);
    assert_eq!(health_retries(Some("100")), 3);
    assert_eq!(health_retry_delay_ms(Some("99999")), 100);
    assert_eq!(health_retry_delay_ms(Some("10000")), 10000);
    assert_eq!(health_timeout(Some("5")), 5);
    assert_eq!(health_timeout(Some("x")), 750);
}

#[test]
fn sites_are_checked_file_by_file() {
    assert_eq!(refuse_site_check(EntryKind::Dir, EntryKind::File), None);
    assert!(refuse_site_check(EntryKind::Symlink, EntryKind::File).is_some());
    assert!(refuse_site_check(EntryKind::Dir, EntryKind::Other).is_some());
    let mut checked = 0;
    assert_eq!(
        check_site_entry(&mut checked, "/s/a", EntryKind::Dir, "/d/a", None),
        Ok(SiteStep::Enter)
    );
    assert_eq!(
        check_site_entry(&mut checked, "/s/a/i", EntryKind::File, "/d/a/i", Some(EntryKind::File)),
        Ok(SiteStep::Verified)
    );
    assert_eq!(checked, 1);
    assert_eq!(
        check_site_entry(&mut checked, "/s/l", EntryKind::Symlink, "/d/l", None),
        Err(text("static site source contains symlink: /s/l"))
    );
    assert_eq!(
        check_site_entry(&mut checked, "/s/p", EntryKind::Other, "/d/p", None),
        Err(text("static site source contains non-regular file: /s/p"))
    );
    assert_eq!(
        check_site_entry(&mut checked, "/s/f", EntryKind::File, "/d/f", None),
        Err(text("missing synced static site file /d/f"))
    );
    assert_eq!(
        check_site_entry(&mut checked, "/s/f", EntryKind::File, "/d/f", Some(EntryKind::Dir)),
        Err(text("synced static site target is not a regular file: /d/f"))
    );
    checked = 63;
    assert_eq!(
        check_site_entry(&mut checked, "/s/f", EntryKind::File, "/d/f", Some(EntryKind::File)),
        Ok(SiteStep::Enough)
    );
    assert_eq!(judge_site(0), Err(text("static site source contains no files to verify")));
    assert_eq!(judge_site(3), Ok(text("static site marker and 3 file(s) verified")));
    assert_eq!(judge_site(64), Ok(text("static site marker and first 64 file(s) verified")));
    assert_eq!(check_static_site_sync_health("/d", &judge_site(3)).status, "success");
}

// -- files -----------------------------------------------------------------

#[test]
fn sites_stay_in_allowed_places() {
    let none = Vec::new();
    assert!(static_site_destination_allowed("/var/www/shop", &none));
    assert!(!static_site_destination_allowed("/var/www", &none));
    assert!(!static_site_destination_allowed("/etc/shop", &none));
    assert!(static_site_destination_allowed("/data/sites/shop", &vec![text("/data/sites")]));
    assert!(validate_static_site_destination("/var/www/../etc", &none, false).is_some());
    assert!(validate_static_site_destination("/var/www/shop", &none, true).is_some());
    let mut plan = production_plan();
    plan.changes.static_site = StaticSiteChanges {
        sync: vec![StaticSiteSync {
            source: text("dist"),
            destination: text("/var/www/shop"),
            deployment_id: text("release-1"),
        }],
    };
    let operations = deploy_operations(&plan);
    let sync = operations.iter().find(|operation| operation.kind == "StaticSiteSync").unwrap();
    let site = execute_static_site_sync(&plan, sync, &none).unwrap();
    assert_eq!((site.destination.as_str(), site.deployment_id.as_str()), ("/var/www/shop", "release-1"));
    assert!(static_site_marker_content("release-1").contains("release-1"));
}

#[test]
fn unmanaged_destinations_are_refused() {
    assert_eq!(ensure_static_site_destination("/var/www/x", None, None, false), None);
    assert!(ensure_static_site_destination("/var/www/x", Some(EntryKind::Dir), None, true).is_some());
    assert_eq!(
        ensure_static_site_destination("/var/www/x", Some(EntryKind::Dir), Some(EntryKind::File), true),
        None
    );
    assert!(ensure_static_site_destination("/var/www/x", Some(EntryKind::Symlink), None, false).is_some());
}

#[test]
fn secrets_are_not_copied() {
    assert!(static_site_file_is_sensitive("/s/.env"));
    assert!(!static_site_file_is_sensitive("/s/index.html"));
    let entry = |path: &str, kind: EntryKind, size: u64| SiteEntry {
        path: format!("/s/{path}"),
        relative: text(path),
        kind,
        size,
    };
    let mut copied = StaticSiteCopyResult { files: 0, bytes: 0 };
    assert_eq!(
        copy_static_site_entry(&mut copied, &entry("css", EntryKind::Dir, 0)),
        Ok(SiteAction::Enter)
    );
    assert_eq!(
        copy_static_site_entry(&mut copied, &entry("index.html", EntryKind::File, 12)),
        Ok(SiteAction::Copy)
    );
    assert_eq!((copied.files, copied.bytes), (1, 12));
    assert!(copy_static_site_entry(&mut copied, &entry(".env", EntryKind::File, 1)).is_err());
    assert!(copy_static_site_entry(&mut copied, &entry("link", EntryKind::Symlink, 1)).is_err());
}

#[test]
fn migrations_are_chosen_from_a_list() {
    let (program, args) = allowed_migration_command("php artisan migrate --force").unwrap();
    assert_eq!((program.as_str(), args.len()), ("php", 3));
    assert!(allowed_migration_command("php artisan migrate; reboot").is_err());
    assert!(allowed_migration_command("rm -rf /").is_err());
    assert!(execute_migration_operation(&production_plan()).is_err());
}

#[test]
fn modes_are_safe_or_refused() {
    assert_eq!(parse_file_mode("420"), Ok(0o644));
    assert_eq!(parse_file_mode("438"), Err(text("unsafe file mode for typed write: 438")));
    assert_eq!(parse_file_mode("9999"), Err(text("unsafe file mode for typed write: 9999")));
    assert_eq!(parse_file_mode("rw"), Err(text("invalid file mode: rw")));
    assert!(safe_working_dir("/w", EntryKind::Symlink).is_some());
    assert_eq!(safe_working_dir("/w", EntryKind::Dir), None);
}

// -- writing back ----------------------------------------------------------

fn empty_registry() -> Registry {
    Registry {
        services: ServicesRegistry { services: Vec::new() },
        ports: PortsRegistry { ports: Vec::new() },
        domains: DomainsRegistry { domains: Vec::new() },
        volumes: VolumesRegistry { volumes: Vec::new() },
        snapshots: SnapshotsRegistry { snapshots: Vec::new() },
        policies: PoliciesRegistry {
            drift_ignores: Vec::new(),
            public_data_port_exceptions: Vec::new(),
        },
        backups: BackupsRegistry { repositories: Vec::new(), recovery_profiles: Vec::new() },
    }
}

#[test]
fn deploys_are_written_into_the_registry() {
    let plan = production_plan();
    assert_eq!(service_id_for_plan(&plan), "shop");
    let written = apply_registry_writeback(&empty_registry(), &plan, 1);
    assert_eq!(written.error, None);
    let services = written.services.unwrap().services;
    assert_eq!(services.len(), 1);
    assert_eq!(services[0].ports, vec![8080]);
    assert_eq!(services[0].domains, vec!["shop.example.com"]);
    assert_eq!(services[0].backup_policy.as_deref(), Some("before_deploy"));
    assert_eq!(written.ports.unwrap().ports[0].port, 8080);
    assert_eq!(written.domains.unwrap().domains[0].host, "shop.example.com");
    assert_eq!(written.volumes.unwrap().volumes[0].name, "shop_data");
}

#[test]
fn ports_of_other_services_are_refused() {
    let mut registry = empty_registry();
    registry.ports.ports.push(PortRecord {
        id: text("p"),
        port: 8080,
        protocol: text("tcp"),
        bind: text("127.0.0.1"),
        service_id: text("blog"),
        purpose: None,
        exposure: text("private"),
        source: text("manual"),
        notes: None,
    });
    let written = apply_registry_writeback(&registry, &production_plan(), 1);
    assert!(written.error.is_some_and(|words| words.contains("8080")));
}
