//! Drift between the registry and the server.

use opsctl::adoption::AdoptionRecord;
use opsctl::drift::adopt::{drift_adopt, drift_service_add, finish_adopt};
use opsctl::drift::approval::{drift_cleanup_approval_pack, drift_cleanup_approval_summary};
use opsctl::drift::candidates::{
    drift_cleanup_plan, drift_cleanup_request_export, LoadedRequest,
};
use opsctl::drift::dashboard::{
    drift_cleanup_dashboard, drift_cleanup_execution_gate, drift_cleanup_worklist,
};
use opsctl::drift::documents::{
    read_drift_cleanup_request_document, read_drift_review_document,
};
use opsctl::drift::evidence::{drift_cleanup_request_evidence, finish_cleanup_evidence};
use opsctl::drift::evidence_plan::drift_cleanup_evidence_plan;
use opsctl::drift::findings::{
    drift_list, finding_adopt_kind, ignore_matches_finding,
};
use opsctl::drift::governance::drift_governance;
use opsctl::drift::groups::{drift_groups, drift_suggest};
use opsctl::drift::handoff::{
    cleanup_request_sha256, drift_cleanup_execute_handoff, drift_cleanup_finalize,
    expected_drift_cleanup_approval_token,
};
use opsctl::drift::ignore::drift_ignore;
use opsctl::drift::journal::{record_adoption, record_finalize};
use opsctl::drift::mark::{drift_cleanup_request_mark, finish_cleanup_mark};
use opsctl::drift::ownership::drift_ownership;
use opsctl::drift::plan::drift_cleanup_execution_plan;
use opsctl::drift::progress::drift_cleanup_request_progress;
use opsctl::drift::review::{drift_review_apply, drift_review_export, LoadedReview};
use opsctl::drift::runbook::drift_cleanup_runbook;
use opsctl::drift::sync::drift_cleanup_request_sync;
use opsctl::drift::triage::drift_cleanup_request_triage;
use opsctl::drift::types::{
    DriftAdoptOptions, DriftCleanupEvidenceOptions, DriftCleanupExecuteOptions,
    DriftCleanupFinalizeOptions, DriftCleanupMarkOptions, DriftCleanupRequestDocument,
    DriftCleanupSyncOptions, DriftFilter, DriftIgnoreOptions, DriftReviewApplyOptions,
    DriftServiceAddOptions,
};
use opsctl::drift::verify::drift_cleanup_request_verify;
use opsctl::drift::volume_scan::{
    content_hints_of, docker_volume_users, inspect_docker_volume, start_sample, visit_entry,
    volume_mountpoint, VolumeEntry, Walk,
};
use opsctl::drift::volumes::drift_cleanup_volume_ownership;
use opsctl::command::CommandOutput;
use opsctl::edits::{append_ignore_rule, append_port_record, unique_record_id};
use opsctl::entries::{refuse_file_read, EntryKind};
use opsctl::registry::{
    BackupsRegistry, DomainRecord, DomainsRegistry, DriftIgnoreRule, PoliciesRegistry, PortRecord,
    PortsRegistry, Registry, Service, ServicesRegistry, SnapshotsRegistry, VolumesRegistry,
};
use opsctl::scan::{
    DetectedDocker, DetectedState, DockerContainer, DockerVolume, Observation, ObservedPort,
    ScanFinding, ScanReport,
};
use sha2::{Digest, Sha256};
use opsctl::transaction::{adoption_file_names, apply_adoption, edit_for_adoption, report_edit};

/// 2026-01-01T00:00:00Z, in nanoseconds.
const NOW: i128 = 1_767_225_600_000_000_000;
const FILE: &str = "/tmp/cleanup.yml";

fn text(s: &str) -> String {
    s.to_string()
}

fn service(id: &str) -> Service {
    Service {
        id: text(id),
        name: text(id),
        root: None,
        kind: text("web"),
        environment: text("production"),
        deploy_method: None,
        owner: None,
        status: text("active"),
        ports: Vec::new(),
        domains: Vec::new(),
        compose_projects: Vec::new(),
        containers: Vec::new(),
        volumes: Vec::new(),
        data_paths: Vec::new(),
        env_files: Vec::new(),
        database: None,
        deployment: None,
        backup_policy: None,
        notes: None,
    }
}

fn registry() -> Registry {
    Registry {
        services: ServicesRegistry { services: vec![service("shop")] },
        ports: PortsRegistry { ports: Vec::new() },
        domains: DomainsRegistry { domains: Vec::new() },
        volumes: VolumesRegistry { volumes: Vec::new() },
        snapshots: SnapshotsRegistry { snapshots: Vec::new() },
        policies: PoliciesRegistry {
            drift_ignores: Vec::new(),
            public_data_port_exceptions: Vec::new(),
        },
        backups: BackupsRegistry { repositories: Vec::new(), recovery_profiles: Vec::new() },
    }
}

fn finding(code: &str, target: &str) -> ScanFinding {
    ScanFinding {
        severity: text("warn"),
        code: text(code),
        message: format!("observed {target} that is not registered"),
        target: Some(text(target)),
    }
}

fn observation() -> Observation {
    Observation {
        scan: ScanReport {
            detected: DetectedState {
                ports: vec![ObservedPort {
                    protocol: text("tcp"),
                    bind: text("0.0.0.0"),
                    port: 9000,
                    process: Some(text("node")),
                }],
                docker: DetectedDocker {
                    containers: vec![DockerContainer {
                        names: Some(text("old-web-1")),
                        image: Some(text("old:1")),
                        status: Some(text("Exited (0) 3 days ago")),
                        ports: None,
                        labels: None,
                    }],
                    volumes: vec![DockerVolume {
                        name: Some(text("orphan-volume")),
                        driver: Some(text("local")),
                        scope: Some(text("local")),
                    }],
                    compose_projects: Vec::new(),
                },
            },
            findings: vec![
                finding("observed_unregistered_port", "0.0.0.0:9000/tcp"),
                finding("observed_unregistered_docker_container", "old-web-1"),
                finding("observed_unregistered_docker_volume", "orphan-volume"),
                finding("observed_unregistered_systemd_unit", "user@1000.service"),
            ],
            limitations: Vec::new(),
        },
        volumes: Vec::new(),
        now: NOW,
    }
}

fn request() -> DriftCleanupRequestDocument {
    drift_cleanup_request_export(&registry(), &observation(), "2026-01-01T00:00:00Z").request
}

fn loaded(document: DriftCleanupRequestDocument) -> LoadedRequest {
    LoadedRequest { path: text(FILE), document: Some(document), error: String::new() }
}

fn missing_request() -> LoadedRequest {
    LoadedRequest { path: text(FILE), document: None, error: text("no such file") }
}

fn mark<'a>(ids: &'a [String], none: &'a [String], status: &'a str) -> DriftCleanupMarkOptions<'a> {
    DriftCleanupMarkOptions {
        request_file: FILE,
        request_ids: ids,
        targets: none,
        kind: None,
        target_prefix: None,
        target_contains: None,
        target_suffix: None,
        approval_status: status,
        owner: Some("ops"),
        reason: Some("not used any more"),
        operator_note: None,
        cleanup_strategy: Some("archive then remove"),
        exact_resource_id: None,
        backup_snapshot_id: Some("snap-1"),
        restore_drill_id: Some("drill-1"),
        maintenance_window: Some("sunday"),
        rollback_plan: Some("restore the snapshot"),
        approval_expires_at: Some("2030-01-01T00:00:00Z"),
        execute: true,
    }
}

#[test]
fn drift_ignore_matches_kind_and_target_prefix() {
    let ignore = DriftIgnoreRule {
        id: "ignore-systemd-user-scope".to_string(),
        code: None,
        kind: Some("systemd-unit".to_string()),
        target: None,
        target_prefix: Some("user@".to_string()),
        target_suffix: Some(".service".to_string()),
        target_contains: None,
        owner: "ops".to_string(),
        reason: "system user scope is outside app registry".to_string(),
        expires_at: None,
        status: "active".to_string(),
    };
    let finding = ScanFinding {
        severity: "warn".to_string(),
        code: "observed_unregistered_systemd_unit".to_string(),
        message: "observed running systemd unit user@1000.service that is not registered"
            .to_string(),
        target: Some("user@1000.service".to_string()),
    };

    assert!(ignore_matches_finding(&ignore, &finding, finding_adopt_kind(&finding.code)));
}

#[test]
fn adoption_rolls_back_prior_file_when_second_registry_write_fails() {
    let record = AdoptionRecord::Domain(DomainRecord {
        id: "observed-test-domain".to_string(),
        host: "rollback.opsctl-test.example".to_string(),
        service_id: "missing-service".to_string(),
        upstream: None,
        caddy_managed: Some(false),
        tls: Some("unknown".to_string()),
        status: "active".to_string(),
        notes: Some("test".to_string()),
    });
    let before = registry();

    let edit = edit_for_adoption(&before, &record, "missing-service");
    let outcome = report_edit("/etc/opsctl", &edit);

    assert!(outcome.error.is_some(), "adoption should fail when service update cannot find service_id");
    assert!(outcome.rollback_performed);
    assert!(outcome.changed_files.iter().any(|path| path.ends_with("domains.yml")));
    assert!(outcome.rollback_errors.is_empty());
    let after = apply_adoption(before, edit);
    assert!(after.domains.domains.is_empty());
    assert_eq!(adoption_file_names(&record), vec!["domains.yml", "services.yml"]);
}

#[test]
fn adopted_domains_are_listed_by_their_service() {
    let record = AdoptionRecord::Domain(DomainRecord {
        id: text("d"),
        host: text("a.example"),
        service_id: text("shop"),
        upstream: None,
        caddy_managed: None,
        tls: None,
        status: text("active"),
        notes: None,
    });
    let before = registry();
    let edit = edit_for_adoption(&before, &record, "shop");
    let outcome = report_edit("/r", &edit);
    assert_eq!(outcome.changed_files, vec!["/r/domains.yml", "/r/services.yml"]);
    let after = apply_adoption(before, edit);
    assert_eq!(after.domains.domains.len(), 1);
    assert_eq!(after.services.services[0].domains, vec!["a.example"]);
    let again = edit_for_adoption(&after, &record, "shop");
    assert!(again.error.is_some_and(|words| words.contains("a.example")));
}

// -- findings --------------------------------------------------------------

#[test]
fn findings_are_listed_and_grouped() {
    let list = drift_list(&registry(), &observation());
    assert_eq!(list.active_findings, 4);
    assert!(list.read_only);
    let groups = drift_groups(&registry(), &observation());
    assert_eq!(groups.active_findings, 4);
    let suggestions = drift_suggest(&registry(), &observation());
    assert!(!suggestions.suggestions.is_empty());
}

#[test]
fn ignored_findings_are_counted_apart() {
    let mut with_rule = registry();
    with_rule.policies.drift_ignores.push(DriftIgnoreRule {
        id: text("i"),
        code: None,
        kind: Some(text("docker-volume")),
        target: Some(text("orphan-volume")),
        target_prefix: None,
        target_suffix: None,
        target_contains: None,
        owner: text("ops"),
        reason: text("kept"),
        expires_at: Some(text("2030-01-01T00:00:00Z")),
        status: text("active"),
    });
    let list = drift_list(&with_rule, &observation());
    assert_eq!((list.active_findings, list.ignored_findings), (3, 1));
    with_rule.policies.drift_ignores[0].expires_at = Some(text("2025-01-01T00:00:00Z"));
    let list = drift_list(&with_rule, &observation());
    assert_eq!((list.active_findings, list.ignored_findings), (4, 0));
}

#[test]
fn governance_asks_for_a_decision() {
    let report = drift_governance(&registry(), &observation());
    assert!(report.human_decision_required && report.read_only);
    assert_eq!(report.active_findings, 4);
    assert!(report.cleanup_candidates >= 1);
}

// -- cleanup requests ------------------------------------------------------

#[test]
fn cleanup_plan_generates_no_destructive_command() {
    let plan = drift_cleanup_plan(&registry(), &observation());
    assert!(plan.read_only);
    assert!(!plan.candidates.is_empty());
    let document = request();
    assert_eq!(document.items.len(), plan.candidates.len());
    assert!(document.items.iter().all(|item| !item.destructive_command_generated));
    assert!(document.items.iter().all(|item| item.approval_status == "unknown"));
    let verified = drift_cleanup_request_verify(&loaded(document));
    assert_eq!(verified.unknown, verified.total_items);
    assert!(!verified.destructive_command_generated);
}

#[test]
fn requests_that_cannot_be_read_are_reported() {
    let verified = drift_cleanup_request_verify(&missing_request());
    assert!(!verified.ok);
    assert!(verified.limitations.iter().any(|words| words.contains("no such file")));
    assert!(!drift_cleanup_execution_plan(&missing_request()).ok);
    assert!(!drift_cleanup_runbook(&missing_request()).ok);
    assert!(!drift_cleanup_approval_summary(&missing_request()).ok);
}

#[test]
fn fresh_requests_are_in_step() {
    let document = request();
    let items = document.items.len();
    let progress = drift_cleanup_request_progress(&registry(), &observation(), &loaded(document.clone()));
    assert_eq!((progress.missing_current, progress.stale_items), (0, 0));
    assert_eq!(progress.matched_current, items);
    let sync = drift_cleanup_request_sync(
        &DriftCleanupSyncOptions { registry: &registry(), request_file: FILE, execute: true },
        &observation(),
        &loaded(document),
        "2026-01-02T00:00:00Z",
    );
    assert!(!sync.report.changed);
    assert_eq!((sync.report.added, sync.report.removed_stale), (0, 0));
}

#[test]
fn sync_adds_what_is_new_and_drops_what_is_gone() {
    let mut document = request();
    let dropped = document.items.remove(0);
    document.items[0].target = text("gone");
    let sync = drift_cleanup_request_sync(
        &DriftCleanupSyncOptions { registry: &registry(), request_file: FILE, execute: true },
        &observation(),
        &loaded(document.clone()),
        "2026-01-02T00:00:00Z",
    );
    assert!(sync.report.changed);
    assert_eq!(sync.report.added, 2);
    assert_eq!(sync.report.removed_stale, 1);
    let written = sync.write.unwrap();
    assert_eq!(written.items.len(), document.items.len() + 1);
    assert!(written.items.iter().any(|item| item.target == dropped.target));
    let again = drift_cleanup_request_sync(
        &DriftCleanupSyncOptions { registry: &registry(), request_file: FILE, execute: true },
        &observation(),
        &loaded(written),
        "2026-01-03T00:00:00Z",
    );
    assert!(!again.report.changed);
}

#[test]
fn marked_items_are_ready() {
    let document = request();
    let ids = vec![document.items[0].request_id.clone()];
    let none = Vec::new();
    let mut options = mark(&ids, &none, "approved");
    let target = document.items[0].target.clone();
    options.exact_resource_id = Some(&target);
    let plan = drift_cleanup_request_mark(&options, &loaded(document.clone()), NOW);
    assert!(plan.report.ok, "{:?} {:?}", plan.report.limitations, plan.report.entries);
    assert_eq!((plan.report.matched, plan.report.updated), (1, 1));
    let written = plan.write.unwrap();
    assert_eq!(written.items[0].approval_status, "approved");
    assert_eq!(written.items[1].approval_status, "unknown");
    let finished = finish_cleanup_mark(plan.report, None, "disk full");
    assert!(!finished.ok);
    let again = drift_cleanup_request_mark(&options, &loaded(written.clone()), NOW);
    assert!(again.report.ok && again.write.is_none());
    assert_eq!(again.report.status, "unchanged");
    assert_eq!((again.report.updated, again.report.unchanged), (0, 1));
    let later = drift_cleanup_request_mark(&options, &loaded(written.clone()), i128::MAX);
    assert!(!later.report.ok && later.write.is_none());
    assert_eq!(later.report.updated, 0);
    let execution = drift_cleanup_execution_plan(&loaded(written));
    assert_eq!(execution.approved, 1);
}

#[test]
fn marks_need_a_known_status_and_a_selection() {
    let none: Vec<String> = Vec::new();
    let plan = drift_cleanup_request_mark(&mark(&none, &none, "approved"), &loaded(request()), NOW);
    assert!(!plan.report.ok && plan.write.is_none());
    let ids = vec![text("cleanup-0001")];
    let plan = drift_cleanup_request_mark(&mark(&ids, &none, "sure"), &loaded(request()), NOW);
    assert!(!plan.report.ok && plan.write.is_none());
}

#[test]
fn evidence_records_no_decision() {
    let document = request();
    let none: Vec<String> = Vec::new();
    let plan = drift_cleanup_request_evidence(
        &DriftCleanupEvidenceOptions {
            registry: &registry(),
            request_file: FILE,
            request_ids: &none,
            targets: &none,
            kind: None,
            target_prefix: None,
            target_contains: None,
            target_suffix: None,
            all: true,
            execute: true,
        },
        &observation(),
        &loaded(document.clone()),
        "2026-01-02T00:00:00Z",
    );
    assert_eq!(plan.report.matched, document.items.len());
    if let Some(written) = plan.write {
        for (before, after) in document.items.iter().zip(&written.items) {
            assert_eq!(before.approval_status, after.approval_status);
            assert_eq!(before.owner, after.owner);
            assert_eq!(before.target, after.target);
        }
    }
    assert!(!finish_cleanup_evidence(plan.report, None, "disk full").ok);
}

#[test]
fn execution_stays_closed_until_everything_is_settled() {
    let gate = drift_cleanup_execution_gate(&registry(), &observation(), &loaded(request()));
    assert!(!gate.auto_cleanup_supported && !gate.destructive_execution_supported);
    assert!(gate.unknown > 0);
    assert_ne!(gate.status, "ready_for_human_execution_request");
    let dashboard = drift_cleanup_dashboard(&registry(), &observation(), &loaded(request()));
    assert!(dashboard.read_only);
    let worklist =
        drift_cleanup_worklist(&registry(), &observation(), &loaded(request()), None, None, 1);
    assert_eq!(worklist.returned_items, 1);
    let pack =
        drift_cleanup_approval_pack(&registry(), &observation(), &loaded(request()), None, Some("unknown"), 10);
    assert!(pack.human_approval_required && !pack.destructive_execution_supported);
    let evidence =
        drift_cleanup_evidence_plan(&registry(), &observation(), &loaded(request()), None, None, 10);
    assert!(evidence.read_only);
    let triage = drift_cleanup_request_triage(&registry(), &observation(), &loaded(request()));
    assert_eq!(triage.unknown, request().items.len());
    let volumes = drift_cleanup_volume_ownership(
        &registry(),
        &observation(),
        &loaded(request()),
        Some("all"),
        10,
    );
    assert_eq!(volumes.total_volume_items, 1);
    assert_eq!(volumes.named_volumes, 1);
}

#[test]
fn volume_counts_do_not_depend_on_the_limit() {
    let mut document = request();
    let volume = document.items.iter().find(|item| item.kind == "docker-volume").unwrap().clone();
    for target in ["0".repeat(64), text("a-volume"), "f".repeat(64), "f".repeat(63)] {
        let mut item = volume.clone();
        item.request_id = format!("cleanup-{target}");
        item.target = target;
        document.items.push(item);
    }
    let request = loaded(document);
    let report = |limit: usize| {
        drift_cleanup_volume_ownership(&registry(), &observation(), &request, Some("all"), limit)
    };
    let all = report(100);
    assert_eq!((all.total_volume_items, all.returned_items), (5, 5));
    assert_eq!((all.anonymous_hash_volumes, all.named_volumes), (2, 3));
    assert_eq!(all.attached_volumes + all.unattached_volumes, 5);
    for limit in 0..7 {
        let some = report(limit);
        assert_eq!(some.limit, limit.max(1));
        assert_eq!(some.returned_items, limit.max(1).min(5));
        assert_eq!(some.total_volume_items, 5);
        assert_eq!(some.status, all.status);
        assert_eq!(some.buckets.iter().map(|bucket| bucket.items).sum::<usize>(), 5);
        let targets: Vec<&str> = some.entries.iter().map(|entry| entry.target.as_str()).collect();
        let first: Vec<&str> = all
            .entries
            .iter()
            .take(some.returned_items)
            .map(|entry| entry.target.as_str())
            .collect();
        assert_eq!(targets, first);
    }
}

#[test]
fn counts_of_a_request_add_up() {
    let list = drift_list(&registry(), &observation());
    assert_eq!(
        list.active_findings + list.ignored_findings,
        observation().scan.findings.len()
    );
    let owners = drift_ownership(
        &registry(),
        &observation(),
        &DriftFilter { code: None, target: None },
    );
    assert_eq!(owners.findings.len(), 4);
    assert_eq!(owners.high_confidence + owners.medium_confidence + owners.low_confidence, 4);
    let verified = drift_cleanup_request_verify(&loaded(request()));
    assert!(verified.ok);
    assert_eq!(
        verified.approved + verified.rejected + verified.needs_cleanup + verified.unknown,
        verified.total_items
    );
    let size = request().items.len();
    let pack = |limit: usize| {
        drift_cleanup_approval_pack(
            &registry(),
            &observation(),
            &loaded(request()),
            None,
            Some("all"),
            limit,
        )
    };
    let work = |limit: usize| {
        drift_cleanup_worklist(&registry(), &observation(), &loaded(request()), None, None, limit)
    };
    for limit in 0..size + 2 {
        let (some, all) = (pack(limit), pack(100));
        assert_eq!((some.total_matching_items, all.returned_items), (size, size));
        assert_eq!(some.returned_items, limit.max(1).min(size));
        assert!(some.entries.iter().zip(&all.entries).all(|(a, b)| a.request_id == b.request_id));
        let (some, all) = (work(limit), work(100));
        assert_eq!(some.total_matching_items, all.total_matching_items);
        assert_eq!(some.returned_items, limit.max(1).min(all.returned_items));
        assert!(some.items.iter().zip(&all.items).all(|(a, b)| a.request_id == b.request_id));
    }
    let plan = drift_cleanup_evidence_plan(
        &registry(),
        &observation(),
        &loaded(request()),
        None,
        Some("all"),
        100,
    );
    assert_eq!(plan.docker_volume_items, 1);
    assert_eq!(plan.volume_groups.iter().map(|group| group.items).sum::<usize>(), 1);
}

#[test]
fn handoff_needs_an_approval() {
    let registry = registry();
    let report = drift_cleanup_execute_handoff(
        &DriftCleanupExecuteOptions {
            registry: &registry,
            request_file: FILE,
            state_dir: "/s",
            actor: "ops",
            reason: Some("weekly"),
            approval_satisfied: false,
            approval_token: None,
            execute: true,
        },
        &observation(),
        &loaded(request()),
    );
    assert!(!report.ok && report.manual_execution_only);
    assert_eq!(
        report.expected_approval_token,
        Some(expected_drift_cleanup_approval_token(&drift_cleanup_execution_plan(&loaded(request()))))
    );
    let digest = cleanup_request_sha256(&request());
    assert_eq!(digest.len(), 64);
    assert_eq!(digest, cleanup_request_sha256(&request()));
    let mut changed = request();
    changed.items[0].reason = Some(text("x"));
    assert_ne!(digest, cleanup_request_sha256(&changed));
}

#[test]
fn outcomes_need_evidence() {
    let id = request().items[0].request_id.clone();
    let finalize = |outcome: &str, evidence: Vec<String>| {
        drift_cleanup_finalize(
            &DriftCleanupFinalizeOptions {
                request_file: FILE,
                state_dir: "/s",
                actor: "ops",
                request_id: &id,
                outcome,
                reason: Some("done"),
                evidence,
                execute: true,
            },
            &loaded(request()),
        )
    };
    assert!(!finalize("vanished", Vec::new()).ok);
    let without = finalize("cleaned", Vec::new());
    assert!(without
        .limitations
        .contains(&text("evidence is required for cleaned outcome")));
    assert!(finalize("not_cleaned", Vec::new()).ok);
    assert!(finalize("cleaned", vec![text("snapshot snap-1"), text("drill-1")]).ok);
}

// -- adopting and ignoring -------------------------------------------------

fn adopt<'a>(registry: &'a Registry, target: &'a str, execute: bool) -> DriftAdoptOptions<'a> {
    DriftAdoptOptions {
        registry,
        registry_dir: "/r",
        state_dir: "/s",
        actor: "ops",
        kind: "docker-volume",
        target,
        service_id: "shop",
        exposure: "private",
        purpose: None,
        reason: Some("belongs to shop"),
        operator_note: None,
        review_status: "reviewed",
        execute,
    }
}

#[test]
fn observed_resources_can_be_adopted() {
    let registry = registry();
    let scan = observation().scan;
    let dry = drift_adopt(&adopt(&registry, "orphan-volume", false), &scan, 1);
    assert!(dry.report.ok, "{:?}", dry.report.limitations);
    assert!(!dry.write);
    let plan = drift_adopt(&adopt(&registry, "orphan-volume", true), &scan, 1);
    assert!(plan.write, "{:?}", plan.report.limitations);
    let record = plan.report.record.clone().unwrap();
    let edit = edit_for_adoption(&registry, &record, "shop");
    let done = finish_adopt(plan.report, report_edit("/r", &edit));
    assert!(done.ok);
    assert_eq!(done.changed_files, vec!["/r/volumes.yml", "/r/services.yml"]);
    let unseen = drift_adopt(&adopt(&registry, "other-volume", true), &scan, 1);
    assert!(!unseen.report.ok && !unseen.write);
}

#[test]
fn services_are_added_once() {
    let registry = registry();
    let add = |id: &str| {
        drift_service_add(
            &DriftServiceAddOptions {
                registry: &registry,
                registry_dir: "/r",
                id,
                name: None,
                root: None,
                kind: "web",
                environment: "production",
                deploy_method: None,
                owner: None,
                status: "active",
                backup_policy: None,
                reason: Some("found"),
                notes: None,
                execute: true,
            },
            true,
        )
    };
    let plan = add("blog");
    assert!(plan.write, "{:?}", plan.report.limitations);
    assert!(!add("shop").write);
    assert!(!add("Bad Id").write);
}

#[test]
fn ignore_rules_are_added_once() {
    let registry = registry();
    let plan = drift_ignore(
        &DriftIgnoreOptions {
            registry: &registry,
            registry_dir: "/r",
            state_dir: "/s",
            actor: "ops",
            kind: "docker-volume",
            code: None,
            target: Some("orphan-volume"),
            target_prefix: None,
            target_suffix: None,
            target_contains: None,
            owner: Some("ops"),
            reason: Some("kept for now"),
            expires_at: Some("2030-01-01T00:00:00Z"),
            execute: true,
        },
        &observation(),
        1,
    );
    assert!(plan.write, "{:?}", plan.report.limitations);
    let rule = plan.report.rule.unwrap();
    let policies = append_ignore_rule(&registry.policies, &rule).unwrap();
    assert_eq!(policies.drift_ignores.len(), 1);
    assert!(append_ignore_rule(&policies, &rule).is_err());
}

#[test]
fn reviews_are_all_or_nothing() {
    let export = drift_review_export(&registry(), &observation(), "2026-01-01T00:00:00Z");
    assert_eq!(export.items, 4);
    let options = DriftReviewApplyOptions {
        registry_dir: "/r",
        state_dir: "/s",
        review_file: "/tmp/review.yml",
        actor: "ops",
        execute: true,
    };
    let undecided = drift_review_apply(
        &options,
        &registry(),
        &observation(),
        1,
        &LoadedReview {
            path: text("/tmp/review.yml"),
            document: Some(export.review.clone()),
            error: String::new(),
        },
    );
    assert_eq!(undecided.report.skipped, 4);
    let mut wrong = export.review;
    wrong.groups[0].items[0].action = text("explode");
    let refused = drift_review_apply(
        &options,
        &registry(),
        &observation(),
        1,
        &LoadedReview {
            path: text("/tmp/review.yml"),
            document: Some(wrong),
            error: String::new(),
        },
    );
    assert!(!refused.proceed);
    assert_eq!(refused.report.blocked, 1);
}

#[test]
fn ports_are_registered_once() {
    let port = PortRecord {
        id: text("p"),
        port: 80,
        protocol: text("TCP"),
        bind: text("0.0.0.0"),
        service_id: text("shop"),
        purpose: None,
        exposure: text("public"),
        source: text("manual"),
        notes: None,
    };
    let ports = append_port_record(&PortsRegistry { ports: Vec::new() }, &port).unwrap();
    let mut same = port.clone();
    same.protocol = text("tcp");
    assert!(append_port_record(&ports, &same).is_err());
    let ids = vec![text("shop"), text("shop-2")];
    let id = unique_record_id(&ids, "shop", 1);
    assert!(!ids.contains(&id), "{id}");
}

// -- volumes ---------------------------------------------------------------

#[test]
fn volume_samples_count_what_they_see() {
    let mut sample = start_sample(Some(5));
    let file = VolumeEntry {
        name: text("dump.sql"),
        kind: EntryKind::File,
        size: 10,
        modified: Some(9),
    };
    assert_eq!(visit_entry(&mut sample, &file, 0), Walk::Next);
    let dir = VolumeEntry { name: text("data"), kind: EntryKind::Dir, size: 0, modified: None };
    assert_eq!(visit_entry(&mut sample, &dir, 0), Walk::Descend);
    assert_eq!((sample.sampled_file_count, sample.sampled_dir_count), (1, 1));
    assert_eq!(sample.sampled_size_bytes, 10);
    assert_eq!(sample.latest_mtime_unix, Some(9));
    assert_eq!(sample.scanned_entries, 2);
    assert!(content_hints_of("dump.sql", true).is_empty());
    assert_eq!(content_hints_of("App.SQLite3", true), vec!["sqlite_database_files"]);
    assert!(content_hints_of("app.sqlite3", false).is_empty());
    assert_eq!(content_hints_of("PG_VERSION", true), vec!["postgres_datadir"]);
}

#[test]
fn docker_output_is_read() {
    let inspected = r#"[{"Name": "v", "CreatedAt": "2026-01-01", "Labels": {"b": "1", "a": null}, "Mountpoint": "/var/lib/docker/volumes/v/_data"}]"#;
    assert_eq!(volume_mountpoint(inspected).as_deref(), Some("/var/lib/docker/volumes/v/_data"));
    assert_eq!(volume_mountpoint("not json"), None);
    let lines = inspect_docker_volume(
        &Ok(CommandOutput {
            success: true,
            status_code: Some(0),
            stdout: text(inspected),
            stderr: String::new(),
        }),
        &vec![text("found")],
    );
    assert_eq!(
        lines,
        vec![
            "found",
            "mountpoint=/var/lib/docker/volumes/v/_data",
            "created_at=2026-01-01",
            r#"labels={"a":null,"b":"1"}"#,
        ]
    );
    let failed = inspect_docker_volume(
        &Ok(CommandOutput {
            success: false,
            status_code: Some(1),
            stdout: String::new(),
            stderr: String::new(),
        }),
        &Vec::new(),
    );
    assert_eq!(failed, vec!["volume_inspect=unavailable_status_Some(1)"]);
    assert_eq!(
        docker_volume_users("{\"Names\": \"web-1\"}\nnot json\n{\"Names\": \"worker-1\"}\n"),
        vec!["web-1", "worker-1"]
    );
}

// -- documents and journals ------------------------------------------------

#[test]
fn documents_are_read_from_plain_files_only() {
    let file = Some((EntryKind::File, 100u64));
    let read = read_drift_cleanup_request_document(FILE, file, true, Some(request()));
    assert!(read.document.is_some());
    assert_eq!(read.error, "");
    for (entry, raw, words) in [
        (None, false, "failed to inspect /tmp/cleanup.yml"),
        (
            Some((EntryKind::Symlink, 100u64)),
            true,
            "refusing to read symlinked drift cleanup request file: /tmp/cleanup.yml",
        ),
        (
            Some((EntryKind::Dir, 100u64)),
            true,
            "drift cleanup request path is not a file: /tmp/cleanup.yml",
        ),
        (
            Some((EntryKind::File, 1_048_577u64)),
            true,
            "drift cleanup request file is too large: 1048577 bytes",
        ),
        (file, false, "failed to read drift cleanup request file /tmp/cleanup.yml"),
    ] {
        let read = read_drift_cleanup_request_document(FILE, entry, raw, Some(request()));
        assert!(read.document.is_none());
        assert_eq!(read.error, words);
    }
    let read = read_drift_review_document("/tmp/review.yml", file, true, None);
    assert!(read.document.is_none());
    assert_eq!(read.error, "failed to parse drift review file /tmp/review.yml");
    assert_eq!(refuse_file_read(EntryKind::File, "services registry", "/r/services.yml"), None);
    assert_eq!(
        refuse_file_read(EntryKind::Symlink, "registry file", "/r/services.yml").as_deref(),
        Some("refusing to read registry file symlink: /r/services.yml")
    );
}

#[test]
fn lost_journal_entries_are_reported() {
    let registry = registry();
    let observation = observation();
    let plan = drift_adopt(&adopt(&registry, "orphan-volume", false), &observation.scan, 5);
    let report = record_adoption(plan.report, "/state", &Err(text("disk full")));
    assert_eq!(report.journal_path.as_deref(), Some("/state/drift-adoptions.jsonl"));
    assert!(!report.journal_written);
    assert_eq!(
        report.limitations.last().map(String::as_str),
        Some("failed to write drift adoption journal: disk full")
    );
    let options = DriftCleanupFinalizeOptions {
        request_file: FILE,
        state_dir: "/state",
        actor: "ops",
        request_id: "none",
        outcome: "ignored",
        reason: Some("seen"),
        evidence: vec![],
        execute: true,
    };
    let report = drift_cleanup_finalize(&options, &loaded(request()));
    let limits = report.limitations.len();
    let report = record_finalize(report, "/state", &Ok(()));
    assert_eq!(report.journal_path.as_deref(), Some("/state/drift-cleanup-finalize.jsonl"));
    assert!(report.journal_written);
    assert_eq!(report.limitations.len(), limits);
}

// -- what holds throughout -------------------------------------------------

fn evidence_options<'a>(registry: &'a Registry, none: &'a [String]) -> DriftCleanupEvidenceOptions<'a> {
    DriftCleanupEvidenceOptions {
        registry,
        request_file: FILE,
        request_ids: none,
        targets: none,
        kind: None,
        target_prefix: None,
        target_contains: None,
        target_suffix: None,
        all: true,
        execute: true,
    }
}

#[test]
fn cleanup_steps_are_manual() {
    let document = request();
    let ids = vec![document.items[0].request_id.clone()];
    let none = Vec::new();
    let target = document.items[0].target.clone();
    let mut options = mark(&ids, &none, "approved");
    options.exact_resource_id = Some(&target);
    let marked = drift_cleanup_request_mark(&options, &loaded(document), NOW).write.unwrap();
    let plan = drift_cleanup_execution_plan(&loaded(marked.clone()));
    assert_eq!(
        plan.ready + plan.needs_approval + plan.blocked + plan.skipped,
        plan.total_items
    );
    let runbook = drift_cleanup_runbook(&loaded(marked.clone()));
    assert_eq!(runbook.steps.len(), plan.ready);
    for step in &runbook.steps {
        assert!(!step.safe_to_automate && step.requires_separate_destructive_approval);
        assert!(!step.forbidden_actions.is_empty());
    }
    let evidence =
        drift_cleanup_evidence_plan(&registry(), &observation(), &loaded(marked), None, Some("all"), 10);
    assert!(!evidence.batch_plan.is_empty());
    assert!(evidence.batch_plan.iter().all(|step| !step.destructive));
}

#[test]
fn evidence_is_collected_once() {
    let registry = registry();
    let none: Vec<String> = Vec::new();
    let options = evidence_options(&registry, &none);
    let first = drift_cleanup_request_evidence(
        &options,
        &observation(),
        &loaded(request()),
        "2026-01-02T00:00:00Z",
    );
    let written = first.write.unwrap();
    let second = drift_cleanup_request_evidence(
        &options,
        &observation(),
        &loaded(written),
        "2026-01-03T00:00:00Z",
    );
    assert_eq!(second.report.updated, 0);
    assert!(second.write.is_none());
}

#[test]
fn sync_keeps_the_review() {
    let mut document = request();
    document.items[0].owner = Some(text("ana"));
    document.items[0].approval_status = text("rejected");
    document.items[1].target = text("gone");
    let kept = document.items[0].request_id.clone();
    let sync = drift_cleanup_request_sync(
        &DriftCleanupSyncOptions { registry: &registry(), request_file: FILE, execute: true },
        &observation(),
        &loaded(document),
        "2026-01-02T00:00:00Z",
    );
    let written = sync.write.unwrap();
    let item = written.items.iter().find(|item| item.request_id == kept).unwrap();
    assert_eq!(item.owner.as_deref(), Some("ana"));
    assert_eq!(item.approval_status, "rejected");
}

#[test]
fn exported_reviews_decide_nothing() {
    let export = drift_review_export(&registry(), &observation(), "2026-01-01T00:00:00Z");
    let items: usize = export.review.groups.iter().map(|group| group.items.len()).sum();
    assert_eq!(items, export.items);
    let findings = drift_list(&registry(), &observation()).findings;
    let targets: Vec<String> = findings.into_iter().filter_map(|finding| finding.target).collect();
    assert_eq!(items, targets.len());
    for target in &targets {
        let holders = export
            .review
            .groups
            .iter()
            .flat_map(|group| &group.items)
            .filter(|item| &item.target == target)
            .count();
        assert_eq!(holders, targets.iter().filter(|other| *other == target).count());
    }
    for group in &export.review.groups {
        assert!(group.items.iter().all(|item| item.action == "unknown"));
    }
    let plan = drift_review_apply(
        &DriftReviewApplyOptions {
            registry_dir: "/r",
            state_dir: "/s",
            review_file: "/tmp/review.yml",
            actor: "ops",
            execute: true,
        },
        &registry(),
        &observation(),
        1,
        &LoadedReview {
            path: text("/tmp/review.yml"),
            document: Some(export.review),
            error: String::new(),
        },
    );
    assert_eq!(plan.report.skipped, items);
    assert_eq!((plan.report.planned, plan.report.applied), (0, 0));
}

#[test]
fn only_one_governance_step_writes() {
    let workflow = drift_governance(&registry(), &observation()).review_workflow;
    for (place, step) in workflow.iter().enumerate() {
        assert_eq!(step.order as usize, place + 1);
        if step.writes_registry {
            assert!(step.requires_execute && step.human_decision_required);
        }
    }
    assert_eq!(workflow.iter().filter(|step| step.writes_registry).count(), 1);
}

#[test]
fn request_digests_cover_the_written_text() {
    let document = DriftCleanupRequestDocument {
        schema_version: text("opsctl.drift_cleanup_request.v1"),
        generated_at: None,
        source_active_findings: 7,
        source_candidates: 2,
        items: Vec::new(),
    };
    let written = concat_text(&[
        "{\"schema_version\":\"opsctl.drift_cleanup_request.v1\",\"generated_at\":null,",
        "\"source_active_findings\":7,\"source_candidates\":2,\"items\":[]}",
    ]);
    let digest = Sha256::digest(written.as_bytes());
    let hex: String = digest.iter().map(|byte| format!("{byte:02x}")).collect();
    assert_eq!(cleanup_request_sha256(&document), hex);
}

fn concat_text(parts: &[&str]) -> String {
    parts.concat()
}
