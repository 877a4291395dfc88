//! Archives and the backfill of evidence.

use opsctl::command::CommandOutput;
use opsctl::entries::EntryKind;
use opsctl::evidence::archive::{
    archive_evidence_bundle, evidence_archive_history, finish_archive, finish_archive_record,
    list_needed_variables, read_archive_reports, read_bundle, refuse_archive_journal, ArchivePlan,
    EvidenceArchiveOptions,
};
use opsctl::evidence::backfill::{
    backfill_actions, evidence_backfill, evidence_backfill_status, finish_backfill,
    read_backfill_reports, refuse_backfill_journal, EvidenceBackfillOptions, EvidenceResolveEntry,
    EvidenceResolveReport,
};
use opsctl::evidence::chain::append_audit_event;
use opsctl::evidence::files::sha256_bytes;
use opsctl::evidence::keys::{create_key_pair, read_signing_key};
use opsctl::evidence::sign::sign_artifact;
use opsctl::evidence::types::{
    EvidenceArchiveReport, EvidenceAuditEvent, EvidenceBackfillReport, EvidenceSignatureDocument,
};
use opsctl::registry::{
    BackupRepository, BackupsRegistry, DomainsRegistry, PoliciesRegistry, PortsRegistry,
    RecoveryProfile, Registry, ServicesRegistry, SnapshotsRegistry, VolumesRegistry,
};

fn text(s: &str) -> String {
    s.to_string()
}

fn registry() -> Registry {
    Registry {
        services: ServicesRegistry { services: Vec::new() },
        ports: PortsRegistry { ports: Vec::new() },
        domains: DomainsRegistry { domains: Vec::new() },
        volumes: VolumesRegistry { volumes: Vec::new() },
        snapshots: SnapshotsRegistry { snapshots: Vec::new() },
        policies: PoliciesRegistry {
            drift_ignores: Vec::new(),
            public_data_port_exceptions: Vec::new(),
        },
        backups: BackupsRegistry {
            repositories: vec![BackupRepository {
                id: text("restic-r2-main"),
                status: text("active"),
                provider: text("restic"),
                repository: None,
                repository_env: Some(text("RESTIC_REPOSITORY")),
                password_env: Some(text("RESTIC_PASSWORD")),
                env: vec![text("AWS_ACCESS_KEY_ID")],
            }],
            recovery_profiles: vec![RecoveryProfile { volume: text("shop_data") }],
        },
    }
}

const STAMP: &str = "2026-01-01T00:00:00Z";
/// 2026-01-01T00:00:00Z, in nanoseconds.
const NOW: i128 = 1_767_225_600_000_000_000;

type Bytes = Result<Vec<u8>, String>;

/// A bundle, its signature, and the journal about it.
struct Signed {
    content: Bytes,
    document: Result<EvidenceSignatureDocument, String>,
    key_file: Bytes,
    events: Result<Vec<EvidenceAuditEvent>, String>,
    contents: Vec<Bytes>,
}

fn signed(content: &[u8]) -> Signed {
    let mut secret = vec![5; 32];
    let pair = create_key_pair(&mut secret);
    let content: Bytes = Ok(content.to_vec());
    let key_file: Bytes = Ok(format!("{}\n", pair.public_hex).into_bytes());
    let plan = sign_artifact(
        "/tmp/bundle.json",
        "k",
        true,
        false,
        &content,
        read_signing_key(&Ok(0o600), &Ok(pair.private_hex.into_bytes())),
        &key_file,
        &Ok(None),
        &Ok(Vec::new()),
        STAMP,
        NOW,
    );
    let event = append_audit_event(
        &Ok(Vec::new()),
        "artifact_signature",
        "k",
        "/tmp/bundle.json",
        "/tmp/bundle.json",
        &content,
        STAMP,
    );
    Signed {
        content: content.clone(),
        document: Ok(plan.document.unwrap()),
        key_file,
        events: Ok(vec![event.unwrap()]),
        contents: vec![content],
    }
}

fn unsigned() -> Signed {
    Signed {
        content: Err(text("no bundle")),
        document: Err(text("no signature")),
        key_file: Err(text("no key")),
        events: Err(text("no journal")),
        contents: Vec::new(),
    }
}

fn archive(
    options: &EvidenceArchiveOptions<'_>,
    found: &Signed,
    present: &Vec<String>,
) -> ArchivePlan {
    archive_evidence_bundle(
        options,
        &found.content,
        &found.content,
        &found.document,
        &found.key_file,
        &Ok(None),
        &found.events,
        &found.contents,
        present,
        NOW,
    )
}

fn options<'a>(registry: &'a Registry, repository_id: &'a str) -> EvidenceArchiveOptions<'a> {
    EvidenceArchiveOptions {
        registry,
        state_dir: "/s",
        actor: "test",
        bundle_file: "/tmp/bundle.json",
        repository_id,
        execute: true,
    }
}

fn present() -> Vec<String> {
    list_needed_variables(&registry().backups.repositories[0])
}

fn output(success: bool) -> Result<CommandOutput, String> {
    Ok(CommandOutput {
        success,
        status_code: Some(0),
        stdout: String::new(),
        stderr: String::new(),
    })
}

#[test]
fn archive_rejects_symlink_bundle() {
    let bundle = read_bundle(&Ok((EntryKind::Symlink, 2)), Ok(b"{}".to_vec()));
    assert!(bundle.is_err());
    assert!(bundle.unwrap_err().contains("unsafe"));
}

#[test]
fn records_current_backfill_without_writing_cleanup_evidence() {
    let registry = registry();
    let resolved = EvidenceResolveReport {
        selected_items: 1,
        matched: 0,
        ambiguous: 0,
        missing: 1,
        stale: 0,
        entries: vec![EvidenceResolveEntry {
            request_id: text("cleanup-0001-volume-orphan"),
            target: text("orphan-volume"),
            status: text("missing"),
            blockers: Vec::new(),
        }],
        limitations: Vec::new(),
    };
    let report = evidence_backfill(
        &EvidenceBackfillOptions {
            registry: &registry,
            state_dir: "/s",
            actor: "test",
            request_file: "/tmp/cleanup.yml",
            repository_id: "restic-r2-main",
            restore_root: "/restore",
            max_age_hours: 168,
            record: true,
        },
        &resolved,
        "2026-07-11T00:00:00Z",
    );

    assert!(!report.read_only);
    assert!(report.status.ends_with("_recorded"));
    let status = evidence_backfill_status("/s", Ok(vec![report]), 10, true);
    assert_eq!(status.latest.as_ref().map(|item| item.read_only), Some(false));
}

#[test]
fn archive_is_planned_with_its_arguments() {
    let registry = registry();
    let plan = archive(&options(&registry, "restic-r2-main"), &signed(b"{}"), &present());
    assert!(plan.report.ok, "{:?}", plan.report.limitations);
    assert_eq!(plan.report.status, "planned");
    assert_eq!(plan.report.bundle_sha256, Some(sha256_bytes(b"{}")));
    assert_eq!(
        plan.arguments.unwrap(),
        vec![
            text("backup"),
            text("/tmp/bundle.json"),
            text("/tmp/bundle.json.sig.json"),
            text("--tag"),
            text("opsctl-evidence-archive"),
            text("--tag"),
            format!("bundle-sha256:{}", sha256_bytes(b"{}")),
        ]
    );
    let done = finish_archive(plan.report, 12, &output(true), Some(text("abc")));
    assert_eq!((done.status.as_str(), done.duration_ms), ("archived", Some(12)));
    assert_eq!(done.snapshot_id.as_deref(), Some("abc"));
    let unrecorded = finish_archive_record(done, &Err(text("no journal")));
    assert!(!unrecorded.ok);
    assert_eq!(unrecorded.limitations, vec!["no journal"]);
}

#[test]
fn archive_is_refused_for_every_reason() {
    let mut registry = registry();
    registry.backups.repositories[0].status = text("retired");
    registry.backups.repositories[0].provider = text("tar");
    registry.backups.repositories[0].repository_env = None;
    let plan = archive(&options(&registry, "restic-r2-main"), &unsigned(), &Vec::new());
    assert!(plan.arguments.is_none());
    assert_eq!(
        plan.report.limitations,
        vec![
            "audit bundle must have a valid trusted detached signature",
            "evidence archive repository is not active",
            "evidence archive supports Restic/rustic repositories only",
            "evidence audit chain must verify before archive execution",
            "missing repository environment: AWS_ACCESS_KEY_ID",
            "missing repository environment: RESTIC_PASSWORD",
            "no bundle",
            "repository location is unavailable",
        ]
    );
    let unknown = archive(&options(&registry, "other"), &signed(b""), &Vec::new());
    assert_eq!(
        unknown.report.limitations,
        vec!["evidence archive repository is not registered"]
    );
    assert_eq!(unknown.report.provider, None);
}

#[test]
fn archives_hold_what_was_signed() {
    let registry = registry();
    let limitations = |found: &Signed| {
        archive(&options(&registry, "restic-r2-main"), found, &present()).report.limitations
    };
    assert!(limitations(&signed(b"{}")).is_empty());
    let mut changed = signed(b"{}");
    changed.content = Ok(b"[]".to_vec());
    assert_eq!(
        limitations(&changed),
        vec!["audit bundle must have a valid trusted detached signature"]
    );
    let mut broken = signed(b"{}");
    broken.contents = vec![Ok(b"[]".to_vec())];
    assert_eq!(
        limitations(&broken),
        vec!["evidence audit chain must verify before archive execution"]
    );
}

#[test]
fn archive_runs_can_fail() {
    let registry = registry();
    let report = || {
        archive(&options(&registry, "restic-r2-main"), &signed(b""), &present()).report
    };
    let silent = finish_archive(report(), 1, &output(true), None);
    assert_eq!(
        silent.limitations,
        vec!["repository snapshot id was not present in trusted output"]
    );
    let failed = finish_archive(report(), 1, &output(false), Some(text("abc")));
    assert_eq!(failed.limitations, vec!["evidence repository archive command failed"]);
    assert_eq!(failed.snapshot_id, None);
    let missing = finish_archive(report(), 1, &Err(text("no restic")), None);
    assert_eq!(missing.limitations, vec!["no restic"]);
}

#[test]
fn archive_history_is_newest_first() {
    let registry = registry();
    let report = |id: &str| -> EvidenceArchiveReport {
        let mut report =
            archive(&options(&registry, "restic-r2-main"), &signed(b""), &present()).report;
        report.snapshot_id = Some(text(id));
        report
    };
    let lines = vec![Some(report("1")), Some(report("2")), Some(report("3"))];
    let reports = read_archive_reports(lines);
    let ids: Vec<Option<String>> = evidence_archive_history(&reports, 2)
        .into_iter()
        .map(|report| report.snapshot_id)
        .collect();
    assert_eq!(ids, vec![Some(text("3")), Some(text("2"))]);
    assert!(evidence_archive_history(&Err(text("x")), 2).is_empty());
    assert_eq!(
        read_archive_reports(vec![None]).map(|_| ()),
        Err(text("invalid evidence archive journal line 1"))
    );
}

#[test]
fn journals_must_be_small_regular_files() {
    assert_eq!(refuse_archive_journal(EntryKind::File, 33554432), None);
    assert!(refuse_archive_journal(EntryKind::File, 33554433).is_some());
    assert!(refuse_backfill_journal(EntryKind::Symlink, 0).is_some());
    assert_eq!(refuse_backfill_journal(EntryKind::File, 0), None);
}

fn backfill<'a>(registry: &'a Registry, restore_root: &'a str, record: bool) -> EvidenceBackfillOptions<'a> {
    EvidenceBackfillOptions {
        registry,
        state_dir: "/s",
        actor: "test",
        request_file: "/tmp/cleanup.yml",
        repository_id: "restic-r2-main",
        restore_root,
        max_age_hours: 24,
        record,
    }
}

fn resolved(entries: Vec<(&str, &str)>, missing: usize, stale: usize) -> EvidenceResolveReport {
    EvidenceResolveReport {
        selected_items: entries.len(),
        matched: entries.iter().filter(|entry| entry.1 == "matched").count(),
        ambiguous: entries.iter().filter(|entry| entry.1 == "ambiguous").count(),
        missing,
        stale,
        entries: entries
            .into_iter()
            .map(|(target, status)| EvidenceResolveEntry {
                request_id: format!("cleanup-{target}"),
                target: text(target),
                status: text(status),
                blockers: Vec::new(),
            })
            .collect(),
        limitations: Vec::new(),
    }
}

#[test]
fn actions_follow_from_status_and_profiles() {
    let mut registry = registry();
    registry.backups.recovery_profiles.push(RecoveryProfile { volume: text("twice") });
    registry.backups.recovery_profiles.push(RecoveryProfile { volume: text("twice") });
    let actions = backfill_actions(
        &backfill(&registry, "/restore", false),
        &resolved(
            vec![
                ("shop_data", "matched"),
                ("shop_data", "missing"),
                ("twice", "missing"),
                ("other", "stale"),
                ("other", "ambiguous"),
            ],
            3,
            1,
        ),
    );
    let names: Vec<&str> = actions.iter().map(|action| action.action.as_str()).collect();
    assert_eq!(
        names,
        vec!["none", "protect_volume", "resolve_ambiguity", "onboard_profile", "resolve_ambiguity"]
    );
    assert_eq!(
        actions[1].argv,
        vec![
            "opsctl", "backup", "volume-protect", "plan", "/tmp/cleanup.yml", "--target",
            "shop_data", "--repository-id", "restic-r2-main", "--restore-root", "/restore"
        ]
    );
    assert_eq!(
        actions[3].argv,
        vec![
            "opsctl", "backup", "volume-protect", "profile-detect", "--source-dir",
            "<mountpoint-for:other>", "--volume", "other"
        ]
    );
    assert_eq!(actions[2].profile_matches, 2);
    assert!(actions[0].argv.is_empty());
}

#[test]
fn backfill_has_its_words() {
    let registry = registry();
    let status = |restore_root: &str, report: EvidenceResolveReport| {
        evidence_backfill(&backfill(&registry, restore_root, false), &report, "t").status
    };
    assert_eq!(status("/", resolved(Vec::new(), 0, 0)), "blocked");
    assert_eq!(status("/r", resolved(vec![("a", "ambiguous")], 1, 0)), "review_required");
    assert_eq!(status("/r", resolved(Vec::new(), 0, 0)), "closed");
    assert_eq!(status("/r", resolved(Vec::new(), 0, 1)), "evidence_required");
    let report = evidence_backfill(
        &backfill(&registry, "relative", true),
        &resolved(Vec::new(), 0, 0),
        "t",
    );
    assert_eq!(report.status, "blocked");
    assert_eq!(report.limitations, vec!["restore_root must be an absolute non-root directory"]);
    assert_eq!(
        (report.historical_phase95_total_missing, report.historical_phase95_database_like),
        (69, 58)
    );
    let failed = finish_backfill(report, &Err(text("full")));
    assert!(!failed.ok);
}

#[test]
fn backfill_history_is_newest_first() {
    let registry = registry();
    let report = |at: &str, matched: usize, missing: usize| -> EvidenceBackfillReport {
        let mut report = evidence_backfill(
            &backfill(&registry, "/r", false),
            &resolved(Vec::new(), missing, 0),
            at,
        );
        report.matched = matched;
        report
    };
    let reports = read_backfill_reports(vec![
        Some(report("2026-01-01", 1, 9)),
        Some(report("2026-01-03", 5, 2)),
        Some(report("2026-01-02", 2, 8)),
    ]);
    let status = evidence_backfill_status("/s", reports, 2, true);
    assert!(status.ok);
    assert_eq!(status.status, "ready");
    let times: Vec<&str> = status.history.iter().map(|item| item.observed_at.as_str()).collect();
    assert_eq!(times, vec!["2026-01-03", "2026-01-02"]);
    assert_eq!((status.matched_delta, status.evidence_gap_delta), (Some(3), Some(-6)));
    let empty = evidence_backfill_status("/s", Ok(Vec::new()), 2, false);
    assert_eq!((empty.status.as_str(), empty.matched_delta), ("empty", None));
    let unreadable = evidence_backfill_status("/s", Err(text("bad")), 2, true);
    assert_eq!(
        unreadable.limitations,
        vec!["bad", "backfill journal contains no readable reports"]
    );
    assert_eq!(unreadable.status, "limited");
    let mut old = report("t", 0, 0);
    old.schema_version = text("v0");
    assert_eq!(
        read_backfill_reports(vec![Some(old)]).map(|_| ()),
        Err(text("unsupported evidence backfill schema on line 1"))
    );
}
