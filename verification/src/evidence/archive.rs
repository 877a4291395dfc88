//! Archiving bundles in a backup repository.

use vstd::prelude::*;
use crate::command::{CommandOutput, CommandOutputView};
use crate::each::{choose_each, find_first};
use crate::entries::EntryKind;
use crate::evidence::chain::{
    audit_report, contents_seen, events_or_none, latest_digests, verify_audit_chain,
};
use crate::evidence::files::{
    bytes_seen, done_seen, failure, note_failure, seen, sha256_bytes, sha256_hex,
    signature_path_spec,
};
use crate::evidence::lines::{accept, accepted};
use crate::evidence::sign::{checked_signature, verify_artifact_signature};
use crate::evidence::types::{
    EvidenceArchiveReport, EvidenceArchiveReportView, EvidenceAuditEvent, EvidenceAuditEventView,
    EvidenceSignatureDocument, EvidenceSignatureDocumentView, EvidenceSignatureReport,
    EvidenceSignatureReportView, EvidenceTrustStore, EvidenceTrustStoreView,
};
use crate::list::{
    chosen, extend, first_where, front, includes, law_chosen, law_first_where, law_sorted_set,
    note, noted, put, sorted_set, unique_sorted,
};
use crate::registry::{BackupRepository, BackupRepositoryView, Registry, RegistryView};
use crate::text::{as_text, cat2, ends, or_text, same, step, text_or};

verus! {

broadcast use {vstd::seq::group_seq_axioms, vstd::string::group_string_axioms};

/// The largest bundle that is archived, in bytes.
pub const MAX_BUNDLE_BYTES: u64 = 67108864;

/// The largest archive journal, in bytes.
pub const MAX_ARCHIVE_JOURNAL_BYTES: u64 = 33554432;

/// What is to be archived, and where.
#[derive(Debug)]
pub struct EvidenceArchiveOptions<'a> {
    pub registry: &'a Registry,
    pub state_dir: &'a str,
    pub actor: &'a str,
    pub bundle_file: &'a str,
    pub repository_id: &'a str,
    pub execute: bool,
}

/// View of [`EvidenceArchiveOptions`].
#[verifier::ext_equal]
pub struct EvidenceArchiveOptionsView {
    pub registry: RegistryView,
    pub state_dir: Seq<char>,
    pub actor: Seq<char>,
    pub bundle_file: Seq<char>,
    pub repository_id: Seq<char>,
    pub execute: bool,
}

impl<'a> DeepView for EvidenceArchiveOptions<'a> {
    type V = EvidenceArchiveOptionsView;

    open spec fn deep_view(&self) -> EvidenceArchiveOptionsView {
        EvidenceArchiveOptionsView {
            registry: self.registry.deep_view(),
            state_dir: self.state_dir.deep_view(),
            actor: self.actor.deep_view(),
            bundle_file: self.bundle_file.deep_view(),
            repository_id: self.repository_id.deep_view(),
            execute: self.execute,
        }
    }
}

/// An archive that is to be made.
#[derive(Debug)]
pub struct ArchivePlan {
    pub report: EvidenceArchiveReport,
    /// What to add to the repository's own arguments, if it is to be made now.
    pub arguments: Option<Vec<String>>,
}

/// View of [`ArchivePlan`].
#[verifier::ext_equal]
pub struct ArchivePlanView {
    pub report: EvidenceArchiveReportView,
    pub arguments: Option<Seq<Seq<char>>>,
}

impl DeepView for ArchivePlan {
    type V = ArchivePlanView;

    open spec fn deep_view(&self) -> ArchivePlanView {
        ArchivePlanView {
            report: self.report.deep_view(),
            arguments: self.arguments.deep_view(),
        }
    }
}

/// What a place holds, with its size, or the words of the error.
pub open spec fn entry_seen(entry: Result<(EntryKind, u64), String>) -> Result<
    (EntryKind, u64),
    Seq<char>,
> {
    match entry {
        Ok(found) => Ok(found),
        Err(words) => Err(words@),
    }
}

/// The bundle that was read.
pub open spec fn bundle_in(
    entry: Result<(EntryKind, u64), Seq<char>>,
    content: Result<Seq<u8>, Seq<char>>,
) -> Result<Seq<u8>, Seq<char>> {
    match entry {
        Ok((kind, size)) => if kind != EntryKind::File || size > MAX_BUNDLE_BYTES {
            Err("audit bundle is unsafe or too large"@)
        } else {
            content
        },
        Err(words) => Err(words),
    }
}

/// The bundle that was read, if its file is a regular one and not too large.
pub fn read_bundle(entry: &Result<(EntryKind, u64), String>, content: Result<Vec<u8>, String>) -> (r:
    Result<Vec<u8>, String>)
    ensures
        bytes_seen(r) == bundle_in(entry_seen(*entry), bytes_seen(content)),
{
    match entry {
        Ok(found) => if found.0 != EntryKind::File || found.1 > MAX_BUNDLE_BYTES {
            Err("audit bundle is unsafe or too large".to_string())
        } else {
            content
        },
        Err(words) => Err(words.clone()),
    }
}

/// Why a journal of archives is not used.
pub fn refuse_archive_journal(kind: EntryKind, size: u64) -> (r: Option<String>)
    ensures
        r.deep_view() == (if kind != EntryKind::File || size > MAX_ARCHIVE_JOURNAL_BYTES {
            Some("evidence archive journal is unsafe or oversized"@)
        } else {
            None
        }),
{
    if kind != EntryKind::File || size > MAX_ARCHIVE_JOURNAL_BYTES {
        Some("evidence archive journal is unsafe or oversized".to_string())
    } else {
        None
    }
}

/// Whether a repository has this id.
pub open spec fn repository_named(id: Seq<char>) -> spec_fn(BackupRepositoryView) -> bool {
    |repository: BackupRepositoryView| repository.id == id
}

/// The repository with this id.
pub fn find_repository<'a>(registry: &'a Registry, id: &str) -> (r: Option<&'a BackupRepository>)
    ensures
        r.deep_view() == first_where(
            registry.deep_view().backups.repositories,
            repository_named(id@),
        ),
{
    find_first(
        &registry.backups.repositories,
        |repository: &BackupRepository| -> (b: bool)
            ensures
                b == (repository.deep_view().id == id@)
            { same(&repository.id, id) },
        Ghost(repository_named(id@)),
    )
}

/// The variables that a repository needs.
pub open spec fn needed_variables(repository: BackupRepositoryView) -> Seq<Seq<char>> {
    (match repository.repository_env {
        Some(name) => seq![name],
        None => Seq::empty(),
    }) + (match repository.password_env {
        Some(name) => seq![name],
        None => Seq::empty(),
    }) + repository.env
}

/// The variables that a repository needs.
pub fn list_needed_variables(repository: &BackupRepository) -> (r: Vec<String>)
    ensures
        r.deep_view() == needed_variables(repository.deep_view()),
{
    let mut list: Vec<String> = Vec::new();
    proof {
        assert(list.deep_view() =~= Seq::<Seq<char>>::empty());
    }
    match &repository.repository_env {
        Some(name) => put(&mut list, name),
        None => {},
    }
    match &repository.password_env {
        Some(name) => put(&mut list, name),
        None => {},
    }
    extend(&mut list, &repository.env);
    proof {
        assert(list.deep_view() =~= needed_variables(repository.deep_view()));
    }
    list
}

/// What is said of a variable that is not set.
pub open spec fn missing_variable(present: Seq<Seq<char>>) -> spec_fn(Seq<char>) -> Option<
    Seq<char>,
> {
    |name: Seq<char>|
        if present.contains(name) {
            None
        } else {
            Some("missing repository environment: "@ + name)
        }
}

/// What is wrong with a repository.
pub open spec fn repository_notes(
    repository: BackupRepositoryView,
    present: Seq<Seq<char>>,
) -> Seq<Seq<char>> {
    chosen(needed_variables(repository), missing_variable(present)) + noted(
        repository.repository_env is None && repository.repository is None,
        "repository location is unavailable"@,
    )
}

fn list_repository_notes(repository: &BackupRepository, present: &Vec<String>) -> (r: Vec<String>)
    ensures
        r.deep_view() == repository_notes(repository.deep_view(), present.deep_view()),
{
    let mut list = choose_each(
        &list_needed_variables(repository),
        |name: &String| -> (said: Option<String>)
            ensures
                said.deep_view() == missing_variable(present.deep_view())(name@)
            {
                if includes(present, name) {
                    None
                } else {
                    Some(cat2("missing repository environment: ", name))
                }
            },
        Ghost(missing_variable(present.deep_view())),
    );
    note(
        &mut list,
        repository.repository_env.is_none() && repository.repository.is_none(),
        "repository location is unavailable",
    );
    list
}

/// Everything that speaks against archiving a bundle, sorted.
pub open spec fn archive_limitations(
    repository: Option<BackupRepositoryView>,
    bundle: Result<Seq<u8>, Seq<char>>,
    signature_ok: bool,
    audit_ok: bool,
    present: Seq<Seq<char>>,
) -> Seq<Seq<char>> {
    sorted_set(
        noted(repository is None, "evidence archive repository is not registered"@) + noted(
            repository is Some && repository->0.status != "active"@,
            "evidence archive repository is not active"@,
        ) + noted(
            repository is Some && repository->0.provider != "restic"@ && repository->0.provider
                != "rustic"@,
            "evidence archive supports Restic/rustic repositories only"@,
        ) + failure(bundle) + noted(
            !signature_ok,
            "audit bundle must have a valid trusted detached signature"@,
        ) + noted(
            !audit_ok,
            "evidence audit chain must verify before archive execution"@,
        ) + (match repository {
            Some(found) => repository_notes(found, present),
            None => Seq::empty(),
        }),
    )
}

/// What an archive cannot promise.
pub open spec fn archive_warnings() -> Seq<Seq<char>> {
    seq![
        "repository retention/Object Lock/WORM policy must be enforced and audited outside opsctl"@,
    ]
}

/// What an archive cannot promise.
pub fn list_archive_warnings() -> (r: Vec<String>)
    ensures
        r.deep_view() == archive_warnings(),
{
    let list: Vec<String> = vec![
        "repository retention/Object Lock/WORM policy must be enforced and audited outside opsctl".to_string(),
    ];
    proof {
        assert(list.deep_view() =~= archive_warnings());
    }
    list
}

/// The report on an archive before it is made.
pub open spec fn archive_report(
    options: EvidenceArchiveOptionsView,
    bundle: Result<Seq<u8>, Seq<char>>,
    signature: EvidenceSignatureReportView,
    audit_ok: bool,
    present: Seq<Seq<char>>,
) -> EvidenceArchiveReportView {
    let repository = first_where(
        options.registry.backups.repositories,
        repository_named(options.repository_id),
    );
    let limitations = archive_limitations(repository, bundle, signature.ok, audit_ok, present);
    EvidenceArchiveReportView {
        ok: limitations.len() == 0,
        read_only: !options.execute,
        status: if limitations.len() == 0 {
            "planned"@
        } else {
            "blocked"@
        },
        bundle_file: options.bundle_file,
        signature_file: signature.signature_path,
        bundle_sha256: match bundle {
            Ok(bytes) => Some(sha256_hex(bytes)),
            Err(_) => None,
        },
        signature_valid: signature.ok,
        repository_id: options.repository_id,
        provider: match repository {
            Some(found) => Some(found.provider),
            None => None,
        },
        snapshot_id: None,
        duration_ms: None,
        immutability_externally_enforced: false,
        warnings: archive_warnings(),
        limitations,
    }
}

/// What to add to the repository's own arguments.
pub open spec fn archive_arguments(report: EvidenceArchiveReportView) -> Seq<Seq<char>> {
    seq![
        "backup"@,
        report.bundle_file,
        report.signature_file,
        "--tag"@,
        "opsctl-evidence-archive"@,
        "--tag"@,
        "bundle-sha256:"@ + text_or(report.bundle_sha256, "unknown"@),
    ]
}

/// What to add to the repository's own arguments.
pub fn list_archive_arguments(report: &EvidenceArchiveReport) -> (r: Vec<String>)
    ensures
        r.deep_view() == archive_arguments(report.deep_view()),
{
    let list: Vec<String> = vec![
        "backup".to_string(),
        report.bundle_file.clone(),
        report.signature_file.clone(),
        "--tag".to_string(),
        "opsctl-evidence-archive".to_string(),
        "--tag".to_string(),
        cat2("bundle-sha256:", or_text(as_text(&report.bundle_sha256), "unknown")),
    ];
    proof {
        assert(list.deep_view() =~= archive_arguments(report.deep_view()));
    }
    list
}

fn plan_archive(
    options: &EvidenceArchiveOptions<'_>,
    bundle: &Result<Vec<u8>, String>,
    signature: &EvidenceSignatureReport,
    audit_ok: bool,
    present: &Vec<String>,
) -> (r: ArchivePlan)
    ensures
        r.deep_view().report == archive_report(
            options.deep_view(),
            bytes_seen(*bundle),
            signature.deep_view(),
            audit_ok,
            present.deep_view(),
        ),
        r.deep_view().arguments == (if options.execute && r.deep_view().report.ok {
            Some(archive_arguments(r.deep_view().report))
        } else {
            None
        }),
{
    let mut list: Vec<String> = Vec::new();
    proof {
        assert(list.deep_view() =~= Seq::<Seq<char>>::empty());
    }
    let repository = find_repository(options.registry, options.repository_id);
    let (inactive, foreign): (bool, bool) = match repository {
        Some(found) => (
            !same(&found.status, "active"),
            !same(&found.provider, "restic") && !same(&found.provider, "rustic"),
        ),
        None => (false, false),
    };
    note(&mut list, repository.is_none(), "evidence archive repository is not registered");
    note(&mut list, inactive, "evidence archive repository is not active");
    note(
        &mut list,
        foreign,
        "evidence archive supports Restic/rustic repositories only",
    );
    note_failure(&mut list, bundle);
    note(
        &mut list,
        !signature.ok,
        "audit bundle must have a valid trusted detached signature",
    );
    note(
        &mut list,
        !audit_ok,
        "evidence audit chain must verify before archive execution",
    );
    match repository {
        Some(found) => {
            extend(&mut list, &list_repository_notes(found, present));
        },
        None => {
            proof {
                assert(list.deep_view() =~= list.deep_view() + Seq::<Seq<char>>::empty());
            }
        },
    }
    let limitations = unique_sorted(list);
    proof {
        assert(limitations.deep_view() == archive_limitations(
            repository.deep_view(),
            bytes_seen(*bundle),
            signature.deep_view().ok,
            audit_ok,
            present.deep_view(),
        ));
        assert(limitations.deep_view().len() == limitations@.len());
    }
    let ok = limitations.len() == 0;
    let report = EvidenceArchiveReport {
        ok,
        read_only: !options.execute,
        status: if ok {
            "planned".to_string()
        } else {
            "blocked".to_string()
        },
        bundle_file: options.bundle_file.to_string(),
        signature_file: signature.signature_path.clone(),
        bundle_sha256: match bundle {
            Ok(bytes) => Some(sha256_bytes(bytes.as_slice())),
            Err(_) => None,
        },
        signature_valid: signature.ok,
        repository_id: options.repository_id.to_string(),
        provider: match repository {
            Some(found) => Some(found.provider.clone()),
            None => None,
        },
        snapshot_id: None,
        duration_ms: None,
        immutability_externally_enforced: false,
        warnings: list_archive_warnings(),
        limitations,
    };
    let arguments = if options.execute && ok {
        Some(list_archive_arguments(&report))
    } else {
        None
    };
    ArchivePlan { report, arguments }
}

/// The signature of the bundle that is to be archived.
pub open spec fn bundle_signature(
    bundle_file: Seq<char>,
    content: Result<Seq<u8>, Seq<char>>,
    document: Result<EvidenceSignatureDocumentView, Seq<char>>,
    key_file: Result<Seq<u8>, Seq<char>>,
    store: Result<Option<EvidenceTrustStoreView>, Seq<char>>,
    now: i128,
) -> EvidenceSignatureReportView {
    checked_signature(
        bundle_file,
        signature_path_spec(bundle_file),
        true,
        content,
        document,
        key_file,
        store,
        now,
    )
}

/// The report on an archive. Whether the bundle is signed and whether the chain is
/// valid is told from what was read.
pub open spec fn guarded_archive_report(
    options: EvidenceArchiveOptionsView,
    bundle: Result<Seq<u8>, Seq<char>>,
    content: Result<Seq<u8>, Seq<char>>,
    document: Result<EvidenceSignatureDocumentView, Seq<char>>,
    key_file: Result<Seq<u8>, Seq<char>>,
    store: Result<Option<EvidenceTrustStoreView>, Seq<char>>,
    events: Result<Seq<EvidenceAuditEventView>, Seq<char>>,
    contents: Seq<Result<Seq<u8>, Seq<char>>>,
    present: Seq<Seq<char>>,
    now: i128,
) -> EvidenceArchiveReportView {
    archive_report(
        options,
        bundle,
        bundle_signature(options.bundle_file, content, document, key_file, store, now),
        audit_report(options.state_dir, events, contents).ok,
        present,
    )
}

/// What to do about archiving a bundle, given the variables that are set.
pub fn archive_evidence_bundle(
    options: &EvidenceArchiveOptions<'_>,
    bundle: &Result<Vec<u8>, String>,
    content: &Result<Vec<u8>, String>,
    document: &Result<EvidenceSignatureDocument, String>,
    key_file: &Result<Vec<u8>, String>,
    store: &Result<Option<EvidenceTrustStore>, String>,
    events: &Result<Vec<EvidenceAuditEvent>, String>,
    contents: &Vec<Result<Vec<u8>, String>>,
    present: &Vec<String>,
    now: i128,
) -> (r: ArchivePlan)
    requires
        contents@.len() == latest_digests(events_or_none(seen(*events))).len(),
    ensures
        r.deep_view().report == guarded_archive_report(
            options.deep_view(),
            bytes_seen(*bundle),
            bytes_seen(*content),
            seen(*document),
            bytes_seen(*key_file),
            seen(*store),
            seen(*events),
            contents_seen(contents@),
            present.deep_view(),
            now,
        ),
        r.deep_view().arguments == (if options.execute && r.deep_view().report.ok {
            Some(archive_arguments(r.deep_view().report))
        } else {
            None
        }),
{
    let signature = verify_artifact_signature(
        options.bundle_file,
        content,
        document,
        key_file,
        store,
        now,
    );
    let audit = verify_audit_chain(options.state_dir, events, contents);
    plan_archive(options, bundle, &signature, audit.ok, present)
}

/// What is wrong with a run of the backup program.
pub open spec fn run_notes(
    outcome: Result<CommandOutputView, Seq<char>>,
    snapshot_id: Option<Seq<char>>,
) -> Seq<Seq<char>> {
    match outcome {
        Ok(output) => if output.success {
            noted(
                snapshot_id is None,
                "repository snapshot id was not present in trusted output"@,
            )
        } else {
            seq!["evidence repository archive command failed"@]
        },
        Err(words) => seq![words],
    }
}

/// The report on an archive after the backup program was run.
pub open spec fn archived(
    report: EvidenceArchiveReportView,
    duration_ms: u64,
    outcome: Result<CommandOutputView, Seq<char>>,
    snapshot_id: Option<Seq<char>>,
) -> EvidenceArchiveReportView {
    let limitations = report.limitations + run_notes(outcome, snapshot_id);
    EvidenceArchiveReportView {
        ok: limitations.len() == 0,
        status: if limitations.len() == 0 {
            "archived"@
        } else {
            "blocked"@
        },
        duration_ms: Some(duration_ms),
        snapshot_id: if outcome is Ok && outcome->Ok_0.success {
            snapshot_id
        } else {
            report.snapshot_id
        },
        limitations,
        ..report
    }
}

/// The report on an archive after the backup program was run, given the snapshot that
/// its output names.
pub fn finish_archive(
    report: EvidenceArchiveReport,
    duration_ms: u64,
    outcome: &Result<CommandOutput, String>,
    snapshot_id: Option<String>,
) -> (r: EvidenceArchiveReport)
    ensures
        r.deep_view() == archived(
            report.deep_view(),
            duration_ms,
            seen(*outcome),
            snapshot_id.deep_view(),
        ),
{
    let ghost before = report.deep_view();
    let ghost notes = run_notes(seen(*outcome), snapshot_id.deep_view());
    let mut report = report;
    report.duration_ms = Some(duration_ms);
    match outcome {
        Ok(output) => if output.success {
            note(
                &mut report.limitations,
                snapshot_id.is_none(),
                "repository snapshot id was not present in trusted output",
            );
            report.snapshot_id = snapshot_id;
        } else {
            put(&mut report.limitations, "evidence repository archive command failed");
        },
        Err(words) => {
            put(&mut report.limitations, words);
        },
    }
    proof {
        assert(report.limitations.deep_view() =~= before.limitations + notes);
        assert(report.limitations.deep_view().len() == report.limitations@.len());
    }
    report.ok = report.limitations.len() == 0;
    report.status = if report.ok {
        "archived".to_string()
    } else {
        "blocked".to_string()
    };
    report
}

/// The report on an archive after it was to be recorded.
pub fn finish_archive_record(report: EvidenceArchiveReport, recorded: &Result<(), String>) -> (r:
    EvidenceArchiveReport)
    ensures
        r.deep_view() == (match done_seen(*recorded) {
            Ok(_) => report.deep_view(),
            Err(words) => EvidenceArchiveReportView {
                ok: false,
                status: "blocked"@,
                limitations: report.deep_view().limitations.push(words),
                ..report.deep_view()
            },
        }),
{
    let mut report = report;
    match recorded {
        Ok(_) => {},
        Err(words) => {
            report.ok = false;
            report.status = "blocked".to_string();
            put(&mut report.limitations, words);
        },
    }
    report
}

/// No report is of another format.
pub open spec fn never_foreign() -> spec_fn(EvidenceArchiveReportView) -> bool {
    |r: EvidenceArchiveReportView| false
}

/// The reports of a journal, given what each line holds. A line that cannot be read
/// as a report is `None`.
pub fn read_archive_reports(lines: Vec<Option<EvidenceArchiveReport>>) -> (r: Result<
    Vec<EvidenceArchiveReport>,
    String,
>)
    ensures
        seen(r) == accepted(
            lines.deep_view(),
            never_foreign(),
            "invalid evidence archive journal line "@,
            ""@,
        ),
{
    accept(
        lines,
        |r: &EvidenceArchiveReport| -> (b: bool)
            ensures
                b == false
            { false },
        Ghost(never_foreign()),
        "invalid evidence archive journal line ",
        "",
    )
}

/// The latest archives, the last one first.
pub fn evidence_archive_history(
    reports: &Result<Vec<EvidenceArchiveReport>, String>,
    limit: usize,
) -> (r: Vec<EvidenceArchiveReport>)
    ensures
        r.deep_view() == (match seen(*reports) {
            Ok(all) => front(all.reverse(), limit as nat),
            Err(_) => Seq::empty(),
        }),
{
    let mut out: Vec<EvidenceArchiveReport> = Vec::new();
    proof {
        assert(out.deep_view() =~= Seq::<EvidenceArchiveReportView>::empty());
    }
    match reports {
        Ok(all) => {
            let ghost view = all.deep_view();
            let ghost back = view.reverse();
            let size = all.len();
            let mut i: usize = 0;
            proof {
                assert(view.len() == size);
                ends(back);
            }
            while i < size && i < limit
                invariant
                    i <= size,
                    i <= limit,
                    size == all@.len(),
                    view == all.deep_view(),
                    back == view.reverse(),
                    out.deep_view() == back.take(i as int),
                decreases size - i
            {
                let ghost held = out.deep_view();
                let last = all[size - 1 - i].clone();
                proof {
                    step(back, i as int);
                    assert(back[i as int] == view[size - 1 - i]);
                    assert(view[size - 1 - i] == all@[size - 1 - i].deep_view());
                }
                out.push(last);
                proof {
                    assert(out.deep_view() =~= held.push(back[i as int]));
                }
                i = i + 1;
            }
            proof {
                assert(out.deep_view() =~= front(back, limit as nat));
            }
        },
        Err(_) => {},
    }
    out
}

// ---------------------------------------------------------------------------
// Laws
// ---------------------------------------------------------------------------

/// A bundle is archived only if its repository is registered, active, of a known kind
/// and reachable, the bundle can be read and is signed, and the chain is valid.
pub proof fn law_archives_are_signed_and_registered(
    options: EvidenceArchiveOptionsView,
    bundle: Result<Seq<u8>, Seq<char>>,
    content: Result<Seq<u8>, Seq<char>>,
    document: Result<EvidenceSignatureDocumentView, Seq<char>>,
    key_file: Result<Seq<u8>, Seq<char>>,
    store: Result<Option<EvidenceTrustStoreView>, Seq<char>>,
    events: Result<Seq<EvidenceAuditEventView>, Seq<char>>,
    contents: Seq<Result<Seq<u8>, Seq<char>>>,
    present: Seq<Seq<char>>,
    now: i128,
)
    ensures
        guarded_archive_report(
            options,
            bundle,
            content,
            document,
            key_file,
            store,
            events,
            contents,
            present,
            now,
        ).ok <==> ({
            let repository = first_where(
                options.registry.backups.repositories,
                repository_named(options.repository_id),
            );
            &&& repository is Some
            &&& repository->0.status == "active"@
            &&& repository->0.provider == "restic"@ || repository->0.provider == "rustic"@
            &&& repository_notes(repository->0, present).len() == 0
            &&& bundle is Ok
            &&& bundle_signature(options.bundle_file, content, document, key_file, store, now).ok
            &&& audit_report(options.state_dir, events, contents).ok
        }),
{
    let signature = bundle_signature(options.bundle_file, content, document, key_file, store, now);
    let audit_ok = audit_report(options.state_dir, events, contents).ok;
    let repository = first_where(
        options.registry.backups.repositories,
        repository_named(options.repository_id),
    );
    let all = noted(repository is None, "evidence archive repository is not registered"@) + noted(
        repository is Some && repository->0.status != "active"@,
        "evidence archive repository is not active"@,
    ) + noted(
        repository is Some && repository->0.provider != "restic"@ && repository->0.provider
            != "rustic"@,
        "evidence archive supports Restic/rustic repositories only"@,
    ) + failure(bundle) + noted(
        !signature.ok,
        "audit bundle must have a valid trusted detached signature"@,
    ) + noted(!audit_ok, "evidence audit chain must verify before archive execution"@) + (
    match repository {
        Some(found) => repository_notes(found, present),
        None => Seq::empty(),
    });
    law_sorted_set(all);
    if all.len() > 0 {
        assert(all.contains(all[0]));
        assert(sorted_set(all).contains(all[0]));
    }
}

/// A bundle is read exactly where it is a file, not too large, and can be read.
pub proof fn law_which_bundles_are_read(
    entry: Result<(EntryKind, u64), Seq<char>>,
    content: Result<Seq<u8>, Seq<char>>,
)
    ensures
        bundle_in(entry, content) is Ok <==> content is Ok && match entry {
            Ok((kind, size)) => kind == EntryKind::File && size <= MAX_BUNDLE_BYTES,
            Err(_) => false,
        },
        bundle_in(entry, content) is Ok ==> bundle_in(entry, content) == content,
{
}

/// A repository can be used exactly where its location is known and each variable that it
/// needs, for its location, its password or anything else, is present.
pub proof fn law_which_repositories_can_be_used(
    repository: BackupRepositoryView,
    present: Seq<Seq<char>>,
)
    ensures
        repository_notes(repository, present).len() == 0 <==> {
            &&& repository.repository_env is Some || repository.repository is Some
            &&& repository.repository_env is Some ==> present.contains(repository.repository_env->0)
            &&& repository.password_env is Some ==> present.contains(repository.password_env->0)
            &&& forall|i: int|
                0 <= i < repository.env.len() ==> present.contains(#[trigger] repository.env[i])
        },
{
    let needed = needed_variables(repository);
    let f = missing_variable(present);
    let missing = chosen(needed, f);
    let first: Seq<Seq<char>> = match repository.repository_env {
        Some(name) => seq![name],
        None => Seq::empty(),
    };
    let second: Seq<Seq<char>> = match repository.password_env {
        Some(name) => seq![name],
        None => Seq::empty(),
    };
    assert(needed == first + second + repository.env);
    let n = (first.len() + second.len()) as int;
    assert forall|i: int| 0 <= i < repository.env.len() implies #[trigger] repository.env[i]
        == needed[n + i] by {}
    if repository.repository_env is Some {
        assert(needed[0] == repository.repository_env->0);
    }
    if repository.password_env is Some {
        assert(needed[first.len() as int] == repository.password_env->0);
    }
    if missing.len() > 0 {
        law_chosen(needed, f, missing[0]);
        assert(missing.contains(missing[0]));
        let i = choose|i: int| 0 <= i < needed.len() && f(#[trigger] needed[i]) == Some(missing[0]);
        assert(!present.contains(needed[i]));
        if i >= n {
            assert(repository.env[i - n] == needed[i]);
        }
    } else {
        assert forall|i: int| 0 <= i < needed.len() implies present.contains(
            #[trigger] needed[i],
        ) by {
            if !present.contains(needed[i]) {
                let x = f(needed[i])->0;
                law_chosen(needed, f, x);
                assert(missing.contains(x));
            }
        }
        assert forall|i: int| 0 <= i < repository.env.len() implies present.contains(
            #[trigger] repository.env[i],
        ) by {
            assert(repository.env[i] == needed[n + i]);
        }
    }
}

/// An archive is made of the bundle and its signature, under a tag with the bundle's
/// digest.
pub proof fn law_what_is_archived(report: EvidenceArchiveReportView)
    ensures
        ({
            let argv = archive_arguments(report);
            &&& argv[0] == "backup"@
            &&& argv.contains(report.bundle_file)
            &&& argv.contains(report.signature_file)
            &&& report.bundle_sha256 is Some ==> argv.contains(
                "bundle-sha256:"@ + report.bundle_sha256->0,
            )
        }),
{
    let argv = archive_arguments(report);
    assert(argv[1] == report.bundle_file);
    assert(argv[2] == report.signature_file);
    assert(argv[6] == "bundle-sha256:"@ + text_or(report.bundle_sha256, "unknown"@));
}

/// Archiving came out well exactly where nothing stood against it, the command ran and
/// succeeded, and it named a snapshot.
pub proof fn law_when_an_archive_is_made(
    report: EvidenceArchiveReportView,
    duration_ms: u64,
    outcome: Result<CommandOutputView, Seq<char>>,
    snapshot_id: Option<Seq<char>>,
)
    ensures
        ({
            let r = archived(report, duration_ms, outcome, snapshot_id);
            &&& r.ok <==> report.limitations.len() == 0 && outcome is Ok && outcome->Ok_0.success
                && snapshot_id is Some
            &&& r.status == "archived"@ <==> r.ok
            &&& r.status == "blocked"@ <==> !r.ok
            &&& r.ok ==> r.snapshot_id == snapshot_id
            &&& r.duration_ms == Some(duration_ms)
            &&& r.bundle_file == report.bundle_file
        }),
{
    reveal_strlit("archived");
    reveal_strlit("blocked");
    assert("archived"@[0] == 'a' && "blocked"@[0] == 'b');
}

/// What a planned archive tells: its bundle's digest and the provider of its repository,
/// which is the first of that id; it never claims to be immutable.
pub proof fn law_what_an_archive_plan_tells(
    options: EvidenceArchiveOptionsView,
    bundle: Result<Seq<u8>, Seq<char>>,
    signature: EvidenceSignatureReportView,
    audit_ok: bool,
    present: Seq<Seq<char>>,
)
    ensures
        ({
            let r = archive_report(options, bundle, signature, audit_ok, present);
            let repositories = options.registry.backups.repositories;
            &&& r.ok <==> r.limitations.len() == 0
            &&& r.status == "planned"@ <==> r.ok
            &&& r.status == "blocked"@ <==> !r.ok
            &&& r.read_only <==> !options.execute
            &&& bundle is Ok ==> r.bundle_sha256 == Some(sha256_hex(bundle->Ok_0))
            &&& r.provider is Some ==> exists|i: int|
                0 <= i < repositories.len() && (#[trigger] repositories[i]).id
                    == options.repository_id && r.provider == Some(repositories[i].provider)
            &&& r.ok ==> signature.ok && audit_ok && bundle is Ok
            &&& !r.immutability_externally_enforced
            &&& r.snapshot_id is None
        }),
{
    let repositories = options.registry.backups.repositories;
    let p = repository_named(options.repository_id);
    law_first_where(repositories, p);
    if first_where(repositories, p) is Some {
        let i = choose|i: int|
            0 <= i < repositories.len() && #[trigger] repositories[i] == first_where(
                repositories,
                p,
            )->0 && p(repositories[i]) && forall|j: int|
                0 <= j < i ==> !p(#[trigger] repositories[j]);
        assert(repositories[i].id == options.repository_id);
    }
    lemma_archive_needs(first_where(repositories, p), bundle, signature.ok, audit_ok, present);
    reveal_strlit("planned");
    reveal_strlit("blocked");
    assert("planned"@[0] == 'p' && "blocked"@[0] == 'b');
}

proof fn lemma_archive_needs(
    repository: Option<BackupRepositoryView>,
    bundle: Result<Seq<u8>, Seq<char>>,
    signature_ok: bool,
    audit_ok: bool,
    present: Seq<Seq<char>>,
)
    ensures
        archive_limitations(repository, bundle, signature_ok, audit_ok, present).len() == 0
            ==> signature_ok && audit_ok && bundle is Ok && repository is Some,
{
    let all = noted(repository is None, "evidence archive repository is not registered"@) + noted(
        repository is Some && repository->0.status != "active"@,
        "evidence archive repository is not active"@,
    ) + noted(
        repository is Some && repository->0.provider != "restic"@ && repository->0.provider
            != "rustic"@,
        "evidence archive supports Restic/rustic repositories only"@,
    ) + failure(bundle) + noted(
        !signature_ok,
        "audit bundle must have a valid trusted detached signature"@,
    ) + noted(!audit_ok, "evidence audit chain must verify before archive execution"@) + (
    match repository {
        Some(found) => repository_notes(found, present),
        None => Seq::empty(),
    });
    law_sorted_set(all);
    if all.len() > 0 {
        assert(all.contains(all[0]));
        assert(sorted_set(all).contains(all[0]));
    }
}

} // verus!
