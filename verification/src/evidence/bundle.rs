//! Bundles and checkpoints of the audit chain, and the check of all evidence.

use vstd::prelude::*;
use crate::entries::EntryKind;
use crate::evidence::chain::{
    about, audit_report, chain_is_valid, check_chain, checked_chain, contents_seen, event_is_valid,
    events_or_none, latest_digests, verify_audit_chain,
};
use crate::evidence::files::{
    audit_journal_path, audit_path, bytes_seen, done_seen, failure, note_failure, seen,
    sha256_bytes, sha256_hex, signature_path, signature_path_spec,
};
use crate::evidence::keys::{
    is_usable, key_lifecycle, kind_seen, lifecycle, lifecycle_notes, note_lifecycle, public_key_in,
    read_signing_key_source, read_verifying_key, usable_secret,
};
use crate::evidence::sign::{checked_signature, verify_artifact_signature};
use crate::evidence::types::{
    EvidenceAuditBundle, EvidenceAuditBundleReport, EvidenceAuditBundleReportView,
    EvidenceAuditBundleView, EvidenceAuditCheckpoint, EvidenceAuditCheckpointView,
    EvidenceAuditEvent, EvidenceAuditEventView, EvidenceAuditVerifyReport,
    EvidenceAuditVerifyReportView, EvidenceCheckpointReport, EvidenceCheckpointReportView,
    EvidenceSignatureDocument, EvidenceSignatureDocumentView, EvidenceSignatureReport,
    EvidenceSignatureReportView, EvidenceTrustReport, EvidenceTrustReportView, EvidenceTrustStore,
    EvidenceTrustStoreView, EvidenceVerifyAllReport, EvidenceVerifyAllReportView,
};
use crate::json::{Json, JsonView, json_get, lemma_json_view, member_of};
use crate::list::{
    extend, front, gathered, kept, law_gathered, law_kept, law_tally, lemma_gathered_nothing, note,
    noted, put, tally,
};
use crate::number::{decimal, decimal_text, signed_decimal, wide_signed_text};
use crate::outside::{json_bytes_outcome, json_of, json_tree, public_key_of, read_json_bytes, wipe};
use crate::paths::{
    is_absolute, is_absolute_spec, path_join, path_joined, same_path, same_path_spec,
};
use crate::text::{cat2, cat5, ends, ends_with, finishes, same, step};

verus! {

broadcast use {vstd::seq::group_seq_axioms, vstd::string::group_string_axioms};

/// The version of a bundle's format.
pub open spec fn bundle_schema() -> Seq<char> {
    "opsctl.evidence_audit_bundle.v1"@
}

/// The version of a checkpoint's format.
pub open spec fn checkpoint_schema() -> Seq<char> {
    "opsctl.evidence_audit_checkpoint.v1"@
}

/// The most entries of a directory that are looked at.
pub const MAX_EVIDENCE_ENTRIES: usize = 10000;

/// A bundle that is to be exported.
#[derive(Debug)]
pub struct BundlePlan {
    pub report: EvidenceAuditBundleReport,
    /// The bundle to write.
    pub bundle: Option<EvidenceAuditBundle>,
}

/// View of [`BundlePlan`].
#[verifier::ext_equal]
pub struct BundlePlanView {
    pub report: EvidenceAuditBundleReportView,
    pub bundle: Option<EvidenceAuditBundleView>,
}

impl DeepView for BundlePlan {
    type V = BundlePlanView;

    open spec fn deep_view(&self) -> BundlePlanView {
        BundlePlanView {
            report: self.report.deep_view(),
            bundle: self.bundle.deep_view(),
        }
    }
}

/// A checkpoint that is to be made.
#[derive(Debug)]
pub struct CheckpointPlan {
    pub checkpoint_path: String,
    pub checkpoint: EvidenceAuditCheckpoint,
    /// Whether the checkpoint is to be written now.
    pub write: bool,
    pub limitations: Vec<String>,
}

/// View of [`CheckpointPlan`].
#[verifier::ext_equal]
pub struct CheckpointPlanView {
    pub checkpoint_path: Seq<char>,
    pub checkpoint: EvidenceAuditCheckpointView,
    pub write: bool,
    pub limitations: Seq<Seq<char>>,
}

impl DeepView for CheckpointPlan {
    type V = CheckpointPlanView;

    open spec fn deep_view(&self) -> CheckpointPlanView {
        CheckpointPlanView {
            checkpoint_path: self.checkpoint_path.deep_view(),
            checkpoint: self.checkpoint.deep_view(),
            write: self.write,
            limitations: self.limitations.deep_view(),
        }
    }
}

/// A file in a directory of evidence.
#[derive(Debug)]
pub struct EvidenceEntry {
    pub path: String,
    pub name: String,
    pub signature_exists: bool,
    /// What the file holds.
    pub content: Result<Vec<u8>, String>,
    /// The signature beside it.
    pub document: Result<EvidenceSignatureDocument, String>,
    /// The file of the public key that the signature names.
    pub key_file: Result<Vec<u8>, String>,
}

/// View of [`EvidenceEntry`].
#[verifier::ext_equal]
pub struct EvidenceEntryView {
    pub path: Seq<char>,
    pub name: Seq<char>,
    pub signature_exists: bool,
    pub content: Result<Seq<u8>, Seq<char>>,
    pub document: Result<EvidenceSignatureDocumentView, Seq<char>>,
    pub key_file: Result<Seq<u8>, Seq<char>>,
}

impl DeepView for EvidenceEntry {
    type V = EvidenceEntryView;

    open spec fn deep_view(&self) -> EvidenceEntryView {
        EvidenceEntryView {
            path: self.path.deep_view(),
            name: self.name.deep_view(),
            signature_exists: self.signature_exists,
            content: bytes_seen(self.content),
            document: seen(self.document),
            key_file: bytes_seen(self.key_file),
        }
    }
}

/// What came of checking a directory of evidence.
#[derive(Debug)]
pub struct DirectoryReport {
    pub checked: usize,
    pub valid: usize,
    pub limitations: Vec<String>,
}

/// View of [`DirectoryReport`].
#[verifier::ext_equal]
pub struct DirectoryReportView {
    pub checked: nat,
    pub valid: nat,
    pub limitations: Seq<Seq<char>>,
}

impl DeepView for DirectoryReport {
    type V = DirectoryReportView;

    open spec fn deep_view(&self) -> DirectoryReportView {
        DirectoryReportView {
            checked: self.checked as nat,
            valid: self.valid as nat,
            limitations: self.limitations.deep_view(),
        }
    }
}

// ---------------------------------------------------------------------------
// Bundles
// ---------------------------------------------------------------------------

/// What bytes hold as JSON, or the words of the error.
pub open spec fn json_in(bytes: Seq<u8>) -> Result<JsonView, Seq<char>> {
    match json_bytes_outcome(bytes) {
        Ok(value) => Ok(json_tree(value)),
        Err(words) => Err(words),
    }
}

/// What bytes hold as JSON, or the words of the error.
pub fn parse_json_bytes(bytes: &[u8]) -> (r: Result<Json, String>)
    ensures
        seen(r) == json_in(bytes@),
{
    match read_json_bytes(bytes) {
        Ok(value) => Ok(json_of(value)),
        Err(words) => Err(words),
    }
}

/// The bytes that were read, or none.
pub open spec fn bytes_or_none(content: Result<Seq<u8>, Seq<char>>) -> Seq<u8> {
    match content {
        Ok(bytes) => bytes,
        Err(_) => Seq::empty(),
    }
}

/// Everything that speaks against exporting a bundle.
pub open spec fn bundle_limitations(
    output_path: Seq<char>,
    output_exists: bool,
    manifest: Result<Seq<u8>, Seq<char>>,
    manifest_signed: bool,
    selected: Seq<EvidenceAuditEventView>,
    audit_ok: bool,
) -> Seq<Seq<char>> {
    noted(
        !is_absolute_spec(output_path) || same_path_spec(output_path, "/"@) || output_exists,
        "audit bundle output must be a new absolute file"@,
    ) + failure(manifest) + failure(json_in(bytes_or_none(manifest))) + noted(
        !manifest_signed,
        "manifest does not have a valid trusted signature"@,
    ) + noted(selected.len() == 0, "manifest has no tamper-evident audit event"@) + noted(
        !audit_ok,
        "global evidence audit chain is not currently valid"@,
    )
}

/// A report on a bundle.
pub open spec fn bundle_report(
    manifest_path: Seq<char>,
    output_path: Seq<char>,
    execute: bool,
    manifest_signed: bool,
    audit_events: nat,
    limitations: Seq<Seq<char>>,
) -> EvidenceAuditBundleReportView {
    EvidenceAuditBundleReportView {
        ok: limitations.len() == 0,
        read_only: !execute,
        status: if limitations.len() > 0 {
            "blocked"@
        } else if execute {
            "exported"@
        } else {
            "planned"@
        },
        manifest_path,
        output_path,
        manifest_signed,
        audit_events,
        bundle_sha256: None,
        limitations,
    }
}

/// The digest of what was read, or nothing.
pub open spec fn digest_or_none(content: Result<Seq<u8>, Seq<char>>) -> Seq<char> {
    match content {
        Ok(bytes) => sha256_hex(bytes),
        Err(_) => Seq::empty(),
    }
}

fn digest_if_read(content: &Result<Vec<u8>, String>) -> (r: String)
    ensures
        r@ == digest_or_none(bytes_seen(*content)),
{
    match content {
        Ok(bytes) => sha256_bytes(bytes.as_slice()),
        Err(_) => {
            let none = String::new();
            proof {
                assert(none@ =~= Seq::<char>::empty());
            }
            none
        },
    }
}

/// What to do about exporting a bundle.
pub open spec fn bundle_plan(
    manifest_path: Seq<char>,
    output_path: Seq<char>,
    execute: bool,
    output_exists: bool,
    manifest: Result<Seq<u8>, Seq<char>>,
    signature: Option<EvidenceSignatureDocumentView>,
    manifest_signed: bool,
    events: Result<Seq<EvidenceAuditEventView>, Seq<char>>,
    audit_ok: bool,
    journal: Result<Seq<u8>, Seq<char>>,
    created_at: Seq<char>,
) -> BundlePlanView {
    let selected = kept(events_or_none(events), about(manifest_path));
    let limitations = bundle_limitations(
        output_path,
        output_exists,
        manifest,
        manifest_signed,
        selected,
        audit_ok,
    );
    BundlePlanView {
        report: bundle_report(
            manifest_path,
            output_path,
            execute,
            manifest_signed,
            selected.len(),
            limitations,
        ),
        bundle: if execute && limitations.len() == 0 {
            Some(
                EvidenceAuditBundleView {
                    schema_version: bundle_schema(),
                    created_at,
                    manifest_path,
                    manifest_sha256: sha256_hex(manifest->Ok_0),
                    manifest_json: json_in(manifest->Ok_0)->Ok_0,
                    signature,
                    audit_events: selected,
                    audit_chain_sha256: digest_or_none(journal),
                },
            )
        } else {
            None
        },
    }
}

/// The events about an artifact.
pub fn events_about(events: &Vec<EvidenceAuditEvent>, artifact: &str) -> (r: Vec<
    EvidenceAuditEvent,
>)
    ensures
        r.deep_view() == kept(events.deep_view(), about(artifact@)),
{
    let ghost all = events.deep_view();
    let ghost p = about(artifact@);
    let mut out: Vec<EvidenceAuditEvent> = Vec::new();
    let mut i: usize = 0;
    proof {
        ends(all);
        assert(out.deep_view() =~= Seq::<EvidenceAuditEventView>::empty());
    }
    while i < events.len()
        invariant
            i <= events@.len(),
            all == events.deep_view(),
            p == about(artifact@),
            out.deep_view() == kept(all.take(i as int), p),
        decreases events@.len() - i,
    {
        let ghost held = out.deep_view();
        proof {
            step(all, i as int);
            assert(all[i as int] == events@[i as int].deep_view());
        }
        if same(&events[i].artifact_path, artifact) {
            out.push(events[i].clone());
            proof {
                assert(out.deep_view() =~= held.push(all[i as int]));
            }
        }
        i = i + 1;
    }
    proof {
        ends(all);
    }
    out
}

fn plan_bundle(
    manifest_path: &str,
    output_path: &str,
    execute: bool,
    output_exists: bool,
    manifest: &Result<Vec<u8>, String>,
    signature: Option<EvidenceSignatureDocument>,
    manifest_signed: bool,
    events: &Result<Vec<EvidenceAuditEvent>, String>,
    audit_ok: bool,
    journal: &Result<Vec<u8>, String>,
    created_at: &str,
) -> (r: BundlePlan)
    ensures
        r.deep_view() == bundle_plan(
            manifest_path@,
            output_path@,
            execute,
            output_exists,
            bytes_seen(*manifest),
            signature.deep_view(),
            manifest_signed,
            seen(*events),
            audit_ok,
            bytes_seen(*journal),
            created_at@,
        ),
{
    let no_bytes: Vec<u8> = Vec::new();
    let no_events: Vec<EvidenceAuditEvent> = Vec::new();
    proof {
        assert(no_bytes@ =~= Seq::<u8>::empty());
        assert(no_events.deep_view() =~= Seq::<EvidenceAuditEventView>::empty());
    }
    let bytes = match manifest {
        Ok(bytes) => bytes,
        Err(_) => &no_bytes,
    };
    let json = parse_json_bytes(bytes.as_slice());
    let all = match events {
        Ok(all) => all,
        Err(_) => &no_events,
    };
    let selected = events_about(all, manifest_path);
    proof {
        assert(selected.deep_view().len() == selected@.len());
    }
    let mut limitations: Vec<String> = Vec::new();
    proof {
        assert(limitations.deep_view() =~= Seq::<Seq<char>>::empty());
    }
    note(
        &mut limitations,
        !is_absolute(output_path) || same_path(output_path, "/") || output_exists,
        "audit bundle output must be a new absolute file",
    );
    note_failure(&mut limitations, manifest);
    note_failure(&mut limitations, &json);
    note(
        &mut limitations,
        !manifest_signed,
        "manifest does not have a valid trusted signature",
    );
    note(
        &mut limitations,
        selected.len() == 0,
        "manifest has no tamper-evident audit event",
    );
    note(
        &mut limitations,
        !audit_ok,
        "global evidence audit chain is not currently valid",
    );
    proof {
        assert(limitations.deep_view() =~= bundle_limitations(
            output_path@,
            output_exists,
            bytes_seen(*manifest),
            manifest_signed,
            selected.deep_view(),
            audit_ok,
        ));
        assert(limitations.deep_view().len() == limitations@.len());
    }
    let ok = limitations.len() == 0;
    let report = EvidenceAuditBundleReport {
        ok,
        read_only: !execute,
        status: if !ok {
            "blocked".to_string()
        } else if execute {
            "exported".to_string()
        } else {
            "planned".to_string()
        },
        manifest_path: manifest_path.to_string(),
        output_path: output_path.to_string(),
        manifest_signed,
        audit_events: selected.len(),
        bundle_sha256: None,
        limitations,
    };
    let bundle = match json {
        Ok(tree) => if execute && ok {
            Some(
                EvidenceAuditBundle {
                    schema_version: "opsctl.evidence_audit_bundle.v1".to_string(),
                    created_at: created_at.to_string(),
                    manifest_path: manifest_path.to_string(),
                    manifest_sha256: sha256_bytes(bytes.as_slice()),
                    manifest_json: tree,
                    signature,
                    audit_events: selected,
                    audit_chain_sha256: digest_if_read(journal),
                },
            )
        } else {
            None
        },
        Err(_) => None,
    };
    BundlePlan { report, bundle }
}

/// What is to be done to export a bundle. Whether the manifest is signed and whether
/// the chain is valid is told from what was read.
pub open spec fn guarded_bundle_plan(
    state_dir: Seq<char>,
    manifest_path: Seq<char>,
    output_path: Seq<char>,
    execute: bool,
    output_exists: bool,
    manifest: Result<Seq<u8>, Seq<char>>,
    document: Result<EvidenceSignatureDocumentView, Seq<char>>,
    key_file: Result<Seq<u8>, Seq<char>>,
    store: Result<Option<EvidenceTrustStoreView>, Seq<char>>,
    events: Result<Seq<EvidenceAuditEventView>, Seq<char>>,
    contents: Seq<Result<Seq<u8>, Seq<char>>>,
    journal: Result<Seq<u8>, Seq<char>>,
    created_at: Seq<char>,
    now: i128,
) -> BundlePlanView {
    bundle_plan(
        manifest_path,
        output_path,
        execute,
        output_exists,
        manifest,
        match document {
            Ok(d) => Some(d),
            Err(_) => None,
        },
        checked_signature(
            manifest_path,
            signature_path_spec(manifest_path),
            true,
            manifest,
            document,
            key_file,
            store,
            now,
        ).ok,
        events,
        audit_report(state_dir, events, contents).ok,
        journal,
        created_at,
    )
}

/// What to do about exporting a bundle: write it, or report that it is only planned
/// or what speaks against it.
pub fn export_audit_bundle(
    state_dir: &str,
    manifest_path: &str,
    output_path: &str,
    execute: bool,
    output_exists: bool,
    manifest: &Result<Vec<u8>, String>,
    document: &Result<EvidenceSignatureDocument, String>,
    key_file: &Result<Vec<u8>, String>,
    store: &Result<Option<EvidenceTrustStore>, String>,
    events: &Result<Vec<EvidenceAuditEvent>, String>,
    contents: &Vec<Result<Vec<u8>, String>>,
    journal: &Result<Vec<u8>, String>,
    created_at: &str,
    now: i128,
) -> (r: BundlePlan)
    requires
        contents@.len() == latest_digests(events_or_none(seen(*events))).len(),
    ensures
        r.deep_view() == guarded_bundle_plan(
            state_dir@,
            manifest_path@,
            output_path@,
            execute,
            output_exists,
            bytes_seen(*manifest),
            seen(*document),
            bytes_seen(*key_file),
            seen(*store),
            seen(*events),
            contents_seen(contents@),
            bytes_seen(*journal),
            created_at@,
            now,
        ),
{
    let signed = verify_artifact_signature(
        manifest_path,
        manifest,
        document,
        key_file,
        store,
        now,
    );
    let audit = verify_audit_chain(state_dir, events, contents);
    let signature = match document {
        Ok(found) => Some(found.clone()),
        Err(_) => None,
    };
    plan_bundle(
        manifest_path,
        output_path,
        execute,
        output_exists,
        manifest,
        signature,
        signed.ok,
        events,
        audit.ok,
        journal,
        created_at,
    )
}

/// The report on a bundle after it was to be written, given the bytes that were
/// written.
pub fn finish_export(report: EvidenceAuditBundleReport, written: &Result<Vec<u8>, String>) -> (r:
    EvidenceAuditBundleReport)
    ensures
        r.deep_view() == (match bytes_seen(*written) {
            Ok(bytes) => EvidenceAuditBundleReportView {
                ok: report.deep_view().limitations.len() == 0,
                status: if report.deep_view().limitations.len() == 0 {
                    report.deep_view().status
                } else {
                    "blocked"@
                },
                bundle_sha256: Some(sha256_hex(bytes)),
                ..report.deep_view()
            },
            Err(words) => EvidenceAuditBundleReportView {
                ok: false,
                status: "blocked"@,
                limitations: report.deep_view().limitations.push(words),
                ..report.deep_view()
            },
        }),
{
    let mut report = report;
    proof {
        assert(report.limitations.deep_view().len() == report.limitations@.len());
    }
    match written {
        Ok(bytes) => {
            report.bundle_sha256 = Some(sha256_bytes(bytes.as_slice()));
            report.ok = report.limitations.len() == 0;
            if !report.ok {
                report.status = "blocked".to_string();
            }
        },
        Err(words) => {
            put(&mut report.limitations, words);
            report.ok = false;
            report.status = "blocked".to_string();
        },
    }
    report
}

// ---------------------------------------------------------------------------
// Checkpoints
// ---------------------------------------------------------------------------

/// Where a checkpoint is kept.
pub open spec fn checkpoint_path_spec(state_dir: Seq<char>, moment: i128, process: u32) -> Seq<
    char,
> {
    path_joined(
        path_joined(state_dir, "evidence-checkpoints"@),
        "checkpoint-"@ + signed_decimal(moment as int) + "-"@ + decimal(process as nat)
            + ".json"@,
    )
}

/// Where a checkpoint is kept: by the instant, in nanoseconds since the Unix epoch,
/// and the process that makes it.
pub fn checkpoint_path(state_dir: &str, moment: i128, process: u32) -> (r: String)
    ensures
        r@ == checkpoint_path_spec(state_dir@, moment, process),
{
    path_join(
        &path_join(state_dir, "evidence-checkpoints"),
        &cat5(
            "checkpoint-",
            &wide_signed_text(moment),
            "-",
            &decimal_text(process as u64),
            ".json",
        ),
    )
}

/// Everything that speaks against a checkpoint.
pub open spec fn checkpoint_limitations(
    events: Result<Seq<EvidenceAuditEventView>, Seq<char>>,
    secret: Result<Seq<u8>, Seq<char>>,
    state: Result<Seq<char>, Seq<char>>,
) -> Seq<Seq<char>> {
    failure(checked_chain(events)) + noted(
        events_or_none(checked_chain(events)).len() == 0,
        "audit checkpoint requires at least one audit event"@,
    ) + failure(secret) + lifecycle_notes(state)
}

/// The state of the chain.
pub open spec fn checkpoint_of(
    state_dir: Seq<char>,
    key_id: Seq<char>,
    events: Seq<EvidenceAuditEventView>,
    journal: Result<Seq<u8>, Seq<char>>,
    created_at: Seq<char>,
) -> EvidenceAuditCheckpointView {
    EvidenceAuditCheckpointView {
        schema_version: checkpoint_schema(),
        created_at,
        key_id,
        audit_journal_path: audit_path(state_dir),
        audit_journal_sha256: digest_or_none(journal),
        head_sequence: if events.len() == 0 {
            0
        } else {
            events.last().sequence
        },
        head_event_sha256: if events.len() == 0 {
            Seq::empty()
        } else {
            events.last().event_sha256
        },
    }
}

/// What to do about a checkpoint.
pub open spec fn checkpoint_plan(
    state_dir: Seq<char>,
    key_id: Seq<char>,
    execute: bool,
    moment: i128,
    process: u32,
    events: Result<Seq<EvidenceAuditEventView>, Seq<char>>,
    secret: Result<Seq<u8>, Seq<char>>,
    state: Result<Seq<char>, Seq<char>>,
    journal: Result<Seq<u8>, Seq<char>>,
    created_at: Seq<char>,
) -> CheckpointPlanView {
    let limitations = checkpoint_limitations(events, secret, state);
    CheckpointPlanView {
        checkpoint_path: checkpoint_path_spec(state_dir, moment, process),
        checkpoint: checkpoint_of(
            state_dir,
            key_id,
            events_or_none(checked_chain(events)),
            journal,
            created_at,
        ),
        write: execute && limitations.len() == 0,
        limitations,
    }
}

/// What to do about a checkpoint with a secret that was found usable, or with the
/// reason why none is.
fn plan_checkpoint(
    state_dir: &str,
    key_id: &str,
    execute: bool,
    moment: i128,
    process: u32,
    events: &Result<Vec<EvidenceAuditEvent>, String>,
    secret: &Result<Vec<u8>, String>,
    state: &Result<String, String>,
    journal: &Result<Vec<u8>, String>,
    created_at: &str,
) -> (r: CheckpointPlan)
    ensures
        r.deep_view() == checkpoint_plan(
            state_dir@,
            key_id@,
            execute,
            moment,
            process,
            seen(*events),
            bytes_seen(*secret),
            seen(*state),
            bytes_seen(*journal),
            created_at@,
        ),
{
    let no_events: Vec<EvidenceAuditEvent> = Vec::new();
    let mut limitations: Vec<String> = Vec::new();
    proof {
        assert(no_events.deep_view() =~= Seq::<EvidenceAuditEventView>::empty());
        assert(limitations.deep_view() =~= Seq::<Seq<char>>::empty());
    }
    let chain = check_chain(events);
    note_failure(&mut limitations, &chain);
    let all = match chain {
        Ok(all) => all,
        Err(_) => &no_events,
    };
    let size = all.len();
    proof {
        assert(all.deep_view() == events_or_none(checked_chain(seen(*events))));
        assert(all.deep_view().len() == all@.len());
    }
    note(
        &mut limitations,
        size == 0,
        "audit checkpoint requires at least one audit event",
    );
    note_failure(&mut limitations, secret);
    note_lifecycle(&mut limitations, state);
    proof {
        assert(limitations.deep_view() =~= checkpoint_limitations(
            seen(*events),
            bytes_seen(*secret),
            seen(*state),
        ));
        assert(limitations.deep_view().len() == limitations@.len());
    }
    let (head_sequence, head_event_sha256): (u64, String) = if size == 0 {
        let none = String::new();
        proof {
            assert(none@ =~= Seq::<char>::empty());
        }
        (0, none)
    } else {
        let last = &all[size - 1];
        proof {
            assert(all.deep_view().last() == last.deep_view());
        }
        (last.sequence, last.event_sha256.clone())
    };
    CheckpointPlan {
        checkpoint_path: checkpoint_path(state_dir, moment, process),
        checkpoint: EvidenceAuditCheckpoint {
            schema_version: "opsctl.evidence_audit_checkpoint.v1".to_string(),
            created_at: created_at.to_string(),
            key_id: key_id.to_string(),
            audit_journal_path: audit_journal_path(state_dir),
            audit_journal_sha256: digest_if_read(journal),
            head_sequence,
            head_event_sha256,
        },
        write: execute && limitations.len() == 0,
        limitations,
    }
}

/// What to do about a checkpoint: the secret is used only where its public key is the
/// one of the key file, and only while the trust store allows the key.
pub open spec fn guarded_checkpoint_plan(
    state_dir: Seq<char>,
    key_id: Seq<char>,
    execute: bool,
    moment: i128,
    process: u32,
    events: Result<Seq<EvidenceAuditEventView>, Seq<char>>,
    secret: Result<Seq<u8>, Seq<char>>,
    key_file: Result<Seq<u8>, Seq<char>>,
    store: Result<Option<EvidenceTrustStoreView>, Seq<char>>,
    journal: Result<Seq<u8>, Seq<char>>,
    created_at: Seq<char>,
    now: i128,
) -> CheckpointPlanView {
    checkpoint_plan(
        state_dir,
        key_id,
        execute,
        moment,
        process,
        events,
        usable_secret(secret, public_key_in(key_file)),
        lifecycle(store, key_id, public_key_in(key_file), now),
        journal,
        created_at,
    )
}

/// What to do about a checkpoint.
pub fn create_audit_checkpoint(
    state_dir: &str,
    key_id: &str,
    execute: bool,
    moment: i128,
    process: u32,
    events: &Result<Vec<EvidenceAuditEvent>, String>,
    secret: Result<Vec<u8>, String>,
    key_file: &Result<Vec<u8>, String>,
    store: &Result<Option<EvidenceTrustStore>, String>,
    journal: &Result<Vec<u8>, String>,
    created_at: &str,
    now: i128,
) -> (r: CheckpointPlan)
    requires
        secret is Ok ==> secret->Ok_0@.len() == 32,
    ensures
        r.deep_view() == guarded_checkpoint_plan(
            state_dir@,
            key_id@,
            execute,
            moment,
            process,
            seen(*events),
            bytes_seen(secret),
            bytes_seen(*key_file),
            seen(*store),
            bytes_seen(*journal),
            created_at@,
            now,
        ),
{
    let trusted = read_verifying_key(key_file);
    let state = key_lifecycle(store, key_id, &trusted, now);
    let usable = read_signing_key_source(secret, &trusted);
    let plan = plan_checkpoint(
        state_dir,
        key_id,
        execute,
        moment,
        process,
        events,
        &usable,
        &state,
        journal,
        created_at,
    );
    if let Ok(bytes) = usable {
        let mut bytes = bytes;
        wipe(&mut bytes);
    }
    plan
}

/// What went wrong while a checkpoint was written, signed and audited, in this order.
pub open spec fn checkpoint_failures(
    written: Result<(), Seq<char>>,
    signed: EvidenceSignatureReportView,
    audited: Result<(), Seq<char>>,
) -> Seq<Seq<char>> {
    match written {
        Ok(_) => if !signed.ok {
            signed.limitations
        } else {
            failure(audited)
        },
        Err(words) => seq![words],
    }
}

/// The report on a checkpoint.
pub open spec fn checkpoint_report(
    plan: CheckpointPlanView,
    execute: bool,
    limitations: Seq<Seq<char>>,
) -> EvidenceCheckpointReportView {
    EvidenceCheckpointReportView {
        ok: limitations.len() == 0,
        read_only: !execute,
        status: if limitations.len() > 0 {
            "blocked"@
        } else if execute {
            "checkpoint_signed"@
        } else {
            "planned"@
        },
        checkpoint_path: plan.checkpoint_path,
        signature_path: signature_path_spec(plan.checkpoint_path),
        head_sequence: plan.checkpoint.head_sequence,
        key_id: plan.checkpoint.key_id,
        limitations,
    }
}

/// The report on a checkpoint that was not written.
pub fn report_checkpoint(plan: CheckpointPlan, execute: bool) -> (r: EvidenceCheckpointReport)
    ensures
        r.deep_view() == checkpoint_report(
            plan.deep_view(),
            execute,
            plan.deep_view().limitations,
        ),
{
    proof {
        assert(plan.limitations.deep_view().len() == plan.limitations@.len());
    }
    let ok = plan.limitations.len() == 0;
    EvidenceCheckpointReport {
        ok,
        read_only: !execute,
        status: if !ok {
            "blocked".to_string()
        } else if execute {
            "checkpoint_signed".to_string()
        } else {
            "planned".to_string()
        },
        signature_path: signature_path(&plan.checkpoint_path),
        checkpoint_path: plan.checkpoint_path,
        head_sequence: plan.checkpoint.head_sequence,
        key_id: plan.checkpoint.key_id,
        limitations: plan.limitations,
    }
}

/// The report on a checkpoint after it was to be written, signed and audited. What
/// comes later matters only if all before it went well.
pub fn finish_checkpoint(
    plan: CheckpointPlan,
    written: &Result<(), String>,
    signed: &EvidenceSignatureReport,
    audited: &Result<(), String>,
) -> (r: EvidenceCheckpointReport)
    ensures
        r.deep_view() == checkpoint_report(
            plan.deep_view(),
            true,
            plan.deep_view().limitations + checkpoint_failures(
                done_seen(*written),
                signed.deep_view(),
                done_seen(*audited),
            ),
        ),
{
    let ghost before = plan.deep_view();
    let ghost failures = checkpoint_failures(
        done_seen(*written),
        signed.deep_view(),
        done_seen(*audited),
    );
    let mut plan = plan;
    match written {
        Ok(_) => {
            if !signed.ok {
                extend(&mut plan.limitations, &signed.limitations);
            } else {
                note_failure(&mut plan.limitations, audited);
            }
        },
        Err(words) => {
            put(&mut plan.limitations, words);
        },
    }
    proof {
        assert(plan.limitations.deep_view() =~= before.limitations + failures);
    }
    report_checkpoint(plan, true)
}

// ---------------------------------------------------------------------------
// All evidence
// ---------------------------------------------------------------------------

/// Whether a document asks for a signature.
pub open spec fn asks_for_signature(content: Option<Seq<u8>>) -> bool {
    match content {
        Some(bytes) => match json_in(bytes) {
            Ok(tree) => member_of(tree, "signature_required"@) == Some(JsonView::Bool(true)),
            Err(_) => false,
        },
        None => false,
    }
}

/// Whether a document asks for a signature.
pub fn signature_is_required(content: Option<&Vec<u8>>) -> (r: bool)
    ensures
        r == asks_for_signature(
            match content {
                Some(bytes) => Some(bytes@),
                None => None,
            },
        ),
{
    match content {
        Some(bytes) => match parse_json_bytes(bytes.as_slice()) {
            Ok(tree) => match json_get(&tree, "signature_required") {
                Some(field) => {
                    proof {
                        lemma_json_view(*field);
                    }
                    match field {
                        Json::Bool(flag) => *flag,
                        _ => false,
                    }
                },
                None => false,
            },
            Err(_) => false,
        },
        None => false,
    }
}

/// Whether an entry is a document whose signature counts.
pub open spec fn entry_counts(entry: EvidenceEntryView, always: bool) -> bool {
    finishes(entry.name, ".json"@) && !finishes(entry.name, ".sig.json"@) && (
    entry.signature_exists || always || asks_for_signature(
        match entry.content {
            Ok(bytes) => Some(bytes),
            Err(_) => None,
        },
    ))
}

/// Whether the signature beside an entry is valid.
pub open spec fn entry_is_signed(
    entry: EvidenceEntryView,
    store: Result<Option<EvidenceTrustStoreView>, Seq<char>>,
    now: i128,
) -> bool {
    checked_signature(
        entry.path,
        signature_path_spec(entry.path),
        true,
        entry.content,
        entry.document,
        entry.key_file,
        store,
        now,
    ).ok
}

/// Whether an entry is a document whose signature counts: it has one, or it needs
/// one.
pub fn entry_is_checked(entry: &EvidenceEntry, always: bool) -> (r: bool)
    ensures
        r == entry_counts(entry.deep_view(), always),
{
    if !ends_with(&entry.name, ".json") || ends_with(&entry.name, ".sig.json") {
        return false;
    }
    match &entry.content {
        Ok(bytes) => {
            proof {
                assert(bytes.deep_view() =~= bytes@);
            }
            entry.signature_exists || always || signature_is_required(Some(bytes))
        },
        Err(_) => entry.signature_exists || always,
    }
}

/// Whether an entry that was read counts.
pub open spec fn read_and_counts(always: bool) -> spec_fn(Option<EvidenceEntryView>) -> bool {
    |entry: Option<EvidenceEntryView>| entry is Some && entry_counts(entry->0, always)
}

/// Whether an entry that was read counts and is valid.
pub open spec fn counts_and_is_valid(
    always: bool,
    store: Result<Option<EvidenceTrustStoreView>, Seq<char>>,
    now: i128,
) -> spec_fn(Option<EvidenceEntryView>) -> bool {
    |entry: Option<EvidenceEntryView>|
        entry is Some && entry_counts(entry->0, always) && entry_is_signed(entry->0, store, now)
}

/// What is wrong with an entry.
pub open spec fn entry_notes(
    always: bool,
    store: Result<Option<EvidenceTrustStoreView>, Seq<char>>,
    now: i128,
) -> spec_fn(Option<EvidenceEntryView>) -> Seq<Seq<char>> {
    |entry: Option<EvidenceEntryView>|
        match entry {
            Some(e) => noted(
                entry_counts(e, always) && !entry_is_signed(e, store, now),
                "artifact signature is invalid: "@ + e.path,
            ),
            None => seq!["failed to read an evidence directory entry"@],
        }
}

/// What came of the entries of a directory.
pub open spec fn listed_report(
    entries: Seq<Option<EvidenceEntryView>>,
    always: bool,
    store: Result<Option<EvidenceTrustStoreView>, Seq<char>>,
    now: i128,
) -> DirectoryReportView {
    let looked_at = front(entries, MAX_EVIDENCE_ENTRIES as nat);
    DirectoryReportView {
        checked: tally(looked_at, read_and_counts(always)),
        valid: tally(looked_at, counts_and_is_valid(always, store, now)),
        limitations: gathered(looked_at, entry_notes(always, store, now)) + noted(
            entries.len() > MAX_EVIDENCE_ENTRIES,
            "evidence directory exceeds the entry limit"@,
        ),
    }
}

/// What came of a directory.
pub open spec fn directory_report(
    directory: Seq<char>,
    entry: Option<Result<EntryKind, Seq<char>>>,
    entries: Result<Seq<Option<EvidenceEntryView>>, Seq<char>>,
    always: bool,
    store: Result<Option<EvidenceTrustStoreView>, Seq<char>>,
    now: i128,
) -> DirectoryReportView {
    let nothing = DirectoryReportView { checked: 0, valid: 0, limitations: Seq::empty() };
    match entry {
        None => nothing,
        Some(Err(words)) => DirectoryReportView { limitations: seq![words], ..nothing },
        Some(Ok(kind)) => if kind != EntryKind::Dir {
            DirectoryReportView {
                limitations: seq!["evidence directory is unsafe: "@ + directory],
                ..nothing
            }
        } else {
            match entries {
                Ok(all) => listed_report(all, always, store, now),
                Err(words) => DirectoryReportView { limitations: seq![words], ..nothing },
            }
        },
    }
}

/// What stands in a place, if anything does.
pub open spec fn place_seen(entry: Option<Result<EntryKind, String>>) -> Option<
    Result<EntryKind, Seq<char>>,
> {
    match entry {
        Some(outcome) => Some(kind_seen(outcome)),
        None => None,
    }
}

fn bare_directory_report(words: Option<String>) -> (r: DirectoryReport)
    ensures
        r.deep_view() == (DirectoryReportView {
            checked: 0,
            valid: 0,
            limitations: match words {
                Some(text) => seq![text@],
                None => Seq::empty(),
            },
        }),
{
    let mut limitations: Vec<String> = Vec::new();
    match words {
        Some(text) => {
            let ghost held = text@;
            limitations.push(text);
            proof {
                assert(limitations.deep_view() =~= seq![held]);
            }
        },
        None => {
            proof {
                assert(limitations.deep_view() =~= Seq::<Seq<char>>::empty());
            }
        },
    }
    DirectoryReport { checked: 0, valid: 0, limitations }
}

fn check_entries(
    entries: &Vec<Option<EvidenceEntry>>,
    always: bool,
    store: &Result<Option<EvidenceTrustStore>, String>,
    now: i128,
) -> (r: DirectoryReport)
    ensures
        r.deep_view() == listed_report(entries.deep_view(), always, seen(*store), now),
{
    let ghost all = entries.deep_view();
    let size = entries.len();
    let limit: usize = if size > MAX_EVIDENCE_ENTRIES {
        MAX_EVIDENCE_ENTRIES
    } else {
        size
    };
    let ghost looked_at = front(all, MAX_EVIDENCE_ENTRIES as nat);
    let mut limitations: Vec<String> = Vec::new();
    let mut checked: usize = 0;
    let mut valid: usize = 0;
    let mut i: usize = 0;
    proof {
        assert(all.len() == size);
        assert(looked_at =~= all.take(limit as int));
        ends(looked_at);
        assert(limitations.deep_view() =~= Seq::<Seq<char>>::empty());
    }
    while i < limit
        invariant
            i <= limit,
            limit <= entries@.len(),
            all == entries.deep_view(),
            looked_at == all.take(limit as int),
            looked_at.len() == limit,
            checked <= i,
            valid <= i,
            checked == tally(looked_at.take(i as int), read_and_counts(always)),
            valid == tally(
                looked_at.take(i as int),
                counts_and_is_valid(always, seen(*store), now),
            ),
            limitations.deep_view() == gathered(
                looked_at.take(i as int),
                entry_notes(always, seen(*store), now),
            ),
        decreases limit - i,
    {
        let ghost held = limitations.deep_view();
        proof {
            step(looked_at, i as int);
            assert(looked_at[i as int] == entries@[i as int].deep_view());
        }
        match &entries[i] {
            Some(entry) => {
                let counts = entry_is_checked(entry, always);
                let signed = counts && verify_artifact_signature(
                    &entry.path,
                    &entry.content,
                    &entry.document,
                    &entry.key_file,
                    store,
                    now,
                ).ok;
                if counts {
                    checked = checked + 1;
                    if signed {
                        valid = valid + 1;
                    }
                }
                note(
                    &mut limitations,
                    counts && !signed,
                    &cat2("artifact signature is invalid: ", &entry.path),
                );
            },
            None => {
                put(&mut limitations, "failed to read an evidence directory entry");
                proof {
                    assert(limitations.deep_view() =~= held + seq![
                        "failed to read an evidence directory entry"@,
                    ]);
                }
            },
        }
        i = i + 1;
    }
    proof {
        ends(looked_at);
    }
    note(
        &mut limitations,
        size > MAX_EVIDENCE_ENTRIES,
        "evidence directory exceeds the entry limit",
    );
    DirectoryReport { checked, valid, limitations }
}

/// What came of a directory. One that is missing holds nothing.
pub fn verify_directory_artifacts(
    directory: &str,
    entry: Option<Result<EntryKind, String>>,
    entries: &Result<Vec<Option<EvidenceEntry>>, String>,
    always: bool,
    store: &Result<Option<EvidenceTrustStore>, String>,
    now: i128,
) -> (r: DirectoryReport)
    ensures
        r.deep_view() == directory_report(
            directory@,
            place_seen(entry),
            seen(*entries),
            always,
            seen(*store),
            now,
        ),
{
    match entry {
        None => bare_directory_report(None),
        Some(Err(words)) => bare_directory_report(Some(words)),
        Some(Ok(kind)) => if kind != EntryKind::Dir {
            bare_directory_report(Some(cat2("evidence directory is unsafe: ", directory)))
        } else {
            match entries {
                Ok(all) => check_entries(all, always, store, now),
                Err(words) => bare_directory_report(Some(words.clone())),
            }
        },
    }
}

/// Whether all evidence is in order.
pub open spec fn all_evidence(
    audit: EvidenceAuditVerifyReportView,
    trust: EvidenceTrustReportView,
    manifests: DirectoryReportView,
    checkpoints: DirectoryReportView,
) -> EvidenceVerifyAllReportView {
    let limitations = noted(!audit.ok, "global evidence audit chain is invalid or empty"@)
        + manifests.limitations + checkpoints.limitations;
    let ok = limitations.len() == 0 && manifests.checked == manifests.valid && checkpoints.checked
        == checkpoints.valid;
    EvidenceVerifyAllReportView {
        ok,
        read_only: true,
        status: if ok {
            "valid"@
        } else {
            "blocked"@
        },
        audit,
        trust,
        manifests_checked: manifests.checked,
        manifests_valid: manifests.valid,
        checkpoints_checked: checkpoints.checked,
        checkpoints_valid: checkpoints.valid,
        limitations,
    }
}

/// Whether all evidence is in order: the chain, the manifests and the checkpoints.
pub fn verify_all_evidence(
    audit: EvidenceAuditVerifyReport,
    trust: EvidenceTrustReport,
    manifests: DirectoryReport,
    checkpoints: DirectoryReport,
) -> (r: EvidenceVerifyAllReport)
    ensures
        r.deep_view() == all_evidence(
            audit.deep_view(),
            trust.deep_view(),
            manifests.deep_view(),
            checkpoints.deep_view(),
        ),
{
    let mut limitations: Vec<String> = Vec::new();
    proof {
        assert(limitations.deep_view() =~= Seq::<Seq<char>>::empty());
    }
    note(&mut limitations, !audit.ok, "global evidence audit chain is invalid or empty");
    extend(&mut limitations, &manifests.limitations);
    extend(&mut limitations, &checkpoints.limitations);
    proof {
        assert(limitations.deep_view() =~= noted(
            !audit.ok,
            "global evidence audit chain is invalid or empty"@,
        ) + manifests.limitations.deep_view() + checkpoints.limitations.deep_view());
        assert(limitations.deep_view().len() == limitations@.len());
    }
    let ok = limitations.len() == 0 && manifests.checked == manifests.valid && checkpoints.checked
        == checkpoints.valid;
    EvidenceVerifyAllReport {
        ok,
        read_only: true,
        status: if ok {
            "valid".to_string()
        } else {
            "blocked".to_string()
        },
        audit,
        trust,
        manifests_checked: manifests.checked,
        manifests_valid: manifests.valid,
        checkpoints_checked: checkpoints.checked,
        checkpoints_valid: checkpoints.valid,
        limitations,
    }
}

// ---------------------------------------------------------------------------
// Laws
// ---------------------------------------------------------------------------

/// Evidence is valid as a whole only if the chain is, every entry of both
/// directories could be read, and every document that counts has a valid signature.
pub proof fn law_valid_evidence_is_valid_throughout(
    audit: EvidenceAuditVerifyReportView,
    trust: EvidenceTrustReportView,
    manifests: Seq<Option<EvidenceEntryView>>,
    checkpoints: Seq<Option<EvidenceEntryView>>,
    store: Result<Option<EvidenceTrustStoreView>, Seq<char>>,
    now: i128,
    i: int,
)
    requires
        all_evidence(
            audit,
            trust,
            listed_report(manifests, false, store, now),
            listed_report(checkpoints, true, store, now),
        ).ok,
    ensures
        audit.ok,
        manifests.len() <= MAX_EVIDENCE_ENTRIES,
        checkpoints.len() <= MAX_EVIDENCE_ENTRIES,
        0 <= i < manifests.len() ==> manifests[i] is Some && (entry_counts(manifests[i]->0, false)
            ==> entry_is_signed(manifests[i]->0, store, now)),
        0 <= i < checkpoints.len() ==> checkpoints[i] is Some && (entry_counts(
            checkpoints[i]->0,
            true,
        ) ==> entry_is_signed(checkpoints[i]->0, store, now)),
{
    let m = listed_report(manifests, false, store, now);
    let c = listed_report(checkpoints, true, store, now);
    assert(m.limitations.len() == 0);
    assert(c.limitations.len() == 0);
    assert(front(manifests, MAX_EVIDENCE_ENTRIES as nat) =~= manifests);
    assert(front(checkpoints, MAX_EVIDENCE_ENTRIES as nat) =~= checkpoints);
    if 0 <= i < manifests.len() {
        lemma_gathered_nothing(manifests, entry_notes(false, store, now), i);
    }
    if 0 <= i < checkpoints.len() {
        lemma_gathered_nothing(checkpoints, entry_notes(true, store, now), i);
    }
}

/// A bundle is exported only with a signed manifest, an audit event about it, and a
/// valid chain, to a new absolute path.
pub proof fn law_bundles_are_signed_and_audited(
    state_dir: Seq<char>,
    manifest_path: Seq<char>,
    output_path: Seq<char>,
    execute: bool,
    output_exists: bool,
    manifest: Result<Seq<u8>, Seq<char>>,
    document: Result<EvidenceSignatureDocumentView, Seq<char>>,
    key_file: Result<Seq<u8>, Seq<char>>,
    store: Result<Option<EvidenceTrustStoreView>, Seq<char>>,
    events: Result<Seq<EvidenceAuditEventView>, Seq<char>>,
    contents: Seq<Result<Seq<u8>, Seq<char>>>,
    journal: Result<Seq<u8>, Seq<char>>,
    created_at: Seq<char>,
    now: i128,
)
    ensures
        guarded_bundle_plan(
            state_dir,
            manifest_path,
            output_path,
            execute,
            output_exists,
            manifest,
            document,
            key_file,
            store,
            events,
            contents,
            journal,
            created_at,
            now,
        ).bundle is Some <==> {
            &&& execute
            &&& is_absolute_spec(output_path)
            &&& !same_path_spec(output_path, "/"@)
            &&& !output_exists
            &&& manifest is Ok
            &&& json_in(manifest->Ok_0) is Ok
            &&& checked_signature(
                manifest_path,
                signature_path_spec(manifest_path),
                true,
                manifest,
                document,
                key_file,
                store,
                now,
            ).ok
            &&& kept(events_or_none(events), about(manifest_path)).len() > 0
            &&& audit_report(state_dir, events, contents).ok
        },
{
}

/// A checkpoint is written only over a whole chain with at least one event, and it
/// names the last event of that chain.
pub proof fn law_checkpoints_name_the_head_of_a_whole_chain(
    state_dir: Seq<char>,
    key_id: Seq<char>,
    execute: bool,
    moment: i128,
    process: u32,
    events: Result<Seq<EvidenceAuditEventView>, Seq<char>>,
    secret: Result<Seq<u8>, Seq<char>>,
    state: Result<Seq<char>, Seq<char>>,
    journal: Result<Seq<u8>, Seq<char>>,
    created_at: Seq<char>,
)
    requires
        checkpoint_plan(
            state_dir,
            key_id,
            execute,
            moment,
            process,
            events,
            secret,
            state,
            journal,
            created_at,
        ).write,
    ensures
        ({
            let plan = checkpoint_plan(
                state_dir,
                key_id,
                execute,
                moment,
                process,
                events,
                secret,
                state,
                journal,
                created_at,
            );
            &&& execute
            &&& events is Ok
            &&& chain_is_valid(events->Ok_0)
            &&& events->Ok_0.len() > 0
            &&& plan.checkpoint.head_sequence == events->Ok_0.len()
            &&& plan.checkpoint.head_event_sha256 == events->Ok_0.last().event_sha256
            &&& state is Ok
            &&& is_usable(state->Ok_0)
        }),
{
    let all = events->Ok_0;
    assert(checked_chain(events) is Ok);
    assert(event_is_valid(all, all.len() - 1));
}

/// What goes into a bundle: the manifest's digest, its signature, and the events about it,
/// all of them and no others. A bundle that can be exported is reported as such.
pub proof fn law_what_is_bundled(
    manifest_path: Seq<char>,
    output_path: Seq<char>,
    execute: bool,
    output_exists: bool,
    manifest: Result<Seq<u8>, Seq<char>>,
    signature: Option<EvidenceSignatureDocumentView>,
    manifest_signed: bool,
    events: Result<Seq<EvidenceAuditEventView>, Seq<char>>,
    audit_ok: bool,
    journal: Result<Seq<u8>, Seq<char>>,
    created_at: Seq<char>,
    e: EvidenceAuditEventView,
)
    ensures
        ({
            let plan = bundle_plan(
                manifest_path,
                output_path,
                execute,
                output_exists,
                manifest,
                signature,
                manifest_signed,
                events,
                audit_ok,
                journal,
                created_at,
            );
            let about_it = exists|i: int|
                events is Ok && 0 <= i < events->Ok_0.len() && (
                #[trigger] events->Ok_0[i]).artifact_path == manifest_path;
            let fine = is_absolute_spec(output_path) && !same_path_spec(output_path, "/"@)
                && !output_exists && manifest is Ok && json_in(manifest->Ok_0) is Ok
                && manifest_signed && about_it && audit_ok;
            &&& plan.bundle is Some <==> execute && fine
            &&& plan.report.ok <==> fine
            &&& plan.report.status == "exported"@ <==> fine && execute
            &&& plan.report.status == "planned"@ <==> fine && !execute
            &&& plan.report.status == "blocked"@ <==> !fine
            &&& plan.report.read_only <==> !execute
            &&& plan.bundle matches Some(b) ==> {
                &&& b.manifest_path == manifest_path
                &&& b.manifest_sha256 == sha256_hex(manifest->Ok_0)
                &&& b.manifest_json == json_in(manifest->Ok_0)->Ok_0
                &&& b.signature == signature
                &&& b.created_at == created_at
                &&& b.schema_version == "opsctl.evidence_audit_bundle.v1"@
                &&& journal is Ok ==> b.audit_chain_sha256 == sha256_hex(journal->Ok_0)
                &&& b.audit_events.contains(e) <==> events is Ok && events->Ok_0.contains(e)
                    && e.artifact_path == manifest_path
            }
        }),
{
    let all = events_or_none(events);
    let p = about(manifest_path);
    let selected = kept(all, p);
    law_kept(all, p, e);
    law_tally(all, Seq::empty(), p);
    if exists|i: int|
        events is Ok && 0 <= i < events->Ok_0.len() && (#[trigger] events->Ok_0[i]).artifact_path
            == manifest_path {
        let i = choose|i: int|
            events is Ok && 0 <= i < events->Ok_0.len() && (
            #[trigger] events->Ok_0[i]).artifact_path == manifest_path;
        assert(p(all[i]));
    }
    if tally(all, p) > 0 {
        let i = choose|i: int| 0 <= i < all.len() && p(#[trigger] all[i]);
        assert(all[i].artifact_path == manifest_path);
    }
    reveal_strlit("exported");
    reveal_strlit("planned");
    reveal_strlit("blocked");
    assert("exported"@[0] == 'e' && "planned"@[0] == 'p' && "blocked"@[0] == 'b');
}

/// A checkpoint is written exactly where this is to be executed, the events could be read
/// and are a valid chain of at least one, the secret can be used and its key too.
pub proof fn law_when_checkpoints_are_written(
    state_dir: Seq<char>,
    key_id: Seq<char>,
    execute: bool,
    moment: i128,
    process: u32,
    events: Result<Seq<EvidenceAuditEventView>, Seq<char>>,
    secret: Result<Seq<u8>, Seq<char>>,
    key_file: Result<Seq<u8>, Seq<char>>,
    store: Result<Option<EvidenceTrustStoreView>, Seq<char>>,
    journal: Result<Seq<u8>, Seq<char>>,
    created_at: Seq<char>,
    now: i128,
)
    ensures
        ({
            let plan = guarded_checkpoint_plan(
                state_dir,
                key_id,
                execute,
                moment,
                process,
                events,
                secret,
                key_file,
                store,
                journal,
                created_at,
                now,
            );
            let public = public_key_in(key_file);
            let state = lifecycle(store, key_id, public, now);
            let fine = events is Ok && events->Ok_0.len() > 0 && chain_is_valid(events->Ok_0)
                && secret is Ok && public is Ok && public_key_of(secret->Ok_0) == public->Ok_0
                && state is Ok && (state->Ok_0 == "active"@ || state->Ok_0 == "legacy"@);
            &&& plan.write <==> execute && fine
            &&& plan.limitations.len() == 0 <==> fine
            &&& plan.checkpoint.key_id == key_id
            &&& plan.checkpoint.created_at == created_at
            &&& journal is Ok ==> plan.checkpoint.audit_journal_sha256 == sha256_hex(journal->Ok_0)
            &&& fine ==> plan.checkpoint.head_sequence == events->Ok_0.last().sequence
                && plan.checkpoint.head_event_sha256 == events->Ok_0.last().event_sha256
        }),
{
}

/// A checkpoint is reported as signed exactly where nothing stood against it and it was to
/// be executed; writing, signing and recording it must all have worked.
pub proof fn law_what_a_checkpoint_comes_to(
    plan: CheckpointPlanView,
    execute: bool,
    written: Result<(), Seq<char>>,
    signed: EvidenceSignatureReportView,
    audited: Result<(), Seq<char>>,
)
    requires
        !signed.ok ==> signed.limitations.len() > 0,
    ensures
        checkpoint_failures(written, signed, audited).len() == 0 <==> written is Ok && signed.ok
            && audited is Ok,
        ({
            let failures = checkpoint_failures(written, signed, audited);
            let r = checkpoint_report(plan, execute, failures);
            &&& r.ok <==> failures.len() == 0
            &&& r.status == "blocked"@ <==> !r.ok
            &&& r.status == "checkpoint_signed"@ <==> r.ok && execute
            &&& r.status == "planned"@ <==> r.ok && !execute
            &&& r.checkpoint_path == plan.checkpoint_path
            &&& r.head_sequence == plan.checkpoint.head_sequence
        }),
{
    reveal_strlit("blocked");
    reveal_strlit("checkpoint_signed");
    reveal_strlit("planned");
    assert("blocked"@[0] == 'b' && "checkpoint_signed"@[0] == 'c' && "planned"@[0] == 'p');
}

/// A file counts as evidence exactly where it is a document and no signature, and it has a
/// signature, is in a directory where all need one, or asks for one itself.
pub proof fn law_which_files_count(entry: EvidenceEntryView, always: bool)
    ensures
        entry_counts(entry, always) <==> finishes(entry.name, ".json"@) && !finishes(
            entry.name,
            ".sig.json"@,
        ) && (entry.signature_exists || always || (entry.content is Ok && json_in(
            entry.content->Ok_0,
        ) is Ok && member_of(json_in(entry.content->Ok_0)->Ok_0, "signature_required"@) == Some(
            JsonView::Bool(true),
        ))),
{
}

/// All the evidence is valid exactly where the chain is, no directory has anything to
/// complain of, and every file that counts is validly signed.
pub proof fn law_when_all_evidence_is_valid(
    audit: EvidenceAuditVerifyReportView,
    trust: EvidenceTrustReportView,
    manifests: DirectoryReportView,
    checkpoints: DirectoryReportView,
)
    ensures
        ({
            let r = all_evidence(audit, trust, manifests, checkpoints);
            &&& r.ok <==> audit.ok && manifests.limitations.len() == 0
                && checkpoints.limitations.len() == 0 && manifests.checked == manifests.valid
                && checkpoints.checked == checkpoints.valid
            &&& r.status == "valid"@ <==> r.ok
            &&& r.status == "blocked"@ <==> !r.ok
            &&& r.manifests_checked == manifests.checked && r.manifests_valid == manifests.valid
            &&& r.checkpoints_checked == checkpoints.checked && r.checkpoints_valid
                == checkpoints.valid
        }),
{
    reveal_strlit("valid");
    reveal_strlit("blocked");
    assert("valid"@[0] == 'v' && "blocked"@[0] == 'b');
}

/// A directory of evidence has nothing to complain of exactly where it is not there, or is
/// a directory that can be read, with no more entries than are looked at, each of which can
/// be read and is validly signed if it counts.
pub proof fn law_when_a_directory_is_fine(
    directory: Seq<char>,
    entry: Option<Result<EntryKind, Seq<char>>>,
    entries: Result<Seq<Option<EvidenceEntryView>>, Seq<char>>,
    always: bool,
    store: Result<Option<EvidenceTrustStoreView>, Seq<char>>,
    now: i128,
)
    ensures
        directory_report(directory, entry, entries, always, store, now).limitations.len() == 0 <==> {
            ||| entry is None
            ||| entry == Some(Ok::<EntryKind, Seq<char>>(EntryKind::Dir)) && entries is Ok
                && entries->Ok_0.len() <= MAX_EVIDENCE_ENTRIES && forall|i: int|
                0 <= i < entries->Ok_0.len() ==> (#[trigger] entries->Ok_0[i]) is Some && (
                entry_counts(entries->Ok_0[i]->0, always) ==> entry_is_signed(
                    entries->Ok_0[i]->0,
                    store,
                    now,
                ))
        },
{
    if entries is Ok {
        let all = entries->Ok_0;
        let looked_at = front(all, MAX_EVIDENCE_ENTRIES as nat);
        let f = entry_notes(always, store, now);
        let notes = gathered(looked_at, f);
        if notes.len() > 0 {
            law_gathered(looked_at, f, notes[0]);
            assert(notes.contains(notes[0]));
            let i = choose|i: int|
                0 <= i < looked_at.len() && f(#[trigger] looked_at[i]).contains(notes[0]);
            assert(looked_at[i] == all[i]);
            assert(f(all[i]).len() > 0);
            assert(!(all[i] is Some && (entry_counts(all[i]->0, always) ==> entry_is_signed(
                all[i]->0,
                store,
                now,
            ))));
        } else if all.len() <= MAX_EVIDENCE_ENTRIES {
            assert forall|i: int| 0 <= i < all.len() implies (#[trigger] all[i]) is Some && (
            entry_counts(all[i]->0, always) ==> entry_is_signed(all[i]->0, store, now)) by {
                if f(all[i]).len() > 0 {
                    let x = f(all[i])[0];
                    assert(f(all[i]).contains(x));
                    law_gathered(looked_at, f, x);
                    assert(looked_at[i] == all[i]);
                    assert(notes.contains(x));
                }
            }
        }
    }
}

} // verus!
