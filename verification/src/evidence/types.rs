//! What the evidence modules keep and report.

use vstd::prelude::*;
use crate::json::{Json, JsonView};

verus! {

broadcast use {vstd::seq::group_seq_axioms, vstd::string::group_string_axioms};

/// What came of making a signing key.
#[derive(Debug)]
pub struct EvidenceKeyReport {
    pub ok: bool,
    pub read_only: bool,
    pub status: String,
    pub key_id: String,
    pub private_key_path: String,
    pub public_key_path: String,
    pub fingerprint_sha256: Option<String>,
    pub limitations: Vec<String>,
}

/// View of [`EvidenceKeyReport`].
#[verifier::ext_equal]
pub struct EvidenceKeyReportView {
    pub ok: bool,
    pub read_only: bool,
    pub status: Seq<char>,
    pub key_id: Seq<char>,
    pub private_key_path: Seq<char>,
    pub public_key_path: Seq<char>,
    pub fingerprint_sha256: Option<Seq<char>>,
    pub limitations: Seq<Seq<char>>,
}

impl DeepView for EvidenceKeyReport {
    type V = EvidenceKeyReportView;

    open spec fn deep_view(&self) -> EvidenceKeyReportView {
        EvidenceKeyReportView {
            ok: self.ok,
            read_only: self.read_only,
            status: self.status.deep_view(),
            key_id: self.key_id.deep_view(),
            private_key_path: self.private_key_path.deep_view(),
            public_key_path: self.public_key_path.deep_view(),
            fingerprint_sha256: self.fingerprint_sha256.deep_view(),
            limitations: self.limitations.deep_view(),
        }
    }
}

/// A detached signature of an artifact.
#[derive(Debug)]
pub struct EvidenceSignatureDocument {
    pub schema_version: String,
    pub key_id: String,
    pub signed_at: String,
    pub artifact_path: String,
    pub artifact_sha256: String,
    pub public_key_hex: String,
    pub signature_hex: String,
}

/// View of [`EvidenceSignatureDocument`].
#[verifier::ext_equal]
pub struct EvidenceSignatureDocumentView {
    pub schema_version: Seq<char>,
    pub key_id: Seq<char>,
    pub signed_at: Seq<char>,
    pub artifact_path: Seq<char>,
    pub artifact_sha256: Seq<char>,
    pub public_key_hex: Seq<char>,
    pub signature_hex: Seq<char>,
}

impl DeepView for EvidenceSignatureDocument {
    type V = EvidenceSignatureDocumentView;

    open spec fn deep_view(&self) -> EvidenceSignatureDocumentView {
        EvidenceSignatureDocumentView {
            schema_version: self.schema_version.deep_view(),
            key_id: self.key_id.deep_view(),
            signed_at: self.signed_at.deep_view(),
            artifact_path: self.artifact_path.deep_view(),
            artifact_sha256: self.artifact_sha256.deep_view(),
            public_key_hex: self.public_key_hex.deep_view(),
            signature_hex: self.signature_hex.deep_view(),
        }
    }
}

impl Clone for EvidenceSignatureDocument {
    fn clone(&self) -> (r: Self)
        ensures
            r.deep_view() == self.deep_view(),
    {
        EvidenceSignatureDocument {
            schema_version: self.schema_version.clone(),
            key_id: self.key_id.clone(),
            signed_at: self.signed_at.clone(),
            artifact_path: self.artifact_path.clone(),
            artifact_sha256: self.artifact_sha256.clone(),
            public_key_hex: self.public_key_hex.clone(),
            signature_hex: self.signature_hex.clone(),
        }
    }
}

/// What came of signing an artifact, or of checking its signature.
#[derive(Debug)]
pub struct EvidenceSignatureReport {
    pub ok: bool,
    pub read_only: bool,
    pub status: String,
    pub artifact_path: String,
    pub signature_path: String,
    pub key_id: Option<String>,
    pub artifact_unchanged: bool,
    pub trusted_key: bool,
    pub key_lifecycle_status: String,
    pub signature_valid: bool,
    pub limitations: Vec<String>,
}

/// View of [`EvidenceSignatureReport`].
#[verifier::ext_equal]
pub struct EvidenceSignatureReportView {
    pub ok: bool,
    pub read_only: bool,
    pub status: Seq<char>,
    pub artifact_path: Seq<char>,
    pub signature_path: Seq<char>,
    pub key_id: Option<Seq<char>>,
    pub artifact_unchanged: bool,
    pub trusted_key: bool,
    pub key_lifecycle_status: Seq<char>,
    pub signature_valid: bool,
    pub limitations: Seq<Seq<char>>,
}

impl DeepView for EvidenceSignatureReport {
    type V = EvidenceSignatureReportView;

    open spec fn deep_view(&self) -> EvidenceSignatureReportView {
        EvidenceSignatureReportView {
            ok: self.ok,
            read_only: self.read_only,
            status: self.status.deep_view(),
            artifact_path: self.artifact_path.deep_view(),
            signature_path: self.signature_path.deep_view(),
            key_id: self.key_id.deep_view(),
            artifact_unchanged: self.artifact_unchanged,
            trusted_key: self.trusted_key,
            key_lifecycle_status: self.key_lifecycle_status.deep_view(),
            signature_valid: self.signature_valid,
            limitations: self.limitations.deep_view(),
        }
    }
}

/// The keys that are trusted, as they are stored.
#[derive(Debug)]
pub struct EvidenceTrustStore {
    pub schema_version: String,
    pub updated_at: String,
    pub keys: Vec<EvidenceTrustedKey>,
}

/// View of [`EvidenceTrustStore`].
#[verifier::ext_equal]
pub struct EvidenceTrustStoreView {
    pub schema_version: Seq<char>,
    pub updated_at: Seq<char>,
    pub keys: Seq<EvidenceTrustedKeyView>,
}

impl DeepView for EvidenceTrustStore {
    type V = EvidenceTrustStoreView;

    open spec fn deep_view(&self) -> EvidenceTrustStoreView {
        EvidenceTrustStoreView {
            schema_version: self.schema_version.deep_view(),
            updated_at: self.updated_at.deep_view(),
            keys: self.keys.deep_view(),
        }
    }
}

/// A key in the trust store.
#[derive(Debug)]
pub struct EvidenceTrustedKey {
    pub key_id: String,
    pub public_key_sha256: String,
    pub valid_from: String,
    pub expires_at: String,
    pub revoked_at: Option<String>,
    pub revocation_reason: Option<String>,
}

/// View of [`EvidenceTrustedKey`].
#[verifier::ext_equal]
pub struct EvidenceTrustedKeyView {
    pub key_id: Seq<char>,
    pub public_key_sha256: Seq<char>,
    pub valid_from: Seq<char>,
    pub expires_at: Seq<char>,
    pub revoked_at: Option<Seq<char>>,
    pub revocation_reason: Option<Seq<char>>,
}

impl DeepView for EvidenceTrustedKey {
    type V = EvidenceTrustedKeyView;

    open spec fn deep_view(&self) -> EvidenceTrustedKeyView {
        EvidenceTrustedKeyView {
            key_id: self.key_id.deep_view(),
            public_key_sha256: self.public_key_sha256.deep_view(),
            valid_from: self.valid_from.deep_view(),
            expires_at: self.expires_at.deep_view(),
            revoked_at: self.revoked_at.deep_view(),
            revocation_reason: self.revocation_reason.deep_view(),
        }
    }
}

impl Clone for EvidenceTrustedKey {
    fn clone(&self) -> (r: Self)
        ensures
            r.deep_view() == self.deep_view(),
    {
        EvidenceTrustedKey {
            key_id: self.key_id.clone(),
            public_key_sha256: self.public_key_sha256.clone(),
            valid_from: self.valid_from.clone(),
            expires_at: self.expires_at.clone(),
            revoked_at: self.revoked_at.clone(),
            revocation_reason: self.revocation_reason.clone(),
        }
    }
}

/// What came of changing or reading the trust store.
#[derive(Debug)]
pub struct EvidenceTrustReport {
    pub ok: bool,
    pub read_only: bool,
    pub status: String,
    pub key_id: Option<String>,
    pub trust_store_path: String,
    pub keys: Vec<EvidenceTrustedKeyStatus>,
    pub limitations: Vec<String>,
}

/// View of [`EvidenceTrustReport`].
#[verifier::ext_equal]
pub struct EvidenceTrustReportView {
    pub ok: bool,
    pub read_only: bool,
    pub status: Seq<char>,
    pub key_id: Option<Seq<char>>,
    pub trust_store_path: Seq<char>,
    pub keys: Seq<EvidenceTrustedKeyStatusView>,
    pub limitations: Seq<Seq<char>>,
}

impl DeepView for EvidenceTrustReport {
    type V = EvidenceTrustReportView;

    open spec fn deep_view(&self) -> EvidenceTrustReportView {
        EvidenceTrustReportView {
            ok: self.ok,
            read_only: self.read_only,
            status: self.status.deep_view(),
            key_id: self.key_id.deep_view(),
            trust_store_path: self.trust_store_path.deep_view(),
            keys: self.keys.deep_view(),
            limitations: self.limitations.deep_view(),
        }
    }
}

/// A trusted key with its status.
#[derive(Debug)]
pub struct EvidenceTrustedKeyStatus {
    pub key_id: String,
    pub status: String,
    pub public_key_sha256: String,
    pub valid_from: String,
    pub expires_at: String,
    pub revoked_at: Option<String>,
    pub revocation_reason: Option<String>,
}

/// View of [`EvidenceTrustedKeyStatus`].
#[verifier::ext_equal]
pub struct EvidenceTrustedKeyStatusView {
    pub key_id: Seq<char>,
    pub status: Seq<char>,
    pub public_key_sha256: Seq<char>,
    pub valid_from: Seq<char>,
    pub expires_at: Seq<char>,
    pub revoked_at: Option<Seq<char>>,
    pub revocation_reason: Option<Seq<char>>,
}

impl DeepView for EvidenceTrustedKeyStatus {
    type V = EvidenceTrustedKeyStatusView;

    open spec fn deep_view(&self) -> EvidenceTrustedKeyStatusView {
        EvidenceTrustedKeyStatusView {
            key_id: self.key_id.deep_view(),
            status: self.status.deep_view(),
            public_key_sha256: self.public_key_sha256.deep_view(),
            valid_from: self.valid_from.deep_view(),
            expires_at: self.expires_at.deep_view(),
            revoked_at: self.revoked_at.deep_view(),
            revocation_reason: self.revocation_reason.deep_view(),
        }
    }
}

/// An event of the audit chain.
#[derive(Debug)]
pub struct EvidenceAuditEvent {
    pub schema_version: String,
    pub sequence: u64,
    pub ts: String,
    pub kind: String,
    pub actor: String,
    pub subject: String,
    pub artifact_path: String,
    pub artifact_sha256: String,
    pub previous_event_sha256: String,
    pub event_sha256: String,
}

/// View of [`EvidenceAuditEvent`].
#[verifier::ext_equal]
pub struct EvidenceAuditEventView {
    pub schema_version: Seq<char>,
    pub sequence: u64,
    pub ts: Seq<char>,
    pub kind: Seq<char>,
    pub actor: Seq<char>,
    pub subject: Seq<char>,
    pub artifact_path: Seq<char>,
    pub artifact_sha256: Seq<char>,
    pub previous_event_sha256: Seq<char>,
    pub event_sha256: Seq<char>,
}

impl DeepView for EvidenceAuditEvent {
    type V = EvidenceAuditEventView;

    open spec fn deep_view(&self) -> EvidenceAuditEventView {
        EvidenceAuditEventView {
            schema_version: self.schema_version.deep_view(),
            sequence: self.sequence,
            ts: self.ts.deep_view(),
            kind: self.kind.deep_view(),
            actor: self.actor.deep_view(),
            subject: self.subject.deep_view(),
            artifact_path: self.artifact_path.deep_view(),
            artifact_sha256: self.artifact_sha256.deep_view(),
            previous_event_sha256: self.previous_event_sha256.deep_view(),
            event_sha256: self.event_sha256.deep_view(),
        }
    }
}

impl Clone for EvidenceAuditEvent {
    fn clone(&self) -> (r: Self)
        ensures
            r.deep_view() == self.deep_view(),
    {
        EvidenceAuditEvent {
            schema_version: self.schema_version.clone(),
            sequence: self.sequence,
            ts: self.ts.clone(),
            kind: self.kind.clone(),
            actor: self.actor.clone(),
            subject: self.subject.clone(),
            artifact_path: self.artifact_path.clone(),
            artifact_sha256: self.artifact_sha256.clone(),
            previous_event_sha256: self.previous_event_sha256.clone(),
            event_sha256: self.event_sha256.clone(),
        }
    }
}

/// What came of checking the audit chain.
#[derive(Debug)]
pub struct EvidenceAuditVerifyReport {
    pub ok: bool,
    pub read_only: bool,
    pub status: String,
    pub journal_path: String,
    pub events: usize,
    pub chain_valid: bool,
    pub current_artifacts_valid: bool,
    pub latest_artifacts_checked: usize,
    pub limitations: Vec<String>,
}

/// View of [`EvidenceAuditVerifyReport`].
#[verifier::ext_equal]
pub struct EvidenceAuditVerifyReportView {
    pub ok: bool,
    pub read_only: bool,
    pub status: Seq<char>,
    pub journal_path: Seq<char>,
    pub events: nat,
    pub chain_valid: bool,
    pub current_artifacts_valid: bool,
    pub latest_artifacts_checked: nat,
    pub limitations: Seq<Seq<char>>,
}

impl DeepView for EvidenceAuditVerifyReport {
    type V = EvidenceAuditVerifyReportView;

    open spec fn deep_view(&self) -> EvidenceAuditVerifyReportView {
        EvidenceAuditVerifyReportView {
            ok: self.ok,
            read_only: self.read_only,
            status: self.status.deep_view(),
            journal_path: self.journal_path.deep_view(),
            events: self.events as nat,
            chain_valid: self.chain_valid,
            current_artifacts_valid: self.current_artifacts_valid,
            latest_artifacts_checked: self.latest_artifacts_checked as nat,
            limitations: self.limitations.deep_view(),
        }
    }
}

/// A manifest with its signature and its audit events.
#[derive(Debug)]
pub struct EvidenceAuditBundle {
    pub schema_version: String,
    pub created_at: String,
    pub manifest_path: String,
    pub manifest_sha256: String,
    pub manifest_json: Json,
    pub signature: Option<EvidenceSignatureDocument>,
    pub audit_events: Vec<EvidenceAuditEvent>,
    pub audit_chain_sha256: String,
}

/// View of [`EvidenceAuditBundle`].
#[verifier::ext_equal]
pub struct EvidenceAuditBundleView {
    pub schema_version: Seq<char>,
    pub created_at: Seq<char>,
    pub manifest_path: Seq<char>,
    pub manifest_sha256: Seq<char>,
    pub manifest_json: JsonView,
    pub signature: Option<EvidenceSignatureDocumentView>,
    pub audit_events: Seq<EvidenceAuditEventView>,
    pub audit_chain_sha256: Seq<char>,
}

impl DeepView for EvidenceAuditBundle {
    type V = EvidenceAuditBundleView;

    open spec fn deep_view(&self) -> EvidenceAuditBundleView {
        EvidenceAuditBundleView {
            schema_version: self.schema_version.deep_view(),
            created_at: self.created_at.deep_view(),
            manifest_path: self.manifest_path.deep_view(),
            manifest_sha256: self.manifest_sha256.deep_view(),
            manifest_json: self.manifest_json.deep_view(),
            signature: self.signature.deep_view(),
            audit_events: self.audit_events.deep_view(),
            audit_chain_sha256: self.audit_chain_sha256.deep_view(),
        }
    }
}

/// What came of exporting a bundle.
#[derive(Debug)]
pub struct EvidenceAuditBundleReport {
    pub ok: bool,
    pub read_only: bool,
    pub status: String,
    pub manifest_path: String,
    pub output_path: String,
    pub manifest_signed: bool,
    pub audit_events: usize,
    pub bundle_sha256: Option<String>,
    pub limitations: Vec<String>,
}

/// View of [`EvidenceAuditBundleReport`].
#[verifier::ext_equal]
pub struct EvidenceAuditBundleReportView {
    pub ok: bool,
    pub read_only: bool,
    pub status: Seq<char>,
    pub manifest_path: Seq<char>,
    pub output_path: Seq<char>,
    pub manifest_signed: bool,
    pub audit_events: nat,
    pub bundle_sha256: Option<Seq<char>>,
    pub limitations: Seq<Seq<char>>,
}

impl DeepView for EvidenceAuditBundleReport {
    type V = EvidenceAuditBundleReportView;

    open spec fn deep_view(&self) -> EvidenceAuditBundleReportView {
        EvidenceAuditBundleReportView {
            ok: self.ok,
            read_only: self.read_only,
            status: self.status.deep_view(),
            manifest_path: self.manifest_path.deep_view(),
            output_path: self.output_path.deep_view(),
            manifest_signed: self.manifest_signed,
            audit_events: self.audit_events as nat,
            bundle_sha256: self.bundle_sha256.deep_view(),
            limitations: self.limitations.deep_view(),
        }
    }
}

/// The state of the audit chain at one moment.
#[derive(Debug)]
pub struct EvidenceAuditCheckpoint {
    pub schema_version: String,
    pub created_at: String,
    pub key_id: String,
    pub audit_journal_path: String,
    pub audit_journal_sha256: String,
    pub head_sequence: u64,
    pub head_event_sha256: String,
}

/// View of [`EvidenceAuditCheckpoint`].
#[verifier::ext_equal]
pub struct EvidenceAuditCheckpointView {
    pub schema_version: Seq<char>,
    pub created_at: Seq<char>,
    pub key_id: Seq<char>,
    pub audit_journal_path: Seq<char>,
    pub audit_journal_sha256: Seq<char>,
    pub head_sequence: u64,
    pub head_event_sha256: Seq<char>,
}

impl DeepView for EvidenceAuditCheckpoint {
    type V = EvidenceAuditCheckpointView;

    open spec fn deep_view(&self) -> EvidenceAuditCheckpointView {
        EvidenceAuditCheckpointView {
            schema_version: self.schema_version.deep_view(),
            created_at: self.created_at.deep_view(),
            key_id: self.key_id.deep_view(),
            audit_journal_path: self.audit_journal_path.deep_view(),
            audit_journal_sha256: self.audit_journal_sha256.deep_view(),
            head_sequence: self.head_sequence,
            head_event_sha256: self.head_event_sha256.deep_view(),
        }
    }
}

/// What came of a checkpoint.
#[derive(Debug)]
pub struct EvidenceCheckpointReport {
    pub ok: bool,
    pub read_only: bool,
    pub status: String,
    pub checkpoint_path: String,
    pub signature_path: String,
    pub head_sequence: u64,
    pub key_id: String,
    pub limitations: Vec<String>,
}

/// View of [`EvidenceCheckpointReport`].
#[verifier::ext_equal]
pub struct EvidenceCheckpointReportView {
    pub ok: bool,
    pub read_only: bool,
    pub status: Seq<char>,
    pub checkpoint_path: Seq<char>,
    pub signature_path: Seq<char>,
    pub head_sequence: u64,
    pub key_id: Seq<char>,
    pub limitations: Seq<Seq<char>>,
}

impl DeepView for EvidenceCheckpointReport {
    type V = EvidenceCheckpointReportView;

    open spec fn deep_view(&self) -> EvidenceCheckpointReportView {
        EvidenceCheckpointReportView {
            ok: self.ok,
            read_only: self.read_only,
            status: self.status.deep_view(),
            checkpoint_path: self.checkpoint_path.deep_view(),
            signature_path: self.signature_path.deep_view(),
            head_sequence: self.head_sequence,
            key_id: self.key_id.deep_view(),
            limitations: self.limitations.deep_view(),
        }
    }
}

/// What came of checking all the evidence.
#[derive(Debug)]
pub struct EvidenceVerifyAllReport {
    pub ok: bool,
    pub read_only: bool,
    pub status: String,
    pub audit: EvidenceAuditVerifyReport,
    pub trust: EvidenceTrustReport,
    pub manifests_checked: usize,
    pub manifests_valid: usize,
    pub checkpoints_checked: usize,
    pub checkpoints_valid: usize,
    pub limitations: Vec<String>,
}

/// View of [`EvidenceVerifyAllReport`].
#[verifier::ext_equal]
pub struct EvidenceVerifyAllReportView {
    pub ok: bool,
    pub read_only: bool,
    pub status: Seq<char>,
    pub audit: EvidenceAuditVerifyReportView,
    pub trust: EvidenceTrustReportView,
    pub manifests_checked: nat,
    pub manifests_valid: nat,
    pub checkpoints_checked: nat,
    pub checkpoints_valid: nat,
    pub limitations: Seq<Seq<char>>,
}

impl DeepView for EvidenceVerifyAllReport {
    type V = EvidenceVerifyAllReportView;

    open spec fn deep_view(&self) -> EvidenceVerifyAllReportView {
        EvidenceVerifyAllReportView {
            ok: self.ok,
            read_only: self.read_only,
            status: self.status.deep_view(),
            audit: self.audit.deep_view(),
            trust: self.trust.deep_view(),
            manifests_checked: self.manifests_checked as nat,
            manifests_valid: self.manifests_valid as nat,
            checkpoints_checked: self.checkpoints_checked as nat,
            checkpoints_valid: self.checkpoints_valid as nat,
            limitations: self.limitations.deep_view(),
        }
    }
}

/// What came of archiving a bundle.
#[derive(Debug)]
pub struct EvidenceArchiveReport {
    pub ok: bool,
    pub read_only: bool,
    pub status: String,
    pub bundle_file: String,
    pub signature_file: String,
    pub bundle_sha256: Option<String>,
    pub signature_valid: bool,
    pub repository_id: String,
    pub provider: Option<String>,
    pub snapshot_id: Option<String>,
    pub duration_ms: Option<u64>,
    pub immutability_externally_enforced: bool,
    pub warnings: Vec<String>,
    pub limitations: Vec<String>,
}

/// View of [`EvidenceArchiveReport`].
#[verifier::ext_equal]
pub struct EvidenceArchiveReportView {
    pub ok: bool,
    pub read_only: bool,
    pub status: Seq<char>,
    pub bundle_file: Seq<char>,
    pub signature_file: Seq<char>,
    pub bundle_sha256: Option<Seq<char>>,
    pub signature_valid: bool,
    pub repository_id: Seq<char>,
    pub provider: Option<Seq<char>>,
    pub snapshot_id: Option<Seq<char>>,
    pub duration_ms: Option<u64>,
    pub immutability_externally_enforced: bool,
    pub warnings: Seq<Seq<char>>,
    pub limitations: Seq<Seq<char>>,
}

impl DeepView for EvidenceArchiveReport {
    type V = EvidenceArchiveReportView;

    open spec fn deep_view(&self) -> EvidenceArchiveReportView {
        EvidenceArchiveReportView {
            ok: self.ok,
            read_only: self.read_only,
            status: self.status.deep_view(),
            bundle_file: self.bundle_file.deep_view(),
            signature_file: self.signature_file.deep_view(),
            bundle_sha256: self.bundle_sha256.deep_view(),
            signature_valid: self.signature_valid,
            repository_id: self.repository_id.deep_view(),
            provider: self.provider.deep_view(),
            snapshot_id: self.snapshot_id.deep_view(),
            duration_ms: self.duration_ms.deep_view(),
            immutability_externally_enforced: self.immutability_externally_enforced,
            warnings: self.warnings.deep_view(),
            limitations: self.limitations.deep_view(),
        }
    }
}

impl Clone for EvidenceArchiveReport {
    fn clone(&self) -> (r: Self)
        ensures
            r.deep_view() == self.deep_view(),
    {
        EvidenceArchiveReport {
            ok: self.ok,
            read_only: self.read_only,
            status: self.status.clone(),
            bundle_file: self.bundle_file.clone(),
            signature_file: self.signature_file.clone(),
            bundle_sha256: self.bundle_sha256.clone(),
            signature_valid: self.signature_valid,
            repository_id: self.repository_id.clone(),
            provider: self.provider.clone(),
            snapshot_id: self.snapshot_id.clone(),
            duration_ms: self.duration_ms.clone(),
            immutability_externally_enforced: self.immutability_externally_enforced,
            warnings: self.warnings.clone(),
            limitations: self.limitations.clone(),
        }
    }
}

/// What is left to do until every cleanup has its evidence.
#[derive(Debug)]
pub struct EvidenceBackfillReport {
    pub schema_version: String,
    pub ok: bool,
    pub read_only: bool,
    pub status: String,
    pub observed_at: String,
    pub request_file: String,
    pub repository_id: String,
    pub selected_items: usize,
    pub matched: usize,
    pub ambiguous: usize,
    pub missing: usize,
    pub stale: usize,
    pub exact_profile_matches: usize,
    pub actions: Vec<EvidenceBackfillAction>,
    pub historical_phase95_total_missing: usize,
    pub historical_phase95_database_like: usize,
    pub historical_baseline_only: bool,
    pub journal_path: String,
    pub limitations: Vec<String>,
}

/// View of [`EvidenceBackfillReport`].
#[verifier::ext_equal]
pub struct EvidenceBackfillReportView {
    pub schema_version: Seq<char>,
    pub ok: bool,
    pub read_only: bool,
    pub status: Seq<char>,
    pub observed_at: Seq<char>,
    pub request_file: Seq<char>,
    pub repository_id: Seq<char>,
    pub selected_items: nat,
    pub matched: nat,
    pub ambiguous: nat,
    pub missing: nat,
    pub stale: nat,
    pub exact_profile_matches: nat,
    pub actions: Seq<EvidenceBackfillActionView>,
    pub historical_phase95_total_missing: nat,
    pub historical_phase95_database_like: nat,
    pub historical_baseline_only: bool,
    pub journal_path: Seq<char>,
    pub limitations: Seq<Seq<char>>,
}

impl DeepView for EvidenceBackfillReport {
    type V = EvidenceBackfillReportView;

    open spec fn deep_view(&self) -> EvidenceBackfillReportView {
        EvidenceBackfillReportView {
            schema_version: self.schema_version.deep_view(),
            ok: self.ok,
            read_only: self.read_only,
            status: self.status.deep_view(),
            observed_at: self.observed_at.deep_view(),
            request_file: self.request_file.deep_view(),
            repository_id: self.repository_id.deep_view(),
            selected_items: self.selected_items as nat,
            matched: self.matched as nat,
            ambiguous: self.ambiguous as nat,
            missing: self.missing as nat,
            stale: self.stale as nat,
            exact_profile_matches: self.exact_profile_matches as nat,
            actions: self.actions.deep_view(),
            historical_phase95_total_missing: self.historical_phase95_total_missing as nat,
            historical_phase95_database_like: self.historical_phase95_database_like as nat,
            historical_baseline_only: self.historical_baseline_only,
            journal_path: self.journal_path.deep_view(),
            limitations: self.limitations.deep_view(),
        }
    }
}

impl Clone for EvidenceBackfillReport {
    fn clone(&self) -> (r: Self)
        ensures
            r.deep_view() == self.deep_view(),
    {
        EvidenceBackfillReport {
            schema_version: self.schema_version.clone(),
            ok: self.ok,
            read_only: self.read_only,
            status: self.status.clone(),
            observed_at: self.observed_at.clone(),
            request_file: self.request_file.clone(),
            repository_id: self.repository_id.clone(),
            selected_items: self.selected_items,
            matched: self.matched,
            ambiguous: self.ambiguous,
            missing: self.missing,
            stale: self.stale,
            exact_profile_matches: self.exact_profile_matches,
            actions: self.actions.clone(),
            historical_phase95_total_missing: self.historical_phase95_total_missing,
            historical_phase95_database_like: self.historical_phase95_database_like,
            historical_baseline_only: self.historical_baseline_only,
            journal_path: self.journal_path.clone(),
            limitations: self.limitations.clone(),
        }
    }
}

/// What to do for one item of a cleanup request.
#[derive(Debug)]
pub struct EvidenceBackfillAction {
    pub request_id: String,
    pub target: String,
    pub evidence_status: String,
    pub profile_matches: usize,
    pub action: String,
    pub argv: Vec<String>,
    pub blockers: Vec<String>,
}

/// View of [`EvidenceBackfillAction`].
#[verifier::ext_equal]
pub struct EvidenceBackfillActionView {
    pub request_id: Seq<char>,
    pub target: Seq<char>,
    pub evidence_status: Seq<char>,
    pub profile_matches: nat,
    pub action: Seq<char>,
    pub argv: Seq<Seq<char>>,
    pub blockers: Seq<Seq<char>>,
}

impl DeepView for EvidenceBackfillAction {
    type V = EvidenceBackfillActionView;

    open spec fn deep_view(&self) -> EvidenceBackfillActionView {
        EvidenceBackfillActionView {
            request_id: self.request_id.deep_view(),
            target: self.target.deep_view(),
            evidence_status: self.evidence_status.deep_view(),
            profile_matches: self.profile_matches as nat,
            action: self.action.deep_view(),
            argv: self.argv.deep_view(),
            blockers: self.blockers.deep_view(),
        }
    }
}

impl Clone for EvidenceBackfillAction {
    fn clone(&self) -> (r: Self)
        ensures
            r.deep_view() == self.deep_view(),
    {
        EvidenceBackfillAction {
            request_id: self.request_id.clone(),
            target: self.target.clone(),
            evidence_status: self.evidence_status.clone(),
            profile_matches: self.profile_matches,
            action: self.action.clone(),
            argv: self.argv.clone(),
            blockers: self.blockers.clone(),
        }
    }
}

/// How the backfill has gone on.
#[derive(Debug)]
pub struct EvidenceBackfillStatusReport {
    pub ok: bool,
    pub read_only: bool,
    pub status: String,
    pub journal_path: String,
    pub latest: Option<EvidenceBackfillReport>,
    pub history: Vec<EvidenceBackfillReport>,
    pub matched_delta: Option<i64>,
    pub evidence_gap_delta: Option<i64>,
    pub limitations: Vec<String>,
}

/// View of [`EvidenceBackfillStatusReport`].
#[verifier::ext_equal]
pub struct EvidenceBackfillStatusReportView {
    pub ok: bool,
    pub read_only: bool,
    pub status: Seq<char>,
    pub journal_path: Seq<char>,
    pub latest: Option<EvidenceBackfillReportView>,
    pub history: Seq<EvidenceBackfillReportView>,
    pub matched_delta: Option<i64>,
    pub evidence_gap_delta: Option<i64>,
    pub limitations: Seq<Seq<char>>,
}

impl DeepView for EvidenceBackfillStatusReport {
    type V = EvidenceBackfillStatusReportView;

    open spec fn deep_view(&self) -> EvidenceBackfillStatusReportView {
        EvidenceBackfillStatusReportView {
            ok: self.ok,
            read_only: self.read_only,
            status: self.status.deep_view(),
            journal_path: self.journal_path.deep_view(),
            latest: self.latest.deep_view(),
            history: self.history.deep_view(),
            matched_delta: self.matched_delta.deep_view(),
            evidence_gap_delta: self.evidence_gap_delta.deep_view(),
            limitations: self.limitations.deep_view(),
        }
    }
}
} // verus!
