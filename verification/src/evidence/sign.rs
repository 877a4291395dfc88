//! Signing artifacts, and checking their signatures.

use vstd::prelude::*;
use crate::evidence::chain::{chain_is_valid, check_chain, checked_chain};
use crate::evidence::files::{
    bytes_seen, done_seen, failure, is_safe_id, note_failure, safe_id, seen, sha256_bytes,
    sha256_hex, signature_path, signature_path_spec,
};
use crate::evidence::keys::{
    is_usable, key_lifecycle, key_named, lemma_states_differ, lifecycle, lifecycle_notes,
    note_lifecycle, public_key_in, read_signing_key_source, read_verifying_key, usable,
    usable_secret,
};
use crate::evidence::types::{
    EvidenceAuditEvent, EvidenceAuditEventView, EvidenceSignatureDocument,
    EvidenceSignatureDocumentView, EvidenceSignatureReport, EvidenceSignatureReportView,
    EvidenceTrustStore, EvidenceTrustStoreView,
};
use crate::hex::{hex_decode, hex_encode, hex_of, is_hex_of_size, law_hex_reads_back, unhex};
use crate::list::{first_where, note, noted, put};
use crate::outside::{
    check_signature, commits_to_nothing, derive_public_key, is_public_key, public_key_of,
    sign_message, signature_holds, signature_of, wipe,
};
use crate::text::same;

verus! {

broadcast use {vstd::seq::group_seq_axioms, vstd::string::group_string_axioms};

/// The version of a signature's format.
pub open spec fn signature_schema() -> Seq<char> {
    "opsctl.evidence_signature.v1"@
}

/// An artifact that is to be signed.
#[derive(Debug)]
pub struct SigningPlan {
    pub report: EvidenceSignatureReport,
    /// The signature to write.
    pub document: Option<EvidenceSignatureDocument>,
}

/// View of [`SigningPlan`].
#[verifier::ext_equal]
pub struct SigningPlanView {
    pub report: EvidenceSignatureReportView,
    pub document: Option<EvidenceSignatureDocumentView>,
}

impl DeepView for SigningPlan {
    type V = SigningPlanView;

    open spec fn deep_view(&self) -> SigningPlanView {
        SigningPlanView {
            report: self.report.deep_view(),
            document: self.document.deep_view(),
        }
    }
}

/// A report on a signature before anything was found out.
pub open spec fn blank_signature_report(
    artifact: Seq<char>,
    signature: Seq<char>,
    read_only: bool,
) -> EvidenceSignatureReportView {
    EvidenceSignatureReportView {
        ok: false,
        read_only,
        status: "blocked"@,
        artifact_path: artifact,
        signature_path: signature,
        key_id: None,
        artifact_unchanged: false,
        trusted_key: false,
        key_lifecycle_status: "unknown"@,
        signature_valid: false,
        limitations: Seq::empty(),
    }
}

fn signature_report(artifact: &str, signature: &str, read_only: bool) -> (r:
    EvidenceSignatureReport)
    ensures
        r.deep_view() == blank_signature_report(artifact@, signature@, read_only),
{
    let limitations: Vec<String> = Vec::new();
    proof {
        assert(limitations.deep_view() =~= Seq::<Seq<char>>::empty());
    }
    EvidenceSignatureReport {
        ok: false,
        read_only,
        status: "blocked".to_string(),
        artifact_path: artifact.to_string(),
        signature_path: signature.to_string(),
        key_id: None,
        artifact_unchanged: false,
        trusted_key: false,
        key_lifecycle_status: "unknown".to_string(),
        signature_valid: false,
        limitations,
    }
}

// ---------------------------------------------------------------------------
// Signing
// ---------------------------------------------------------------------------

/// Everything that speaks against signing an artifact.
pub open spec fn signing_limitations(
    key_id: Seq<char>,
    signed_already: bool,
    content: Result<Seq<u8>, Seq<char>>,
    secret: Result<Seq<u8>, Seq<char>>,
    state: Result<Seq<char>, Seq<char>>,
    events: Result<Seq<EvidenceAuditEventView>, Seq<char>>,
) -> Seq<Seq<char>> {
    noted(!is_safe_id(key_id), "key_id is invalid"@) + noted(
        signed_already,
        "detached signature already exists"@,
    ) + failure(content) + failure(secret) + lifecycle_notes(state) + failure(
        checked_chain(events),
    )
}

/// The signature of an artifact.
pub open spec fn signed_document(
    artifact: Seq<char>,
    key_id: Seq<char>,
    content: Seq<u8>,
    secret: Seq<u8>,
    signed_at: Seq<char>,
) -> EvidenceSignatureDocumentView {
    EvidenceSignatureDocumentView {
        schema_version: signature_schema(),
        key_id,
        signed_at,
        artifact_path: artifact,
        artifact_sha256: sha256_hex(content),
        public_key_hex: hex_of(public_key_of(secret)),
        signature_hex: hex_of(signature_of(secret, content)),
    }
}

/// What to do about signing an artifact.
pub open spec fn signing_plan(
    artifact: Seq<char>,
    key_id: Seq<char>,
    execute: bool,
    signed_already: bool,
    content: Result<Seq<u8>, Seq<char>>,
    secret: Result<Seq<u8>, Seq<char>>,
    state: Result<Seq<char>, Seq<char>>,
    events: Result<Seq<EvidenceAuditEventView>, Seq<char>>,
    signed_at: Seq<char>,
) -> SigningPlanView {
    let limitations = signing_limitations(key_id, signed_already, content, secret, state, events);
    let go_on = execute && limitations.len() == 0;
    SigningPlanView {
        report: EvidenceSignatureReportView {
            ok: !go_on && limitations.len() == 0,
            status: if !go_on && limitations.len() == 0 {
                "planned"@
            } else {
                "blocked"@
            },
            key_id: Some(key_id),
            limitations,
            ..blank_signature_report(artifact, signature_path_spec(artifact), !execute)
        },
        document: if go_on {
            Some(signed_document(artifact, key_id, content->Ok_0, secret->Ok_0, signed_at))
        } else {
            None
        },
    }
}

/// What to do about signing an artifact with a secret that was found usable, or with
/// the reason why none is: write a signature, or report that it is only planned or
/// what speaks against it. The secret is wiped.
fn plan_signing(
    artifact: &str,
    key_id: &str,
    execute: bool,
    signed_already: bool,
    content: &Result<Vec<u8>, String>,
    secret: Result<Vec<u8>, String>,
    state: &Result<String, String>,
    events: &Result<Vec<EvidenceAuditEvent>, String>,
    signed_at: &str,
) -> (r: SigningPlan)
    requires
        secret is Ok ==> secret->Ok_0@.len() == 32,
    ensures
        r.deep_view() == signing_plan(
            artifact@,
            key_id@,
            execute,
            signed_already,
            bytes_seen(*content),
            bytes_seen(secret),
            seen(*state),
            seen(*events),
            signed_at@,
        ),
        r.document is Some && !commits_to_nothing(
            signature_of(secret->Ok_0@, content->Ok_0@),
        ) ==> verified_signature(
            artifact@,
            signature_path_spec(artifact@),
            true,
            bytes_seen(*content),
            Ok(r.document->0.deep_view()),
            Ok(public_key_of(secret->Ok_0@)),
            seen(*state),
        ).ok,
{
    let mut limitations: Vec<String> = Vec::new();
    proof {
        assert(limitations.deep_view() =~= Seq::<Seq<char>>::empty());
    }
    note(&mut limitations, !safe_id(key_id), "key_id is invalid");
    note(&mut limitations, signed_already, "detached signature already exists");
    note_failure(&mut limitations, content);
    note_failure(&mut limitations, &secret);
    note_lifecycle(&mut limitations, state);
    note_failure(&mut limitations, &check_chain(events));
    proof {
        assert(limitations.deep_view() =~= signing_limitations(
            key_id@,
            signed_already,
            bytes_seen(*content),
            bytes_seen(secret),
            seen(*state),
            seen(*events),
        ));
        assert(limitations.deep_view().len() == limitations@.len());
    }
    let mut report = signature_report(artifact, &signature_path(artifact), !execute);
    report.key_id = Some(key_id.to_string());
    let free = limitations.len() == 0;
    report.limitations = limitations;
    let document = match (content, secret) {
        (Ok(bytes), Ok(key)) => {
            let mut key = key;
            let document = if execute && free {
                let signature = sign_message(key.as_slice(), bytes.as_slice());
                let public = derive_public_key(key.as_slice());
                proof {
                    if !commits_to_nothing(signature@) {
                        law_signed_artifacts_verify(
                            artifact@,
                            key_id@,
                            bytes@,
                            key@,
                            signed_at@,
                            state->Ok_0@,
                        );
                    }
                }
                Some(
                    EvidenceSignatureDocument {
                        schema_version: "opsctl.evidence_signature.v1".to_string(),
                        key_id: key_id.to_string(),
                        signed_at: signed_at.to_string(),
                        artifact_path: artifact.to_string(),
                        artifact_sha256: sha256_bytes(bytes.as_slice()),
                        public_key_hex: hex_encode(public.as_slice()),
                        signature_hex: hex_encode(signature.as_slice()),
                    },
                )
            } else {
                None
            };
            wipe(&mut key);
            document
        },
        _ => None,
    };
    if !execute && free {
        report.ok = true;
        report.status = "planned".to_string();
    }
    SigningPlan { report, document }
}

/// What to do about signing an artifact: the secret is used only where its public key
/// is the one of the key file, and only while the trust store allows the key.
pub open spec fn guarded_signing_plan(
    artifact: Seq<char>,
    key_id: Seq<char>,
    execute: bool,
    signed_already: bool,
    content: Result<Seq<u8>, Seq<char>>,
    secret: Result<Seq<u8>, Seq<char>>,
    key_file: Result<Seq<u8>, Seq<char>>,
    store: Result<Option<EvidenceTrustStoreView>, Seq<char>>,
    events: Result<Seq<EvidenceAuditEventView>, Seq<char>>,
    signed_at: Seq<char>,
    now: i128,
) -> SigningPlanView {
    signing_plan(
        artifact,
        key_id,
        execute,
        signed_already,
        content,
        usable_secret(secret, public_key_in(key_file)),
        lifecycle(store, key_id, public_key_in(key_file), now),
        events,
        signed_at,
    )
}

/// What to do about signing an artifact with a secret of the key directory or of a
/// credential, given the public key file of the key and what was found in the place of
/// the trust store. A signature that is to be written verifies.
pub fn sign_artifact_with_credential(
    artifact: &str,
    key_id: &str,
    execute: bool,
    signed_already: bool,
    content: &Result<Vec<u8>, String>,
    secret: Result<Vec<u8>, String>,
    key_file: &Result<Vec<u8>, String>,
    store: &Result<Option<EvidenceTrustStore>, String>,
    events: &Result<Vec<EvidenceAuditEvent>, String>,
    signed_at: &str,
    now: i128,
) -> (r: SigningPlan)
    requires
        secret is Ok ==> secret->Ok_0@.len() == 32,
    ensures
        r.deep_view() == guarded_signing_plan(
            artifact@,
            key_id@,
            execute,
            signed_already,
            bytes_seen(*content),
            bytes_seen(secret),
            bytes_seen(*key_file),
            seen(*store),
            seen(*events),
            signed_at@,
            now,
        ),
        r.document is Some ==> public_key_in(bytes_seen(*key_file)) == Ok::<Seq<u8>, Seq<char>>(
            public_key_of(secret->Ok_0@),
        ),
        r.document is Some && !commits_to_nothing(
            signature_of(secret->Ok_0@, content->Ok_0@),
        ) ==> checked_signature(
            artifact@,
            signature_path_spec(artifact@),
            true,
            bytes_seen(*content),
            Ok(r.document->0.deep_view()),
            bytes_seen(*key_file),
            seen(*store),
            now,
        ).ok,
{
    let trusted = read_verifying_key(key_file);
    let state = key_lifecycle(store, key_id, &trusted, now);
    let usable = read_signing_key_source(secret, &trusted);
    plan_signing(
        artifact,
        key_id,
        execute,
        signed_already,
        content,
        usable,
        &state,
        events,
        signed_at,
    )
}

/// What to do about signing an artifact with the secret of the key directory, given
/// what [`sign_artifact_with_credential`] is given.
pub fn sign_artifact(
    artifact: &str,
    key_id: &str,
    execute: bool,
    signed_already: bool,
    content: &Result<Vec<u8>, String>,
    secret: Result<Vec<u8>, String>,
    key_file: &Result<Vec<u8>, String>,
    store: &Result<Option<EvidenceTrustStore>, String>,
    events: &Result<Vec<EvidenceAuditEvent>, String>,
    signed_at: &str,
    now: i128,
) -> (r: SigningPlan)
    requires
        secret is Ok ==> secret->Ok_0@.len() == 32,
    ensures
        r.deep_view() == guarded_signing_plan(
            artifact@,
            key_id@,
            execute,
            signed_already,
            bytes_seen(*content),
            bytes_seen(secret),
            bytes_seen(*key_file),
            seen(*store),
            seen(*events),
            signed_at@,
            now,
        ),
        r.document is Some ==> public_key_in(bytes_seen(*key_file)) == Ok::<Seq<u8>, Seq<char>>(
            public_key_of(secret->Ok_0@),
        ),
        r.document is Some && !commits_to_nothing(
            signature_of(secret->Ok_0@, content->Ok_0@),
        ) ==> checked_signature(
            artifact@,
            signature_path_spec(artifact@),
            true,
            bytes_seen(*content),
            Ok(r.document->0.deep_view()),
            bytes_seen(*key_file),
            seen(*store),
            now,
        ).ok,
{
    sign_artifact_with_credential(
        artifact,
        key_id,
        execute,
        signed_already,
        content,
        secret,
        key_file,
        store,
        events,
        signed_at,
        now,
    )
}

/// The report on an artifact after its signature was to be written and audited.
pub open spec fn signing_outcome(
    report: EvidenceSignatureReportView,
    written: Result<(), Seq<char>>,
    audited: Result<(), Seq<char>>,
) -> EvidenceSignatureReportView {
    match written {
        Ok(_) => match audited {
            Ok(_) => EvidenceSignatureReportView {
                ok: true,
                status: "signed"@,
                artifact_unchanged: true,
                trusted_key: true,
                signature_valid: true,
                ..report
            },
            Err(words) => EvidenceSignatureReportView {
                limitations: report.limitations.push(words),
                ..report
            },
        },
        Err(words) => EvidenceSignatureReportView {
            ok: false,
            status: "blocked"@,
            limitations: report.limitations.push(words),
            ..report
        },
    }
}

/// The report on an artifact after its signature was to be written and audited. The
/// audit matters only if the signature was written.
pub fn finish_signing(
    report: EvidenceSignatureReport,
    written: &Result<(), String>,
    audited: &Result<(), String>,
) -> (r: EvidenceSignatureReport)
    ensures
        r.deep_view() == signing_outcome(
            report.deep_view(),
            done_seen(*written),
            done_seen(*audited),
        ),
{
    let mut report = report;
    match written {
        Ok(_) => match audited {
            Ok(_) => {
                report.ok = true;
                report.status = "signed".to_string();
                report.artifact_unchanged = true;
                report.trusted_key = true;
                report.signature_valid = true;
            },
            Err(words) => {
                put(&mut report.limitations, words);
            },
        },
        Err(words) => {
            report.ok = false;
            report.status = "blocked".to_string();
            put(&mut report.limitations, words);
        },
    }
    report
}

// ---------------------------------------------------------------------------
// Checking
// ---------------------------------------------------------------------------

/// The verdict on a signature.
pub open spec fn judged(report: EvidenceSignatureReportView) -> EvidenceSignatureReportView {
    let ok = report.limitations.len() == 0 && report.artifact_unchanged && report.trusted_key
        && report.signature_valid;
    EvidenceSignatureReportView {
        ok,
        status: if ok {
            "valid"@
        } else {
            "blocked"@
        },
        ..report
    }
}

/// The verdict on a signature.
pub fn finish_signature_report(report: EvidenceSignatureReport) -> (r: EvidenceSignatureReport)
    ensures
        r.deep_view() == judged(report.deep_view()),
{
    let mut report = report;
    proof {
        assert(report.limitations.deep_view().len() == report.limitations@.len());
    }
    report.ok = report.limitations.len() == 0 && report.artifact_unchanged && report.trusted_key
        && report.signature_valid;
    report.status = if report.ok {
        "valid".to_string()
    } else {
        "blocked".to_string()
    };
    report
}

/// Whether the key of a signature is the trusted one, and usable.
pub open spec fn key_is_trusted(
    document: EvidenceSignatureDocumentView,
    trusted: Result<Seq<u8>, Seq<char>>,
    state: Result<Seq<char>, Seq<char>>,
) -> bool {
    state is Ok && is_usable(state->Ok_0) && trusted is Ok && hex_of(trusted->Ok_0)
        == document.public_key_hex
}

/// Whether a signature holds under the trusted key.
pub open spec fn document_holds(
    document: EvidenceSignatureDocumentView,
    content: Seq<u8>,
    trusted: Result<Seq<u8>, Seq<char>>,
) -> bool {
    trusted is Ok && is_hex_of_size(document.signature_hex, 64) && signature_holds(
        trusted->Ok_0,
        content,
        unhex(document.signature_hex, 64),
    )
}

/// The report on the signature of an artifact.
pub open spec fn verified_signature(
    artifact: Seq<char>,
    signature_file: Seq<char>,
    bound_to_path: bool,
    content: Result<Seq<u8>, Seq<char>>,
    document: Result<EvidenceSignatureDocumentView, Seq<char>>,
    trusted: Result<Seq<u8>, Seq<char>>,
    state: Result<Seq<char>, Seq<char>>,
) -> EvidenceSignatureReportView {
    let blank = blank_signature_report(artifact, signature_file, true);
    judged(
        match content {
            Err(words) => EvidenceSignatureReportView { limitations: seq![words], ..blank },
            Ok(bytes) => match document {
                Err(words) => EvidenceSignatureReportView { limitations: seq![words], ..blank },
                Ok(d) => {
                    let unchanged = d.artifact_sha256 == sha256_hex(bytes);
                    let known = key_is_trusted(d, trusted, state);
                    let holds = document_holds(d, bytes, trusted);
                    EvidenceSignatureReportView {
                        key_id: Some(d.key_id),
                        artifact_unchanged: unchanged,
                        trusted_key: known,
                        key_lifecycle_status: match state {
                            Ok(status) => status,
                            Err(_) => "invalid"@,
                        },
                        signature_valid: holds,
                        limitations: noted(
                            d.schema_version != signature_schema() || bound_to_path
                                && d.artifact_path != artifact,
                            "signature schema or artifact binding is invalid"@,
                        ) + noted(!unchanged, "artifact changed after signing"@) + noted(
                            !known,
                            "signature key is not present in the trusted key directory"@,
                        ) + noted(!holds, "Ed25519 strict signature verification failed"@),
                        ..blank
                    }
                },
            },
        },
    )
}

/// The report on the signature of an artifact. The trusted key and its state are
/// those of the key that the signature names.
pub fn verify_artifact_signature_at(
    artifact: &str,
    signature_file: &str,
    bound_to_path: bool,
    content: &Result<Vec<u8>, String>,
    document: &Result<EvidenceSignatureDocument, String>,
    trusted: &Result<Vec<u8>, String>,
    state: &Result<String, String>,
) -> (r: EvidenceSignatureReport)
    requires
        trusted is Ok ==> trusted->Ok_0@.len() == 32 && is_public_key(trusted->Ok_0@),
    ensures
        r.deep_view() == verified_signature(
            artifact@,
            signature_file@,
            bound_to_path,
            bytes_seen(*content),
            seen(*document),
            bytes_seen(*trusted),
            seen(*state),
        ),
{
    let mut report = signature_report(artifact, signature_file, true);
    let bytes = match content {
        Ok(bytes) => bytes,
        Err(words) => {
            put(&mut report.limitations, words);
            proof {
                assert(report.limitations.deep_view() =~= seq![words@]);
            }
            return finish_signature_report(report);
        },
    };
    let d = match document {
        Ok(d) => d,
        Err(words) => {
            put(&mut report.limitations, words);
            proof {
                assert(report.limitations.deep_view() =~= seq![words@]);
            }
            return finish_signature_report(report);
        },
    };
    let unchanged = same(&d.artifact_sha256, &sha256_bytes(bytes.as_slice()));
    let known = match (state, trusted) {
        (Ok(status), Ok(key)) => usable(status) && same(
            &hex_encode(key.as_slice()),
            &d.public_key_hex,
        ),
        _ => false,
    };
    let holds = match trusted {
        Ok(key) => match hex_decode(&d.signature_hex, 64) {
            Some(signature) => check_signature(
                key.as_slice(),
                bytes.as_slice(),
                signature.as_slice(),
            ),
            None => false,
        },
        Err(_) => false,
    };
    report.key_id = Some(d.key_id.clone());
    report.artifact_unchanged = unchanged;
    report.trusted_key = known;
    report.key_lifecycle_status = match state {
        Ok(status) => status.clone(),
        Err(_) => "invalid".to_string(),
    };
    report.signature_valid = holds;
    note(
        &mut report.limitations,
        !same(&d.schema_version, "opsctl.evidence_signature.v1") || bound_to_path && !same(
            &d.artifact_path,
            artifact,
        ),
        "signature schema or artifact binding is invalid",
    );
    note(&mut report.limitations, !unchanged, "artifact changed after signing");
    note(
        &mut report.limitations,
        !known,
        "signature key is not present in the trusted key directory",
    );
    note(&mut report.limitations, !holds, "Ed25519 strict signature verification failed");
    finish_signature_report(report)
}

/// The report on the signature that stands beside an artifact.
pub fn verify_artifact_signature(
    artifact: &str,
    content: &Result<Vec<u8>, String>,
    document: &Result<EvidenceSignatureDocument, String>,
    key_file: &Result<Vec<u8>, String>,
    store: &Result<Option<EvidenceTrustStore>, String>,
    now: i128,
) -> (r: EvidenceSignatureReport)
    ensures
        r.deep_view() == checked_signature(
            artifact@,
            signature_path_spec(artifact@),
            true,
            bytes_seen(*content),
            seen(*document),
            bytes_seen(*key_file),
            seen(*store),
            now,
        ),
{
    check_signature_at(
        artifact,
        &signature_path(artifact),
        true,
        content,
        document,
        key_file,
        store,
        now,
    )
}

/// The report on the signature of an artifact that was moved.
pub fn verify_relocated_artifact_signature(
    artifact: &str,
    signature_file: &str,
    content: &Result<Vec<u8>, String>,
    document: &Result<EvidenceSignatureDocument, String>,
    key_file: &Result<Vec<u8>, String>,
    store: &Result<Option<EvidenceTrustStore>, String>,
    now: i128,
) -> (r: EvidenceSignatureReport)
    ensures
        r.deep_view() == checked_signature(
            artifact@,
            signature_file@,
            false,
            bytes_seen(*content),
            seen(*document),
            bytes_seen(*key_file),
            seen(*store),
            now,
        ),
{
    check_signature_at(
        artifact,
        signature_file,
        false,
        content,
        document,
        key_file,
        store,
        now,
    )
}

/// The report on the signature of an artifact, given the public key file of the key
/// that it names and what was found in the place of the trust store.
pub open spec fn checked_signature(
    artifact: Seq<char>,
    signature_file: Seq<char>,
    bound_to_path: bool,
    content: Result<Seq<u8>, Seq<char>>,
    document: Result<EvidenceSignatureDocumentView, Seq<char>>,
    key_file: Result<Seq<u8>, Seq<char>>,
    store: Result<Option<EvidenceTrustStoreView>, Seq<char>>,
    now: i128,
) -> EvidenceSignatureReportView {
    let trusted = public_key_in(key_file);
    verified_signature(
        artifact,
        signature_file,
        bound_to_path,
        content,
        document,
        trusted,
        match document {
            Ok(d) => lifecycle(store, d.key_id, trusted, now),
            Err(words) => Err(words),
        },
    )
}

fn check_signature_at(
    artifact: &str,
    signature_file: &str,
    bound_to_path: bool,
    content: &Result<Vec<u8>, String>,
    document: &Result<EvidenceSignatureDocument, String>,
    key_file: &Result<Vec<u8>, String>,
    store: &Result<Option<EvidenceTrustStore>, String>,
    now: i128,
) -> (r: EvidenceSignatureReport)
    ensures
        r.deep_view() == checked_signature(
            artifact@,
            signature_file@,
            bound_to_path,
            bytes_seen(*content),
            seen(*document),
            bytes_seen(*key_file),
            seen(*store),
            now,
        ),
{
    let trusted = read_verifying_key(key_file);
    let state = match document {
        Ok(d) => key_lifecycle(store, &d.key_id, &trusted, now),
        Err(words) => Err(words.clone()),
    };
    verify_artifact_signature_at(
        artifact,
        signature_file,
        bound_to_path,
        content,
        document,
        &trusted,
        &state,
    )
}

// ---------------------------------------------------------------------------
// Laws
// ---------------------------------------------------------------------------

/// A signature counts as valid if and only if everything about it is in order: the
/// format, the path where it is bound to one, the digest, the key, and the signature
/// itself.
pub proof fn law_valid_signatures_are_in_order(
    artifact: Seq<char>,
    signature_file: Seq<char>,
    bound_to_path: bool,
    content: Result<Seq<u8>, Seq<char>>,
    document: Result<EvidenceSignatureDocumentView, Seq<char>>,
    trusted: Result<Seq<u8>, Seq<char>>,
    state: Result<Seq<char>, Seq<char>>,
)
    ensures
        verified_signature(
            artifact,
            signature_file,
            bound_to_path,
            content,
            document,
            trusted,
            state,
        ).ok <==> {
            &&& content is Ok
            &&& document is Ok
            &&& document->Ok_0.schema_version == signature_schema()
            &&& bound_to_path ==> document->Ok_0.artifact_path == artifact
            &&& document->Ok_0.artifact_sha256 == sha256_hex(content->Ok_0)
            &&& key_is_trusted(document->Ok_0, trusted, state)
            &&& document_holds(document->Ok_0, content->Ok_0, trusted)
        },
{
}

/// What was signed verifies, as long as the artifact, its path and the public key
/// stay the same, the key stays usable, and Ed25519 accepts its own signature.
pub proof fn law_signed_artifacts_verify(
    artifact: Seq<char>,
    key_id: Seq<char>,
    content: Seq<u8>,
    secret: Seq<u8>,
    signed_at: Seq<char>,
    state: Seq<char>,
)
    requires
        signature_of(secret, content).len() == 64,
        signature_holds(public_key_of(secret), content, signature_of(secret, content)),
        is_usable(state),
    ensures
        verified_signature(
            artifact,
            signature_path_spec(artifact),
            true,
            Ok(content),
            Ok(signed_document(artifact, key_id, content, secret, signed_at)),
            Ok(public_key_of(secret)),
            Ok(state),
        ).ok,
{
    law_hex_reads_back(signature_of(secret, content));
}

/// Once the digest of an artifact has changed, no signature of it verifies.
pub proof fn law_changed_artifacts_do_not_verify(
    artifact: Seq<char>,
    signature_file: Seq<char>,
    bound_to_path: bool,
    content: Seq<u8>,
    document: EvidenceSignatureDocumentView,
    trusted: Result<Seq<u8>, Seq<char>>,
    state: Result<Seq<char>, Seq<char>>,
)
    requires
        document.artifact_sha256 != sha256_hex(content),
    ensures
        !verified_signature(
            artifact,
            signature_file,
            bound_to_path,
            Ok(content),
            Ok(document),
            trusted,
            state,
        ).ok,
{
}

/// No signature verifies under a key that was revoked.
pub proof fn law_revoked_keys_verify_nothing(
    artifact: Seq<char>,
    signature_file: Seq<char>,
    bound_to_path: bool,
    content: Result<Seq<u8>, Seq<char>>,
    document: EvidenceSignatureDocumentView,
    key_file: Result<Seq<u8>, Seq<char>>,
    store: EvidenceTrustStoreView,
    now: i128,
)
    requires
        first_where(store.keys, key_named(document.key_id)) is Some,
        first_where(store.keys, key_named(document.key_id))->0.revoked_at is Some,
    ensures
        !checked_signature(
            artifact,
            signature_file,
            bound_to_path,
            content,
            Ok(document),
            key_file,
            Ok(Some(store)),
            now,
        ).ok,
{
    lemma_states_differ();
}

/// Nothing is signed with a key that is not usable, over a broken chain, or twice.
pub proof fn law_signing_needs_a_usable_key_and_a_whole_chain(
    artifact: Seq<char>,
    key_id: Seq<char>,
    execute: bool,
    signed_already: bool,
    content: Result<Seq<u8>, Seq<char>>,
    secret: Result<Seq<u8>, Seq<char>>,
    state: Result<Seq<char>, Seq<char>>,
    events: Result<Seq<EvidenceAuditEventView>, Seq<char>>,
    signed_at: Seq<char>,
)
    ensures
        signing_plan(
            artifact,
            key_id,
            execute,
            signed_already,
            content,
            secret,
            state,
            events,
            signed_at,
        ).document is Some <==> {
            &&& execute
            &&& is_safe_id(key_id)
            &&& !signed_already
            &&& content is Ok
            &&& secret is Ok
            &&& state is Ok
            &&& is_usable(state->Ok_0)
            &&& events is Ok
            &&& chain_is_valid(events->Ok_0)
        },
{
}

/// An artifact is signed exactly where this is to be executed, the key's id is safe, there
/// is no signature yet, the artifact can be read, the secret is the trusted key's own, that
/// key can be used, and the chain is whole. What is written then names the artifact, its
/// digest and the key.
pub proof fn law_when_artifacts_are_signed(
    artifact: Seq<char>,
    key_id: Seq<char>,
    execute: bool,
    signed_already: bool,
    content: Result<Seq<u8>, Seq<char>>,
    secret: Result<Seq<u8>, Seq<char>>,
    key_file: Result<Seq<u8>, Seq<char>>,
    store: Result<Option<EvidenceTrustStoreView>, Seq<char>>,
    events: Result<Seq<EvidenceAuditEventView>, Seq<char>>,
    signed_at: Seq<char>,
    now: i128,
)
    ensures
        ({
            let plan = guarded_signing_plan(
                artifact,
                key_id,
                execute,
                signed_already,
                content,
                secret,
                key_file,
                store,
                events,
                signed_at,
                now,
            );
            let public = public_key_in(key_file);
            let state = lifecycle(store, key_id, public, now);
            let fine = is_safe_id(key_id) && !signed_already && content is Ok && secret is Ok
                && public is Ok && public_key_of(secret->Ok_0) == public->Ok_0 && state is Ok && (
            state->Ok_0 == "active"@ || state->Ok_0 == "legacy"@) && events is Ok && chain_is_valid(
                events->Ok_0,
            );
            &&& plan.document is Some <==> execute && fine
            &&& plan.report.ok <==> fine && !execute
            &&& plan.report.status == "planned"@ <==> plan.report.ok
            &&& plan.report.limitations.len() == 0 <==> fine
            &&& plan.report.key_id == Some(key_id)
            &&& plan.document matches Some(d) ==> {
                &&& d.key_id == key_id
                &&& d.artifact_path == artifact
                &&& d.artifact_sha256 == sha256_hex(content->Ok_0)
                &&& d.signed_at == signed_at
                &&& d.schema_version == "opsctl.evidence_signature.v1"@
                &&& d.public_key_hex == hex_of(public->Ok_0)
                &&& d.signature_hex == hex_of(signature_of(secret->Ok_0, content->Ok_0))
            }
        }),
{
    let public = public_key_in(key_file);
    law_signing_needs_a_usable_key_and_a_whole_chain(
        artifact,
        key_id,
        true,
        signed_already,
        content,
        usable_secret(secret, public),
        lifecycle(store, key_id, public, now),
        events,
        signed_at,
    );
    reveal_strlit("planned");
    reveal_strlit("blocked");
    assert("planned"@[0] == 'p' && "blocked"@[0] == 'b');
}

/// Signing came out well exactly where the signature was written and the event recorded.
pub proof fn law_what_signing_comes_to(
    report: EvidenceSignatureReportView,
    written: Result<(), Seq<char>>,
    audited: Result<(), Seq<char>>,
)
    requires
        !report.ok,
        report.status == "blocked"@,
    ensures
        ({
            let r = signing_outcome(report, written, audited);
            &&& r.ok <==> written is Ok && audited is Ok
            &&& r.status == "signed"@ <==> r.ok
            &&& r.signature_valid && r.trusted_key && r.artifact_unchanged <== r.ok
            &&& written is Err ==> r.limitations == report.limitations.push(written->Err_0)
            &&& written is Ok && audited is Err ==> r.limitations == report.limitations.push(
                audited->Err_0,
            )
            &&& r.ok ==> r.limitations == report.limitations
        }),
{
    reveal_strlit("signed");
    reveal_strlit("blocked");
    assert("signed"@[0] == 's' && "blocked"@[0] == 'b');
}

/// What a verification tells of a signature: each part of it on its own.
pub proof fn law_what_a_verification_tells(
    artifact: Seq<char>,
    signature_file: Seq<char>,
    bound_to_path: bool,
    content: Seq<u8>,
    document: EvidenceSignatureDocumentView,
    trusted: Result<Seq<u8>, Seq<char>>,
    state: Result<Seq<char>, Seq<char>>,
)
    ensures
        ({
            let r = verified_signature(
                artifact,
                signature_file,
                bound_to_path,
                Ok(content),
                Ok(document),
                trusted,
                state,
            );
            &&& r.artifact_unchanged <==> document.artifact_sha256 == sha256_hex(content)
            &&& r.trusted_key <==> trusted is Ok && document.public_key_hex == hex_of(
                trusted->Ok_0,
            ) && state is Ok && (state->Ok_0 == "active"@ || state->Ok_0 == "legacy"@)
            &&& r.signature_valid <==> trusted is Ok && is_hex_of_size(document.signature_hex, 64)
                && signature_holds(trusted->Ok_0, content, unhex(document.signature_hex, 64))
            &&& r.key_id == Some(document.key_id)
            &&& r.ok <==> r.artifact_unchanged && r.trusted_key && r.signature_valid
                && document.schema_version == "opsctl.evidence_signature.v1"@ && (bound_to_path
                ==> document.artifact_path == artifact)
            &&& r.status == "valid"@ <==> r.ok
            &&& r.status == "blocked"@ <==> !r.ok
            &&& r.read_only
        }),
{
    law_valid_signatures_are_in_order(
        artifact,
        signature_file,
        bound_to_path,
        Ok(content),
        Ok(document),
        trusted,
        state,
    );
    reveal_strlit("valid");
    reveal_strlit("blocked");
    assert("valid"@[0] == 'v' && "blocked"@[0] == 'b');
}

} // verus!
