//! Keys, signatures, the audit chain, and what is built on them.

use opsctl::entries::EntryKind;
use opsctl::evidence::bundle::{
    create_audit_checkpoint, entry_is_checked, export_audit_bundle, finish_checkpoint,
    finish_export, report_checkpoint, verify_all_evidence, verify_directory_artifacts,
    EvidenceEntry,
};
use opsctl::evidence::chain::{
    append_audit_event, audit_entry, audit_event_hash, audit_event_line, latest_artifacts,
    read_audit_events, validate_chain, verify_artifact_before_append, verify_audit_chain,
};
use opsctl::evidence::files::{
    audit_journal_path, private_key_path, public_key_path, refuse_audit_journal,
    refuse_managed_directory, refuse_output_parent, refuse_unsafe_file, safe_id, sha256_bytes,
    signature_path, trust_store_path,
};
use opsctl::evidence::keys::{
    create_key_pair, evidence_key_generate, evidence_key_status, finish_key_generate,
    finish_revoke, finish_trust, key_lifecycle, read_credential_signing_key, read_signing_key,
    read_signing_key_source, read_trust_store, read_verifying_key, revoke_evidence_key,
    trust_evidence_key,
};
use opsctl::evidence::lines::split_journal;
use opsctl::evidence::sign::{
    finish_signing, sign_artifact, sign_artifact_with_credential, verify_artifact_signature,
    verify_relocated_artifact_signature, SigningPlan,
};
use opsctl::evidence::types::{
    EvidenceAuditEvent, EvidenceSignatureDocument, EvidenceSignatureReport, EvidenceTrustStore,
    EvidenceTrustedKey,
};

/// 2026-01-01T00:00:00Z, in nanoseconds.
const NOW: i128 = 1_767_225_600_000_000_000;
const STAMP: &str = "2026-01-01T00:00:00Z";
const STATE: &str = "/var/lib/opsctl";

type Bytes = Result<Vec<u8>, String>;

/// What would be on disk.
struct Disk {
    private: Vec<u8>,
    public: Vec<u8>,
    store: Option<EvidenceTrustStore>,
    events: Vec<EvidenceAuditEvent>,
}

impl Disk {
    fn with_key(secret_byte: u8) -> Disk {
        let mut secret = vec![secret_byte; 32];
        let pair = create_key_pair(&mut secret);
        assert!(secret.is_empty());
        Disk {
            private: pair.private_hex.into_bytes(),
            public: format!("{}\n", pair.public_hex).into_bytes(),
            store: None,
            events: Vec::new(),
        }
    }

    fn secret(&self) -> Bytes {
        read_signing_key(&Ok(0o600), &Ok(self.private.clone()))
    }

    fn trusted(&self) -> Bytes {
        read_verifying_key(&Ok(self.public.clone()))
    }

    fn chain(&self) -> Result<Vec<EvidenceAuditEvent>, String> {
        Ok(self.events.clone())
    }

    fn found(&self) -> Result<Option<EvidenceTrustStore>, String> {
        match &self.store {
            Some(store) => Ok(Some(EvidenceTrustStore {
                schema_version: store.schema_version.clone(),
                updated_at: store.updated_at.clone(),
                keys: store.keys.clone(),
            })),
            None => Ok(None),
        }
    }

    fn append(&mut self, kind: &str, actor: &str, subject: &str, path: &str, content: &[u8]) {
        let event = append_audit_event(
            &self.chain(),
            kind,
            actor,
            subject,
            path,
            &Ok(content.to_vec()),
            STAMP,
        )
        .unwrap();
        self.events.push(event);
    }

    fn trust(&mut self, key_id: &str, expires_at: &str) -> bool {
        let change = trust_evidence_key(
            STATE,
            key_id,
            expires_at,
            true,
            NOW,
            &self.trusted(),
            read_trust_store(self.found(), STAMP),
            STAMP,
            STAMP,
        );
        if let Some(store) = change.store {
            self.store = Some(store);
        }
        let after = read_trust_store(self.found(), STAMP);
        finish_trust(STATE, key_id, change.limitations, &Ok(()), &after, NOW).ok
    }

    fn sign(&mut self, path: &str, content: &[u8], key_id: &str) -> (EvidenceSignatureReport, Option<EvidenceSignatureDocument>) {
        let plan: SigningPlan = sign_artifact_with_credential(
            path,
            key_id,
            true,
            false,
            &Ok(content.to_vec()),
            self.secret(),
            &Ok(self.public.clone()),
            &self.found(),
            &self.chain(),
            STAMP,
            NOW,
        );
        if plan.document.is_none() {
            return (plan.report, None);
        }
        self.append("artifact_signature", key_id, path, path, content);
        (finish_signing(plan.report, &Ok(()), &Ok(())), plan.document)
    }

    fn verify(&self, path: &str, content: &[u8], document: &EvidenceSignatureDocument) -> EvidenceSignatureReport {
        verify_artifact_signature(
            path,
            &Ok(content.to_vec()),
            &Ok(document.clone()),
            &Ok(self.public.clone()),
            &self.found(),
            NOW,
        )
    }
}

#[test]
fn signs_verifies_and_detects_artifact_tampering() {
    let plan = evidence_key_generate(STATE, "key-2026", true, false);
    assert!(plan.create);
    let mut disk = Disk::with_key(7);
    assert!(finish_key_generate(STATE, "key-2026", Ok("f".to_string())).ok);
    let (report, document) = disk.sign("/tmp/artifact.json", b"{\"ok\":true}\n", "key-2026");
    assert!(report.ok);
    assert_eq!(report.status, "signed");
    let document = document.unwrap();
    assert!(disk.verify("/tmp/artifact.json", b"{\"ok\":true}\n", &document).ok);
    let tampered = disk.verify("/tmp/artifact.json", b"{\"ok\":false}\n", &document);
    assert!(!tampered.ok);
    assert!(!tampered.artifact_unchanged);
    assert!(!tampered.signature_valid);
    assert_eq!(
        tampered.limitations,
        vec!["artifact changed after signing", "Ed25519 strict signature verification failed"]
    );
}

#[test]
fn audit_chain_detects_artifact_change() {
    let mut disk = Disk::with_key(1);
    disk.append("run", "test", "one", "/tmp/event.jsonl", b"one\n");
    let unchanged: Vec<Bytes> = vec![Ok(b"one\n".to_vec())];
    assert!(verify_audit_chain(STATE, &disk.chain(), &unchanged).ok);
    let changed: Vec<Bytes> = vec![Ok(b"two\n".to_vec())];
    let report = verify_audit_chain(STATE, &disk.chain(), &changed);
    assert!(!report.ok);
    assert_eq!(report.limitations, vec!["audited artifact changed: /tmp/event.jsonl"]);
    assert!(verify_artifact_before_append(&disk.chain(), "/tmp/event.jsonl", &changed[0]).is_err());
    assert!(verify_artifact_before_append(&disk.chain(), "/tmp/event.jsonl", &unchanged[0]).is_ok());
}

#[test]
fn trust_expiry_and_revocation_gate_signatures() {
    let mut disk = Disk::with_key(3);
    assert!(disk.trust("rotation-1", "2099-01-01T00:00:00Z"));
    let (report, document) = disk.sign("/tmp/artifact.json", b"{}\n", "rotation-1");
    assert!(report.ok);
    let document = document.unwrap();
    assert!(disk.verify("/tmp/artifact.json", b"{}\n", &document).ok);
    let change = revoke_evidence_key(
        STATE,
        "rotation-1",
        Some("scheduled rotation"),
        true,
        read_trust_store(disk.found(), STAMP),
        STAMP,
        STAMP,
    );
    assert!(change.limitations.is_empty());
    disk.store = change.store;
    let after = read_trust_store(disk.found(), STAMP);
    let revoked = finish_revoke(STATE, "rotation-1", change.limitations, &Ok(()), &after, NOW);
    assert!(revoked.ok);
    assert_eq!(revoked.status, "revoked");
    let later = disk.verify("/tmp/artifact.json", b"{}\n", &document);
    assert!(!later.ok);
    assert_eq!(later.key_lifecycle_status, "revoked");
}

#[test]
fn signed_checkpoint_is_included_in_verify_all() {
    let mut disk = Disk::with_key(5);
    disk.append("fixture", "test", "one", "/var/lib/opsctl/event.jsonl", b"one\n");
    assert!(disk.trust("checkpoint-1", "2099-01-01T00:00:00Z"));
    let plan = create_audit_checkpoint(
        STATE,
        "checkpoint-1",
        true,
        NOW,
        42,
        &disk.chain(),
        disk.secret(),
        &Ok(disk.public.clone()),
        &disk.found(),
        &Ok(b"journal".to_vec()),
        STAMP,
        NOW,
    );
    assert!(plan.write);
    assert_eq!(
        plan.checkpoint_path,
        "/var/lib/opsctl/evidence-checkpoints/checkpoint-1767225600000000000-42.json"
    );
    assert_eq!(plan.checkpoint.head_sequence, 1);
    let path = plan.checkpoint_path.clone();
    let (signed, document) = disk.sign(&path, b"{}", "checkpoint-1");
    let checkpoint = finish_checkpoint(plan, &Ok(()), &signed, &Ok(()));
    assert!(checkpoint.ok, "{:?}", checkpoint.limitations);
    assert_eq!(checkpoint.status, "checkpoint_signed");
    disk.append("audit_checkpoint", "test", "1", &path, b"{}");
    let contents: Vec<Bytes> = latest_artifacts(&disk.events)
        .iter()
        .map(|(name, _)| Ok(if name.ends_with("event.jsonl") { b"one\n".to_vec() } else { b"{}".to_vec() }))
        .collect();
    let audit = verify_audit_chain(STATE, &disk.chain(), &contents);
    assert!(audit.ok, "{:?}", audit.limitations);
    let store = read_trust_store(disk.found(), STAMP);
    let trust = evidence_key_status(STATE, None, &store, NOW);
    let manifests =
        verify_directory_artifacts("/x", None, &Ok(Vec::new()), false, &disk.found(), NOW);
    let checkpoints = verify_directory_artifacts(
        "/var/lib/opsctl/evidence-checkpoints",
        Some(Ok(EntryKind::Dir)),
        &Ok(vec![
            Some(EvidenceEntry {
                path: path.clone(),
                name: "checkpoint-1767225600000000000-42.json".to_string(),
                signature_exists: true,
                content: Ok(b"{}".to_vec()),
                document: Ok(document.unwrap()),
                key_file: Ok(disk.public.clone()),
            }),
            Some(EvidenceEntry {
                path: format!("{path}.sig.json"),
                name: "checkpoint-1767225600000000000-42.json.sig.json".to_string(),
                signature_exists: false,
                content: Err("unread".to_string()),
                document: Err("unread".to_string()),
                key_file: Err("unread".to_string()),
            }),
        ]),
        true,
        &disk.found(),
        NOW,
    );
    let verified = verify_all_evidence(audit, trust, manifests, checkpoints);
    assert!(verified.ok, "{:?}", verified.limitations);
    assert_eq!(verified.checkpoints_checked, 1);
    assert_eq!(verified.checkpoints_valid, 1);
}

// -- paths and files -------------------------------------------------------

#[test]
fn evidence_has_its_places() {
    assert_eq!(signature_path("/tmp/a.json"), "/tmp/a.json.sig.json");
    assert_eq!(audit_journal_path("/s"), "/s/evidence-audit-chain.jsonl");
    assert_eq!(private_key_path("/s", "k"), "/s/evidence-keys/k.private");
    assert_eq!(public_key_path("/s/", "k"), "/s/evidence-keys/k.public");
    assert_eq!(trust_store_path("/s"), "/s/evidence-trust.json");
}

#[test]
fn key_ids_are_short_and_plain() {
    assert!(safe_id("key-2026_a"));
    assert!(!safe_id(""));
    assert!(!safe_id("Key"));
    assert!(!safe_id("../key"));
    assert!(safe_id(&"a".repeat(64)));
    assert!(!safe_id(&"a".repeat(65)));
}

#[test]
fn digest_is_sha256_in_hexadecimal() {
    assert_eq!(
        sha256_bytes(b"abc"),
        "ba7816bf8f01cfea414140de5dae2223b00361a396177a9cb410ff61f20015ad"
    );
    assert_eq!(
        sha256_bytes(b""),
        "e3b0c44298fc1c149afbf4c8996fb92427ae41e4649b934ca495991b7852b855"
    );
}

#[test]
fn unsafe_files_and_directories_are_refused() {
    assert_eq!(refuse_unsafe_file("/a", EntryKind::File, 10, 10), None);
    assert_eq!(
        refuse_unsafe_file("/a", EntryKind::File, 11, 10).as_deref(),
        Some("file is unsafe or too large: /a")
    );
    assert!(refuse_unsafe_file("/a", EntryKind::Symlink, 1, 10).is_some());
    assert_eq!(refuse_audit_journal("/a", None), None);
    assert_eq!(
        refuse_audit_journal("/a", Some((EntryKind::Dir, 0))).as_deref(),
        Some("audit journal is unsafe or oversized: /a")
    );
    let plain = vec![EntryKind::Dir, EntryKind::Dir];
    let linked = vec![EntryKind::Dir, EntryKind::Symlink];
    assert_eq!(refuse_managed_directory("/a/b", &plain, None), None);
    assert_eq!(
        refuse_managed_directory("/a/b", &plain, Some(EntryKind::File)).as_deref(),
        Some("directory is unsafe: /a/b")
    );
    assert_eq!(
        refuse_managed_directory("/a/b", &linked, None).as_deref(),
        Some("path contains a symbolic-link ancestor: /a/b")
    );
    assert_eq!(
        refuse_output_parent("/a/b", &plain, None).as_deref(),
        Some("output parent does not exist: /a/b")
    );
    assert_eq!(
        refuse_output_parent("/a/b", &plain, Some(EntryKind::Other)).as_deref(),
        Some("output parent is unsafe: /a/b")
    );
    assert_eq!(refuse_output_parent("/a/b", &plain, Some(EntryKind::Dir)), None);
}

// -- keys ------------------------------------------------------------------

#[test]
fn public_key_follows_from_the_secret() {
    let mut secret = vec![0u8; 32];
    let pair = create_key_pair(&mut secret);
    assert_eq!(
        pair.public_hex,
        "3b6a27bcceb6a42d62a3a8d02a6f0d73653215771de243a63ac048a18b59da29"
    );
    assert_eq!(pair.private_hex, "0".repeat(64));
    assert_eq!(pair.fingerprint_sha256.len(), 64);
    assert_ne!(pair.fingerprint_sha256, pair.public_hex);
}

#[test]
fn new_key_reads_back() {
    let disk = Disk::with_key(9);
    assert_eq!(disk.secret(), Ok(vec![9u8; 32]));
    let trusted = disk.trusted();
    assert_eq!(trusted.as_ref().map(|key| key.len()), Ok(32));
    assert_eq!(read_signing_key_source(disk.secret(), &trusted), Ok(vec![9u8; 32]));
}

#[test]
fn bad_key_files_are_refused() {
    assert_eq!(
        read_verifying_key(&Ok(b"abc".to_vec())),
        Err("invalid hex-encoded fixed-size value".to_string())
    );
    assert_eq!(read_verifying_key(&Err("gone".to_string())), Err("gone".to_string()));
    let not_utf8 = read_verifying_key(&Ok(vec![0xff, 0xfe]));
    assert_eq!(
        not_utf8,
        Err("invalid utf-8 sequence of 1 bytes from index 0".to_string())
    );
    let not_a_point = format!("02{}", "00".repeat(31));
    assert_eq!(
        read_verifying_key(&Ok(not_a_point.into_bytes())),
        Err("trusted public key is invalid".to_string())
    );
}

#[test]
fn open_key_files_are_refused() {
    let disk = Disk::with_key(2);
    assert_eq!(
        read_signing_key(&Ok(0o640), &Ok(disk.private.clone())),
        Err("signing key permissions must not grant group or other access".to_string())
    );
    assert_eq!(
        read_signing_key(&Err("no mode".to_string()), &Ok(disk.private.clone())),
        Err("no mode".to_string())
    );
}

#[test]
fn other_keys_cannot_sign() {
    let one = Disk::with_key(1);
    let two = Disk::with_key(2);
    assert_eq!(
        read_signing_key_source(one.secret(), &two.trusted()),
        Err("signing key does not match the trusted public key for key_id".to_string())
    );
}

#[test]
fn credentials_come_from_a_safe_directory() {
    let disk = Disk::with_key(4);
    let content: Bytes = Ok(disk.private.clone());
    let dir = Ok(EntryKind::Dir);
    let read = |name: &str, directory: Option<&str>, entry: &Result<EntryKind, String>, mode: u32| {
        read_credential_signing_key(name, directory, entry, &Ok(mode), &content)
    };
    assert_eq!(read("key", Some("/run/credentials"), &dir, 0o400), Ok(vec![4u8; 32]));
    assert_eq!(
        read("../key", Some("/run/credentials"), &dir, 0o400),
        Err("credential_name is invalid".to_string())
    );
    assert_eq!(
        read("key", None, &dir, 0o400),
        Err("CREDENTIALS_DIRECTORY is unavailable".to_string())
    );
    assert_eq!(
        read("key", Some("run"), &dir, 0o400),
        Err("CREDENTIALS_DIRECTORY is unsafe".to_string())
    );
    assert_eq!(
        read("key", Some("/run"), &Ok(EntryKind::Symlink), 0o400),
        Err("CREDENTIALS_DIRECTORY is unsafe".to_string())
    );
    assert_eq!(
        read("key", Some("/run"), &Err("gone".to_string()), 0o400),
        Err("gone".to_string())
    );
    assert_eq!(
        read("key", Some("/run"), &dir, 0o444),
        Err("signing credential permissions grant group or other access".to_string())
    );
}

#[test]
fn key_generation_is_planned_or_blocked() {
    let plan = evidence_key_generate(STATE, "k", false, false);
    assert!(plan.report.ok && plan.report.read_only && !plan.create);
    assert_eq!(plan.report.status, "planned");
    let taken = evidence_key_generate(STATE, "K", true, true);
    assert!(!taken.create);
    assert_eq!(taken.report.status, "blocked");
    assert_eq!(
        taken.report.limitations,
        vec!["key_id is invalid", "key id already exists; rotation requires a new key id"]
    );
    let failed = finish_key_generate(STATE, "k", Err("disk full".to_string()));
    assert!(!failed.ok);
    assert_eq!(failed.limitations, vec!["disk full"]);
}

// -- the trust store -------------------------------------------------------

#[test]
fn trust_needs_a_future_expiry_and_a_key() {
    let disk = Disk::with_key(6);
    let change = trust_evidence_key(
        STATE,
        "Bad",
        STAMP,
        true,
        NOW,
        &Err("no key".to_string()),
        Err("no store".to_string()),
        STAMP,
        STAMP,
    );
    assert!(change.store.is_none() && change.report.is_none());
    assert_eq!(
        change.limitations,
        vec![
            "key_id is invalid",
            "expires_at must be a future RFC3339 timestamp",
            "no key",
            "no store"
        ]
    );
    let planned = trust_evidence_key(
        STATE,
        "good",
        "2030-01-01T00:00:00Z",
        false,
        NOW,
        &disk.trusted(),
        read_trust_store(Ok(None), STAMP),
        STAMP,
        STAMP,
    );
    let report = planned.report.unwrap();
    assert!(report.ok && planned.store.is_none());
    assert_eq!(report.status, "planned");
}

#[test]
fn keys_are_trusted_once() {
    let mut disk = Disk::with_key(6);
    assert!(disk.trust("k", "2030-01-01T00:00:00Z"));
    let again = trust_evidence_key(
        STATE,
        "k",
        "2030-01-01T00:00:00Z",
        true,
        NOW,
        &disk.trusted(),
        read_trust_store(disk.found(), STAMP),
        STAMP,
        STAMP,
    );
    assert_eq!(again.limitations, vec!["key_id already exists in the trust store"]);
}

#[test]
fn keys_expire() {
    let mut disk = Disk::with_key(6);
    assert!(disk.trust("k", "2026-01-01T00:00:01Z"));
    let trusted = disk.trusted();
    assert_eq!(key_lifecycle(&disk.found(), "k", &trusted, NOW), Ok("active".to_string()));
    assert_eq!(
        key_lifecycle(&disk.found(), "k", &trusted, NOW + 1_000_000_000),
        Ok("expired".to_string())
    );
    assert_eq!(
        key_lifecycle(&disk.found(), "k", &trusted, NOW - 1),
        Ok("not_yet_valid".to_string())
    );
}

#[test]
fn key_states_have_their_words() {
    let mut disk = Disk::with_key(6);
    let trusted = disk.trusted();
    assert_eq!(key_lifecycle(&Ok(None), "k", &trusted, NOW), Ok("legacy".to_string()));
    assert!(disk.trust("k", "2030-01-01T00:00:00Z"));
    assert_eq!(
        key_lifecycle(&disk.found(), "other", &trusted, NOW),
        Err("key_id is not registered in the evidence trust store".to_string())
    );
    let stranger = Disk::with_key(8).trusted();
    assert_eq!(
        key_lifecycle(&disk.found(), "k", &stranger, NOW),
        Ok("invalid_public_key".to_string())
    );
    if let Some(store) = &mut disk.store {
        store.keys[0].expires_at = "never".to_string();
    }
    assert_eq!(
        key_lifecycle(&disk.found(), "k", &trusted, NOW),
        Ok("invalid_timestamp".to_string())
    );
    if let Some(store) = &mut disk.store {
        store.schema_version = "other".to_string();
    }
    assert_eq!(
        key_lifecycle(&disk.found(), "k", &trusted, NOW),
        Err("unsupported evidence trust store schema".to_string())
    );
    assert!(read_trust_store(disk.found(), STAMP).is_err());
}

#[test]
fn revocation_needs_a_reason_and_a_key() {
    let store = read_trust_store(Ok(None), STAMP);
    let change = revoke_evidence_key(STATE, "k", Some("two\nlines"), true, store, STAMP, STAMP);
    assert_eq!(
        change.limitations,
        vec![
            "revocation reason must contain 1 to 256 characters",
            "key_id is not present in the trust store"
        ]
    );
    let mut disk = Disk::with_key(6);
    assert!(disk.trust("k", "2030-01-01T00:00:00Z"));
    let first = revoke_evidence_key(
        STATE,
        "k",
        Some("lost"),
        true,
        read_trust_store(disk.found(), STAMP),
        STAMP,
        STAMP,
    );
    disk.store = first.store;
    let second = revoke_evidence_key(
        STATE,
        "k",
        Some("lost"),
        true,
        read_trust_store(disk.found(), STAMP),
        STAMP,
        STAMP,
    );
    assert_eq!(second.limitations, vec!["key_id is already revoked"]);
    assert!(second.store.is_none());
}

#[test]
fn trust_status_lists_keys() {
    let mut disk = Disk::with_key(6);
    let empty = evidence_key_status(STATE, None, &read_trust_store(Ok(None), STAMP), NOW);
    assert!(empty.ok);
    assert_eq!(empty.status, "legacy");
    assert!(disk.trust("k", "2030-01-01T00:00:00Z"));
    let store = read_trust_store(disk.found(), STAMP);
    let all = evidence_key_status(STATE, None, &store, NOW);
    assert_eq!((all.status.as_str(), all.keys.len()), ("active", 1));
    let missing = evidence_key_status(STATE, Some("x"), &store, NOW);
    assert_eq!(missing.limitations, vec!["key_id is not present in the trust store"]);
    assert_eq!(missing.status, "blocked");
}

// -- signatures ------------------------------------------------------------

#[test]
fn signature_is_the_one_of_ed25519() {
    // The first vector of the Ed25519 standard: an empty message.
    let mut disk = Disk::with_key(0);
    disk.private =
        b"9d61b19deffd5a60ba844af492ec2cc44449c5697b326919703bac031cae7f60".to_vec();
    disk.public =
        b"d75a980182b10ab7d54bfed3c964073a0ee172f3daa62325af021a68f707511a".to_vec();
    let (report, document) = disk.sign("/tmp/empty", b"", "k");
    assert!(report.ok, "{:?}", report.limitations);
    let document = document.unwrap();
    assert_eq!(
        document.signature_hex,
        "e5564300c360ac729086e2cc806e828a84877f1eb8e5d974d873e065224901555fb8821590a33bacc61e39701cf9b46bd25bf5f0595bbe24655141438e7a100b"
    );
    assert_eq!(
        document.artifact_sha256,
        "e3b0c44298fc1c149afbf4c8996fb92427ae41e4649b934ca495991b7852b855"
    );
    assert!(disk.verify("/tmp/empty", b"", &document).ok);
}

#[test]
fn signature_is_bound_to_its_path() {
    let mut disk = Disk::with_key(3);
    let (_, document) = disk.sign("/tmp/a", b"x", "k");
    let document = document.unwrap();
    let moved = disk.verify("/tmp/b", b"x", &document);
    assert_eq!(moved.limitations, vec!["signature schema or artifact binding is invalid"]);
    let relocated = verify_relocated_artifact_signature(
        "/tmp/b",
        "/tmp/a.sig.json",
        &Ok(b"x".to_vec()),
        &Ok(document),
        &Ok(disk.public.clone()),
        &Ok(None),
        NOW,
    );
    assert!(relocated.ok);
    assert_eq!(relocated.signature_path, "/tmp/a.sig.json");
}

#[test]
fn foreign_keys_do_not_verify() {
    let mut disk = Disk::with_key(3);
    let (_, document) = disk.sign("/tmp/a", b"x", "k");
    let document = document.unwrap();
    let other = Disk::with_key(4);
    let report = other.verify("/tmp/a", b"x", &document);
    assert!(!report.ok && !report.trusted_key && !report.signature_valid);
    let mut forged = document.clone();
    forged.signature_hex = "00".repeat(64);
    assert!(!disk.verify("/tmp/a", b"x", &forged).signature_valid);
    forged.signature_hex = "zz".repeat(64);
    assert!(!disk.verify("/tmp/a", b"x", &forged).signature_valid);
}

#[test]
fn unreadable_artifacts_and_signatures_are_reported() {
    let disk = Disk::with_key(3);
    let report = verify_artifact_signature(
        "/tmp/a",
        &Err("no artifact".to_string()),
        &Err("no signature".to_string()),
        &Ok(disk.public.clone()),
        &Ok(None),
        NOW,
    );
    assert_eq!(report.limitations, vec!["no artifact"]);
    assert_eq!(report.key_lifecycle_status, "unknown");
    let report = verify_artifact_signature(
        "/tmp/a",
        &Ok(Vec::new()),
        &Err("no signature".to_string()),
        &Ok(disk.public.clone()),
        &Ok(None),
        NOW,
    );
    assert_eq!(report.limitations, vec!["no signature"]);
}

#[test]
fn signing_is_refused_for_every_reason() {
    let disk = Disk::with_key(3);
    let mut broken = EvidenceAuditEvent {
        schema_version: "opsctl.evidence_audit_chain.v1".to_string(),
        sequence: 1,
        ts: STAMP.to_string(),
        kind: "k".to_string(),
        actor: "a".to_string(),
        subject: "s".to_string(),
        artifact_path: "/tmp/a".to_string(),
        artifact_sha256: String::new(),
        previous_event_sha256: "0".repeat(64),
        event_sha256: String::new(),
    };
    broken.event_sha256 = "wrong".to_string();
    let plan = sign_artifact_with_credential(
        "/tmp/a",
        "Bad",
        true,
        true,
        &Err("no artifact".to_string()),
        Err("no secret".to_string()),
        &Ok(disk.public.clone()),
        &Ok(Some(EvidenceTrustStore {
            schema_version: "opsctl.evidence_trust.v1".to_string(),
            updated_at: STAMP.to_string(),
            keys: vec![EvidenceTrustedKey {
                key_id: "Bad".to_string(),
                public_key_sha256: sha256_bytes(&disk.trusted().unwrap()),
                valid_from: STAMP.to_string(),
                expires_at: "2099-01-01T00:00:00Z".to_string(),
                revoked_at: Some(STAMP.to_string()),
                revocation_reason: Some("lost".to_string()),
            }],
        })),
        &Ok(vec![broken]),
        STAMP,
        NOW,
    );
    assert!(plan.document.is_none() && !plan.report.ok);
    assert_eq!(
        plan.report.limitations,
        vec![
            "key_id is invalid",
            "detached signature already exists",
            "no artifact",
            "no secret",
            "signing key lifecycle is not active: revoked",
            "refusing to append to invalid audit chain at event 1"
        ]
    );
}

#[test]
fn failed_writes_leave_the_artifact_unsigned() {
    let disk = Disk::with_key(3);
    let plan = |execute: bool| {
        sign_artifact_with_credential(
            "/tmp/a",
            "k",
            execute,
            false,
            &Ok(b"x".to_vec()),
            disk.secret(),
            &Ok(disk.public.clone()),
            &Ok(None),
            &disk.chain(),
            STAMP,
            NOW,
        )
    };
    let planned = plan(false);
    assert!(planned.document.is_none() && planned.report.ok);
    assert_eq!(planned.report.status, "planned");
    let unwritten = finish_signing(plan(true).report, &Err("full".to_string()), &Ok(()));
    assert!(!unwritten.ok);
    assert_eq!(unwritten.limitations, vec!["full"]);
    let unaudited = finish_signing(plan(true).report, &Ok(()), &Err("no chain".to_string()));
    assert!(!unaudited.ok);
    assert_eq!(unaudited.status, "blocked");
    assert_eq!(unaudited.limitations, vec!["no chain"]);
}

// -- the chain -------------------------------------------------------------

fn chain_of(n: usize) -> Vec<EvidenceAuditEvent> {
    let mut disk = Disk::with_key(1);
    for i in 0..n {
        disk.append("run", "test", &format!("subject {i}"), "/tmp/a", format!("{i}").as_bytes());
    }
    disk.events
}

#[test]
fn events_are_linked() {
    let events = chain_of(3);
    assert_eq!(events[0].previous_event_sha256, "0".repeat(64));
    assert_eq!(events[1].previous_event_sha256, events[0].event_sha256);
    assert_eq!(events[2].sequence, 3);
    assert!(validate_chain(&events).is_ok());
}

#[test]
fn event_seal_is_the_digest_of_its_json() {
    let mut event = chain_of(1).remove(0);
    event.subject = "a \"quoted\"\nsubject".to_string();
    let mut bare = event.clone();
    bare.event_sha256 = String::new();
    let line = audit_event_line(&bare);
    assert_eq!(
        line,
        format!(
            "{{\"schema_version\":\"opsctl.evidence_audit_chain.v1\",\"sequence\":1,\"ts\":\"{STAMP}\",\"kind\":\"run\",\"actor\":\"test\",\"subject\":\"a \\\"quoted\\\"\\nsubject\",\"artifact_path\":\"/tmp/a\",\"artifact_sha256\":\"{}\",\"previous_event_sha256\":\"{}\",\"event_sha256\":\"\"}}",
            sha256_bytes(b"0"),
            "0".repeat(64)
        )
    );
    assert_eq!(audit_event_hash(&event), sha256_bytes(line.as_bytes()));
}

#[test]
fn changed_events_break_the_chain() {
    for i in 0..3 {
        let mut events = chain_of(3);
        events[i].actor = "someone else".to_string();
        assert_eq!(
            validate_chain(&events),
            Err(format!("refusing to append to invalid audit chain at event {}", i + 1))
        );
    }
}

#[test]
fn replaced_events_break_the_chain() {
    let mut events = chain_of(3);
    events[1].actor = "someone else".to_string();
    events[1].event_sha256 = audit_event_hash(&events[1]);
    assert_eq!(
        validate_chain(&events),
        Err("refusing to append to invalid audit chain at event 3".to_string())
    );
}

#[test]
fn removed_events_break_the_chain() {
    let mut events = chain_of(3);
    events.remove(1);
    let report = verify_audit_chain(STATE, &Ok(events), &vec![Ok(b"2".to_vec())]);
    assert!(!report.chain_valid);
    assert!(report.current_artifacts_valid);
    assert_eq!(report.limitations, vec!["audit chain event 2 is invalid"]);
}

#[test]
fn nothing_is_appended_to_a_broken_chain() {
    let mut events = chain_of(2);
    events[0].ts = "later".to_string();
    let appended = append_audit_event(&Ok(events), "k", "a", "s", "/tmp/a", &Ok(Vec::new()), STAMP);
    assert_eq!(
        appended.map(|_| ()),
        Err("refusing to append to invalid audit chain at event 1".to_string())
    );
    let unread = append_audit_event(
        &Err("no journal".to_string()),
        "k",
        "a",
        "s",
        "/tmp/a",
        &Ok(Vec::new()),
        STAMP,
    );
    assert_eq!(unread.map(|_| ()), Err("no journal".to_string()));
    let missing = append_audit_event(
        &Ok(Vec::new()),
        "k",
        "a",
        "s",
        "/tmp/a",
        &Err("no artifact".to_string()),
        STAMP,
    );
    assert_eq!(missing.map(|_| ()), Err("no artifact".to_string()));
}

#[test]
fn empty_chains_are_not_valid() {
    let report = verify_audit_chain(STATE, &Err("unreadable".to_string()), &Vec::new());
    assert!(!report.ok && report.chain_valid);
    assert_eq!(report.limitations, vec!["unreadable", "audit chain has no events"]);
    assert_eq!(report.journal_path, "/var/lib/opsctl/evidence-audit-chain.jsonl");
}

#[test]
fn latest_artifacts_are_sorted_by_path() {
    let mut disk = Disk::with_key(1);
    disk.append("k", "a", "s", "/b", b"1");
    disk.append("k", "a", "s", "/a", b"2");
    disk.append("k", "a", "s", "/b", b"3");
    assert_eq!(
        latest_artifacts(&disk.events),
        vec![
            ("/a".to_string(), sha256_bytes(b"2")),
            ("/b".to_string(), sha256_bytes(b"3"))
        ]
    );
    let contents: Vec<Bytes> = vec![Err("gone".to_string()), Ok(b"3".to_vec())];
    let report = verify_audit_chain(STATE, &disk.chain(), &contents);
    assert_eq!(report.limitations, vec!["audited artifact unavailable: /a: gone"]);
    assert_eq!((report.events, report.latest_artifacts_checked), (3, 2));
}

#[test]
fn appended_lines_are_read_back() {
    let events = chain_of(2);
    let mut journal: Vec<u8> = Vec::new();
    for event in &events {
        journal.extend(audit_entry(event));
    }
    let lines = split_journal(&journal);
    assert_eq!(lines.len(), 2);
    assert_eq!(lines[0], audit_event_line(&events[0]).into_bytes());
    assert_eq!(lines[1], audit_event_line(&events[1]).into_bytes());
    let parsed: serde_json::Value = serde_json::from_slice(&lines[1]).unwrap();
    assert_eq!(parsed["sequence"], 2);
    assert_eq!(parsed["previous_event_sha256"], events[0].event_sha256.as_str());
}

#[test]
fn empty_lines_are_passed_over() {
    assert_eq!(split_journal(&b"\na\n\nb".to_vec()), vec![b"a".to_vec(), b"b".to_vec()]);
    assert!(split_journal(&Vec::new()).is_empty());
}

#[test]
fn bad_journal_lines_are_named() {
    let mut lines: Vec<Option<EvidenceAuditEvent>> = chain_of(3).into_iter().map(Some).collect();
    assert_eq!(read_audit_events(lines.clone()).map(|events| events.len()), Ok(3));
    lines[1] = None;
    assert_eq!(
        read_audit_events(lines.clone()).map(|_| ()),
        Err("invalid audit chain line 2".to_string())
    );
    if let Some(event) = &mut lines[0] {
        event.schema_version = "v0".to_string();
    }
    assert_eq!(
        read_audit_events(lines).map(|_| ()),
        Err("unsupported audit chain schema on line 1".to_string())
    );
}

// -- bundles, checkpoints, all evidence ------------------------------------

#[test]
fn bundle_holds_the_manifest_and_its_events() {
    let mut disk = Disk::with_key(3);
    let manifest = b"{\"a\": [1, null]}".to_vec();
    let (_, document) = disk.sign("/tmp/m.json", &manifest, "k");
    let document = Ok(document.unwrap());
    let export = |content: &[u8], audited: &[u8]| {
        export_audit_bundle(
            STATE,
            "/tmp/m.json",
            "/tmp/out.json",
            true,
            false,
            &Ok(content.to_vec()),
            &document,
            &Ok(disk.public.clone()),
            &disk.found(),
            &disk.chain(),
            &vec![Ok(audited.to_vec())],
            &Ok(b"journal".to_vec()),
            STAMP,
            NOW,
        )
    };
    assert_eq!(
        export(b"{}", &manifest).report.limitations,
        vec!["manifest does not have a valid trusted signature"]
    );
    assert_eq!(
        export(&manifest, b"{}").report.limitations,
        vec!["global evidence audit chain is not currently valid"]
    );
    let plan = export(&manifest, &manifest);
    assert!(plan.report.ok);
    assert!(plan.report.manifest_signed);
    assert_eq!((plan.report.status.as_str(), plan.report.audit_events), ("exported", 1));
    let bundle = plan.bundle.unwrap();
    assert_eq!(bundle.manifest_sha256, sha256_bytes(&manifest));
    assert_eq!(bundle.audit_chain_sha256, sha256_bytes(b"journal"));
    assert_eq!(bundle.audit_events.len(), 1);
    let done = finish_export(plan.report, &Ok(b"bundle".to_vec()));
    assert_eq!(done.bundle_sha256, Some(sha256_bytes(b"bundle")));
    assert!(done.ok);
}

#[test]
fn bundle_is_refused_for_every_reason() {
    let plan = export_audit_bundle(
        STATE,
        "/tmp/m.json",
        "out.json",
        true,
        false,
        &Err("no manifest".to_string()),
        &Err("no signature".to_string()),
        &Err("no key".to_string()),
        &Ok(None),
        &Ok(Vec::new()),
        &Vec::new(),
        &Err("no journal".to_string()),
        STAMP,
        NOW,
    );
    assert!(plan.bundle.is_none());
    assert_eq!(plan.report.status, "blocked");
    assert_eq!(
        plan.report.limitations,
        vec![
            "audit bundle output must be a new absolute file",
            "no manifest",
            "EOF while parsing a value at line 1 column 0",
            "manifest does not have a valid trusted signature",
            "manifest has no tamper-evident audit event",
            "global evidence audit chain is not currently valid"
        ]
    );
    let failed = finish_export(plan.report, &Err("full".to_string()));
    assert_eq!(failed.limitations.last().map(String::as_str), Some("full"));
}

#[test]
fn checkpoint_needs_events_and_a_key() {
    let plan = create_audit_checkpoint(
        STATE,
        "k",
        true,
        -5,
        7,
        &Ok(Vec::new()),
        Err("no secret".to_string()),
        &Err("no key file".to_string()),
        &Err("no state".to_string()),
        &Err("no journal".to_string()),
        STAMP,
        NOW,
    );
    assert!(!plan.write);
    assert_eq!(plan.checkpoint_path, "/var/lib/opsctl/evidence-checkpoints/checkpoint--5-7.json");
    assert_eq!(plan.checkpoint.head_sequence, 0);
    let report = report_checkpoint(plan, true);
    assert_eq!(
        report.limitations,
        vec!["audit checkpoint requires at least one audit event", "no secret", "no state"]
    );
    assert_eq!(report.status, "blocked");
}

#[test]
fn checkpoint_failures_are_reported() {
    let disk = Disk { events: chain_of(2), ..Disk::with_key(3) };
    let plan = || {
        create_audit_checkpoint(
            STATE,
            "k",
            true,
            NOW,
            1,
            &disk.chain(),
            disk.secret(),
            &Ok(disk.public.clone()),
            &Ok(None),
            &Ok(Vec::new()),
            STAMP,
            NOW,
        )
    };
    let unsigned = disk.verify("/x", b"", &EvidenceSignatureDocument {
        schema_version: String::new(),
        key_id: "k".to_string(),
        signed_at: String::new(),
        artifact_path: String::new(),
        artifact_sha256: String::new(),
        public_key_hex: String::new(),
        signature_hex: String::new(),
    });
    assert!(!unsigned.ok);
    let report = finish_checkpoint(plan(), &Err("full".to_string()), &unsigned, &Ok(()));
    assert_eq!(report.limitations, vec!["full"]);
    let report = finish_checkpoint(plan(), &Ok(()), &unsigned, &Ok(()));
    assert_eq!(report.limitations, unsigned.limitations);
    assert_eq!(report.head_sequence, 2);
}

fn entry(name: &str, signature_exists: bool, content: &str, signed: bool) -> EvidenceEntry {
    let path = format!("/m/{name}");
    let mut disk = Disk::with_key(3);
    let (_, document) = disk.sign(&path, content.as_bytes(), "k");
    EvidenceEntry {
        path,
        name: name.to_string(),
        signature_exists,
        content: Ok(content.as_bytes().to_vec()),
        document: if signed { Ok(document.unwrap()) } else { Err("unsigned".to_string()) },
        key_file: Ok(disk.public.clone()),
    }
}

#[test]
fn documents_that_ask_for_a_signature_are_checked() {
    assert!(entry_is_checked(&entry("a.json", false, "{\"signature_required\": true}", false), false));
    assert!(!entry_is_checked(&entry("a.json", false, "{\"signature_required\": false}", false), false));
    assert!(!entry_is_checked(&entry("a.json", false, "{\"signature_required\": 1}", false), false));
    assert!(!entry_is_checked(&entry("a.json", false, "not json", false), false));
    assert!(entry_is_checked(&entry("a.json", true, "", false), false));
    assert!(entry_is_checked(&entry("a.json", false, "", false), true));
    assert!(!entry_is_checked(&entry("a.txt", true, "", false), true));
    assert!(!entry_is_checked(&entry("a.sig.json", true, "", false), true));
}

#[test]
fn directories_are_checked_entry_by_entry() {
    let listed = Ok(vec![
        Some(entry("a.json", true, "{}", true)),
        Some(entry("b.json", true, "{}", false)),
        None,
        Some(entry("c.json", false, "{}", false)),
    ]);
    let report = verify_directory_artifacts("/m", Some(Ok(EntryKind::Dir)), &listed, false, &Ok(None), NOW);
    assert_eq!((report.checked, report.valid), (2, 1));
    assert_eq!(
        report.limitations,
        vec![
            "artifact signature is invalid: /m/b.json",
            "failed to read an evidence directory entry"
        ]
    );
    let linked = verify_directory_artifacts("/m", Some(Ok(EntryKind::Symlink)), &listed, false, &Ok(None), NOW);
    assert_eq!(linked.limitations, vec!["evidence directory is unsafe: /m"]);
    let unread =
        verify_directory_artifacts("/m", Some(Err("denied".to_string())), &listed, false, &Ok(None), NOW);
    assert_eq!(unread.limitations, vec!["denied"]);
    let unlisted = verify_directory_artifacts(
        "/m",
        Some(Ok(EntryKind::Dir)),
        &Err("busy".to_string()),
        false,
        &Ok(None),
        NOW,
    );
    assert_eq!(unlisted.limitations, vec!["busy"]);
}

#[test]
fn large_directories_are_cut_off() {
    let unsigned = || EvidenceEntry {
        path: "/m/a.txt".to_string(),
        name: "a.txt".to_string(),
        signature_exists: false,
        content: Ok(Vec::new()),
        document: Err("unsigned".to_string()),
        key_file: Err("unsigned".to_string()),
    };
    let listed = Ok((0..10_001).map(|_| Some(unsigned())).collect());
    let report = verify_directory_artifacts("/m", Some(Ok(EntryKind::Dir)), &listed, false, &Ok(None), NOW);
    assert_eq!(report.limitations, vec!["evidence directory exceeds the entry limit"]);
}

#[test]
fn only_the_trusted_secret_signs() {
    let disk = Disk { events: chain_of(1), ..Disk::with_key(3) };
    let other = Disk::with_key(4);
    let sign = |secret: Bytes| {
        sign_artifact(
            "/tmp/a",
            "k",
            true,
            false,
            &Ok(b"x".to_vec()),
            secret,
            &Ok(disk.public.clone()),
            &disk.found(),
            &disk.chain(),
            STAMP,
            NOW,
        )
    };
    let refused = sign(other.secret());
    assert!(refused.document.is_none());
    assert_eq!(
        refused.report.limitations,
        vec!["signing key does not match the trusted public key for key_id"]
    );
    let document = sign(disk.secret()).document.unwrap();
    assert!(disk.verify("/tmp/a", b"x", &document).ok);
    let checkpoint = create_audit_checkpoint(
        STATE,
        "k",
        true,
        NOW,
        1,
        &disk.chain(),
        other.secret(),
        &Ok(disk.public.clone()),
        &disk.found(),
        &Ok(Vec::new()),
        STAMP,
        NOW,
    );
    assert!(!checkpoint.write);
}

#[test]
fn texts_are_quoted_as_json() {
    let mut event = chain_of(1).remove(0);
    event.schema_version = "a\"b\\c/d".to_string();
    event.ts = "\u{8}\t\n\u{c}\r".to_string();
    event.kind = "\u{0}\u{1f}\u{7f}".to_string();
    event.actor = "\u{e9}\u{2028}".to_string();
    let line = audit_event_line(&event);
    assert!(line.starts_with(concat_parts(&[
        "{\"schema_version\":\"a\\\"b\\\\c/d\",\"sequence\":1,",
        "\"ts\":\"\\b\\t\\n\\f\\r\",\"kind\":\"\\u0000\\u001f\u{7f}\",",
        "\"actor\":\"\u{e9}\u{2028}\",",
    ]).as_str()));
    assert!(!line.contains('\n'));
}

fn concat_parts(parts: &[&str]) -> String {
    parts.concat()
}
