//! Signing keys, and which of them are trusted.

use vstd::prelude::*;
use vstd::utf8::{decode_utf8, valid_utf8};
use crate::each::{any_where, choose_each, find_first, index_where};
use crate::entries::EntryKind;
use crate::evidence::files::{
    bytes_seen, done_seen, failure, is_safe_id, note_failure, private_key_path,
    private_key_path_spec, public_key_path, public_key_path_spec, safe_id, seen, sha256_bytes,
    sha256_hex, trust_path, trust_store_path,
};
use crate::evidence::types::{
    EvidenceKeyReport, EvidenceKeyReportView, EvidenceTrustReport, EvidenceTrustReportView,
    EvidenceTrustStore, EvidenceTrustStoreView, EvidenceTrustedKey, EvidenceTrustedKeyStatus,
    EvidenceTrustedKeyStatusView, EvidenceTrustedKeyView,
};
use crate::hex::{hex_decode, hex_encode, hex_of, is_hex_of_size, law_hex_reads_back, unhex};
use crate::list::{
    any, chosen, first_index, first_where, law_chosen, law_first_index, law_first_where, lemma_any,
    note, noted, put,
};
use crate::outside::{
    check_public_key, derive_public_key, is_public_key, parse_rfc3339, public_key_of, read_utf8,
    rfc3339_nanos, utf8_error, wipe,
};
use crate::paths::{
    is_absolute, is_absolute_spec, parent, parent_spec, path_join, path_joined, same_path,
    same_path_spec,
};
use crate::text::{
    byte_len, byte_size, cat2, contains_char, is_hex, is_white, lemma_trimmed, own_opt, same, trim,
    trimmed, white_space,
};

verus! {

broadcast use {vstd::seq::group_seq_axioms, vstd::string::group_string_axioms};

/// The version of the trust store's format.
pub open spec fn trust_schema() -> Seq<char> {
    "opsctl.evidence_trust.v1"@
}

// ---------------------------------------------------------------------------
// Key files
// ---------------------------------------------------------------------------

/// The `n` bytes that a file holds in hexadecimal, with white space around them.
pub open spec fn hex_content(content: Seq<u8>, n: nat) -> Result<Seq<u8>, Seq<char>> {
    if !valid_utf8(content) {
        Err(utf8_error(content))
    } else if !is_hex_of_size(trimmed(decode_utf8(content)), n) {
        Err("invalid hex-encoded fixed-size value"@)
    } else {
        Ok(unhex(trimmed(decode_utf8(content)), n))
    }
}

/// The `n` bytes that a file holds in hexadecimal, with white space around them.
pub fn read_hex(content: &Vec<u8>, n: usize) -> (r: Result<Vec<u8>, String>)
    ensures
        bytes_seen(r) == hex_content(content@, n as nat),
        r is Ok ==> r->Ok_0@.len() == n,
{
    match read_utf8(content.as_slice()) {
        Ok(text) => match hex_decode(&trim(&text), n) {
            Some(bytes) => Ok(bytes),
            None => Err("invalid hex-encoded fixed-size value".to_string()),
        },
        Err(words) => Err(words),
    }
}

/// The public key that a file holds.
pub open spec fn public_key_in(content: Result<Seq<u8>, Seq<char>>) -> Result<
    Seq<u8>,
    Seq<char>,
> {
    match content {
        Ok(bytes) => match hex_content(bytes, 32) {
            Ok(key) => if is_public_key(key) {
                Ok(key)
            } else {
                Err("trusted public key is invalid"@)
            },
            Err(words) => Err(words),
        },
        Err(words) => Err(words),
    }
}

/// The public key that a file holds.
pub fn read_verifying_key(content: &Result<Vec<u8>, String>) -> (r: Result<Vec<u8>, String>)
    ensures
        bytes_seen(r) == public_key_in(bytes_seen(*content)),
        r is Ok ==> r->Ok_0@.len() == 32 && is_public_key(r->Ok_0@),
{
    let bytes = match content {
        Ok(bytes) => bytes,
        Err(words) => {
            return Err(words.clone());
        },
    };
    match read_hex(bytes, 32) {
        Ok(key) => if check_public_key(key.as_slice()) {
            Ok(key)
        } else {
            Err("trusted public key is invalid".to_string())
        },
        Err(words) => Err(words),
    }
}

/// The permissions of anyone but the owner.
pub const OTHERS: u32 = 63;

/// Whether a file's mode lets anyone but the owner in.
pub open spec fn lets_others_in(mode: u32) -> bool {
    mode & OTHERS != 0
}

/// The secret that a file holds. The file must be for its owner alone.
pub open spec fn secret_in(
    mode: Result<u32, Seq<char>>,
    content: Result<Seq<u8>, Seq<char>>,
    open_to_others: Seq<char>,
) -> Result<Seq<u8>, Seq<char>> {
    match mode {
        Ok(bits) => if lets_others_in(bits) {
            Err(open_to_others)
        } else {
            match content {
                Ok(bytes) => hex_content(bytes, 32),
                Err(words) => Err(words),
            }
        },
        Err(words) => Err(words),
    }
}

/// The mode of a file, or the words of the error.
pub open spec fn mode_seen(mode: Result<u32, String>) -> Result<u32, Seq<char>> {
    match mode {
        Ok(bits) => Ok(bits),
        Err(words) => Err(words@),
    }
}

fn read_secret(
    mode: &Result<u32, String>,
    content: &Result<Vec<u8>, String>,
    open_to_others: &str,
) -> (r: Result<Vec<u8>, String>)
    ensures
        bytes_seen(r) == secret_in(mode_seen(*mode), bytes_seen(*content), open_to_others@),
        r is Ok ==> r->Ok_0@.len() == 32,
{
    match mode {
        Ok(bits) => if *bits & OTHERS != 0 {
            Err(open_to_others.to_string())
        } else {
            match content {
                Ok(bytes) => read_hex(bytes, 32),
                Err(words) => Err(words.clone()),
            }
        },
        Err(words) => Err(words.clone()),
    }
}

/// The secret of a key in the key directory.
pub fn read_signing_key(mode: &Result<u32, String>, content: &Result<Vec<u8>, String>) -> (r:
    Result<Vec<u8>, String>)
    ensures
        bytes_seen(r) == secret_in(
            mode_seen(*mode),
            bytes_seen(*content),
            "signing key permissions must not grant group or other access"@,
        ),
        r is Ok ==> r->Ok_0@.len() == 32,
{
    read_secret(mode, content, "signing key permissions must not grant group or other access")
}

/// What an entry is, or the words of the error.
pub open spec fn kind_seen(entry: Result<EntryKind, String>) -> Result<EntryKind, Seq<char>> {
    match entry {
        Ok(kind) => Ok(kind),
        Err(words) => Err(words@),
    }
}

/// Why no credential is read from a directory.
pub open spec fn credential_refused(
    name: Seq<char>,
    directory: Option<Seq<char>>,
    entry: Result<EntryKind, Seq<char>>,
) -> Option<Seq<char>> {
    if !is_safe_id(name) {
        Some("credential_name is invalid"@)
    } else {
        match directory {
            Some(path) => match entry {
                Ok(kind) => if !is_absolute_spec(path) || kind != EntryKind::Dir {
                    Some("CREDENTIALS_DIRECTORY is unsafe"@)
                } else if !(parent_spec(path_joined(path, name)) is Some && same_path_spec(
                    parent_spec(path_joined(path, name))->0,
                    path,
                )) {
                    Some("credential path escaped CREDENTIALS_DIRECTORY"@)
                } else {
                    None
                },
                Err(words) => Some(words),
            },
            None => Some("CREDENTIALS_DIRECTORY is unavailable"@),
        }
    }
}

/// Why no credential is read from a directory.
pub fn refuse_credential(
    name: &str,
    directory: Option<&str>,
    entry: &Result<EntryKind, String>,
) -> (r: Option<String>)
    ensures
        r.deep_view() == credential_refused(name@, directory.deep_view(), kind_seen(*entry)),
{
    if !safe_id(name) {
        return Some("credential_name is invalid".to_string());
    }
    match directory {
        Some(path) => match entry {
            Ok(kind) => {
                let inside = match parent(&path_join(path, name)) {
                    Some(above) => same_path(&above, path),
                    None => false,
                };
                if !is_absolute(path) || *kind != EntryKind::Dir {
                    Some("CREDENTIALS_DIRECTORY is unsafe".to_string())
                } else if !inside {
                    Some("credential path escaped CREDENTIALS_DIRECTORY".to_string())
                } else {
                    None
                }
            },
            Err(words) => Some(words.clone()),
        },
        None => Some("CREDENTIALS_DIRECTORY is unavailable".to_string()),
    }
}

/// The secret of a credential that the service manager has handed over.
pub fn read_credential_signing_key(
    name: &str,
    directory: Option<&str>,
    entry: &Result<EntryKind, String>,
    mode: &Result<u32, String>,
    content: &Result<Vec<u8>, String>,
) -> (r: Result<Vec<u8>, String>)
    ensures
        bytes_seen(r) == (match credential_refused(
            name@,
            directory.deep_view(),
            kind_seen(*entry),
        ) {
            Some(words) => Err(words),
            None => secret_in(
                mode_seen(*mode),
                bytes_seen(*content),
                "signing credential permissions grant group or other access"@,
            ),
        }),
        r is Ok ==> r->Ok_0@.len() == 32,
{
    match refuse_credential(name, directory, entry) {
        Some(words) => Err(words),
        None => read_secret(
            mode,
            content,
            "signing credential permissions grant group or other access",
        ),
    }
}

/// The secret to sign with: the one that was read, if its public key is the trusted
/// one.
pub open spec fn usable_secret(
    secret: Result<Seq<u8>, Seq<char>>,
    trusted: Result<Seq<u8>, Seq<char>>,
) -> Result<Seq<u8>, Seq<char>> {
    match secret {
        Ok(key) => match trusted {
            Ok(public) => if public_key_of(key) == public {
                Ok(key)
            } else {
                Err("signing key does not match the trusted public key for key_id"@)
            },
            Err(words) => Err(words),
        },
        Err(words) => Err(words),
    }
}

fn same_bytes(a: &Vec<u8>, b: &Vec<u8>) -> (r: bool)
    ensures
        r == (a@ == b@),
{
    if a.len() != b.len() {
        return false;
    }
    let mut i: usize = 0;
    while i < a.len()
        invariant
            a@.len() == b@.len(),
            i <= a@.len(),
            forall|j: int| 0 <= j < i ==> a@[j] == b@[j],
        decreases a@.len() - i,
    {
        if a[i] != b[i] {
            return false;
        }
        i = i + 1;
    }
    proof {
        assert(a@ =~= b@);
    }
    true
}

/// The secret to sign with: the one that was read, if its public key is the trusted
/// one.
pub fn read_signing_key_source(
    secret: Result<Vec<u8>, String>,
    trusted: &Result<Vec<u8>, String>,
) -> (r: Result<Vec<u8>, String>)
    requires
        secret is Ok ==> secret->Ok_0@.len() == 32,
    ensures
        bytes_seen(r) == usable_secret(bytes_seen(secret), bytes_seen(*trusted)),
        r is Ok ==> r->Ok_0@.len() == 32,
{
    match secret {
        Ok(key) => match trusted {
            Ok(public) => {
                let derived = derive_public_key(key.as_slice());
                if same_bytes(&derived, public) {
                    Ok(key)
                } else {
                    Err(
                        "signing key does not match the trusted public key for key_id".to_string(),
                    )
                }
            },
            Err(words) => Err(words.clone()),
        },
        Err(words) => Err(words),
    }
}

/// A new key, as it is written down.
#[derive(Debug)]
pub struct KeyPair {
    /// The secret, in hexadecimal.
    pub private_hex: String,
    /// The public key, in hexadecimal.
    pub public_hex: String,
    /// The digest of the public key.
    pub fingerprint_sha256: String,
}

/// View of [`KeyPair`].
#[verifier::ext_equal]
pub struct KeyPairView {
    pub private_hex: Seq<char>,
    pub public_hex: Seq<char>,
    pub fingerprint_sha256: Seq<char>,
}

impl DeepView for KeyPair {
    type V = KeyPairView;

    open spec fn deep_view(&self) -> KeyPairView {
        KeyPairView {
            private_hex: self.private_hex.deep_view(),
            public_hex: self.public_hex.deep_view(),
            fingerprint_sha256: self.fingerprint_sha256.deep_view(),
        }
    }
}

/// A key that is to be made.
#[derive(Debug)]
pub struct KeyPlan {
    pub report: EvidenceKeyReport,
    /// Whether the key is to be made now.
    pub create: bool,
}

/// View of [`KeyPlan`].
#[verifier::ext_equal]
pub struct KeyPlanView {
    pub report: EvidenceKeyReportView,
    pub create: bool,
}

impl DeepView for KeyPlan {
    type V = KeyPlanView;

    open spec fn deep_view(&self) -> KeyPlanView {
        KeyPlanView {
            report: self.report.deep_view(),
            create: self.create,
        }
    }
}

/// A change of the trust store.
#[derive(Debug)]
pub struct TrustChange {
    /// What to report, if nothing is to be done.
    pub report: Option<EvidenceTrustReport>,
    /// The store to write.
    pub store: Option<EvidenceTrustStore>,
    pub limitations: Vec<String>,
}

/// View of [`TrustChange`].
#[verifier::ext_equal]
pub struct TrustChangeView {
    pub report: Option<EvidenceTrustReportView>,
    pub store: Option<EvidenceTrustStoreView>,
    pub limitations: Seq<Seq<char>>,
}

impl DeepView for TrustChange {
    type V = TrustChangeView;

    open spec fn deep_view(&self) -> TrustChangeView {
        TrustChangeView {
            report: self.report.deep_view(),
            store: self.store.deep_view(),
            limitations: self.limitations.deep_view(),
        }
    }
}

/// A new key of a secret.
pub open spec fn key_pair_of(secret: Seq<u8>) -> KeyPairView {
    KeyPairView {
        private_hex: hex_of(secret),
        public_hex: hex_of(public_key_of(secret)),
        fingerprint_sha256: sha256_hex(public_key_of(secret)),
    }
}

/// A new key of a secret. The secret itself is wiped. What was written down reads
/// back as a key that can sign.
pub fn create_key_pair(secret: &mut Vec<u8>) -> (r: KeyPair)
    requires
        old(secret)@.len() == 32,
    ensures
        r.deep_view() == key_pair_of(old(secret)@),
        final(secret)@.len() == 0,
        usable_secret(
            hex_content(vstd::utf8::encode_utf8(r.private_hex@), 32),
            public_key_in(Ok(vstd::utf8::encode_utf8(r.public_hex@))),
        ) == Ok::<Seq<u8>, Seq<char>>(old(secret)@),
{
    let ghost held = secret@;
    let public = derive_public_key(secret.as_slice());
    let private_hex = hex_encode(secret.as_slice());
    wipe(secret);
    proof {
        law_new_keys_read_back(
            held,
            vstd::utf8::encode_utf8(hex_of(held)),
            vstd::utf8::encode_utf8(hex_of(public@)),
        );
    }
    KeyPair {
        private_hex,
        public_hex: hex_encode(public.as_slice()),
        fingerprint_sha256: sha256_bytes(public.as_slice()),
    }
}

/// Everything that speaks against a new key.
pub open spec fn key_limitations(key_id: Seq<char>, taken: bool) -> Seq<Seq<char>> {
    noted(!is_safe_id(key_id), "key_id is invalid"@) + noted(
        taken,
        "key id already exists; rotation requires a new key id"@,
    )
}

/// A report on a new key.
pub open spec fn key_report(
    state_dir: Seq<char>,
    key_id: Seq<char>,
    execute: bool,
    fingerprint: Option<Seq<char>>,
    limitations: Seq<Seq<char>>,
) -> EvidenceKeyReportView {
    EvidenceKeyReportView {
        ok: limitations.len() == 0,
        read_only: !execute,
        status: if limitations.len() > 0 {
            "blocked"@
        } else if execute {
            "created"@
        } else {
            "planned"@
        },
        key_id,
        private_key_path: private_key_path_spec(state_dir, key_id),
        public_key_path: public_key_path_spec(state_dir, key_id),
        fingerprint_sha256: fingerprint,
        limitations,
    }
}

/// What to do about a new key, given whether one of its files is there already.
pub fn evidence_key_generate(state_dir: &str, key_id: &str, execute: bool, taken: bool) -> (r:
    KeyPlan)
    ensures
        r.deep_view() == (KeyPlanView {
            report: key_report(
                state_dir@,
                key_id@,
                execute,
                None,
                key_limitations(key_id@, taken),
            ),
            create: execute && key_limitations(key_id@, taken).len() == 0,
        }),
{
    let mut limitations: Vec<String> = Vec::new();
    proof {
        assert(limitations.deep_view() =~= Seq::<Seq<char>>::empty());
    }
    note(&mut limitations, !safe_id(key_id), "key_id is invalid");
    note(&mut limitations, taken, "key id already exists; rotation requires a new key id");
    proof {
        assert(limitations.deep_view() =~= key_limitations(key_id@, taken));
        assert(limitations.deep_view().len() == limitations@.len());
    }
    let ok = limitations.len() == 0;
    KeyPlan {
        report: EvidenceKeyReport {
            ok,
            read_only: !execute,
            status: if !ok {
                "blocked".to_string()
            } else if execute {
                "created".to_string()
            } else {
                "planned".to_string()
            },
            key_id: key_id.to_string(),
            private_key_path: private_key_path(state_dir, key_id),
            public_key_path: public_key_path(state_dir, key_id),
            fingerprint_sha256: None,
            limitations,
        },
        create: execute && ok,
    }
}

/// The report on a key after it was made, or could not be made.
pub fn finish_key_generate(state_dir: &str, key_id: &str, created: Result<String, String>) -> (r:
    EvidenceKeyReport)
    ensures
        r.deep_view() == (match seen(created) {
            Ok(fingerprint) => key_report(
                state_dir@,
                key_id@,
                true,
                Some(fingerprint),
                Seq::empty(),
            ),
            Err(words) => key_report(state_dir@, key_id@, true, None, seq![words]),
        }),
{
    let mut limitations: Vec<String> = Vec::new();
    proof {
        assert(limitations.deep_view() =~= Seq::<Seq<char>>::empty());
    }
    let (ok, fingerprint_sha256): (bool, Option<String>) = match created {
        Ok(fingerprint) => (true, Some(fingerprint)),
        Err(words) => {
            limitations.push(words);
            proof {
                assert(limitations.deep_view() =~= seq![words@]);
            }
            (false, None)
        },
    };
    EvidenceKeyReport {
        ok,
        read_only: false,
        status: if ok {
            "created".to_string()
        } else {
            "blocked".to_string()
        },
        key_id: key_id.to_string(),
        private_key_path: private_key_path(state_dir, key_id),
        public_key_path: public_key_path(state_dir, key_id),
        fingerprint_sha256,
        limitations,
    }
}

// ---------------------------------------------------------------------------
// The trust store
// ---------------------------------------------------------------------------

/// The trust store, given what was found in its place.
pub open spec fn store_in(
    found: Result<Option<EvidenceTrustStoreView>, Seq<char>>,
    stamp: Seq<char>,
) -> Result<EvidenceTrustStoreView, Seq<char>> {
    match found {
        Ok(Some(store)) => if store.schema_version != trust_schema() {
            Err("unsupported evidence trust store schema"@)
        } else {
            Ok(store)
        },
        Ok(None) => Ok(
            EvidenceTrustStoreView {
                schema_version: trust_schema(),
                updated_at: stamp,
                keys: Seq::empty(),
            },
        ),
        Err(words) => Err(words),
    }
}

fn empty_trust_store(stamp: &str) -> (r: EvidenceTrustStore)
    ensures
        r.deep_view() == (EvidenceTrustStoreView {
            schema_version: trust_schema(),
            updated_at: stamp@,
            keys: Seq::empty(),
        }),
{
    let keys: Vec<EvidenceTrustedKey> = Vec::new();
    proof {
        assert(keys.deep_view() =~= Seq::<EvidenceTrustedKeyView>::empty());
    }
    EvidenceTrustStore {
        schema_version: "opsctl.evidence_trust.v1".to_string(),
        updated_at: stamp.to_string(),
        keys,
    }
}

/// The trust store, given what was found in its place. A store that is missing is
/// empty.
pub fn read_trust_store(found: Result<Option<EvidenceTrustStore>, String>, stamp: &str) -> (r:
    Result<EvidenceTrustStore, String>)
    ensures
        seen(r) == store_in(seen(found), stamp@),
{
    match found {
        Ok(Some(store)) => if !same(&store.schema_version, "opsctl.evidence_trust.v1") {
            Err("unsupported evidence trust store schema".to_string())
        } else {
            Ok(store)
        },
        Ok(None) => Ok(empty_trust_store(stamp)),
        Err(words) => Err(words),
    }
}

/// The status of a key at an instant.
pub open spec fn key_status(key: EvidenceTrustedKeyView, now: i128) -> Seq<char> {
    let from = rfc3339_nanos(key.valid_from);
    let until = rfc3339_nanos(key.expires_at);
    if key.revoked_at is Some {
        "revoked"@
    } else if from is None || until is None {
        "invalid_timestamp"@
    } else if from->0 > now {
        "not_yet_valid"@
    } else if until->0 <= now {
        "expired"@
    } else {
        "active"@
    }
}

/// The status of a key at an instant, in nanoseconds since the Unix epoch.
pub fn trusted_key_status(key: &EvidenceTrustedKey, now: i128) -> (r: &'static str)
    ensures
        r@ == key_status(key.deep_view(), now),
{
    if key.revoked_at.is_some() {
        return "revoked";
    }
    match (parse_rfc3339(&key.valid_from), parse_rfc3339(&key.expires_at)) {
        (Some(from), Some(until)) => if from > now {
            "not_yet_valid"
        } else if until <= now {
            "expired"
        } else {
            "active"
        },
        _ => "invalid_timestamp",
    }
}

/// Whether a key has this id.
pub open spec fn key_named(key_id: Seq<char>) -> spec_fn(EvidenceTrustedKeyView) -> bool {
    |key: EvidenceTrustedKeyView| key.key_id == key_id
}

/// How it stands with a key: `legacy` where there is no trust store, else the status
/// of its entry there.
pub open spec fn lifecycle(
    found: Result<Option<EvidenceTrustStoreView>, Seq<char>>,
    key_id: Seq<char>,
    public: Result<Seq<u8>, Seq<char>>,
    now: i128,
) -> Result<Seq<char>, Seq<char>> {
    match found {
        Ok(None) => Ok("legacy"@),
        Ok(Some(store)) => if store.schema_version != trust_schema() {
            Err("unsupported evidence trust store schema"@)
        } else {
            match first_where(store.keys, key_named(key_id)) {
                Some(key) => match public {
                    Ok(bytes) => if key.public_key_sha256 != sha256_hex(bytes) {
                        Ok("invalid_public_key"@)
                    } else {
                        Ok(key_status(key, now))
                    },
                    Err(words) => Err(words),
                },
                None => Err("key_id is not registered in the evidence trust store"@),
            }
        },
        Err(words) => Err(words),
    }
}

/// How it stands with a key.
pub fn key_lifecycle(
    found: &Result<Option<EvidenceTrustStore>, String>,
    key_id: &str,
    public: &Result<Vec<u8>, String>,
    now: i128,
) -> (r: Result<String, String>)
    ensures
        seen(r) == lifecycle(seen(*found), key_id@, bytes_seen(*public), now),
{
    let store = match found {
        Ok(Some(store)) => store,
        Ok(None) => {
            return Ok("legacy".to_string());
        },
        Err(words) => {
            return Err(words.clone());
        },
    };
    if !same(&store.schema_version, "opsctl.evidence_trust.v1") {
        return Err("unsupported evidence trust store schema".to_string());
    }
    let key = find_first(
        &store.keys,
        |key: &EvidenceTrustedKey| -> (b: bool)
            ensures
                b == (key.deep_view().key_id == key_id@)
            { same(&key.key_id, key_id) },
        Ghost(key_named(key_id@)),
    );
    match key {
        Some(key) => match public {
            Ok(bytes) => if !same(&key.public_key_sha256, &sha256_bytes(bytes.as_slice())) {
                Ok("invalid_public_key".to_string())
            } else {
                Ok(trusted_key_status(key, now).to_string())
            },
            Err(words) => Err(words.clone()),
        },
        None => Err("key_id is not registered in the evidence trust store".to_string()),
    }
}

/// Whether a key in this state can be used.
pub open spec fn is_usable(state: Seq<char>) -> bool {
    state == "active"@ || state == "legacy"@
}

/// Whether a key in this state can be used.
pub fn usable(state: &str) -> (r: bool)
    ensures
        r == is_usable(state@),
{
    same(state, "active") || same(state, "legacy")
}

/// Why a key cannot sign.
pub open spec fn lifecycle_notes(state: Result<Seq<char>, Seq<char>>) -> Seq<Seq<char>> {
    match state {
        Ok(status) => noted(
            !is_usable(status),
            "signing key lifecycle is not active: "@ + status,
        ),
        Err(words) => seq![words],
    }
}

/// Adds why a key cannot sign.
pub fn note_lifecycle(list: &mut Vec<String>, state: &Result<String, String>)
    ensures
        final(list).deep_view() == old(list).deep_view() + lifecycle_notes(seen(*state)),
{
    match state {
        Ok(status) => note(
            list,
            !usable(status),
            &cat2("signing key lifecycle is not active: ", status),
        ),
        Err(words) => {
            put(list, words);
            proof {
                assert(list.deep_view() =~= old(list).deep_view() + seq![words@]);
            }
        },
    }
}

/// A trusted key with its status.
pub open spec fn key_entry(now: i128) -> spec_fn(EvidenceTrustedKeyView) -> EvidenceTrustedKeyStatusView {
    |key: EvidenceTrustedKeyView| EvidenceTrustedKeyStatusView {
        key_id: key.key_id,
        status: key_status(key, now),
        public_key_sha256: key.public_key_sha256,
        valid_from: key.valid_from,
        expires_at: key.expires_at,
        revoked_at: key.revoked_at,
        revocation_reason: key.revocation_reason,
    }
}

/// The entry of a key, if it is asked for.
pub open spec fn wanted_entry(key_id: Option<Seq<char>>, now: i128) -> spec_fn(
    EvidenceTrustedKeyView,
) -> Option<EvidenceTrustedKeyStatusView> {
    |key: EvidenceTrustedKeyView|
        if key_id is None || key.key_id == key_id->0 {
            Some(key_entry(now)(key))
        } else {
            None
        }
}

/// Whether a key is anything but active.
pub open spec fn entry_is_inactive() -> spec_fn(EvidenceTrustedKeyStatusView) -> bool {
    |entry: EvidenceTrustedKeyStatusView| entry.status != "active"@
}

/// A report on the trust store.
pub open spec fn trust_report_of(
    state_dir: Seq<char>,
    key_id: Option<Seq<char>>,
    read_only: bool,
    limitations: Seq<Seq<char>>,
    store: Result<EvidenceTrustStoreView, Seq<char>>,
    now: i128,
) -> EvidenceTrustReportView {
    let stored = match store {
        Ok(found) => found.keys,
        Err(_) => Seq::empty(),
    };
    let keys = chosen(stored, wanted_entry(key_id, now));
    let all = limitations + failure(store) + noted(
        key_id is Some && keys.len() == 0,
        "key_id is not present in the trust store"@,
    );
    let ok = all.len() == 0 && !any(keys, entry_is_inactive());
    EvidenceTrustReportView {
        ok,
        read_only,
        status: if !ok {
            "blocked"@
        } else if stored.len() == 0 {
            "legacy"@
        } else {
            "active"@
        },
        key_id,
        trust_store_path: trust_path(state_dir),
        keys,
        limitations: all,
    }
}

/// A report on the trust store, on one key of it or on all.
pub fn trust_report(
    state_dir: &str,
    key_id: Option<&str>,
    read_only: bool,
    limitations: Vec<String>,
    store: &Result<EvidenceTrustStore, String>,
    now: i128,
) -> (r: EvidenceTrustReport)
    ensures
        r.deep_view() == trust_report_of(
            state_dir@,
            key_id.deep_view(),
            read_only,
            limitations.deep_view(),
            seen(*store),
            now,
        ),
{
    let none: Vec<EvidenceTrustedKey> = Vec::new();
    proof {
        assert(none.deep_view() =~= Seq::<EvidenceTrustedKeyView>::empty());
    }
    let stored = match store {
        Ok(found) => &found.keys,
        Err(_) => &none,
    };
    let keys = choose_each(
        stored,
        |key: &EvidenceTrustedKey| -> (entry: Option<EvidenceTrustedKeyStatus>)
            ensures
                entry.deep_view() == wanted_entry(key_id.deep_view(), now)(key.deep_view())
            {
                let wanted = match key_id {
                    Some(id) => same(&key.key_id, id),
                    None => true,
                };
                if wanted {
                    Some(
                        EvidenceTrustedKeyStatus {
                            key_id: key.key_id.clone(),
                            status: trusted_key_status(key, now).to_string(),
                            public_key_sha256: key.public_key_sha256.clone(),
                            valid_from: key.valid_from.clone(),
                            expires_at: key.expires_at.clone(),
                            revoked_at: key.revoked_at.clone(),
                            revocation_reason: key.revocation_reason.clone(),
                        },
                    )
                } else {
                    None
                }
            },
        Ghost(wanted_entry(key_id.deep_view(), now)),
    );
    let mut all = limitations;
    note_failure(&mut all, store);
    proof {
        assert(keys.deep_view().len() == keys@.len());
        assert(stored.deep_view().len() == stored@.len());
    }
    note(
        &mut all,
        key_id.is_some() && keys.len() == 0,
        "key_id is not present in the trust store",
    );
    let inactive = any_where(
        &keys,
        |entry: &EvidenceTrustedKeyStatus| -> (b: bool)
            ensures
                b == (entry.deep_view().status != "active"@)
            { !same(&entry.status, "active") },
        Ghost(entry_is_inactive()),
    );
    proof {
        assert(all.deep_view().len() == all@.len());
    }
    let ok = all.len() == 0 && !inactive;
    EvidenceTrustReport {
        ok,
        read_only,
        status: if !ok {
            "blocked".to_string()
        } else if stored.len() == 0 {
            "legacy".to_string()
        } else {
            "active".to_string()
        },
        key_id: own_opt(key_id),
        trust_store_path: trust_store_path(state_dir),
        keys,
        limitations: all,
    }
}

/// How it stands with one key, or with all.
pub fn evidence_key_status(
    state_dir: &str,
    key_id: Option<&str>,
    store: &Result<EvidenceTrustStore, String>,
    now: i128,
) -> (r: EvidenceTrustReport)
    ensures
        r.deep_view() == trust_report_of(
            state_dir@,
            key_id.deep_view(),
            true,
            Seq::empty(),
            seen(*store),
            now,
        ),
{
    let limitations: Vec<String> = Vec::new();
    proof {
        assert(limitations.deep_view() =~= Seq::<Seq<char>>::empty());
    }
    trust_report(state_dir, key_id, true, limitations, store, now)
}

/// A report on a change of the trust store that is only planned.
pub open spec fn planned_change(
    state_dir: Seq<char>,
    key_id: Seq<char>,
    limitations: Seq<Seq<char>>,
) -> EvidenceTrustReportView {
    EvidenceTrustReportView {
        ok: limitations.len() == 0,
        read_only: true,
        status: if limitations.len() == 0 {
            "planned"@
        } else {
            "blocked"@
        },
        key_id: Some(key_id),
        trust_store_path: trust_path(state_dir),
        keys: Seq::empty(),
        limitations,
    }
}

/// A report on a change of the trust store that is only planned.
pub fn planned_trust_operation(state_dir: &str, key_id: &str, limitations: Vec<String>) -> (r:
    EvidenceTrustReport)
    ensures
        r.deep_view() == planned_change(state_dir@, key_id@, limitations.deep_view()),
{
    let keys: Vec<EvidenceTrustedKeyStatus> = Vec::new();
    proof {
        assert(keys.deep_view() =~= Seq::<EvidenceTrustedKeyStatusView>::empty());
        assert(limitations.deep_view().len() == limitations@.len());
    }
    EvidenceTrustReport {
        ok: limitations.len() == 0,
        read_only: true,
        status: if limitations.len() == 0 {
            "planned".to_string()
        } else {
            "blocked".to_string()
        },
        key_id: Some(key_id.to_string()),
        trust_store_path: trust_store_path(state_dir),
        keys,
        limitations,
    }
}

/// The keys of a store that was read, or none.
pub open spec fn keys_or_none(store: Result<EvidenceTrustStoreView, Seq<char>>) -> Seq<
    EvidenceTrustedKeyView,
> {
    match store {
        Ok(found) => found.keys,
        Err(_) => Seq::empty(),
    }
}

/// Everything that speaks against trusting a key.
pub open spec fn trust_limitations(
    key_id: Seq<char>,
    expires_at: Seq<char>,
    now: i128,
    public: Result<Seq<u8>, Seq<char>>,
    store: Result<EvidenceTrustStoreView, Seq<char>>,
) -> Seq<Seq<char>> {
    noted(!is_safe_id(key_id), "key_id is invalid"@) + noted(
        rfc3339_nanos(expires_at) is None || rfc3339_nanos(expires_at)->0 <= now,
        "expires_at must be a future RFC3339 timestamp"@,
    ) + failure(public) + failure(store) + noted(
        any(keys_or_none(store), key_named(key_id)),
        "key_id already exists in the trust store"@,
    )
}

/// The trust store with one more key.
pub open spec fn with_trusted_key(
    store: EvidenceTrustStoreView,
    key_id: Seq<char>,
    expires_at: Seq<char>,
    public: Seq<u8>,
    updated_at: Seq<char>,
    valid_from: Seq<char>,
) -> EvidenceTrustStoreView {
    EvidenceTrustStoreView {
        updated_at,
        keys: store.keys.push(
            EvidenceTrustedKeyView {
                key_id,
                public_key_sha256: sha256_hex(public),
                valid_from,
                expires_at,
                revoked_at: None,
                revocation_reason: None,
            },
        ),
        ..store
    }
}

/// What to do about trusting a key.
pub open spec fn trust_change(
    state_dir: Seq<char>,
    key_id: Seq<char>,
    expires_at: Seq<char>,
    execute: bool,
    now: i128,
    public: Result<Seq<u8>, Seq<char>>,
    store: Result<EvidenceTrustStoreView, Seq<char>>,
    updated_at: Seq<char>,
    valid_from: Seq<char>,
) -> TrustChangeView {
    let limitations = trust_limitations(key_id, expires_at, now, public, store);
    TrustChangeView {
        report: if execute {
            None
        } else {
            Some(planned_change(state_dir, key_id, limitations))
        },
        store: if execute && limitations.len() == 0 {
            Some(
                with_trusted_key(
                    store->Ok_0,
                    key_id,
                    expires_at,
                    public->Ok_0,
                    updated_at,
                    valid_from,
                ),
            )
        } else {
            None
        },
        limitations,
    }
}

/// What to do about trusting a key until an instant: report that it is only planned,
/// write a store, or report what speaks against it.
pub fn trust_evidence_key(
    state_dir: &str,
    key_id: &str,
    expires_at: &str,
    execute: bool,
    now: i128,
    public: &Result<Vec<u8>, String>,
    store: Result<EvidenceTrustStore, String>,
    updated_at: &str,
    valid_from: &str,
) -> (r: TrustChange)
    ensures
        r.deep_view() == trust_change(
            state_dir@,
            key_id@,
            expires_at@,
            execute,
            now,
            bytes_seen(*public),
            seen(store),
            updated_at@,
            valid_from@,
        ),
{
    let mut limitations: Vec<String> = Vec::new();
    proof {
        assert(limitations.deep_view() =~= Seq::<Seq<char>>::empty());
    }
    let late = match parse_rfc3339(expires_at) {
        Some(until) => until <= now,
        None => true,
    };
    note(&mut limitations, !safe_id(key_id), "key_id is invalid");
    note(&mut limitations, late, "expires_at must be a future RFC3339 timestamp");
    note_failure(&mut limitations, public);
    note_failure(&mut limitations, &store);
    let known = match &store {
        Ok(found) => any_where(
            &found.keys,
            |key: &EvidenceTrustedKey| -> (b: bool)
                ensures
                    b == (key.deep_view().key_id == key_id@)
                { same(&key.key_id, key_id) },
            Ghost(key_named(key_id@)),
        ),
        Err(_) => false,
    };
    note(&mut limitations, known, "key_id already exists in the trust store");
    proof {
        assert(limitations.deep_view() =~= trust_limitations(
            key_id@,
            expires_at@,
            now,
            bytes_seen(*public),
            seen(store),
        ));
        assert(limitations.deep_view().len() == limitations@.len());
    }
    if !execute {
        let report = planned_trust_operation(state_dir, key_id, limitations.clone());
        return TrustChange { report: Some(report), store: None, limitations };
    }
    if limitations.len() > 0 {
        return TrustChange { report: None, store: None, limitations };
    }
    match (public, store) {
        (Ok(bytes), Ok(found)) => {
            let ghost before = found.deep_view();
            let mut keys = found.keys;
            let key = EvidenceTrustedKey {
                key_id: key_id.to_string(),
                public_key_sha256: sha256_bytes(bytes.as_slice()),
                valid_from: valid_from.to_string(),
                expires_at: expires_at.to_string(),
                revoked_at: None,
                revocation_reason: None,
            };
            let ghost added = key.deep_view();
            keys.push(key);
            proof {
                assert(keys.deep_view() =~= before.keys.push(added));
            }
            let next = EvidenceTrustStore {
                schema_version: found.schema_version,
                updated_at: updated_at.to_string(),
                keys,
            };
            TrustChange { report: None, store: Some(next), limitations }
        },
        _ => TrustChange { report: None, store: None, limitations },
    }
}

/// The report on a key after the store was to be written, given the store as it now
/// is.
pub fn finish_trust(
    state_dir: &str,
    key_id: &str,
    limitations: Vec<String>,
    written: &Result<(), String>,
    store: &Result<EvidenceTrustStore, String>,
    now: i128,
) -> (r: EvidenceTrustReport)
    ensures
        r.deep_view() == trust_report_of(
            state_dir@,
            Some(key_id@),
            false,
            limitations.deep_view() + failure(done_seen(*written)),
            seen(*store),
            now,
        ),
{
    let mut all = limitations;
    note_failure(&mut all, written);
    trust_report(state_dir, Some(key_id), false, all, store, now)
}

/// Whether a text can be the reason for a revocation.
pub open spec fn reason_is_valid(reason: Option<Seq<char>>) -> bool {
    match reason {
        Some(text) => text.len() > 0 && byte_len(text) <= 256 && !text.contains('\n')
            && !text.contains('\r'),
        None => false,
    }
}

/// Everything that speaks against revoking a key.
pub open spec fn revoke_limitations(
    key_id: Seq<char>,
    reason: Option<Seq<char>>,
    store: Result<EvidenceTrustStoreView, Seq<char>>,
) -> Seq<Seq<char>> {
    let selected = first_where(keys_or_none(store), key_named(key_id));
    noted(!is_safe_id(key_id), "key_id is invalid"@) + noted(
        !reason_is_valid(reason),
        "revocation reason must contain 1 to 256 characters"@,
    ) + failure(store) + noted(
        selected is None,
        "key_id is not present in the trust store"@,
    ) + noted(
        selected is Some && selected->0.revoked_at is Some,
        "key_id is already revoked"@,
    )
}

/// The trust store with a key revoked.
pub open spec fn with_revoked_key(
    store: EvidenceTrustStoreView,
    key_id: Seq<char>,
    reason: Option<Seq<char>>,
    revoked_at: Seq<char>,
    updated_at: Seq<char>,
) -> EvidenceTrustStoreView {
    let i = first_index(store.keys, key_named(key_id));
    EvidenceTrustStoreView {
        updated_at,
        keys: store.keys.update(
            i,
            EvidenceTrustedKeyView {
                revoked_at: Some(revoked_at),
                revocation_reason: reason,
                ..store.keys[i]
            },
        ),
        ..store
    }
}

/// What to do about revoking a key.
pub open spec fn revoke_change(
    state_dir: Seq<char>,
    key_id: Seq<char>,
    reason: Option<Seq<char>>,
    execute: bool,
    store: Result<EvidenceTrustStoreView, Seq<char>>,
    revoked_at: Seq<char>,
    updated_at: Seq<char>,
) -> TrustChangeView {
    let limitations = revoke_limitations(key_id, reason, store);
    TrustChangeView {
        report: if execute {
            None
        } else {
            Some(planned_change(state_dir, key_id, limitations))
        },
        store: if execute && limitations.len() == 0 {
            Some(with_revoked_key(store->Ok_0, key_id, reason, revoked_at, updated_at))
        } else {
            None
        },
        limitations,
    }
}

proof fn lemma_first_key(keys: Seq<EvidenceTrustedKeyView>, p: spec_fn(EvidenceTrustedKeyView) -> bool)
    ensures
        match first_where(keys, p) {
            Some(key) => 0 <= first_index(keys, p) < keys.len() && keys[first_index(keys, p)]
                == key && p(key),
            None => first_index(keys, p) == keys.len(),
        },
    decreases keys.len(),
{
    if keys.len() > 0 {
        lemma_first_key(keys.drop_last(), p);
    }
}

/// What to do about revoking a key: report that it is only planned, write a store, or
/// report what speaks against it.
pub fn revoke_evidence_key(
    state_dir: &str,
    key_id: &str,
    reason: Option<&str>,
    execute: bool,
    store: Result<EvidenceTrustStore, String>,
    revoked_at: &str,
    updated_at: &str,
) -> (r: TrustChange)
    ensures
        r.deep_view() == revoke_change(
            state_dir@,
            key_id@,
            reason.deep_view(),
            execute,
            seen(store),
            revoked_at@,
            updated_at@,
        ),
{
    let mut limitations: Vec<String> = Vec::new();
    proof {
        assert(limitations.deep_view() =~= Seq::<Seq<char>>::empty());
    }
    let valid = match reason {
        Some(text) => !text.is_empty() && byte_size(text) <= 256 && !contains_char(text, '\n')
            && !contains_char(text, '\r'),
        None => false,
    };
    note(&mut limitations, !safe_id(key_id), "key_id is invalid");
    note(&mut limitations, !valid, "revocation reason must contain 1 to 256 characters");
    note_failure(&mut limitations, &store);
    let ghost given = seen(store);
    proof {
        lemma_first_key(keys_or_none(given), key_named(key_id@));
        assert(Seq::<EvidenceTrustedKeyView>::empty().len() == 0);
    }
    let (index, missing, revoked): (usize, bool, bool) = match &store {
        Ok(found) => {
            let index = index_where(
                &found.keys,
                |key: &EvidenceTrustedKey| -> (b: bool)
                    ensures
                        b == (key.deep_view().key_id == key_id@)
                    { same(&key.key_id, key_id) },
                Ghost(key_named(key_id@)),
            );
            proof {
                assert(found.keys.deep_view().len() == found.keys@.len());
            }
            if index < found.keys.len() {
                proof {
                    assert(found.keys.deep_view()[index as int]
                        == found.keys@[index as int].deep_view());
                }
                (index, false, found.keys[index].revoked_at.is_some())
            } else {
                (index, true, false)
            }
        },
        Err(_) => (0, true, false),
    };
    note(&mut limitations, missing, "key_id is not present in the trust store");
    note(&mut limitations, revoked, "key_id is already revoked");
    proof {
        assert(limitations.deep_view() =~= revoke_limitations(
            key_id@,
            reason.deep_view(),
            given,
        ));
        assert(limitations.deep_view().len() == limitations@.len());
    }
    if !execute {
        let report = planned_trust_operation(state_dir, key_id, limitations.clone());
        return TrustChange { report: Some(report), store: None, limitations };
    }
    if limitations.len() > 0 {
        return TrustChange { report: None, store: None, limitations };
    }
    match store {
        Ok(found) => {
            let ghost before = found.keys.deep_view();
            let mut keys = found.keys;
            proof {
                assert(before.len() == keys@.len());
                assert(before[index as int] == keys@[index as int].deep_view());
            }
            let mut key = keys[index].clone();
            key.revoked_at = Some(revoked_at.to_string());
            key.revocation_reason = own_opt(reason);
            let ghost changed = key.deep_view();
            keys.set(index, key);
            proof {
                assert(keys.deep_view() =~= before.update(index as int, changed));
            }
            let next = EvidenceTrustStore {
                schema_version: found.schema_version,
                updated_at: updated_at.to_string(),
                keys,
            };
            TrustChange { report: None, store: Some(next), limitations }
        },
        Err(_) => TrustChange { report: None, store: None, limitations },
    }
}

/// The report on a key after it was to be revoked.
pub open spec fn revoke_report(
    state_dir: Seq<char>,
    key_id: Seq<char>,
    limitations: Seq<Seq<char>>,
    store: Result<EvidenceTrustStoreView, Seq<char>>,
    now: i128,
) -> EvidenceTrustReportView {
    let report = trust_report_of(state_dir, Some(key_id), false, limitations, store, now);
    if limitations.len() == 0 {
        EvidenceTrustReportView { ok: true, status: "revoked"@, ..report }
    } else {
        report
    }
}

/// The report on a key after it was to be revoked, given the store as it now is.
pub fn finish_revoke(
    state_dir: &str,
    key_id: &str,
    limitations: Vec<String>,
    written: &Result<(), String>,
    store: &Result<EvidenceTrustStore, String>,
    now: i128,
) -> (r: EvidenceTrustReport)
    ensures
        r.deep_view() == revoke_report(
            state_dir@,
            key_id@,
            limitations.deep_view() + failure(done_seen(*written)),
            seen(*store),
            now,
        ),
{
    let mut all = limitations;
    note_failure(&mut all, written);
    proof {
        assert(all.deep_view().len() == all@.len());
    }
    let succeeded = all.len() == 0;
    let mut report = trust_report(state_dir, Some(key_id), false, all, store, now);
    if succeeded {
        report.ok = true;
        report.status = "revoked".to_string();
    }
    report
}

// ---------------------------------------------------------------------------
// Laws
// ---------------------------------------------------------------------------

/// The words for the states of a key are different.
pub proof fn lemma_states_differ()
    ensures
        !is_usable("revoked"@),
        !is_usable("expired"@),
        !is_usable("not_yet_valid"@),
        !is_usable("invalid_timestamp"@),
        !is_usable("invalid_public_key"@),
        "active"@ != "legacy"@,
{
    reveal_strlit("active");
    reveal_strlit("legacy");
    reveal_strlit("revoked");
    reveal_strlit("expired");
    reveal_strlit("not_yet_valid");
    reveal_strlit("invalid_timestamp");
    reveal_strlit("invalid_public_key");
    assert("active"@[0] == 'a');
    assert("legacy"@[0] == 'l');
    assert("active"@.len() == 6);
    assert("legacy"@.len() == 6);
    assert("revoked"@.len() == 7);
    assert("expired"@.len() == 7);
    assert("not_yet_valid"@.len() == 13);
    assert("invalid_timestamp"@.len() == 17);
    assert("invalid_public_key"@.len() == 18);
}

/// A key is usable at an instant only if it is not revoked, its time has begun, and
/// its time is not over.
pub proof fn law_usable_keys_are_current(key: EvidenceTrustedKeyView, now: i128)
    ensures
        is_usable(key_status(key, now)) <==> key.revoked_at is None && rfc3339_nanos(
            key.valid_from,
        ) is Some && rfc3339_nanos(key.expires_at) is Some && rfc3339_nanos(key.valid_from)->0
            <= now < rfc3339_nanos(key.expires_at)->0,
{
    lemma_states_differ();
}

proof fn lemma_named_key_stays(
    keys: Seq<EvidenceTrustedKeyView>,
    i: int,
    key: EvidenceTrustedKeyView,
    p: spec_fn(EvidenceTrustedKeyView) -> bool,
)
    requires
        first_index(keys, p) == i,
        0 <= i < keys.len(),
        p(key),
    ensures
        first_where(keys.update(i, key), p) == Some(key),
    decreases keys.len(),
{
    lemma_first_key(keys, p);
    let changed = keys.update(i, key);
    if i == keys.len() - 1 {
        assert(changed.drop_last() =~= keys.drop_last());
        lemma_first_key(keys.drop_last(), p);
    } else {
        assert(changed.drop_last() =~= keys.drop_last().update(i, key));
        lemma_first_key(keys.drop_last(), p);
        lemma_named_key_stays(keys.drop_last(), i, key, p);
    }
}

/// A revocation is final: whatever the time and the public key, the key is never
/// usable again under the store that was written.
pub proof fn law_revoked_keys_are_never_usable(
    state_dir: Seq<char>,
    key_id: Seq<char>,
    reason: Option<Seq<char>>,
    store: Result<EvidenceTrustStoreView, Seq<char>>,
    revoked_at: Seq<char>,
    updated_at: Seq<char>,
    public: Result<Seq<u8>, Seq<char>>,
    now: i128,
)
    requires
        revoke_change(state_dir, key_id, reason, true, store, revoked_at, updated_at).store is Some,
    ensures
        ({
            let written = revoke_change(
                state_dir,
                key_id,
                reason,
                true,
                store,
                revoked_at,
                updated_at,
            ).store;
            match lifecycle(Ok(written), key_id, public, now) {
                Ok(state) => !is_usable(state),
                Err(_) => true,
            }
        }),
{
    let limitations = revoke_limitations(key_id, reason, store);
    assert(limitations.len() == 0);
    let keys = keys_or_none(store);
    let p = key_named(key_id);
    lemma_first_key(keys, p);
    let selected = first_where(keys, p);
    assert(selected is Some) by {
        if selected is None {
            assert(noted(true, "key_id is not present in the trust store"@).len() == 1);
        }
    }
    assert(store is Ok);
    let i = first_index(keys, p);
    let key = EvidenceTrustedKeyView {
        revoked_at: Some(revoked_at),
        revocation_reason: reason,
        ..keys[i]
    };
    lemma_named_key_stays(keys, i, key, p);
    lemma_states_differ();
}

/// A key that was trusted is active from then on until it expires, as long as its
/// public key stays the same.
pub proof fn law_trusted_keys_are_active_until_they_expire(
    state_dir: Seq<char>,
    key_id: Seq<char>,
    expires_at: Seq<char>,
    now: i128,
    public: Result<Seq<u8>, Seq<char>>,
    store: Result<EvidenceTrustStoreView, Seq<char>>,
    updated_at: Seq<char>,
    valid_from: Seq<char>,
    later: i128,
)
    requires
        store is Ok ==> store->Ok_0.schema_version == trust_schema(),
        trust_change(
            state_dir,
            key_id,
            expires_at,
            true,
            now,
            public,
            store,
            updated_at,
            valid_from,
        ).store is Some,
        rfc3339_nanos(valid_from) is Some,
        rfc3339_nanos(valid_from)->0 <= later,
    ensures
        ({
            let written = trust_change(
                state_dir,
                key_id,
                expires_at,
                true,
                now,
                public,
                store,
                updated_at,
                valid_from,
            ).store;
            lifecycle(Ok(written), key_id, public, later) == Ok::<Seq<char>, Seq<char>>(
                if later < rfc3339_nanos(expires_at)->0 {
                    "active"@
                } else {
                    "expired"@
                },
            )
        }),
{
    let limitations = trust_limitations(key_id, expires_at, now, public, store);
    assert(limitations.len() == 0);
    let keys = keys_or_none(store);
    let p = key_named(key_id);
    lemma_first_key(keys, p);
    lemma_none_named(keys, p);
    assert(public is Ok && store is Ok);
    let key = with_trusted_key(
        store->Ok_0,
        key_id,
        expires_at,
        public->Ok_0,
        updated_at,
        valid_from,
    ).keys.last();
    let more = keys.push(key);
    assert(more.drop_last() =~= keys);
    assert(first_where(more, p) == Some(key));
}

proof fn lemma_none_named(
    keys: Seq<EvidenceTrustedKeyView>,
    p: spec_fn(EvidenceTrustedKeyView) -> bool,
)
    ensures
        any(keys, p) == (first_where(keys, p) is Some),
    decreases keys.len(),
{
    if keys.len() > 0 {
        lemma_none_named(keys.drop_last(), p);
    }
}

/// A new key reads back from its files, the secret as the secret and the public key
/// as its public key. The files hold ASCII text.
pub proof fn law_new_keys_read_back(secret: Seq<u8>, private: Seq<u8>, public: Seq<u8>)
    requires
        secret.len() == 32,
        public_key_of(secret).len() == 32,
        is_public_key(public_key_of(secret)),
        private == vstd::utf8::encode_utf8(key_pair_of(secret).private_hex),
        public == vstd::utf8::encode_utf8(key_pair_of(secret).public_hex),
    ensures
        hex_content(private, 32) == Ok::<Seq<u8>, Seq<char>>(secret),
        public_key_in(Ok(public)) == Ok::<Seq<u8>, Seq<char>>(public_key_of(secret)),
        usable_secret(hex_content(private, 32), public_key_in(Ok(public))) == Ok::<
            Seq<u8>,
            Seq<char>,
        >(secret),
{
    lemma_hex_reads_back(secret);
    lemma_hex_reads_back(public_key_of(secret));
}

proof fn lemma_hex_reads_back(bytes: Seq<u8>)
    requires
        bytes.len() == 32,
    ensures
        hex_content(vstd::utf8::encode_utf8(hex_of(bytes)), 32) == Ok::<Seq<u8>, Seq<char>>(bytes),
{
    let text = hex_of(bytes);
    vstd::utf8::encode_utf8_valid_utf8(text);
    vstd::utf8::encode_utf8_decode_utf8(text);
    law_hex_reads_back(bytes);
    assert forall|c: char| is_hex(c) implies !#[trigger] is_white(c) by {}
    assert(is_hex(text[0]));
    assert(is_hex(text[text.len() - 1]));
    lemma_trimmed(text, white_space(), 0, text.len() as int);
    assert(text.subrange(0, text.len() as int) =~= text);
}

/// The state of a key, from its times alone.
pub proof fn law_key_states(key: EvidenceTrustedKeyView, now: i128)
    ensures
        ({
            let state = key_status(key, now);
            let from = rfc3339_nanos(key.valid_from);
            let until = rfc3339_nanos(key.expires_at);
            let timed = from is Some && until is Some;
            &&& state == "revoked"@ <==> key.revoked_at is Some
            &&& state == "invalid_timestamp"@ <==> key.revoked_at is None && !timed
            &&& state == "not_yet_valid"@ <==> key.revoked_at is None && timed && now < from->0
            &&& state == "expired"@ <==> key.revoked_at is None && timed && from->0 <= now
                && until->0 <= now
            &&& state == "active"@ <==> key.revoked_at is None && timed && from->0 <= now
                && now < until->0
        }),
{
    reveal_strlit("revoked");
    reveal_strlit("invalid_timestamp");
    reveal_strlit("not_yet_valid");
    reveal_strlit("expired");
    reveal_strlit("active");
    assert("revoked"@[0] == 'r' && "invalid_timestamp"@[0] == 'i' && "not_yet_valid"@[0] == 'n'
        && "expired"@[0] == 'e' && "active"@[0] == 'a');
}

/// A key can be used where there is no trust store; where there is one, exactly where the
/// store has the known format, its first key of this id has the digest of the public key
/// at hand, and that key is not revoked and within its times.
pub proof fn law_which_keys_can_be_used(
    found: Result<Option<EvidenceTrustStoreView>, Seq<char>>,
    key_id: Seq<char>,
    public: Result<Seq<u8>, Seq<char>>,
    now: i128,
)
    ensures
        ({
            let state = lifecycle(found, key_id, public, now);
            let usable = state is Ok && is_usable(state->Ok_0);
            &&& found == Ok::<Option<EvidenceTrustStoreView>, Seq<char>>(None) ==> usable
            &&& found is Err ==> !usable
            &&& found matches Ok(Some(store)) ==> (usable <==> store.schema_version
                == "opsctl.evidence_trust.v1"@ && public is Ok && exists|k: int|
                0 <= k < store.keys.len() && (#[trigger] store.keys[k]).key_id == key_id
                    && store.keys[k].public_key_sha256 == sha256_hex(public->Ok_0) && key_status(
                    store.keys[k],
                    now,
                ) == "active"@ && forall|j: int|
                    0 <= j < k ==> (#[trigger] store.keys[j]).key_id != key_id)
        }),
{
    reveal_strlit("legacy");
    reveal_strlit("active");
    reveal_strlit("revoked");
    reveal_strlit("invalid_timestamp");
    reveal_strlit("not_yet_valid");
    reveal_strlit("expired");
    reveal_strlit("invalid_public_key");
    assert("legacy"@[0] == 'l' && "active"@[0] == 'a' && "revoked"@[0] == 'r'
        && "invalid_timestamp"@[0] == 'i' && "not_yet_valid"@[0] == 'n' && "expired"@[0] == 'e'
        && "invalid_public_key"@[0] == 'i');
    if let Ok(Some(store)) = found {
        let keys = store.keys;
        let p = key_named(key_id);
        law_first_where(keys, p);
        if first_where(keys, p) is Some {
            let k = choose|k: int|
                0 <= k < keys.len() && #[trigger] keys[k] == first_where(keys, p)->0 && p(keys[k])
                    && forall|j: int| 0 <= j < k ==> !p(#[trigger] keys[j]);
            assert(keys[k].key_id == key_id);
            assert forall|j: int| 0 <= j < k implies (#[trigger] keys[j]).key_id != key_id by {
                assert(!p(keys[j]));
            }
            assert forall|m: int|
                0 <= m < keys.len() && (#[trigger] keys[m]).key_id == key_id && (forall|j: int|
                    0 <= j < m ==> (#[trigger] keys[j]).key_id != key_id) implies m == k by {
                if m < k {
                    assert(keys[m].key_id != key_id);
                } else if k < m {
                    assert(keys[k].key_id != key_id);
                }
            }
        } else {
            assert forall|k: int| 0 <= k < keys.len() implies (#[trigger] keys[k]).key_id
                != key_id by {
                assert(!p(keys[k]));
            }
        }
    }
}

/// A key becomes trusted exactly where this is to be executed, its id is safe and new to
/// the store, it expires in the future, and its public key and the store could be read.
/// The store then holds one key more, which is not revoked, and keeps the others.
pub proof fn law_which_keys_become_trusted(
    state_dir: Seq<char>,
    key_id: Seq<char>,
    expires_at: Seq<char>,
    execute: bool,
    now: i128,
    public: Result<Seq<u8>, Seq<char>>,
    store: Result<EvidenceTrustStoreView, Seq<char>>,
    updated_at: Seq<char>,
    valid_from: Seq<char>,
)
    ensures
        ({
            let change = trust_change(
                state_dir,
                key_id,
                expires_at,
                execute,
                now,
                public,
                store,
                updated_at,
                valid_from,
            );
            let fine = is_safe_id(key_id) && rfc3339_nanos(expires_at) is Some && now
                < rfc3339_nanos(expires_at)->0 && public is Ok && store is Ok && forall|k: int|
                0 <= k < store->Ok_0.keys.len() ==> (#[trigger] store->Ok_0.keys[k]).key_id
                    != key_id;
            &&& change.store is Some <==> execute && fine
            &&& change.limitations.len() == 0 <==> fine
            &&& change.report is Some <==> !execute
            &&& change.report matches Some(r) ==> (r.ok <==> fine) && (r.status == "planned"@
                <==> fine) && r.read_only
            &&& change.store matches Some(s) ==> {
                &&& s.keys.drop_last() == store->Ok_0.keys
                &&& s.keys.last().key_id == key_id
                &&& s.keys.last().public_key_sha256 == sha256_hex(public->Ok_0)
                &&& s.keys.last().valid_from == valid_from
                &&& s.keys.last().expires_at == expires_at
                &&& s.keys.last().revoked_at is None
                &&& s.updated_at == updated_at
                &&& s.schema_version == store->Ok_0.schema_version
            }
        }),
{
    let keys = keys_or_none(store);
    let p = key_named(key_id);
    lemma_any(keys, p);
    if any(keys, p) {
        let k = choose|k: int| 0 <= k < keys.len() && p(#[trigger] keys[k]);
        assert(keys[k].key_id == key_id);
    } else {
        assert forall|k: int| 0 <= k < keys.len() implies (#[trigger] keys[k]).key_id != key_id by {
            assert(!p(keys[k]));
        }
    }
    reveal_strlit("planned");
    reveal_strlit("blocked");
    assert("planned"@[0] == 'p' && "blocked"@[0] == 'b');
    if trust_limitations(key_id, expires_at, now, public, store).len() == 0 && execute {
        let s = with_trusted_key(
            store->Ok_0,
            key_id,
            expires_at,
            public->Ok_0,
            updated_at,
            valid_from,
        );
        assert(s.keys.drop_last() =~= store->Ok_0.keys);
    }
}

/// A key is revoked exactly where this is to be executed, its id is safe, the reason has
/// one line of 1 to 256 bytes, and the store could be read and holds the key, not yet
/// revoked. The first key of that id is then revoked, and nothing else changes in it or in
/// the others.
pub proof fn law_which_keys_are_revoked(
    state_dir: Seq<char>,
    key_id: Seq<char>,
    reason: Option<Seq<char>>,
    execute: bool,
    store: Result<EvidenceTrustStoreView, Seq<char>>,
    revoked_at: Seq<char>,
    updated_at: Seq<char>,
)
    ensures
        ({
            let change = revoke_change(
                state_dir,
                key_id,
                reason,
                execute,
                store,
                revoked_at,
                updated_at,
            );
            let keys = store->Ok_0.keys;
            let fine = is_safe_id(key_id) && reason is Some && 0 < reason->0.len() && byte_len(
                reason->0,
            ) <= 256 && !reason->0.contains('\n') && !reason->0.contains('\r') && store is Ok
                && exists|k: int|
                0 <= k < keys.len() && (#[trigger] keys[k]).key_id == key_id && keys[k].revoked_at
                    is None && forall|j: int| 0 <= j < k ==> (#[trigger] keys[j]).key_id != key_id;
            &&& change.store is Some <==> execute && fine
            &&& change.report is Some <==> !execute
            &&& change.report matches Some(r) ==> (r.ok <==> fine) && (r.status == "planned"@
                <==> fine)
            &&& change.store matches Some(s) ==> s.keys.len() == keys.len() && exists|k: int|
                0 <= k < keys.len() && (#[trigger] keys[k]).key_id == key_id && s.keys[k].revoked_at
                    == Some(revoked_at) && s.keys[k].revocation_reason == reason && s.keys[k].key_id
                    == key_id && s.keys[k].public_key_sha256 == keys[k].public_key_sha256
                    && s.keys[k].valid_from == keys[k].valid_from && s.keys[k].expires_at
                    == keys[k].expires_at && forall|j: int|
                    0 <= j < keys.len() && j != k ==> #[trigger] s.keys[j] == keys[j]
        }),
{
    let keys = keys_or_none(store);
    let p = key_named(key_id);
    law_first_where(keys, p);
    law_first_index(keys, p);
    reveal_strlit("planned");
    reveal_strlit("blocked");
    assert("planned"@[0] == 'p' && "blocked"@[0] == 'b');
    if first_where(keys, p) is Some {
        let k = choose|k: int|
            0 <= k < keys.len() && #[trigger] keys[k] == first_where(keys, p)->0 && p(keys[k])
                && forall|j: int| 0 <= j < k ==> !p(#[trigger] keys[j]);
        assert(keys[k].key_id == key_id);
        let i = first_index(keys, p);
        if i < k {
            assert(!p(keys[i]));
        } else if k < i {
            assert(!p(keys[k]));
        }
        assert forall|j: int| 0 <= j < k implies (#[trigger] keys[j]).key_id != key_id by {
            assert(!p(keys[j]));
        }
        assert forall|m: int|
            0 <= m < keys.len() && (#[trigger] keys[m]).key_id == key_id && (forall|j: int|
                0 <= j < m ==> (#[trigger] keys[j]).key_id != key_id) implies m == k by {
            if m < k {
                assert(keys[m].key_id != key_id);
            } else if k < m {
                assert(keys[k].key_id != key_id);
            }
        }
    } else {
        assert forall|k: int| 0 <= k < keys.len() implies (#[trigger] keys[k]).key_id != key_id by {
            assert(!p(keys[k]));
        }
    }
}

/// A secret is read only from a file that neither its group nor others have any right to,
/// and whose content is its hex text.
pub proof fn law_secrets_are_private(
    mode: Result<u32, Seq<char>>,
    content: Result<Seq<u8>, Seq<char>>,
    words: Seq<char>,
)
    ensures
        secret_in(mode, content, words) is Ok <==> mode is Ok && mode->Ok_0 & 0o077 == 0 && content
            is Ok && valid_utf8(content->Ok_0) && is_hex_of_size(
            trimmed(decode_utf8(content->Ok_0)),
            32,
        ),
        secret_in(mode, content, words) is Ok ==> secret_in(mode, content, words)->Ok_0 == unhex(
            trimmed(decode_utf8(content->Ok_0)),
            32,
        ),
{
}

/// A credential is read exactly where its name is safe, the directory is known, absolute
/// and a directory, and the file stands directly in it.
pub proof fn law_which_credentials_are_read(
    name: Seq<char>,
    directory: Option<Seq<char>>,
    entry: Result<EntryKind, Seq<char>>,
)
    ensures
        credential_refused(name, directory, entry) is None <==> is_safe_id(name) && directory
            is Some && entry == Ok::<EntryKind, Seq<char>>(EntryKind::Dir) && is_absolute_spec(
            directory->0,
        ) && parent_spec(path_joined(directory->0, name)) is Some && same_path_spec(
            parent_spec(path_joined(directory->0, name))->0,
            directory->0,
        ),
{
}

/// A key is made exactly where its id is safe and new; the report says so.
pub proof fn law_new_keys(
    state_dir: Seq<char>,
    key_id: Seq<char>,
    taken: bool,
    execute: bool,
    fingerprint: Option<Seq<char>>,
)
    ensures
        ({
            let r = key_report(
                state_dir,
                key_id,
                execute,
                fingerprint,
                key_limitations(key_id, taken),
            );
            &&& r.ok <==> is_safe_id(key_id) && !taken
            &&& r.status == "blocked"@ <==> !r.ok
            &&& r.status == "created"@ <==> r.ok && execute
            &&& r.status == "planned"@ <==> r.ok && !execute
            &&& r.read_only <==> !execute
            &&& r.fingerprint_sha256 == fingerprint
            &&& r.key_id == key_id
        }),
{
    reveal_strlit("blocked");
    reveal_strlit("created");
    reveal_strlit("planned");
    assert("blocked"@[0] == 'b' && "created"@[0] == 'c' && "planned"@[0] == 'p');
}

/// A secret can be used exactly where it and the trusted public key could be read, and
/// the public key is the secret's own.
pub proof fn law_which_secrets_can_be_used(
    secret: Result<Seq<u8>, Seq<char>>,
    trusted: Result<Seq<u8>, Seq<char>>,
)
    ensures
        usable_secret(secret, trusted) is Ok <==> secret is Ok && trusted is Ok && public_key_of(
            secret->Ok_0,
        ) == trusted->Ok_0,
        usable_secret(secret, trusted) is Ok ==> usable_secret(secret, trusted) == secret,
{
}

/// A report on trust is fine exactly where nothing stood against it, the store could be
/// read, the key that was asked for is in it, and each key that is shown is active. It
/// shows the keys of the id that was asked for, or all.
pub proof fn law_trust_reports(
    state_dir: Seq<char>,
    key_id: Option<Seq<char>>,
    read_only: bool,
    limitations: Seq<Seq<char>>,
    store: Result<EvidenceTrustStoreView, Seq<char>>,
    now: i128,
    k: int,
)
    ensures
        ({
            let r = trust_report_of(state_dir, key_id, read_only, limitations, store, now);
            let keys = store->Ok_0.keys;
            &&& r.ok ==> limitations.len() == 0 && store is Ok && (key_id is Some ==> exists|i: int|
                0 <= i < keys.len() && (#[trigger] keys[i]).key_id == key_id->0) && forall|i: int|
                0 <= i < keys.len() && (key_id is None || (#[trigger] keys[i]).key_id == key_id->0)
                    ==> key_status(#[trigger] keys[i], now) == "active"@
            &&& limitations.len() == 0 && store is Ok && (key_id is Some ==> exists|i: int|
                0 <= i < keys.len() && (#[trigger] keys[i]).key_id == key_id->0) && (forall|i: int|
                0 <= i < keys.len() && (key_id is None || (#[trigger] keys[i]).key_id == key_id->0)
                    ==> key_status(#[trigger] keys[i], now) == "active"@) ==> r.ok
            &&& store is Ok && 0 <= k < keys.len() && (key_id is None || keys[k].key_id
                == key_id->0) ==> exists|i: int|
                0 <= i < r.keys.len() && (#[trigger] r.keys[i]).key_id == keys[k].key_id
                    && r.keys[i].status == key_status(keys[k], now) && r.keys[i].revoked_at
                    == keys[k].revoked_at
            &&& r.status == "blocked"@ <==> !r.ok
            &&& r.status == "legacy"@ <==> r.ok && keys.len() == 0
        }),
{
    let stored = keys_or_none(store);
    let r = trust_report_of(state_dir, key_id, read_only, limitations, store, now);
    let f = wanted_entry(key_id, now);
    let p = entry_is_inactive();
    lemma_any(r.keys, p);
    reveal_strlit("blocked");
    reveal_strlit("legacy");
    reveal_strlit("active");
    assert("blocked"@[0] == 'b' && "legacy"@[0] == 'l' && "active"@[0] == 'a');
    assert forall|i: int|
        0 <= i < stored.len() && (key_id is None || stored[i].key_id == key_id->0) implies exists|
        m: int,
    |
        0 <= m < r.keys.len() && r.keys[m] == key_entry(now)(#[trigger] stored[i]) by {
        let e = key_entry(now)(stored[i]);
        law_chosen(stored, f, e);
        assert(f(stored[i]) == Some(e));
        assert(r.keys.contains(e));
    }
    assert forall|m: int| 0 <= m < r.keys.len() implies exists|i: int|
        0 <= i < stored.len() && (key_id is None || stored[i].key_id == key_id->0) && key_entry(
            now,
        )(#[trigger] stored[i]) == #[trigger] r.keys[m] by {
        law_chosen(stored, f, r.keys[m]);
        assert(r.keys.contains(r.keys[m]));
        let i = choose|i: int| 0 <= i < stored.len() && f(#[trigger] stored[i]) == Some(r.keys[m]);
        assert(key_entry(now)(stored[i]) == r.keys[m]);
    }
    if r.ok {
        assert forall|i: int|
            0 <= i < stored.len() && (key_id is None || (#[trigger] stored[i]).key_id
                == key_id->0) implies key_status(#[trigger] stored[i], now) == "active"@ by {
            let m = choose|m: int|
                0 <= m < r.keys.len() && r.keys[m] == key_entry(now)(stored[i]);
            assert(!p(r.keys[m]));
        }
        if key_id is Some {
            let i = choose|i: int|
                0 <= i < stored.len() && (key_id is None || stored[i].key_id == key_id->0)
                    && key_entry(now)(#[trigger] stored[i]) == r.keys[0];
            assert(stored[i].key_id == key_id->0);
        }
    }
    if limitations.len() == 0 && store is Ok && (key_id is Some ==> exists|i: int|
        0 <= i < stored.len() && (#[trigger] stored[i]).key_id == key_id->0) && (forall|i: int|
        0 <= i < stored.len() && (key_id is None || (#[trigger] stored[i]).key_id == key_id->0)
            ==> key_status(#[trigger] stored[i], now) == "active"@) {
        assert forall|m: int| 0 <= m < r.keys.len() implies !p(#[trigger] r.keys[m]) by {
            let i = choose|i: int|
                0 <= i < stored.len() && (key_id is None || stored[i].key_id == key_id->0)
                    && key_entry(now)(#[trigger] stored[i]) == r.keys[m];
            assert(key_status(stored[i], now) == "active"@);
        }
        if key_id is Some {
            let i = choose|i: int|
                0 <= i < stored.len() && (#[trigger] stored[i]).key_id == key_id->0;
            let m = choose|m: int|
                0 <= m < r.keys.len() && r.keys[m] == key_entry(now)(stored[i]);
            assert(r.keys.len() > 0);
        }
    }
}

/// A trust store is read exactly where it is not there, and then is a new one without keys,
/// or has the known format.
pub proof fn law_which_stores_are_read(
    found: Result<Option<EvidenceTrustStoreView>, Seq<char>>,
    stamp: Seq<char>,
)
    ensures
        ({
            let r = store_in(found, stamp);
            &&& found is Err ==> r is Err
            &&& found == Ok::<Option<EvidenceTrustStoreView>, Seq<char>>(None) ==> r is Ok
                && r->Ok_0.keys.len() == 0 && r->Ok_0.schema_version == "opsctl.evidence_trust.v1"@
                && r->Ok_0.updated_at == stamp
            &&& found matches Ok(Some(store)) ==> (r is Ok <==> store.schema_version
                == "opsctl.evidence_trust.v1"@) && (r is Ok ==> r->Ok_0 == store)
        }),
{
}

/// A key that was revoked is reported as revoked, and fine, exactly where nothing stood
/// against it.
pub proof fn law_revocations_are_reported(
    state_dir: Seq<char>,
    key_id: Seq<char>,
    limitations: Seq<Seq<char>>,
    store: Result<EvidenceTrustStoreView, Seq<char>>,
    now: i128,
)
    ensures
        ({
            let r = revoke_report(state_dir, key_id, limitations, store, now);
            &&& r.ok <==> limitations.len() == 0
            &&& r.status == "revoked"@ <==> limitations.len() == 0
            &&& r.key_id == Some(key_id)
            &&& !r.read_only
        }),
{
    reveal_strlit("revoked");
    reveal_strlit("blocked");
    assert("revoked"@[0] == 'r' && "blocked"@[0] == 'b');
}

} // verus!
