//! Where evidence is kept, and what is refused there.

use vstd::prelude::*;
use crate::entries::EntryKind;
use crate::hex::{hex_encode, hex_of};
use crate::list::put;
use crate::outside::{sha256, sha256_digest};
use crate::paths::{file_name_spec, law_joined_paths, path_join, path_joined, within};
use crate::text::{byte_len, byte_size, cat2};
use crate::words::{only_plain_chars, plain_char};

verus! {

broadcast use {vstd::seq::group_seq_axioms, vstd::string::group_string_axioms};

/// The largest artifact that is read, in bytes.
pub const MAX_ARTIFACT_BYTES: u64 = 67108864;

/// The largest audit journal that is read, in bytes.
pub const MAX_AUDIT_BYTES: u64 = 134217728;

/// The largest trust store that is read, in bytes.
pub const MAX_TRUST_BYTES: u64 = 1048576;

/// The largest key file that is read, in bytes.
pub const MAX_KEY_BYTES: u64 = 256;

/// What an operation gave, or the words of its error.
pub open spec fn seen<T: DeepView>(outcome: Result<T, String>) -> Result<T::V, Seq<char>> {
    match outcome {
        Ok(value) => Ok(value.deep_view()),
        Err(words) => Err(words@),
    }
}

/// What was read from a file, or the words of the error.
pub open spec fn bytes_seen(outcome: Result<Vec<u8>, String>) -> Result<Seq<u8>, Seq<char>> {
    match outcome {
        Ok(bytes) => Ok(bytes@),
        Err(words) => Err(words@),
    }
}

/// Whether something was done, or the words of the error.
pub open spec fn done_seen(outcome: Result<(), String>) -> Result<(), Seq<char>> {
    match outcome {
        Ok(_) => Ok(()),
        Err(words) => Err(words@),
    }
}

/// The words of an error, if there is one.
pub open spec fn failure<T>(outcome: Result<T, Seq<char>>) -> Seq<Seq<char>> {
    match outcome {
        Ok(_) => Seq::empty(),
        Err(words) => seq![words],
    }
}

/// Adds the words of an error, if there is one.
pub fn note_failure<T>(list: &mut Vec<String>, outcome: &Result<T, String>)
    ensures
        final(list).deep_view() == old(list).deep_view() + (match *outcome {
            Ok(_) => Seq::empty(),
            Err(words) => seq![words@],
        }),
{
    match outcome {
        Ok(_) => {
            proof {
                assert(list.deep_view() =~= old(list).deep_view() + Seq::<Seq<char>>::empty());
            }
        },
        Err(words) => {
            put(list, words);
            proof {
                assert(list.deep_view() =~= old(list).deep_view() + seq![words@]);
            }
        },
    }
}

/// Whether a text can name a key.
pub open spec fn is_safe_id(value: Seq<char>) -> bool {
    value.len() > 0 && byte_len(value) <= 64 && forall|i: int|
        0 <= i < value.len() ==> plain_char(#[trigger] value[i])
}

/// Whether a text can name a key.
pub fn safe_id(value: &str) -> (r: bool)
    ensures
        r == is_safe_id(value@),
{
    !value.is_empty() && byte_size(value) <= 64 && only_plain_chars(value)
}

/// Where the detached signature of an artifact is kept.
pub open spec fn signature_path_spec(artifact: Seq<char>) -> Seq<char> {
    artifact + ".sig.json"@
}

/// Where the detached signature of an artifact is kept.
pub fn signature_path(artifact: &str) -> (r: String)
    ensures
        r@ == signature_path_spec(artifact@),
{
    cat2(artifact, ".sig.json")
}

/// Where the audit chain is kept.
pub open spec fn audit_path(state_dir: Seq<char>) -> Seq<char> {
    path_joined(state_dir, "evidence-audit-chain.jsonl"@)
}

/// Where the audit chain is kept.
pub fn audit_journal_path(state_dir: &str) -> (r: String)
    ensures
        r@ == audit_path(state_dir@),
{
    path_join(state_dir, "evidence-audit-chain.jsonl")
}

/// Where the keys are kept.
pub open spec fn keys_path(state_dir: Seq<char>) -> Seq<char> {
    path_joined(state_dir, "evidence-keys"@)
}

/// Where the keys are kept.
pub fn key_directory(state_dir: &str) -> (r: String)
    ensures
        r@ == keys_path(state_dir@),
{
    path_join(state_dir, "evidence-keys")
}

/// Where a private key is kept.
pub open spec fn private_key_path_spec(state_dir: Seq<char>, key_id: Seq<char>) -> Seq<char> {
    path_joined(keys_path(state_dir), key_id + ".private"@)
}

/// Where a private key is kept.
pub fn private_key_path(state_dir: &str, key_id: &str) -> (r: String)
    ensures
        r@ == private_key_path_spec(state_dir@, key_id@),
{
    path_join(&key_directory(state_dir), &cat2(key_id, ".private"))
}

/// Where a public key is kept.
pub open spec fn public_key_path_spec(state_dir: Seq<char>, key_id: Seq<char>) -> Seq<char> {
    path_joined(keys_path(state_dir), key_id + ".public"@)
}

/// Where a public key is kept.
pub fn public_key_path(state_dir: &str, key_id: &str) -> (r: String)
    ensures
        r@ == public_key_path_spec(state_dir@, key_id@),
{
    path_join(&key_directory(state_dir), &cat2(key_id, ".public"))
}

/// Where the trust store is kept.
pub open spec fn trust_path(state_dir: Seq<char>) -> Seq<char> {
    path_joined(state_dir, "evidence-trust.json"@)
}

/// Where the trust store is kept.
pub fn trust_store_path(state_dir: &str) -> (r: String)
    ensures
        r@ == trust_path(state_dir@),
{
    path_join(state_dir, "evidence-trust.json")
}

/// The SHA-256 digest of bytes, in hexadecimal.
pub open spec fn sha256_hex(bytes: Seq<u8>) -> Seq<char> {
    hex_of(sha256(bytes))
}

/// The SHA-256 digest of bytes, in hexadecimal.
pub fn sha256_bytes(bytes: &[u8]) -> (r: String)
    ensures
        r@ == sha256_hex(bytes@),
{
    let digest = sha256_digest(bytes);
    hex_encode(digest.as_slice())
}

/// The digest of what was read from a file.
pub open spec fn content_digest(content: Result<Seq<u8>, Seq<char>>) -> Result<
    Seq<char>,
    Seq<char>,
> {
    match content {
        Ok(bytes) => Ok(sha256_hex(bytes)),
        Err(words) => Err(words),
    }
}

/// The digest of what was read from a file.
pub fn sha256_file(content: &Result<Vec<u8>, String>) -> (r: Result<String, String>)
    ensures
        seen(r) == content_digest(bytes_seen(*content)),
{
    match content {
        Ok(bytes) => Ok(sha256_bytes(bytes.as_slice())),
        Err(words) => Err(words.clone()),
    }
}

/// Why a file is not read: it is no regular file, or it is too large.
pub fn refuse_unsafe_file(path: &str, kind: EntryKind, size: u64, max_bytes: u64) -> (r: Option<
    String,
>)
    ensures
        r.deep_view() == (if kind != EntryKind::File || size > max_bytes {
            Some("file is unsafe or too large: "@ + path@)
        } else {
            None
        }),
{
    if kind != EntryKind::File || size > max_bytes {
        Some(cat2("file is unsafe or too large: ", path))
    } else {
        None
    }
}

/// Why nothing is appended to the audit journal: what is there is no regular file,
/// or it is too large.
pub fn refuse_audit_journal(path: &str, entry: Option<(EntryKind, u64)>) -> (r: Option<String>)
    ensures
        r.deep_view() == (match entry {
            Some((kind, size)) => if kind != EntryKind::File || size > MAX_AUDIT_BYTES {
                Some("audit journal is unsafe or oversized: "@ + path@)
            } else {
                None
            },
            None => None,
        }),
{
    match entry {
        Some((kind, size)) => if kind != EntryKind::File || size > MAX_AUDIT_BYTES {
            Some(cat2("audit journal is unsafe or oversized: ", path))
        } else {
            None
        },
        None => None,
    }
}

/// Why a path is not used: one of the directories that lead to it is a link.
pub open spec fn ancestors_refused(path: Seq<char>, ancestors: Seq<EntryKind>) -> Option<
    Seq<char>,
> {
    if ancestors.contains(EntryKind::Symlink) {
        Some("path contains a symbolic-link ancestor: "@ + path)
    } else {
        None
    }
}

/// Why a path is not used: one of the directories that lead to it is a link.
pub fn refuse_ancestors(path: &str, ancestors: &Vec<EntryKind>) -> (r: Option<String>)
    ensures
        r.deep_view() == ancestors_refused(path@, ancestors@),
{
    let mut i: usize = 0;
    while i < ancestors.len()
        invariant
            i <= ancestors@.len(),
            forall|j: int| 0 <= j < i ==> ancestors@[j] != EntryKind::Symlink,
        decreases ancestors@.len() - i,
    {
        if ancestors[i] == EntryKind::Symlink {
            return Some(cat2("path contains a symbolic-link ancestor: ", path));
        }
        i = i + 1;
    }
    None
}

/// Why a directory is not made or used. One that is missing can be made.
pub fn refuse_managed_directory(
    path: &str,
    ancestors: &Vec<EntryKind>,
    entry: Option<EntryKind>,
) -> (r: Option<String>)
    ensures
        r.deep_view() == (if ancestors_refused(path@, ancestors@) is Some {
            ancestors_refused(path@, ancestors@)
        } else if entry is Some && entry->0 != EntryKind::Dir {
            Some("directory is unsafe: "@ + path@)
        } else {
            None
        }),
{
    let links = refuse_ancestors(path, ancestors);
    if links.is_some() {
        return links;
    }
    match entry {
        Some(kind) => if kind != EntryKind::Dir {
            Some(cat2("directory is unsafe: ", path))
        } else {
            None
        },
        None => None,
    }
}

/// Why nothing is written into a directory.
pub fn refuse_output_parent(
    path: &str,
    ancestors: &Vec<EntryKind>,
    entry: Option<EntryKind>,
) -> (r: Option<String>)
    ensures
        r.deep_view() == (if ancestors_refused(path@, ancestors@) is Some {
            ancestors_refused(path@, ancestors@)
        } else if entry is None {
            Some("output parent does not exist: "@ + path@)
        } else if entry->0 != EntryKind::Dir {
            Some("output parent is unsafe: "@ + path@)
        } else {
            None
        }),
{
    let links = refuse_ancestors(path, ancestors);
    if links.is_some() {
        return links;
    }
    match entry {
        Some(kind) => if kind != EntryKind::Dir {
            Some(cat2("output parent is unsafe: ", path))
        } else {
            None
        },
        None => Some(cat2("output parent does not exist: ", path)),
    }
}

/// A text can name a key exactly where it is one to 64 bytes of small letters, digits,
/// hyphens and underscores.
pub proof fn law_safe_ids(id: Seq<char>)
    ensures
        is_safe_id(id) <==> 0 < id.len() && byte_len(id) <= 64 && forall|i: int|
            0 <= i < id.len() ==> 'a' <= #[trigger] id[i] <= 'z' || '0' <= id[i] <= '9' || id[i]
                == '-' || id[i] == '_',
{
    if forall|i: int| 0 <= i < id.len() ==> plain_char(#[trigger] id[i]) {
        assert forall|i: int| 0 <= i < id.len() implies 'a' <= #[trigger] id[i] <= 'z' || '0'
            <= id[i] <= '9' || id[i] == '-' || id[i] == '_' by {
            assert(plain_char(id[i]));
        }
    }
    if forall|i: int|
        0 <= i < id.len() ==> 'a' <= #[trigger] id[i] <= 'z' || '0' <= id[i] <= '9' || id[i] == '-'
            || id[i] == '_' {
        assert forall|i: int| 0 <= i < id.len() implies plain_char(#[trigger] id[i]) by {}
    }
}

/// A path is refused exactly where one of its ancestors is a symbolic link.
pub proof fn law_symlinked_paths_are_refused(path: Seq<char>, ancestors: Seq<EntryKind>)
    ensures
        ancestors_refused(path, ancestors) is Some <==> exists|i: int|
            0 <= i < ancestors.len() && #[trigger] ancestors[i] == EntryKind::Symlink,
{
    if ancestors.contains(EntryKind::Symlink) {
        let i = choose|i: int| 0 <= i < ancestors.len() && ancestors[i] == EntryKind::Symlink;
        assert(ancestors[i] == EntryKind::Symlink);
    }
}

/// Where the evidence of a state directory stands: the chain, the store, and each key's two
/// files, all below it; a signature stands beside what it signs.
pub proof fn law_where_evidence_stands(
    state_dir: Seq<char>,
    key_id: Seq<char>,
    artifact: Seq<char>,
)
    requires
        state_dir.len() > 0,
        is_safe_id(key_id),
    ensures
        file_name_spec(audit_path(state_dir)) == Some("evidence-audit-chain.jsonl"@),
        within(audit_path(state_dir), state_dir),
        file_name_spec(trust_path(state_dir)) == Some("evidence-trust.json"@),
        within(trust_path(state_dir), state_dir),
        file_name_spec(private_key_path_spec(state_dir, key_id)) == Some(key_id + ".private"@),
        file_name_spec(public_key_path_spec(state_dir, key_id)) == Some(key_id + ".public"@),
        within(private_key_path_spec(state_dir, key_id), keys_path(state_dir)),
        within(public_key_path_spec(state_dir, key_id), keys_path(state_dir)),
        within(keys_path(state_dir), state_dir),
        signature_path_spec(artifact) == artifact + ".sig.json"@,
{
    reveal_strlit("evidence-audit-chain.jsonl");
    reveal_strlit("evidence-trust.json");
    reveal_strlit("evidence-keys");
    reveal_strlit(".private");
    reveal_strlit(".public");
    law_safe_ids(key_id);
    lemma_plain_file("evidence-audit-chain.jsonl"@);
    lemma_plain_file("evidence-trust.json"@);
    lemma_plain_file("evidence-keys"@);
    law_joined_paths(state_dir, "evidence-audit-chain.jsonl"@);
    law_joined_paths(state_dir, "evidence-trust.json"@);
    law_joined_paths(state_dir, "evidence-keys"@);
    let private = key_id + ".private"@;
    let public = key_id + ".public"@;
    assert(private.len() > 2 && public.len() > 2);
    assert(!private.contains('/')) by {
        if private.contains('/') {
            let k = choose|k: int| 0 <= k < private.len() && private[k] == '/';
            if k < key_id.len() {
                assert(key_id[k] == '/');
            } else {
                assert(".private"@[k - key_id.len()] == '/');
            }
        }
    }
    assert(!public.contains('/')) by {
        if public.contains('/') {
            let k = choose|k: int| 0 <= k < public.len() && public[k] == '/';
            if k < key_id.len() {
                assert(key_id[k] == '/');
            } else {
                assert(".public"@[k - key_id.len()] == '/');
            }
        }
    }
    law_joined_paths(keys_path(state_dir), private);
    law_joined_paths(keys_path(state_dir), public);
}

proof fn lemma_plain_file(name: Seq<char>)
    requires
        name.len() > 2,
        forall|i: int| 0 <= i < name.len() ==> name[i] != '/',
    ensures
        !name.contains('/'),
        name != seq!['.'],
        name != seq!['.', '.'],
{
}

} // verus!
