//! The documents that operators edit, as they are read from files.

use vstd::prelude::*;
use crate::drift::candidates::{LoadedRequest, LoadedRequestView};
use crate::drift::review::{LoadedReview, LoadedReviewView};
use crate::drift::types::{
    DriftCleanupRequestDocument, DriftCleanupRequestDocumentView, DriftReviewDocument,
    DriftReviewDocumentView,
};
use crate::entries::EntryKind;
use crate::number::{decimal, decimal_text};
use crate::text::{cat2, cat3, cat4};

verus! {

broadcast use {vstd::seq::group_seq_axioms, vstd::string::group_string_axioms};

/// The most bytes that a review or a cleanup request may have.
pub const MAX_DRIFT_REVIEW_FILE_BYTES: u64 = 1048576;

/// Why a document cannot be read: it is a link, no file, or too long. `what` names
/// the document.
pub open spec fn document_refused(
    what: Seq<char>,
    path: Seq<char>,
    kind: EntryKind,
    size: u64,
) -> Option<Seq<char>> {
    if kind == EntryKind::Symlink {
        Some("refusing to read symlinked "@ + what + " file: "@ + path)
    } else if kind != EntryKind::File {
        Some(what + " path is not a file: "@ + path)
    } else if size > MAX_DRIFT_REVIEW_FILE_BYTES {
        Some(what + " file is too large: "@ + decimal(size as nat) + " bytes"@)
    } else {
        None
    }
}

/// Why a document cannot be read, if it cannot.
pub fn refuse_document(what: &str, path: &str, kind: EntryKind, size: u64) -> (r: Option<String>)
    ensures
        r.deep_view() == document_refused(what@, path@, kind, size),
{
    if kind == EntryKind::Symlink {
        Some(cat4("refusing to read symlinked ", what, " file: ", path))
    } else if kind != EntryKind::File {
        Some(cat3(what, " path is not a file: ", path))
    } else if size > MAX_DRIFT_REVIEW_FILE_BYTES {
        Some(cat4(what, " file is too large: ", &decimal_text(size), " bytes"))
    } else {
        None
    }
}

/// Why there is no document: the entry could not be looked at or is refused, or the
/// file could not be read or parsed.
pub open spec fn document_error<T>(
    what: Seq<char>,
    path: Seq<char>,
    entry: Option<(EntryKind, u64)>,
    raw: bool,
    document: Option<T>,
) -> Option<Seq<char>> {
    match entry {
        None => Some("failed to inspect "@ + path),
        Some((kind, size)) => match document_refused(what, path, kind, size) {
            Some(words) => Some(words),
            None => if !raw {
                Some("failed to read "@ + what + " file "@ + path)
            } else if document is None {
                Some("failed to parse "@ + what + " file "@ + path)
            } else {
                None
            },
        },
    }
}

/// Why there is no document, if there is none.
pub fn find_document_error(
    what: &str,
    path: &str,
    entry: Option<(EntryKind, u64)>,
    raw: bool,
    parsed: bool,
) -> (r: Option<String>)
    ensures
        r.deep_view() == document_error(
            what@,
            path@,
            entry,
            raw,
            if parsed {
                Some(())
            } else {
                None
            },
        ),
{
    match entry {
        None => Some(cat2("failed to inspect ", path)),
        Some((kind, size)) => {
            let refused = refuse_document(what, path, kind, size);
            if refused.is_some() {
                refused
            } else if !raw {
                Some(cat4("failed to read ", what, " file ", path))
            } else if !parsed {
                Some(cat4("failed to parse ", what, " file ", path))
            } else {
                None
            }
        },
    }
}

/// A cleanup request as read: `entry` is what the path leads to and how long it is,
/// `raw` whether the file could be read, `document` what its text says.
pub open spec fn request_read(
    path: Seq<char>,
    entry: Option<(EntryKind, u64)>,
    raw: bool,
    document: Option<DriftCleanupRequestDocumentView>,
) -> LoadedRequestView {
    match document_error("drift cleanup request"@, path, entry, raw, document) {
        Some(words) => LoadedRequestView { path, document: None, error: words },
        None => LoadedRequestView { path, document, error: Seq::empty() },
    }
}

/// A cleanup request as read from its file.
pub fn read_drift_cleanup_request_document(
    path: &str,
    entry: Option<(EntryKind, u64)>,
    raw: bool,
    document: Option<DriftCleanupRequestDocument>,
) -> (r: LoadedRequest)
    ensures
        r.deep_view() == request_read(path@, entry, raw, document.deep_view()),
{
    match find_document_error("drift cleanup request", path, entry, raw, document.is_some()) {
        Some(words) => LoadedRequest { path: path.to_string(), document: None, error: words },
        None => LoadedRequest { path: path.to_string(), document, error: String::new() },
    }
}

/// A review as read: `entry` is what the path leads to and how long it is, `raw`
/// whether the file could be read, `document` what its text says.
pub open spec fn review_read(
    path: Seq<char>,
    entry: Option<(EntryKind, u64)>,
    raw: bool,
    document: Option<DriftReviewDocumentView>,
) -> LoadedReviewView {
    match document_error("drift review"@, path, entry, raw, document) {
        Some(words) => LoadedReviewView { path, document: None, error: words },
        None => LoadedReviewView { path, document, error: Seq::empty() },
    }
}

/// A review as read from its file.
pub fn read_drift_review_document(
    path: &str,
    entry: Option<(EntryKind, u64)>,
    raw: bool,
    document: Option<DriftReviewDocument>,
) -> (r: LoadedReview)
    ensures
        r.deep_view() == review_read(path@, entry, raw, document.deep_view()),
{
    match find_document_error("drift review", path, entry, raw, document.is_some()) {
        Some(words) => LoadedReview { path: path.to_string(), document: None, error: words },
        None => LoadedReview { path: path.to_string(), document, error: String::new() },
    }
}

// ---------------------------------------------------------------------------
// Laws
// ---------------------------------------------------------------------------

/// What a cleanup request says is used only where its path leads to a file that is
/// no link and not too long.
pub proof fn law_only_plain_files_are_read(
    path: Seq<char>,
    entry: Option<(EntryKind, u64)>,
    raw: bool,
    document: Option<DriftCleanupRequestDocumentView>,
)
    ensures
        request_read(path, entry, raw, document).document is Some ==> {
            &&& entry matches Some((kind, size))
            &&& kind == EntryKind::File
            &&& size <= MAX_DRIFT_REVIEW_FILE_BYTES
            &&& raw
        },
{
}

/// A document is read exactly where it is a regular file of at most a mebibyte, no link,
/// and could be read and parsed; it is then handed out as it is.
pub proof fn law_which_documents_are_read(
    path: Seq<char>,
    entry: Option<(EntryKind, u64)>,
    raw: bool,
    request: Option<DriftCleanupRequestDocumentView>,
    review: Option<DriftReviewDocumentView>,
)
    ensures
        ({
            let fine = raw && match entry {
                Some((kind, size)) => kind == EntryKind::File && size <= 1048576,
                None => false,
            };
            &&& request_read(path, entry, raw, request).document == if fine {
                request
            } else {
                None
            }
            &&& request_read(path, entry, raw, request).path == path
            &&& review_read(path, entry, raw, review).document == if fine {
                review
            } else {
                None
            }
            &&& review_read(path, entry, raw, review).path == path
        }),
{
}

} // verus!
