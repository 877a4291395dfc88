//! What paths lead to, and what is refused there.

use vstd::prelude::*;
use crate::text::{cat3, cat4};

verus! {

broadcast use {vstd::seq::group_seq_axioms, vstd::string::group_string_axioms};

/// What an entry of a directory is. A link is not followed.
#[derive(Debug, Clone, Copy, PartialEq, Eq, Structural)]
pub enum EntryKind {
    Symlink,
    Dir,
    File,
    Other,
}

/// What is refused about an entry, if there is one: a link, or something else than
/// what is wanted.
pub open spec fn refused(
    entry: Option<EntryKind>,
    wanted: EntryKind,
    link: Seq<char>,
    other: Seq<char>,
) -> Option<Seq<char>> {
    match entry {
        Some(kind) => if kind == EntryKind::Symlink {
            Some(link)
        } else if kind != wanted {
            Some(other)
        } else {
            None
        },
        None => None,
    }
}

/// What is refused about an entry, if there is one.
pub fn refuse(entry: Option<EntryKind>, wanted: EntryKind, link: String, other: String) -> (r:
    Option<String>)
    ensures
        r.deep_view() == refused(entry, wanted, link@, other@),
{
    match entry {
        Some(kind) => if kind == EntryKind::Symlink {
            Some(link)
        } else if kind != wanted {
            Some(other)
        } else {
            None
        },
        None => None,
    }
}

/// Why a directory cannot be used. One that is missing can be made.
pub fn refuse_directory(entry: Option<EntryKind>, label: &str, path: &str) -> (r: Option<String>)
    ensures
        r.deep_view() == refused(
            entry,
            EntryKind::Dir,
            "refusing "@ + label@ + " symlink: "@ + path@,
            label@ + " is not a directory: "@ + path@,
        ),
{
    refuse(
        entry,
        EntryKind::Dir,
        cat4("refusing ", label, " symlink: ", path),
        cat3(label, " is not a directory: ", path),
    )
}

/// Why a file cannot be written. One that is missing can be.
pub fn refuse_file_write(entry: Option<EntryKind>, label: &str, path: &str) -> (r: Option<String>)
    ensures
        r.deep_view() == refused(
            entry,
            EntryKind::File,
            "refusing to write "@ + label@ + " symlink: "@ + path@,
            label@ + " is not a regular file: "@ + path@,
        ),
{
    refuse(
        entry,
        EntryKind::File,
        cat4("refusing to write ", label, " symlink: ", path),
        cat3(label, " is not a regular file: ", path),
    )
}

/// Why a file cannot be read.
pub fn refuse_file_read(entry: EntryKind, label: &str, path: &str) -> (r: Option<String>)
    ensures
        r.deep_view() == refused(
            Some(entry),
            EntryKind::File,
            "refusing to read "@ + label@ + " symlink: "@ + path@,
            label@ + " is not a regular file: "@ + path@,
        ),
{
    refuse(
        Some(entry),
        EntryKind::File,
        cat4("refusing to read ", label, " symlink: ", path),
        cat3(label, " is not a regular file: ", path),
    )
}

/// Why a file cannot be written into its directory.
pub fn refuse_parent(entry: Option<EntryKind>, label: &str, parent: &str) -> (r: Option<String>)
    ensures
        r.deep_view() == refused(
            entry,
            EntryKind::Dir,
            "refusing "@ + label@ + " parent symlink: "@ + parent@,
            label@ + " parent is not a directory: "@ + parent@,
        ),
{
    refuse(
        entry,
        EntryKind::Dir,
        cat4("refusing ", label, " parent symlink: ", parent),
        cat3(label, " parent is not a directory: ", parent),
    )
}

/// An entry is refused exactly where it is there and is a link or not of the kind that is
/// wanted.
pub proof fn law_which_entries_are_refused(
    entry: Option<EntryKind>,
    wanted: EntryKind,
    link: Seq<char>,
    other: Seq<char>,
)
    ensures
        refused(entry, wanted, link, other) is None <==> entry is None || (entry == Some(wanted)
            && wanted != EntryKind::Symlink),
        entry == Some(EntryKind::Symlink) ==> refused(entry, wanted, link, other) == Some(link),
        entry is Some && entry != Some(EntryKind::Symlink) && entry != Some(wanted) ==> refused(
            entry,
            wanted,
            link,
            other,
        ) == Some(other),
{
}

} // verus!
