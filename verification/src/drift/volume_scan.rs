//! What a Docker volume holds, from a bounded walk over its files.

use vstd::prelude::*;
use crate::command::{CommandOutput, CommandOutputView, debug_code, debug_code_text};
use crate::drift::ownership::{docker_names, split_observed_docker_names};
use crate::each::gather_each;
use crate::entries::EntryKind;
use crate::json::{
    Json, JsonView, items_in, json_get, json_items, json_printed, json_read, json_text_at,
    member_of, parse_json, print_json, text_at,
};
use crate::list::{
    all_labelled, extend, gathered, labelled, law_either_list, law_gathered, law_noted,
    law_sorted_set, note, note_all, note_some, noted, put, sorted_set, unique_sorted,
};
use crate::number::{bool_text, bool_word, count_text, decimal, decimal_text};
use crate::text::{
    as_text, cat2, cat3, ends_with, finishes, lines, lowered, same, split_lines, to_lower,
};

verus! {

broadcast use {vstd::seq::group_seq_axioms, vstd::string::group_string_axioms};

/// How many entries are looked at.
pub const VOLUME_CONTENT_SAMPLE_MAX_ENTRIES: usize = 2048;

/// How many levels of directories are looked at.
pub const VOLUME_CONTENT_SAMPLE_MAX_DEPTH: usize = 4;

/// How many entries of the top level are listed.
pub const VOLUME_TOP_LEVEL_SAMPLE_MAX: usize = 16;

/// An entry of a directory.
#[derive(Debug)]
pub struct VolumeEntry {
    pub name: String,
    pub kind: EntryKind,
    pub size: u64,
    /// When it was last changed, in seconds since the Unix epoch.
    pub modified: Option<u64>,
}

/// View of [`VolumeEntry`].
#[verifier::ext_equal]
pub struct VolumeEntryView {
    pub name: Seq<char>,
    pub kind: EntryKind,
    pub size: u64,
    pub modified: Option<u64>,
}

impl DeepView for VolumeEntry {
    type V = VolumeEntryView;

    open spec fn deep_view(&self) -> VolumeEntryView {
        VolumeEntryView {
            name: self.name.deep_view(),
            kind: self.kind,
            size: self.size,
            modified: self.modified.deep_view(),
        }
    }
}

/// What the walk has seen so far.
#[derive(Debug)]
pub struct VolumeContentSample {
    pub sampled_size_bytes: u64,
    pub sampled_file_count: usize,
    pub sampled_dir_count: usize,
    pub sampled_symlink_count: usize,
    pub scanned_entries: usize,
    pub sample_truncated: bool,
    pub latest_mtime_unix: Option<u64>,
    pub top_level_entries: Vec<String>,
    pub content_hints: Vec<String>,
}

/// View of [`VolumeContentSample`].
#[verifier::ext_equal]
pub struct VolumeContentSampleView {
    pub sampled_size_bytes: u64,
    pub sampled_file_count: nat,
    pub sampled_dir_count: nat,
    pub sampled_symlink_count: nat,
    pub scanned_entries: nat,
    pub sample_truncated: bool,
    pub latest_mtime_unix: Option<u64>,
    pub top_level_entries: Seq<Seq<char>>,
    pub content_hints: Seq<Seq<char>>,
}

impl DeepView for VolumeContentSample {
    type V = VolumeContentSampleView;

    open spec fn deep_view(&self) -> VolumeContentSampleView {
        VolumeContentSampleView {
            sampled_size_bytes: self.sampled_size_bytes,
            sampled_file_count: self.sampled_file_count as nat,
            sampled_dir_count: self.sampled_dir_count as nat,
            sampled_symlink_count: self.sampled_symlink_count as nat,
            scanned_entries: self.scanned_entries as nat,
            sample_truncated: self.sample_truncated,
            latest_mtime_unix: self.latest_mtime_unix.deep_view(),
            top_level_entries: self.top_level_entries.deep_view(),
            content_hints: self.content_hints.deep_view(),
        }
    }
}

/// The word for an entry's kind.
pub open spec fn kind_word(kind: EntryKind) -> Seq<char> {
    match kind {
        EntryKind::Symlink => "symlink"@,
        EntryKind::Dir => "dir"@,
        EntryKind::File => "file"@,
        EntryKind::Other => "other"@,
    }
}

/// The word for an entry's kind.
pub fn volume_entry_kind(kind: EntryKind) -> (r: &'static str)
    ensures
        r@ == kind_word(kind),
{
    match kind {
        EntryKind::Symlink => "symlink",
        EntryKind::Dir => "dir",
        EntryKind::File => "file",
        EntryKind::Other => "other",
    }
}

/// What a file's name gives away about the volume.
pub open spec fn content_hints(name: Seq<char>, file: bool) -> Seq<Seq<char>> {
    let lower = lowered(name);
    Seq::<Seq<char>>::empty() + noted(
        lower == "ibdata1"@ || lower == "aria_log_control"@ || lower == "auto.cnf"@ || lower == "mysql"@ || lower == "performance_schema"@ || lower == "mariadb"@,
        "mysql_or_mariadb_datadir"@,
    ) + noted(
        lower == "pg_version"@ || lower == "base"@ || lower == "global"@ || lower == "pg_wal"@ || lower == "postgresql.conf"@,
        "postgres_datadir"@,
    ) + noted(
        lower == "dump.rdb"@ || lower == "appendonly.aof"@ || lower == "appendonlydir"@ || lower == "nodes.conf"@,
        "redis_datadir"@,
    ) + noted(
        lower == "autosave.json"@ || lower == "certificates"@ || lower == "acme"@ || lower == "locks"@ || lower == "pki"@,
        "caddy_data"@,
    ) + noted(lower == ".minio.sys"@, "minio_data"@) + noted(
        file && (finishes(lower, ".db"@) || finishes(lower, ".sqlite"@) || finishes(lower, ".sqlite3"@)),
        "sqlite_database_files"@,
    )
}

/// What a file's name gives away about the volume.
pub fn content_hints_of(name: &str, file: bool) -> (r: Vec<String>)
    ensures
        r.deep_view() == content_hints(name@, file),
{
    let lower = to_lower(name);
    let mut list: Vec<String> = Vec::new();
    proof {
        assert(list.deep_view() =~= Seq::<Seq<char>>::empty());
    }
    note(
        &mut list,
        same(&lower, "ibdata1") || same(&lower, "aria_log_control") || same(&lower, "auto.cnf") || same(&lower, "mysql") || same(&lower, "performance_schema") || same(&lower, "mariadb"),
        "mysql_or_mariadb_datadir",
    );
    note(
        &mut list,
        same(&lower, "pg_version") || same(&lower, "base") || same(&lower, "global") || same(&lower, "pg_wal") || same(&lower, "postgresql.conf"),
        "postgres_datadir",
    );
    note(
        &mut list,
        same(&lower, "dump.rdb") || same(&lower, "appendonly.aof") || same(&lower, "appendonlydir") || same(&lower, "nodes.conf"),
        "redis_datadir",
    );
    note(
        &mut list,
        same(&lower, "autosave.json") || same(&lower, "certificates") || same(&lower, "acme") || same(&lower, "locks") || same(&lower, "pki"),
        "caddy_data",
    );
    note(&mut list, same(&lower, ".minio.sys"), "minio_data");
    note(
        &mut list,
        file && (ends_with(&lower, ".db") || ends_with(&lower, ".sqlite") || ends_with(&lower, ".sqlite3")),
        "sqlite_database_files",
    );
    list
}

/// The walk before it starts.
pub open spec fn fresh_sample(modified: Option<u64>) -> VolumeContentSampleView {
    VolumeContentSampleView {
        sampled_size_bytes: 0,
        sampled_file_count: 0,
        sampled_dir_count: 0,
        sampled_symlink_count: 0,
        scanned_entries: 0,
        sample_truncated: false,
        latest_mtime_unix: modified,
        top_level_entries: Seq::empty(),
        content_hints: Seq::empty(),
    }
}

/// The walk's counts add up, and stay within its bound.
pub open spec fn sample_adds_up(s: VolumeContentSampleView) -> bool {
    s.sampled_file_count + s.sampled_dir_count + s.sampled_symlink_count <= s.scanned_entries
        && s.scanned_entries <= VOLUME_CONTENT_SAMPLE_MAX_ENTRIES
}

/// The walk before it starts, at a mount point that was changed at this time.
pub fn start_sample(modified: Option<u64>) -> (r: VolumeContentSample)
    ensures
        r.deep_view() == fresh_sample(modified),
        sample_adds_up(r.deep_view()),
{
    let r = VolumeContentSample {
        sampled_size_bytes: 0,
        sampled_file_count: 0,
        sampled_dir_count: 0,
        sampled_symlink_count: 0,
        scanned_entries: 0,
        sample_truncated: false,
        latest_mtime_unix: modified,
        top_level_entries: Vec::new(),
        content_hints: Vec::new(),
    };
    proof {
        assert(r.top_level_entries.deep_view() =~= Seq::<Seq<char>>::empty());
        assert(r.content_hints.deep_view() =~= Seq::<Seq<char>>::empty());
    }
    r
}

/// Whether the walk has room for one more entry, besides those that are listed
/// and not yet looked at.
pub open spec fn has_room(s: VolumeContentSampleView, listed: nat) -> bool {
    s.scanned_entries + listed < VOLUME_CONTENT_SAMPLE_MAX_ENTRIES
}

/// Whether one more entry of a directory is listed. Where the walk has no room
/// for it, the sample is marked as cut short.
pub fn list_next(sample: &mut VolumeContentSample, listed: usize) -> (r: bool)
    requires
        sample_adds_up(old(sample).deep_view()),
    ensures
        r == has_room(old(sample).deep_view(), listed as nat),
        final(sample).deep_view() == (VolumeContentSampleView {
            sample_truncated: old(sample).sample_truncated || !r,
            ..old(sample).deep_view()
        }),
        sample_adds_up(final(sample).deep_view()),
{
    if listed < VOLUME_CONTENT_SAMPLE_MAX_ENTRIES && sample.scanned_entries + listed
        < VOLUME_CONTENT_SAMPLE_MAX_ENTRIES {
        true
    } else {
        sample.sample_truncated = true;
        false
    }
}

/// The later of two times.
pub open spec fn later(current: Option<u64>, other: Option<u64>) -> Option<u64> {
    match (current, other) {
        (Some(a), Some(b)) => Some(
            if a >= b {
                a
            } else {
                b
            },
        ),
        (None, b) => b,
        (a, None) => a,
    }
}

/// The later of two times.
pub fn latest(current: Option<u64>, other: Option<u64>) -> (r: Option<u64>)
    ensures
        r == later(current, other),
{
    match (current, other) {
        (Some(a), Some(b)) => Some(
            if a >= b {
                a
            } else {
                b
            },
        ),
        (None, b) => b,
        (a, None) => a,
    }
}

/// Whether the walk goes into an entry.
pub open spec fn descends(entry: VolumeEntryView, depth: nat) -> bool {
    entry.kind == EntryKind::Dir && depth + 1 < VOLUME_CONTENT_SAMPLE_MAX_DEPTH
}

/// The sample with one more entry in it.
pub open spec fn with_entry(
    s: VolumeContentSampleView,
    entry: VolumeEntryView,
    depth: nat,
) -> VolumeContentSampleView {
    VolumeContentSampleView {
        sampled_size_bytes: if entry.kind == EntryKind::File {
            if s.sampled_size_bytes + entry.size > u64::MAX {
                u64::MAX
            } else {
                (s.sampled_size_bytes + entry.size) as u64
            }
        } else {
            s.sampled_size_bytes
        },
        sampled_file_count: s.sampled_file_count + (if entry.kind == EntryKind::File {
            1nat
        } else {
            0nat
        }),
        sampled_dir_count: s.sampled_dir_count + (if entry.kind == EntryKind::Dir {
            1nat
        } else {
            0nat
        }),
        sampled_symlink_count: s.sampled_symlink_count + (if entry.kind == EntryKind::Symlink {
            1nat
        } else {
            0nat
        }),
        scanned_entries: s.scanned_entries + 1,
        sample_truncated: s.sample_truncated || (entry.kind == EntryKind::Dir && !descends(
            entry,
            depth,
        )),
        latest_mtime_unix: later(s.latest_mtime_unix, entry.modified),
        top_level_entries: if depth == 0 && s.top_level_entries.len()
            < VOLUME_TOP_LEVEL_SAMPLE_MAX {
            s.top_level_entries.push(kind_word(entry.kind) + ":"@ + entry.name)
        } else {
            s.top_level_entries
        },
        content_hints: s.content_hints + content_hints(entry.name, entry.kind == EntryKind::File),
    }
}

/// What to do after an entry.
#[derive(Debug, Clone, Copy, PartialEq, Eq, Structural)]
pub enum Walk {
    /// Go into the directory, then on with the next entry.
    Descend,
    /// Go on with the next entry.
    Next,
    /// Leave the directory: the entry was not looked at.
    Stop,
}

/// Looks at an entry, `depth` levels below the mount point.
pub fn visit_entry(sample: &mut VolumeContentSample, entry: &VolumeEntry, depth: usize) -> (r: Walk)
    requires
        sample_adds_up(old(sample).deep_view()),
        depth < VOLUME_CONTENT_SAMPLE_MAX_DEPTH,
    ensures
        sample_adds_up(final(sample).deep_view()),
        r == (if !has_room(old(sample).deep_view(), 0) {
            Walk::Stop
        } else if descends(entry.deep_view(), depth as nat) {
            Walk::Descend
        } else {
            Walk::Next
        }),
        final(sample).deep_view() == (if has_room(old(sample).deep_view(), 0) {
            with_entry(old(sample).deep_view(), entry.deep_view(), depth as nat)
        } else {
            VolumeContentSampleView { sample_truncated: true, ..old(sample).deep_view() }
        }),
{
    if sample.scanned_entries >= VOLUME_CONTENT_SAMPLE_MAX_ENTRIES {
        sample.sample_truncated = true;
        return Walk::Stop;
    }
    sample.scanned_entries = sample.scanned_entries + 1;
    let hints = content_hints_of(&entry.name, entry.kind == EntryKind::File);
    extend(&mut sample.content_hints, &hints);
    sample.latest_mtime_unix = latest(sample.latest_mtime_unix, entry.modified);
    proof {
        assert(sample.top_level_entries.deep_view().len() == sample.top_level_entries@.len());
    }
    if depth == 0 && sample.top_level_entries.len() < VOLUME_TOP_LEVEL_SAMPLE_MAX {
        put(
            &mut sample.top_level_entries,
            &cat3(volume_entry_kind(entry.kind), ":", &entry.name),
        );
    }
    match entry.kind {
        EntryKind::Symlink => {
            sample.sampled_symlink_count = sample.sampled_symlink_count + 1;
            Walk::Next
        },
        EntryKind::File => {
            sample.sampled_file_count = sample.sampled_file_count + 1;
            sample.sampled_size_bytes = sample.sampled_size_bytes.saturating_add(entry.size);
            Walk::Next
        },
        EntryKind::Dir => {
            sample.sampled_dir_count = sample.sampled_dir_count + 1;
            if depth + 1 < VOLUME_CONTENT_SAMPLE_MAX_DEPTH {
                Walk::Descend
            } else {
                sample.sample_truncated = true;
                Walk::Next
            }
        },
        EntryKind::Other => Walk::Next,
    }
}

// ---------------------------------------------------------------------------
// Evidence
// ---------------------------------------------------------------------------

/// What was found at a mount point.
#[derive(Debug)]
pub enum Mountpoint {
    /// It cannot be inspected; the kind of the error.
    Missing(String),
    Symlink,
    NotDirectory,
    /// It was walked over; the kind of the error that ended the walk.
    Walked(VolumeContentSample, Option<String>),
}

/// View of [`Mountpoint`].
pub enum MountpointView {
    Missing(Seq<char>),
    Symlink,
    NotDirectory,
    Walked(VolumeContentSampleView, Option<Seq<char>>),
}

impl DeepView for Mountpoint {
    type V = MountpointView;

    open spec fn deep_view(&self) -> MountpointView {
        match *self {
            Mountpoint::Missing(kind) => MountpointView::Missing(kind@),
            Mountpoint::Symlink => MountpointView::Symlink,
            Mountpoint::NotDirectory => MountpointView::NotDirectory,
            Mountpoint::Walked(sample, error) => MountpointView::Walked(
                sample.deep_view(),
                error.deep_view(),
            ),
        }
    }
}

/// A number behind a label, where there is one.
pub open spec fn time_line(time: Option<u64>) -> Seq<Seq<char>> {
    match time {
        Some(t) => seq!["latest_mtime_unix="@ + decimal(t as nat)],
        None => Seq::empty(),
    }
}

/// A number behind a label, where there is one.
pub fn list_time(time: Option<u64>) -> (r: Vec<String>)
    ensures
        r.deep_view() == time_line(time),
{
    let mut list: Vec<String> = Vec::new();
    if let Some(t) = time {
        list.push(cat2("latest_mtime_unix=", &decimal_text(t)));
    }
    proof {
        assert(list.deep_view() =~= time_line(time));
    }
    list
}

/// What the walk counted.
pub open spec fn count_lines(sample: VolumeContentSampleView) -> Seq<Seq<char>> {
    Seq::<Seq<char>>::empty().push(
        "sampled_size_bytes="@ + decimal(sample.sampled_size_bytes as nat),
    ).push(
        "sampled_file_count="@ + decimal(sample.sampled_file_count),
    ).push(
        "sampled_dir_count="@ + decimal(sample.sampled_dir_count),
    ).push(
        "sampled_symlink_count="@ + decimal(sample.sampled_symlink_count),
    ).push(
        "sample_truncated="@ + bool_word(sample.sample_truncated),
    )
}

/// What the walk counted.
pub fn list_counts(sample: &VolumeContentSample) -> (r: Vec<String>)
    ensures
        r.deep_view() == count_lines(sample.deep_view()),
{
    let mut list: Vec<String> = Vec::new();
    proof {
        assert(list.deep_view() =~= Seq::<Seq<char>>::empty());
    }
    put(&mut list, &cat2("sampled_size_bytes=", &decimal_text(sample.sampled_size_bytes)));
    put(&mut list, &cat2("sampled_file_count=", &count_text(sample.sampled_file_count)));
    put(&mut list, &cat2("sampled_dir_count=", &count_text(sample.sampled_dir_count)));
    put(&mut list, &cat2("sampled_symlink_count=", &count_text(sample.sampled_symlink_count)));
    put(&mut list, &cat2("sample_truncated=", bool_text(sample.sample_truncated)));
    list
}

/// What the walk found.
pub open spec fn sample_lines(sample: VolumeContentSampleView) -> Seq<Seq<char>> {
    count_lines(sample) + time_line(sample.latest_mtime_unix) + noted(
        sample.top_level_entries.len() == 0,
        "content_hint=empty_or_metadata_only"@,
    ) + all_labelled("top_level_entry="@, sorted_set(sample.top_level_entries)) + all_labelled(
        "content_hint="@,
        sorted_set(sample.content_hints),
    )
}

/// What the walk found.
pub fn list_sample(sample: &VolumeContentSample) -> (r: Vec<String>)
    ensures
        r.deep_view() == sample_lines(sample.deep_view()),
{
    let mut list = list_counts(sample);
    extend(&mut list, &list_time(sample.latest_mtime_unix));
    proof {
        assert(sample.top_level_entries.deep_view().len() == sample.top_level_entries@.len());
    }
    note(
        &mut list,
        sample.top_level_entries.len() == 0,
        "content_hint=empty_or_metadata_only",
    );
    note_all(&mut list, "top_level_entry=", &unique_sorted(sample.top_level_entries.clone()));
    note_all(&mut list, "content_hint=", &unique_sorted(sample.content_hints.clone()));
    list
}

/// What was found at a mount point.
pub open spec fn mountpoint_evidence(found: MountpointView) -> Seq<Seq<char>> {
    match found {
        MountpointView::Missing(kind) => seq![
            "mountpoint_exists=false"@,
            "mountpoint_scan=unavailable:"@ + kind,
        ],
        MountpointView::Symlink => seq![
            "mountpoint_exists=true"@,
            "mountpoint_symlink=true"@,
            "mountpoint_scan=blocked_symlink"@,
        ],
        MountpointView::NotDirectory => seq![
            "mountpoint_exists=true"@,
            "mountpoint_readable=false"@,
            "mountpoint_scan=not_directory"@,
        ],
        MountpointView::Walked(sample, error) => (match error {
            Some(kind) => seq![
                "mountpoint_exists=true"@,
                "mountpoint_readable=false"@,
                "mountpoint_scan=unavailable:"@ + kind,
            ],
            None => seq!["mountpoint_exists=true"@, "mountpoint_readable=true"@],
        }) + sample_lines(sample),
    }
}

/// What was found at a mount point.
pub fn inspect_volume_mountpoint(found: &Mountpoint) -> (r: Vec<String>)
    ensures
        r.deep_view() == mountpoint_evidence(found.deep_view()),
{
    let mut list: Vec<String> = Vec::new();
    match found {
        Mountpoint::Missing(kind) => {
            list.push("mountpoint_exists=false".to_string());
            list.push(cat2("mountpoint_scan=unavailable:", kind));
        },
        Mountpoint::Symlink => {
            list.push("mountpoint_exists=true".to_string());
            list.push("mountpoint_symlink=true".to_string());
            list.push("mountpoint_scan=blocked_symlink".to_string());
        },
        Mountpoint::NotDirectory => {
            list.push("mountpoint_exists=true".to_string());
            list.push("mountpoint_readable=false".to_string());
            list.push("mountpoint_scan=not_directory".to_string());
        },
        Mountpoint::Walked(sample, error) => {
            list.push("mountpoint_exists=true".to_string());
            match error {
                Some(kind) => {
                    list.push("mountpoint_readable=false".to_string());
                    list.push(cat2("mountpoint_scan=unavailable:", kind));
                },
                None => {
                    list.push("mountpoint_readable=true".to_string());
                },
            }
            extend(&mut list, &list_sample(sample));
        },
    }
    proof {
        assert(list.deep_view() =~= mountpoint_evidence(found.deep_view()));
    }
    list
}

/// A member that is a text and not empty.
pub open spec fn filled_text(j: JsonView, name: Seq<char>) -> Option<Seq<char>> {
    match text_at(j, name) {
        Some(t) => if t.len() > 0 {
            Some(t)
        } else {
            None
        },
        None => None,
    }
}

/// A member that is a text and not empty.
pub fn json_field_string(value: &Json, key: &str) -> (r: Option<String>)
    ensures
        r.deep_view() == filled_text(value.deep_view(), key@),
{
    match json_text_at(value, key) {
        Some(t) => if !t.is_empty() {
            Some(t.to_string())
        } else {
            None
        },
        None => None,
    }
}

/// The first of the volumes that `docker volume inspect` lists.
pub open spec fn inspected_volume(value: JsonView) -> Option<JsonView> {
    match items_in(value) {
        Some(items) => if items.len() > 0 {
            Some(items[0])
        } else {
            None
        },
        None => None,
    }
}

/// The first of the volumes that `docker volume inspect` lists.
pub fn first_volume<'a>(value: &'a Json) -> (r: Option<&'a Json>)
    ensures
        r.deep_view() == inspected_volume(value.deep_view()),
{
    match json_items(value) {
        Some(items) => if items.len() > 0 {
            Some(&items[0])
        } else {
            None
        },
        None => None,
    }
}

/// What `docker volume inspect` says of a volume, and what is at its mount point.
pub open spec fn volume_lines(volume: JsonView, found: Seq<Seq<char>>) -> Seq<Seq<char>> {
    (match filled_text(volume, "Mountpoint"@) {
        Some(path) => found + seq!["mountpoint="@ + path],
        None => Seq::empty(),
    }) + labelled("created_at="@, filled_text(volume, "CreatedAt"@)) + labelled(
        "labels="@,
        match member_of(volume, "Labels"@) {
            Some(labels) => Some(json_printed(labels)),
            None => None,
        },
    )
}

/// What `docker volume inspect` says of a volume, with the evidence from its
/// mount point.
pub fn list_volume(volume: &Json, found: &Vec<String>) -> (r: Vec<String>)
    ensures
        r.deep_view() == volume_lines(volume.deep_view(), found.deep_view()),
{
    let mut list: Vec<String> = Vec::new();
    proof {
        assert(list.deep_view() =~= Seq::<Seq<char>>::empty());
    }
    if let Some(path) = json_field_string(volume, "Mountpoint") {
        extend(&mut list, found);
        put(&mut list, &cat2("mountpoint=", &path));
        proof {
            assert(list.deep_view() =~= found.deep_view() + seq!["mountpoint="@ + path@]);
        }
    }
    note_some(&mut list, "created_at=", as_text(&json_field_string(volume, "CreatedAt")));
    let labels = match json_get(volume, "Labels") {
        Some(labels) => Some(print_json(labels)),
        None => None,
    };
    note_some(&mut list, "labels=", as_text(&labels));
    list
}

/// Where a volume is mounted.
pub open spec fn mountpoint_of(stdout: Seq<char>) -> Option<Seq<char>> {
    match json_read(stdout) {
        Ok(value) => match inspected_volume(value) {
            Some(volume) => filled_text(volume, "Mountpoint"@),
            None => None,
        },
        Err(_) => None,
    }
}

/// Where a volume is mounted, from the output of `docker volume inspect`.
pub fn volume_mountpoint(stdout: &str) -> (r: Option<String>)
    ensures
        r.deep_view() == mountpoint_of(stdout@),
{
    match parse_json(stdout) {
        Ok(value) => match first_volume(&value) {
            Some(volume) => json_field_string(volume, "Mountpoint"),
            None => None,
        },
        Err(_) => None,
    }
}

/// What came of `docker volume inspect`.
pub open spec fn inspect_evidence(
    outcome: Result<CommandOutputView, Seq<char>>,
    found: Seq<Seq<char>>,
) -> Seq<Seq<char>> {
    match outcome {
        Ok(output) => if output.success {
            match json_read(output.stdout) {
                Ok(value) => match inspected_volume(value) {
                    Some(volume) => volume_lines(volume, found),
                    None => Seq::empty(),
                },
                Err(_) => Seq::empty(),
            }
        } else {
            seq!["volume_inspect=unavailable_status_"@ + debug_code(output.status_code)]
        },
        Err(error) => seq!["volume_inspect=unavailable:"@ + error],
    }
}

/// What came of `docker volume inspect`, or the words of the error, with the
/// evidence from the mount point.
pub fn inspect_docker_volume(outcome: &Result<CommandOutput, String>, found: &Vec<String>) -> (r:
    Vec<String>)
    ensures
        r.deep_view() == inspect_evidence(
            match *outcome {
                Ok(output) => Ok(output.deep_view()),
                Err(error) => Err(error@),
            },
            found.deep_view(),
        ),
{
    let mut list: Vec<String> = Vec::new();
    proof {
        assert(list.deep_view() =~= Seq::<Seq<char>>::empty());
    }
    match outcome {
        Ok(output) => if output.success {
            if let Ok(value) = parse_json(&output.stdout) {
                if let Some(volume) = first_volume(&value) {
                    return list_volume(volume, found);
                }
            }
        } else {
            put(
                &mut list,
                &cat2("volume_inspect=unavailable_status_", &debug_code_text(output.status_code)),
            );
            proof {
                assert(list.deep_view() =~= seq![
                    "volume_inspect=unavailable_status_"@ + debug_code(output.status_code),
                ]);
            }
        },
        Err(error) => {
            put(&mut list, &cat2("volume_inspect=unavailable:", error));
            proof {
                assert(list.deep_view() =~= seq!["volume_inspect=unavailable:"@ + error@]);
            }
        },
    }
    list
}

/// The names in a line of `docker ps`.
pub open spec fn names_in_line(line: Seq<char>) -> Seq<Seq<char>> {
    match json_read(line) {
        Ok(value) => match filled_text(value, "Names"@) {
            Some(names) => docker_names(names),
            None => Seq::empty(),
        },
        Err(_) => Seq::empty(),
    }
}

/// The containers that use a volume.
pub open spec fn volume_users(stdout: Seq<char>) -> Seq<Seq<char>> {
    sorted_set(gathered(lines(stdout), |line: Seq<char>| names_in_line(line)))
}

/// The containers that use a volume, from the output of `docker ps`.
pub fn docker_volume_users(stdout: &str) -> (r: Vec<String>)
    ensures
        r.deep_view() == volume_users(stdout@),
{
    unique_sorted(
        gather_each(
            &split_lines(stdout),
            |line: &String| -> (r: Vec<String>)
                ensures
                    r.deep_view() == names_in_line(line@)
                {
                    let none: Vec<String> = Vec::new();
                    proof {
                        assert(none.deep_view() =~= Seq::<Seq<char>>::empty());
                    }
                    match parse_json(line) {
                        Ok(value) => match json_field_string(&value, "Names") {
                            Some(names) => split_observed_docker_names(&names),
                            None => none,
                        },
                        Err(_) => none,
                    }
                },
            Ghost(|line: Seq<char>| names_in_line(line)),
        ),
    )
}

// ---------------------------------------------------------------------------
// Laws
// ---------------------------------------------------------------------------

/// Looking at an entry keeps the counts within the bound, and never forgets that
/// the sample was cut short or takes a time back.
pub proof fn law_samples_stay_bounded(s: VolumeContentSampleView, entry: VolumeEntryView, depth: nat)
    requires
        sample_adds_up(s),
        has_room(s, 0),
    ensures
        sample_adds_up(with_entry(s, entry, depth)),
        s.sample_truncated ==> with_entry(s, entry, depth).sample_truncated,
        s.latest_mtime_unix is Some ==> with_entry(s, entry, depth).latest_mtime_unix is Some
            && with_entry(s, entry, depth).latest_mtime_unix->0 >= s.latest_mtime_unix->0,
        s.top_level_entries.len() <= VOLUME_TOP_LEVEL_SAMPLE_MAX ==> with_entry(
            s,
            entry,
            depth,
        ).top_level_entries.len() <= VOLUME_TOP_LEVEL_SAMPLE_MAX,
{
}

/// What a name hints at, whatever its case.
pub proof fn law_content_hints(name: Seq<char>, file: bool)
    ensures
        ({
            let hints = content_hints(name, file);
            let lower = lowered(name);
            &&& hints.contains("mysql_or_mariadb_datadir"@) <==> lower == "ibdata1"@ || lower
                == "aria_log_control"@ || lower == "auto.cnf"@ || lower == "mysql"@ || lower
                == "performance_schema"@ || lower == "mariadb"@
            &&& hints.contains("postgres_datadir"@) <==> lower == "pg_version"@ || lower == "base"@
                || lower == "global"@ || lower == "pg_wal"@ || lower == "postgresql.conf"@
            &&& hints.contains("redis_datadir"@) <==> lower == "dump.rdb"@ || lower
                == "appendonly.aof"@ || lower == "appendonlydir"@ || lower == "nodes.conf"@
            &&& hints.contains("caddy_data"@) <==> lower == "autosave.json"@ || lower
                == "certificates"@ || lower == "acme"@ || lower == "locks"@ || lower == "pki"@
            &&& hints.contains("minio_data"@) <==> lower == ".minio.sys"@
            &&& hints.contains("sqlite_database_files"@) <==> file && (finishes(lower, ".db"@)
                || finishes(lower, ".sqlite"@) || finishes(lower, ".sqlite3"@))
        }),
{
    let lower = lowered(name);
    let b1 = lower == "ibdata1"@ || lower == "aria_log_control"@ || lower == "auto.cnf"@ || lower
        == "mysql"@ || lower == "performance_schema"@ || lower == "mariadb"@;
    let b2 = lower == "pg_version"@ || lower == "base"@ || lower == "global"@ || lower == "pg_wal"@
        || lower == "postgresql.conf"@;
    let b3 = lower == "dump.rdb"@ || lower == "appendonly.aof"@ || lower == "appendonlydir"@
        || lower == "nodes.conf"@;
    let b4 = lower == "autosave.json"@ || lower == "certificates"@ || lower == "acme"@ || lower
        == "locks"@ || lower == "pki"@;
    let b5 = lower == ".minio.sys"@;
    let b6 = file && (finishes(lower, ".db"@) || finishes(lower, ".sqlite"@) || finishes(
        lower,
        ".sqlite3"@,
    ));
    let n1 = noted(b1, "mysql_or_mariadb_datadir"@);
    let n2 = noted(b2, "postgres_datadir"@);
    let n3 = noted(b3, "redis_datadir"@);
    let n4 = noted(b4, "caddy_data"@);
    let n5 = noted(b5, "minio_data"@);
    let n6 = noted(b6, "sqlite_database_files"@);
    let s1 = Seq::<Seq<char>>::empty() + n1;
    let s2 = s1 + n2;
    let s3 = s2 + n3;
    let s4 = s3 + n4;
    let s5 = s4 + n5;
    assert(equal(content_hints(name, file), s5 + n6));
    reveal_strlit("mysql_or_mariadb_datadir");
    reveal_strlit("postgres_datadir");
    reveal_strlit("redis_datadir");
    reveal_strlit("caddy_data");
    reveal_strlit("minio_data");
    reveal_strlit("sqlite_database_files");
    assert("mysql_or_mariadb_datadir"@.len() == 24 && "postgres_datadir"@.len() == 16
        && "redis_datadir"@.len() == 13 && "caddy_data"@[0] == 'c' && "minio_data"@[0] == 'm'
        && "caddy_data"@.len() == 10 && "minio_data"@.len() == 10
        && "sqlite_database_files"@.len() == 21);
    assert forall|x: Seq<char>| #[trigger] content_hints(name, file).contains(x) <==> {
        ||| b1 && x == "mysql_or_mariadb_datadir"@
        ||| b2 && x == "postgres_datadir"@
        ||| b3 && x == "redis_datadir"@
        ||| b4 && x == "caddy_data"@
        ||| b5 && x == "minio_data"@
        ||| b6 && x == "sqlite_database_files"@
    } by {
        law_either_list(Seq::<Seq<char>>::empty(), n1, x);
        law_either_list(s1, n2, x);
        law_either_list(s2, n3, x);
        law_either_list(s3, n4, x);
        law_either_list(s4, n5, x);
        law_either_list(s5, n6, x);
        law_noted(b1, "mysql_or_mariadb_datadir"@, x);
        law_noted(b2, "postgres_datadir"@, x);
        law_noted(b3, "redis_datadir"@, x);
        law_noted(b4, "caddy_data"@, x);
        law_noted(b5, "minio_data"@, x);
        law_noted(b6, "sqlite_database_files"@, x);
    }
}

/// What an entry adds to a sample: one entry, of its kind; a file its size; a directory
/// that is not gone into truncates it; the latest time of change stays the latest.
pub proof fn law_what_an_entry_adds(
    s: VolumeContentSampleView,
    entry: VolumeEntryView,
    depth: nat,
    hint: Seq<char>,
)
    ensures
        ({
            let r = with_entry(s, entry, depth);
            let file = entry.kind == EntryKind::File;
            let dir = entry.kind == EntryKind::Dir;
            let link = entry.kind == EntryKind::Symlink;
            &&& r.scanned_entries == s.scanned_entries + 1
            &&& r.sampled_file_count == s.sampled_file_count + if file { 1int } else { 0 }
            &&& r.sampled_dir_count == s.sampled_dir_count + if dir { 1int } else { 0 }
            &&& r.sampled_symlink_count == s.sampled_symlink_count + if link { 1int } else { 0 }
            &&& !file ==> r.sampled_size_bytes == s.sampled_size_bytes
            &&& file && s.sampled_size_bytes + entry.size <= u64::MAX ==> r.sampled_size_bytes
                == s.sampled_size_bytes + entry.size
            &&& file && s.sampled_size_bytes + entry.size > u64::MAX ==> r.sampled_size_bytes
                == u64::MAX
            &&& r.sample_truncated <==> s.sample_truncated || (dir && depth + 1
                >= VOLUME_CONTENT_SAMPLE_MAX_DEPTH)
            &&& entry.modified is Some ==> r.latest_mtime_unix is Some && r.latest_mtime_unix->0
                >= entry.modified->0
            &&& r.latest_mtime_unix == s.latest_mtime_unix || r.latest_mtime_unix == entry.modified
            &&& depth > 0 ==> r.top_level_entries == s.top_level_entries
            &&& r.content_hints.contains(hint) <==> s.content_hints.contains(hint)
                || content_hints(entry.name, file).contains(hint)
        }),
{
    law_either_list(
        s.content_hints,
        content_hints(entry.name, entry.kind == EntryKind::File),
        hint,
    );
}

/// A mountpoint tells whether it is there and can be read; nothing of a link is walked.
pub proof fn law_what_a_mountpoint_tells(found: MountpointView)
    ensures
        ({
            let e = mountpoint_evidence(found);
            let walked = match found {
                MountpointView::Walked(_, error) => error is None,
                _ => false,
            };
            &&& e[0] == "mountpoint_exists=false"@ <==> found is Missing
            &&& e[0] == "mountpoint_exists=true"@ <==> !(found is Missing)
            &&& walked ==> e[1] == "mountpoint_readable=true"@
            &&& found is NotDirectory ==> e[1] == "mountpoint_readable=false"@
            &&& found is Symlink ==> e.contains("mountpoint_scan=blocked_symlink"@) && e.len() == 3
            &&& found matches MountpointView::Walked(sample, _) ==> forall|x: Seq<char>|
                #![trigger e.contains(x)]
                sample_lines(sample).contains(x) ==> e.contains(x)
        }),
{
    reveal_strlit("mountpoint_exists=false");
    reveal_strlit("mountpoint_exists=true");
    assert("mountpoint_exists=false"@.len() == 23 && "mountpoint_exists=true"@.len() == 22);
    let e = mountpoint_evidence(found);
    match found {
        MountpointView::Symlink => {
            assert(e[2] == "mountpoint_scan=blocked_symlink"@);
        },
        MountpointView::Walked(sample, error) => {
            let head: Seq<Seq<char>> = match error {
                Some(kind) => seq![
                    "mountpoint_exists=true"@,
                    "mountpoint_readable=false"@,
                    "mountpoint_scan=unavailable:"@ + kind,
                ],
                None => seq!["mountpoint_exists=true"@, "mountpoint_readable=true"@],
            };
            assert(equal(e, head + sample_lines(sample)));
            assert forall|x: Seq<char>| sample_lines(sample).contains(x) implies
                #[trigger] e.contains(x) by {
                law_either_list(head, sample_lines(sample), x);
            }
        },
        _ => {},
    }
}

/// The users of a volume are the names in any line of what was listed.
pub proof fn law_volume_users(stdout: Seq<char>, name: Seq<char>)
    ensures
        volume_users(stdout).contains(name) <==> exists|i: int|
            0 <= i < lines(stdout).len() && names_in_line(#[trigger] lines(stdout)[i]).contains(
                name,
            ),
{
    let f = |line: Seq<char>| names_in_line(line);
    let all = lines(stdout);
    law_gathered(all, f, name);
    law_sorted_set(gathered(all, f));
    if gathered(all, f).contains(name) {
        let i = choose|i: int| 0 <= i < all.len() && f(#[trigger] all[i]).contains(name);
        assert(names_in_line(all[i]).contains(name));
    }
    if exists|i: int| 0 <= i < all.len() && names_in_line(#[trigger] all[i]).contains(name) {
        let i = choose|i: int|
            0 <= i < all.len() && names_in_line(#[trigger] all[i]).contains(name);
        assert(f(all[i]).contains(name));
    }
}

/// An inspected volume tells of its mountpoint, what was found there, and when it was made;
/// of a failed inspection only the failure is told.
pub proof fn law_what_an_inspection_tells(
    outcome: Result<CommandOutputView, Seq<char>>,
    found: Seq<Seq<char>>,
    x: Seq<char>,
)
    ensures
        outcome matches Err(error) ==> inspect_evidence(outcome, found) == seq![
            "volume_inspect=unavailable:"@ + error,
        ],
        outcome matches Ok(output) ==> (output.success && mountpoint_of(output.stdout) is Some
            ==> inspect_evidence(outcome, found).contains(
            "mountpoint="@ + mountpoint_of(output.stdout)->0,
        ) && (found.contains(x) ==> inspect_evidence(outcome, found).contains(x))),
        outcome matches Ok(output) ==> (!output.success ==> inspect_evidence(outcome, found).len()
            == 1),
{
    if let Ok(output) = outcome {
        if output.success && mountpoint_of(output.stdout) is Some {
            let path = mountpoint_of(output.stdout)->0;
            let volume = inspected_volume(json_read(output.stdout)->Ok_0)->0;
            let head = found + seq!["mountpoint="@ + path];
            let made = labelled("created_at="@, filled_text(volume, "CreatedAt"@));
            let named = labelled(
                "labels="@,
                match member_of(volume, "Labels"@) {
                    Some(labels) => Some(json_printed(labels)),
                    None => None,
                },
            );
            assert(equal(inspect_evidence(outcome, found), head + made + named));
            let line = "mountpoint="@ + path;
            assert(head[found.len() as int] == line);
            assert(head.contains(line));
            law_either_list(head, made, line);
            law_either_list(head + made, named, line);
            law_either_list(found, seq![line], x);
            law_either_list(head, made, x);
            law_either_list(head + made, named, x);
        }
    }
}

/// A sample begins with nothing in it.
pub proof fn law_fresh_samples(modified: Option<u64>)
    ensures
        ({
            let s = fresh_sample(modified);
            &&& s.scanned_entries == 0 && s.sampled_size_bytes == 0 && s.sampled_file_count == 0
                && s.sampled_dir_count == 0 && s.sampled_symlink_count == 0
            &&& !s.sample_truncated
            &&& s.latest_mtime_unix == modified
            &&& s.top_level_entries.len() == 0 && s.content_hints.len() == 0
            &&& sample_adds_up(s)
        }),
{
}

/// What a sample tells: each of its counts under its name, and each hint and top entry.
pub proof fn law_what_a_sample_tells(sample: VolumeContentSampleView, x: Seq<char>)
    ensures
        ({
            let l = sample_lines(sample);
            &&& l[0] == "sampled_size_bytes="@ + decimal(sample.sampled_size_bytes as nat)
            &&& l[1] == "sampled_file_count="@ + decimal(sample.sampled_file_count)
            &&& l[2] == "sampled_dir_count="@ + decimal(sample.sampled_dir_count)
            &&& l[3] == "sampled_symlink_count="@ + decimal(sample.sampled_symlink_count)
            &&& l[4] == "sample_truncated="@ + bool_word(sample.sample_truncated)
            &&& sample.latest_mtime_unix is Some ==> l[5] == "latest_mtime_unix="@ + decimal(
                sample.latest_mtime_unix->0 as nat,
            )
            &&& sample.content_hints.contains(x) ==> l.contains("content_hint="@ + x)
            &&& sample.top_level_entries.contains(x) ==> l.contains("top_level_entry="@ + x)
        }),
{
    let counts = count_lines(sample);
    let time = time_line(sample.latest_mtime_unix);
    let empty = noted(
        sample.top_level_entries.len() == 0,
        "content_hint=empty_or_metadata_only"@,
    );
    let tops = all_labelled("top_level_entry="@, sorted_set(sample.top_level_entries));
    let hints = all_labelled("content_hint="@, sorted_set(sample.content_hints));
    let l = sample_lines(sample);
    assert(equal(l, counts + time + empty + tops + hints));
    law_sorted_set(sample.content_hints);
    law_sorted_set(sample.top_level_entries);
    let before = counts + time + empty;
    if sample.content_hints.contains(x) {
        let all = sorted_set(sample.content_hints);
        assert(all.contains(x));
        let i = choose|i: int| 0 <= i < all.len() && all[i] == x;
        assert(hints[i] == "content_hint="@ + x);
        assert(l[before.len() + tops.len() + i] == hints[i]);
    }
    if sample.top_level_entries.contains(x) {
        let all = sorted_set(sample.top_level_entries);
        assert(all.contains(x));
        let i = choose|i: int| 0 <= i < all.len() && all[i] == x;
        assert(tops[i] == "top_level_entry="@ + x);
        assert(l[before.len() + i] == tops[i]);
    }
}

/// The mountpoint of an inspected volume is the text under that name in the first volume of
/// the output, where it is not empty.
pub proof fn law_mountpoints(stdout: Seq<char>, path: Seq<char>)
    ensures
        mountpoint_of(stdout) == Some(path) <==> path.len() > 0 && json_read(stdout) is Ok && (
        json_read(stdout)->Ok_0 matches JsonView::List(items) && items.len() > 0 && member_of(
            items[0],
            "Mountpoint"@,
        ) == Some(JsonView::Text(path))),
{
}

} // verus!
