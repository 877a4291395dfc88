//! Who may own the volumes of a cleanup request.

use vstd::prelude::*;
use crate::drift::candidates::{
    DriftCleanupBuild, DriftCleanupBuildView, LoadedRequest, LoadedRequestView,
    build_drift_cleanup, cleanup_build, current_candidate, is_current, item_key,
};
use crate::drift::evidence::{find_ownership, ownership_for};
use crate::drift::ownership::{drift_ownership, drift_ownership_spec};
use crate::drift::progress::{progress_against, request_progress};
use crate::drift::types::{
    DriftCleanupCandidate, DriftCleanupCandidateView, DriftCleanupRequestItem,
    DriftCleanupRequestItemView, DriftCleanupVolumeOwnershipBucket,
    DriftCleanupVolumeOwnershipBucketView, DriftCleanupVolumeOwnershipEntry,
    DriftCleanupVolumeOwnershipEntryView, DriftCleanupVolumeOwnershipReport,
    DriftCleanupVolumeOwnershipReportView, DriftFilter, DriftFilterView, DriftOwnershipFinding,
    DriftOwnershipFindingView, DriftOwnershipReport, DriftOwnershipReportView,
};
use crate::drift::verify::{is_set, note_schema, schema_remark};
use crate::each::{any_where, choose_each, count_where, keep_front, map_each, pick_first};
use crate::list::{
    Ranked, all_labelled, any, chosen, extend, first_some, front, law_chosen, law_either_list,
    law_first_some, law_noted, law_one_more, law_ranked, law_sorted_set, lemma_any,
    lemma_parts_cover, lemma_sorted_by_keeps, lemma_tally_bound, lemma_tally_split,
    lemma_text_lt_irreflexive, less, note, note_all, noted, put, rank, sort_stable, sorted_by,
    sorted_set, tally, text_lt, total, unique_sorted, with_key,
};
use crate::number::{parse_unsigned, parsed_unsigned};
use crate::registry::Registry;
use crate::scan::Observation;
use crate::text::{
    after_prefix, as_text, begins, blank, byte_len, byte_size, cat2, cat3, cat5, cat6, cat8,
    chars_of, hex_digit, is_blank, is_hex, law_found_parts_are_there, law_parts_are_found, lowered,
    same, shell_hint, shell_hint_spec, strip_prefix, to_lower, trim, trimmed,
};

verus! {

broadcast use {vstd::seq::group_seq_axioms, vstd::string::group_string_axioms};

// ---------------------------------------------------------------------------
// Filters
// ---------------------------------------------------------------------------

/// The approval status that a report is limited to; `needs_cleanup` where none
/// is given.
pub open spec fn wanted_status(filter: Option<Seq<char>>) -> Seq<char> {
    match filter {
        Some(text) => if trimmed(text).len() > 0 {
            lowered(trimmed(text))
        } else {
            lowered("needs_cleanup"@)
        },
        None => lowered("needs_cleanup"@),
    }
}

/// The approval status that a report is limited to.
pub fn read_status_filter(filter: Option<&str>) -> (r: String)
    ensures
        r@ == wanted_status(filter.deep_view()),
{
    if let Some(text) = filter {
        let bare = trim(text);
        if !bare.as_str().is_empty() {
            return to_lower(&bare);
        }
    }
    to_lower("needs_cleanup")
}

/// Whether a status can be asked for.
pub open spec fn status_filter_is_known(status: Seq<char>) -> bool {
    status == "all"@ || status == "unknown"@ || status == "needs_cleanup"@ || status == "approved"@
        || status == "rejected"@
}

/// What is said of a status that cannot be asked for.
pub open spec fn status_filter_remark(status: Seq<char>) -> Seq<Seq<char>> {
    noted(
        !status_filter_is_known(status),
        "status filter must be all, unknown, needs_cleanup, approved, or rejected"@,
    )
}

/// Remarks on a status that cannot be asked for.
pub fn note_status_filter(status: &str, limitations: &mut Vec<String>)
    ensures
        final(limitations).deep_view() == old(limitations).deep_view() + status_filter_remark(
            status@,
        ),
{
    let known = same(status, "all") || same(status, "unknown") || same(status, "needs_cleanup")
        || same(status, "approved") || same(status, "rejected");
    note(
        limitations,
        !known,
        "status filter must be all, unknown, needs_cleanup, approved, or rejected",
    );
}

/// Whether a status passes the filter.
pub open spec fn status_passes(status: Seq<char>, filter: Seq<char>) -> bool {
    filter == "all"@ || status == filter
}

/// A limit, at least one.
pub open spec fn limit_of(limit: nat) -> nat {
    if limit == 0 {
        1
    } else {
        limit
    }
}

/// A limit, at least one.
pub fn read_limit(limit: usize) -> (r: usize)
    ensures
        r == limit_of(limit as nat),
{
    if limit == 0 {
        1
    } else {
        limit
    }
}

// ---------------------------------------------------------------------------
// Reading evidence
// ---------------------------------------------------------------------------

/// The values that the evidence gives under a prefix.
pub open spec fn evidence_values_spec(evidence: Seq<Seq<char>>, prefix: Seq<char>) -> Seq<
    Seq<char>,
> {
    sorted_set(chosen(evidence, |e: Seq<char>| after_prefix(e, prefix)))
}

/// The values that the evidence gives under a prefix.
pub fn evidence_values(evidence: &Vec<String>, prefix: &str) -> (r: Vec<String>)
    ensures
        r.deep_view() == evidence_values_spec(evidence.deep_view(), prefix@),
{
    unique_sorted(
        choose_each(
            evidence,
            |e: &String| -> (r: Option<String>)
                ensures
                    r.deep_view() == after_prefix(e@, prefix@)
                { strip_prefix(e, prefix) },
            Ghost(|e: Seq<char>| after_prefix(e, prefix@)),
        ),
    )
}

/// The first value that the evidence gives under a prefix.
pub open spec fn first_value(evidence: Seq<Seq<char>>, prefix: Seq<char>) -> Option<Seq<char>> {
    first_some(evidence, |e: Seq<char>| after_prefix(e, prefix))
}

/// The first value that the evidence gives under a prefix.
pub fn first_evidence_value(evidence: &Vec<String>, prefix: &str) -> (r: Option<String>)
    ensures
        r.deep_view() == first_value(evidence.deep_view(), prefix@),
{
    pick_first(
        evidence,
        |e: &String| -> (r: Option<String>)
            ensures
                r.deep_view() == after_prefix(e@, prefix@)
            { strip_prefix(e, prefix) },
        Ghost(|e: Seq<char>| after_prefix(e, prefix@)),
    )
}

/// The flag that the evidence gives under a prefix.
pub open spec fn first_flag(evidence: Seq<Seq<char>>, prefix: Seq<char>) -> Option<bool> {
    match first_value(evidence, prefix) {
        Some(text) => if text == "true"@ {
            Some(true)
        } else if text == "false"@ {
            Some(false)
        } else {
            None
        },
        None => None,
    }
}

/// The flag that the evidence gives under a prefix.
pub fn first_evidence_bool(evidence: &Vec<String>, prefix: &str) -> (r: Option<bool>)
    ensures
        r == first_flag(evidence.deep_view(), prefix@),
{
    match first_evidence_value(evidence, prefix) {
        Some(text) => if same(&text, "true") {
            Some(true)
        } else if same(&text, "false") {
            Some(false)
        } else {
            None
        },
        None => None,
    }
}

/// The number up to `max` that the evidence gives under a prefix.
pub open spec fn first_number(evidence: Seq<Seq<char>>, prefix: Seq<char>, max: nat) -> Option<
    nat,
> {
    match first_value(evidence, prefix) {
        Some(text) => parsed_unsigned(text, max),
        None => None,
    }
}

/// A count on this machine.
pub open spec fn first_size(evidence: Seq<Seq<char>>, prefix: Seq<char>) -> Option<usize> {
    match first_number(evidence, prefix, usize::MAX as nat) {
        Some(n) => Some(n as usize),
        None => None,
    }
}

/// A number of 64 bits.
pub open spec fn first_long(evidence: Seq<Seq<char>>, prefix: Seq<char>) -> Option<u64> {
    match first_number(evidence, prefix, u64::MAX as nat) {
        Some(n) => Some(n as u64),
        None => None,
    }
}

/// The number that the evidence gives under a prefix.
pub fn first_evidence_u64(evidence: &Vec<String>, prefix: &str) -> (r: Option<u64>)
    ensures
        r == first_long(evidence.deep_view(), prefix@),
{
    match first_evidence_value(evidence, prefix) {
        Some(text) => parse_unsigned(&text, u64::MAX),
        None => None,
    }
}

/// The count that the evidence gives under a prefix.
pub fn first_evidence_usize(evidence: &Vec<String>, prefix: &str) -> (r: Option<usize>)
    ensures
        r == first_size(evidence.deep_view(), prefix@),
{
    match first_evidence_value(evidence, prefix) {
        Some(text) => match parse_unsigned(&text, usize::MAX as u64) {
            Some(n) => {
                proof {
                    lemma_parsed_in_range(text@, usize::MAX as nat);
                }
                Some(n as usize)
            },
            None => None,
        },
        None => None,
    }
}

proof fn lemma_parsed_in_range(s: Seq<char>, max: nat)
    ensures
        parsed_unsigned(s, max) is Some ==> parsed_unsigned(s, max)->0 <= max,
{
}

// ---------------------------------------------------------------------------
// One volume
// ---------------------------------------------------------------------------

/// Whether a volume name is the hash that Docker gives an anonymous volume.
pub open spec fn anonymous_name(name: Seq<char>) -> bool {
    byte_len(name) == 64 && forall|i: int| 0 <= i < name.len() ==> is_hex(#[trigger] name[i])
}

/// Whether a volume name is the hash that Docker gives an anonymous volume.
pub fn is_anonymous_hash_volume(value: &str) -> (r: bool)
    ensures
        r == anonymous_name(value@),
{
    if byte_size(value) != 64 {
        return false;
    }
    let a = chars_of(value);
    let mut i: usize = 0;
    while i < a.len()
        invariant
            i <= a@.len(),
            a@ == value@,
            forall|j: int| 0 <= j < i ==> is_hex(#[trigger] value@[j]),
        decreases a@.len() - i,
    {
        if !hex_digit(a[i]) {
            proof {
                assert(!is_hex(value@[i as int]));
            }
            return false;
        }
        i = i + 1;
    }
    true
}

/// Whether what a volume holds looks like a database.
pub open spec fn database_hint(hint: Seq<char>) -> bool {
    hint == "mysql_or_mariadb_datadir"@ || hint == "postgres_datadir"@ || hint == "redis_datadir"@
        || hint == "sqlite_database_files"@
}

/// Whether what a volume holds looks like a database.
pub fn volume_content_hint_is_database_like(hint: &str) -> (r: bool)
    ensures
        r == database_hint(hint@),
{
    same(hint, "mysql_or_mariadb_datadir") || same(hint, "postgres_datadir") || same(
        hint,
        "redis_datadir",
    ) || same(hint, "sqlite_database_files")
}

/// Whether some hint names a database.
pub open spec fn some_database_hint(hints: Seq<Seq<char>>) -> bool {
    any(hints, |h: Seq<char>| database_hint(h))
}

/// Whether some hint names a database.
pub fn any_database_hint(hints: &Vec<String>) -> (r: bool)
    ensures
        r == some_database_hint(hints.deep_view()),
{
    any_where(
        hints,
        |h: &String| -> (b: bool)
            ensures
                b == database_hint(h@)
            { volume_content_hint_is_database_like(h) },
        Ghost(|h: Seq<char>| database_hint(h)),
    )
}

/// Everything that is known of a volume.
pub open spec fn volume_evidence(
    item: DriftCleanupRequestItemView,
    ownership: Option<DriftOwnershipFindingView>,
) -> Seq<Seq<char>> {
    sorted_set(
        match ownership {
            None => item.collected_evidence,
            Some(f) => (item.collected_evidence + f.evidence + all_labelled(
                "service_candidate="@,
                f.service_candidates,
            ) + all_labelled("resource_fingerprint="@, f.resource_fingerprint)).push(
                "ownership_confidence="@ + f.confidence,
            ).push("review_action="@ + f.review_action),
        },
    )
}

/// Everything that is known of a volume.
pub fn list_volume_evidence(
    item: &DriftCleanupRequestItem,
    ownership: Option<&DriftOwnershipFinding>,
) -> (r: Vec<String>)
    ensures
        r.deep_view() == volume_evidence(item.deep_view(), ownership.deep_view()),
{
    let mut evidence = item.collected_evidence.clone();
    if let Some(f) = ownership {
        extend(&mut evidence, &f.evidence);
        note_all(&mut evidence, "service_candidate=", &f.service_candidates);
        note_all(&mut evidence, "resource_fingerprint=", &f.resource_fingerprint);
        put(&mut evidence, &cat2("ownership_confidence=", &f.confidence));
        put(&mut evidence, &cat2("review_action=", &f.review_action));
    }
    unique_sorted(evidence)
}

/// The services that may own a volume.
pub open spec fn volume_owners(
    evidence: Seq<Seq<char>>,
    ownership: Option<DriftOwnershipFindingView>,
) -> Seq<Seq<char>> {
    match ownership {
        Some(f) => f.service_candidates,
        None => evidence_values_spec(evidence, "service_candidate="@),
    }
}

/// What is still missing before a volume can be cleaned up.
pub open spec fn volume_missing(item: DriftCleanupRequestItemView) -> Seq<Seq<char>> {
    Seq::empty() + noted(
        item.approval_status != "approved"@,
        "approval_status must be approved by a human operator"@,
    ) + noted(
        blank(item.backup_snapshot_id),
        "backup_snapshot_id is required before volume cleanup approval"@,
    ) + noted(
        blank(item.restore_drill_id),
        "restore_drill_id is required before volume cleanup approval"@,
    )
}

/// What is still missing before a volume can be cleaned up.
pub fn cleanup_volume_missing_evidence(item: &DriftCleanupRequestItem) -> (r: Vec<String>)
    ensures
        r.deep_view() == volume_missing(item.deep_view()),
{
    let mut missing: Vec<String> = Vec::new();
    proof {
        assert(missing.deep_view() =~= Seq::<Seq<char>>::empty());
    }
    note(
        &mut missing,
        !same(&item.approval_status, "approved"),
        "approval_status must be approved by a human operator",
    );
    note(
        &mut missing,
        is_blank(as_text(&item.backup_snapshot_id)),
        "backup_snapshot_id is required before volume cleanup approval",
    );
    note(
        &mut missing,
        is_blank(as_text(&item.restore_drill_id)),
        "restore_drill_id is required before volume cleanup approval",
    );
    missing
}

/// The kind of review that a volume needs.
pub open spec fn volume_category(
    current: bool,
    named: bool,
    mounted: bool,
    owned: bool,
) -> Seq<char> {
    if !current {
        "stale_review_item"@
    } else if owned {
        "service_candidate"@
    } else if mounted {
        "attached_unregistered_container"@
    } else if named {
        "named_unattached_volume"@
    } else {
        "anonymous_unattached_volume"@
    }
}

/// The kind of review that a volume needs.
pub fn cleanup_volume_ownership_category(
    current: bool,
    named: bool,
    mounted: bool,
    owned: bool,
) -> (r: &'static str)
    ensures
        r@ == volume_category(current, named, mounted, owned),
{
    if !current {
        "stale_review_item"
    } else if owned {
        "service_candidate"
    } else if mounted {
        "attached_unregistered_container"
    } else if named {
        "named_unattached_volume"
    } else {
        "anonymous_unattached_volume"
    }
}

/// How sure the owner of a volume is.
pub open spec fn volume_confidence(
    ownership: Option<DriftOwnershipFindingView>,
    category: Seq<char>,
    mounted: bool,
    owners: nat,
) -> Seq<char> {
    if owners == 1 {
        "medium_single_service_candidate"@
    } else if owners > 1 {
        "low_multiple_service_candidates"@
    } else if mounted {
        "medium_attached_container_without_registered_service"@
    } else if category == "named_unattached_volume"@ {
        "low_named_unattached"@
    } else {
        match ownership {
            Some(f) => f.confidence,
            None => "low"@,
        }
    }
}

/// How sure the owner of a volume is.
pub fn cleanup_volume_ownership_confidence(
    ownership: Option<&DriftOwnershipFinding>,
    category: &str,
    mounted: bool,
    owners: usize,
) -> (r: String)
    ensures
        r@ == volume_confidence(ownership.deep_view(), category@, mounted, owners as nat),
{
    if owners == 1 {
        "medium_single_service_candidate".to_string()
    } else if owners > 1 {
        "low_multiple_service_candidates".to_string()
    } else if mounted {
        "medium_attached_container_without_registered_service".to_string()
    } else if same(category, "named_unattached_volume") {
        "low_named_unattached".to_string()
    } else {
        match ownership {
            Some(f) => f.confidence.clone(),
            None => "low".to_string(),
        }
    }
}

/// What to do next with a volume.
pub open spec fn volume_next_step(category: Seq<char>) -> Seq<char> {
    if category == "service_candidate"@ {
        "confirm the candidate service owner; if it is production, adopt/register the volume instead of cleaning it"@
    } else if category == "attached_unregistered_container"@ {
        "inspect the attached container owner first; do not approve volume cleanup while a container still mounts it"@
    } else if category == "named_unattached_volume"@ {
        "use the volume prefix to identify the project; if it is historical residue, capture backup and restore evidence before approval"@
    } else if category == "anonymous_unattached_volume"@ {
        "inspect mount contents and age; capture backup and restore evidence before any cleanup approval"@
    } else if category == "stale_review_item"@ {
        "sync the cleanup request before making an ownership decision"@
    } else {
        "perform manual volume ownership review"@
    }
}

/// What to do next with a volume.
pub fn cleanup_volume_recommended_next_step(category: &str) -> (r: &'static str)
    ensures
        r@ == volume_next_step(category@),
{
    if same(category, "service_candidate") {
        "confirm the candidate service owner; if it is production, adopt/register the volume instead of cleaning it"
    } else if same(category, "attached_unregistered_container") {
        "inspect the attached container owner first; do not approve volume cleanup while a container still mounts it"
    } else if same(category, "named_unattached_volume") {
        "use the volume prefix to identify the project; if it is historical residue, capture backup and restore evidence before approval"
    } else if same(category, "anonymous_unattached_volume") {
        "inspect mount contents and age; capture backup and restore evidence before any cleanup approval"
    } else if same(category, "stale_review_item") {
        "sync the cleanup request before making an ownership decision"
    } else {
        "perform manual volume ownership review"
    }
}

/// What to check before a volume is cleaned up.
pub open spec fn volume_checklist(
    category: Seq<char>,
    mounted: bool,
    hints: Seq<Seq<char>>,
    truncated: bool,
) -> Seq<Seq<char>> {
    sorted_set(
        seq![
            "confirm the exact service owner or classify the volume as historical residue"@,
            "capture a fresh backup_snapshot_id for this exact volume before cleanup approval"@,
            "run a staging restore drill and record restore_drill_id before cleanup approval"@,
        ] + noted(
            mounted,
            "do not approve cleanup while the volume is still mounted by a container"@,
        ) + noted(
            some_database_hint(hints),
            "database-like content detected; verify database dump/import or service restore before cleanup"@,
        ) + noted(
            truncated,
            "content sample was truncated; inspect manually before approval"@,
        ) + noted(
            category == "anonymous_unattached_volume"@ || category == "named_unattached_volume"@,
            "compare top-level entries and labels with recent compose projects before cleanup"@,
        ),
    )
}

/// What to check before a volume is cleaned up.
pub fn cleanup_volume_evidence_checklist(
    category: &str,
    mounted: bool,
    hints: &Vec<String>,
    truncated: bool,
) -> (r: Vec<String>)
    ensures
        r.deep_view() == volume_checklist(category@, mounted, hints.deep_view(), truncated),
{
    let mut list: Vec<String> = vec![
        "confirm the exact service owner or classify the volume as historical residue".to_string(),
        "capture a fresh backup_snapshot_id for this exact volume before cleanup approval".to_string(),
        "run a staging restore drill and record restore_drill_id before cleanup approval".to_string(),
    ];
    proof {
        assert(list.deep_view() =~= seq![
            "confirm the exact service owner or classify the volume as historical residue"@,
            "capture a fresh backup_snapshot_id for this exact volume before cleanup approval"@,
            "run a staging restore drill and record restore_drill_id before cleanup approval"@,
        ]);
    }
    note(
        &mut list,
        mounted,
        "do not approve cleanup while the volume is still mounted by a container",
    );
    note(
        &mut list,
        any_database_hint(hints),
        "database-like content detected; verify database dump/import or service restore before cleanup",
    );
    note(&mut list, truncated, "content sample was truncated; inspect manually before approval");
    note(
        &mut list,
        same(category, "anonymous_unattached_volume") || same(category, "named_unattached_volume"),
        "compare top-level entries and labels with recent compose projects before cleanup",
    );
    unique_sorted(list)
}

/// The commands that review a volume.
pub open spec fn volume_commands(
    path: Seq<char>,
    item: DriftCleanupRequestItemView,
    ownership: Option<DriftOwnershipFindingView>,
) -> Seq<Seq<char>> {
    let request = shell_hint_spec(path);
    let id = shell_hint_spec(item.request_id);
    let first = Seq::<Seq<char>>::empty().push(
        "opsctl registry drift cleanup-request evidence "@ + request + " --request-id "@ + id
            + " --json"@,
    ).push(
        "opsctl registry drift cleanup-request approval-pack "@ + request
            + " --kind docker-volume --status needs_cleanup --json"@,
    );
    let adopt = match ownership {
        Some(f) => if f.service_candidates.len() == 1 {
            first.push(
                "opsctl registry drift adopt --kind docker-volume --target "@ + shell_hint_spec(
                    item.target,
                ) + " --service-id "@ + shell_hint_spec(f.service_candidates[0]) + " --reason "@
                    + shell_hint_spec("<reason>"@),
            )
        } else {
            first
        },
        None => first,
    };
    adopt.push(
        "opsctl registry drift cleanup-request mark "@ + request + " --request-id "@ + id
            + " --approval-status approved --backup-snapshot-id "@ + shell_hint_spec(
            "<snapshot-id>"@,
        ) + " --restore-drill-id "@ + shell_hint_spec("<restore-drill-id>"@),
    )
}

/// The commands that review a volume.
pub fn cleanup_volume_review_commands(
    path: &str,
    item: &DriftCleanupRequestItem,
    ownership: Option<&DriftOwnershipFinding>,
) -> (r: Vec<String>)
    ensures
        r.deep_view() == volume_commands(path@, item.deep_view(), ownership.deep_view()),
{
    let request = shell_hint(path);
    let id = shell_hint(&item.request_id);
    let mut commands: Vec<String> = Vec::new();
    proof {
        assert(commands.deep_view() =~= Seq::<Seq<char>>::empty());
    }
    put(
        &mut commands,
        &cat5(
            "opsctl registry drift cleanup-request evidence ",
            &request,
            " --request-id ",
            &id,
            " --json",
        ),
    );
    put(
        &mut commands,
        &cat3(
            "opsctl registry drift cleanup-request approval-pack ",
            &request,
            " --kind docker-volume --status needs_cleanup --json",
        ),
    );
    if let Some(f) = ownership {
        if f.service_candidates.len() == 1 {
            put(
                &mut commands,
                &cat6(
                    "opsctl registry drift adopt --kind docker-volume --target ",
                    &shell_hint(&item.target),
                    " --service-id ",
                    &shell_hint(&f.service_candidates[0]),
                    " --reason ",
                    &shell_hint("<reason>"),
                ),
            );
        }
    }
    put(
        &mut commands,
        &cat8(
            "opsctl registry drift cleanup-request mark ",
            &request,
            " --request-id ",
            &id,
            " --approval-status approved --backup-snapshot-id ",
            &shell_hint("<snapshot-id>"),
            " --restore-drill-id ",
            &shell_hint("<restore-drill-id>"),
        ),
    );
    commands
}

/// What the report says of one volume.
pub open spec fn volume_entry(
    path: Seq<char>,
    item: DriftCleanupRequestItemView,
    ownership: Option<DriftOwnershipFindingView>,
    current: bool,
) -> DriftCleanupVolumeOwnershipEntryView {
    let evidence = volume_evidence(item, ownership);
    let mounted = evidence_values_spec(evidence, "mounted_by_container="@);
    let owners = volume_owners(evidence, ownership);
    let anonymous = anonymous_name(item.target);
    let category = volume_category(current, !anonymous, mounted.len() > 0, owners.len() > 0);
    let hints = evidence_values_spec(evidence, "content_hint="@);
    let truncated = first_flag(evidence, "sample_truncated="@) == Some(true);
    DriftCleanupVolumeOwnershipEntryView {
        request_id: item.request_id,
        target: item.target,
        approval_status: item.approval_status,
        current_candidate: current,
        name_class: if anonymous {
            "anonymous_hash"@
        } else {
            "named_volume"@
        },
        category,
        confidence: volume_confidence(ownership, category, mounted.len() > 0, owners.len()),
        service_candidates: sorted_set(owners),
        mounted_by_containers: mounted,
        created_at: first_value(evidence, "created_at="@),
        driver: first_value(evidence, "driver="@),
        scope: first_value(evidence, "scope="@),
        mountpoint: first_value(evidence, "mountpoint="@),
        mountpoint_exists: first_flag(evidence, "mountpoint_exists="@),
        mountpoint_readable: first_flag(evidence, "mountpoint_readable="@),
        sampled_size_bytes: first_long(evidence, "sampled_size_bytes="@),
        sampled_file_count: first_size(evidence, "sampled_file_count="@),
        sampled_dir_count: first_size(evidence, "sampled_dir_count="@),
        sampled_symlink_count: first_size(evidence, "sampled_symlink_count="@),
        sample_truncated: truncated,
        latest_mtime_unix: first_long(evidence, "latest_mtime_unix="@),
        top_level_entries: evidence_values_spec(evidence, "top_level_entry="@),
        content_hints: hints,
        label_summary: first_value(evidence, "labels="@),
        backup_snapshot_id: item.backup_snapshot_id,
        restore_drill_id: item.restore_drill_id,
        missing_evidence: volume_missing(item),
        cleanup_evidence_checklist: volume_checklist(
            category,
            mounted.len() > 0,
            hints,
            truncated,
        ),
        recommended_next_step: volume_next_step(category),
        safe_commands: volume_commands(path, item, ownership),
        evidence,
    }
}

/// What the report says of one volume.
pub fn cleanup_volume_ownership_entry(
    path: &str,
    item: &DriftCleanupRequestItem,
    ownership: Option<&DriftOwnershipFinding>,
    current: bool,
) -> (r: DriftCleanupVolumeOwnershipEntry)
    ensures
        r.deep_view() == volume_entry(path@, item.deep_view(), ownership.deep_view(), current),
{
    let evidence = list_volume_evidence(item, ownership);
    let mounted_by_containers = evidence_values(&evidence, "mounted_by_container=");
    let owners = match ownership {
        Some(f) => f.service_candidates.clone(),
        None => evidence_values(&evidence, "service_candidate="),
    };
    let anonymous = is_anonymous_hash_volume(&item.target);
    let mounted = mounted_by_containers.len() > 0;
    let category = cleanup_volume_ownership_category(
        current,
        !anonymous,
        mounted,
        owners.len() > 0,
    );
    let content_hints = evidence_values(&evidence, "content_hint=");
    let sample_truncated = is_set(first_evidence_bool(&evidence, "sample_truncated="));
    let confidence = cleanup_volume_ownership_confidence(
        ownership,
        category,
        mounted,
        owners.len(),
    );
    let checklist = cleanup_volume_evidence_checklist(
        category,
        mounted,
        &content_hints,
        sample_truncated,
    );
    DriftCleanupVolumeOwnershipEntry {
        request_id: item.request_id.clone(),
        target: item.target.clone(),
        approval_status: item.approval_status.clone(),
        current_candidate: current,
        name_class: (if anonymous {
            "anonymous_hash"
        } else {
            "named_volume"
        }).to_string(),
        category: category.to_string(),
        confidence,
        service_candidates: unique_sorted(owners),
        mounted_by_containers,
        created_at: first_evidence_value(&evidence, "created_at="),
        driver: first_evidence_value(&evidence, "driver="),
        scope: first_evidence_value(&evidence, "scope="),
        mountpoint: first_evidence_value(&evidence, "mountpoint="),
        mountpoint_exists: first_evidence_bool(&evidence, "mountpoint_exists="),
        mountpoint_readable: first_evidence_bool(&evidence, "mountpoint_readable="),
        sampled_size_bytes: first_evidence_u64(&evidence, "sampled_size_bytes="),
        sampled_file_count: first_evidence_usize(&evidence, "sampled_file_count="),
        sampled_dir_count: first_evidence_usize(&evidence, "sampled_dir_count="),
        sampled_symlink_count: first_evidence_usize(&evidence, "sampled_symlink_count="),
        sample_truncated,
        latest_mtime_unix: first_evidence_u64(&evidence, "latest_mtime_unix="),
        top_level_entries: evidence_values(&evidence, "top_level_entry="),
        content_hints,
        label_summary: first_evidence_value(&evidence, "labels="),
        backup_snapshot_id: item.backup_snapshot_id.clone(),
        restore_drill_id: item.restore_drill_id.clone(),
        missing_evidence: cleanup_volume_missing_evidence(item),
        cleanup_evidence_checklist: checklist,
        recommended_next_step: cleanup_volume_recommended_next_step(category).to_string(),
        safe_commands: cleanup_volume_review_commands(path, item, ownership),
        evidence,
    }
}

// ---------------------------------------------------------------------------
// The report
// ---------------------------------------------------------------------------

/// The place of a category in the report.
pub open spec fn category_rank(category: Seq<char>) -> nat {
    if category == "service_candidate"@ {
        0
    } else if category == "attached_unregistered_container"@ {
        1
    } else if category == "named_unattached_volume"@ {
        2
    } else if category == "anonymous_unattached_volume"@ {
        3
    } else if category == "stale_review_item"@ {
        4
    } else {
        5
    }
}

/// The place of a category in the report.
pub fn cleanup_volume_ownership_priority(category: &str) -> (r: u8)
    ensures
        r == category_rank(category@),
{
    if same(category, "service_candidate") {
        0
    } else if same(category, "attached_unregistered_container") {
        1
    } else if same(category, "named_unattached_volume") {
        2
    } else if same(category, "anonymous_unattached_volume") {
        3
    } else if same(category, "stale_review_item") {
        4
    } else {
        5
    }
}

impl Ranked for DriftCleanupVolumeOwnershipEntry {
    /// By category, then by target.
    open spec fn before(
        a: DriftCleanupVolumeOwnershipEntryView,
        b: DriftCleanupVolumeOwnershipEntryView,
    ) -> bool {
        category_rank(a.category) < category_rank(b.category) || category_rank(a.category)
            == category_rank(b.category) && text_lt(a.target, b.target)
    }

    fn ranks_before(&self, other: &Self) -> (r: bool) {
        let mine = cleanup_volume_ownership_priority(&self.category);
        let theirs = cleanup_volume_ownership_priority(&other.category);
        mine < theirs || (mine == theirs && less(&self.target, &other.target))
    }
}

/// The volumes of a request that pass the filter, in the order of the report.
pub open spec fn volume_entries(
    path: Seq<char>,
    items: Seq<DriftCleanupRequestItemView>,
    candidates: Seq<DriftCleanupCandidateView>,
    findings: Seq<DriftOwnershipFindingView>,
    filter: Seq<char>,
) -> Seq<DriftCleanupVolumeOwnershipEntryView> {
    sorted_by(
        chosen(
            items,
            |i: DriftCleanupRequestItemView|
                volume_entry_of(path, i, candidates, findings, filter),
        ),
        rank::<DriftCleanupVolumeOwnershipEntry>(),
    )
}

/// What the report says of an item, where it is a volume that passes the filter.
pub open spec fn volume_entry_of(
    path: Seq<char>,
    item: DriftCleanupRequestItemView,
    candidates: Seq<DriftCleanupCandidateView>,
    findings: Seq<DriftOwnershipFindingView>,
    filter: Seq<char>,
) -> Option<DriftCleanupVolumeOwnershipEntryView> {
    if item.kind == "docker-volume"@ && status_passes(item.approval_status, filter) {
        Some(
            volume_entry(
                path,
                item,
                ownership_for(findings, item_key(item)),
                is_current(candidates, item_key(item)),
            ),
        )
    } else {
        None
    }
}

/// The volumes of a request that pass the filter, in the order of the report.
pub fn list_volume_entries(
    path: &str,
    items: &Vec<DriftCleanupRequestItem>,
    candidates: &Vec<DriftCleanupCandidate>,
    findings: &Vec<DriftOwnershipFinding>,
    filter: &str,
) -> (r: Vec<DriftCleanupVolumeOwnershipEntry>)
    ensures
        r.deep_view() == volume_entries(
            path@,
            items.deep_view(),
            candidates.deep_view(),
            findings.deep_view(),
            filter@,
        ),
{
    let entries = choose_each(
        items,
        |i: &DriftCleanupRequestItem| -> (r: Option<DriftCleanupVolumeOwnershipEntry>)
            ensures
                r.deep_view() == volume_entry_of(
                    path@,
                    i.deep_view(),
                    candidates.deep_view(),
                    findings.deep_view(),
                    filter@,
                )
            {
                if same(&i.kind, "docker-volume") && (same(filter, "all") || same(
                    &i.approval_status,
                    filter,
                )) {
                    Some(
                        cleanup_volume_ownership_entry(
                            path,
                            i,
                            find_ownership(findings, &i.kind, &i.target),
                            current_candidate(candidates, &i.kind, &i.target),
                        ),
                    )
                } else {
                    None
                }
            },
        Ghost(
            |i: DriftCleanupRequestItemView|
                volume_entry_of(
                    path@,
                    i,
                    candidates.deep_view(),
                    findings.deep_view(),
                    filter@,
                ),
        ),
    );
    sort_stable(entries)
}

/// What the report counts.
#[derive(Debug, Clone, Copy)]
pub enum VolumeTrait {
    Current,
    Anonymous,
    Named,
    Attached,
    Owned,
    WithoutBackup,
    WithoutRestoreDrill,
}

/// Whether a volume counts.
pub open spec fn volume_has(entry: DriftCleanupVolumeOwnershipEntryView, t: VolumeTrait) -> bool {
    match t {
        VolumeTrait::Current => entry.current_candidate,
        VolumeTrait::Anonymous => entry.name_class == "anonymous_hash"@,
        VolumeTrait::Named => entry.name_class == "named_volume"@,
        VolumeTrait::Attached => entry.mounted_by_containers.len() > 0,
        VolumeTrait::Owned => entry.service_candidates.len() > 0,
        VolumeTrait::WithoutBackup => entry.backup_snapshot_id is None,
        VolumeTrait::WithoutRestoreDrill => entry.restore_drill_id is None,
    }
}

/// Whether a volume counts.
pub open spec fn having(t: VolumeTrait) -> spec_fn(DriftCleanupVolumeOwnershipEntryView) -> bool {
    |e: DriftCleanupVolumeOwnershipEntryView| volume_has(e, t)
}

/// How many volumes count.
pub open spec fn volumes_with(
    entries: Seq<DriftCleanupVolumeOwnershipEntryView>,
    t: VolumeTrait,
) -> nat {
    tally(entries, having(t))
}

/// How many volumes count.
pub fn count_volumes(entries: &Vec<DriftCleanupVolumeOwnershipEntry>, t: VolumeTrait) -> (r: usize)
    ensures
        r == volumes_with(entries.deep_view(), t),
{
    count_where(
        entries,
        |e: &DriftCleanupVolumeOwnershipEntry| -> (b: bool)
            ensures
                b == volume_has(e.deep_view(), t)
            {
                match t {
                    VolumeTrait::Current => e.current_candidate,
                    VolumeTrait::Anonymous => same(&e.name_class, "anonymous_hash"),
                    VolumeTrait::Named => same(&e.name_class, "named_volume"),
                    VolumeTrait::Attached => e.mounted_by_containers.len() > 0,
                    VolumeTrait::Owned => e.service_candidates.len() > 0,
                    VolumeTrait::WithoutBackup => e.backup_snapshot_id.is_none(),
                    VolumeTrait::WithoutRestoreDrill => e.restore_drill_id.is_none(),
                }
            },
        Ghost(having(t)),
    )
}

/// The target of a volume that is of a category.
pub open spec fn target_in(category: Seq<char>) -> spec_fn(
    DriftCleanupVolumeOwnershipEntryView,
) -> Option<Seq<char>> {
    |e: DriftCleanupVolumeOwnershipEntryView|
        if e.category == category {
            Some(e.target)
        } else {
            None
        }
}

/// The targets of a category, sorted.
pub open spec fn category_targets(
    entries: Seq<DriftCleanupVolumeOwnershipEntryView>,
    category: Seq<char>,
) -> Seq<Seq<char>> {
    sorted_by(chosen(entries, target_in(category)), rank::<String>())
}

/// What the report says of a category.
pub open spec fn volume_bucket(
    entries: Seq<DriftCleanupVolumeOwnershipEntryView>,
    category: Seq<char>,
) -> DriftCleanupVolumeOwnershipBucketView {
    DriftCleanupVolumeOwnershipBucketView {
        category,
        items: category_targets(entries, category).len(),
        sample_targets: front(category_targets(entries, category), 8),
        recommended_next_step: volume_next_step(category),
    }
}

/// The category of a volume.
pub open spec fn category_of() -> spec_fn(DriftCleanupVolumeOwnershipEntryView) -> Seq<char> {
    |e: DriftCleanupVolumeOwnershipEntryView| e.category
}

/// What the report says of each category that occurs.
pub open spec fn volume_buckets(entries: Seq<DriftCleanupVolumeOwnershipEntryView>) -> Seq<
    DriftCleanupVolumeOwnershipBucketView,
> {
    sorted_set(entries.map_values(category_of())).map_values(
        |c: Seq<char>| volume_bucket(entries, c),
    )
}

/// What the report says of a category.
pub fn cleanup_volume_bucket(entries: &Vec<DriftCleanupVolumeOwnershipEntry>, category: &str) -> (r:
    DriftCleanupVolumeOwnershipBucket)
    ensures
        r.deep_view() == volume_bucket(entries.deep_view(), category@),
{
    let targets = sort_stable(
        choose_each(
            entries,
            |e: &DriftCleanupVolumeOwnershipEntry| -> (r: Option<String>)
                ensures
                    r.deep_view() == (if e.deep_view().category == category@ {
                        Some(e.deep_view().target)
                    } else {
                        None
                    })
                {
                    if same(&e.category, category) {
                        Some(e.target.clone())
                    } else {
                        None
                    }
                },
            Ghost(target_in(category@)),
        ),
    );
    proof {
        assert(targets.deep_view() == category_targets(entries.deep_view(), category@));
        assert(targets.deep_view().len() == targets@.len());
    }
    let items = targets.len();
    DriftCleanupVolumeOwnershipBucket {
        category: category.to_string(),
        items,
        sample_targets: keep_front(targets, 8),
        recommended_next_step: cleanup_volume_recommended_next_step(category).to_string(),
    }
}

/// What the report says of each category that occurs.
pub fn cleanup_volume_ownership_buckets(entries: &Vec<DriftCleanupVolumeOwnershipEntry>) -> (r: Vec<
    DriftCleanupVolumeOwnershipBucket,
>)
    ensures
        r.deep_view() == volume_buckets(entries.deep_view()),
{
    let categories = unique_sorted(
        map_each(
            entries,
            |e: &DriftCleanupVolumeOwnershipEntry| -> (r: String)
                ensures
                    r.deep_view() == e.deep_view().category
                { e.category.clone() },
            Ghost(category_of()),
        ),
    );
    map_each(
        &categories,
        |c: &String| -> (r: DriftCleanupVolumeOwnershipBucket)
            ensures
                r.deep_view() == volume_bucket(entries.deep_view(), c@)
            { cleanup_volume_bucket(entries, c) },
        Ghost(|c: Seq<char>| volume_bucket(entries.deep_view(), c)),
    )
}

/// The commands that go on with a volume review.
pub open spec fn volume_safe_commands(path: Seq<char>) -> Seq<Seq<char>> {
    let request = shell_hint_spec(path);
    seq![
        "opsctl registry drift cleanup-request volume-ownership "@ + request
            + " --status needs_cleanup --json"@,
        "opsctl registry drift cleanup-request approval-pack "@ + request
            + " --kind docker-volume --status needs_cleanup --json"@,
        "opsctl registry drift cleanup-request evidence "@ + request
            + " --kind docker-volume --all --json"@,
    ]
}

/// The commands that go on with a volume review.
pub fn cleanup_volume_ownership_safe_commands(path: &str) -> (r: Vec<String>)
    ensures
        r.deep_view() == volume_safe_commands(path@),
{
    let request = shell_hint(path);
    let list: Vec<String> = vec![
        cat3(
            "opsctl registry drift cleanup-request volume-ownership ",
            &request,
            " --status needs_cleanup --json",
        ),
        cat3(
            "opsctl registry drift cleanup-request approval-pack ",
            &request,
            " --kind docker-volume --status needs_cleanup --json",
        ),
        cat3(
            "opsctl registry drift cleanup-request evidence ",
            &request,
            " --kind docker-volume --all --json",
        ),
    ];
    proof {
        assert(list.deep_view() =~= volume_safe_commands(path@));
    }
    list
}

/// The filter that keeps unregistered volumes.
pub open spec fn volume_filter() -> DriftFilterView {
    DriftFilterView { code: Some("observed_unregistered_docker_volume"@), target: None }
}

/// Who may own the volumes of a request. `ownership` speaks of volumes only.
pub open spec fn volume_report(
    build: DriftCleanupBuildView,
    ownership: DriftOwnershipReportView,
    request: LoadedRequestView,
    status_filter: Option<Seq<char>>,
    limit: nat,
) -> DriftCleanupVolumeOwnershipReportView {
    let filter = wanted_status(status_filter);
    let progress = request_progress(build, request);
    match request.document {
        None => DriftCleanupVolumeOwnershipReportView {
            ok: false,
            read_only: true,
            status: "blocked"@,
            request_file: request.path,
            filter_status: filter,
            limit: limit_of(limit),
            total_volume_items: 0,
            returned_items: 0,
            current_candidates: 0,
            anonymous_hash_volumes: 0,
            named_volumes: 0,
            attached_volumes: 0,
            unattached_volumes: 0,
            service_candidate_volumes: 0,
            backup_evidence_missing: 0,
            restore_drill_missing: 0,
            buckets: Seq::empty(),
            entries: Seq::empty(),
            safe_next_commands: Seq::empty(),
            limitations: seq![request.error],
        },
        Some(document) => {
            let limitations = progress.limitations + status_filter_remark(filter) + schema_remark(
                document,
            ) + ownership.limitations;
            let entries = volume_entries(
                request.path,
                document.items,
                build.candidates,
                ownership.findings,
                filter,
            );
            let ok = limitations.len() == 0;
            DriftCleanupVolumeOwnershipReportView {
                ok,
                read_only: true,
                status: if !ok {
                    "blocked"@
                } else if progress.missing_current > 0 || progress.stale_items > 0 {
                    "sync_required"@
                } else if entries.len() > 0 {
                    "volume_review_ready"@
                } else {
                    "empty"@
                },
                request_file: request.path,
                filter_status: filter,
                limit: limit_of(limit),
                total_volume_items: entries.len(),
                returned_items: front(entries, limit_of(limit)).len(),
                current_candidates: volumes_with(entries, VolumeTrait::Current),
                anonymous_hash_volumes: volumes_with(entries, VolumeTrait::Anonymous),
                named_volumes: volumes_with(entries, VolumeTrait::Named),
                attached_volumes: volumes_with(entries, VolumeTrait::Attached),
                unattached_volumes: (entries.len() - volumes_with(
                    entries,
                    VolumeTrait::Attached,
                )) as nat,
                service_candidate_volumes: volumes_with(entries, VolumeTrait::Owned),
                backup_evidence_missing: volumes_with(entries, VolumeTrait::WithoutBackup),
                restore_drill_missing: volumes_with(entries, VolumeTrait::WithoutRestoreDrill),
                buckets: volume_buckets(entries),
                entries: front(entries, limit_of(limit)),
                safe_next_commands: volume_safe_commands(request.path),
                limitations: sorted_set(limitations),
            }
        },
    }
}

/// Who may own the volumes of a request, from what the server shows.
pub fn volume_ownership_against(
    build: &DriftCleanupBuild,
    ownership: &DriftOwnershipReport,
    request: &LoadedRequest,
    status_filter: Option<&str>,
    limit: usize,
) -> (r: DriftCleanupVolumeOwnershipReport)
    ensures
        r.deep_view() == volume_report(
            build.deep_view(),
            ownership.deep_view(),
            request.deep_view(),
            status_filter.deep_view(),
            limit as nat,
        ),
{
    let filter_status = read_status_filter(status_filter);
    let limit = read_limit(limit);
    let document = match &request.document {
        Some(document) => document,
        None => {
            return DriftCleanupVolumeOwnershipReport {
                ok: false,
                read_only: true,
                status: "blocked".to_string(),
                request_file: request.path.clone(),
                filter_status,
                limit,
                total_volume_items: 0,
                returned_items: 0,
                current_candidates: 0,
                anonymous_hash_volumes: 0,
                named_volumes: 0,
                attached_volumes: 0,
                unattached_volumes: 0,
                service_candidate_volumes: 0,
                backup_evidence_missing: 0,
                restore_drill_missing: 0,
                buckets: Vec::new(),
                entries: Vec::new(),
                safe_next_commands: Vec::new(),
                limitations: vec![request.error.clone()],
            };
        },
    };
    let progress = progress_against(build, request);
    let missing_current = progress.missing_current;
    let stale_items = progress.stale_items;
    let mut limitations = progress.limitations;
    note_status_filter(&filter_status, &mut limitations);
    note_schema(document, &mut limitations);
    extend(&mut limitations, &ownership.limitations);
    let entries = list_volume_entries(
        &request.path,
        &document.items,
        &build.candidates,
        &ownership.findings,
        &filter_status,
    );
    proof {
        lemma_tally_bound(entries.deep_view(), having(VolumeTrait::Attached));
        assert(entries.deep_view().len() == entries@.len());
    }
    let total_volume_items = entries.len();
    let attached_volumes = count_volumes(&entries, VolumeTrait::Attached);
    let current_candidates = count_volumes(&entries, VolumeTrait::Current);
    let anonymous_hash_volumes = count_volumes(&entries, VolumeTrait::Anonymous);
    let named_volumes = count_volumes(&entries, VolumeTrait::Named);
    let service_candidate_volumes = count_volumes(&entries, VolumeTrait::Owned);
    let backup_evidence_missing = count_volumes(&entries, VolumeTrait::WithoutBackup);
    let restore_drill_missing = count_volumes(&entries, VolumeTrait::WithoutRestoreDrill);
    let buckets = cleanup_volume_ownership_buckets(&entries);
    let entries = keep_front(entries, limit);
    proof {
        assert(entries.deep_view().len() == entries@.len());
    }
    let ok = limitations.is_empty();
    let status = if !ok {
        "blocked"
    } else if missing_current > 0 || stale_items > 0 {
        "sync_required"
    } else if total_volume_items > 0 {
        "volume_review_ready"
    } else {
        "empty"
    };
    DriftCleanupVolumeOwnershipReport {
        ok,
        read_only: true,
        status: status.to_string(),
        request_file: request.path.clone(),
        filter_status,
        limit,
        total_volume_items,
        returned_items: entries.len(),
        current_candidates,
        anonymous_hash_volumes,
        named_volumes,
        attached_volumes,
        unattached_volumes: total_volume_items - attached_volumes,
        service_candidate_volumes,
        backup_evidence_missing,
        restore_drill_missing,
        buckets,
        entries,
        safe_next_commands: cleanup_volume_ownership_safe_commands(&request.path),
        limitations: unique_sorted(limitations),
    }
}

/// Who may own the volumes of a request.
pub fn drift_cleanup_volume_ownership(
    registry: &Registry,
    observation: &Observation,
    request: &LoadedRequest,
    status_filter: Option<&str>,
    limit: usize,
) -> (r: DriftCleanupVolumeOwnershipReport)
    ensures
        r.deep_view() == volume_report(
            cleanup_build(registry.deep_view(), observation.deep_view()),
            drift_ownership_spec(registry.deep_view(), observation.deep_view(), volume_filter()),
            request.deep_view(),
            status_filter.deep_view(),
            limit as nat,
        ),
{
    let build = build_drift_cleanup(registry, observation);
    let ownership = read_volume_ownership(registry, observation);
    volume_ownership_against(&build, &ownership, request, status_filter, limit)
}

/// What is known of the owners of unregistered volumes.
pub fn read_volume_ownership(registry: &Registry, observation: &Observation) -> (r:
    DriftOwnershipReport)
    ensures
        r.deep_view() == drift_ownership_spec(
            registry.deep_view(),
            observation.deep_view(),
            volume_filter(),
        ),
{
    drift_ownership(
        registry,
        observation,
        &DriftFilter { code: Some("observed_unregistered_docker_volume"), target: None },
    )
}

// ---------------------------------------------------------------------------
// Laws
// ---------------------------------------------------------------------------

/// A volume that a container still mounts is never shown as unattached.
pub proof fn law_mounted_volume_is_not_unattached(
    path: Seq<char>,
    item: DriftCleanupRequestItemView,
    ownership: Option<DriftOwnershipFindingView>,
    current: bool,
)
    requires
        volume_entry(path, item, ownership, current).mounted_by_containers.len() > 0,
    ensures
        volume_entry(path, item, ownership, current).category != "named_unattached_volume"@,
        volume_entry(path, item, ownership, current).category != "anonymous_unattached_volume"@,
{
    reveal_strlit("stale_review_item");
    reveal_strlit("service_candidate");
    reveal_strlit("attached_unregistered_container");
    reveal_strlit("named_unattached_volume");
    reveal_strlit("anonymous_unattached_volume");
    assert("stale_review_item"@[0] == 's');
    assert("service_candidate"@[0] == 's');
    assert("named_unattached_volume"@[0] == 'n');
    assert("anonymous_unattached_volume"@[1] == 'n');
    assert("attached_unregistered_container"@[1] == 't');
    assert("anonymous_unattached_volume"@[0] == 'a');
    assert("attached_unregistered_container"@[0] == 'a');
}

/// How many volumes a bucket stands for.
pub open spec fn bucket_size() -> spec_fn(DriftCleanupVolumeOwnershipBucketView) -> nat {
    |b: DriftCleanupVolumeOwnershipBucketView| b.items
}

/// Whether the name of a volume is of one of the two classes.
pub open spec fn is_classed() -> spec_fn(DriftCleanupVolumeOwnershipEntryView) -> bool {
    |e: DriftCleanupVolumeOwnershipEntryView|
        volume_has(e, VolumeTrait::Anonymous) != volume_has(e, VolumeTrait::Named)
}

proof fn lemma_chosen_are_classed(
    path: Seq<char>,
    items: Seq<DriftCleanupRequestItemView>,
    candidates: Seq<DriftCleanupCandidateView>,
    findings: Seq<DriftOwnershipFindingView>,
    filter: Seq<char>,
)
    ensures
        ({
            let entries = chosen(
                items,
                |i: DriftCleanupRequestItemView|
                    volume_entry_of(path, i, candidates, findings, filter),
            );
            forall|i: int| 0 <= i < entries.len() ==> is_classed()(#[trigger] entries[i])
        }),
    decreases items.len(),
{
    if items.len() > 0 {
        reveal_strlit("anonymous_hash");
        reveal_strlit("named_volume");
        assert("anonymous_hash"@.len() != "named_volume"@.len());
        lemma_chosen_are_classed(path, items.drop_last(), candidates, findings, filter);
        let f = |i: DriftCleanupRequestItemView|
            volume_entry_of(path, i, candidates, findings, filter);
        let rest = chosen(items.drop_last(), f);
        let entries = chosen(items, f);
        assert forall|i: int| 0 <= i < entries.len() implies is_classed()(
            #[trigger] entries[i],
        ) by {
            if i < rest.len() {
                assert(entries[i] == rest[i]);
            } else {
                assert(f(items.last()) == Some(entries[i]));
            }
        }
    }
}

proof fn lemma_classed(
    path: Seq<char>,
    items: Seq<DriftCleanupRequestItemView>,
    candidates: Seq<DriftCleanupCandidateView>,
    findings: Seq<DriftOwnershipFindingView>,
    filter: Seq<char>,
)
    ensures
        ({
            let entries = volume_entries(path, items, candidates, findings, filter);
            volumes_with(entries, VolumeTrait::Anonymous) + volumes_with(entries, VolumeTrait::Named)
                == entries.len()
        }),
{
    let entries = volume_entries(path, items, candidates, findings, filter);
    let unsorted = chosen(
        items,
        |i: DriftCleanupRequestItemView| volume_entry_of(path, i, candidates, findings, filter),
    );
    lemma_chosen_are_classed(path, items, candidates, findings, filter);
    lemma_sorted_by_keeps(unsorted, rank::<DriftCleanupVolumeOwnershipEntry>(), is_classed());
    assert forall|i: int| 0 <= i < entries.len() implies having(VolumeTrait::Anonymous)(
        #[trigger] entries[i],
    ) != having(VolumeTrait::Named)(entries[i]) by {
        assert(is_classed()(entries[i]));
    }
    lemma_tally_split(entries, having(VolumeTrait::Anonymous), having(VolumeTrait::Named));
}

proof fn lemma_category_size(
    entries: Seq<DriftCleanupVolumeOwnershipEntryView>,
    category: Seq<char>,
)
    ensures
        chosen(entries, target_in(category)).len() == with_key(entries, category_of(), category),
    decreases entries.len(),
{
    if entries.len() > 0 {
        lemma_category_size(entries.drop_last(), category);
    }
}

proof fn lemma_bucket_sizes(
    entries: Seq<DriftCleanupVolumeOwnershipEntryView>,
    categories: Seq<Seq<char>>,
)
    ensures
        total(
            categories.map_values(|c: Seq<char>| volume_bucket(entries, c)),
            bucket_size(),
        ) == total(categories, |c: Seq<char>| with_key(entries, category_of(), c)),
    decreases categories.len(),
{
    if categories.len() > 0 {
        let d = categories.drop_last();
        let c = categories.last();
        lemma_bucket_sizes(entries, d);
        lemma_category_size(entries, c);
        lemma_sorted_by_keeps(
            chosen(entries, target_in(c)),
            rank::<String>(),
            |t: Seq<char>| true,
        );
        let buckets = categories.map_values(|c: Seq<char>| volume_bucket(entries, c));
        assert(buckets.drop_last() =~= d.map_values(|c: Seq<char>| volume_bucket(entries, c)));
        assert(buckets.last() == volume_bucket(entries, c));
    }
}

proof fn lemma_buckets_cover(entries: Seq<DriftCleanupVolumeOwnershipEntryView>)
    ensures
        total(volume_buckets(entries), bucket_size()) == entries.len(),
{
    let all = entries.map_values(category_of());
    let categories = sorted_set(all);
    law_sorted_set(all);
    assert forall|i: int, j: int|
        0 <= i < categories.len() && 0 <= j < categories.len() && i
            != j implies categories[i] != categories[j] by {
        lemma_text_lt_irreflexive(categories[i]);
    }
    assert forall|i: int| 0 <= i < entries.len() implies categories.contains(
        category_of()(#[trigger] entries[i]),
    ) by {
        assert(all[i] == category_of()(entries[i]));
        assert(all.contains(all[i]));
    }
    lemma_parts_cover(entries, categories, category_of());
    lemma_bucket_sizes(entries, categories);
}

/// The counts of a report on volumes agree: each volume has a name of one of two
/// classes, is attached or not, and stands in one bucket. All volumes are returned, up
/// to the limit, which is at least one.
pub proof fn law_volume_counts_agree(
    build: DriftCleanupBuildView,
    ownership: DriftOwnershipReportView,
    request: LoadedRequestView,
    status_filter: Option<Seq<char>>,
    limit: nat,
)
    ensures
        ({
            let r = volume_report(build, ownership, request, status_filter, limit);
            let most: nat = if limit < 1 {
                1
            } else {
                limit
            };
            &&& r.anonymous_hash_volumes + r.named_volumes == r.total_volume_items
            &&& r.attached_volumes + r.unattached_volumes == r.total_volume_items
            &&& total(r.buckets, bucket_size()) == r.total_volume_items
            &&& r.returned_items == (if r.total_volume_items < most {
                r.total_volume_items
            } else {
                most
            })
            &&& r.entries.len() == r.returned_items
        }),
{
    if request.document is Some {
        let filter = wanted_status(status_filter);
        let entries = volume_entries(
            request.path,
            request.document->0.items,
            build.candidates,
            ownership.findings,
            filter,
        );
        lemma_classed(
            request.path,
            request.document->0.items,
            build.candidates,
            ownership.findings,
            filter,
        );
        lemma_tally_bound(entries, having(VolumeTrait::Attached));
        lemma_buckets_cover(entries);
    }
}

/// A larger limit shows the same volumes first and changes nothing else: the limit, the
/// number of volumes that are returned and the volumes themselves apart, the reports
/// are equal.
pub proof fn law_larger_limits_show_more_volumes(
    build: DriftCleanupBuildView,
    ownership: DriftOwnershipReportView,
    request: LoadedRequestView,
    status_filter: Option<Seq<char>>,
    small: nat,
    large: nat,
)
    requires
        small <= large,
    ensures
        ({
            let a = volume_report(build, ownership, request, status_filter, small);
            let b = volume_report(build, ownership, request, status_filter, large);
            &&& a.entries.is_prefix_of(b.entries)
            &&& a == (DriftCleanupVolumeOwnershipReportView {
                limit: a.limit,
                returned_items: a.returned_items,
                entries: a.entries,
                ..b
            })
        }),
{
}

/// The status that is asked for: what was given, trimmed and in small letters, or those
/// that need cleanup where nothing was. Five can be asked for.
pub proof fn law_wanted_statuses(filter: Option<Seq<char>>, status: Seq<char>, other: Seq<char>)
    ensures
        filter is Some && trimmed(filter->0).len() > 0 ==> wanted_status(filter) == lowered(
            trimmed(filter->0),
        ),
        filter is None || trimmed(filter->0).len() == 0 ==> wanted_status(filter)
            == "needs_cleanup"@,
        status_filter_remark(status).len() == 0 <==> status == "all"@ || status == "unknown"@
            || status == "needs_cleanup"@ || status == "approved"@ || status == "rejected"@,
        status_passes(status, other) <==> other == "all"@ || other == status,
{
    reveal_strlit("needs_cleanup");
    let word = "needs_cleanup"@;
    assert(lowered(word) =~= word);
}

/// What evidence tells of something: each text behind the prefix.
pub proof fn law_evidence_values(evidence: Seq<Seq<char>>, prefix: Seq<char>, value: Seq<char>)
    ensures
        evidence_values_spec(evidence, prefix).contains(value) <==> evidence.contains(
            prefix + value,
        ),
{
    let f = |e: Seq<char>| after_prefix(e, prefix);
    law_chosen(evidence, f, value);
    law_sorted_set(chosen(evidence, f));
    law_parts_are_found(Seq::empty(), prefix, value);
    if evidence.contains(prefix + value) {
        let i = choose|i: int| 0 <= i < evidence.len() && evidence[i] == prefix + value;
        assert(f(evidence[i]) == Some(value));
    }
    if chosen(evidence, f).contains(value) {
        let i = choose|i: int| 0 <= i < evidence.len() && f(#[trigger] evidence[i]) == Some(value);
        law_found_parts_are_there(evidence[i], prefix);
        assert(evidence.contains(prefix + value));
    }
}

/// The value that evidence gives something is that of the first text with the prefix.
pub proof fn law_first_values(evidence: Seq<Seq<char>>, prefix: Seq<char>)
    ensures
        first_value(evidence, prefix) is None <==> forall|i: int|
            0 <= i < evidence.len() ==> !begins(#[trigger] evidence[i], prefix),
        first_value(evidence, prefix) is Some ==> exists|i: int|
            0 <= i < evidence.len() && #[trigger] evidence[i] == prefix + first_value(
                evidence,
                prefix,
            )->0 && forall|j: int| 0 <= j < i ==> !begins(#[trigger] evidence[j], prefix),
        first_flag(evidence, prefix) == Some(true) <==> first_value(evidence, prefix) == Some(
            "true"@,
        ),
        first_flag(evidence, prefix) == Some(false) <==> first_value(evidence, prefix) == Some(
            "false"@,
        ),
{
    let f = |e: Seq<char>| after_prefix(e, prefix);
    law_first_some(evidence, f);
    reveal_strlit("true");
    reveal_strlit("false");
    assert("true"@.len() == 4 && "false"@.len() == 5);
    if first_some(evidence, f) is Some {
        let i = choose|i: int|
            0 <= i < evidence.len() && f(#[trigger] evidence[i]) == first_some(evidence, f)
                && forall|j: int| 0 <= j < i ==> f(#[trigger] evidence[j]) is None;
        law_found_parts_are_there(evidence[i], prefix);
        assert(evidence[i] == prefix + first_value(evidence, prefix)->0);
        assert(begins(evidence[i], prefix));
        assert forall|j: int| 0 <= j < i implies !begins(#[trigger] evidence[j], prefix) by {
            assert(f(evidence[j]) is None);
        }
    } else {
        assert forall|i: int| 0 <= i < evidence.len() implies !begins(
            #[trigger] evidence[i],
            prefix,
        ) by {
            assert(f(evidence[i]) is None);
        }
    }
}

/// A volume is anonymous exactly where its name is 64 bytes of hex digits.
pub proof fn law_anonymous_names(name: Seq<char>)
    ensures
        anonymous_name(name) <==> byte_len(name) == 64 && forall|i: int|
            0 <= i < name.len() ==> '0' <= #[trigger] name[i] <= '9' || 'a' <= name[i] <= 'f'
                || 'A' <= name[i] <= 'F',
{
    if anonymous_name(name) {
        assert forall|i: int| 0 <= i < name.len() implies '0' <= #[trigger] name[i] <= '9' || 'a'
            <= name[i] <= 'f' || 'A' <= name[i] <= 'F' by {
            assert(is_hex(name[i]));
        }
    }
    if forall|i: int|
        0 <= i < name.len() ==> '0' <= #[trigger] name[i] <= '9' || 'a' <= name[i] <= 'f' || 'A'
            <= name[i] <= 'F' {
        assert forall|i: int| 0 <= i < name.len() implies is_hex(#[trigger] name[i]) by {}
    }
}

/// What hints at a database.
pub proof fn law_database_hints(hints: Seq<Seq<char>>)
    ensures
        some_database_hint(hints) <==> hints.contains("mysql_or_mariadb_datadir"@)
            || hints.contains("postgres_datadir"@) || hints.contains("redis_datadir"@)
            || hints.contains("sqlite_database_files"@),
{
    let p = |h: Seq<char>| database_hint(h);
    lemma_any(hints, p);
    if some_database_hint(hints) {
        let i = choose|i: int| 0 <= i < hints.len() && p(#[trigger] hints[i]);
        assert(hints.contains(hints[i]));
    }
    assert forall|x: Seq<char>| #[trigger] hints.contains(x) && database_hint(x) implies any(
        hints,
        p,
    ) by {
        let i = choose|i: int| 0 <= i < hints.len() && hints[i] == x;
        assert(p(hints[i]));
    }
}

/// What approving the cleanup of a volume still needs: that somebody approved it, a
/// snapshot and a restore drill.
pub proof fn law_what_a_volume_lacks(item: DriftCleanupRequestItemView)
    ensures
        ({
            let missing = volume_missing(item);
            &&& missing.contains("approval_status must be approved by a human operator"@)
                <==> item.approval_status != "approved"@
            &&& missing.contains(
                "backup_snapshot_id is required before volume cleanup approval"@,
            ) <==> item.backup_snapshot_id is None || item.backup_snapshot_id->0.len() == 0
            &&& missing.contains(
                "restore_drill_id is required before volume cleanup approval"@,
            ) <==> item.restore_drill_id is None || item.restore_drill_id->0.len() == 0
        }),
{
    let a = "approval_status must be approved by a human operator"@;
    let b = "backup_snapshot_id is required before volume cleanup approval"@;
    let c = "restore_drill_id is required before volume cleanup approval"@;
    reveal_strlit("approval_status must be approved by a human operator");
    reveal_strlit("backup_snapshot_id is required before volume cleanup approval");
    reveal_strlit("restore_drill_id is required before volume cleanup approval");
    assert(a[0] == 'a' && b[0] == 'b' && c[0] == 'r');
    let n1 = noted(item.approval_status != "approved"@, a);
    let n2 = noted(blank(item.backup_snapshot_id), b);
    let n3 = noted(blank(item.restore_drill_id), c);
    let s1 = Seq::empty() + n1;
    let s2 = s1 + n2;
    assert(equal(volume_missing(item), s2 + n3));
    assert(s1 =~= n1);
    assert forall|x: Seq<char>| #[trigger] volume_missing(item).contains(x) <==> n1.contains(x)
        || n2.contains(x) || n3.contains(x) by {
        law_either_list(s2, n3, x);
        law_either_list(n1, n2, x);
    }
    law_noted(item.approval_status != "approved"@, a, a);
    law_noted(item.approval_status != "approved"@, a, b);
    law_noted(item.approval_status != "approved"@, a, c);
    law_noted(blank(item.backup_snapshot_id), b, a);
    law_noted(blank(item.backup_snapshot_id), b, b);
    law_noted(blank(item.backup_snapshot_id), b, c);
    law_noted(blank(item.restore_drill_id), c, a);
    law_noted(blank(item.restore_drill_id), c, b);
    law_noted(blank(item.restore_drill_id), c, c);
}

/// What a volume's entry tells: of an item, what became of it, who may own it and who
/// mounts it. Its category follows from these.
pub proof fn law_volume_entries(
    path: Seq<char>,
    item: DriftCleanupRequestItemView,
    ownership: Option<DriftOwnershipFindingView>,
    current: bool,
)
    ensures
        ({
            let e = volume_entry(path, item, ownership, current);
            let owned = match ownership {
                Some(f) => f.service_candidates.len() > 0,
                None => e.service_candidates.len() > 0,
            };
            let mounted = e.mounted_by_containers.len() > 0;
            &&& e.request_id == item.request_id && e.target == item.target && e.approval_status
                == item.approval_status && e.current_candidate == current
            &&& e.backup_snapshot_id == item.backup_snapshot_id && e.restore_drill_id
                == item.restore_drill_id
            &&& e.name_class == "anonymous_hash"@ <==> anonymous_name(item.target)
            &&& e.name_class == "named_volume"@ <==> !anonymous_name(item.target)
            &&& e.category == "stale_review_item"@ <==> !current
            &&& e.category == "service_candidate"@ <==> current && owned
            &&& e.category == "attached_unregistered_container"@ <==> current && !owned && mounted
            &&& e.category == "named_unattached_volume"@ <==> current && !owned && !mounted
                && !anonymous_name(item.target)
            &&& e.category == "anonymous_unattached_volume"@ <==> current && !owned && !mounted
                && anonymous_name(item.target)
            &&& ownership matches Some(f) ==> forall|id: Seq<char>|
                #![trigger e.service_candidates.contains(id)]
                e.service_candidates.contains(id) <==> f.service_candidates.contains(id)
            &&& ownership matches Some(f) ==> (e.confidence == "medium_single_service_candidate"@
                <== f.service_candidates.len() == 1) && (e.confidence
                == "low_multiple_service_candidates"@ <== f.service_candidates.len() > 1)
            &&& forall|x: Seq<char>|
                #![trigger e.evidence.contains(x)]
                item.collected_evidence.contains(x) ==> e.evidence.contains(x)
            &&& forall|x: Seq<char>|
                #![trigger e.mounted_by_containers.contains(x)]
                e.mounted_by_containers.contains(x) <==> e.evidence.contains(
                    "mounted_by_container="@ + x,
                )
        }),
{
    let e = volume_entry(path, item, ownership, current);
    let evidence = volume_evidence(item, ownership);
    let owners = volume_owners(evidence, ownership);
    law_sorted_set(owners);
    lemma_volume_words();
    if owners.len() > 0 {
        assert(owners.contains(owners[0]));
        assert(sorted_set(owners).contains(owners[0]));
        assert(sorted_set(owners).len() > 0);
    }
    assert forall|x: Seq<char>| item.collected_evidence.contains(x) implies
        #[trigger] e.evidence.contains(x) by {
        match ownership {
            None => {
                law_sorted_set(item.collected_evidence);
            },
            Some(f) => {
                let a = item.collected_evidence + f.evidence;
                let b = a + all_labelled("service_candidate="@, f.service_candidates);
                let c = b + all_labelled("resource_fingerprint="@, f.resource_fingerprint);
                let d = c.push("ownership_confidence="@ + f.confidence);
                let z = d.push("review_action="@ + f.review_action);
                assert(equal(evidence, sorted_set(z)));
                law_either_list(item.collected_evidence, f.evidence, x);
                law_either_list(a, all_labelled("service_candidate="@, f.service_candidates), x);
                law_either_list(
                    b,
                    all_labelled("resource_fingerprint="@, f.resource_fingerprint),
                    x,
                );
                law_one_more(c, "ownership_confidence="@ + f.confidence, x);
                law_one_more(d, "review_action="@ + f.review_action, x);
                law_sorted_set(z);
            },
        }
    }
    assert forall|x: Seq<char>| #[trigger] e.mounted_by_containers.contains(x)
        <==> e.evidence.contains("mounted_by_container="@ + x) by {
        law_evidence_values(evidence, "mounted_by_container="@, x);
    }
}

proof fn lemma_volume_words()
    ensures
        "anonymous_hash"@.len() == 14,
        "named_volume"@.len() == 12,
        "stale_review_item"@[0] == 's' && "stale_review_item"@[1] == 't',
        "service_candidate"@[0] == 's' && "service_candidate"@[1] == 'e',
        "attached_unregistered_container"@[0] == 'a' && "attached_unregistered_container"@[1] == 't',
        "named_unattached_volume"@[0] == 'n',
        "anonymous_unattached_volume"@[0] == 'a' && "anonymous_unattached_volume"@[1] == 'n',
{
    reveal_strlit("anonymous_hash");
    reveal_strlit("named_volume");
    reveal_strlit("stale_review_item");
    reveal_strlit("service_candidate");
    reveal_strlit("attached_unregistered_container");
    reveal_strlit("named_unattached_volume");
    reveal_strlit("anonymous_unattached_volume");
}

/// Which volumes are listed: those of items that are volumes with the status asked for.
pub proof fn law_which_volumes_are_listed(
    path: Seq<char>,
    item: DriftCleanupRequestItemView,
    candidates: Seq<DriftCleanupCandidateView>,
    findings: Seq<DriftOwnershipFindingView>,
    filter: Seq<char>,
)
    ensures
        volume_entry_of(path, item, candidates, findings, filter) is Some <==> item.kind
            == "docker-volume"@ && (filter == "all"@ || filter == item.approval_status),
        volume_entry_of(path, item, candidates, findings, filter) matches Some(e) ==> e.target
            == item.target && e.request_id == item.request_id && (e.current_candidate
            <==> is_current(candidates, item_key(item))),
{
}

/// A report on volumes is blocked exactly where something stands against it; else the
/// request is to be synced, or there are volumes to review, or none.
pub proof fn law_what_a_volume_report_comes_to(
    build: DriftCleanupBuildView,
    ownership: DriftOwnershipReportView,
    request: LoadedRequestView,
    status_filter: Option<Seq<char>>,
    limit: nat,
)
    requires
        request.document is Some,
    ensures
        ({
            let r = volume_report(build, ownership, request, status_filter, limit);
            let progress = request_progress(build, request);
            let behind = progress.missing_current > 0 || progress.stale_items > 0;
            &&& r.ok <==> progress.limitations.len() == 0 && ownership.limitations.len() == 0
                && request.document->0.schema_version == "opsctl.drift_cleanup_request.v1"@ && (
            r.filter_status == "all"@ || r.filter_status == "unknown"@ || r.filter_status
                == "needs_cleanup"@ || r.filter_status == "approved"@ || r.filter_status
                == "rejected"@)
            &&& r.status == "blocked"@ <==> !r.ok
            &&& r.status == "sync_required"@ <==> r.ok && behind
            &&& r.status == "volume_review_ready"@ <==> r.ok && !behind && r.total_volume_items > 0
            &&& r.status == "empty"@ <==> r.ok && !behind && r.total_volume_items == 0
            &&& r.read_only
        }),
{
    reveal_strlit("blocked");
    reveal_strlit("sync_required");
    reveal_strlit("volume_review_ready");
    reveal_strlit("empty");
    assert("blocked"@[0] == 'b' && "sync_required"@[0] == 's' && "volume_review_ready"@[0] == 'v'
        && "empty"@[0] == 'e');
}

/// Volumes are listed by category: those with a candidate for their owner first, then the
/// attached ones, the named and the anonymous ones, and the stale ones last.
pub proof fn law_which_volumes_come_first(
    path: Seq<char>,
    items: Seq<DriftCleanupRequestItemView>,
    candidates: Seq<DriftCleanupCandidateView>,
    findings: Seq<DriftOwnershipFindingView>,
    filter: Seq<char>,
    i: int,
    j: int,
)
    requires
        0 <= i < j < volume_entries(path, items, candidates, findings, filter).len(),
    ensures
        ({
            let all = volume_entries(path, items, candidates, findings, filter);
            &&& all[j].category == "service_candidate"@ ==> all[i].category == "service_candidate"@
            &&& all[i].category == "stale_review_item"@ ==> all[j].category != "service_candidate"@
                && all[j].category != "attached_unregistered_container"@ && all[j].category
                != "named_unattached_volume"@ && all[j].category != "anonymous_unattached_volume"@
            &&& all[i].category == all[j].category ==> !text_lt(all[j].target, all[i].target)
        }),
{
    let s = chosen(
        items,
        |i: DriftCleanupRequestItemView| volume_entry_of(path, i, candidates, findings, filter),
    );
    let before = rank::<DriftCleanupVolumeOwnershipEntry>();
    lemma_sorted_by_keeps(s, before, |x: DriftCleanupVolumeOwnershipEntryView| true);
    lemma_text_lt_irreflexive(Seq::empty());
    law_ranked(
        s,
        before,
        |x: DriftCleanupVolumeOwnershipEntryView| category_rank(x.category) as int,
        |x: DriftCleanupVolumeOwnershipEntryView| (x.target, Seq::empty()),
        i,
        j,
    );
    lemma_volume_words();
}

/// What a volume counts as.
pub proof fn law_what_volumes_count_as(entry: DriftCleanupVolumeOwnershipEntryView)
    ensures
        volume_has(entry, VolumeTrait::Current) <==> entry.current_candidate,
        volume_has(entry, VolumeTrait::Anonymous) <==> entry.name_class == "anonymous_hash"@,
        volume_has(entry, VolumeTrait::Named) <==> entry.name_class == "named_volume"@,
        volume_has(entry, VolumeTrait::Attached) <==> entry.mounted_by_containers.len() > 0,
        volume_has(entry, VolumeTrait::Owned) <==> entry.service_candidates.len() > 0,
        volume_has(entry, VolumeTrait::WithoutBackup) <==> entry.backup_snapshot_id is None,
        volume_has(entry, VolumeTrait::WithoutRestoreDrill) <==> entry.restore_drill_id is None,
{
}

} // verus!
