//! Which evidence an approval still needs, and how to get it.

use vstd::prelude::*;
use crate::drift::approval::{approval_pack, drift_cleanup_approval_pack};
use crate::drift::candidates::{LoadedRequest, cleanup_build};
use crate::drift::ownership::{any_contains, drift_ownership_spec};
use crate::drift::types::{
    DriftCleanupApprovalPackEntry, DriftCleanupApprovalPackEntryView,
    DriftCleanupApprovalPackReport, DriftCleanupApprovalPackReportView,
    DriftCleanupEvidencePlanBatchStep, DriftCleanupEvidencePlanBatchStepView,
    DriftCleanupEvidencePlanEntry, DriftCleanupEvidencePlanEntryView,
    DriftCleanupEvidencePlanReport, DriftCleanupEvidencePlanReportView,
    DriftCleanupEvidencePlanVolumeGroup, DriftCleanupEvidencePlanVolumeGroupView,
};
use crate::drift::verify::is_set;
use crate::drift::volumes::{
    any_database_hint, database_hint, law_database_hints, some_database_hint,
    volume_content_hint_is_database_like, volume_filter,
};
use crate::each::{choose_each, count_where, keep_front, map_each};
use crate::list::{
    any, chosen, front, includes, kept, law_sorted_set, law_tally, lemma_any, lemma_parts_cover,
    lemma_text_lt_irreflexive, note, noted, put, rank, sort_stable, sorted_by, sorted_set, tally,
    total, unique_sorted, with_key,
};
use crate::registry::Registry;
use crate::scan::Observation;
use crate::text::{cat3, cat5, holds, same, shell_hint, shell_hint_spec};

verus! {

broadcast use {vstd::seq::group_seq_axioms, vstd::string::group_string_axioms};

// ---------------------------------------------------------------------------
// One entry
// ---------------------------------------------------------------------------

/// Whether some text holds a part.
pub open spec fn some_holds(texts: Seq<Seq<char>>, part: Seq<char>) -> bool {
    any(texts, |t: Seq<char>| holds(t, part))
}

/// Whether a backup is still to be recorded.
pub open spec fn wants_backup(required: Seq<Seq<char>>) -> bool {
    some_holds(required, "backup_snapshot_id"@)
}

/// Whether a restore drill is still to be recorded.
pub open spec fn wants_restore(required: Seq<Seq<char>>) -> bool {
    some_holds(required, "restore_drill_id"@)
}

/// How far the evidence for an item has come.
pub open spec fn evidence_stage(entry: DriftCleanupApprovalPackEntryView) -> Seq<char> {
    if !entry.current_candidate {
        "sync_required"@
    } else if entry.blockers.len() > 0 {
        "blocked"@
    } else if entry.approval_status == "unknown"@ {
        "classify_owner"@
    } else if wants_backup(entry.required_evidence) || wants_restore(entry.required_evidence) {
        "backup_restore_required"@
    } else if entry.approval_status != "approved"@ {
        "approval_required"@
    } else {
        "ready_for_execution_request"@
    }
}

/// How far the evidence for an item has come.
pub fn cleanup_evidence_stage(entry: &DriftCleanupApprovalPackEntry) -> (r: &'static str)
    ensures
        r@ == evidence_stage(entry.deep_view()),
{
    if !entry.current_candidate {
        "sync_required"
    } else if entry.blockers.len() > 0 {
        "blocked"
    } else if same(&entry.approval_status, "unknown") {
        "classify_owner"
    } else if any_contains(&entry.required_evidence, "backup_snapshot_id") || any_contains(
        &entry.required_evidence,
        "restore_drill_id",
    ) {
        "backup_restore_required"
    } else if !same(&entry.approval_status, "approved") {
        "approval_required"
    } else {
        "ready_for_execution_request"
    }
}

/// The commands that collect evidence for an item.
pub open spec fn evidence_commands(path: Seq<char>, entry: DriftCleanupApprovalPackEntryView) -> Seq<Seq<char>> {
    let request = shell_hint_spec(path);
    Seq::<Seq<char>>::empty().push(
        "opsctl registry drift cleanup-request evidence "@ + request + " --request-id "@ + shell_hint_spec(entry.request_id) + " --execute"@,
    ) + noted(
        entry.kind == "docker-volume"@,
        "opsctl registry drift ownership --code observed_unregistered_docker_volume --target "@ + shell_hint_spec(entry.target) + " --json"@,
    ) + noted(
        entry.kind == "docker-volume"@,
        "opsctl registry drift cleanup-request volume-ownership "@ + request + " --status needs_cleanup --json"@,
    )
}

/// The commands that collect evidence for an item.
pub fn list_evidence_commands(path: &str, entry: &DriftCleanupApprovalPackEntry) -> (r: Vec<String>)
    ensures
        r.deep_view() == evidence_commands(path@, entry.deep_view()),
{
    let request = shell_hint(path);
    let mut list: Vec<String> = Vec::new();
    proof {
        assert(list.deep_view() =~= Seq::<Seq<char>>::empty());
    }
    put(
        &mut list,
        &cat5("opsctl registry drift cleanup-request evidence ", &request, " --request-id ", &shell_hint(&entry.request_id), " --execute"),
    );
    note(
        &mut list,
        same(&entry.kind, "docker-volume"),
        &cat3("opsctl registry drift ownership --code observed_unregistered_docker_volume --target ", &shell_hint(&entry.target), " --json"),
    );
    note(
        &mut list,
        same(&entry.kind, "docker-volume"),
        &cat3("opsctl registry drift cleanup-request volume-ownership ", &request, " --status needs_cleanup --json"),
    );
    list
}

/// The commands that make a backup and try to restore it.
pub open spec fn backup_commands(required: Seq<Seq<char>>) -> Seq<Seq<char>> {
    Seq::<Seq<char>>::empty() + noted(wants_backup(required), "opsctl backup run '<service-id>' --execute"@) + noted(wants_backup(required), "opsctl backup check '<repository-id>'"@) + noted(
        wants_restore(required),
        "opsctl backup drill-suite --service '<service-id>' --restore-root /var/lib/opsctl/restore-drills --execute"@,
    )
}

/// The commands that make a backup and try to restore it.
pub fn list_backup_commands(required: &Vec<String>) -> (r: Vec<String>)
    ensures
        r.deep_view() == backup_commands(required.deep_view()),
{
    let mut list: Vec<String> = Vec::new();
    proof {
        assert(list.deep_view() =~= Seq::<Seq<char>>::empty());
    }
    note(
        &mut list,
        any_contains(required, "backup_snapshot_id"),
        "opsctl backup run '<service-id>' --execute",
    );
    note(
        &mut list,
        any_contains(required, "backup_snapshot_id"),
        "opsctl backup check '<repository-id>'",
    );
    note(
        &mut list,
        any_contains(required, "restore_drill_id"),
        "opsctl backup drill-suite --service '<service-id>' --restore-root /var/lib/opsctl/restore-drills --execute",
    );
    list
}

/// What the plan says of an item.
pub open spec fn evidence_plan_entry(
    path: Seq<char>,
    entry: DriftCleanupApprovalPackEntryView,
) -> DriftCleanupEvidencePlanEntryView {
    DriftCleanupEvidencePlanEntryView {
        request_id: entry.request_id,
        kind: entry.kind,
        target: entry.target,
        risk: entry.risk,
        approval_status: entry.approval_status,
        current_candidate: entry.current_candidate,
        evidence_stage: evidence_stage(entry),
        required_evidence: entry.required_evidence,
        blockers: entry.blockers,
        review_notes: entry.review_notes,
        volume_content_hints: entry.volume_content_hints,
        volume_mounted_by_containers: entry.volume_mounted_by_containers,
        volume_service_candidates: entry.volume_service_candidates,
        volume_top_level_entries: entry.volume_top_level_entries,
        volume_sampled_size_bytes: entry.volume_sampled_size_bytes,
        volume_sample_truncated: entry.volume_sample_truncated,
        evidence_commands: evidence_commands(path, entry),
        backup_restore_commands: backup_commands(entry.required_evidence),
        approval_commands: seq![entry.approval_command_template],
    }
}

/// What the plan says of an item.
pub fn cleanup_evidence_plan_entry(path: &str, entry: &DriftCleanupApprovalPackEntry) -> (r:
    DriftCleanupEvidencePlanEntry)
    ensures
        r.deep_view() == evidence_plan_entry(path@, entry.deep_view()),
{
    let approval: Vec<String> = vec![entry.approval_command_template.clone()];
    proof {
        assert(approval.deep_view() =~= seq![entry.approval_command_template@]);
    }
    DriftCleanupEvidencePlanEntry {
        request_id: entry.request_id.clone(),
        kind: entry.kind.clone(),
        target: entry.target.clone(),
        risk: entry.risk.clone(),
        approval_status: entry.approval_status.clone(),
        current_candidate: entry.current_candidate,
        evidence_stage: cleanup_evidence_stage(entry).to_string(),
        required_evidence: entry.required_evidence.clone(),
        blockers: entry.blockers.clone(),
        review_notes: entry.review_notes.clone(),
        volume_content_hints: entry.volume_content_hints.clone(),
        volume_mounted_by_containers: entry.volume_mounted_by_containers.clone(),
        volume_service_candidates: entry.volume_service_candidates.clone(),
        volume_top_level_entries: entry.volume_top_level_entries.clone(),
        volume_sampled_size_bytes: entry.volume_sampled_size_bytes,
        volume_sample_truncated: entry.volume_sample_truncated,
        evidence_commands: list_evidence_commands(path, entry),
        backup_restore_commands: list_backup_commands(&entry.required_evidence),
        approval_commands: approval,
    }
}

/// What the plan says of each item.
pub open spec fn evidence_plan_entries(
    path: Seq<char>,
    entries: Seq<DriftCleanupApprovalPackEntryView>,
) -> Seq<DriftCleanupEvidencePlanEntryView> {
    entries.map_values(|e: DriftCleanupApprovalPackEntryView| evidence_plan_entry(path, e))
}

/// What the plan says of each item.
pub fn list_evidence_plan_entries(path: &str, entries: &Vec<DriftCleanupApprovalPackEntry>) -> (r:
    Vec<DriftCleanupEvidencePlanEntry>)
    ensures
        r.deep_view() == evidence_plan_entries(path@, entries.deep_view()),
{
    map_each(
        entries,
        |e: &DriftCleanupApprovalPackEntry| -> (r: DriftCleanupEvidencePlanEntry)
            ensures
                r.deep_view() == evidence_plan_entry(path@, e.deep_view())
            { cleanup_evidence_plan_entry(path, e) },
        Ghost(|e: DriftCleanupApprovalPackEntryView| evidence_plan_entry(path@, e)),
    )
}

// ---------------------------------------------------------------------------
// Counts
// ---------------------------------------------------------------------------

/// What the plan counts.
#[derive(Debug, Clone, Copy)]
pub enum PlanTrait {
    Volume,
    Database,
    Attached,
    Truncated,
    WithoutBackup,
    WithoutRestoreDrill,
    WithoutEither,
    Unapproved,
    AwaitingSync,
    AwaitingEvidence,
}

/// Whether an entry counts.
pub open spec fn plan_has(entry: DriftCleanupEvidencePlanEntryView, t: PlanTrait) -> bool {
    match t {
        PlanTrait::Volume => entry.kind == "docker-volume"@,
        PlanTrait::Database => some_database_hint(entry.volume_content_hints),
        PlanTrait::Attached => entry.volume_mounted_by_containers.len() > 0,
        PlanTrait::Truncated => entry.volume_sample_truncated == Some(true),
        PlanTrait::WithoutBackup => wants_backup(entry.required_evidence),
        PlanTrait::WithoutRestoreDrill => wants_restore(entry.required_evidence),
        PlanTrait::WithoutEither => wants_backup(entry.required_evidence) || wants_restore(
            entry.required_evidence,
        ),
        PlanTrait::Unapproved => entry.approval_status != "approved"@,
        PlanTrait::AwaitingSync => entry.evidence_stage == "sync_required"@,
        PlanTrait::AwaitingEvidence => entry.evidence_stage == "classify_owner"@
            || entry.evidence_stage == "backup_restore_required"@ || entry.evidence_stage
            == "approval_required"@,
    }
}

/// Whether an entry counts.
pub fn plan_entry_has(entry: &DriftCleanupEvidencePlanEntry, t: PlanTrait) -> (r: bool)
    ensures
        r == plan_has(entry.deep_view(), t),
{
    match t {
        PlanTrait::Volume => same(&entry.kind, "docker-volume"),
        PlanTrait::Database => any_database_hint(&entry.volume_content_hints),
        PlanTrait::Attached => entry.volume_mounted_by_containers.len() > 0,
        PlanTrait::Truncated => is_set(entry.volume_sample_truncated),
        PlanTrait::WithoutBackup => any_contains(&entry.required_evidence, "backup_snapshot_id"),
        PlanTrait::WithoutRestoreDrill => any_contains(&entry.required_evidence, "restore_drill_id"),
        PlanTrait::WithoutEither => any_contains(&entry.required_evidence, "backup_snapshot_id")
            || any_contains(&entry.required_evidence, "restore_drill_id"),
        PlanTrait::Unapproved => !same(&entry.approval_status, "approved"),
        PlanTrait::AwaitingSync => same(&entry.evidence_stage, "sync_required"),
        PlanTrait::AwaitingEvidence => same(&entry.evidence_stage, "classify_owner") || same(
            &entry.evidence_stage,
            "backup_restore_required",
        ) || same(&entry.evidence_stage, "approval_required"),
    }
}

/// How many entries count.
pub open spec fn plan_with(entries: Seq<DriftCleanupEvidencePlanEntryView>, t: PlanTrait) -> nat {
    tally(entries, |e: DriftCleanupEvidencePlanEntryView| plan_has(e, t))
}

/// How many entries count.
pub fn count_plan(entries: &Vec<DriftCleanupEvidencePlanEntry>, t: PlanTrait) -> (r: usize)
    ensures
        r == plan_with(entries.deep_view(), t),
{
    count_where(
        entries,
        |e: &DriftCleanupEvidencePlanEntry| -> (b: bool)
            ensures
                b == plan_has(e.deep_view(), t)
            { plan_entry_has(e, t) },
        Ghost(|e: DriftCleanupEvidencePlanEntryView| plan_has(e, t)),
    )
}

// ---------------------------------------------------------------------------
// Groups of volumes
// ---------------------------------------------------------------------------

/// What a volume holds, as far as the hints tell.
pub open spec fn primary_group(hints: Seq<Seq<char>>) -> Seq<char> {
    if hints.contains("postgres_datadir"@) {
        "postgres_datadir"@
    } else if hints.contains("mysql_or_mariadb_datadir"@) {
        "mysql_or_mariadb_datadir"@
    } else if hints.contains("redis_datadir"@) {
        "redis_datadir"@
    } else if hints.contains("sqlite_database_files"@) {
        "sqlite_database_files"@
    } else if hints.contains("minio_data"@) {
        "minio_data"@
    } else if hints.contains("caddy_data"@) {
        "caddy_data"@
    } else if hints.contains("empty_or_metadata_only"@) {
        "empty_or_metadata_only"@
    } else if hints.len() > 0 {
        hints[0]
    } else {
        "unknown_volume_content"@
    }
}

/// What a volume holds, as far as the hints tell.
pub fn primary_volume_evidence_group(hints: &Vec<String>) -> (r: String)
    ensures
        r@ == primary_group(hints.deep_view()),
{
    if includes(hints, "postgres_datadir") {
        "postgres_datadir".to_string()
    } else if includes(hints, "mysql_or_mariadb_datadir") {
        "mysql_or_mariadb_datadir".to_string()
    } else if includes(hints, "redis_datadir") {
        "redis_datadir".to_string()
    } else if includes(hints, "sqlite_database_files") {
        "sqlite_database_files".to_string()
    } else if includes(hints, "minio_data") {
        "minio_data".to_string()
    } else if includes(hints, "caddy_data") {
        "caddy_data".to_string()
    } else if includes(hints, "empty_or_metadata_only") {
        "empty_or_metadata_only".to_string()
    } else if hints.len() > 0 {
        hints[0].clone()
    } else {
        "unknown_volume_content".to_string()
    }
}

/// Whether an entry is a volume of the group.
pub open spec fn in_volume_group(entry: DriftCleanupEvidencePlanEntryView, group: Seq<char>) -> bool {
    entry.kind == "docker-volume"@ && primary_group(entry.volume_content_hints) == group
}

/// Whether an entry is a volume of the group.
pub fn is_in_volume_group(entry: &DriftCleanupEvidencePlanEntry, group: &str) -> (r: bool)
    ensures
        r == in_volume_group(entry.deep_view(), group@),
{
    same(&entry.kind, "docker-volume") && same(
        &primary_volume_evidence_group(&entry.volume_content_hints),
        group,
    )
}

/// How many volumes of the group count.
pub open spec fn group_with(
    entries: Seq<DriftCleanupEvidencePlanEntryView>,
    group: Seq<char>,
    t: PlanTrait,
) -> nat {
    tally(entries, |e: DriftCleanupEvidencePlanEntryView| in_volume_group(e, group) && plan_has(e, t))
}

/// How many volumes of the group count.
pub fn count_group(entries: &Vec<DriftCleanupEvidencePlanEntry>, group: &str, t: PlanTrait) -> (r:
    usize)
    ensures
        r == group_with(entries.deep_view(), group@, t),
{
    count_where(
        entries,
        |e: &DriftCleanupEvidencePlanEntry| -> (b: bool)
            ensures
                b == (in_volume_group(e.deep_view(), group@) && plan_has(e.deep_view(), t))
            { is_in_volume_group(e, group) && plan_entry_has(e, t) },
        Ghost(|e: DriftCleanupEvidencePlanEntryView| in_volume_group(e, group@) && plan_has(e, t)),
    )
}

/// How to check that what a volume holds can be restored.
pub open spec fn restore_action(group: Seq<char>) -> Seq<char> {
    if group == "postgres_datadir"@ {
        "verify PostgreSQL restore in a temporary container or service staging drill"@
    } else if group == "mysql_or_mariadb_datadir"@ {
        "verify MySQL/MariaDB restore in a temporary container or service staging drill"@
    } else if group == "redis_datadir"@ {
        "verify Redis RDB/AOF restore or confirm the cache can be safely regenerated"@
    } else if group == "sqlite_database_files"@ {
        "verify SQLite file integrity or application-level restore before approval"@
    } else if group == "caddy_data"@ {
        "confirm Caddy data is not the active certificate/config store before cleanup"@
    } else if group == "minio_data"@ {
        "confirm object data has an independent backup before cleanup approval"@
    } else if group == "empty_or_metadata_only"@ {
        "verify labels, creation time, and attached containers before treating as low data risk"@
    } else {
        "inspect top-level entries manually before approval"@
    }
}

/// How to check that what a volume holds can be restored.
pub fn group_restore_action(group: &str) -> (r: &'static str)
    ensures
        r@ == restore_action(group@),
{
    if same(group, "postgres_datadir") {
        "verify PostgreSQL restore in a temporary container or service staging drill"
    } else if same(group, "mysql_or_mariadb_datadir") {
        "verify MySQL/MariaDB restore in a temporary container or service staging drill"
    } else if same(group, "redis_datadir") {
        "verify Redis RDB/AOF restore or confirm the cache can be safely regenerated"
    } else if same(group, "sqlite_database_files") {
        "verify SQLite file integrity or application-level restore before approval"
    } else if same(group, "caddy_data") {
        "confirm Caddy data is not the active certificate/config store before cleanup"
    } else if same(group, "minio_data") {
        "confirm object data has an independent backup before cleanup approval"
    } else if same(group, "empty_or_metadata_only") {
        "verify labels, creation time, and attached containers before treating as low data risk"
    } else {
        "inspect top-level entries manually before approval"
    }
}

/// What to do about the volumes of a group.
pub open spec fn group_actions(group: Seq<char>, database_like: bool, attached: nat, truncated: nat) -> Seq<Seq<char>> {
    sorted_set(
    (Seq::<Seq<char>>::empty().push(
        "confirm owner/service before cleanup approval"@,
    ).push(
        "record backup_snapshot_id and restore_drill_id before marking approved"@,
    ) + noted(
        database_like,
        "database-like content requires dump/import or service-level restore verification"@,
    )).push(
        restore_action(group),
    ) + noted(
        attached > 0,
        "do not approve cleanup for volumes still mounted by containers until owner confirms"@,
    ) + noted(truncated > 0, "sample was truncated; inspect representative volumes manually"@))
}

/// What to do about the volumes of a group.
pub fn cleanup_evidence_group_actions(group: &str, database_like: bool, attached: usize, truncated: usize) -> (r: Vec<String>)
    ensures
        r.deep_view() == group_actions(group@, database_like, attached as nat, truncated as nat),
{
    let mut list: Vec<String> = Vec::new();
    proof {
        assert(list.deep_view() =~= Seq::<Seq<char>>::empty());
    }
    put(&mut list, "confirm owner/service before cleanup approval");
    put(&mut list, "record backup_snapshot_id and restore_drill_id before marking approved");
    note(
        &mut list,
        database_like,
        "database-like content requires dump/import or service-level restore verification",
    );
    put(&mut list, group_restore_action(group));
    note(
        &mut list,
        attached > 0,
        "do not approve cleanup for volumes still mounted by containers until owner confirms",
    );
    note(
        &mut list,
        truncated > 0,
        "sample was truncated; inspect representative volumes manually",
    );
    unique_sorted(list)
}

/// The commands that get evidence for the volumes of a group.
pub open spec fn group_commands(path: Seq<char>, group: Seq<char>) -> Seq<Seq<char>> {
    let request = shell_hint_spec(path);
    Seq::<Seq<char>>::empty().push(
        "opsctl registry drift cleanup-request volume-ownership "@ + request + " --status needs_cleanup --json"@,
    ).push(
        "opsctl registry drift cleanup-request evidence-plan "@ + request + " --kind docker-volume --status needs_cleanup --json"@,
    ).push(
        "opsctl backup run '<owner-service-id-for-"@ + group + ">' --execute"@,
    ).push(
        "opsctl backup check '<repository-id>'"@,
    ).push(
        "opsctl backup drill-suite --service '<owner-service-id-for-"@ + group + ">' --restore-root /var/lib/opsctl/restore-drills --execute"@,
    )
}

/// The commands that get evidence for the volumes of a group.
pub fn cleanup_evidence_group_commands(path: &str, group: &str) -> (r: Vec<String>)
    ensures
        r.deep_view() == group_commands(path@, group@),
{
    let request = shell_hint(path);
    let mut list: Vec<String> = Vec::new();
    proof {
        assert(list.deep_view() =~= Seq::<Seq<char>>::empty());
    }
    put(
        &mut list,
        &cat3("opsctl registry drift cleanup-request volume-ownership ", &request, " --status needs_cleanup --json"),
    );
    put(
        &mut list,
        &cat3("opsctl registry drift cleanup-request evidence-plan ", &request, " --kind docker-volume --status needs_cleanup --json"),
    );
    put(&mut list, &cat3("opsctl backup run '<owner-service-id-for-", group, ">' --execute"));
    put(&mut list, "opsctl backup check '<repository-id>'");
    put(
        &mut list,
        &cat3("opsctl backup drill-suite --service '<owner-service-id-for-", group, ">' --restore-root /var/lib/opsctl/restore-drills --execute"),
    );
    list
}

/// The targets of the volumes of a group, sorted.
pub open spec fn volume_group_targets(
    entries: Seq<DriftCleanupEvidencePlanEntryView>,
    group: Seq<char>,
) -> Seq<Seq<char>> {
    sorted_by(
        chosen(
            entries,
            |e: DriftCleanupEvidencePlanEntryView|
                if in_volume_group(e, group) {
                    Some(e.target)
                } else {
                    None
                },
        ),
        rank::<String>(),
    )
}

/// What the plan says of a group of volumes.
pub open spec fn volume_group(
    path: Seq<char>,
    entries: Seq<DriftCleanupEvidencePlanEntryView>,
    group: Seq<char>,
) -> DriftCleanupEvidencePlanVolumeGroupView {
    DriftCleanupEvidencePlanVolumeGroupView {
        group,
        items: group_with(entries, group, PlanTrait::Volume),
        database_like: database_hint(group),
        attached_or_running_items: group_with(entries, group, PlanTrait::Attached),
        truncated_items: group_with(entries, group, PlanTrait::Truncated),
        missing_backup_snapshot: group_with(entries, group, PlanTrait::WithoutBackup),
        missing_restore_drill: group_with(entries, group, PlanTrait::WithoutRestoreDrill),
        sample_targets: front(volume_group_targets(entries, group), 8),
        required_actions: group_actions(
            group,
            database_hint(group),
            group_with(entries, group, PlanTrait::Attached),
            group_with(entries, group, PlanTrait::Truncated),
        ),
        command_templates: group_commands(path, group),
    }
}

/// What the plan says of a group of volumes.
pub fn cleanup_evidence_volume_group(
    path: &str,
    entries: &Vec<DriftCleanupEvidencePlanEntry>,
    group: &str,
) -> (r: DriftCleanupEvidencePlanVolumeGroup)
    ensures
        r.deep_view() == volume_group(path@, entries.deep_view(), group@),
{
    let database_like = volume_content_hint_is_database_like(group);
    let attached = count_group(entries, group, PlanTrait::Attached);
    let truncated = count_group(entries, group, PlanTrait::Truncated);
    let targets = sort_stable(
        choose_each(
            entries,
            |e: &DriftCleanupEvidencePlanEntry| -> (r: Option<String>)
                ensures
                    r.deep_view() == (if in_volume_group(e.deep_view(), group@) {
                        Some(e.deep_view().target)
                    } else {
                        None
                    })
                {
                    if is_in_volume_group(e, group) {
                        Some(e.target.clone())
                    } else {
                        None
                    }
                },
            Ghost(
                |e: DriftCleanupEvidencePlanEntryView|
                    if in_volume_group(e, group@) {
                        Some(e.target)
                    } else {
                        None
                    },
            ),
        ),
    );
    DriftCleanupEvidencePlanVolumeGroup {
        group: group.to_string(),
        items: count_group(entries, group, PlanTrait::Volume),
        database_like,
        attached_or_running_items: attached,
        truncated_items: truncated,
        missing_backup_snapshot: count_group(entries, group, PlanTrait::WithoutBackup),
        missing_restore_drill: count_group(entries, group, PlanTrait::WithoutRestoreDrill),
        sample_targets: keep_front(targets, 8),
        required_actions: cleanup_evidence_group_actions(
            group,
            database_like,
            attached,
            truncated,
        ),
        command_templates: cleanup_evidence_group_commands(path, group),
    }
}

/// The groups that occur.
pub open spec fn group_names(entries: Seq<DriftCleanupEvidencePlanEntryView>) -> Seq<Seq<char>> {
    sorted_set(
        chosen(
            entries,
            |e: DriftCleanupEvidencePlanEntryView|
                if e.kind == "docker-volume"@ {
                    Some(primary_group(e.volume_content_hints))
                } else {
                    None
                },
        ),
    )
}

/// What the plan says of each group of volumes.
pub open spec fn volume_groups(
    path: Seq<char>,
    entries: Seq<DriftCleanupEvidencePlanEntryView>,
) -> Seq<DriftCleanupEvidencePlanVolumeGroupView> {
    group_names(entries).map_values(|g: Seq<char>| volume_group(path, entries, g))
}

/// What the plan says of each group of volumes.
pub fn cleanup_evidence_volume_groups(
    path: &str,
    entries: &Vec<DriftCleanupEvidencePlanEntry>,
) -> (r: Vec<DriftCleanupEvidencePlanVolumeGroup>)
    ensures
        r.deep_view() == volume_groups(path@, entries.deep_view()),
{
    let names = unique_sorted(
        choose_each(
            entries,
            |e: &DriftCleanupEvidencePlanEntry| -> (r: Option<String>)
                ensures
                    r.deep_view() == (if e.deep_view().kind == "docker-volume"@ {
                        Some(primary_group(e.deep_view().volume_content_hints))
                    } else {
                        None
                    })
                {
                    if same(&e.kind, "docker-volume") {
                        Some(primary_volume_evidence_group(&e.volume_content_hints))
                    } else {
                        None
                    }
                },
            Ghost(
                |e: DriftCleanupEvidencePlanEntryView|
                    if e.kind == "docker-volume"@ {
                        Some(primary_group(e.volume_content_hints))
                    } else {
                        None
                    },
            ),
        ),
    );
    map_each(
        &names,
        |g: &String| -> (r: DriftCleanupEvidencePlanVolumeGroup)
            ensures
                r.deep_view() == volume_group(path@, entries.deep_view(), g@)
            { cleanup_evidence_volume_group(path, entries, g) },
        Ghost(|g: Seq<char>| volume_group(path@, entries.deep_view(), g)),
    )
}

// ---------------------------------------------------------------------------
// Steps
// ---------------------------------------------------------------------------

/// A step of the plan. No step destroys anything.
pub open spec fn batch_step(
    stage: Seq<char>,
    item_count: nat,
    command_template: Seq<char>,
    writes_review_file: bool,
    requires_human_input: bool,
    notes: Seq<Seq<char>>,
) -> DriftCleanupEvidencePlanBatchStepView {
    DriftCleanupEvidencePlanBatchStepView {
        stage,
        item_count,
        command_template,
        writes_review_file,
        destructive: false,
        requires_human_input,
        notes,
    }
}

/// A step of the plan. No step destroys anything.
pub fn build_batch_step(
    stage: &str,
    item_count: usize,
    command_template: String,
    writes_review_file: bool,
    requires_human_input: bool,
    notes: Vec<String>,
) -> (r: DriftCleanupEvidencePlanBatchStep)
    ensures
        r.deep_view() == batch_step(
            stage@,
            item_count as nat,
            command_template@,
            writes_review_file,
            requires_human_input,
            notes.deep_view(),
        ),
{
    DriftCleanupEvidencePlanBatchStep {
        stage: stage.to_string(),
        item_count,
        command_template,
        writes_review_file,
        destructive: false,
        requires_human_input,
        notes,
    }
}

/// About collecting evidence again.
pub open spec fn refresh_notes() -> Seq<Seq<char>> {
    seq![
        "writes only collected evidence into the cleanup request YAML"@,
        "does not approve cleanup and does not remove Docker resources"@,
    ]
}

/// About collecting evidence again.
pub fn list_refresh_notes() -> (r: Vec<String>)
    ensures
        r.deep_view() == refresh_notes(),
{
    let list: Vec<String> = vec![
        "writes only collected evidence into the cleanup request YAML".to_string(),
        "does not approve cleanup and does not remove Docker resources".to_string(),
    ];
    proof {
        assert(list.deep_view() =~= refresh_notes());
    }
    list
}

/// About reviewing the groups of volumes.
pub open spec fn group_notes() -> Seq<Seq<char>> {
    seq![
        "assign each group to an owner/service or keep it in cleanup review"@,
        "database-like groups require restore verification before approval"@,
    ]
}

/// About reviewing the groups of volumes.
pub fn list_group_notes() -> (r: Vec<String>)
    ensures
        r.deep_view() == group_notes(),
{
    let list: Vec<String> = vec![
        "assign each group to an owner/service or keep it in cleanup review".to_string(),
        "database-like groups require restore verification before approval".to_string(),
    ];
    proof {
        assert(list.deep_view() =~= group_notes());
    }
    list
}

/// About backups and restore drills.
pub open spec fn backup_notes() -> Seq<Seq<char>> {
    seq![
        "replace placeholders with the confirmed owner service and repository"@,
        "record the resulting backup_snapshot_id and restore_drill_id before approval"@,
    ]
}

/// About backups and restore drills.
pub fn list_backup_notes() -> (r: Vec<String>)
    ensures
        r.deep_view() == backup_notes(),
{
    let list: Vec<String> = vec![
        "replace placeholders with the confirmed owner service and repository".to_string(),
        "record the resulting backup_snapshot_id and restore_drill_id before approval".to_string(),
    ];
    proof {
        assert(list.deep_view() =~= backup_notes());
    }
    list
}

/// About marking items as approved.
pub open spec fn approved_notes() -> Seq<Seq<char>> {
    seq![
        "only run for resources with confirmed owner, backup, restore drill, maintenance window, and rollback plan"@,
    ]
}

/// About marking items as approved.
pub fn list_approved_notes() -> (r: Vec<String>)
    ensures
        r.deep_view() == approved_notes(),
{
    let list: Vec<String> = vec![
        "only run for resources with confirmed owner, backup, restore drill, maintenance window, and rollback plan".to_string(),
    ];
    proof {
        assert(list.deep_view() =~= approved_notes());
    }
    list
}

/// About the manual runbook.
pub open spec fn gate_notes() -> Seq<Seq<char>> {
    seq![
        "opsctl still does not auto-delete containers, ports, or volumes"@,
        "manual execution requires a separate approval token and runbook handoff"@,
    ]
}

/// About the manual runbook.
pub fn list_gate_notes() -> (r: Vec<String>)
    ensures
        r.deep_view() == gate_notes(),
{
    let list: Vec<String> = vec![
        "opsctl still does not auto-delete containers, ports, or volumes".to_string(),
        "manual execution requires a separate approval token and runbook handoff".to_string(),
    ];
    proof {
        assert(list.deep_view() =~= gate_notes());
    }
    list
}

/// The steps that lead to complete evidence.
pub open spec fn batch_plan(
    path: Seq<char>,
    entries: Seq<DriftCleanupEvidencePlanEntryView>,
) -> Seq<DriftCleanupEvidencePlanBatchStepView> {
    let request = shell_hint_spec(path);
    seq![
        batch_step(
            "refresh_current_evidence"@,
            plan_with(entries, PlanTrait::Volume),
            "opsctl registry drift cleanup-request evidence "@ + request
                + " --kind docker-volume --all --execute"@,
            true,
            false,
            refresh_notes(),
        ),
        batch_step(
            "review_volume_groups"@,
            plan_with(entries, PlanTrait::Volume),
            "opsctl registry drift cleanup-request evidence-plan "@ + request
                + " --kind docker-volume --status needs_cleanup --json"@,
            false,
            true,
            group_notes(),
        ),
        batch_step(
            "backup_and_restore_drill"@,
            plan_with(entries, PlanTrait::WithoutEither),
            "opsctl backup run '<owner-service-id>' --execute && opsctl backup check '<repository-id>' && opsctl backup drill-suite --service '<owner-service-id>' --restore-root /var/lib/opsctl/restore-drills --execute"@,
            true,
            true,
            backup_notes(),
        ),
        batch_step(
            "mark_approved_after_evidence"@,
            plan_with(entries, PlanTrait::Unapproved),
            "opsctl registry drift cleanup-request mark "@ + request
                + " --request-id '<request-id>' --approval-status approved --backup-snapshot-id '<backup-snapshot-id>' --restore-drill-id '<restore-drill-id>' --execute"@,
            true,
            true,
            approved_notes(),
        ),
        batch_step(
            "manual_runbook_gate"@,
            entries.len(),
            "opsctl registry drift cleanup-request execution-gate "@ + request
                + " --json && opsctl registry drift cleanup-request runbook "@ + request
                + " --json"@,
            false,
            true,
            gate_notes(),
        ),
    ]
}

/// The steps that lead to complete evidence.
pub fn cleanup_evidence_batch_plan(path: &str, entries: &Vec<DriftCleanupEvidencePlanEntry>) -> (r:
    Vec<DriftCleanupEvidencePlanBatchStep>)
    ensures
        r.deep_view() == batch_plan(path@, entries.deep_view()),
{
    let request = shell_hint(path);
    let volumes = count_plan(entries, PlanTrait::Volume);
    proof {
        assert(entries.deep_view().len() == entries@.len());
    }
    let steps: Vec<DriftCleanupEvidencePlanBatchStep> = vec![
        build_batch_step(
            "refresh_current_evidence",
            volumes,
            cat3(
                "opsctl registry drift cleanup-request evidence ",
                &request,
                " --kind docker-volume --all --execute",
            ),
            true,
            false,
            list_refresh_notes(),
        ),
        build_batch_step(
            "review_volume_groups",
            volumes,
            cat3(
                "opsctl registry drift cleanup-request evidence-plan ",
                &request,
                " --kind docker-volume --status needs_cleanup --json",
            ),
            false,
            true,
            list_group_notes(),
        ),
        build_batch_step(
            "backup_and_restore_drill",
            count_plan(entries, PlanTrait::WithoutEither),
            "opsctl backup run '<owner-service-id>' --execute && opsctl backup check '<repository-id>' && opsctl backup drill-suite --service '<owner-service-id>' --restore-root /var/lib/opsctl/restore-drills --execute".to_string(),
            true,
            true,
            list_backup_notes(),
        ),
        build_batch_step(
            "mark_approved_after_evidence",
            count_plan(entries, PlanTrait::Unapproved),
            cat3(
                "opsctl registry drift cleanup-request mark ",
                &request,
                " --request-id '<request-id>' --approval-status approved --backup-snapshot-id '<backup-snapshot-id>' --restore-drill-id '<restore-drill-id>' --execute",
            ),
            true,
            true,
            list_approved_notes(),
        ),
        build_batch_step(
            "manual_runbook_gate",
            entries.len(),
            cat5(
                "opsctl registry drift cleanup-request execution-gate ",
                &request,
                " --json && opsctl registry drift cleanup-request runbook ",
                &request,
                " --json",
            ),
            false,
            true,
            list_gate_notes(),
        ),
    ];
    proof {
        assert(steps.deep_view() =~= batch_plan(path@, entries.deep_view()));
    }
    steps
}

// ---------------------------------------------------------------------------
// The plan
// ---------------------------------------------------------------------------

/// The commands that go on from the plan.
pub open spec fn evidence_plan_commands(path: Seq<char>) -> Seq<Seq<char>> {
    let request = shell_hint_spec(path);
    Seq::<Seq<char>>::empty().push(
        "opsctl registry drift cleanup-request evidence-plan "@ + request + " --status needs_cleanup --json"@,
    ).push(
        "opsctl registry drift cleanup-request approval-pack "@ + request + " --status needs_cleanup --json"@,
    ).push(
        "opsctl registry drift cleanup-request volume-ownership "@ + request + " --status needs_cleanup --json"@,
    )
}

/// The commands that go on from the plan.
pub fn list_evidence_plan_commands(path: &str) -> (r: Vec<String>)
    ensures
        r.deep_view() == evidence_plan_commands(path@),
{
    let request = shell_hint(path);
    let mut list: Vec<String> = Vec::new();
    proof {
        assert(list.deep_view() =~= Seq::<Seq<char>>::empty());
    }
    put(
        &mut list,
        &cat3("opsctl registry drift cleanup-request evidence-plan ", &request, " --status needs_cleanup --json"),
    );
    put(
        &mut list,
        &cat3("opsctl registry drift cleanup-request approval-pack ", &request, " --status needs_cleanup --json"),
    );
    put(
        &mut list,
        &cat3("opsctl registry drift cleanup-request volume-ownership ", &request, " --status needs_cleanup --json"),
    );
    list
}

/// Which evidence the entries of a pack still need.
pub open spec fn evidence_plan(pack: DriftCleanupApprovalPackReportView) -> DriftCleanupEvidencePlanReportView {
    let entries = evidence_plan_entries(pack.request_file, pack.entries);
    DriftCleanupEvidencePlanReportView {
        ok: pack.ok,
        read_only: true,
        status: if !pack.ok {
            pack.status
        } else if entries.len() == 0 {
            "empty"@
        } else if plan_with(entries, PlanTrait::AwaitingSync) > 0 {
            "sync_required"@
        } else if plan_with(entries, PlanTrait::AwaitingEvidence) > 0 {
            "evidence_required"@
        } else {
            "ready"@
        },
        request_file: pack.request_file,
        filter_kind: pack.filter_kind,
        filter_status: pack.filter_status,
        limit: pack.limit,
        total_items: pack.total_matching_items,
        returned_items: entries.len(),
        docker_volume_items: plan_with(entries, PlanTrait::Volume),
        database_like_volume_items: plan_with(entries, PlanTrait::Database),
        attached_or_running_items: plan_with(entries, PlanTrait::Attached),
        truncated_volume_items: plan_with(entries, PlanTrait::Truncated),
        missing_backup_snapshot: plan_with(entries, PlanTrait::WithoutBackup),
        missing_restore_drill: plan_with(entries, PlanTrait::WithoutRestoreDrill),
        volume_groups: volume_groups(pack.request_file, entries),
        batch_plan: batch_plan(pack.request_file, entries),
        entries,
        safe_next_commands: evidence_plan_commands(pack.request_file),
        limitations: pack.limitations,
    }
}

/// Which evidence the entries of a pack still need.
pub fn plan_evidence(pack: DriftCleanupApprovalPackReport) -> (r: DriftCleanupEvidencePlanReport)
    ensures
        r.deep_view() == evidence_plan(pack.deep_view()),
{
    let entries = list_evidence_plan_entries(&pack.request_file, &pack.entries);
    proof {
        assert(entries.deep_view().len() == entries@.len());
    }
    let status = if !pack.ok {
        pack.status
    } else if entries.len() == 0 {
        "empty".to_string()
    } else if count_plan(&entries, PlanTrait::AwaitingSync) > 0 {
        "sync_required".to_string()
    } else if count_plan(&entries, PlanTrait::AwaitingEvidence) > 0 {
        "evidence_required".to_string()
    } else {
        "ready".to_string()
    };
    let groups = cleanup_evidence_volume_groups(&pack.request_file, &entries);
    let steps = cleanup_evidence_batch_plan(&pack.request_file, &entries);
    let commands = list_evidence_plan_commands(&pack.request_file);
    DriftCleanupEvidencePlanReport {
        ok: pack.ok,
        read_only: true,
        status,
        request_file: pack.request_file,
        filter_kind: pack.filter_kind,
        filter_status: pack.filter_status,
        limit: pack.limit,
        total_items: pack.total_matching_items,
        returned_items: entries.len(),
        docker_volume_items: count_plan(&entries, PlanTrait::Volume),
        database_like_volume_items: count_plan(&entries, PlanTrait::Database),
        attached_or_running_items: count_plan(&entries, PlanTrait::Attached),
        truncated_volume_items: count_plan(&entries, PlanTrait::Truncated),
        missing_backup_snapshot: count_plan(&entries, PlanTrait::WithoutBackup),
        missing_restore_drill: count_plan(&entries, PlanTrait::WithoutRestoreDrill),
        volume_groups: groups,
        batch_plan: steps,
        entries,
        safe_next_commands: commands,
        limitations: pack.limitations,
    }
}

/// Which evidence the items of a request still need.
pub fn drift_cleanup_evidence_plan(
    registry: &Registry,
    observation: &Observation,
    request: &LoadedRequest,
    kind: Option<&str>,
    status_filter: Option<&str>,
    limit: usize,
) -> (r: DriftCleanupEvidencePlanReport)
    ensures
        r.deep_view() == evidence_plan(
            approval_pack(
                cleanup_build(registry.deep_view(), observation.deep_view()),
                drift_ownership_spec(
                    registry.deep_view(),
                    observation.deep_view(),
                    volume_filter(),
                ),
                request.deep_view(),
                kind.deep_view(),
                status_filter.deep_view(),
                limit as nat,
            ),
        ),
{
    plan_evidence(
        drift_cleanup_approval_pack(registry, observation, request, kind, status_filter, limit),
    )
}

// ---------------------------------------------------------------------------
// Laws
// ---------------------------------------------------------------------------

/// No step of the plan destroys anything.
pub proof fn law_no_evidence_step_is_destructive(
    path: Seq<char>,
    entries: Seq<DriftCleanupEvidencePlanEntryView>,
    i: int,
)
    requires
        0 <= i < batch_plan(path, entries).len(),
    ensures
        !batch_plan(path, entries)[i].destructive,
{
}

/// Whether an entry speaks of a volume.
pub open spec fn is_volume() -> spec_fn(DriftCleanupEvidencePlanEntryView) -> bool {
    |e: DriftCleanupEvidencePlanEntryView| plan_has(e, PlanTrait::Volume)
}

/// The group of a volume.
pub open spec fn volume_group_of() -> spec_fn(DriftCleanupEvidencePlanEntryView) -> Seq<char> {
    |e: DriftCleanupEvidencePlanEntryView| primary_group(e.volume_content_hints)
}

/// How many volumes a group has.
pub open spec fn group_size() -> spec_fn(DriftCleanupEvidencePlanVolumeGroupView) -> nat {
    |g: DriftCleanupEvidencePlanVolumeGroupView| g.items
}

proof fn lemma_volumes_are_kept(
    entries: Seq<DriftCleanupEvidencePlanEntryView>,
    group: Seq<char>,
)
    ensures
        kept(entries, is_volume()).len() == plan_with(entries, PlanTrait::Volume),
        with_key(kept(entries, is_volume()), volume_group_of(), group) == group_with(
            entries,
            group,
            PlanTrait::Volume,
        ),
    decreases entries.len(),
{
    if entries.len() > 0 {
        let rest = kept(entries.drop_last(), is_volume());
        lemma_volumes_are_kept(entries.drop_last(), group);
        assert(rest.push(entries.last()).drop_last() =~= rest);
    }
}

proof fn lemma_groups_are_named(entries: Seq<DriftCleanupEvidencePlanEntryView>, i: int)
    requires
        0 <= i < kept(entries, is_volume()).len(),
    ensures
        group_names(entries).contains(volume_group_of()(kept(entries, is_volume())[i])),
    decreases entries.len(),
{
    let named = |e: DriftCleanupEvidencePlanEntryView|
        if e.kind == "docker-volume"@ {
            Some(primary_group(e.volume_content_hints))
        } else {
            None
        };
    let all = chosen(entries, named);
    let before = chosen(entries.drop_last(), named);
    law_sorted_set(all);
    law_sorted_set(before);
    let rest = kept(entries.drop_last(), is_volume());
    if i < rest.len() {
        lemma_groups_are_named(entries.drop_last(), i);
        let group = volume_group_of()(rest[i]);
        assert(before.contains(group));
        let k = choose|k: int| 0 <= k < before.len() && before[k] == group;
        assert(all[k] == group);
        assert(kept(entries, is_volume())[i] == rest[i]);
    } else {
        assert(kept(entries, is_volume())[i] == entries.last());
        assert(all[all.len() - 1] == volume_group_of()(entries.last()));
    }
    assert(all.contains(volume_group_of()(kept(entries, is_volume())[i])));
    assert(group_names(entries) == sorted_set(all));
}

proof fn lemma_group_sizes(
    path: Seq<char>,
    entries: Seq<DriftCleanupEvidencePlanEntryView>,
    names: Seq<Seq<char>>,
)
    ensures
        total(names.map_values(|g: Seq<char>| volume_group(path, entries, g)), group_size())
            == total(
            names,
            |g: Seq<char>| with_key(kept(entries, is_volume()), volume_group_of(), g),
        ),
    decreases names.len(),
{
    if names.len() > 0 {
        let d = names.drop_last();
        lemma_group_sizes(path, entries, d);
        lemma_volumes_are_kept(entries, names.last());
        let groups = names.map_values(|g: Seq<char>| volume_group(path, entries, g));
        assert(groups.drop_last() =~= d.map_values(|g: Seq<char>| volume_group(path, entries, g)));
        assert(groups.last() == volume_group(path, entries, names.last()));
    }
}

/// Each volume stands in one group: the groups hold as many volumes as the plan.
pub proof fn law_volume_groups_hold_every_volume(pack: DriftCleanupApprovalPackReportView)
    ensures
        total(evidence_plan(pack).volume_groups, group_size()) == evidence_plan(
            pack,
        ).docker_volume_items,
{
    let entries = evidence_plan_entries(pack.request_file, pack.entries);
    let volumes = kept(entries, is_volume());
    let names = group_names(entries);
    law_sorted_set(
        chosen(
            entries,
            |e: DriftCleanupEvidencePlanEntryView|
                if e.kind == "docker-volume"@ {
                    Some(primary_group(e.volume_content_hints))
                } else {
                    None
                },
        ),
    );
    assert forall|i: int, j: int|
        0 <= i < names.len() && 0 <= j < names.len() && i != j implies names[i] != names[j] by {
        lemma_text_lt_irreflexive(names[i]);
    }
    assert forall|i: int| 0 <= i < volumes.len() implies names.contains(
        volume_group_of()(#[trigger] volumes[i]),
    ) by {
        lemma_groups_are_named(entries, i);
    }
    lemma_parts_cover(volumes, names, volume_group_of());
    lemma_group_sizes(pack.request_file, entries, names);
    lemma_volumes_are_kept(entries, Seq::empty());
}

/// What an entry waits for: a sync where it is no current candidate; else its blockers, its
/// classification, a backup or a restore drill, its approval, or nothing, in that order.
pub proof fn law_what_an_entry_waits_for(path: Seq<char>, entry: DriftCleanupApprovalPackEntryView)
    ensures
        ({
            let r = evidence_plan_entry(path, entry);
            let stage = r.evidence_stage;
            let blocked = entry.blockers.len() > 0;
            let unknown = entry.approval_status == "unknown"@;
            let data = exists|i: int|
                0 <= i < entry.required_evidence.len() && (holds(
                    #[trigger] entry.required_evidence[i],
                    "backup_snapshot_id"@,
                ) || holds(entry.required_evidence[i], "restore_drill_id"@));
            &&& stage == "sync_required"@ <==> !entry.current_candidate
            &&& stage == "blocked"@ <==> entry.current_candidate && blocked
            &&& stage == "classify_owner"@ <==> entry.current_candidate && !blocked && unknown
            &&& stage == "backup_restore_required"@ <==> entry.current_candidate && !blocked
                && !unknown && data
            &&& stage == "approval_required"@ <==> entry.current_candidate && !blocked && !unknown
                && !data && entry.approval_status != "approved"@
            &&& stage == "ready_for_execution_request"@ <==> entry.current_candidate && !blocked
                && !data && entry.approval_status == "approved"@
            &&& r.request_id == entry.request_id && r.kind == entry.kind && r.target == entry.target
                && r.approval_status == entry.approval_status && r.required_evidence
                == entry.required_evidence && r.blockers == entry.blockers
            &&& r.approval_commands == seq![entry.approval_command_template]
        }),
{
    let required = entry.required_evidence;
    lemma_some_holds(required, "backup_snapshot_id"@);
    lemma_some_holds(required, "restore_drill_id"@);
    reveal_strlit("sync_required");
    reveal_strlit("blocked");
    reveal_strlit("classify_owner");
    reveal_strlit("backup_restore_required");
    reveal_strlit("approval_required");
    reveal_strlit("ready_for_execution_request");
    reveal_strlit("unknown");
    reveal_strlit("approved");
    assert("sync_required"@.len() == 13 && "blocked"@.len() == 7 && "classify_owner"@.len() == 14
        && "backup_restore_required"@.len() == 23 && "approval_required"@.len() == 17
        && "ready_for_execution_request"@.len() == 27 && "unknown"@.len() == 7 && "approved"@.len()
        == 8);
}

proof fn lemma_some_holds(texts: Seq<Seq<char>>, part: Seq<char>)
    ensures
        some_holds(texts, part) <==> exists|i: int|
            0 <= i < texts.len() && holds(#[trigger] texts[i], part),
{
    let p = |t: Seq<char>| holds(t, part);
    lemma_any(texts, p);
    if some_holds(texts, part) {
        let i = choose|i: int| 0 <= i < texts.len() && p(#[trigger] texts[i]);
        assert(holds(texts[i], part));
    }
    if exists|i: int| 0 <= i < texts.len() && holds(#[trigger] texts[i], part) {
        let i = choose|i: int| 0 <= i < texts.len() && holds(#[trigger] texts[i], part);
        assert(p(texts[i]));
    }
}

/// The group of a volume is the first of the known hints that it has, databases before
/// object stores and certificates; else its first hint, or none.
pub proof fn law_volume_groups(hints: Seq<Seq<char>>)
    ensures
        hints.contains("postgres_datadir"@) ==> primary_group(hints) == "postgres_datadir"@,
        hints.contains("mysql_or_mariadb_datadir"@) && !hints.contains("postgres_datadir"@)
            ==> primary_group(hints) == "mysql_or_mariadb_datadir"@,
        hints.contains("redis_datadir"@) && !hints.contains("postgres_datadir"@)
            && !hints.contains("mysql_or_mariadb_datadir"@) ==> primary_group(hints)
            == "redis_datadir"@,
        hints.contains("sqlite_database_files"@) && !hints.contains("postgres_datadir"@)
            && !hints.contains("mysql_or_mariadb_datadir"@) && !hints.contains("redis_datadir"@)
            ==> primary_group(hints) == "sqlite_database_files"@,
        hints.len() > 0 ==> hints.contains(primary_group(hints)),
        hints.len() == 0 ==> primary_group(hints) == "unknown_volume_content"@,
        hints.len() > 0 && database_hint(primary_group(hints)) ==> some_database_hint(hints),
{
    if hints.len() > 0 {
        assert(hints.contains(hints[0]));
    }
    law_database_hints(hints);
}

/// What the commands to collect evidence cover: each item on its own, and for a volume its
/// owners too; a backup and a drill exactly where they are required.
pub proof fn law_what_is_run_for_evidence(path: Seq<char>, entry: DriftCleanupApprovalPackEntryView)
    ensures
        ({
            let r = evidence_plan_entry(path, entry);
            &&& r.evidence_commands.len() == if entry.kind == "docker-volume"@ {
                3nat
            } else {
                1nat
            }
            &&& r.backup_restore_commands.len() == (if wants_backup(entry.required_evidence) {
                2int
            } else {
                0
            }) + (if wants_restore(entry.required_evidence) {
                1int
            } else {
                0
            })
        }),
{
}

/// What an evidence plan comes to: it is empty, is to be synced, needs evidence, or is
/// ready; where the pack is blocked, so is the plan.
pub proof fn law_what_an_evidence_plan_comes_to(pack: DriftCleanupApprovalPackReportView)
    ensures
        ({
            let r = evidence_plan(pack);
            let behind = exists|i: int|
                0 <= i < r.entries.len() && (#[trigger] r.entries[i]).evidence_stage
                    == "sync_required"@;
            let waiting = exists|i: int|
                0 <= i < r.entries.len() && ((#[trigger] r.entries[i]).evidence_stage
                    == "classify_owner"@ || r.entries[i].evidence_stage
                    == "backup_restore_required"@ || r.entries[i].evidence_stage
                    == "approval_required"@);
            &&& r.ok == pack.ok
            &&& !pack.ok ==> r.status == pack.status
            &&& pack.ok ==> {
                &&& r.status == "empty"@ <==> pack.entries.len() == 0
                &&& r.status == "sync_required"@ <==> behind
                &&& r.status == "evidence_required"@ <==> !behind && waiting
                &&& r.status == "ready"@ <==> pack.entries.len() > 0 && !behind && !waiting
            }
            &&& r.entries.len() == pack.entries.len()
            &&& forall|i: int|
                0 <= i < pack.entries.len() ==> #[trigger] r.entries[i] == evidence_plan_entry(
                    pack.request_file,
                    pack.entries[i],
                )
            &&& r.limitations == pack.limitations
        }),
{
    let entries = evidence_plan_entries(pack.request_file, pack.entries);
    lemma_plan_with(entries, PlanTrait::AwaitingSync);
    lemma_plan_with(entries, PlanTrait::AwaitingEvidence);
    reveal_strlit("empty");
    reveal_strlit("sync_required");
    reveal_strlit("evidence_required");
    reveal_strlit("ready");
    assert("empty"@[0] == 'e' && "empty"@.len() == 5 && "sync_required"@[0] == 's'
        && "evidence_required"@.len() == 17 && "ready"@[0] == 'r');
}

proof fn lemma_plan_with(entries: Seq<DriftCleanupEvidencePlanEntryView>, t: PlanTrait)
    ensures
        plan_with(entries, t) > 0 <==> exists|i: int|
            0 <= i < entries.len() && plan_has(#[trigger] entries[i], t),
{
    let p = |e: DriftCleanupEvidencePlanEntryView| plan_has(e, t);
    law_tally(entries, Seq::empty(), p);
    if plan_with(entries, t) > 0 {
        let i = choose|i: int| 0 <= i < entries.len() && p(#[trigger] entries[i]);
        assert(plan_has(entries[i], t));
    }
    if exists|i: int| 0 <= i < entries.len() && plan_has(#[trigger] entries[i], t) {
        let i = choose|i: int| 0 <= i < entries.len() && plan_has(#[trigger] entries[i], t);
        assert(p(entries[i]));
    }
}

/// What an entry counts as, in the plan's totals.
pub proof fn law_what_entries_count_as(entry: DriftCleanupEvidencePlanEntryView)
    ensures
        plan_has(entry, PlanTrait::Volume) <==> entry.kind == "docker-volume"@,
        plan_has(entry, PlanTrait::Database) <==> some_database_hint(entry.volume_content_hints),
        plan_has(entry, PlanTrait::Attached) <==> entry.volume_mounted_by_containers.len() > 0,
        plan_has(entry, PlanTrait::Truncated) <==> entry.volume_sample_truncated == Some(true),
        plan_has(entry, PlanTrait::WithoutBackup) <==> exists|i: int|
            0 <= i < entry.required_evidence.len() && holds(
                #[trigger] entry.required_evidence[i],
                "backup_snapshot_id"@,
            ),
        plan_has(entry, PlanTrait::WithoutRestoreDrill) <==> exists|i: int|
            0 <= i < entry.required_evidence.len() && holds(
                #[trigger] entry.required_evidence[i],
                "restore_drill_id"@,
            ),
        plan_has(entry, PlanTrait::WithoutEither) <==> plan_has(entry, PlanTrait::WithoutBackup)
            || plan_has(entry, PlanTrait::WithoutRestoreDrill),
        plan_has(entry, PlanTrait::Unapproved) <==> entry.approval_status != "approved"@,
{
    lemma_some_holds(entry.required_evidence, "backup_snapshot_id"@);
    lemma_some_holds(entry.required_evidence, "restore_drill_id"@);
}

} // verus!
