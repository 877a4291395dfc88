//! Marking items of a cleanup request with review decisions.

use vstd::prelude::*;
use crate::drift::candidates::{LoadedRequest, LoadedRequestView};
use crate::drift::evidence::is_usable_text;
use crate::drift::plan::{filled_in, is_risky, item_is_risky};
use crate::drift::types::{
    DriftCleanupMarkEntry, DriftCleanupMarkEntryView, DriftCleanupMarkOptions,
    DriftCleanupMarkOptionsView, DriftCleanupMarkReport, DriftCleanupMarkReportView,
    DriftCleanupRequestDocument, DriftCleanupRequestDocumentView, DriftCleanupRequestItem,
    DriftCleanupRequestItemView,
};
use crate::drift::verify::{
    bad_expiry, collect_item_limitations, fits_on_a_line, given_remark, item_is_sound,
    item_limitations, known_status, law_which_items_are_valid, note_schema, option_remark,
    option_remarks, schema_remark, validate_given_text, validate_texts,
};
use crate::list::{
    all_labelled, chosen, extend, gathered, has_in, law_one_more, law_sorted_set, law_tally_agrees,
    lemma_gathered_nothing, lemma_tally_none, note, note_all, noted, sorted_set, tally,
    unique_sorted,
};
use crate::outside::{parse_rfc3339, rfc3339_nanos};
use crate::text::{
    as_text, begins, blank, cat2, cat4, cat5, contains, ends, ends_with, finishes, holds, is_blank,
    law_found_parts_are_there, same, same_opt, starts_with, step,
};

verus! {

broadcast use {vstd::seq::group_seq_axioms, vstd::string::group_string_axioms};

// ---------------------------------------------------------------------------
// Selecting items
// ---------------------------------------------------------------------------

/// Whether an item is named by its request id, its target, or a part of it.
pub open spec fn names_item(
    request_ids: Seq<Seq<char>>,
    targets: Seq<Seq<char>>,
    prefix: Option<Seq<char>>,
    part: Option<Seq<char>>,
    suffix: Option<Seq<char>>,
    item: DriftCleanupRequestItemView,
) -> bool {
    ||| request_ids.contains(item.request_id)
    ||| targets.contains(item.target)
    ||| prefix is Some && begins(item.target, prefix->0)
    ||| part is Some && holds(item.target, part->0)
    ||| suffix is Some && finishes(item.target, suffix->0)
}

/// Whether an item is named by its request id, its target, or a part of it.
pub fn item_is_named(
    request_ids: &[String],
    targets: &[String],
    prefix: Option<&str>,
    part: Option<&str>,
    suffix: Option<&str>,
    item: &DriftCleanupRequestItem,
) -> (r: bool)
    ensures
        r == names_item(
            request_ids.deep_view(),
            targets.deep_view(),
            prefix.deep_view(),
            part.deep_view(),
            suffix.deep_view(),
            item.deep_view(),
        ),
{
    if has_in(request_ids, &item.request_id) || has_in(targets, &item.target) {
        return true;
    }
    if let Some(text) = prefix {
        if starts_with(&item.target, text) {
            return true;
        }
    }
    if let Some(text) = part {
        if contains(&item.target, text) {
            return true;
        }
    }
    if let Some(text) = suffix {
        if ends_with(&item.target, text) {
            return true;
        }
    }
    false
}

/// Whether an item is to be marked.
pub open spec fn mark_selects(
    item: DriftCleanupRequestItemView,
    options: DriftCleanupMarkOptionsView,
) -> bool {
    (options.kind is None || options.kind == Some(item.kind)) && names_item(
        options.request_ids,
        options.targets,
        options.target_prefix,
        options.target_contains,
        options.target_suffix,
        item,
    )
}

/// Whether an item is to be marked.
pub fn cleanup_mark_matches(
    item: &DriftCleanupRequestItem,
    options: &DriftCleanupMarkOptions<'_>,
) -> (r: bool)
    ensures
        r == mark_selects(item.deep_view(), options.deep_view()),
{
    if let Some(kind) = options.kind {
        if !same(kind, &item.kind) {
            return false;
        }
    }
    item_is_named(
        options.request_ids,
        options.targets,
        options.target_prefix,
        options.target_contains,
        options.target_suffix,
        item,
    )
}

/// Everything that is wrong with a request to mark items.
#[verifier::opaque]
pub open spec fn mark_option_limitations(options: DriftCleanupMarkOptionsView) -> Seq<Seq<char>> {
    Seq::empty() + noted(
        !known_status(options.approval_status),
        "approval_status must be unknown, approved, rejected, or needs_cleanup"@,
    ) + noted(
        options.request_ids.len() == 0 && options.targets.len() == 0 && options.target_prefix is None
            && options.target_contains is None && options.target_suffix is None,
        "at least one selector is required: --request-id, --target, --target-prefix, --target-contains, or --target-suffix"@,
    ) + option_remarks("request_id"@, options.request_ids) + option_remarks(
        "target"@,
        options.targets,
    ) + given_remark("kind"@, options.kind) + given_remark("target_prefix"@, options.target_prefix)
        + given_remark("target_contains"@, options.target_contains) + given_remark(
        "target_suffix"@,
        options.target_suffix,
    ) + given_remark("approval_status"@, Some(options.approval_status)) + given_remark(
        "owner"@,
        options.owner,
    ) + given_remark("reason"@, options.reason) + given_remark(
        "operator_note"@,
        options.operator_note,
    ) + given_remark("cleanup_strategy"@, options.cleanup_strategy) + given_remark(
        "exact_resource_id"@,
        options.exact_resource_id,
    ) + given_remark("backup_snapshot_id"@, options.backup_snapshot_id) + given_remark(
        "restore_drill_id"@,
        options.restore_drill_id,
    ) + given_remark("maintenance_window"@, options.maintenance_window) + given_remark(
        "rollback_plan"@,
        options.rollback_plan,
    ) + given_remark("approval_expires_at"@, options.approval_expires_at)
}

/// Everything that is wrong with a request to mark items.
pub fn validate_cleanup_mark_options(options: &DriftCleanupMarkOptions<'_>) -> (r: Vec<String>)
    ensures
        r.deep_view() == mark_option_limitations(options.deep_view()),
{
    let mut l: Vec<String> = Vec::new();
    proof {
        reveal(mark_option_limitations);
        assert(l.deep_view() =~= Seq::<Seq<char>>::empty());
    }
    note(
        &mut l,
        !same(options.approval_status, "unknown") && !same(options.approval_status, "approved")
            && !same(options.approval_status, "rejected") && !same(
            options.approval_status,
            "needs_cleanup",
        ),
        "approval_status must be unknown, approved, rejected, or needs_cleanup",
    );
    note(
        &mut l,
        options.request_ids.len() == 0 && options.targets.len() == 0
            && options.target_prefix.is_none() && options.target_contains.is_none()
            && options.target_suffix.is_none(),
        "at least one selector is required: --request-id, --target, --target-prefix, --target-contains, or --target-suffix",
    );
    validate_texts("request_id", options.request_ids, &mut l);
    validate_texts("target", options.targets, &mut l);
    validate_given_text("kind", options.kind, &mut l);
    validate_given_text("target_prefix", options.target_prefix, &mut l);
    validate_given_text("target_contains", options.target_contains, &mut l);
    validate_given_text("target_suffix", options.target_suffix, &mut l);
    validate_given_text("approval_status", Some(options.approval_status), &mut l);
    validate_given_text("owner", options.owner, &mut l);
    validate_given_text("reason", options.reason, &mut l);
    validate_given_text("operator_note", options.operator_note, &mut l);
    validate_given_text("cleanup_strategy", options.cleanup_strategy, &mut l);
    validate_given_text("exact_resource_id", options.exact_resource_id, &mut l);
    validate_given_text("backup_snapshot_id", options.backup_snapshot_id, &mut l);
    validate_given_text("restore_drill_id", options.restore_drill_id, &mut l);
    validate_given_text("maintenance_window", options.maintenance_window, &mut l);
    validate_given_text("rollback_plan", options.rollback_plan, &mut l);
    validate_given_text("approval_expires_at", options.approval_expires_at, &mut l);
    l
}

// ---------------------------------------------------------------------------
// Marking one item
// ---------------------------------------------------------------------------

/// A field as a diff shows it.
pub open spec fn shown(value: Option<Seq<char>>) -> Seq<char> {
    if blank(value) {
        "<unset>"@
    } else {
        value->0
    }
}

/// A field as a diff shows it.
pub fn display_optional_cleanup_value(value: Option<&str>) -> (r: String)
    ensures
        r@ == shown(value.deep_view()),
{
    match value {
        Some(text) => if text.is_empty() {
            "<unset>".to_string()
        } else {
            text.to_string()
        },
        None => "<unset>".to_string(),
    }
}

/// A field after marking: the new value where one is given.
pub open spec fn remarked(field: Option<Seq<char>>, value: Option<Seq<char>>) -> Option<Seq<char>> {
    if value is Some {
        value
    } else {
        field
    }
}

/// What marking changes in a field.
pub open spec fn field_diff(
    label: Seq<char>,
    field: Option<Seq<char>>,
    value: Option<Seq<char>>,
) -> Seq<Seq<char>> {
    noted(
        value is Some && field != value,
        label + ": "@ + shown(field) + " -> "@ + shown(value),
    )
}

/// Marks a field and records what changes.
pub fn apply_cleanup_mark_optional(
    label: &str,
    field: &Option<String>,
    value: Option<&str>,
    diff: &mut Vec<String>,
) -> (r: Option<String>)
    ensures
        r.deep_view() == remarked(field.deep_view(), value.deep_view()),
        final(diff).deep_view() == old(diff).deep_view() + field_diff(
            label@,
            field.deep_view(),
            value.deep_view(),
        ),
{
    let changes = value.is_some() && !same_opt(as_text(field), value);
    let line = cat5(
        label,
        ": ",
        &display_optional_cleanup_value(as_text(field)),
        " -> ",
        &display_optional_cleanup_value(value),
    );
    proof {
        assert(label@ + ": "@ + shown(field.deep_view()) + " -> "@ + shown(value.deep_view())
            == line@);
    }
    note(diff, changes, &line);
    match value {
        Some(text) => Some(text.to_string()),
        None => field.clone(),
    }
}

/// An item with the marks of the options.
pub open spec fn marked_item(
    item: DriftCleanupRequestItemView,
    options: DriftCleanupMarkOptionsView,
) -> DriftCleanupRequestItemView {
    DriftCleanupRequestItemView {
        approval_status: options.approval_status,
        owner: remarked(item.owner, options.owner),
        reason: remarked(item.reason, options.reason),
        operator_note: remarked(item.operator_note, options.operator_note),
        cleanup_strategy: remarked(item.cleanup_strategy, options.cleanup_strategy),
        exact_resource_id: remarked(item.exact_resource_id, options.exact_resource_id),
        backup_snapshot_id: remarked(item.backup_snapshot_id, options.backup_snapshot_id),
        restore_drill_id: remarked(item.restore_drill_id, options.restore_drill_id),
        maintenance_window: remarked(item.maintenance_window, options.maintenance_window),
        rollback_plan: remarked(item.rollback_plan, options.rollback_plan),
        approval_expires_at: remarked(item.approval_expires_at, options.approval_expires_at),
        ..item
    }
}

/// What marking changes in an item.
#[verifier::opaque]
pub open spec fn mark_diff(
    item: DriftCleanupRequestItemView,
    options: DriftCleanupMarkOptionsView,
) -> Seq<Seq<char>> {
    Seq::empty() + noted(
        item.approval_status != options.approval_status,
        "approval_status: "@ + item.approval_status + " -> "@ + options.approval_status,
    ) + field_diff("owner"@, item.owner, options.owner) + field_diff(
        "reason"@,
        item.reason,
        options.reason,
    ) + field_diff("operator_note"@, item.operator_note, options.operator_note) + field_diff(
        "cleanup_strategy"@,
        item.cleanup_strategy,
        options.cleanup_strategy,
    ) + field_diff("exact_resource_id"@, item.exact_resource_id, options.exact_resource_id)
        + field_diff("backup_snapshot_id"@, item.backup_snapshot_id, options.backup_snapshot_id)
        + field_diff("restore_drill_id"@, item.restore_drill_id, options.restore_drill_id)
        + field_diff("maintenance_window"@, item.maintenance_window, options.maintenance_window)
        + field_diff("rollback_plan"@, item.rollback_plan, options.rollback_plan) + field_diff(
        "approval_expires_at"@,
        item.approval_expires_at,
        options.approval_expires_at,
    )
}

/// An item with its marks, and what they change.
pub fn mark_item(item: &DriftCleanupRequestItem, options: &DriftCleanupMarkOptions<'_>) -> (r: (
    DriftCleanupRequestItem,
    Vec<String>,
))
    ensures
        r.0.deep_view() == marked_item(item.deep_view(), options.deep_view()),
        r.1.deep_view() == mark_diff(item.deep_view(), options.deep_view()),
{
    let mut diff: Vec<String> = Vec::new();
    proof {
        reveal(mark_diff);
        assert(diff.deep_view() =~= Seq::<Seq<char>>::empty());
    }
    note(
        &mut diff,
        !same(&item.approval_status, options.approval_status),
        &cat4(
            "approval_status: ",
            &item.approval_status,
            " -> ",
            options.approval_status,
        ),
    );
    let owner = apply_cleanup_mark_optional("owner", &item.owner, options.owner, &mut diff);
    let reason = apply_cleanup_mark_optional("reason", &item.reason, options.reason, &mut diff);
    let operator_note = apply_cleanup_mark_optional(
        "operator_note",
        &item.operator_note,
        options.operator_note,
        &mut diff,
    );
    let cleanup_strategy = apply_cleanup_mark_optional(
        "cleanup_strategy",
        &item.cleanup_strategy,
        options.cleanup_strategy,
        &mut diff,
    );
    let exact_resource_id = apply_cleanup_mark_optional(
        "exact_resource_id",
        &item.exact_resource_id,
        options.exact_resource_id,
        &mut diff,
    );
    let backup_snapshot_id = apply_cleanup_mark_optional(
        "backup_snapshot_id",
        &item.backup_snapshot_id,
        options.backup_snapshot_id,
        &mut diff,
    );
    let restore_drill_id = apply_cleanup_mark_optional(
        "restore_drill_id",
        &item.restore_drill_id,
        options.restore_drill_id,
        &mut diff,
    );
    let maintenance_window = apply_cleanup_mark_optional(
        "maintenance_window",
        &item.maintenance_window,
        options.maintenance_window,
        &mut diff,
    );
    let rollback_plan = apply_cleanup_mark_optional(
        "rollback_plan",
        &item.rollback_plan,
        options.rollback_plan,
        &mut diff,
    );
    let approval_expires_at = apply_cleanup_mark_optional(
        "approval_expires_at",
        &item.approval_expires_at,
        options.approval_expires_at,
        &mut diff,
    );
    (
        DriftCleanupRequestItem {
            request_id: item.request_id.clone(),
            kind: item.kind.clone(),
            target: item.target.clone(),
            code: item.code.clone(),
            risk: item.risk.clone(),
            running: item.running,
            public_bind: item.public_bind,
            data_risk: item.data_risk.clone(),
            observed_status: item.observed_status.clone(),
            planned_action: item.planned_action.clone(),
            approval_status: options.approval_status.to_string(),
            owner,
            reason,
            operator_note,
            cleanup_strategy,
            exact_resource_id,
            backup_snapshot_id,
            restore_drill_id,
            maintenance_window,
            rollback_plan,
            approval_expires_at,
            collected_evidence: item.collected_evidence.clone(),
            evidence_collected_at: item.evidence_collected_at.clone(),
            destructive_command_generated: item.destructive_command_generated,
            rationale: item.rationale.clone(),
        },
        diff,
    )
}

/// What is said of a field that the status requires.
pub open spec fn field_required(value: Option<Seq<char>>, label: Seq<char>) -> Seq<Seq<char>> {
    noted(blank(value), label + " is required for this cleanup request status"@)
}

/// Remarks on a field that the status requires.
pub fn require_cleanup_mark_field(value: Option<&str>, label: &str, limitations: &mut Vec<String>)
    ensures
        final(limitations).deep_view() == old(limitations).deep_view() + field_required(
            value.deep_view(),
            label@,
        ),
{
    note(
        limitations,
        is_blank(value),
        &cat2(label, " is required for this cleanup request status"),
    );
}

/// Whether an approval has already run out.
pub open spec fn approval_over(expires_at: Option<Seq<char>>, now: i128) -> bool {
    match expires_at {
        Some(text) => match rfc3339_nanos(text) {
            Some(instant) => instant <= now,
            None => false,
        },
        None => false,
    }
}

/// Whether an approval has already run out.
pub fn approval_is_over(expires_at: Option<&str>, now: i128) -> (r: bool)
    ensures
        r == approval_over(expires_at.deep_view(), now),
{
    match expires_at {
        Some(text) => match parse_rfc3339(text) {
            Some(instant) => instant <= now,
            None => false,
        },
        None => false,
    }
}

/// What an approved item must have, and does not.
#[verifier::opaque]
pub open spec fn approval_limitations(item: DriftCleanupRequestItemView, now: i128) -> Seq<
    Seq<char>,
> {
    Seq::empty() + field_required(item.owner, "owner"@) + field_required(item.reason, "reason"@)
        + field_required(item.cleanup_strategy, "cleanup_strategy"@) + field_required(
        item.exact_resource_id,
        "exact_resource_id"@,
    ) + field_required(item.approval_expires_at, "approval_expires_at"@) + noted(
        approval_over(item.approval_expires_at, now),
        "approval_expires_at must be in the future"@,
    ) + (if item.data_risk is Some {
        field_required(item.backup_snapshot_id, "backup_snapshot_id"@) + field_required(
            item.restore_drill_id,
            "restore_drill_id"@,
        )
    } else {
        Seq::empty()
    }) + (if is_risky(item) {
        field_required(item.maintenance_window, "maintenance_window"@) + field_required(
            item.rollback_plan,
            "rollback_plan"@,
        )
    } else {
        Seq::empty()
    })
}

/// What an approved item must have, and does not.
pub fn list_approval_limitations(item: &DriftCleanupRequestItem, now: i128) -> (r: Vec<String>)
    ensures
        r.deep_view() == approval_limitations(item.deep_view(), now),
{
    let mut l: Vec<String> = Vec::new();
    proof {
        reveal(approval_limitations);
        assert(l.deep_view() =~= Seq::<Seq<char>>::empty());
    }
    require_cleanup_mark_field(as_text(&item.owner), "owner", &mut l);
    require_cleanup_mark_field(as_text(&item.reason), "reason", &mut l);
    require_cleanup_mark_field(as_text(&item.cleanup_strategy), "cleanup_strategy", &mut l);
    require_cleanup_mark_field(as_text(&item.exact_resource_id), "exact_resource_id", &mut l);
    require_cleanup_mark_field(as_text(&item.approval_expires_at), "approval_expires_at", &mut l);
    note(
        &mut l,
        approval_is_over(as_text(&item.approval_expires_at), now),
        "approval_expires_at must be in the future",
    );
    let ghost before_data = l.deep_view();
    let ghost data = field_required(item.deep_view().backup_snapshot_id, "backup_snapshot_id"@)
        + field_required(item.deep_view().restore_drill_id, "restore_drill_id"@);
    if item.data_risk.is_some() {
        require_cleanup_mark_field(
            as_text(&item.backup_snapshot_id),
            "backup_snapshot_id",
            &mut l,
        );
        require_cleanup_mark_field(as_text(&item.restore_drill_id), "restore_drill_id", &mut l);
        proof {
            assert(l.deep_view() =~= before_data + data);
        }
    } else {
        proof {
            assert(l.deep_view() =~= before_data + Seq::<Seq<char>>::empty());
        }
    }
    let ghost before_risk = l.deep_view();
    let ghost risk = field_required(item.deep_view().maintenance_window, "maintenance_window"@)
        + field_required(item.deep_view().rollback_plan, "rollback_plan"@);
    if item_is_risky(item) {
        require_cleanup_mark_field(
            as_text(&item.maintenance_window),
            "maintenance_window",
            &mut l,
        );
        require_cleanup_mark_field(as_text(&item.rollback_plan), "rollback_plan", &mut l);
        proof {
            assert(l.deep_view() =~= before_risk + risk);
        }
    } else {
        proof {
            assert(l.deep_view() =~= before_risk + Seq::<Seq<char>>::empty());
        }
    }
    l
}

/// What the status of an item requires, and the item lacks.
pub open spec fn status_limitations(item: DriftCleanupRequestItemView, now: i128) -> Seq<
    Seq<char>,
> {
    if item.approval_status == "needs_cleanup"@ {
        Seq::empty() + field_required(item.owner, "owner"@) + field_required(
            item.reason,
            "reason"@,
        ) + field_required(item.cleanup_strategy, "cleanup_strategy"@) + field_required(
            item.exact_resource_id,
            "exact_resource_id"@,
        )
    } else if item.approval_status == "approved"@ {
        approval_limitations(item, now)
    } else if item.approval_status == "rejected"@ {
        Seq::empty() + field_required(item.owner, "owner"@) + field_required(
            item.reason,
            "reason"@,
        )
    } else {
        Seq::empty()
    }
}

/// What the status of an item requires, and the item lacks.
pub fn list_status_limitations(item: &DriftCleanupRequestItem, now: i128) -> (r: Vec<String>)
    ensures
        r.deep_view() == status_limitations(item.deep_view(), now),
{
    if same(&item.approval_status, "approved") {
        proof {
            reveal_strlit("approved");
            reveal_strlit("needs_cleanup");
            assert("approved"@.len() != "needs_cleanup"@.len());
        }
        return list_approval_limitations(item, now);
    }
    let mut l: Vec<String> = Vec::new();
    proof {
        assert(l.deep_view() =~= Seq::<Seq<char>>::empty());
    }
    if same(&item.approval_status, "needs_cleanup") {
        require_cleanup_mark_field(as_text(&item.owner), "owner", &mut l);
        require_cleanup_mark_field(as_text(&item.reason), "reason", &mut l);
        require_cleanup_mark_field(as_text(&item.cleanup_strategy), "cleanup_strategy", &mut l);
        require_cleanup_mark_field(as_text(&item.exact_resource_id), "exact_resource_id", &mut l);
    } else if same(&item.approval_status, "rejected") {
        require_cleanup_mark_field(as_text(&item.owner), "owner", &mut l);
        require_cleanup_mark_field(as_text(&item.reason), "reason", &mut l);
    }
    l
}

/// Everything that is wrong with a marked item.
pub open spec fn mark_limitations(item: DriftCleanupRequestItemView, now: i128) -> Seq<Seq<char>> {
    sorted_set(item_limitations(item, false) + status_limitations(item, now))
}

/// Everything that is wrong with a marked item.
pub fn validate_cleanup_mark_item(item: &DriftCleanupRequestItem, now: i128) -> (r: Vec<String>)
    ensures
        r.deep_view() == mark_limitations(item.deep_view(), now),
{
    let mut l = collect_item_limitations(item, false);
    extend(&mut l, &list_status_limitations(item, now));
    unique_sorted(l)
}

// ---------------------------------------------------------------------------
// Marking a request
// ---------------------------------------------------------------------------

/// An item after marking: changed only if it is selected, nothing is wrong with
/// the marked item, and the marks change something.
pub open spec fn item_after_mark(
    item: DriftCleanupRequestItemView,
    options: DriftCleanupMarkOptionsView,
    now: i128,
) -> DriftCleanupRequestItemView {
    if mark_updates(item, options, now) {
        marked_item(item, options)
    } else {
        item
    }
}

/// Whether marking changes an item.
pub open spec fn mark_updates(
    item: DriftCleanupRequestItemView,
    options: DriftCleanupMarkOptionsView,
    now: i128,
) -> bool {
    mark_selects(item, options) && mark_limitations(marked_item(item, options), now).len() == 0
        && mark_diff(item, options).len() > 0
}

/// Whether an item is selected and already has its marks.
pub open spec fn mark_keeps(
    item: DriftCleanupRequestItemView,
    options: DriftCleanupMarkOptionsView,
    now: i128,
) -> bool {
    mark_selects(item, options) && mark_limitations(marked_item(item, options), now).len() == 0
        && mark_diff(item, options).len() == 0
}

/// What marking says of one item.
pub open spec fn mark_entry(
    item: DriftCleanupRequestItemView,
    options: DriftCleanupMarkOptionsView,
    now: i128,
) -> DriftCleanupMarkEntryView {
    DriftCleanupMarkEntryView {
        request_id: item.request_id,
        kind: item.kind,
        target: item.target,
        previous_approval_status: item.approval_status,
        new_approval_status: options.approval_status,
        changed: mark_updates(item, options, now),
        diff: mark_diff(item, options),
        limitations: mark_limitations(marked_item(item, options), now),
    }
}

/// What marking says of the selected items.
pub open spec fn mark_entries(
    items: Seq<DriftCleanupRequestItemView>,
    options: DriftCleanupMarkOptionsView,
    now: i128,
) -> Seq<DriftCleanupMarkEntryView> {
    chosen(
        items,
        |i: DriftCleanupRequestItemView|
            if mark_selects(i, options) {
                Some(mark_entry(i, options, now))
            } else {
                None
            },
    )
}

/// What is wrong with the selected items, each with its kind and target.
pub open spec fn selected_limitations(
    items: Seq<DriftCleanupRequestItemView>,
    options: DriftCleanupMarkOptionsView,
    now: i128,
) -> Seq<Seq<char>> {
    gathered(
        items,
        |i: DriftCleanupRequestItemView|
            if mark_selects(i, options) {
                all_labelled(
                    i.kind + " "@ + i.target + ": "@,
                    mark_limitations(marked_item(i, options), now),
                )
            } else {
                Seq::empty()
            },
    )
}

/// How many items marking changes.
pub open spec fn updated_count(
    items: Seq<DriftCleanupRequestItemView>,
    options: DriftCleanupMarkOptionsView,
    now: i128,
) -> nat {
    tally(items, |i: DriftCleanupRequestItemView| mark_updates(i, options, now))
}

/// How many selected items already have their marks.
pub open spec fn unchanged_count(
    items: Seq<DriftCleanupRequestItemView>,
    options: DriftCleanupMarkOptionsView,
    now: i128,
) -> nat {
    tally(items, |i: DriftCleanupRequestItemView| mark_keeps(i, options, now))
}

/// The items after marking.
pub open spec fn items_after_mark(
    items: Seq<DriftCleanupRequestItemView>,
    options: DriftCleanupMarkOptionsView,
    now: i128,
) -> Seq<DriftCleanupRequestItemView> {
    items.map_values(|i: DriftCleanupRequestItemView| item_after_mark(i, options, now))
}

/// The outcome of marking, and the document to write where there is one.
#[derive(Debug)]
pub struct DriftCleanupMarkPlan {
    pub report: DriftCleanupMarkReport,
    pub write: Option<DriftCleanupRequestDocument>,
}

/// View of [`DriftCleanupMarkPlan`].
#[verifier::ext_equal]
pub struct DriftCleanupMarkPlanView {
    pub report: DriftCleanupMarkReportView,
    pub write: Option<DriftCleanupRequestDocumentView>,
}

impl DeepView for DriftCleanupMarkPlan {
    type V = DriftCleanupMarkPlanView;

    open spec fn deep_view(&self) -> DriftCleanupMarkPlanView {
        DriftCleanupMarkPlanView {
            report: self.report.deep_view(),
            write: self.write.deep_view(),
        }
    }
}

/// What marking does with the items of a request.
#[derive(Debug)]
pub struct MarkedItems {
    pub items: Vec<DriftCleanupRequestItem>,
    pub entries: Vec<DriftCleanupMarkEntry>,
    pub limitations: Vec<String>,
    pub updated: usize,
    pub unchanged: usize,
}

/// View of [`MarkedItems`].
#[verifier::ext_equal]
pub struct MarkedItemsView {
    pub items: Seq<DriftCleanupRequestItemView>,
    pub entries: Seq<DriftCleanupMarkEntryView>,
    pub limitations: Seq<Seq<char>>,
    pub updated: nat,
    pub unchanged: nat,
}

impl DeepView for MarkedItems {
    type V = MarkedItemsView;

    open spec fn deep_view(&self) -> MarkedItemsView {
        MarkedItemsView {
            items: self.items.deep_view(),
            entries: self.entries.deep_view(),
            limitations: self.limitations.deep_view(),
            updated: self.updated as nat,
            unchanged: self.unchanged as nat,
        }
    }
}

/// What marking does with the items of a request.
pub fn mark_items(
    items: &Vec<DriftCleanupRequestItem>,
    options: &DriftCleanupMarkOptions<'_>,
    now: i128,
) -> (r: MarkedItems)
    ensures
        r.items.deep_view() == items_after_mark(items.deep_view(), options.deep_view(), now),
        r.entries.deep_view() == mark_entries(items.deep_view(), options.deep_view(), now),
        r.limitations.deep_view() == selected_limitations(
            items.deep_view(),
            options.deep_view(),
            now,
        ),
        r.updated == updated_count(items.deep_view(), options.deep_view(), now),
        r.unchanged == unchanged_count(items.deep_view(), options.deep_view(), now),
{
    let ghost all = items.deep_view();
    let ghost o = options.deep_view();
    let mut out: Vec<DriftCleanupRequestItem> = Vec::new();
    let mut entries: Vec<DriftCleanupMarkEntry> = Vec::new();
    let mut limitations: Vec<String> = Vec::new();
    let mut updated: usize = 0;
    let mut unchanged: usize = 0;
    let mut i: usize = 0;
    proof {
        ends(all);
        assert(entries.deep_view() =~= Seq::<DriftCleanupMarkEntryView>::empty());
        assert(limitations.deep_view() =~= Seq::<Seq<char>>::empty());
    }
    while i < items.len()
        invariant
            i <= items@.len(),
            all == items.deep_view(),
            o == options.deep_view(),
            out@.len() == i,
            forall|j: int|
                0 <= j < i ==> (#[trigger] out@[j]).deep_view() == item_after_mark(all[j], o, now),
            entries.deep_view() == mark_entries(all.take(i as int), o, now),
            limitations.deep_view() == selected_limitations(all.take(i as int), o, now),
            updated <= i,
            unchanged <= i,
            updated == updated_count(all.take(i as int), o, now),
            unchanged == unchanged_count(all.take(i as int), o, now),
        decreases items@.len() - i,
    {
        let item = &items[i];
        let ghost held = limitations.deep_view();
        proof {
            step(all, i as int);
            assert(all[i as int] == item.deep_view());
            assert(held + Seq::<Seq<char>>::empty() =~= held);
        }
        if cleanup_mark_matches(item, options) {
            let (candidate, diff) = mark_item(item, options);
            let wrong = validate_cleanup_mark_item(&candidate, now);
            let changed = wrong.len() == 0 && diff.len() > 0;
            note_all(
                &mut limitations,
                &cat4(&item.kind, " ", &item.target, ": "),
                &wrong,
            );
            if changed {
                updated = updated + 1;
                out.push(candidate);
            } else {
                if wrong.len() == 0 {
                    unchanged = unchanged + 1;
                }
                out.push(item.clone());
            }
            entries.push(
                DriftCleanupMarkEntry {
                    request_id: item.request_id.clone(),
                    kind: item.kind.clone(),
                    target: item.target.clone(),
                    previous_approval_status: item.approval_status.clone(),
                    new_approval_status: options.approval_status.to_string(),
                    changed,
                    diff,
                    limitations: wrong,
                },
            );
        } else {
            out.push(item.clone());
        }
        i = i + 1;
    }
    proof {
        ends(all);
        assert(out.deep_view() =~= items_after_mark(all, o, now));
    }
    MarkedItems { items: out, entries, limitations, updated, unchanged }
}

/// Everything that keeps marks from being written.
pub open spec fn all_mark_limitations(
    document: DriftCleanupRequestDocumentView,
    options: DriftCleanupMarkOptionsView,
    now: i128,
) -> Seq<Seq<char>> {
    mark_option_limitations(options) + schema_remark(document) + selected_limitations(
        document.items,
        options,
        now,
    ) + noted(
        mark_entries(document.items, options, now).len() == 0,
        "no cleanup request items matched the selector"@,
    )
}

/// The outcome of marking before anything is written: the document is to be
/// written if and only if nothing is wrong, execution is asked for, and some
/// item changes.
pub open spec fn mark_plan(
    request: LoadedRequestView,
    options: DriftCleanupMarkOptionsView,
    now: i128,
) -> DriftCleanupMarkPlanView {
    match request.document {
        None => DriftCleanupMarkPlanView {
            report: DriftCleanupMarkReportView {
                ok: false,
                execute: options.execute,
                status: "blocked"@,
                request_file: request.path,
                backup_file: None,
                matched: 0,
                updated: 0,
                unchanged: 0,
                entries: Seq::empty(),
                limitations: seq![request.error],
            },
            write: None,
        },
        Some(document) => {
            let limitations = all_mark_limitations(document, options, now);
            let entries = mark_entries(document.items, options, now);
            let updated = updated_count(document.items, options, now);
            let ok = limitations.len() == 0;
            DriftCleanupMarkPlanView {
                report: DriftCleanupMarkReportView {
                    ok,
                    execute: options.execute,
                    status: if !ok {
                        "blocked"@
                    } else if !options.execute {
                        "dry_run"@
                    } else if updated == 0 {
                        "unchanged"@
                    } else {
                        "updated"@
                    },
                    request_file: request.path,
                    backup_file: None,
                    matched: entries.len(),
                    updated,
                    unchanged: unchanged_count(document.items, options, now),
                    entries,
                    limitations: sorted_set(limitations),
                },
                write: if ok && options.execute && updated > 0 {
                    Some(
                        DriftCleanupRequestDocumentView {
                            items: items_after_mark(document.items, options, now),
                            ..document
                        },
                    )
                } else {
                    None
                },
            }
        },
    }
}

/// Marks the selected items of a loaded request.
pub fn drift_cleanup_request_mark(
    options: &DriftCleanupMarkOptions<'_>,
    request: &LoadedRequest,
    now: i128,
) -> (r: DriftCleanupMarkPlan)
    ensures
        r.deep_view() == mark_plan(request.deep_view(), options.deep_view(), now),
{
    let document = match &request.document {
        Some(document) => document,
        None => {
            return DriftCleanupMarkPlan {
                report: DriftCleanupMarkReport {
                    ok: false,
                    execute: options.execute,
                    status: "blocked".to_string(),
                    request_file: request.path.clone(),
                    backup_file: None,
                    matched: 0,
                    updated: 0,
                    unchanged: 0,
                    entries: Vec::new(),
                    limitations: vec![request.error.clone()],
                },
                write: None,
            };
        },
    };
    let mut limitations = validate_cleanup_mark_options(options);
    note_schema(document, &mut limitations);
    let marked = mark_items(&document.items, options, now);
    extend(&mut limitations, &marked.limitations);
    let matched = marked.entries.len();
    note(&mut limitations, matched == 0, "no cleanup request items matched the selector");
    let ok = limitations.is_empty();
    let status = if !ok {
        "blocked"
    } else if !options.execute {
        "dry_run"
    } else if marked.updated == 0 {
        "unchanged"
    } else {
        "updated"
    };
    DriftCleanupMarkPlan {
        report: DriftCleanupMarkReport {
            ok,
            execute: options.execute,
            status: status.to_string(),
            request_file: request.path.clone(),
            backup_file: None,
            matched,
            updated: marked.updated,
            unchanged: marked.unchanged,
            entries: marked.entries,
            limitations: unique_sorted(limitations),
        },
        write: if ok && options.execute && marked.updated > 0 {
            Some(
                DriftCleanupRequestDocument {
                    schema_version: document.schema_version.clone(),
                    generated_at: document.generated_at.clone(),
                    source_active_findings: document.source_active_findings,
                    source_candidates: document.source_candidates,
                    items: marked.items,
                },
            )
        } else {
            None
        },
    }
}

/// The report of marking after its document was written, or could not be.
pub open spec fn written_mark(
    report: DriftCleanupMarkReportView,
    backup_file: Option<Seq<char>>,
    error: Seq<char>,
) -> DriftCleanupMarkReportView {
    match backup_file {
        Some(path) => DriftCleanupMarkReportView { backup_file: Some(path), ..report },
        None => DriftCleanupMarkReportView {
            ok: false,
            status: "blocked"@,
            limitations: sorted_set(report.limitations.push(error)),
            ..report
        },
    }
}

/// The report of marking after its document was written, or could not be: the
/// path of the backup, or the error.
pub fn finish_cleanup_mark(
    report: DriftCleanupMarkReport,
    backup_file: Option<&str>,
    error: &str,
) -> (r: DriftCleanupMarkReport)
    ensures
        r.deep_view() == written_mark(report.deep_view(), backup_file.deep_view(), error@),
{
    let mut report = report;
    match backup_file {
        Some(path) => {
            report.backup_file = Some(path.to_string());
        },
        None => {
            let mut limitations = report.limitations;
            let ghost before = limitations.deep_view();
            limitations.push(error.to_string());
            proof {
                assert(limitations.deep_view() =~= before.push(error@));
            }
            report.limitations = unique_sorted(limitations);
            report.ok = false;
            report.status = "blocked".to_string();
        },
    }
    report
}

// ---------------------------------------------------------------------------
// Laws
// ---------------------------------------------------------------------------

/// Marking never changes what a resource is: its request id, kind, target, code,
/// risk and collected evidence stay, and an item that is not selected stays as
/// it is.
pub proof fn law_marking_keeps_the_resource(
    items: Seq<DriftCleanupRequestItemView>,
    options: DriftCleanupMarkOptionsView,
    now: i128,
    i: int,
)
    requires
        0 <= i < items.len(),
    ensures
        ({
            let new = items_after_mark(items, options, now)[i];
            let old_item = items[i];
            &&& new.request_id == old_item.request_id
            &&& new.kind == old_item.kind
            &&& new.target == old_item.target
            &&& new.code == old_item.code
            &&& new.risk == old_item.risk
            &&& new.data_risk == old_item.data_risk
            &&& new.collected_evidence == old_item.collected_evidence
            &&& new.destructive_command_generated == old_item.destructive_command_generated
            &&& !mark_selects(old_item, options) ==> new == old_item
        }),
{
}

proof fn lemma_marks_stay(item: DriftCleanupRequestItemView, options: DriftCleanupMarkOptionsView)
    ensures
        marked_item(marked_item(item, options), options) == marked_item(item, options),
        mark_diff(marked_item(item, options), options).len() == 0,
        mark_selects(marked_item(item, options), options) == mark_selects(item, options),
{
    reveal(mark_diff);
}

/// Marking twice with the same options changes nothing the second time.
pub proof fn law_marking_twice_changes_nothing(
    items: Seq<DriftCleanupRequestItemView>,
    options: DriftCleanupMarkOptionsView,
    now: i128,
)
    ensures
        ({
            let once = items_after_mark(items, options, now);
            &&& items_after_mark(once, options, now) == once
            &&& updated_count(once, options, now) == 0
        }),
{
    let once = items_after_mark(items, options, now);
    assert forall|i: int| 0 <= i < once.len() implies !mark_updates(
        #[trigger] once[i],
        options,
        now,
    ) by {
        lemma_marks_stay(items[i], options);
    }
    assert(items_after_mark(once, options, now) =~= once);
    lemma_tally_none(once, |i: DriftCleanupRequestItemView| mark_updates(i, options, now));
}

/// A document that marking wrote is not written again by the same marks, whenever they
/// are repeated.
pub proof fn law_written_marks_are_not_written_again(
    request: LoadedRequestView,
    options: DriftCleanupMarkOptionsView,
    now: i128,
    later: i128,
)
    requires
        mark_plan(request, options, now).write is Some,
    ensures
        ({
            let written = mark_plan(request, options, now).write;
            let again = mark_plan(
                LoadedRequestView { document: written, ..request },
                options,
                later,
            );
            &&& again.write is None
            &&& again.report.updated == 0
            &&& items_after_mark(written->0.items, options, later) == written->0.items
        }),
{
    let items = request.document->0.items;
    let once = items_after_mark(items, options, now);
    let wrong = |i: DriftCleanupRequestItemView|
        if mark_selects(i, options) {
            all_labelled(
                i.kind + " "@ + i.target + ": "@,
                mark_limitations(marked_item(i, options), now),
            )
        } else {
            Seq::empty()
        };
    assert(selected_limitations(items, options, now).len() == 0);
    assert forall|i: int| 0 <= i < once.len() implies !mark_updates(
        #[trigger] once[i],
        options,
        later,
    ) by {
        lemma_gathered_nothing(items, wrong, i);
        lemma_marks_stay(items[i], options);
    }
    assert(items_after_mark(once, options, later) =~= once);
    lemma_tally_none(once, |i: DriftCleanupRequestItemView| mark_updates(i, options, later));
}

proof fn lemma_sorted_set_empty(s: Seq<Seq<char>>)
    requires
        sorted_set(s).len() == 0,
    ensures
        s.len() == 0,
{
    law_sorted_set(s);
    if s.len() > 0 {
        assert(s.contains(s[0]));
        assert(sorted_set(s).contains(s[0]));
    }
}

#[verifier::spinoff_prover]
#[verifier::rlimit(60)]
proof fn lemma_sound_item(item: DriftCleanupRequestItemView)
    requires
        item_limitations(item, false).len() == 0,
    ensures
        !bad_expiry(item.approval_expires_at),
        !item.destructive_command_generated,
{
    reveal(item_limitations);
}

#[verifier::spinoff_prover]
#[verifier::rlimit(60)]
proof fn lemma_sound_approval(item: DriftCleanupRequestItemView, now: i128)
    requires
        approval_limitations(item, now).len() == 0,
    ensures
        !blank(item.owner),
        !blank(item.reason),
        !blank(item.cleanup_strategy),
        !blank(item.exact_resource_id),
        !blank(item.approval_expires_at),
        !approval_over(item.approval_expires_at, now),
        item.data_risk is Some ==> !blank(item.backup_snapshot_id) && !blank(item.restore_drill_id),
        is_risky(item) ==> !blank(item.maintenance_window) && !blank(item.rollback_plan),
{
    reveal(approval_limitations);
}

/// An item that marking turns into an approved one has its owner, reason,
/// strategy, exact resource and an expiry in the future, and its data has a
/// backup and a restore drill on record.
pub proof fn law_marked_approvals_are_complete(
    item: DriftCleanupRequestItemView,
    options: DriftCleanupMarkOptionsView,
    now: i128,
)
    requires
        mark_updates(item, options, now),
        options.approval_status == "approved"@,
    ensures
        ({
            let new = item_after_mark(item, options, now);
            &&& new.approval_status == "approved"@
            &&& !blank(new.owner)
            &&& !blank(new.reason)
            &&& !blank(new.cleanup_strategy)
            &&& !blank(new.exact_resource_id)
            &&& !blank(new.approval_expires_at)
            &&& rfc3339_nanos(new.approval_expires_at->0) is Some
            &&& rfc3339_nanos(new.approval_expires_at->0)->0 > now
            &&& new.data_risk is Some ==> !blank(new.backup_snapshot_id) && !blank(
                new.restore_drill_id,
            )
            &&& is_risky(new) ==> !blank(new.maintenance_window) && !blank(new.rollback_plan)
            &&& !new.destructive_command_generated
        }),
{
    let new = marked_item(item, options);
    lemma_sorted_set_empty(item_limitations(new, false) + status_limitations(new, now));
    assert(item_limitations(new, false).len() == 0);
    assert(status_limitations(new, now).len() == 0);
    reveal_strlit("approved");
    reveal_strlit("needs_cleanup");
    assert("approved"@.len() != "needs_cleanup"@.len());
    lemma_sound_item(new);
    lemma_sound_approval(new, now);
}

/// Nothing is written in a dry run.
pub proof fn law_dry_run_mark_writes_nothing(
    request: LoadedRequestView,
    options: DriftCleanupMarkOptionsView,
    now: i128,
)
    requires
        !options.execute,
    ensures
        mark_plan(request, options, now).write is None,
{
}

/// An item is selected exactly where it is of the kind that is asked for, if any, and its
/// id or its target is named, or its target begins with, holds or ends with what is
/// given.
pub proof fn law_which_items_are_marked(
    item: DriftCleanupRequestItemView,
    options: DriftCleanupMarkOptionsView,
)
    ensures
        mark_selects(item, options) <==> {
            &&& options.kind is None || options.kind->0 == item.kind
            &&& {
                ||| options.request_ids.contains(item.request_id)
                ||| options.targets.contains(item.target)
                ||| options.target_prefix is Some && exists|rest: Seq<char>|
                    item.target == #[trigger] (options.target_prefix->0 + rest)
                ||| options.target_contains is Some && exists|front: Seq<char>, back: Seq<char>|
                    item.target == #[trigger] (front + options.target_contains->0 + back)
                ||| options.target_suffix is Some && exists|front: Seq<char>|
                    item.target == #[trigger] (front + options.target_suffix->0)
            }
        },
{
    if options.target_prefix is Some {
        law_found_parts_are_there(item.target, options.target_prefix->0);
    }
    if options.target_contains is Some {
        law_found_parts_are_there(item.target, options.target_contains->0);
    }
    if options.target_suffix is Some {
        law_found_parts_are_there(item.target, options.target_suffix->0);
    }
}

/// A mark sets the status, and every field for which it gives a value; it leaves the
/// other fields, and what the item is about.
pub proof fn law_what_a_mark_sets(
    item: DriftCleanupRequestItemView,
    options: DriftCleanupMarkOptionsView,
)
    ensures
        ({
            let now = marked_item(item, options);
            &&& now.approval_status == options.approval_status
            &&& now.owner == (if options.owner is Some {
                options.owner
            } else {
                item.owner
            })
            &&& now.reason == (if options.reason is Some {
                options.reason
            } else {
                item.reason
            })
            &&& now.operator_note == (if options.operator_note is Some {
                options.operator_note
            } else {
                item.operator_note
            })
            &&& now.cleanup_strategy == (if options.cleanup_strategy is Some {
                options.cleanup_strategy
            } else {
                item.cleanup_strategy
            })
            &&& now.exact_resource_id == (if options.exact_resource_id is Some {
                options.exact_resource_id
            } else {
                item.exact_resource_id
            })
            &&& now.backup_snapshot_id == (if options.backup_snapshot_id is Some {
                options.backup_snapshot_id
            } else {
                item.backup_snapshot_id
            })
            &&& now.restore_drill_id == (if options.restore_drill_id is Some {
                options.restore_drill_id
            } else {
                item.restore_drill_id
            })
            &&& now.maintenance_window == (if options.maintenance_window is Some {
                options.maintenance_window
            } else {
                item.maintenance_window
            })
            &&& now.rollback_plan == (if options.rollback_plan is Some {
                options.rollback_plan
            } else {
                item.rollback_plan
            })
            &&& now.approval_expires_at == (if options.approval_expires_at is Some {
                options.approval_expires_at
            } else {
                item.approval_expires_at
            })
            &&& now.request_id == item.request_id
            &&& now.kind == item.kind
            &&& now.target == item.target
            &&& now.code == item.code
            &&& now.risk == item.risk
            &&& now.running == item.running
            &&& now.public_bind == item.public_bind
            &&& now.data_risk == item.data_risk
            &&& now.collected_evidence == item.collected_evidence
            &&& now.evidence_collected_at == item.evidence_collected_at
        }),
{
}

/// Whether an item that is marked has all that its new status asks for.
pub open spec fn status_is_backed(item: DriftCleanupRequestItemView, now: i128) -> bool {
    let decided = item.approval_status == "needs_cleanup"@ || item.approval_status == "approved"@
        || item.approval_status == "rejected"@;
    let wanted = item.approval_status == "needs_cleanup"@ || item.approval_status == "approved"@;
    let risky = item.public_bind == Some(true) || item.running == Some(true) || item.risk
        == "high"@;
    &&& decided ==> filled_in(item.owner) && filled_in(item.reason)
    &&& wanted ==> filled_in(item.cleanup_strategy) && filled_in(item.exact_resource_id)
    &&& item.approval_status == "approved"@ ==> {
        &&& filled_in(item.approval_expires_at)
        &&& rfc3339_nanos(item.approval_expires_at->0) is Some ==> rfc3339_nanos(
            item.approval_expires_at->0,
        )->0 > now
        &&& item.data_risk is Some ==> filled_in(item.backup_snapshot_id) && filled_in(
            item.restore_drill_id,
        )
        &&& risky ==> filled_in(item.maintenance_window) && filled_in(item.rollback_plan)
    }
}

#[verifier::spinoff_prover]
#[verifier::rlimit(60)]
proof fn lemma_backed(item: DriftCleanupRequestItemView, now: i128)
    ensures
        status_limitations(item, now).len() == 0 <==> status_is_backed(item, now),
{
    reveal(approval_limitations);
    reveal_strlit("needs_cleanup");
    reveal_strlit("approved");
    reveal_strlit("rejected");
    assert("needs_cleanup"@.len() == 13 && "approved"@.len() == 8 && "rejected"@.len() == 8);
    assert("approved"@[0] != "rejected"@[0]);
    assert(forall|value: Option<Seq<char>>, label: Seq<char>|
        (#[trigger] field_required(value, label)).len() == (if filled_in(value) {
            0nat
        } else {
            1nat
        }));
}

/// Nothing stands against a mark exactly where the marked item is filled in as a request
/// has to be, and has all that its new status asks for.
pub proof fn law_which_marks_are_allowed(item: DriftCleanupRequestItemView, now: i128)
    ensures
        mark_limitations(item, now).len() == 0 <==> item_is_sound(item) && status_is_backed(
            item,
            now,
        ),
{
    law_which_items_are_valid(item, false);
    lemma_backed(item, now);
    let all = item_limitations(item, false) + status_limitations(item, now);
    law_sorted_set(all);
    if all.len() > 0 {
        assert(all.contains(all[0]));
        assert(sorted_set(all).contains(all[0]));
    }
}

/// A mark differs from what is there exactly where it sets another status or gives a
/// field another value.
#[verifier::spinoff_prover]
#[verifier::rlimit(60)]
pub proof fn law_what_a_mark_changes(
    item: DriftCleanupRequestItemView,
    options: DriftCleanupMarkOptionsView,
)
    ensures
        mark_diff(item, options).len() > 0 <==> {
            ||| item.approval_status != options.approval_status
            ||| options.owner is Some && item.owner != options.owner
            ||| options.reason is Some && item.reason != options.reason
            ||| options.operator_note is Some && item.operator_note != options.operator_note
            ||| options.cleanup_strategy is Some && item.cleanup_strategy
                != options.cleanup_strategy
            ||| options.exact_resource_id is Some && item.exact_resource_id
                != options.exact_resource_id
            ||| options.backup_snapshot_id is Some && item.backup_snapshot_id
                != options.backup_snapshot_id
            ||| options.restore_drill_id is Some && item.restore_drill_id
                != options.restore_drill_id
            ||| options.maintenance_window is Some && item.maintenance_window
                != options.maintenance_window
            ||| options.rollback_plan is Some && item.rollback_plan != options.rollback_plan
            ||| options.approval_expires_at is Some && item.approval_expires_at
                != options.approval_expires_at
        },
{
    reveal(mark_diff);
    assert(forall|label: Seq<char>, field: Option<Seq<char>>, value: Option<Seq<char>>|
        (#[trigger] field_diff(label, field, value)).len() == (if value is Some && field != value {
            1nat
        } else {
            0nat
        }));
}

/// An item is changed exactly where it is selected, nothing stands against the mark, and
/// the mark changes something; the counts tell how many are.
pub proof fn law_which_items_change(
    items: Seq<DriftCleanupRequestItemView>,
    options: DriftCleanupMarkOptionsView,
    now: i128,
    i: int,
)
    requires
        0 <= i < items.len(),
    ensures
        ({
            let new = items_after_mark(items, options, now);
            let item = items[i];
            let allowed = item_is_sound(marked_item(item, options)) && status_is_backed(
                marked_item(item, options),
                now,
            );
            let changes = mark_diff(item, options).len() > 0;
            &&& new.len() == items.len()
            &&& new[i] == (if mark_selects(item, options) && allowed && changes {
                marked_item(item, options)
            } else {
                item
            })
        }),
        updated_count(items, options, now) == tally(
            items,
            |x: DriftCleanupRequestItemView|
                mark_selects(x, options) && item_is_sound(marked_item(x, options))
                    && status_is_backed(marked_item(x, options), now) && mark_diff(
                    x,
                    options,
                ).len() > 0,
        ),
{
    law_which_marks_are_allowed(marked_item(items[i], options), now);
    let p = |x: DriftCleanupRequestItemView| mark_updates(x, options, now);
    let q = |x: DriftCleanupRequestItemView|
        mark_selects(x, options) && item_is_sound(marked_item(x, options)) && status_is_backed(
            marked_item(x, options),
            now,
        ) && mark_diff(x, options).len() > 0;
    assert forall|k: int| 0 <= k < items.len() implies p(#[trigger] items[k]) == q(items[k]) by {
        law_which_marks_are_allowed(marked_item(items[k], options), now);
    }
    law_tally_agrees(items, p, q);
}

/// What a mark of a request comes to: it is refused where something stands against it or
/// nothing is selected; otherwise the marked items are written where it is to be executed
/// and changes something.
pub proof fn law_what_a_mark_comes_to(
    request: LoadedRequestView,
    options: DriftCleanupMarkOptionsView,
    now: i128,
)
    requires
        request.document is Some,
    ensures
        ({
            let document = request.document->0;
            let plan = mark_plan(request, options, now);
            &&& plan.report.ok ==> {
                &&& document.schema_version == "opsctl.drift_cleanup_request.v1"@
                &&& options.approval_status == "unknown"@ || options.approval_status == "approved"@
                    || options.approval_status == "rejected"@ || options.approval_status
                    == "needs_cleanup"@
                &&& plan.report.entries.len() > 0
                &&& forall|i: int|
                    0 <= i < document.items.len() && mark_selects(
                        #[trigger] document.items[i],
                        options,
                    ) ==> item_is_sound(marked_item(document.items[i], options))
                        && status_is_backed(marked_item(document.items[i], options), now)
            }
            &&& plan.write is Some <==> plan.report.ok && options.execute && plan.report.updated > 0
            &&& plan.write is Some ==> plan.write->0.items == items_after_mark(
                document.items,
                options,
                now,
            ) && plan.write->0.schema_version == document.schema_version
            &&& plan.report.matched == plan.report.entries.len()
            &&& plan.report.updated == updated_count(document.items, options, now)
            &&& plan.report.status == "blocked"@ <==> !plan.report.ok
            &&& plan.report.status == "dry_run"@ <==> plan.report.ok && !options.execute
            &&& plan.report.status == "updated"@ <==> plan.write is Some
        }),
{
    let document = request.document->0;
    let items = document.items;
    let a = mark_option_limitations(options);
    let b = schema_remark(document);
    let c = selected_limitations(items, options, now);
    let all = all_mark_limitations(document, options, now);
    if all.len() == 0 {
        assert(a.len() == 0 && b.len() == 0 && c.len() == 0);
        reveal(mark_option_limitations);
        let f = |i: DriftCleanupRequestItemView|
            if mark_selects(i, options) {
                all_labelled(
                    i.kind + " "@ + i.target + ": "@,
                    mark_limitations(marked_item(i, options), now),
                )
            } else {
                Seq::empty()
            };
        assert forall|i: int|
            0 <= i < items.len() && mark_selects(#[trigger] items[i], options) implies item_is_sound(
            marked_item(items[i], options),
        ) && status_is_backed(marked_item(items[i], options), now) by {
            lemma_gathered_nothing(items, f, i);
            assert(mark_limitations(marked_item(items[i], options), now).len() == 0);
            law_which_marks_are_allowed(marked_item(items[i], options), now);
        }
    }
    reveal_strlit("blocked");
    reveal_strlit("dry_run");
    reveal_strlit("updated");
    reveal_strlit("unchanged");
    assert("blocked"@[0] == 'b' && "dry_run"@[0] == 'd' && "updated"@[1] == 'p' && "unchanged"@[1]
        == 'n' && "updated"@[0] == 'u' && "unchanged"@[0] == 'u');
}

/// A report on what was to be written names the backup that was made; where none was, it is
/// blocked, and the failure stands with its other limits.
pub proof fn law_written_marks(report: DriftCleanupMarkReportView, backup_file: Option<Seq<char>>, error: Seq<char>)
    ensures
        ({
            let r = written_mark(report, backup_file, error);
            &&& backup_file is Some ==> r.backup_file == backup_file && r.ok == report.ok
                && r.status == report.status && r.limitations == report.limitations
            &&& backup_file is None ==> !r.ok && r.status == "blocked"@ && r.limitations.contains(
                error,
            ) && r.backup_file == report.backup_file
            &&& r.entries == report.entries && r.request_file == report.request_file
        }),
{
    law_sorted_set(report.limitations.push(error));
    law_one_more(report.limitations, error, error);
}

proof fn lemma_usable(label: Seq<char>, value: Option<Seq<char>>)
    ensures
        given_remark(label, value).len() == 0 <==> is_usable_text(value),
{
}

proof fn lemma_all_fit(label: Seq<char>, values: Seq<Seq<char>>)
    ensures
        option_remarks(label, values).len() == 0 <==> forall|i: int|
            0 <= i < values.len() ==> fits_on_a_line(Some(#[trigger] values[i])),
    decreases values.len(),
{
    if values.len() > 0 {
        let d = values.drop_last();
        lemma_all_fit(label, d);
        assert(values[values.len() - 1] == values.last());
        assert forall|i: int| 0 <= i < d.len() implies #[trigger] d[i] == values[i] by {}
        assert(option_remark(label, Some(values.last())).len() == 0 <==> fits_on_a_line(
            Some(values.last()),
        ));
        if option_remarks(label, values).len() == 0 {
            assert forall|i: int| 0 <= i < values.len() implies fits_on_a_line(
                Some(#[trigger] values[i]),
            ) by {
                if i < d.len() {
                    assert(d[i] == values[i]);
                }
            }
        }
        if forall|i: int| 0 <= i < values.len() ==> fits_on_a_line(Some(#[trigger] values[i])) {
            assert forall|i: int| 0 <= i < d.len() implies fits_on_a_line(
                Some(#[trigger] d[i]),
            ) by {
                assert(d[i] == values[i]);
            }
        }
    }
}

/// Whether the options of a mark can be used: the status is known, something selects items,
/// and whatever was given is not empty and fits on a line.
pub open spec fn mark_can_be_made(options: DriftCleanupMarkOptionsView) -> bool {
    &&& options.approval_status == "unknown"@ || options.approval_status == "approved"@
        || options.approval_status == "rejected"@ || options.approval_status == "needs_cleanup"@
    &&& options.request_ids.len() > 0 || options.targets.len() > 0 || options.target_prefix is Some
        || options.target_contains is Some || options.target_suffix is Some
    &&& forall|i: int|
        0 <= i < options.request_ids.len() ==> fits_on_a_line(
            Some(#[trigger] options.request_ids[i]),
        )
    &&& forall|i: int|
        0 <= i < options.targets.len() ==> fits_on_a_line(Some(#[trigger] options.targets[i]))
    &&& is_usable_text(options.kind) && is_usable_text(options.target_prefix) && is_usable_text(
        options.target_contains,
    ) && is_usable_text(options.target_suffix) && is_usable_text(Some(options.approval_status))
    &&& is_usable_text(options.owner) && is_usable_text(options.reason) && is_usable_text(
        options.operator_note,
    ) && is_usable_text(options.cleanup_strategy) && is_usable_text(options.exact_resource_id)
    &&& is_usable_text(options.backup_snapshot_id) && is_usable_text(options.restore_drill_id)
        && is_usable_text(options.maintenance_window) && is_usable_text(options.rollback_plan)
        && is_usable_text(options.approval_expires_at)
}

#[verifier::spinoff_prover]
#[verifier::rlimit(90)]
proof fn lemma_mark_can_be_made(options: DriftCleanupMarkOptionsView)
    ensures
        mark_option_limitations(options).len() == 0 <==> mark_can_be_made(options),
{
    reveal(mark_option_limitations);
    lemma_all_fit("request_id"@, options.request_ids);
    lemma_all_fit("target"@, options.targets);
    lemma_usable("kind"@, options.kind);
    lemma_usable("target_prefix"@, options.target_prefix);
    lemma_usable("target_contains"@, options.target_contains);
    lemma_usable("target_suffix"@, options.target_suffix);
    lemma_usable("approval_status"@, Some(options.approval_status));
    lemma_usable("owner"@, options.owner);
    lemma_usable("reason"@, options.reason);
    lemma_usable("operator_note"@, options.operator_note);
    lemma_usable("cleanup_strategy"@, options.cleanup_strategy);
    lemma_usable("exact_resource_id"@, options.exact_resource_id);
    lemma_usable("backup_snapshot_id"@, options.backup_snapshot_id);
    lemma_usable("restore_drill_id"@, options.restore_drill_id);
    lemma_usable("maintenance_window"@, options.maintenance_window);
    lemma_usable("rollback_plan"@, options.rollback_plan);
    lemma_usable("approval_expires_at"@, options.approval_expires_at);
}

proof fn lemma_selected_limits(
    items: Seq<DriftCleanupRequestItemView>,
    options: DriftCleanupMarkOptionsView,
    now: i128,
)
    ensures
        selected_limitations(items, options, now).len() == 0 <==> forall|i: int|
            0 <= i < items.len() && mark_selects(#[trigger] items[i], options) ==> mark_limitations(
                marked_item(items[i], options),
                now,
            ).len() == 0,
    decreases items.len(),
{
    if items.len() > 0 {
        let d = items.drop_last();
        lemma_selected_limits(d, options, now);
        assert(items[items.len() - 1] == items.last());
        assert forall|i: int| 0 <= i < d.len() implies #[trigger] d[i] == items[i] by {}
        if selected_limitations(items, options, now).len() == 0 {
            assert forall|i: int|
                0 <= i < items.len() && mark_selects(#[trigger] items[i], options) implies
                mark_limitations(marked_item(items[i], options), now).len() == 0 by {
                if i < d.len() {
                    assert(d[i] == items[i]);
                }
            }
        }
        if forall|i: int|
            0 <= i < items.len() && mark_selects(#[trigger] items[i], options) ==> mark_limitations(
                marked_item(items[i], options),
                now,
            ).len() == 0 {
            assert forall|i: int|
                0 <= i < d.len() && mark_selects(#[trigger] d[i], options) implies mark_limitations(
                marked_item(d[i], options),
                now,
            ).len() == 0 by {
                assert(d[i] == items[i]);
            }
        }
    }
}

/// A mark is accepted exactly where it can be made, the request has the known format, some
/// items are selected, and each of them is sound and backed once it is marked.
pub proof fn law_when_a_mark_is_accepted(
    request: LoadedRequestView,
    options: DriftCleanupMarkOptionsView,
    now: i128,
)
    requires
        request.document is Some,
    ensures
        mark_plan(request, options, now).report.ok <==> {
            let items = request.document->0.items;
            &&& mark_can_be_made(options)
            &&& request.document->0.schema_version == "opsctl.drift_cleanup_request.v1"@
            &&& mark_entries(items, options, now).len() > 0
            &&& forall|i: int|
                0 <= i < items.len() && mark_selects(#[trigger] items[i], options)
                    ==> item_is_sound(marked_item(items[i], options)) && status_is_backed(
                    marked_item(items[i], options),
                    now,
                )
        },
{
    let items = request.document->0.items;
    lemma_mark_can_be_made(options);
    lemma_selected_limits(items, options, now);
    assert forall|i: int| 0 <= i < items.len() implies (mark_limitations(
        marked_item(#[trigger] items[i], options),
        now,
    ).len() == 0 <==> item_is_sound(marked_item(items[i], options)) && status_is_backed(
        marked_item(items[i], options),
        now,
    )) by {
        law_which_marks_are_allowed(marked_item(items[i], options), now);
    }
}

} // verus!
