//! Whether a cleanup request is well formed.

use vstd::prelude::*;
use crate::drift::candidates::{
    LoadedRequest, LoadedRequestView, item_key, request_schema, request_schema_version,
};
use crate::drift::types::{
    DriftCleanupRequestDocument, DriftCleanupRequestDocumentView, DriftCleanupRequestItem,
    DriftCleanupRequestItemView, DriftCleanupRequestVerifyEntry,
    DriftCleanupRequestVerifyEntryView, DriftCleanupRequestVerifyReport,
    DriftCleanupRequestVerifyReportView,
};
use crate::list::{
    any, extend, gathered, law_either_list, law_gathered, law_noted, law_sorted_set, law_tally,
    lemma_any, lemma_gathered_nothing, note, noted, sorted_set, tally, unique_sorted,
};
use crate::outside::{parse_rfc3339, rfc3339_nanos};
use crate::text::{
    as_text, blank, byte_len, byte_size, cat2, cat4, contains_char, ends, is_blank, same, step,
};

verus! {

broadcast use {vstd::seq::group_seq_axioms, vstd::string::group_string_axioms};

/// Whether a review text is too long or spans lines.
pub open spec fn bad_text(value: Option<Seq<char>>) -> bool {
    match value {
        Some(text) => byte_len(text) > 512 || text.contains('\n') || text.contains('\r'),
        None => false,
    }
}

/// What is said of a review text that is too long or spans lines.
pub open spec fn text_remark(label: Seq<char>, value: Option<Seq<char>>) -> Seq<Seq<char>> {
    noted(bad_text(value), label + " must be <= 512 bytes and must not contain newlines"@)
}

/// Remarks on a review text that is too long or spans lines.
pub fn validate_review_text(label: &str, value: Option<&str>, limitations: &mut Vec<String>)
    ensures
        final(limitations).deep_view() == old(limitations).deep_view() + text_remark(
            label@,
            value.deep_view(),
        ),
{
    let bad = match value {
        Some(text) => byte_size(text) > 512 || contains_char(text, '\n') || contains_char(
            text,
            '\r',
        ),
        None => false,
    };
    note(
        limitations,
        bad,
        &cat2(label, " must be <= 512 bytes and must not contain newlines"),
    );
}

// ---------------------------------------------------------------------------
// One item
// ---------------------------------------------------------------------------

/// Whether an item is approved or marked for cleanup.
pub open spec fn wants_cleanup(status: Seq<char>) -> bool {
    status == "approved"@ || status == "needs_cleanup"@
}

/// Whether an approval status is one of the known ones.
pub open spec fn known_status(status: Seq<char>) -> bool {
    status == "unknown"@ || status == "approved"@ || status == "rejected"@ || status
        == "needs_cleanup"@
}

/// Whether an expiry is present but is not an RFC 3339 text.
pub open spec fn bad_expiry(expires_at: Option<Seq<char>>) -> bool {
    expires_at is Some && rfc3339_nanos(expires_at->0) is None
}

/// Everything that is wrong with an item. `duplicate` says that an earlier item
/// has the same kind and target.
#[verifier::opaque]
pub open spec fn item_limitations(item: DriftCleanupRequestItemView, duplicate: bool) -> Seq<
    Seq<char>,
> {
    Seq::empty() + text_remark("request_id"@, Some(item.request_id)) + text_remark(
        "kind"@,
        Some(item.kind),
    ) + text_remark("target"@, Some(item.target)) + text_remark("code"@, Some(item.code))
        + text_remark("risk"@, Some(item.risk)) + text_remark(
        "planned_action"@,
        Some(item.planned_action),
    ) + text_remark("approval_status"@, Some(item.approval_status)) + text_remark(
        "owner"@,
        item.owner,
    ) + text_remark("reason"@, item.reason) + text_remark("operator_note"@, item.operator_note)
        + text_remark("cleanup_strategy"@, item.cleanup_strategy) + text_remark(
        "exact_resource_id"@,
        item.exact_resource_id,
    ) + text_remark("backup_snapshot_id"@, item.backup_snapshot_id) + text_remark(
        "restore_drill_id"@,
        item.restore_drill_id,
    ) + text_remark("maintenance_window"@, item.maintenance_window) + text_remark(
        "rollback_plan"@,
        item.rollback_plan,
    ) + text_remark("approval_expires_at"@, item.approval_expires_at) + noted(
        item.request_id.len() == 0,
        "request_id is required"@,
    ) + noted(item.kind.len() == 0, "kind is required"@) + noted(
        item.target.len() == 0,
        "target is required"@,
    ) + noted(
        item.risk != "low"@ && item.risk != "medium"@ && item.risk != "high"@,
        "risk must be low, medium, or high"@,
    ) + noted(
        !known_status(item.approval_status),
        "approval_status must be unknown, approved, rejected, or needs_cleanup"@,
    ) + noted(
        wants_cleanup(item.approval_status) && blank(item.owner),
        "owner is required for approved or needs_cleanup items"@,
    ) + noted(
        wants_cleanup(item.approval_status) && blank(item.reason),
        "reason is required for approved or needs_cleanup items"@,
    ) + noted(
        bad_expiry(item.approval_expires_at),
        "approval_expires_at must be RFC3339 when present"@,
    ) + noted(
        item.destructive_command_generated,
        "destructive_command_generated must remain false in cleanup requests"@,
    ) + noted(
        duplicate,
        "duplicate cleanup request item kind="@ + item.kind + " target="@ + item.target,
    )
}

/// What an operator should know about an item.
pub open spec fn item_warnings(item: DriftCleanupRequestItemView) -> Seq<Seq<char>> {
    Seq::empty() + noted(
        item.public_bind == Some(true),
        "public listener must be traced to an owning service before cleanup"@,
    ) + noted(
        item.data_risk is Some,
        "data-bearing resource needs backup/restore proof before cleanup"@,
    ) + noted(
        item.running == Some(true),
        "running resource must not be removed without a service-specific stop plan"@,
    )
}

/// The verdict on an item: `valid` if and only if nothing is wrong with it.
pub open spec fn verify_entry(item: DriftCleanupRequestItemView, duplicate: bool) -> DriftCleanupRequestVerifyEntryView {
    DriftCleanupRequestVerifyEntryView {
        request_id: item.request_id,
        kind: item.kind,
        target: item.target,
        approval_status: item.approval_status,
        risk: item.risk,
        status: if item_limitations(item, duplicate).len() == 0 {
            "valid"@
        } else {
            "blocked"@
        },
        warnings: item_warnings(item),
        limitations: item_limitations(item, duplicate),
    }
}

/// Whether an optional flag is set.
pub fn is_set(flag: Option<bool>) -> (r: bool)
    ensures
        r == (flag == Some(true)),
{
    match flag {
        Some(b) => b,
        None => false,
    }
}

/// Whether an expiry is present but is not an RFC 3339 text.
pub fn expiry_is_bad(expires_at: Option<&str>) -> (r: bool)
    ensures
        r == bad_expiry(expires_at.deep_view()),
{
    match expires_at {
        Some(text) => parse_rfc3339(text).is_none(),
        None => false,
    }
}

/// Everything that is wrong with an item.
pub fn collect_item_limitations(item: &DriftCleanupRequestItem, duplicate: bool) -> (r: Vec<String>)
    ensures
        r.deep_view() == item_limitations(item.deep_view(), duplicate),
{
    let mut l: Vec<String> = Vec::new();
    proof {
        reveal(item_limitations);
        assert(l.deep_view() =~= Seq::<Seq<char>>::empty());
    }
    validate_review_text("request_id", Some(item.request_id.as_str()), &mut l);
    validate_review_text("kind", Some(item.kind.as_str()), &mut l);
    validate_review_text("target", Some(item.target.as_str()), &mut l);
    validate_review_text("code", Some(item.code.as_str()), &mut l);
    validate_review_text("risk", Some(item.risk.as_str()), &mut l);
    validate_review_text("planned_action", Some(item.planned_action.as_str()), &mut l);
    validate_review_text("approval_status", Some(item.approval_status.as_str()), &mut l);
    validate_review_text("owner", as_text(&item.owner), &mut l);
    validate_review_text("reason", as_text(&item.reason), &mut l);
    validate_review_text("operator_note", as_text(&item.operator_note), &mut l);
    validate_review_text("cleanup_strategy", as_text(&item.cleanup_strategy), &mut l);
    validate_review_text("exact_resource_id", as_text(&item.exact_resource_id), &mut l);
    validate_review_text("backup_snapshot_id", as_text(&item.backup_snapshot_id), &mut l);
    validate_review_text("restore_drill_id", as_text(&item.restore_drill_id), &mut l);
    validate_review_text("maintenance_window", as_text(&item.maintenance_window), &mut l);
    validate_review_text("rollback_plan", as_text(&item.rollback_plan), &mut l);
    validate_review_text("approval_expires_at", as_text(&item.approval_expires_at), &mut l);
    note(&mut l, item.request_id.as_str().is_empty(), "request_id is required");
    note(&mut l, item.kind.as_str().is_empty(), "kind is required");
    note(&mut l, item.target.as_str().is_empty(), "target is required");
    note(
        &mut l,
        !same(&item.risk, "low") && !same(&item.risk, "medium") && !same(&item.risk, "high"),
        "risk must be low, medium, or high",
    );
    let approved = same(&item.approval_status, "approved");
    let needs_cleanup = same(&item.approval_status, "needs_cleanup");
    note(
        &mut l,
        !same(&item.approval_status, "unknown") && !approved && !same(
            &item.approval_status,
            "rejected",
        ) && !needs_cleanup,
        "approval_status must be unknown, approved, rejected, or needs_cleanup",
    );
    let wanted = approved || needs_cleanup;
    note(
        &mut l,
        wanted && is_blank(as_text(&item.owner)),
        "owner is required for approved or needs_cleanup items",
    );
    note(
        &mut l,
        wanted && is_blank(as_text(&item.reason)),
        "reason is required for approved or needs_cleanup items",
    );
    note(
        &mut l,
        expiry_is_bad(as_text(&item.approval_expires_at)),
        "approval_expires_at must be RFC3339 when present",
    );
    note(
        &mut l,
        item.destructive_command_generated,
        "destructive_command_generated must remain false in cleanup requests",
    );
    note(
        &mut l,
        duplicate,
        &cat4("duplicate cleanup request item kind=", &item.kind, " target=", &item.target),
    );
    l
}

/// The verdict on an item.
pub fn verify_cleanup_request_item(item: &DriftCleanupRequestItem, duplicate: bool) -> (r:
    DriftCleanupRequestVerifyEntry)
    ensures
        r.deep_view() == verify_entry(item.deep_view(), duplicate),
{
    let limitations = collect_item_limitations(item, duplicate);
    let mut warnings: Vec<String> = Vec::new();
    proof {
        assert(warnings.deep_view() =~= Seq::<Seq<char>>::empty());
    }
    note(
        &mut warnings,
        is_set(item.public_bind),
        "public listener must be traced to an owning service before cleanup",
    );
    note(
        &mut warnings,
        item.data_risk.is_some(),
        "data-bearing resource needs backup/restore proof before cleanup",
    );
    note(
        &mut warnings,
        is_set(item.running),
        "running resource must not be removed without a service-specific stop plan",
    );
    let valid = limitations.is_empty();
    DriftCleanupRequestVerifyEntry {
        request_id: item.request_id.clone(),
        kind: item.kind.clone(),
        target: item.target.clone(),
        approval_status: item.approval_status.clone(),
        risk: item.risk.clone(),
        status: (if valid {
            "valid"
        } else {
            "blocked"
        }).to_string(),
        warnings,
        limitations,
    }
}

// ---------------------------------------------------------------------------
// Counting items
// ---------------------------------------------------------------------------

/// How many items have this approval status.
pub open spec fn with_status(items: Seq<DriftCleanupRequestItemView>, status: Seq<char>) -> nat {
    tally(items, |i: DriftCleanupRequestItemView| i.approval_status == status)
}

/// How many items have this risk.
pub open spec fn with_risk(items: Seq<DriftCleanupRequestItemView>, risk: Seq<char>) -> nat {
    tally(items, |i: DriftCleanupRequestItemView| i.risk == risk)
}

/// How many items are public listeners.
pub open spec fn with_public_bind(items: Seq<DriftCleanupRequestItemView>) -> nat {
    tally(items, |i: DriftCleanupRequestItemView| i.public_bind == Some(true))
}

/// How many items may hold data.
pub open spec fn with_data_risk(items: Seq<DriftCleanupRequestItemView>) -> nat {
    tally(items, |i: DriftCleanupRequestItemView| i.data_risk is Some)
}

/// Whether some item carries a generated destructive command.
pub open spec fn some_destructive(items: Seq<DriftCleanupRequestItemView>) -> bool {
    any(items, |i: DriftCleanupRequestItemView| i.destructive_command_generated)
}

/// Counts the items with this approval status.
pub fn count_status(items: &Vec<DriftCleanupRequestItem>, status: &str) -> (r: usize)
    ensures
        r == with_status(items.deep_view(), status@),
{
    let ghost all = items.deep_view();
    let mut n: usize = 0;
    let mut i: usize = 0;
    proof {
        ends(all);
    }
    while i < items.len()
        invariant
            i <= items@.len(),
            n <= i,
            all == items.deep_view(),
            n == with_status(all.take(i as int), status@),
        decreases items@.len() - i,
    {
        proof {
            step(all, i as int);
        }
        if same(&items[i].approval_status, status) {
            n = n + 1;
        }
        i = i + 1;
    }
    proof {
        ends(all);
    }
    n
}

/// Counts the items with this risk.
pub fn count_risk(items: &Vec<DriftCleanupRequestItem>, risk: &str) -> (r: usize)
    ensures
        r == with_risk(items.deep_view(), risk@),
{
    let ghost all = items.deep_view();
    let mut n: usize = 0;
    let mut i: usize = 0;
    proof {
        ends(all);
    }
    while i < items.len()
        invariant
            i <= items@.len(),
            n <= i,
            all == items.deep_view(),
            n == with_risk(all.take(i as int), risk@),
        decreases items@.len() - i,
    {
        proof {
            step(all, i as int);
        }
        if same(&items[i].risk, risk) {
            n = n + 1;
        }
        i = i + 1;
    }
    proof {
        ends(all);
    }
    n
}

/// Counts the public listeners.
pub fn count_public_bind(items: &Vec<DriftCleanupRequestItem>) -> (r: usize)
    ensures
        r == with_public_bind(items.deep_view()),
{
    let ghost all = items.deep_view();
    let mut n: usize = 0;
    let mut i: usize = 0;
    proof {
        ends(all);
    }
    while i < items.len()
        invariant
            i <= items@.len(),
            n <= i,
            all == items.deep_view(),
            n == with_public_bind(all.take(i as int)),
        decreases items@.len() - i,
    {
        proof {
            step(all, i as int);
        }
        if is_set(items[i].public_bind) {
            n = n + 1;
        }
        i = i + 1;
    }
    proof {
        ends(all);
    }
    n
}

/// Counts the items that may hold data.
pub fn count_data_risk(items: &Vec<DriftCleanupRequestItem>) -> (r: usize)
    ensures
        r == with_data_risk(items.deep_view()),
{
    let ghost all = items.deep_view();
    let mut n: usize = 0;
    let mut i: usize = 0;
    proof {
        ends(all);
    }
    while i < items.len()
        invariant
            i <= items@.len(),
            n <= i,
            all == items.deep_view(),
            n == with_data_risk(all.take(i as int)),
        decreases items@.len() - i,
    {
        proof {
            step(all, i as int);
        }
        if items[i].data_risk.is_some() {
            n = n + 1;
        }
        i = i + 1;
    }
    proof {
        ends(all);
    }
    n
}

/// Whether some item carries a generated destructive command.
pub fn any_destructive(items: &Vec<DriftCleanupRequestItem>) -> (r: bool)
    ensures
        r == some_destructive(items.deep_view()),
{
    let ghost all = items.deep_view();
    let mut found = false;
    let mut i: usize = 0;
    proof {
        ends(all);
    }
    while i < items.len()
        invariant
            i <= items@.len(),
            all == items.deep_view(),
            found == some_destructive(all.take(i as int)),
        decreases items@.len() - i,
    {
        proof {
            step(all, i as int);
        }
        if items[i].destructive_command_generated {
            found = true;
        }
        i = i + 1;
    }
    proof {
        ends(all);
    }
    found
}

/// Whether some item has this kind and target.
pub open spec fn key_occurs(
    items: Seq<DriftCleanupRequestItemView>,
    key: (Seq<char>, Seq<char>),
) -> bool {
    any(items, |i: DriftCleanupRequestItemView| item_key(i) == key)
}

/// Whether one of the first `limit` items has this kind and target.
pub fn key_occurs_before(
    items: &Vec<DriftCleanupRequestItem>,
    limit: usize,
    kind: &str,
    target: &str,
) -> (r: bool)
    requires
        limit <= items@.len(),
    ensures
        r == key_occurs(items.deep_view().take(limit as int), (kind@, target@)),
{
    let ghost all = items.deep_view();
    let mut found = false;
    let mut i: usize = 0;
    proof {
        ends(all);
    }
    while i < limit
        invariant
            i <= limit <= items@.len(),
            all == items.deep_view(),
            found == key_occurs(all.take(i as int), (kind@, target@)),
        decreases limit - i,
    {
        proof {
            step(all, i as int);
        }
        if same(&items[i].kind, kind) && same(&items[i].target, target) {
            found = true;
        }
        i = i + 1;
    }
    found
}

// ---------------------------------------------------------------------------
// The whole request
// ---------------------------------------------------------------------------

/// The verdicts on the items; an item is a duplicate if an earlier one has its
/// kind and target.
pub open spec fn verify_entries(items: Seq<DriftCleanupRequestItemView>) -> Seq<
    DriftCleanupRequestVerifyEntryView,
>
    decreases items.len(),
{
    if items.len() == 0 {
        Seq::empty()
    } else {
        let earlier = items.drop_last();
        verify_entries(earlier).push(
            verify_entry(items.last(), key_occurs(earlier, item_key(items.last()))),
        )
    }
}

/// What is wrong with the items of these verdicts.
pub open spec fn entry_limitations(entries: Seq<DriftCleanupRequestVerifyEntryView>) -> Seq<
    Seq<char>,
> {
    gathered(entries, |e: DriftCleanupRequestVerifyEntryView| e.limitations)
}

/// What is said of a request of another schema version.
pub open spec fn schema_remark(document: DriftCleanupRequestDocumentView) -> Seq<Seq<char>> {
    noted(
        document.schema_version != request_schema(),
        "cleanup request schema_version must be opsctl.drift_cleanup_request.v1"@,
    )
}

/// Remarks on a request of another schema version.
pub fn note_schema(document: &DriftCleanupRequestDocument, limitations: &mut Vec<String>)
    ensures
        final(limitations).deep_view() == old(limitations).deep_view() + schema_remark(
            document.deep_view(),
        ),
{
    note(
        limitations,
        !same(&document.schema_version, request_schema_version()),
        "cleanup request schema_version must be opsctl.drift_cleanup_request.v1",
    );
}

/// Everything that is wrong with a request.
pub open spec fn request_limitations(document: DriftCleanupRequestDocumentView) -> Seq<Seq<char>> {
    Seq::empty() + schema_remark(document) + entry_limitations(verify_entries(document.items))
        + noted(document.items.len() == 0, "cleanup request contains no items"@) + noted(
        some_destructive(document.items),
        "cleanup request must not contain generated destructive commands"@,
    )
}

/// The verdict on a request that was read.
pub open spec fn request_verdict(
    path: Seq<char>,
    document: DriftCleanupRequestDocumentView,
) -> DriftCleanupRequestVerifyReportView {
    let items = document.items;
    let limitations = request_limitations(document);
    let reviewed = with_status(items, "approved"@) > 0 || with_status(items, "rejected"@) > 0
        || with_status(items, "needs_cleanup"@) > 0;
    DriftCleanupRequestVerifyReportView {
        ok: limitations.len() == 0,
        read_only: true,
        status: if limitations.len() > 0 {
            "blocked"@
        } else if reviewed {
            "reviewed"@
        } else {
            "pending_review"@
        },
        request_file: path,
        total_items: items.len(),
        approved: with_status(items, "approved"@),
        rejected: with_status(items, "rejected"@),
        needs_cleanup: with_status(items, "needs_cleanup"@),
        unknown: with_status(items, "unknown"@),
        high_risk: with_risk(items, "high"@),
        public_bind: with_public_bind(items),
        data_risk: with_data_risk(items),
        destructive_command_generated: some_destructive(items),
        entries: verify_entries(items),
        limitations: sorted_set(limitations),
    }
}

/// The verdict on a request whose file could not be read.
pub open spec fn unreadable_verdict(path: Seq<char>, error: Seq<char>) -> DriftCleanupRequestVerifyReportView {
    DriftCleanupRequestVerifyReportView {
        ok: false,
        read_only: true,
        status: "blocked"@,
        request_file: path,
        total_items: 0,
        approved: 0,
        rejected: 0,
        needs_cleanup: 0,
        unknown: 0,
        high_risk: 0,
        public_bind: 0,
        data_risk: 0,
        destructive_command_generated: false,
        entries: Seq::empty(),
        limitations: seq![error],
    }
}

/// The verdict on a loaded request.
pub open spec fn request_verify(request: LoadedRequestView) -> DriftCleanupRequestVerifyReportView {
    match request.document {
        Some(document) => request_verdict(request.path, document),
        None => unreadable_verdict(request.path, request.error),
    }
}

/// A blocked item contributes a limitation.
proof fn lemma_blocked_entries_limit(items: Seq<DriftCleanupRequestItemView>)
    ensures
        any(
            verify_entries(items),
            |e: DriftCleanupRequestVerifyEntryView| e.status == "blocked"@,
        ) ==> entry_limitations(verify_entries(items)).len() > 0,
        verify_entries(items).len() == items.len(),
    decreases items.len(),
{
    reveal_strlit("valid");
    reveal_strlit("blocked");
    if items.len() > 0 {
        lemma_blocked_entries_limit(items.drop_last());
        let v = verify_entries(items);
        assert(v.drop_last() =~= verify_entries(items.drop_last()));
        assert("valid"@.len() != "blocked"@.len());
    }
}

/// A request is refused if and only if something is wrong with it: a blocked
/// item is always among the reasons.
pub proof fn law_request_is_ok_iff_nothing_is_wrong(
    path: Seq<char>,
    document: DriftCleanupRequestDocumentView,
)
    ensures
        request_verdict(path, document).ok <==> request_limitations(document).len() == 0,
        request_verdict(path, document).ok <==> request_verdict(path, document).status
            != "blocked"@,
        any(
            request_verdict(path, document).entries,
            |e: DriftCleanupRequestVerifyEntryView| e.status == "blocked"@,
        ) ==> !request_verdict(path, document).ok,
{
    reveal_strlit("blocked");
    reveal_strlit("reviewed");
    reveal_strlit("pending_review");
    lemma_blocked_entries_limit(document.items);
    assert("reviewed"@.len() != "blocked"@.len());
    assert("pending_review"@.len() != "blocked"@.len());
}

/// The verdict on a loaded request.
pub fn drift_cleanup_request_verify(request: &LoadedRequest) -> (r: DriftCleanupRequestVerifyReport)
    ensures
        r.deep_view() == request_verify(request.deep_view()),
{
    let document = match &request.document {
        Some(document) => document,
        None => {
            return DriftCleanupRequestVerifyReport {
                ok: false,
                read_only: true,
                status: "blocked".to_string(),
                request_file: request.path.clone(),
                total_items: 0,
                approved: 0,
                rejected: 0,
                needs_cleanup: 0,
                unknown: 0,
                high_risk: 0,
                public_bind: 0,
                data_risk: 0,
                destructive_command_generated: false,
                entries: Vec::new(),
                limitations: vec![request.error.clone()],
            };
        },
    };
    let items = &document.items;
    let ghost all = items.deep_view();
    let mut limitations: Vec<String> = Vec::new();
    proof {
        assert(limitations.deep_view() =~= Seq::<Seq<char>>::empty());
    }
    note_schema(document, &mut limitations);
    let ghost start = limitations.deep_view();
    let mut entries: Vec<DriftCleanupRequestVerifyEntry> = Vec::new();
    let mut i: usize = 0;
    proof {
        ends(all);
        assert(entries.deep_view() =~= Seq::<DriftCleanupRequestVerifyEntryView>::empty());
        assert(start + Seq::<Seq<char>>::empty() =~= start);
    }
    while i < items.len()
        invariant
            i <= items@.len(),
            all == items.deep_view(),
            entries.deep_view() == verify_entries(all.take(i as int)),
            limitations.deep_view() == start + entry_limitations(
                verify_entries(all.take(i as int)),
            ),
        decreases items@.len() - i,
    {
        proof {
            step(all, i as int);
        }
        let duplicate = key_occurs_before(items, i, &items[i].kind, &items[i].target);
        let entry = verify_cleanup_request_item(&items[i], duplicate);
        let ghost before = verify_entries(all.take(i as int));
        extend(&mut limitations, &entry.limitations);
        proof {
            let more = before.push(entry.deep_view());
            assert(more.drop_last() =~= before);
            assert(entry_limitations(more) == entry_limitations(before)
                + entry.deep_view().limitations);
            assert(limitations.deep_view() =~= start + entry_limitations(more));
        }
        entries.push(entry);
        i = i + 1;
    }
    proof {
        ends(all);
        lemma_blocked_entries_limit(all);
    }
    let total_items = entries.len();
    note(&mut limitations, total_items == 0, "cleanup request contains no items");
    let approved = count_status(items, "approved");
    let rejected = count_status(items, "rejected");
    let needs_cleanup = count_status(items, "needs_cleanup");
    let destructive = any_destructive(items);
    note(
        &mut limitations,
        destructive,
        "cleanup request must not contain generated destructive commands",
    );
    let ok = limitations.is_empty();
    DriftCleanupRequestVerifyReport {
        ok,
        read_only: true,
        status: (if !ok {
            "blocked"
        } else if approved > 0 || rejected > 0 || needs_cleanup > 0 {
            "reviewed"
        } else {
            "pending_review"
        }).to_string(),
        request_file: request.path.clone(),
        total_items,
        approved,
        rejected,
        needs_cleanup,
        unknown: count_status(items, "unknown"),
        high_risk: count_risk(items, "high"),
        public_bind: count_public_bind(items),
        data_risk: count_data_risk(items),
        destructive_command_generated: destructive,
        entries,
        limitations: unique_sorted(limitations),
    }
}

// ---------------------------------------------------------------------------
// Texts that an operator passes in
// ---------------------------------------------------------------------------

/// What is said of an option text that is too long or spans lines.
pub open spec fn option_remark(label: Seq<char>, value: Option<Seq<char>>) -> Seq<Seq<char>> {
    match value {
        None => Seq::empty(),
        Some(text) => noted(byte_len(text) > 512, label + " must be 512 bytes or less"@) + noted(
            text.contains('\n') || text.contains('\r'),
            label + " must not contain newlines"@,
        ),
    }
}

/// Remarks on an option text that is too long or spans lines.
pub fn validate_optional_adopt_text(label: &str, value: Option<&str>, limitations: &mut Vec<String>)
    ensures
        final(limitations).deep_view() == old(limitations).deep_view() + option_remark(
            label@,
            value.deep_view(),
        ),
{
    let ghost start = limitations.deep_view();
    match value {
        None => {
            proof {
                assert(start + Seq::<Seq<char>>::empty() =~= start);
            }
        },
        Some(text) => {
            let long = byte_size(text) > 512;
            let lines = contains_char(text, '\n') || contains_char(text, '\r');
            note(limitations, long, &cat2(label, " must be 512 bytes or less"));
            note(limitations, lines, &cat2(label, " must not contain newlines"));
            proof {
                assert(limitations.deep_view() =~= start + option_remark(
                    label@,
                    value.deep_view(),
                ));
            }
        },
    }
}

/// What is said of an option that must not be empty where it is given.
pub open spec fn given_remark(label: Seq<char>, value: Option<Seq<char>>) -> Seq<Seq<char>> {
    option_remark(label, value) + noted(
        value is Some && value->0.len() == 0,
        label + " must not be empty when provided"@,
    )
}

/// Remarks on an option that must not be empty where it is given.
pub fn validate_given_text(label: &str, value: Option<&str>, limitations: &mut Vec<String>)
    ensures
        final(limitations).deep_view() == old(limitations).deep_view() + given_remark(
            label@,
            value.deep_view(),
        ),
{
    let ghost start = limitations.deep_view();
    validate_optional_adopt_text(label, value, limitations);
    let empty = match value {
        Some(text) => text.is_empty(),
        None => false,
    };
    note(limitations, empty, &cat2(label, " must not be empty when provided"));
    proof {
        assert(limitations.deep_view() =~= start + given_remark(label@, value.deep_view()));
    }
}

/// What is said of each text of a list that is too long or spans lines.
pub open spec fn option_remarks(label: Seq<char>, values: Seq<Seq<char>>) -> Seq<Seq<char>> {
    gathered(values, |v: Seq<char>| option_remark(label, Some(v)))
}

/// Remarks on each text of a list that is too long or spans lines.
pub fn validate_texts(label: &str, values: &[String], limitations: &mut Vec<String>)
    ensures
        final(limitations).deep_view() == old(limitations).deep_view() + option_remarks(
            label@,
            values.deep_view(),
        ),
{
    let ghost start = limitations.deep_view();
    let ghost all = values.deep_view();
    let mut i: usize = 0;
    proof {
        ends(all);
        assert(start + Seq::<Seq<char>>::empty() =~= start);
    }
    while i < values.len()
        invariant
            i <= values@.len(),
            all == values.deep_view(),
            limitations.deep_view() == start + option_remarks(label@, all.take(i as int)),
        decreases values@.len() - i,
    {
        proof {
            step(all, i as int);
        }
        validate_optional_adopt_text(label, Some(values[i].as_str()), limitations);
        proof {
            assert(limitations.deep_view() =~= start + option_remarks(label@, all.take(i + 1)));
        }
        i = i + 1;
    }
    proof {
        ends(all);
    }
}

#[verifier::spinoff_prover]
#[verifier::rlimit(60)]
proof fn lemma_sound_status(item: DriftCleanupRequestItemView, duplicate: bool)
    ensures
        item_limitations(item, duplicate).len() == 0 ==> known_status(item.approval_status),
{
    reveal(item_limitations);
}

proof fn lemma_known_statuses(items: Seq<DriftCleanupRequestItemView>)
    requires
        entry_limitations(verify_entries(items)).len() == 0,
    ensures
        with_status(items, "approved"@) + with_status(items, "rejected"@) + with_status(
            items,
            "needs_cleanup"@,
        ) + with_status(items, "unknown"@) == items.len(),
    decreases items.len(),
{
    if items.len() > 0 {
        let v = verify_entries(items);
        assert(v.drop_last() =~= verify_entries(items.drop_last()));
        lemma_known_statuses(items.drop_last());
        let duplicate = v.last() == verify_entry(items.last(), true);
        lemma_sound_status(items.last(), duplicate);
        reveal_strlit("approved");
        reveal_strlit("rejected");
        reveal_strlit("needs_cleanup");
        reveal_strlit("unknown");
        assert("approved"@[0] != "rejected"@[0]);
        assert("needs_cleanup"@.len() != "approved"@.len());
        assert("needs_cleanup"@.len() != "unknown"@.len());
        assert("unknown"@.len() != "approved"@.len());
        assert("rejected"@.len() != "needs_cleanup"@.len());
        assert("rejected"@.len() != "unknown"@.len());
    }
}

/// In a request with which nothing is wrong, each item has one of the four statuses:
/// their counts give the number of items.
pub proof fn law_statuses_of_a_valid_request_add_up(
    path: Seq<char>,
    document: DriftCleanupRequestDocumentView,
)
    requires
        request_verdict(path, document).ok,
    ensures
        ({
            let r = request_verdict(path, document);
            r.approved + r.rejected + r.needs_cleanup + r.unknown == r.total_items
        }),
{
    lemma_known_statuses(document.items);
}

/// A text that can stand in a request: at most 512 bytes, and on one line.
pub open spec fn fits_on_a_line(value: Option<Seq<char>>) -> bool {
    value is Some ==> byte_len(value->0) <= 512 && !value->0.contains('\n') && !value->0.contains(
        '\r',
    )
}

/// Whether all texts of an item can stand in a request.
pub open spec fn texts_fit(item: DriftCleanupRequestItemView) -> bool {
    &&& fits_on_a_line(Some(item.request_id))
    &&& fits_on_a_line(Some(item.kind))
    &&& fits_on_a_line(Some(item.target))
    &&& fits_on_a_line(Some(item.code))
    &&& fits_on_a_line(Some(item.risk))
    &&& fits_on_a_line(Some(item.planned_action))
    &&& fits_on_a_line(Some(item.approval_status))
    &&& fits_on_a_line(item.owner)
    &&& fits_on_a_line(item.reason)
    &&& fits_on_a_line(item.operator_note)
    &&& fits_on_a_line(item.cleanup_strategy)
    &&& fits_on_a_line(item.exact_resource_id)
    &&& fits_on_a_line(item.backup_snapshot_id)
    &&& fits_on_a_line(item.restore_drill_id)
    &&& fits_on_a_line(item.maintenance_window)
    &&& fits_on_a_line(item.rollback_plan)
    &&& fits_on_a_line(item.approval_expires_at)
}

/// Whether an item is filled in as a request has to be.
pub open spec fn item_is_sound(item: DriftCleanupRequestItemView) -> bool {
    &&& texts_fit(item)
    &&& item.request_id.len() > 0 && item.kind.len() > 0 && item.target.len() > 0
    &&& item.risk == "low"@ || item.risk == "medium"@ || item.risk == "high"@
    &&& item.approval_status == "unknown"@ || item.approval_status == "approved"@
        || item.approval_status == "rejected"@ || item.approval_status == "needs_cleanup"@
    &&& item.approval_status == "approved"@ || item.approval_status == "needs_cleanup"@ ==> {
        &&& item.owner is Some && item.owner->0.len() > 0
        &&& item.reason is Some && item.reason->0.len() > 0
    }
    &&& item.approval_expires_at is Some ==> rfc3339_nanos(item.approval_expires_at->0) is Some
    &&& !item.destructive_command_generated
}

/// The remarks on the texts of an item.
spec fn text_remarks(item: DriftCleanupRequestItemView) -> Seq<Seq<char>> {
    Seq::<Seq<char>>::empty()
        + text_remark("request_id"@, Some(item.request_id))
        + text_remark("kind"@, Some(item.kind))
        + text_remark("target"@, Some(item.target))
        + text_remark("code"@, Some(item.code))
        + text_remark("risk"@, Some(item.risk))
        + text_remark("planned_action"@, Some(item.planned_action))
        + text_remark("approval_status"@, Some(item.approval_status))
        + text_remark("owner"@, item.owner)
        + text_remark("reason"@, item.reason)
        + text_remark("operator_note"@, item.operator_note)
        + text_remark("cleanup_strategy"@, item.cleanup_strategy)
        + text_remark("exact_resource_id"@, item.exact_resource_id)
        + text_remark("backup_snapshot_id"@, item.backup_snapshot_id)
        + text_remark("restore_drill_id"@, item.restore_drill_id)
        + text_remark("maintenance_window"@, item.maintenance_window)
        + text_remark("rollback_plan"@, item.rollback_plan)
        + text_remark("approval_expires_at"@, item.approval_expires_at)
}

/// The other remarks on an item, behind those on its texts.
spec fn other_remarks(
    before: Seq<Seq<char>>,
    item: DriftCleanupRequestItemView,
    duplicate: bool,
) -> Seq<Seq<char>> {
    before
        + noted(item.request_id.len() == 0, "request_id is required"@)
        + noted(item.kind.len() == 0, "kind is required"@)
        + noted(item.target.len() == 0, "target is required"@)
        + noted(item.risk != "low"@ && item.risk != "medium"@ && item.risk != "high"@, "risk must be low, medium, or high"@)
        + noted(!known_status(item.approval_status), "approval_status must be unknown, approved, rejected, or needs_cleanup"@)
        + noted(wants_cleanup(item.approval_status) && blank(item.owner), "owner is required for approved or needs_cleanup items"@)
        + noted(wants_cleanup(item.approval_status) && blank(item.reason), "reason is required for approved or needs_cleanup items"@)
        + noted(bad_expiry(item.approval_expires_at), "approval_expires_at must be RFC3339 when present"@)
        + noted(item.destructive_command_generated, "destructive_command_generated must remain false in cleanup requests"@)
        + noted(duplicate, "duplicate cleanup request item kind="@ + item.kind + " target="@ + item.target)
}

#[verifier::spinoff_prover]
#[verifier::rlimit(60)]
proof fn lemma_text_remarks(item: DriftCleanupRequestItemView)
    ensures
        text_remarks(item).len() == 0 <==> texts_fit(item),
{
    let s0 = Seq::<Seq<char>>::empty();
    let s1 = s0 + text_remark("request_id"@, Some(item.request_id));
    assert(s1.len() == 0 <==> s0.len() == 0 && fits_on_a_line(Some(item.request_id)));
    let s2 = s1 + text_remark("kind"@, Some(item.kind));
    assert(s2.len() == 0 <==> s1.len() == 0 && fits_on_a_line(Some(item.kind)));
    let s3 = s2 + text_remark("target"@, Some(item.target));
    assert(s3.len() == 0 <==> s2.len() == 0 && fits_on_a_line(Some(item.target)));
    let s4 = s3 + text_remark("code"@, Some(item.code));
    assert(s4.len() == 0 <==> s3.len() == 0 && fits_on_a_line(Some(item.code)));
    let s5 = s4 + text_remark("risk"@, Some(item.risk));
    assert(s5.len() == 0 <==> s4.len() == 0 && fits_on_a_line(Some(item.risk)));
    let s6 = s5 + text_remark("planned_action"@, Some(item.planned_action));
    assert(s6.len() == 0 <==> s5.len() == 0 && fits_on_a_line(Some(item.planned_action)));
    let s7 = s6 + text_remark("approval_status"@, Some(item.approval_status));
    assert(s7.len() == 0 <==> s6.len() == 0 && fits_on_a_line(Some(item.approval_status)));
    let s8 = s7 + text_remark("owner"@, item.owner);
    assert(s8.len() == 0 <==> s7.len() == 0 && fits_on_a_line(item.owner));
    let s9 = s8 + text_remark("reason"@, item.reason);
    assert(s9.len() == 0 <==> s8.len() == 0 && fits_on_a_line(item.reason));
    let s10 = s9 + text_remark("operator_note"@, item.operator_note);
    assert(s10.len() == 0 <==> s9.len() == 0 && fits_on_a_line(item.operator_note));
    let s11 = s10 + text_remark("cleanup_strategy"@, item.cleanup_strategy);
    assert(s11.len() == 0 <==> s10.len() == 0 && fits_on_a_line(item.cleanup_strategy));
    let s12 = s11 + text_remark("exact_resource_id"@, item.exact_resource_id);
    assert(s12.len() == 0 <==> s11.len() == 0 && fits_on_a_line(item.exact_resource_id));
    let s13 = s12 + text_remark("backup_snapshot_id"@, item.backup_snapshot_id);
    assert(s13.len() == 0 <==> s12.len() == 0 && fits_on_a_line(item.backup_snapshot_id));
    let s14 = s13 + text_remark("restore_drill_id"@, item.restore_drill_id);
    assert(s14.len() == 0 <==> s13.len() == 0 && fits_on_a_line(item.restore_drill_id));
    let s15 = s14 + text_remark("maintenance_window"@, item.maintenance_window);
    assert(s15.len() == 0 <==> s14.len() == 0 && fits_on_a_line(item.maintenance_window));
    let s16 = s15 + text_remark("rollback_plan"@, item.rollback_plan);
    assert(s16.len() == 0 <==> s15.len() == 0 && fits_on_a_line(item.rollback_plan));
    let s17 = s16 + text_remark("approval_expires_at"@, item.approval_expires_at);
    assert(s17.len() == 0 <==> s16.len() == 0 && fits_on_a_line(item.approval_expires_at));
    assert(text_remarks(item) == s17);
}

#[verifier::spinoff_prover]
#[verifier::rlimit(60)]
proof fn lemma_other_remarks(
    before: Seq<Seq<char>>,
    item: DriftCleanupRequestItemView,
    duplicate: bool,
)
    requires
        before.len() == 0 <==> texts_fit(item),
    ensures
        other_remarks(before, item, duplicate).len() == 0 <==> item_is_sound(item) && !duplicate,
{
    let s0 = before;
    let s1 = s0 + noted(item.request_id.len() == 0, "request_id is required"@);
    assert(s1.len() == 0 <==> s0.len() == 0 && !(item.request_id.len() == 0));
    let s2 = s1 + noted(item.kind.len() == 0, "kind is required"@);
    assert(s2.len() == 0 <==> s1.len() == 0 && !(item.kind.len() == 0));
    let s3 = s2 + noted(item.target.len() == 0, "target is required"@);
    assert(s3.len() == 0 <==> s2.len() == 0 && !(item.target.len() == 0));
    let s4 = s3 + noted(item.risk != "low"@ && item.risk != "medium"@ && item.risk != "high"@, "risk must be low, medium, or high"@);
    assert(s4.len() == 0 <==> s3.len() == 0 && !(item.risk != "low"@ && item.risk != "medium"@ && item.risk != "high"@));
    let s5 = s4 + noted(!known_status(item.approval_status), "approval_status must be unknown, approved, rejected, or needs_cleanup"@);
    assert(s5.len() == 0 <==> s4.len() == 0 && !(!known_status(item.approval_status)));
    let s6 = s5 + noted(wants_cleanup(item.approval_status) && blank(item.owner), "owner is required for approved or needs_cleanup items"@);
    assert(s6.len() == 0 <==> s5.len() == 0 && !(wants_cleanup(item.approval_status) && blank(item.owner)));
    let s7 = s6 + noted(wants_cleanup(item.approval_status) && blank(item.reason), "reason is required for approved or needs_cleanup items"@);
    assert(s7.len() == 0 <==> s6.len() == 0 && !(wants_cleanup(item.approval_status) && blank(item.reason)));
    let s8 = s7 + noted(bad_expiry(item.approval_expires_at), "approval_expires_at must be RFC3339 when present"@);
    assert(s8.len() == 0 <==> s7.len() == 0 && !(bad_expiry(item.approval_expires_at)));
    let s9 = s8 + noted(item.destructive_command_generated, "destructive_command_generated must remain false in cleanup requests"@);
    assert(s9.len() == 0 <==> s8.len() == 0 && !(item.destructive_command_generated));
    let s10 = s9 + noted(duplicate, "duplicate cleanup request item kind="@ + item.kind + " target="@ + item.target);
    assert(s10.len() == 0 <==> s9.len() == 0 && !(duplicate));
    assert(other_remarks(before, item, duplicate) == s10);
}

#[verifier::spinoff_prover]
proof fn lemma_all_remarks(item: DriftCleanupRequestItemView, duplicate: bool)
    ensures
        equal(
            item_limitations(item, duplicate),
            other_remarks(text_remarks(item), item, duplicate),
        ),
{
    reveal(item_limitations);
}

#[verifier::spinoff_prover]
#[verifier::rlimit(60)]
proof fn lemma_sound(item: DriftCleanupRequestItemView, duplicate: bool)
    ensures
        item_limitations(item, duplicate).len() == 0 <==> item_is_sound(item) && !duplicate,
{
    lemma_text_remarks(item);
    lemma_other_remarks(text_remarks(item), item, duplicate);
    lemma_all_remarks(item, duplicate);
}

/// An item is valid exactly where it is filled in as it has to be and no earlier item has
/// its kind and target.
pub proof fn law_which_items_are_valid(item: DriftCleanupRequestItemView, duplicate: bool)
    ensures
        verify_entry(item, duplicate).status == "valid"@ <==> item_is_sound(item) && !duplicate,
        verify_entry(item, duplicate).status == "blocked"@ <==> !(item_is_sound(item)
            && !duplicate),
        verify_entry(item, duplicate).limitations.len() == 0 <==> item_is_sound(item) && !duplicate,
        verify_entry(item, duplicate).request_id == item.request_id,
        verify_entry(item, duplicate).kind == item.kind,
        verify_entry(item, duplicate).target == item.target,
        verify_entry(item, duplicate).approval_status == item.approval_status,
        verify_entry(item, duplicate).risk == item.risk,
{
    lemma_sound(item, duplicate);
    reveal_strlit("valid");
    reveal_strlit("blocked");
    assert("valid"@.len() != "blocked"@.len());
}

/// A running, public or data-bearing resource is warned of, each for itself.
pub proof fn law_warnings(item: DriftCleanupRequestItemView, x: Seq<char>)
    ensures
        item_warnings(item).contains(x) <==> {
            ||| item.public_bind == Some(true) && x
                == "public listener must be traced to an owning service before cleanup"@
            ||| item.data_risk is Some && x
                == "data-bearing resource needs backup/restore proof before cleanup"@
            ||| item.running == Some(true) && x
                == "running resource must not be removed without a service-specific stop plan"@
        },
{
    let n = Seq::<Seq<char>>::empty();
    let a = noted(
        item.public_bind == Some(true),
        "public listener must be traced to an owning service before cleanup"@,
    );
    let b = noted(
        item.data_risk is Some,
        "data-bearing resource needs backup/restore proof before cleanup"@,
    );
    let c = noted(
        item.running == Some(true),
        "running resource must not be removed without a service-specific stop plan"@,
    );
    law_either_list(n, a, x);
    law_either_list(n + a, b, x);
    law_either_list(n + a + b, c, x);
    law_noted(
        item.public_bind == Some(true),
        "public listener must be traced to an owning service before cleanup"@,
        x,
    );
    law_noted(
        item.data_risk is Some,
        "data-bearing resource needs backup/restore proof before cleanup"@,
        x,
    );
    law_noted(
        item.running == Some(true),
        "running resource must not be removed without a service-specific stop plan"@,
        x,
    );
}

/// Whether an earlier item has the kind and the target of this one.
pub open spec fn is_a_repeat(items: Seq<DriftCleanupRequestItemView>, i: int) -> bool {
    exists|j: int|
        0 <= j < i && (#[trigger] items[j]).kind == items[i].kind && items[j].target
            == items[i].target
}

proof fn lemma_entry_at(items: Seq<DriftCleanupRequestItemView>, i: int)
    requires
        0 <= i < items.len(),
    ensures
        verify_entries(items).len() == items.len(),
        verify_entries(items)[i] == verify_entry(items[i], is_a_repeat(items, i)),
    decreases items.len(),
{
    let d = items.drop_last();
    let last = items.len() - 1;
    assert forall|j: int| 0 <= j < d.len() implies #[trigger] d[j] == items[j] by {}
    if d.len() > 0 {
        lemma_entry_at(d, if i < last {
            i
        } else {
            0
        });
    } else {
        assert(verify_entries(d) =~= Seq::empty());
    }
    if i < last {
        if is_a_repeat(items, i) {
            let j = choose|j: int|
                0 <= j < i && (#[trigger] items[j]).kind == items[i].kind && items[j].target
                    == items[i].target;
            assert(d[j].kind == d[i].kind);
        }
        if is_a_repeat(d, i) {
            let j = choose|j: int|
                0 <= j < i && (#[trigger] d[j]).kind == d[i].kind && d[j].target == d[i].target;
            assert(items[j].kind == items[i].kind);
        }
    } else {
        let key = item_key(items.last());
        let p = |x: DriftCleanupRequestItemView| item_key(x) == key;
        lemma_any(d, p);
        assert(items[last] == items.last());
        if key_occurs(d, key) {
            let j = choose|j: int| 0 <= j < d.len() && p(#[trigger] d[j]);
            assert(items[j].kind == items[i].kind);
        }
        if is_a_repeat(items, i) {
            let j = choose|j: int|
                0 <= j < i && (#[trigger] items[j]).kind == items[i].kind && items[j].target
                    == items[i].target;
            assert(p(d[j]));
        }
    }
}

/// Every item of a request has its entry, which tells whether it is valid.
pub proof fn law_every_item_is_verified(items: Seq<DriftCleanupRequestItemView>, i: int)
    requires
        0 <= i < items.len(),
    ensures
        verify_entries(items).len() == items.len(),
        verify_entries(items)[i].request_id == items[i].request_id,
        verify_entries(items)[i].status == "valid"@ <==> item_is_sound(items[i]) && !is_a_repeat(
            items,
            i,
        ),
{
    lemma_entry_at(items, i);
    law_which_items_are_valid(items[i], is_a_repeat(items, i));
}

/// A request is fine exactly where it has the known format, has items, and all of them
/// are valid. It is reviewed where one of them is approved, rejected or to be cleaned up.
pub proof fn law_which_requests_are_fine(
    path: Seq<char>,
    document: DriftCleanupRequestDocumentView,
)
    ensures
        ({
            let items = document.items;
            let verdict = request_verdict(path, document);
            &&& verdict.ok <==> {
                &&& document.schema_version == "opsctl.drift_cleanup_request.v1"@
                &&& items.len() > 0
                &&& forall|i: int|
                    0 <= i < items.len() ==> item_is_sound(#[trigger] items[i]) && !is_a_repeat(
                        items,
                        i,
                    )
            }
            &&& verdict.limitations.len() == 0 <==> verdict.ok
            &&& verdict.status == "blocked"@ <==> !verdict.ok
            &&& verdict.status == "reviewed"@ <==> verdict.ok && exists|i: int|
                0 <= i < items.len() && ((#[trigger] items[i]).approval_status == "approved"@
                    || items[i].approval_status == "rejected"@ || items[i].approval_status
                    == "needs_cleanup"@)
            &&& verdict.total_items == items.len()
            &&& verdict.approved == tally(
                items,
                |i: DriftCleanupRequestItemView| i.approval_status == "approved"@,
            )
            &&& verdict.rejected == tally(
                items,
                |i: DriftCleanupRequestItemView| i.approval_status == "rejected"@,
            )
            &&& verdict.needs_cleanup == tally(
                items,
                |i: DriftCleanupRequestItemView| i.approval_status == "needs_cleanup"@,
            )
            &&& verdict.unknown == tally(
                items,
                |i: DriftCleanupRequestItemView| i.approval_status == "unknown"@,
            )
            &&& verdict.high_risk == tally(
                items,
                |i: DriftCleanupRequestItemView| i.risk == "high"@,
            )
            &&& verdict.public_bind == tally(
                items,
                |i: DriftCleanupRequestItemView| i.public_bind == Some(true),
            )
            &&& verdict.data_risk == tally(
                items,
                |i: DriftCleanupRequestItemView| i.data_risk is Some,
            )
        }),
{
    let items = document.items;
    let entries = verify_entries(items);
    let f = |e: DriftCleanupRequestVerifyEntryView| e.limitations;
    let all = entry_limitations(entries);
    let p = |i: DriftCleanupRequestItemView| i.destructive_command_generated;
    lemma_any(items, p);
    let limits = request_limitations(document);
    law_sorted_set(limits);
    if limits.len() > 0 {
        assert(limits.contains(limits[0]));
        assert(sorted_set(limits).contains(limits[0]));
    }
    if all.len() == 0 {
        assert forall|i: int| 0 <= i < items.len() implies item_is_sound(#[trigger] items[i])
            && !is_a_repeat(items, i) by {
            lemma_entry_at(items, i);
            lemma_gathered_nothing(entries, f, i);
            law_which_items_are_valid(items[i], is_a_repeat(items, i));
        }
    } else {
        let x = all[0];
        assert(all.contains(x));
        law_gathered(entries, f, x);
        let i = choose|i: int| 0 <= i < entries.len() && f(#[trigger] entries[i]).contains(x);
        if items.len() > 0 {
            lemma_entry_at(items, 0);
            lemma_entry_at(items, i);
            law_which_items_are_valid(items[i], is_a_repeat(items, i));
            assert(!(item_is_sound(items[i]) && !is_a_repeat(items, i)));
        }
    }
    if any(items, p) {
        let i = choose|i: int| 0 <= i < items.len() && p(#[trigger] items[i]);
        assert(!item_is_sound(items[i]));
    }
    assert(limits.len() == 0 <==> document.schema_version == request_schema() && all.len() == 0
        && items.len() > 0 && !any(items, p));
    reveal_strlit("blocked");
    reveal_strlit("reviewed");
    reveal_strlit("pending_review");
    assert("blocked"@.len() == 7 && "reviewed"@.len() == 8 && "pending_review"@.len() == 14);
    let a = |i: DriftCleanupRequestItemView| i.approval_status == "approved"@;
    let b = |i: DriftCleanupRequestItemView| i.approval_status == "rejected"@;
    let c = |i: DriftCleanupRequestItemView| i.approval_status == "needs_cleanup"@;
    law_tally(items, Seq::empty(), a);
    law_tally(items, Seq::empty(), b);
    law_tally(items, Seq::empty(), c);
    assert(with_status(items, "approved"@) == tally(items, a));
    assert(with_status(items, "rejected"@) == tally(items, b));
    assert(with_status(items, "needs_cleanup"@) == tally(items, c));
    if exists|i: int|
        0 <= i < items.len() && ((#[trigger] items[i]).approval_status == "approved"@
            || items[i].approval_status == "rejected"@ || items[i].approval_status
            == "needs_cleanup"@) {
        let i = choose|i: int|
            0 <= i < items.len() && ((#[trigger] items[i]).approval_status == "approved"@
                || items[i].approval_status == "rejected"@ || items[i].approval_status
                == "needs_cleanup"@);
        assert(a(items[i]) || b(items[i]) || c(items[i]));
    }
}

/// A request that could not be read is blocked, for that reason, and has no items.
pub proof fn law_unreadable_requests(request: LoadedRequestView)
    ensures
        request.document is None ==> ({
            let r = request_verify(request);
            &&& !r.ok
            &&& r.status == "blocked"@
            &&& r.total_items == 0 && r.entries.len() == 0
            &&& r.limitations == seq![request.error]
            &&& r.request_file == request.path
        }),
        request.document is Some ==> request_verify(request) == request_verdict(
            request.path,
            request.document->0,
        ),
{
}

} // verus!
