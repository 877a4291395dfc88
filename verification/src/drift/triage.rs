//! A cleanup request sorted for triage, and the worklist made of it.

use vstd::prelude::*;
use crate::drift::candidates::{
    DriftCleanupBuild, DriftCleanupBuildView, LoadedRequest, LoadedRequestView,
    build_drift_cleanup, candidate_key, cleanup_build, item_key,
};
use crate::drift::plan::{drift_cleanup_execution_plan, execution_plan, is_risky, item_is_risky};
use crate::drift::progress::{candidate_for, document_progress, find_candidate, progress_against};
use crate::drift::types::{
    DriftCleanupCandidate, DriftCleanupCandidateView, DriftCleanupExecutionPlanEntry,
    DriftCleanupExecutionPlanEntryView, DriftCleanupExecutionPlanReport,
    DriftCleanupExecutionPlanReportView, DriftCleanupProgressReport,
    DriftCleanupProgressReportView, DriftCleanupRequestItem, DriftCleanupRequestItemView,
    DriftCleanupTriageBucket, DriftCleanupTriageBucketView, DriftCleanupTriageItem,
    DriftCleanupTriageItemView, DriftCleanupTriageReport, DriftCleanupTriageReportView,
};
use crate::drift::verify::is_set;
use crate::list::{
    chosen, extend, labelled, last_where, law_either_list, law_noted, law_pairs_are_ordered,
    law_sorted_set, law_sorted_values_keep_all, note, note_some, noted, rank, sorted_set,
    sorted_values, tally, unique_ranked, unique_sorted,
};
use crate::number::{count_text, decimal};
use crate::registry::Registry;
use crate::scan::Observation;
use crate::text::{as_text, cat2, cat3, cat5, ends, same, step};

verus! {

broadcast use {vstd::seq::group_seq_axioms, vstd::string::group_string_axioms};

/// The plan entry of a request id; the last one where there are several.
pub open spec fn plan_entry_for(
    entries: Seq<DriftCleanupExecutionPlanEntryView>,
    request_id: Seq<char>,
) -> Option<DriftCleanupExecutionPlanEntryView> {
    last_where(entries, |e: DriftCleanupExecutionPlanEntryView| e.request_id == request_id)
}

/// The plan entry of a request id; the last one where there are several.
pub fn find_plan_entry<'a>(
    entries: &'a Vec<DriftCleanupExecutionPlanEntry>,
    request_id: &str,
) -> (r: Option<&'a DriftCleanupExecutionPlanEntry>)
    ensures
        r.deep_view() == plan_entry_for(entries.deep_view(), request_id@),
{
    let ghost all = entries.deep_view();
    let mut hit: Option<&'a DriftCleanupExecutionPlanEntry> = None;
    let mut i: usize = 0;
    proof {
        ends(all);
    }
    while i < entries.len()
        invariant
            i <= entries@.len(),
            all == entries.deep_view(),
            hit.deep_view() == plan_entry_for(all.take(i as int), request_id@),
        decreases entries@.len() - i,
    {
        proof {
            step(all, i as int);
        }
        if same(&entries[i].request_id, request_id) {
            hit = Some(&entries[i]);
        }
        i = i + 1;
    }
    proof {
        ends(all);
    }
    hit
}

/// A text that is present and not empty.
pub open spec fn nonempty(text: Option<Seq<char>>) -> Option<Seq<char>> {
    match text {
        Some(t) => if t.len() > 0 {
            Some(t)
        } else {
            None
        },
        None => None,
    }
}

/// A text that is present and not empty.
pub fn filled(text: Option<&str>) -> (r: Option<&str>)
    ensures
        r.deep_view() == nonempty(text.deep_view()),
{
    match text {
        Some(t) => if t.is_empty() {
            None
        } else {
            Some(t)
        },
        None => None,
    }
}

/// The evidence that triage shows for an item.
pub open spec fn triage_evidence(
    item: DriftCleanupRequestItemView,
    candidate: Option<DriftCleanupCandidateView>,
) -> Seq<Seq<char>> {
    (match candidate {
        Some(c) => seq![
            "current drift candidate is still active"@,
            "current_risk="@ + c.risk,
            "suggested_action="@ + c.suggested_action,
        ] + labelled("observed_status="@, nonempty(c.observed_status)) + labelled(
            "data_risk="@,
            nonempty(c.data_risk),
        ) + noted(true, c.rationale),
        None => seq![
            "not present in current drift candidates; sync may remove this stale review item"@,
        ],
    }) + noted(
        item.public_bind == Some(true),
        "public listener requires owner confirmation before cleanup"@,
    ) + noted(
        item.running == Some(true),
        "running resource requires service-specific stop/maintenance plan"@,
    ) + noted(
        item.data_risk is Some,
        "data-bearing resource requires backup snapshot and restore drill evidence"@,
    )
}

/// The evidence that triage shows for an item.
pub fn list_triage_evidence(
    item: &DriftCleanupRequestItem,
    candidate: Option<&DriftCleanupCandidate>,
) -> (r: Vec<String>)
    ensures
        r.deep_view() == triage_evidence(item.deep_view(), candidate.deep_view()),
{
    let mut evidence: Vec<String>;
    match candidate {
        Some(c) => {
            evidence =
            vec![
                "current drift candidate is still active".to_string(),
                cat2("current_risk=", &c.risk),
                cat2("suggested_action=", &c.suggested_action),
            ];
            proof {
                assert(evidence.deep_view() =~= seq![
                    "current drift candidate is still active"@,
                    "current_risk="@ + c.risk@,
                    "suggested_action="@ + c.suggested_action@,
                ]);
            }
            note_some(&mut evidence, "observed_status=", filled(as_text(&c.observed_status)));
            note_some(&mut evidence, "data_risk=", filled(as_text(&c.data_risk)));
            note(&mut evidence, true, &c.rationale);
        },
        None => {
            evidence =
            vec![
                "not present in current drift candidates; sync may remove this stale review item".to_string(),
            ];
            proof {
                assert(evidence.deep_view() =~= seq![
                    "not present in current drift candidates; sync may remove this stale review item"@,
                ]);
            }
        },
    }
    note(
        &mut evidence,
        is_set(item.public_bind),
        "public listener requires owner confirmation before cleanup",
    );
    note(
        &mut evidence,
        is_set(item.running),
        "running resource requires service-specific stop/maintenance plan",
    );
    note(
        &mut evidence,
        item.data_risk.is_some(),
        "data-bearing resource requires backup snapshot and restore drill evidence",
    );
    evidence
}

/// What an entry still requires.
pub open spec fn required_of(entry: Option<DriftCleanupExecutionPlanEntryView>) -> Seq<Seq<char>> {
    match entry {
        Some(e) => e.required_evidence,
        None => Seq::empty(),
    }
}

/// What blocks an entry.
pub open spec fn blockers_of(entry: Option<DriftCleanupExecutionPlanEntryView>) -> Seq<Seq<char>> {
    match entry {
        Some(e) => e.blockers,
        None => Seq::empty(),
    }
}

/// One item with its evidence and next step.
pub open spec fn triage_item(
    item: DriftCleanupRequestItemView,
    candidate: Option<DriftCleanupCandidateView>,
    entry: Option<DriftCleanupExecutionPlanEntryView>,
    next_step: Seq<char>,
) -> DriftCleanupTriageItemView {
    DriftCleanupTriageItemView {
        request_id: item.request_id,
        kind: item.kind,
        target: item.target,
        approval_status: item.approval_status,
        risk: item.risk,
        running: item.running,
        public_bind: item.public_bind,
        data_risk: item.data_risk,
        observed_status: item.observed_status,
        current_candidate: candidate is Some,
        evidence: sorted_set(triage_evidence(item, candidate)),
        required_evidence: required_of(entry),
        blockers: blockers_of(entry),
        suggested_next_step: next_step,
    }
}

/// One item with its evidence and next step.
pub fn cleanup_triage_item(
    item: &DriftCleanupRequestItem,
    candidate: Option<&DriftCleanupCandidate>,
    entry: Option<&DriftCleanupExecutionPlanEntry>,
    next_step: String,
) -> (r: DriftCleanupTriageItem)
    ensures
        r.deep_view() == triage_item(
            item.deep_view(),
            candidate.deep_view(),
            entry.deep_view(),
            next_step@,
        ),
{
    let (required_evidence, blockers) = match entry {
        Some(e) => (e.required_evidence.clone(), e.blockers.clone()),
        None => (Vec::new(), Vec::new()),
    };
    proof {
        assert(required_evidence.deep_view() =~= required_of(entry.deep_view()));
        assert(blockers.deep_view() =~= blockers_of(entry.deep_view()));
    }
    DriftCleanupTriageItem {
        request_id: item.request_id.clone(),
        kind: item.kind.clone(),
        target: item.target.clone(),
        approval_status: item.approval_status.clone(),
        risk: item.risk.clone(),
        running: item.running,
        public_bind: item.public_bind,
        data_risk: item.data_risk.clone(),
        observed_status: item.observed_status.clone(),
        current_candidate: candidate.is_some(),
        evidence: unique_sorted(list_triage_evidence(item, candidate)),
        required_evidence,
        blockers,
        suggested_next_step: next_step,
    }
}

/// What to do next with an item that is not classified.
pub open spec fn unknown_next_step(kind: Seq<char>) -> Seq<char> {
    if kind == "docker-volume"@ {
        "inspect Docker volume labels, mounts, size, and owning containers; then mark adopt, ignore with expiry, or needs_cleanup with data evidence"@
    } else if kind == "port"@ {
        "trace the listener to a process/container and service owner; then adopt the service/port, add an expiring ignore, or mark needs_cleanup"@
    } else if kind == "docker-container"@ {
        "inspect container labels, image, compose project, mounts, and uptime before deciding adopt, ignore, or cleanup"@
    } else if kind == "compose-project"@ {
        "map the Compose project name to a project root and owner; adopt it if production, otherwise keep it as a cleanup candidate"@
    } else if kind == "systemd-unit"@ {
        "confirm whether this is an application unit or base-system unit before adopting or ignoring it"@
    } else {
        "confirm owner and purpose before changing approval_status"@
    }
}

/// What to do next with an item that is not classified.
pub fn cleanup_unknown_next_step(item: &DriftCleanupRequestItem) -> (r: String)
    ensures
        r@ == unknown_next_step(item.kind@),
{
    (if same(&item.kind, "docker-volume") {
        "inspect Docker volume labels, mounts, size, and owning containers; then mark adopt, ignore with expiry, or needs_cleanup with data evidence"
    } else if same(&item.kind, "port") {
        "trace the listener to a process/container and service owner; then adopt the service/port, add an expiring ignore, or mark needs_cleanup"
    } else if same(&item.kind, "docker-container") {
        "inspect container labels, image, compose project, mounts, and uptime before deciding adopt, ignore, or cleanup"
    } else if same(&item.kind, "compose-project") {
        "map the Compose project name to a project root and owner; adopt it if production, otherwise keep it as a cleanup candidate"
    } else if same(&item.kind, "systemd-unit") {
        "confirm whether this is an application unit or base-system unit before adopting or ignoring it"
    } else {
        "confirm owner and purpose before changing approval_status"
    }).to_string()
}

/// What to do next with an item that is marked for cleanup.
pub open spec fn needs_cleanup_next_step(
    item: DriftCleanupRequestItemView,
    entry: Option<DriftCleanupExecutionPlanEntryView>,
) -> Seq<char> {
    if entry is Some && entry->0.blockers.len() > 0 {
        "fix blockers before this cleanup request can be reviewed further"@
    } else if entry is Some && entry->0.status == "ready_for_human_execution_request"@ {
        "ready for request-execution; cleanup must still be performed manually after approval"@
    } else if entry is Some && entry->0.required_evidence.len() > 0 {
        "fill required evidence fields, then change approval_status to approved only after human review"@
    } else if item.data_risk is Some {
        "collect backup_snapshot_id and restore_drill_id before approval"@
    } else if is_risky(item) {
        "add owner, reason, exact_resource_id, maintenance_window, rollback_plan, and approval expiry before approval"@
    } else {
        "complete owner, reason, cleanup strategy, exact resource id, and approval expiry before approval"@
    }
}

/// What to do next with an item that is marked for cleanup.
pub fn cleanup_needs_cleanup_next_step(
    item: &DriftCleanupRequestItem,
    entry: Option<&DriftCleanupExecutionPlanEntry>,
) -> (r: String)
    ensures
        r@ == needs_cleanup_next_step(item.deep_view(), entry.deep_view()),
{
    if let Some(e) = entry {
        if e.blockers.len() > 0 {
            return "fix blockers before this cleanup request can be reviewed further".to_string();
        }
        if same(&e.status, "ready_for_human_execution_request") {
            return "ready for request-execution; cleanup must still be performed manually after approval".to_string();
        }
        if e.required_evidence.len() > 0 {
            return "fill required evidence fields, then change approval_status to approved only after human review".to_string();
        }
    }
    (if item.data_risk.is_some() {
        "collect backup_snapshot_id and restore_drill_id before approval"
    } else if item_is_risky(item) {
        "add owner, reason, exact_resource_id, maintenance_window, rollback_plan, and approval expiry before approval"
    } else {
        "complete owner, reason, cleanup strategy, exact resource id, and approval expiry before approval"
    }).to_string()
}

/// The numbered steps that triage proposes.
pub open spec fn triage_steps(
    progress: DriftCleanupProgressReportView,
    plan: DriftCleanupExecutionPlanReportView,
) -> Seq<Seq<char>> {
    Seq::empty() + noted(
        progress.missing_current > 0 || progress.stale_items > 0,
        "run cleanup-request sync to align the review file with current drift (missing_current="@
            + decimal(progress.missing_current) + ", stale_items="@ + decimal(progress.stale_items)
            + ")"@,
    ) + noted(
        progress.unknown > 0,
        "review "@ + decimal(progress.unknown)
            + " unknown items and classify each as adopt, ignore with expiry, needs_cleanup, or leave unknown"@,
    ) + noted(
        progress.needs_cleanup > 0,
        "complete owner, reason, cleanup_strategy, exact_resource_id, approval expiry, and risk evidence for "@
            + decimal(progress.needs_cleanup) + " needs_cleanup items"@,
    ) + noted(
        plan.needs_approval > 0,
        decimal(plan.needs_approval)
            + " cleanup items still need human approval/evidence before execution planning can become ready"@,
    ) + noted(
        plan.blocked > 0,
        "fix "@ + decimal(plan.blocked) + " blocked cleanup plan entries before requesting approval"@,
    ) + noted(
        plan.ready > 0,
        decimal(plan.ready)
            + " approved cleanup items are ready for manual request-execution; opsctl still will not delete resources automatically"@,
    )
}

/// What to do next with a request.
#[verifier::opaque]
pub open spec fn triage_next_actions(
    progress: DriftCleanupProgressReportView,
    plan: DriftCleanupExecutionPlanReportView,
) -> Seq<Seq<char>> {
    let steps = triage_steps(progress, plan);
    if steps.len() == 0 {
        seq!["no cleanup execution is ready; continue ordinary drift review as needed"@]
    } else {
        steps
    }
}

/// What to do next with a request.
pub fn cleanup_triage_next_actions(
    progress: &DriftCleanupProgressReport,
    plan: &DriftCleanupExecutionPlanReport,
) -> (r: Vec<String>)
    ensures
        r.deep_view() == triage_next_actions(progress.deep_view(), plan.deep_view()),
{
    let mut actions: Vec<String> = Vec::new();
    proof {
        reveal(triage_next_actions);
        assert(actions.deep_view() =~= Seq::<Seq<char>>::empty());
    }
    note(
        &mut actions,
        progress.missing_current > 0 || progress.stale_items > 0,
        &cat5(
            "run cleanup-request sync to align the review file with current drift (missing_current=",
            &count_text(progress.missing_current),
            ", stale_items=",
            &count_text(progress.stale_items),
            ")",
        ),
    );
    note(
        &mut actions,
        progress.unknown > 0,
        &cat3(
            "review ",
            &count_text(progress.unknown),
            " unknown items and classify each as adopt, ignore with expiry, needs_cleanup, or leave unknown",
        ),
    );
    note(
        &mut actions,
        progress.needs_cleanup > 0,
        &cat3(
            "complete owner, reason, cleanup_strategy, exact_resource_id, approval expiry, and risk evidence for ",
            &count_text(progress.needs_cleanup),
            " needs_cleanup items",
        ),
    );
    note(
        &mut actions,
        plan.needs_approval > 0,
        &cat2(
            &count_text(plan.needs_approval),
            " cleanup items still need human approval/evidence before execution planning can become ready",
        ),
    );
    note(
        &mut actions,
        plan.blocked > 0,
        &cat3(
            "fix ",
            &count_text(plan.blocked),
            " blocked cleanup plan entries before requesting approval",
        ),
    );
    note(
        &mut actions,
        plan.ready > 0,
        &cat2(
            &count_text(plan.ready),
            " approved cleanup items are ready for manual request-execution; opsctl still will not delete resources automatically",
        ),
    );
    if actions.len() == 0 {
        vec![
            "no cleanup execution is ready; continue ordinary drift review as needed".to_string(),
        ]
    } else {
        actions
    }
}

// ---------------------------------------------------------------------------
// Buckets by approval status and kind
// ---------------------------------------------------------------------------

/// The approval status and kind of each item.
pub open spec fn status_kinds(items: Seq<DriftCleanupRequestItemView>) -> Seq<
    (Seq<char>, Seq<char>),
> {
    items.map_values(|i: DriftCleanupRequestItemView| (i.approval_status, i.kind))
}

/// How often a pair occurs.
pub open spec fn pair_count(
    pairs: Seq<(Seq<char>, Seq<char>)>,
    pair: (Seq<char>, Seq<char>),
) -> nat {
    tally(pairs, |p: (Seq<char>, Seq<char>)| p == pair)
}

/// Counts how often a pair occurs.
pub fn count_pair(pairs: &Vec<(String, String)>, first: &str, second: &str) -> (r: usize)
    ensures
        r == pair_count(pairs.deep_view(), (first@, second@)),
{
    let ghost all = pairs.deep_view();
    let mut n: usize = 0;
    let mut i: usize = 0;
    proof {
        ends(all);
    }
    while i < pairs.len()
        invariant
            i <= pairs@.len(),
            n <= i,
            all == pairs.deep_view(),
            n == pair_count(all.take(i as int), (first@, second@)),
        decreases pairs@.len() - i,
    {
        proof {
            step(all, i as int);
            assert(all[i as int] == pairs@[i as int].deep_view());
        }
        if same(&pairs[i].0, first) && same(&pairs[i].1, second) {
            n = n + 1;
        }
        i = i + 1;
    }
    proof {
        ends(all);
    }
    n
}

/// The distinct pairs in order.
pub open spec fn pair_keys(pairs: Seq<(Seq<char>, Seq<char>)>) -> Seq<(Seq<char>, Seq<char>)> {
    sorted_values(pairs, rank::<(String, String)>())
}

/// A copy of a list of pairs.
pub fn copy_pairs(pairs: &Vec<(String, String)>) -> (r: Vec<(String, String)>)
    ensures
        r.deep_view() == pairs.deep_view(),
{
    let mut out: Vec<(String, String)> = Vec::new();
    let mut i: usize = 0;
    while i < pairs.len()
        invariant
            i <= pairs@.len(),
            out@.len() == i,
            forall|j: int| 0 <= j < i ==> (#[trigger] out@[j]).deep_view() == pairs.deep_view()[j],
        decreases pairs@.len() - i,
    {
        out.push((pairs[i].0.clone(), pairs[i].1.clone()));
        i = i + 1;
    }
    proof {
        assert(out.deep_view() =~= pairs.deep_view());
    }
    out
}

/// The items counted by approval status and kind.
pub open spec fn triage_buckets(items: Seq<DriftCleanupRequestItemView>) -> Seq<
    DriftCleanupTriageBucketView,
> {
    let pairs = status_kinds(items);
    let keys = pair_keys(pairs);
    Seq::new(
        keys.len(),
        |i: int|
            DriftCleanupTriageBucketView {
                approval_status: keys[i].0,
                kind: keys[i].1,
                items: pair_count(pairs, keys[i]),
            },
    )
}

/// The approval status and kind of each item.
pub fn list_status_kinds(items: &Vec<DriftCleanupRequestItem>) -> (r: Vec<(String, String)>)
    ensures
        r.deep_view() == status_kinds(items.deep_view()),
{
    let mut out: Vec<(String, String)> = Vec::new();
    let mut i: usize = 0;
    while i < items.len()
        invariant
            i <= items@.len(),
            out@.len() == i,
            forall|j: int|
                0 <= j < i ==> (#[trigger] out@[j]).deep_view() == status_kinds(
                    items.deep_view(),
                )[j],
        decreases items@.len() - i,
    {
        out.push((items[i].approval_status.clone(), items[i].kind.clone()));
        i = i + 1;
    }
    proof {
        assert(out.deep_view() =~= status_kinds(items.deep_view()));
    }
    out
}

/// The items counted by approval status and kind.
pub fn list_triage_buckets(items: &Vec<DriftCleanupRequestItem>) -> (r: Vec<
    DriftCleanupTriageBucket,
>)
    ensures
        r.deep_view() == triage_buckets(items.deep_view()),
{
    let pairs = list_status_kinds(items);
    let keys = unique_ranked(copy_pairs(&pairs));
    let ghost p = pairs.deep_view();
    let ghost k = keys.deep_view();
    let mut out: Vec<DriftCleanupTriageBucket> = Vec::new();
    let mut i: usize = 0;
    while i < keys.len()
        invariant
            i <= keys@.len(),
            out@.len() == i,
            p == pairs.deep_view(),
            k == keys.deep_view(),
            forall|j: int|
                0 <= j < i ==> (#[trigger] out@[j]).deep_view() == (DriftCleanupTriageBucketView {
                    approval_status: k[j].0,
                    kind: k[j].1,
                    items: pair_count(p, k[j]),
                }),
        decreases keys@.len() - i,
    {
        proof {
            assert(k[i as int] == keys@[i as int].deep_view());
        }
        out.push(
            DriftCleanupTriageBucket {
                approval_status: keys[i].0.clone(),
                kind: keys[i].1.clone(),
                items: count_pair(&pairs, &keys[i].0, &keys[i].1),
            },
        );
        i = i + 1;
    }
    proof {
        assert(out.deep_view() =~= triage_buckets(items.deep_view()));
    }
    out
}

// ---------------------------------------------------------------------------
// The triage report
// ---------------------------------------------------------------------------

/// The items that are not classified.
pub open spec fn unknown_triage(
    items: Seq<DriftCleanupRequestItemView>,
    candidates: Seq<DriftCleanupCandidateView>,
    entries: Seq<DriftCleanupExecutionPlanEntryView>,
) -> Seq<DriftCleanupTriageItemView> {
    chosen(
        items,
        |i: DriftCleanupRequestItemView|
            if i.approval_status == "unknown"@ {
                Some(
                    triage_item(
                        i,
                        candidate_for(candidates, item_key(i)),
                        plan_entry_for(entries, i.request_id),
                        unknown_next_step(i.kind),
                    ),
                )
            } else {
                None
            },
    )
}

/// The items that are marked for cleanup.
pub open spec fn needs_cleanup_triage(
    items: Seq<DriftCleanupRequestItemView>,
    candidates: Seq<DriftCleanupCandidateView>,
    entries: Seq<DriftCleanupExecutionPlanEntryView>,
) -> Seq<DriftCleanupTriageItemView> {
    chosen(
        items,
        |i: DriftCleanupRequestItemView|
            if i.approval_status == "needs_cleanup"@ {
                Some(
                    triage_item(
                        i,
                        candidate_for(candidates, item_key(i)),
                        plan_entry_for(entries, i.request_id),
                        needs_cleanup_next_step(i, plan_entry_for(entries, i.request_id)),
                    ),
                )
            } else {
                None
            },
    )
}

/// The items with this approval status, ready for triage.
pub fn list_triage_items(
    items: &Vec<DriftCleanupRequestItem>,
    candidates: &Vec<DriftCleanupCandidate>,
    entries: &Vec<DriftCleanupExecutionPlanEntry>,
    unknown: bool,
) -> (r: Vec<DriftCleanupTriageItem>)
    ensures
        unknown ==> r.deep_view() == unknown_triage(
            items.deep_view(),
            candidates.deep_view(),
            entries.deep_view(),
        ),
        !unknown ==> r.deep_view() == needs_cleanup_triage(
            items.deep_view(),
            candidates.deep_view(),
            entries.deep_view(),
        ),
{
    let ghost all = items.deep_view();
    let ghost c = candidates.deep_view();
    let ghost e = entries.deep_view();
    let mut out: Vec<DriftCleanupTriageItem> = Vec::new();
    let mut i: usize = 0;
    proof {
        ends(all);
        assert(out.deep_view() =~= Seq::<DriftCleanupTriageItemView>::empty());
    }
    while i < items.len()
        invariant
            i <= items@.len(),
            all == items.deep_view(),
            c == candidates.deep_view(),
            e == entries.deep_view(),
            unknown ==> out.deep_view() == unknown_triage(all.take(i as int), c, e),
            !unknown ==> out.deep_view() == needs_cleanup_triage(all.take(i as int), c, e),
        decreases items@.len() - i,
    {
        proof {
            step(all, i as int);
        }
        let item = &items[i];
        if unknown && same(&item.approval_status, "unknown") {
            out.push(
                cleanup_triage_item(
                    item,
                    find_candidate(candidates, &item.kind, &item.target),
                    find_plan_entry(entries, &item.request_id),
                    cleanup_unknown_next_step(item),
                ),
            );
        } else if !unknown && same(&item.approval_status, "needs_cleanup") {
            let entry = find_plan_entry(entries, &item.request_id);
            out.push(
                cleanup_triage_item(
                    item,
                    find_candidate(candidates, &item.kind, &item.target),
                    entry,
                    cleanup_needs_cleanup_next_step(item, entry),
                ),
            );
        }
        i = i + 1;
    }
    proof {
        ends(all);
    }
    out
}

/// The number of distinct keys among the candidates.
pub open spec fn distinct_candidates(candidates: Seq<DriftCleanupCandidateView>) -> nat {
    pair_keys(candidates.map_values(|c: DriftCleanupCandidateView| candidate_key(c))).len()
}

/// The number of distinct keys among the candidates.
pub fn count_distinct_candidates(candidates: &Vec<DriftCleanupCandidate>) -> (r: usize)
    ensures
        r == distinct_candidates(candidates.deep_view()),
{
    let ghost all = candidates.deep_view();
    let mut pairs: Vec<(String, String)> = Vec::new();
    let mut i: usize = 0;
    while i < candidates.len()
        invariant
            i <= candidates@.len(),
            pairs@.len() == i,
            all == candidates.deep_view(),
            forall|j: int|
                0 <= j < i ==> (#[trigger] pairs@[j]).deep_view() == candidate_key(all[j]),
        decreases candidates@.len() - i,
    {
        pairs.push((candidates[i].kind.clone(), candidates[i].target.clone()));
        i = i + 1;
    }
    proof {
        assert(pairs.deep_view() =~= all.map_values(
            |c: DriftCleanupCandidateView| candidate_key(c),
        ));
    }
    unique_ranked(pairs).len()
}

/// The status that triage gives a request.
pub open spec fn triage_status(
    limited: bool,
    progress: DriftCleanupProgressReportView,
    plan: DriftCleanupExecutionPlanReportView,
) -> Seq<char> {
    if limited {
        "blocked"@
    } else if progress.missing_current > 0 || progress.stale_items > 0 {
        "sync_required"@
    } else if progress.unknown > 0 {
        "needs_business_review"@
    } else if plan.needs_approval > 0 {
        "needs_cleanup_approval"@
    } else if plan.ready > 0 {
        "ready_for_human_execution_request"@
    } else if progress.needs_cleanup == 0 && progress.approved == 0 {
        "no_cleanup_ready"@
    } else {
        "reviewed"@
    }
}

/// The triage of a loaded request.
pub open spec fn request_triage(
    build: DriftCleanupBuildView,
    request: LoadedRequestView,
) -> DriftCleanupTriageReportView {
    match request.document {
        None => DriftCleanupTriageReportView {
            ok: false,
            read_only: true,
            status: "blocked"@,
            request_file: request.path,
            current_candidates: distinct_candidates(build.candidates),
            request_items: 0,
            matched_current: 0,
            missing_current: distinct_candidates(build.candidates),
            stale_items: 0,
            approved: 0,
            needs_cleanup: 0,
            rejected: 0,
            unknown: 0,
            ready: 0,
            needs_approval: 0,
            blocked: 0,
            skipped: 0,
            by_status_kind: Seq::empty(),
            unknown_items: Seq::empty(),
            needs_cleanup_items: Seq::empty(),
            next_actions: seq!["fix or regenerate the cleanup request YAML before review"@],
            limitations: seq![request.error],
        },
        Some(document) => {
            let progress = document_progress(request.path, document, build);
            let plan = execution_plan(request);
            let limitations = progress.limitations + plan.limitations;
            DriftCleanupTriageReportView {
                ok: limitations.len() == 0,
                read_only: true,
                status: triage_status(limitations.len() > 0, progress, plan),
                request_file: request.path,
                current_candidates: progress.current_candidates,
                request_items: progress.request_items,
                matched_current: progress.matched_current,
                missing_current: progress.missing_current,
                stale_items: progress.stale_items,
                approved: progress.approved,
                needs_cleanup: progress.needs_cleanup,
                rejected: progress.rejected,
                unknown: progress.unknown,
                ready: plan.ready,
                needs_approval: plan.needs_approval,
                blocked: plan.blocked,
                skipped: plan.skipped,
                by_status_kind: triage_buckets(document.items),
                unknown_items: unknown_triage(document.items, build.candidates, plan.entries),
                needs_cleanup_items: needs_cleanup_triage(
                    document.items,
                    build.candidates,
                    plan.entries,
                ),
                next_actions: triage_next_actions(progress, plan),
                limitations: sorted_set(limitations),
            }
        },
    }
}

/// The triage of a loaded request against given candidates.
pub fn triage_against(build: &DriftCleanupBuild, request: &LoadedRequest) -> (r:
    DriftCleanupTriageReport)
    ensures
        r.deep_view() == request_triage(build.deep_view(), request.deep_view()),
{
    let document = match &request.document {
        Some(document) => document,
        None => {
            let distinct = count_distinct_candidates(&build.candidates);
            return DriftCleanupTriageReport {
                ok: false,
                read_only: true,
                status: "blocked".to_string(),
                request_file: request.path.clone(),
                current_candidates: distinct,
                request_items: 0,
                matched_current: 0,
                missing_current: distinct,
                stale_items: 0,
                approved: 0,
                needs_cleanup: 0,
                rejected: 0,
                unknown: 0,
                ready: 0,
                needs_approval: 0,
                blocked: 0,
                skipped: 0,
                by_status_kind: Vec::new(),
                unknown_items: Vec::new(),
                needs_cleanup_items: Vec::new(),
                next_actions: vec![
                    "fix or regenerate the cleanup request YAML before review".to_string(),
                ],
                limitations: vec![request.error.clone()],
            };
        },
    };
    let progress = progress_against(build, request);
    let plan = drift_cleanup_execution_plan(request);
    let mut limitations = progress.limitations.clone();
    extend(&mut limitations, &plan.limitations);
    let next_actions = cleanup_triage_next_actions(&progress, &plan);
    let ok = limitations.is_empty();
    let status = if !ok {
        "blocked"
    } else if progress.missing_current > 0 || progress.stale_items > 0 {
        "sync_required"
    } else if progress.unknown > 0 {
        "needs_business_review"
    } else if plan.needs_approval > 0 {
        "needs_cleanup_approval"
    } else if plan.ready > 0 {
        "ready_for_human_execution_request"
    } else if progress.needs_cleanup == 0 && progress.approved == 0 {
        "no_cleanup_ready"
    } else {
        "reviewed"
    };
    DriftCleanupTriageReport {
        ok,
        read_only: true,
        status: status.to_string(),
        request_file: request.path.clone(),
        current_candidates: progress.current_candidates,
        request_items: progress.request_items,
        matched_current: progress.matched_current,
        missing_current: progress.missing_current,
        stale_items: progress.stale_items,
        approved: progress.approved,
        needs_cleanup: progress.needs_cleanup,
        rejected: progress.rejected,
        unknown: progress.unknown,
        ready: plan.ready,
        needs_approval: plan.needs_approval,
        blocked: plan.blocked,
        skipped: plan.skipped,
        by_status_kind: list_triage_buckets(&document.items),
        unknown_items: list_triage_items(
            &document.items,
            &build.candidates,
            &plan.entries,
            true,
        ),
        needs_cleanup_items: list_triage_items(
            &document.items,
            &build.candidates,
            &plan.entries,
            false,
        ),
        next_actions,
        limitations: unique_sorted(limitations),
    }
}

/// The triage of a loaded request.
pub fn drift_cleanup_request_triage(
    registry: &Registry,
    observation: &Observation,
    request: &LoadedRequest,
) -> (r: DriftCleanupTriageReport)
    ensures
        r.deep_view() == request_triage(
            cleanup_build(registry.deep_view(), observation.deep_view()),
            request.deep_view(),
        ),
{
    let build = build_drift_cleanup(registry, observation);
    triage_against(&build, request)
}

// ---------------------------------------------------------------------------
// Laws
// ---------------------------------------------------------------------------

/// The first thing that keeps a request from being settled gives its status: something
/// wrong, something to be brought up to date, an item that nobody decided on, an item
/// that waits for approval, an item that is ready, or nothing to be cleaned up.
pub proof fn law_triage_status(build: DriftCleanupBuildView, request: LoadedRequestView)
    requires
        request.document is Some,
    ensures
        ({
            let document = request.document->0;
            let r = request_triage(build, request);
            let p = document_progress(request.path, document, build);
            let plan = execution_plan(request);
            let aligned = p.missing_current == 0 && p.stale_items == 0;
            &&& r.ok <==> p.limitations.len() == 0 && plan.limitations.len() == 0
            &&& r.status == "blocked"@ <==> !r.ok
            &&& r.status == "sync_required"@ <==> r.ok && !aligned
            &&& r.status == "needs_business_review"@ <==> r.ok && aligned && p.unknown > 0
            &&& r.status == "needs_cleanup_approval"@ <==> r.ok && aligned && p.unknown == 0
                && plan.needs_approval > 0
            &&& r.status == "ready_for_human_execution_request"@ <==> r.ok && aligned && p.unknown
                == 0 && plan.needs_approval == 0 && plan.ready > 0
            &&& r.unknown == p.unknown && r.needs_cleanup == p.needs_cleanup && r.approved
                == p.approved && r.rejected == p.rejected
            &&& r.ready == plan.ready && r.needs_approval == plan.needs_approval && r.blocked
                == plan.blocked && r.skipped == plan.skipped
            &&& r.missing_current == p.missing_current && r.stale_items == p.stale_items
            &&& r.unknown_items.len() == tally(
                document.items,
                |i: DriftCleanupRequestItemView| i.approval_status == "unknown"@,
            )
            &&& r.needs_cleanup_items.len() == tally(
                document.items,
                |i: DriftCleanupRequestItemView| i.approval_status == "needs_cleanup"@,
            )
        }),
{
    let document = request.document->0;
    reveal_strlit("blocked");
    reveal_strlit("sync_required");
    reveal_strlit("needs_business_review");
    reveal_strlit("needs_cleanup_approval");
    reveal_strlit("ready_for_human_execution_request");
    reveal_strlit("no_cleanup_ready");
    reveal_strlit("reviewed");
    assert("blocked"@.len() == 7 && "sync_required"@.len() == 13 && "needs_business_review"@.len()
        == 21 && "needs_cleanup_approval"@.len() == 22
        && "ready_for_human_execution_request"@.len() == 33 && "no_cleanup_ready"@.len() == 16
        && "reviewed"@.len() == 8);
    lemma_unknown_count(
        document.items,
        build.candidates,
        execution_plan(request).entries,
    );
}

proof fn lemma_unknown_count(
    items: Seq<DriftCleanupRequestItemView>,
    candidates: Seq<DriftCleanupCandidateView>,
    entries: Seq<DriftCleanupExecutionPlanEntryView>,
)
    ensures
        unknown_triage(items, candidates, entries).len() == tally(
            items,
            |i: DriftCleanupRequestItemView| i.approval_status == "unknown"@,
        ),
        needs_cleanup_triage(items, candidates, entries).len() == tally(
            items,
            |i: DriftCleanupRequestItemView| i.approval_status == "needs_cleanup"@,
        ),
    decreases items.len(),
{
    if items.len() > 0 {
        lemma_unknown_count(items.drop_last(), candidates, entries);
    }
}

/// What is told of an item is what the item, its candidate and its plan say; it is
/// current where its candidate is there.
pub proof fn law_triage_items(
    item: DriftCleanupRequestItemView,
    candidate: Option<DriftCleanupCandidateView>,
    entry: Option<DriftCleanupExecutionPlanEntryView>,
    next_step: Seq<char>,
)
    ensures
        ({
            let t = triage_item(item, candidate, entry, next_step);
            &&& t.request_id == item.request_id
            &&& t.kind == item.kind
            &&& t.target == item.target
            &&& t.approval_status == item.approval_status
            &&& t.risk == item.risk
            &&& t.current_candidate <==> candidate is Some
            &&& entry is Some ==> t.required_evidence == entry->0.required_evidence && t.blockers
                == entry->0.blockers
            &&& entry is None ==> t.required_evidence.len() == 0 && t.blockers.len() == 0
            &&& item.public_bind == Some(true) ==> t.evidence.contains(
                "public listener requires owner confirmation before cleanup"@,
            )
            &&& item.running == Some(true) ==> t.evidence.contains(
                "running resource requires service-specific stop/maintenance plan"@,
            )
            &&& item.data_risk is Some ==> t.evidence.contains(
                "data-bearing resource requires backup snapshot and restore drill evidence"@,
            )
        }),
{
    let all = triage_evidence(item, candidate);
    law_sorted_set(all);
    let a = match candidate {
        Some(c) => seq![
            "current drift candidate is still active"@,
            "current_risk="@ + c.risk,
            "suggested_action="@ + c.suggested_action,
        ] + labelled("observed_status="@, nonempty(c.observed_status)) + labelled(
            "data_risk="@,
            nonempty(c.data_risk),
        ) + noted(true, c.rationale),
        None => seq![
            "not present in current drift candidates; sync may remove this stale review item"@,
        ],
    };
    let x = "public listener requires owner confirmation before cleanup"@;
    let y = "running resource requires service-specific stop/maintenance plan"@;
    let z = "data-bearing resource requires backup snapshot and restore drill evidence"@;
    let b = noted(item.public_bind == Some(true), x);
    let c = noted(item.running == Some(true), y);
    let d = noted(item.data_risk is Some, z);
    assert(all == a + b + c + d);
    law_noted(item.public_bind == Some(true), x, x);
    law_noted(item.running == Some(true), y, y);
    law_noted(item.data_risk is Some, z, z);
    law_either_list(a, b, x);
    law_either_list(a + b, c, x);
    law_either_list(a + b + c, d, x);
    law_either_list(a + b, c, y);
    law_either_list(a + b + c, d, y);
    law_either_list(a + b + c, d, z);
}

/// The items with a status and of a kind.
pub open spec fn of_status_and_kind(status: Seq<char>, kind: Seq<char>) -> spec_fn(
    DriftCleanupRequestItemView,
) -> bool {
    |x: DriftCleanupRequestItemView| x.approval_status == status && x.kind == kind
}

/// Each pair of a status and a kind that occurs has its bucket, which counts its items.
pub proof fn law_triage_buckets(items: Seq<DriftCleanupRequestItemView>, i: int)
    requires
        0 <= i < items.len(),
    ensures
        exists|b: int|
            0 <= b < triage_buckets(items).len() && (#[trigger] triage_buckets(
                items,
            )[b]).approval_status == items[i].approval_status && triage_buckets(items)[b].kind
                == items[i].kind && triage_buckets(items)[b].items == tally(
                items,
                of_status_and_kind(items[i].approval_status, items[i].kind),
            ),
{
    let pairs = status_kinds(items);
    law_pairs_are_ordered();
    law_sorted_values_keep_all(pairs, rank::<(String, String)>(), i);
    let keys = pair_keys(pairs);
    let key = (items[i].approval_status, items[i].kind);
    assert(pairs[i] == key);
    let b = choose|b: int| 0 <= b < keys.len() && keys[b] == key;
    lemma_bucket_size(items, key);
    assert(triage_buckets(items)[b].items == pair_count(pairs, key));
    assert(triage_buckets(items)[b].kind == items[i].kind);
}

proof fn lemma_bucket_size(
    items: Seq<DriftCleanupRequestItemView>,
    key: (Seq<char>, Seq<char>),
)
    ensures
        pair_count(status_kinds(items), key) == tally(items, of_status_and_kind(key.0, key.1)),
    decreases items.len(),
{
    if items.len() > 0 {
        lemma_bucket_size(items.drop_last(), key);
        assert(status_kinds(items).drop_last() =~= status_kinds(items.drop_last()));
    }
}

/// What is to be done next: a step for each thing that is left, a sync, unknown items, those
/// that need cleanup or approval, blocked and ready ones; or one that says nothing is ready.
pub proof fn law_what_a_triage_asks_next(
    progress: DriftCleanupProgressReportView,
    plan: DriftCleanupExecutionPlanReportView,
)
    ensures
        ({
            let left = (if progress.missing_current > 0 || progress.stale_items > 0 {
                1int
            } else {
                0
            }) + (if progress.unknown > 0 {
                1int
            } else {
                0
            }) + (if progress.needs_cleanup > 0 {
                1int
            } else {
                0
            }) + (if plan.needs_approval > 0 {
                1int
            } else {
                0
            }) + (if plan.blocked > 0 {
                1int
            } else {
                0
            }) + (if plan.ready > 0 {
                1int
            } else {
                0
            });
            &&& left > 0 ==> triage_next_actions(progress, plan).len() == left
            &&& left == 0 ==> triage_next_actions(progress, plan) == seq![
                "no cleanup execution is ready; continue ordinary drift review as needed"@,
            ]
        }),
{
    reveal(triage_next_actions);
}

/// What is to be done about an item that needs cleanup: its blockers first; then it is ready,
/// or lacks evidence; else what its risk asks for.
pub proof fn law_what_an_item_asks_next(
    item: DriftCleanupRequestItemView,
    entry: Option<DriftCleanupExecutionPlanEntryView>,
)
    ensures
        ({
            let step = needs_cleanup_next_step(item, entry);
            let blocked = entry is Some && entry->0.blockers.len() > 0;
            let ready = entry is Some && entry->0.status == "ready_for_human_execution_request"@;
            let lacking = entry is Some && entry->0.required_evidence.len() > 0;
            &&& step == "fix blockers before this cleanup request can be reviewed further"@
                <==> blocked
            &&& step
                == "ready for request-execution; cleanup must still be performed manually after approval"@
                <==> !blocked && ready
            &&& step
                == "fill required evidence fields, then change approval_status to approved only after human review"@
                <==> !blocked && !ready && lacking
            &&& step == "collect backup_snapshot_id and restore_drill_id before approval"@
                <==> !blocked && !ready && !lacking && item.data_risk is Some
        }),
{
    reveal_strlit("fix blockers before this cleanup request can be reviewed further");
    reveal_strlit(
        "ready for request-execution; cleanup must still be performed manually after approval",
    );
    reveal_strlit(
        "fill required evidence fields, then change approval_status to approved only after human review",
    );
    reveal_strlit("collect backup_snapshot_id and restore_drill_id before approval");
    reveal_strlit(
        "add owner, reason, exact_resource_id, maintenance_window, rollback_plan, and approval expiry before approval",
    );
    reveal_strlit(
        "complete owner, reason, cleanup strategy, exact resource id, and approval expiry before approval",
    );
    assert("fix blockers before this cleanup request can be reviewed further"@[2] == 'x');
    assert(
    "ready for request-execution; cleanup must still be performed manually after approval"@[2]
        == 'a');
    assert(
    "fill required evidence fields, then change approval_status to approved only after human review"@[2]
        == 'l');
    assert("collect backup_snapshot_id and restore_drill_id before approval"@[2] == 'l'
        && "collect backup_snapshot_id and restore_drill_id before approval"@[0] == 'c');
    assert(
    "fill required evidence fields, then change approval_status to approved only after human review"@[0]
        == 'f');
    assert(
    "add owner, reason, exact_resource_id, maintenance_window, rollback_plan, and approval expiry before approval"@[2]
        == 'd');
    assert(
    "complete owner, reason, cleanup strategy, exact resource id, and approval expiry before approval"@[2]
        == 'm');
}

} // verus!
