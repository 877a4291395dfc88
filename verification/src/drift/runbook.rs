//! The manual steps for the approved items of a cleanup request.

use vstd::prelude::*;
use crate::drift::candidates::{LoadedRequest, LoadedRequestView};
use crate::drift::plan::{drift_cleanup_execution_plan, execution_plan};
use crate::drift::types::{
    DriftCleanupExecutionPlanEntry, DriftCleanupExecutionPlanEntryView, DriftCleanupRequestItem,
    DriftCleanupRequestItemView, DriftCleanupRunbookReport, DriftCleanupRunbookReportView,
    DriftCleanupRunbookStep, DriftCleanupRunbookStepView,
};
use crate::drift::verify::is_set;
use crate::each::find_first;
use crate::list::{
    first_where, kept, law_either_list, law_sorted_set, note, noted, put, sorted_set,
    unique_sorted,
};
use crate::number::{count_text, decimal};
use crate::text::{as_text, blank, cat2, ends, is_blank, is_text, or_text, same, step, text_or};

verus! {

broadcast use {vstd::seq::group_seq_axioms, vstd::string::group_string_axioms};

/// What holds of every step.
pub open spec fn global_safeguards() -> Seq<Seq<char>> {
    seq![
        "read-only report: opsctl does not delete, stop, prune, or mutate observed resources from this command"@,
        "take the global opsctl lock before any separately approved cleanup execution"@,
        "every resource must be matched exactly immediately before action"@,
        "each destructive action needs separate human approval and audit evidence"@,
        "do not expose cleanup execution through MCP"@,
    ]
}

/// What holds of every step.
pub fn cleanup_runbook_global_safeguards() -> (r: Vec<String>)
    ensures
        r.deep_view() == global_safeguards(),
{
    let list: Vec<String> = vec![
        "read-only report: opsctl does not delete, stop, prune, or mutate observed resources from this command".to_string(),
        "take the global opsctl lock before any separately approved cleanup execution".to_string(),
        "every resource must be matched exactly immediately before action".to_string(),
        "each destructive action needs separate human approval and audit evidence".to_string(),
        "do not expose cleanup execution through MCP".to_string(),
    ];
    proof {
        assert(list.deep_view() =~= global_safeguards());
    }
    list
}

/// What must never be done.
pub open spec fn forbidden_actions() -> Seq<Seq<char>> {
    seq![
        "docker system prune"@,
        "docker volume prune"@,
        "docker compose down -v without a reviewed exact resource scope"@,
        "rm -rf on data_dir, backup_path, Docker volumes, or registry paths"@,
        "stopping production services by port number alone"@,
    ]
}

/// What must never be done.
pub fn cleanup_runbook_forbidden_actions() -> (r: Vec<String>)
    ensures
        r.deep_view() == forbidden_actions(),
{
    let list: Vec<String> = vec![
        "docker system prune".to_string(),
        "docker volume prune".to_string(),
        "docker compose down -v without a reviewed exact resource scope".to_string(),
        "rm -rf on data_dir, backup_path, Docker volumes, or registry paths".to_string(),
        "stopping production services by port number alone".to_string(),
    ];
    proof {
        assert(list.deep_view() =~= forbidden_actions());
    }
    list
}

/// What to check before the step.
pub open spec fn checks_before(item: DriftCleanupRequestItemView) -> Seq<Seq<char>> {
    sorted_set(
    Seq::<Seq<char>>::empty().push(
        "confirm request_id matches "@ + item.request_id,
    ).push(
        "confirm observed target still matches "@ + item.target,
    ).push(
        "confirm owner approval, maintenance window, and approval expiry are still valid"@,
    ).push(
        "re-run opsctl registry drift cleanup-request execution-plan immediately before cleanup"@,
    ) + noted(
        !blank(item.exact_resource_id),
        "confirm exact_resource_id still matches "@ + text_or(item.exact_resource_id, ""@),
    ) + noted(
        item.data_risk is Some,
        "confirm backup_snapshot_id and restore_drill_id are still available"@,
    ) + noted(
        item.public_bind == Some(true),
        "confirm public listener ownership and user-visible maintenance impact"@,
    ) + noted(item.running == Some(true), "confirm running workload can be interrupted by owner"@))
}

/// What to check before the step.
pub fn list_checks_before(item: &DriftCleanupRequestItem) -> (r: Vec<String>)
    ensures
        r.deep_view() == checks_before(item.deep_view()),
{
    let mut list: Vec<String> = Vec::new();
    proof {
        assert(list.deep_view() =~= Seq::<Seq<char>>::empty());
    }
    put(&mut list, &cat2("confirm request_id matches ", &item.request_id));
    put(&mut list, &cat2("confirm observed target still matches ", &item.target));
    put(
        &mut list,
        "confirm owner approval, maintenance window, and approval expiry are still valid",
    );
    put(
        &mut list,
        "re-run opsctl registry drift cleanup-request execution-plan immediately before cleanup",
    );
    note(
        &mut list,
        !is_blank(as_text(&item.exact_resource_id)),
        &cat2("confirm exact_resource_id still matches ", or_text(as_text(&item.exact_resource_id), "")),
    );
    note(
        &mut list,
        item.data_risk.is_some(),
        "confirm backup_snapshot_id and restore_drill_id are still available",
    );
    note(
        &mut list,
        is_set(item.public_bind),
        "confirm public listener ownership and user-visible maintenance impact",
    );
    note(
        &mut list,
        is_set(item.running),
        "confirm running workload can be interrupted by owner",
    );
    unique_sorted(list)
}

/// What to check after the step.
pub open spec fn checks_after(item: DriftCleanupRequestItemView) -> Seq<Seq<char>> {
    sorted_set(
    Seq::<Seq<char>>::empty().push(
        "re-run opsctl registry drift list for the exact target"@,
    ).push(
        "confirm no new drift was introduced for ports, containers, volumes, compose projects, or systemd units"@,
    ).push(
        "write the result into the deployment or cleanup journal"@,
    ) + noted(
        item.data_risk is Some,
        "keep backup and restore drill evidence linked to the cleanup record"@,
    ))
}

/// What to check after the step.
pub fn list_checks_after(item: &DriftCleanupRequestItem) -> (r: Vec<String>)
    ensures
        r.deep_view() == checks_after(item.deep_view()),
{
    let mut list: Vec<String> = Vec::new();
    proof {
        assert(list.deep_view() =~= Seq::<Seq<char>>::empty());
    }
    put(&mut list, "re-run opsctl registry drift list for the exact target");
    put(
        &mut list,
        "confirm no new drift was introduced for ports, containers, volumes, compose projects, or systemd units",
    );
    put(&mut list, "write the result into the deployment or cleanup journal");
    note(
        &mut list,
        item.data_risk.is_some(),
        "keep backup and restore drill evidence linked to the cleanup record",
    );
    unique_sorted(list)
}

/// What an operator does by hand.
pub open spec fn manual_actions(strategy: Option<Seq<char>>) -> Seq<Seq<char>> {
    sorted_set(
        if strategy == Some("adopt_instead"@) {
            seq![
                "do not delete the resource"@,
                "use the registry adopt workflow after confirming ownership"@,
            ]
        } else if strategy == Some("ignore_instead"@) {
            seq![
                "do not delete the resource"@,
                "add an expiring ignore rule with owner, reason, and expiry"@,
            ]
        } else if strategy == Some("compose_owner_cleanup"@) {
            seq![
                "use the owning Compose project's documented cleanup procedure"@,
                "avoid broad compose down -v unless the reviewed request explicitly proves data is disposable"@,
            ]
        } else if strategy == Some("service_owner_cleanup"@) {
            seq![
                "use the owning service's documented cleanup procedure"@,
                "stop or remove only the exact reviewed resource after approval"@,
            ]
        } else if strategy == Some("manual_staging_cleanup"@) {
            seq![
                "clean only the exact reviewed staging or test resource"@,
                "keep production service resources out of scope"@,
            ]
        } else {
            seq!["no manual execution step is available for this cleanup_strategy"@]
        },
    )
}

/// What an operator does by hand.
pub fn list_manual_actions(strategy: Option<&str>) -> (r: Vec<String>)
    ensures
        r.deep_view() == manual_actions(strategy.deep_view()),
{
    let first: &str;
    let second: &str;
    if is_text(strategy, "adopt_instead") {
        first = "do not delete the resource";
        second = "use the registry adopt workflow after confirming ownership";
    } else if is_text(strategy, "ignore_instead") {
        first = "do not delete the resource";
        second = "add an expiring ignore rule with owner, reason, and expiry";
    } else if is_text(strategy, "compose_owner_cleanup") {
        first = "use the owning Compose project's documented cleanup procedure";
        second =
        "avoid broad compose down -v unless the reviewed request explicitly proves data is disposable";
    } else if is_text(strategy, "service_owner_cleanup") {
        first = "use the owning service's documented cleanup procedure";
        second = "stop or remove only the exact reviewed resource after approval";
    } else if is_text(strategy, "manual_staging_cleanup") {
        first = "clean only the exact reviewed staging or test resource";
        second = "keep production service resources out of scope";
    } else {
        let only: Vec<String> = vec![
            "no manual execution step is available for this cleanup_strategy".to_string(),
        ];
        proof {
            assert(only.deep_view() =~= seq![
                "no manual execution step is available for this cleanup_strategy"@,
            ]);
        }
        return unique_sorted(only);
    }
    let list: Vec<String> = vec![first.to_string(), second.to_string()];
    proof {
        assert(list.deep_view() =~= seq![first@, second@]);
    }
    unique_sorted(list)
}

/// A step of the runbook. No step can be automated, and each needs an approval
/// of its own.
pub open spec fn runbook_step(number: nat, item: DriftCleanupRequestItemView) -> DriftCleanupRunbookStepView {
    DriftCleanupRunbookStepView {
        step_id: "cleanup-step-"@ + decimal(number),
        request_id: item.request_id,
        kind: item.kind,
        target: item.target,
        owner: item.owner,
        reason: item.reason,
        cleanup_strategy: item.cleanup_strategy,
        exact_resource_id: item.exact_resource_id,
        approval_expires_at: item.approval_expires_at,
        backup_snapshot_id: item.backup_snapshot_id,
        restore_drill_id: item.restore_drill_id,
        safe_to_automate: false,
        requires_separate_destructive_approval: true,
        verify_before: checks_before(item),
        execute_manually: manual_actions(item.cleanup_strategy),
        verify_after: checks_after(item),
        rollback_plan: item.rollback_plan,
        forbidden_actions: forbidden_actions(),
    }
}

/// A step of the runbook.
pub fn cleanup_runbook_step(number: usize, item: &DriftCleanupRequestItem) -> (r:
    DriftCleanupRunbookStep)
    ensures
        r.deep_view() == runbook_step(number as nat, item.deep_view()),
{
    DriftCleanupRunbookStep {
        step_id: cat2("cleanup-step-", &count_text(number)),
        request_id: item.request_id.clone(),
        kind: item.kind.clone(),
        target: item.target.clone(),
        owner: item.owner.clone(),
        reason: item.reason.clone(),
        cleanup_strategy: item.cleanup_strategy.clone(),
        exact_resource_id: item.exact_resource_id.clone(),
        approval_expires_at: item.approval_expires_at.clone(),
        backup_snapshot_id: item.backup_snapshot_id.clone(),
        restore_drill_id: item.restore_drill_id.clone(),
        safe_to_automate: false,
        requires_separate_destructive_approval: true,
        verify_before: list_checks_before(item),
        execute_manually: list_manual_actions(as_text(&item.cleanup_strategy)),
        verify_after: list_checks_after(item),
        rollback_plan: item.rollback_plan.clone(),
        forbidden_actions: cleanup_runbook_forbidden_actions(),
    }
}

/// The first item with this id.
pub open spec fn item_with_id(
    items: Seq<DriftCleanupRequestItemView>,
    request_id: Seq<char>,
) -> Option<DriftCleanupRequestItemView> {
    first_where(items, |i: DriftCleanupRequestItemView| i.request_id == request_id)
}

/// The first item with this id.
pub fn find_item_with_id<'a>(items: &'a Vec<DriftCleanupRequestItem>, request_id: &str) -> (r:
    Option<&'a DriftCleanupRequestItem>)
    ensures
        r.deep_view() == item_with_id(items.deep_view(), request_id@),
{
    find_first(
        items,
        |i: &DriftCleanupRequestItem| -> (b: bool)
            ensures
                b == (i.deep_view().request_id == request_id@)
            { same(&i.request_id, request_id) },
        Ghost(|i: DriftCleanupRequestItemView| i.request_id == request_id@),
    )
}

/// Whether an entry is ready.
pub open spec fn is_ready(entry: DriftCleanupExecutionPlanEntryView) -> bool {
    entry.status == "ready_for_human_execution_request"@
}

/// The entries that are ready.
pub open spec fn ready_entries(entries: Seq<DriftCleanupExecutionPlanEntryView>) -> Seq<
    DriftCleanupExecutionPlanEntryView,
> {
    kept(entries, |e: DriftCleanupExecutionPlanEntryView| is_ready(e))
}

/// A step for each of these entries that has an item, numbered from one by the
/// place of the entry.
pub open spec fn runbook_steps(
    ready: Seq<DriftCleanupExecutionPlanEntryView>,
    items: Seq<DriftCleanupRequestItemView>,
) -> Seq<DriftCleanupRunbookStepView>
    decreases ready.len(),
{
    if ready.len() == 0 {
        Seq::empty()
    } else {
        let rest = runbook_steps(ready.drop_last(), items);
        match item_with_id(items, ready.last().request_id) {
            Some(item) => rest.push(runbook_step(ready.len(), item)),
            None => rest,
        }
    }
}

/// A step for each entry that is ready.
pub fn list_runbook_steps(
    entries: &Vec<DriftCleanupExecutionPlanEntry>,
    items: &Vec<DriftCleanupRequestItem>,
) -> (r: Vec<DriftCleanupRunbookStep>)
    ensures
        r.deep_view() == runbook_steps(ready_entries(entries.deep_view()), items.deep_view()),
{
    let ghost all = entries.deep_view();
    let ghost its = items.deep_view();
    let mut steps: Vec<DriftCleanupRunbookStep> = Vec::new();
    let mut number: usize = 0;
    let mut i: usize = 0;
    proof {
        ends(all);
        assert(steps.deep_view() =~= Seq::<DriftCleanupRunbookStepView>::empty());
    }
    while i < entries.len()
        invariant
            i <= entries@.len(),
            number <= i,
            all == entries.deep_view(),
            its == items.deep_view(),
            number == ready_entries(all.take(i as int)).len(),
            steps.deep_view() == runbook_steps(ready_entries(all.take(i as int)), its),
        decreases entries@.len() - i,
    {
        let entry = &entries[i];
        let ghost before = steps.deep_view();
        let ghost ready = ready_entries(all.take(i as int));
        proof {
            step(all, i as int);
            assert(all[i as int] == entry.deep_view());
        }
        if same(&entry.status, "ready_for_human_execution_request") {
            number = number + 1;
            proof {
                assert(ready_entries(all.take(i + 1)) == ready.push(entry.deep_view()));
                assert(ready.push(entry.deep_view()).drop_last() =~= ready);
            }
            if let Some(item) = find_item_with_id(items, &entry.request_id) {
                let s = cleanup_runbook_step(number, item);
                steps.push(s);
                proof {
                    assert(steps.deep_view() =~= before.push(s.deep_view()));
                }
            }
        }
        i = i + 1;
    }
    proof {
        ends(all);
    }
    steps
}

/// The manual steps for a request.
pub open spec fn runbook(request: LoadedRequestView) -> DriftCleanupRunbookReportView {
    let plan = execution_plan(request);
    match request.document {
        None => DriftCleanupRunbookReportView {
            ok: false,
            read_only: true,
            status: "blocked"@,
            request_file: request.path,
            total_items: 0,
            ready: 0,
            blocked: 0,
            steps: Seq::empty(),
            global_safeguards: global_safeguards(),
            limitations: seq![request.error],
        },
        Some(document) => {
            let limitations = plan.limitations + noted(
                plan.status != "ready_for_human_execution_request"@,
                "cleanup runbook requires ready execution plan; current status is "@ + plan.status,
            );
            let steps = runbook_steps(ready_entries(plan.entries), document.items);
            DriftCleanupRunbookReportView {
                ok: limitations.len() == 0 && steps.len() > 0,
                read_only: true,
                status: if limitations.len() > 0 {
                    "blocked"@
                } else if steps.len() == 0 {
                    "no_ready_cleanup"@
                } else {
                    "ready_for_manual_cleanup"@
                },
                request_file: request.path,
                total_items: plan.total_items,
                ready: steps.len(),
                blocked: plan.blocked,
                steps,
                global_safeguards: global_safeguards(),
                limitations: sorted_set(limitations),
            }
        },
    }
}

/// The manual steps for a loaded request.
pub fn drift_cleanup_runbook(request: &LoadedRequest) -> (r: DriftCleanupRunbookReport)
    ensures
        r.deep_view() == runbook(request.deep_view()),
{
    let plan = drift_cleanup_execution_plan(request);
    let document = match &request.document {
        Some(document) => document,
        None => {
            return DriftCleanupRunbookReport {
                ok: false,
                read_only: true,
                status: "blocked".to_string(),
                request_file: request.path.clone(),
                total_items: 0,
                ready: 0,
                blocked: 0,
                steps: Vec::new(),
                global_safeguards: cleanup_runbook_global_safeguards(),
                limitations: vec![request.error.clone()],
            };
        },
    };
    let mut limitations = plan.limitations;
    note(
        &mut limitations,
        !same(&plan.status, "ready_for_human_execution_request"),
        &cat2(
            "cleanup runbook requires ready execution plan; current status is ",
            &plan.status,
        ),
    );
    let steps = list_runbook_steps(&plan.entries, &document.items);
    proof {
        assert(steps.deep_view().len() == steps@.len());
        assert(limitations.deep_view().len() == limitations@.len());
    }
    let limited = limitations.len() > 0;
    let status = if limited {
        "blocked"
    } else if steps.len() == 0 {
        "no_ready_cleanup"
    } else {
        "ready_for_manual_cleanup"
    };
    DriftCleanupRunbookReport {
        ok: !limited && steps.len() > 0,
        read_only: true,
        status: status.to_string(),
        request_file: request.path.clone(),
        total_items: plan.total_items,
        ready: steps.len(),
        blocked: plan.blocked,
        steps,
        global_safeguards: cleanup_runbook_global_safeguards(),
        limitations: unique_sorted(limitations),
    }
}

// ---------------------------------------------------------------------------
// Laws
// ---------------------------------------------------------------------------

proof fn lemma_steps_are_manual(
    ready: Seq<DriftCleanupExecutionPlanEntryView>,
    items: Seq<DriftCleanupRequestItemView>,
    i: int,
)
    requires
        0 <= i < runbook_steps(ready, items).len(),
    ensures
        !runbook_steps(ready, items)[i].safe_to_automate,
        runbook_steps(ready, items)[i].requires_separate_destructive_approval,
        runbook_steps(ready, items)[i].forbidden_actions == forbidden_actions(),
    decreases ready.len(),
{
    let rest = runbook_steps(ready.drop_last(), items);
    if i < rest.len() {
        lemma_steps_are_manual(ready.drop_last(), items, i);
    }
}

/// Every step of a runbook is manual, needs an approval of its own, and lists
/// what must never be done.
pub proof fn law_runbook_steps_are_manual(request: LoadedRequestView, i: int)
    requires
        0 <= i < runbook(request).steps.len(),
    ensures
        !runbook(request).steps[i].safe_to_automate,
        runbook(request).steps[i].requires_separate_destructive_approval,
        runbook(request).steps[i].forbidden_actions == forbidden_actions(),
{
    let plan = execution_plan(request);
    lemma_steps_are_manual(ready_entries(plan.entries), request.document->0.items, i);
}

/// Whether a step of a runbook is about an item.
pub open spec fn step_is_about(
    step: DriftCleanupRunbookStepView,
    item: DriftCleanupRequestItemView,
) -> bool {
    &&& step.request_id == item.request_id
    &&& step.kind == item.kind
    &&& step.target == item.target
    &&& step.owner == item.owner
    &&& step.reason == item.reason
    &&& step.cleanup_strategy == item.cleanup_strategy
    &&& step.exact_resource_id == item.exact_resource_id
    &&& step.approval_expires_at == item.approval_expires_at
    &&& step.backup_snapshot_id == item.backup_snapshot_id
    &&& step.restore_drill_id == item.restore_drill_id
    &&& step.rollback_plan == item.rollback_plan
}

/// Each entry that is ready and whose item is in the request has a step about that item.
pub proof fn law_ready_items_have_steps(
    ready: Seq<DriftCleanupExecutionPlanEntryView>,
    items: Seq<DriftCleanupRequestItemView>,
    i: int,
)
    requires
        0 <= i < ready.len(),
    ensures
        item_with_id(items, ready[i].request_id) matches Some(item) ==> exists|k: int|
            0 <= k < runbook_steps(ready, items).len() && step_is_about(
                #[trigger] runbook_steps(ready, items)[k],
                item,
            ),
        runbook_steps(ready, items).len() <= ready.len(),
    decreases ready.len(),
{
    let d = ready.drop_last();
    let rest = runbook_steps(d, items);
    let all = runbook_steps(ready, items);
    if d.len() > 0 {
        law_ready_items_have_steps(d, items, if i < d.len() {
            i
        } else {
            0
        });
    } else {
        assert(rest =~= Seq::empty());
    }
    assert forall|k: int| 0 <= k < rest.len() implies #[trigger] all[k] == rest[k] by {}
    if item_with_id(items, ready[i].request_id) is Some {
        let item = item_with_id(items, ready[i].request_id)->0;
        if i < d.len() {
            assert(d[i] == ready[i]);
            let k = choose|k: int|
                0 <= k < rest.len() && step_is_about(#[trigger] rest[k], item);
            assert(step_is_about(all[k], item));
        } else {
            assert(ready[i] == ready.last());
            assert(step_is_about(all[rest.len() as int], item));
        }
    }
}

/// A runbook is ready exactly where the plan is and some item that is ready is in it.
pub proof fn law_when_a_runbook_is_ready(request: LoadedRequestView)
    requires
        request.document is Some,
    ensures
        ({
            let plan = execution_plan(request);
            let r = runbook(request);
            &&& r.ok <==> plan.limitations.len() == 0 && plan.status
                == "ready_for_human_execution_request"@ && r.steps.len() > 0
            &&& r.status == "ready_for_manual_cleanup"@ <==> r.ok
            &&& r.status == "blocked"@ <==> plan.limitations.len() > 0 || plan.status
                != "ready_for_human_execution_request"@
            &&& r.ready == r.steps.len()
            &&& r.read_only
        }),
{
    reveal_strlit("blocked");
    reveal_strlit("no_ready_cleanup");
    reveal_strlit("ready_for_manual_cleanup");
    assert("blocked"@.len() == 7 && "no_ready_cleanup"@.len() == 16
        && "ready_for_manual_cleanup"@.len() == 24);
}

/// What is done by hand about an item: where it is to be adopted or ignored instead, nothing
/// is deleted; an unknown strategy gives nothing to do.
pub proof fn law_what_is_done_by_hand(strategy: Option<Seq<char>>)
    ensures
        manual_actions(strategy).contains("do not delete the resource"@) <==> strategy == Some(
            "adopt_instead"@,
        ) || strategy == Some("ignore_instead"@),
        manual_actions(strategy).contains(
            "stop or remove only the exact reviewed resource after approval"@,
        ) <==> strategy == Some("service_owner_cleanup"@),
        manual_actions(strategy).contains(
            "no manual execution step is available for this cleanup_strategy"@,
        ) <==> strategy != Some("adopt_instead"@) && strategy != Some("ignore_instead"@) && strategy
            != Some("compose_owner_cleanup"@) && strategy != Some("service_owner_cleanup"@)
            && strategy != Some("manual_staging_cleanup"@),
{
    reveal_strlit("adopt_instead");
    reveal_strlit("ignore_instead");
    reveal_strlit("compose_owner_cleanup");
    reveal_strlit("service_owner_cleanup");
    reveal_strlit("manual_staging_cleanup");
    assert("adopt_instead"@.len() == 13 && "ignore_instead"@.len() == 14
        && "compose_owner_cleanup"@[0] == 'c' && "service_owner_cleanup"@[0] == 's'
        && "manual_staging_cleanup"@[0] == 'm' && "compose_owner_cleanup"@.len() == 21
        && "service_owner_cleanup"@.len() == 21 && "manual_staging_cleanup"@.len() == 22);
    reveal_strlit("do not delete the resource");
    reveal_strlit("use the registry adopt workflow after confirming ownership");
    reveal_strlit("add an expiring ignore rule with owner, reason, and expiry");
    reveal_strlit("use the owning Compose project's documented cleanup procedure");
    reveal_strlit(
        "avoid broad compose down -v unless the reviewed request explicitly proves data is disposable",
    );
    reveal_strlit("use the owning service's documented cleanup procedure");
    reveal_strlit("stop or remove only the exact reviewed resource after approval");
    reveal_strlit("clean only the exact reviewed staging or test resource");
    reveal_strlit("keep production service resources out of scope");
    reveal_strlit("no manual execution step is available for this cleanup_strategy");
    let a = "do not delete the resource"@;
    let b = "stop or remove only the exact reviewed resource after approval"@;
    let c = "no manual execution step is available for this cleanup_strategy"@;
    assert(a[0] == 'd' && b[0] == 's' && c[0] == 'n');
    let list: Seq<Seq<char>> = if strategy == Some("adopt_instead"@) {
        seq![
            "do not delete the resource"@,
            "use the registry adopt workflow after confirming ownership"@,
        ]
    } else if strategy == Some("ignore_instead"@) {
        seq![
            "do not delete the resource"@,
            "add an expiring ignore rule with owner, reason, and expiry"@,
        ]
    } else if strategy == Some("compose_owner_cleanup"@) {
        seq![
            "use the owning Compose project's documented cleanup procedure"@,
            "avoid broad compose down -v unless the reviewed request explicitly proves data is disposable"@,
        ]
    } else if strategy == Some("service_owner_cleanup"@) {
        seq![
            "use the owning service's documented cleanup procedure"@,
            "stop or remove only the exact reviewed resource after approval"@,
        ]
    } else if strategy == Some("manual_staging_cleanup"@) {
        seq![
            "clean only the exact reviewed staging or test resource"@,
            "keep production service resources out of scope"@,
        ]
    } else {
        seq!["no manual execution step is available for this cleanup_strategy"@]
    };
    assert(equal(manual_actions(strategy), sorted_set(list)));
    law_sorted_set(list);
    assert(list.contains(list[0]));
    assert(list.contains(list[list.len() - 1]));
    assert forall|x: Seq<char>| #[trigger] list.contains(x) implies x == list[0] || x
        == list[list.len() - 1] by {}
    assert("use the registry adopt workflow after confirming ownership"@[0] == 'u');
    assert("add an expiring ignore rule with owner, reason, and expiry"@[0] == 'a');
    assert("use the owning Compose project's documented cleanup procedure"@[0] == 'u');
    assert(
    "avoid broad compose down -v unless the reviewed request explicitly proves data is disposable"@[0]
        == 'a');
    assert("use the owning service's documented cleanup procedure"@[0] == 'u');
    assert("clean only the exact reviewed staging or test resource"@[0] == 'c');
    assert("keep production service resources out of scope"@[0] == 'k');
}

/// What is checked before a cleanup: always that the request and the target still match, and
/// what else the item is: data, a public listener, or running.
pub proof fn law_what_is_checked_before(item: DriftCleanupRequestItemView)
    ensures
        ({
            let c = checks_before(item);
            &&& c.contains("confirm request_id matches "@ + item.request_id)
            &&& c.contains("confirm observed target still matches "@ + item.target)
            &&& item.exact_resource_id is Some && item.exact_resource_id->0.len() > 0 ==> c.contains(
                "confirm exact_resource_id still matches "@ + item.exact_resource_id->0,
            )
            &&& item.data_risk is Some ==> c.contains(
                "confirm backup_snapshot_id and restore_drill_id are still available"@,
            )
            &&& item.public_bind == Some(true) ==> c.contains(
                "confirm public listener ownership and user-visible maintenance impact"@,
            )
            &&& item.running == Some(true) ==> c.contains(
                "confirm running workload can be interrupted by owner"@,
            )
        }),
        item.data_risk is Some ==> checks_after(item).contains(
            "keep backup and restore drill evidence linked to the cleanup record"@,
        ),
{
    let head = Seq::<Seq<char>>::empty().push("confirm request_id matches "@ + item.request_id).push(
        "confirm observed target still matches "@ + item.target,
    ).push(
        "confirm owner approval, maintenance window, and approval expiry are still valid"@,
    ).push(
        "re-run opsctl registry drift cleanup-request execution-plan immediately before cleanup"@,
    );
    let n1 = noted(
        !blank(item.exact_resource_id),
        "confirm exact_resource_id still matches "@ + text_or(item.exact_resource_id, ""@),
    );
    let n2 = noted(
        item.data_risk is Some,
        "confirm backup_snapshot_id and restore_drill_id are still available"@,
    );
    let n3 = noted(
        item.public_bind == Some(true),
        "confirm public listener ownership and user-visible maintenance impact"@,
    );
    let n4 = noted(
        item.running == Some(true),
        "confirm running workload can be interrupted by owner"@,
    );
    let all = head + n1 + n2 + n3 + n4;
    assert(equal(checks_before(item), sorted_set(all)));
    law_sorted_set(all);
    assert(all[0] == "confirm request_id matches "@ + item.request_id);
    assert(all[1] == "confirm observed target still matches "@ + item.target);
    assert(all.contains(all[0]) && all.contains(all[1]));
    assert(sorted_set(all).contains(all[0]) && sorted_set(all).contains(all[1]));
    assert forall|x: Seq<char>|
        n1.contains(x) || n2.contains(x) || n3.contains(x) || n4.contains(x) implies
        #[trigger] all.contains(x) by {
        law_either_list(head, n1, x);
        law_either_list(head + n1, n2, x);
        law_either_list(head + n1 + n2, n3, x);
        law_either_list(head + n1 + n2 + n3, n4, x);
    }
    if item.exact_resource_id is Some && item.exact_resource_id->0.len() > 0 {
        assert(n1[0] == "confirm exact_resource_id still matches "@ + item.exact_resource_id->0);
        assert(n1.contains(n1[0]));
        assert(all.contains(n1[0]));
        assert(sorted_set(all).contains(n1[0]));
    }
    if item.data_risk is Some {
        assert(n2.contains(n2[0]));
        assert(all.contains(n2[0]));
        assert(sorted_set(all).contains(n2[0]));
        let before = Seq::<Seq<char>>::empty().push(
            "re-run opsctl registry drift list for the exact target"@,
        ).push(
            "confirm no new drift was introduced for ports, containers, volumes, compose projects, or systemd units"@,
        ).push("write the result into the deployment or cleanup journal"@);
        let last = noted(
            true,
            "keep backup and restore drill evidence linked to the cleanup record"@,
        );
        assert(equal(checks_after(item), sorted_set(before + last)));
        law_sorted_set(before + last);
        law_either_list(
            before,
            last,
            "keep backup and restore drill evidence linked to the cleanup record"@,
        );
        assert(last[0]
            == "keep backup and restore drill evidence linked to the cleanup record"@);
    }
    if item.public_bind == Some(true) {
        assert(n3.contains(n3[0]));
        assert(all.contains(n3[0]));
        assert(sorted_set(all).contains(n3[0]));
    }
    if item.running == Some(true) {
        assert(n4.contains(n4[0]));
        assert(all.contains(n4[0]));
        assert(sorted_set(all).contains(n4[0]));
    }
}

} // verus!
