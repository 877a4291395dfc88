//! All drift at a glance, and the way to settle it.

use vstd::prelude::*;
use crate::drift::candidates::{cleanup_build, cleanup_plan, drift_cleanup_plan};
use crate::drift::findings::{drift_list, drift_report_spec, no_filter};
use crate::drift::groups::{drift_groups, drift_groups_spec, drift_suggest, drift_suggest_spec};
use crate::drift::types::{
    DriftCleanupCandidate, DriftCleanupCandidateView, DriftCleanupPlanReportView,
    DriftGovernancePriorityGroup, DriftGovernancePriorityGroupView, DriftGovernanceReport,
    DriftGovernanceReportView, DriftGovernanceWorkflowStep, DriftGovernanceWorkflowStepView,
    DriftGroup, DriftGroupView, DriftGroupsReportView, DriftReportView, DriftSuggestReportView,
    DriftSuggestion, DriftSuggestionView,
};
use crate::drift::verify::is_set;
use crate::each::{choose_each, count_where, keep_front};
use crate::list::{
    Ranked, chosen, extend, front, law_ranked, law_tally_agrees, lemma_sorted_by_keeps, less, note,
    noted, pair_lt, rank, sort_stable, sorted_by, sorted_set, tally, unique_sorted,
};
use crate::registry::Registry;
use crate::scan::Observation;
use crate::text::{contains, holds, same};

verus! {

broadcast use {vstd::seq::group_seq_axioms, vstd::string::group_string_axioms};

/// The risk of a group.
pub open spec fn group_risk(kind: Seq<char>, group: Seq<char>) -> Seq<char> {
    if kind == "port"@ && group == "public-bind"@ {
        "high: public listener; confirm owner and exposure before adopting or cleanup"@
    } else if kind == "port"@ {
        "medium: listener ownership must be confirmed by process/service mapping"@
    } else if kind == "docker-volume"@ {
        "high: data may exist; require backup and restore evidence before cleanup"@
    } else if kind == "docker-container"@ || kind == "compose-project"@ {
        "high: running workload may be production; confirm owner before adopt or cleanup"@
    } else if kind == "systemd-unit"@ {
        "medium: distinguish app-owned units from base operating-system services"@
    } else {
        "medium: manual review required before registry changes"@
    }
}

/// The risk of a group.
pub fn drift_governance_group_risk_hint(kind: &str, group: &str) -> (r: &'static str)
    ensures
        r@ == group_risk(kind@, group@),
{
    if same(kind, "port") && same(group, "public-bind") {
        "high: public listener; confirm owner and exposure before adopting or cleanup"
    } else if same(kind, "port") {
        "medium: listener ownership must be confirmed by process/service mapping"
    } else if same(kind, "docker-volume") {
        "high: data may exist; require backup and restore evidence before cleanup"
    } else if same(kind, "docker-container") || same(kind, "compose-project") {
        "high: running workload may be production; confirm owner before adopt or cleanup"
    } else if same(kind, "systemd-unit") {
        "medium: distinguish app-owned units from base operating-system services"
    } else {
        "medium: manual review required before registry changes"
    }
}

impl Ranked for DriftGovernancePriorityGroup {
    /// Most active findings first, then by kind, then by group.
    open spec fn before(
        a: DriftGovernancePriorityGroupView,
        b: DriftGovernancePriorityGroupView,
    ) -> bool {
        b.active < a.active || a.active == b.active && pair_lt((a.kind, a.group), (b.kind, b.group))
    }

    fn ranks_before(&self, other: &Self) -> (r: bool) {
        other.active < self.active || (self.active == other.active && (less(
            &self.kind,
            &other.kind,
        ) || (same(&self.kind, &other.kind) && less(&self.group, &other.group))))
    }
}

/// A group as the report shows it, where it has active findings.
pub open spec fn priority_group(group: DriftGroupView) -> Option<DriftGovernancePriorityGroupView> {
    if group.active > 0 {
        Some(
            DriftGovernancePriorityGroupView {
                kind: group.kind,
                group: group.group,
                active: group.active,
                ignored: group.ignored,
                suggested_next_step: group.suggested_next_step,
                risk_hint: group_risk(group.kind, group.group),
                sample_targets: group.sample_targets,
            },
        )
    } else {
        None
    }
}

/// The ten groups with the most active findings.
pub open spec fn priority_groups(groups: Seq<DriftGroupView>) -> Seq<
    DriftGovernancePriorityGroupView,
> {
    front(
        sorted_by(
            chosen(groups, |g: DriftGroupView| priority_group(g)),
            rank::<DriftGovernancePriorityGroup>(),
        ),
        10,
    )
}

/// The ten groups with the most active findings.
pub fn list_priority_groups(groups: &Vec<DriftGroup>) -> (r: Vec<DriftGovernancePriorityGroup>)
    ensures
        r.deep_view() == priority_groups(groups.deep_view()),
{
    keep_front(
        sort_stable(
            choose_each(
                groups,
                |g: &DriftGroup| -> (r: Option<DriftGovernancePriorityGroup>)
                    ensures
                        r.deep_view() == priority_group(g.deep_view())
                    {
                        if g.active > 0 {
                            Some(
                                DriftGovernancePriorityGroup {
                                    kind: g.kind.clone(),
                                    group: g.group.clone(),
                                    active: g.active,
                                    ignored: g.ignored,
                                    suggested_next_step: g.suggested_next_step.clone(),
                                    risk_hint: drift_governance_group_risk_hint(
                                        &g.kind,
                                        &g.group,
                                    ).to_string(),
                                    sample_targets: g.sample_targets.clone(),
                                },
                            )
                        } else {
                            None
                        }
                    },
                Ghost(|g: DriftGroupView| priority_group(g)),
            ),
        ),
        10,
    )
}

/// The kinds of suggestions that the report counts.
#[derive(Debug, Clone, Copy)]
pub enum SuggestedAction {
    Adopt,
    Ignore,
    Cleanup,
    Other,
}

/// Whether a suggestion is of this kind.
pub open spec fn suggests(action: Seq<char>, kind: SuggestedAction) -> bool {
    match kind {
        SuggestedAction::Adopt => holds(action, "adopt"@),
        SuggestedAction::Ignore => holds(action, "ignore"@),
        SuggestedAction::Cleanup => holds(action, "cleanup"@),
        SuggestedAction::Other => !holds(action, "adopt"@) && !holds(action, "ignore"@) && !holds(
            action,
            "cleanup"@,
        ),
    }
}

/// How many suggestions are of this kind.
pub open spec fn suggestions_with(
    suggestions: Seq<DriftSuggestionView>,
    kind: SuggestedAction,
) -> nat {
    tally(suggestions, |s: DriftSuggestionView| suggests(s.action, kind))
}

/// How many suggestions are of this kind.
pub fn count_suggestions(suggestions: &Vec<DriftSuggestion>, kind: SuggestedAction) -> (r: usize)
    ensures
        r == suggestions_with(suggestions.deep_view(), kind),
{
    count_where(
        suggestions,
        |s: &DriftSuggestion| -> (b: bool)
            ensures
                b == suggests(s.deep_view().action, kind)
            {
                match kind {
                    SuggestedAction::Adopt => contains(&s.action, "adopt"),
                    SuggestedAction::Ignore => contains(&s.action, "ignore"),
                    SuggestedAction::Cleanup => contains(&s.action, "cleanup"),
                    SuggestedAction::Other => !contains(&s.action, "adopt") && !contains(
                        &s.action,
                        "ignore",
                    ) && !contains(&s.action, "cleanup"),
                }
            },
        Ghost(|s: DriftSuggestionView| suggests(s.action, kind)),
    )
}

/// The traits of cleanup candidates that the report counts.
#[derive(Debug, Clone, Copy)]
pub enum CandidateTrait {
    Public,
    DataRisk,
    HighRisk,
}

/// Whether a candidate counts.
pub open spec fn candidate_has(c: DriftCleanupCandidateView, t: CandidateTrait) -> bool {
    match t {
        CandidateTrait::Public => c.public_bind == Some(true),
        CandidateTrait::DataRisk => c.data_risk is Some,
        CandidateTrait::HighRisk => c.risk == "high"@,
    }
}

/// How many candidates count.
pub open spec fn candidates_with(
    candidates: Seq<DriftCleanupCandidateView>,
    t: CandidateTrait,
) -> nat {
    tally(candidates, |c: DriftCleanupCandidateView| candidate_has(c, t))
}

/// How many candidates count.
pub fn count_candidate_trait(candidates: &Vec<DriftCleanupCandidate>, t: CandidateTrait) -> (r:
    usize)
    ensures
        r == candidates_with(candidates.deep_view(), t),
{
    count_where(
        candidates,
        |c: &DriftCleanupCandidate| -> (b: bool)
            ensures
                b == candidate_has(c.deep_view(), t)
            {
                match t {
                    CandidateTrait::Public => is_set(c.public_bind),
                    CandidateTrait::DataRisk => c.data_risk.is_some(),
                    CandidateTrait::HighRisk => same(&c.risk, "high"),
                }
            },
        Ghost(|c: DriftCleanupCandidateView| candidate_has(c, t)),
    )
}

/// What to do next about drift.
pub open spec fn governance_next_actions(active: nat, candidates: nat, public: nat, data: nat) -> Seq<Seq<char>> {
    Seq::<Seq<char>>::empty() + noted(
        active == 0,
        "observed drift is clean; keep scheduled scans and timer alerts enabled"@,
    ) + noted(
        active > 0,
        "export a grouped review document with opsctl registry drift review export"@,
    ) + noted(
        active > 0,
        "classify each group as adopt, ignore, needs_cleanup, or unknown before changing registry files"@,
    ) + noted(
        active > 0 && candidates > 0,
        "export a cleanup request with opsctl registry drift cleanup-request export before discussing any cleanup"@,
    ) + noted(
        active > 0 && public > 0,
        "public listeners require owner confirmation and a maintenance window before any cleanup request can be execution-ready"@,
    ) + noted(
        active > 0 && data > 0,
        "data-bearing resources require backup snapshot and restore drill evidence before cleanup"@,
    )
}

/// What to do next about drift.
pub fn drift_governance_next_actions(active: usize, candidates: usize, public: usize, data: usize) -> (r: Vec<String>)
    ensures
        r.deep_view() == governance_next_actions(active as nat, candidates as nat, public as nat, data as nat),
{
    let mut list: Vec<String> = Vec::new();
    proof {
        assert(list.deep_view() =~= Seq::<Seq<char>>::empty());
    }
    note(
        &mut list,
        active == 0,
        "observed drift is clean; keep scheduled scans and timer alerts enabled",
    );
    note(
        &mut list,
        active > 0,
        "export a grouped review document with opsctl registry drift review export",
    );
    note(
        &mut list,
        active > 0,
        "classify each group as adopt, ignore, needs_cleanup, or unknown before changing registry files",
    );
    note(
        &mut list,
        active > 0 && candidates > 0,
        "export a cleanup request with opsctl registry drift cleanup-request export before discussing any cleanup",
    );
    note(
        &mut list,
        active > 0 && public > 0,
        "public listeners require owner confirmation and a maintenance window before any cleanup request can be execution-ready",
    );
    note(
        &mut list,
        active > 0 && data > 0,
        "data-bearing resources require backup snapshot and restore drill evidence before cleanup",
    );
    list
}

/// Commands that change nothing.
pub open spec fn governance_safe_commands() -> Seq<Seq<char>> {
    seq![
        "opsctl registry drift list --json"@,
        "opsctl registry drift groups --json"@,
        "opsctl registry drift ownership --json"@,
        "opsctl registry drift governance --json"@,
        "opsctl registry drift review export"@,
        "opsctl registry drift review apply drift-review.yml --json"@,
        "opsctl registry drift cleanup-request export"@,
        "opsctl registry drift cleanup-request dashboard drift-cleanup-request.yml --json"@,
    ]
}

/// Commands that change nothing.
pub fn drift_governance_safe_commands() -> (r: Vec<String>)
    ensures
        r.deep_view() == governance_safe_commands(),
{
    let list: Vec<String> = vec![
        "opsctl registry drift list --json".to_string(),
        "opsctl registry drift groups --json".to_string(),
        "opsctl registry drift ownership --json".to_string(),
        "opsctl registry drift governance --json".to_string(),
        "opsctl registry drift review export".to_string(),
        "opsctl registry drift review apply drift-review.yml --json".to_string(),
        "opsctl registry drift cleanup-request export".to_string(),
        "opsctl registry drift cleanup-request dashboard drift-cleanup-request.yml --json".to_string(),
    ];
    proof {
        assert(list.deep_view() =~= governance_safe_commands());
    }
    list
}

/// A step of the workflow.
pub open spec fn workflow_step(
    order: u32,
    name: Seq<char>,
    command: Seq<char>,
    writes_registry: bool,
    human: bool,
    detail: Seq<char>,
) -> DriftGovernanceWorkflowStepView {
    DriftGovernanceWorkflowStepView {
        order,
        name,
        command,
        writes_registry,
        requires_execute: writes_registry,
        human_decision_required: human,
        detail,
    }
}

/// A step of the workflow. A step that writes the registry has to be executed
/// explicitly.
pub fn build_workflow_step(
    order: u32,
    name: &str,
    command: &str,
    writes_registry: bool,
    human: bool,
    detail: &str,
) -> (r: DriftGovernanceWorkflowStep)
    ensures
        r.deep_view() == workflow_step(order, name@, command@, writes_registry, human, detail@),
{
    DriftGovernanceWorkflowStep {
        order,
        name: name.to_string(),
        command: command.to_string(),
        writes_registry,
        requires_execute: writes_registry,
        human_decision_required: human,
        detail: detail.to_string(),
    }
}

/// The way from drift to a settled registry.
pub open spec fn review_workflow(active: nat) -> Seq<DriftGovernanceWorkflowStepView> {
    if active == 0 {
        seq![
            workflow_step(
                1,
                "monitor"@,
                "opsctl registry drift list --json"@,
                false,
                false,
                "no active drift; keep using drift list/governance as a read-only fact source"@,
            ),
        ]
    } else {
        seq![
            workflow_step(
                1,
                "export_review"@,
                "opsctl registry drift review export > drift-review.yml"@,
                false,
                true,
                "create a grouped review document with ownership evidence and suggested actions"@,
            ),
            workflow_step(
                2,
                "edit_review"@,
                "opsctl tui"@,
                false,
                true,
                "mark item-level adopt, ignore, needs_cleanup, or unknown decisions; TUI writes a review YAML draft only"@,
            ),
            workflow_step(
                3,
                "dry_run_apply"@,
                "opsctl registry drift review apply drift-review.yml --json"@,
                false,
                true,
                "preview registry changes and blocked items before any write"@,
            ),
            workflow_step(
                4,
                "apply_review"@,
                "opsctl registry drift review apply drift-review.yml --execute"@,
                true,
                true,
                "write only explicit adopt/ignore decisions; cleanup remains a separate request workflow"@,
            ),
            workflow_step(
                5,
                "cleanup_request"@,
                "opsctl registry drift cleanup-request export > drift-cleanup-request.yml"@,
                false,
                true,
                "create a separate cleanup review document for resources not adopted or ignored"@,
            ),
        ]
    }
}

/// The way from drift to a settled registry.
pub fn drift_governance_review_workflow(active: usize) -> (r: Vec<DriftGovernanceWorkflowStep>)
    ensures
        r.deep_view() == review_workflow(active as nat),
{
    let steps: Vec<DriftGovernanceWorkflowStep> = if active == 0 {
        vec![
            build_workflow_step(
                1,
                "monitor",
                "opsctl registry drift list --json",
                false,
                false,
                "no active drift; keep using drift list/governance as a read-only fact source",
            ),
        ]
    } else {
        vec![
            build_workflow_step(
                1,
                "export_review",
                "opsctl registry drift review export > drift-review.yml",
                false,
                true,
                "create a grouped review document with ownership evidence and suggested actions",
            ),
            build_workflow_step(
                2,
                "edit_review",
                "opsctl tui",
                false,
                true,
                "mark item-level adopt, ignore, needs_cleanup, or unknown decisions; TUI writes a review YAML draft only",
            ),
            build_workflow_step(
                3,
                "dry_run_apply",
                "opsctl registry drift review apply drift-review.yml --json",
                false,
                true,
                "preview registry changes and blocked items before any write",
            ),
            build_workflow_step(
                4,
                "apply_review",
                "opsctl registry drift review apply drift-review.yml --execute",
                true,
                true,
                "write only explicit adopt/ignore decisions; cleanup remains a separate request workflow",
            ),
            build_workflow_step(
                5,
                "cleanup_request",
                "opsctl registry drift cleanup-request export > drift-cleanup-request.yml",
                false,
                true,
                "create a separate cleanup review document for resources not adopted or ignored",
            ),
        ]
    };
    proof {
        assert(steps.deep_view() =~= review_workflow(active as nat));
    }
    steps
}

/// All drift at a glance.
pub open spec fn governance(
    drift: DriftReportView,
    groups: DriftGroupsReportView,
    suggestions: DriftSuggestReportView,
    cleanup: DriftCleanupPlanReportView,
) -> DriftGovernanceReportView {
    let limitations = drift.limitations + groups.limitations + suggestions.limitations
        + cleanup.limitations;
    let public = candidates_with(cleanup.candidates, CandidateTrait::Public);
    let data = candidates_with(cleanup.candidates, CandidateTrait::DataRisk);
    DriftGovernanceReportView {
        ok: limitations.len() == 0 && drift.active_findings == 0,
        read_only: true,
        status: if limitations.len() > 0 {
            "blocked"@
        } else if drift.active_findings > 0 {
            "review_required"@
        } else {
            "clean"@
        },
        human_decision_required: drift.active_findings > 0,
        active_findings: drift.active_findings,
        ignored_findings: drift.ignored_findings,
        groups: groups.groups.len(),
        cleanup_candidates: cleanup.candidates.len(),
        adopt_suggestions: suggestions_with(suggestions.suggestions, SuggestedAction::Adopt),
        ignore_suggestions: suggestions_with(suggestions.suggestions, SuggestedAction::Ignore),
        cleanup_suggestions: suggestions_with(suggestions.suggestions, SuggestedAction::Cleanup),
        unknown_suggestions: suggestions_with(suggestions.suggestions, SuggestedAction::Other),
        public_cleanup_candidates: public,
        data_risk_cleanup_candidates: data,
        high_risk_cleanup_candidates: candidates_with(
            cleanup.candidates,
            CandidateTrait::HighRisk,
        ),
        priority_groups: priority_groups(groups.groups),
        review_workflow: review_workflow(drift.active_findings),
        safe_commands: governance_safe_commands(),
        suggested_next_actions: governance_next_actions(
            drift.active_findings,
            cleanup.candidates.len(),
            public,
            data,
        ),
        limitations: sorted_set(limitations),
    }
}

/// All drift at a glance.
pub fn drift_governance(registry: &Registry, observation: &Observation) -> (r:
    DriftGovernanceReport)
    ensures
        ({
            let drift = drift_report_spec(
                registry.deep_view(),
                observation.deep_view(),
                no_filter(),
            );
            r.deep_view() == governance(
                drift,
                drift_groups_spec(drift),
                drift_suggest_spec(drift),
                cleanup_plan(cleanup_build(registry.deep_view(), observation.deep_view())),
            )
        }),
{
    let drift = drift_list(registry, observation);
    let groups = drift_groups(registry, observation);
    let suggestions = drift_suggest(registry, observation);
    let cleanup = drift_cleanup_plan(registry, observation);
    let mut limitations = drift.limitations;
    extend(&mut limitations, &groups.limitations);
    extend(&mut limitations, &suggestions.limitations);
    extend(&mut limitations, &cleanup.limitations);
    proof {
        assert(limitations.deep_view().len() == limitations@.len());
        assert(groups.groups.deep_view().len() == groups.groups@.len());
        assert(cleanup.candidates.deep_view().len() == cleanup.candidates@.len());
    }
    let active = drift.active_findings;
    let candidates = cleanup.candidates.len();
    let public = count_candidate_trait(&cleanup.candidates, CandidateTrait::Public);
    let data = count_candidate_trait(&cleanup.candidates, CandidateTrait::DataRisk);
    let limited = limitations.len() > 0;
    let status = if limited {
        "blocked"
    } else if active > 0 {
        "review_required"
    } else {
        "clean"
    };
    DriftGovernanceReport {
        ok: !limited && active == 0,
        read_only: true,
        status: status.to_string(),
        human_decision_required: active > 0,
        active_findings: active,
        ignored_findings: drift.ignored_findings,
        groups: groups.groups.len(),
        cleanup_candidates: candidates,
        adopt_suggestions: count_suggestions(&suggestions.suggestions, SuggestedAction::Adopt),
        ignore_suggestions: count_suggestions(&suggestions.suggestions, SuggestedAction::Ignore),
        cleanup_suggestions: count_suggestions(
            &suggestions.suggestions,
            SuggestedAction::Cleanup,
        ),
        unknown_suggestions: count_suggestions(&suggestions.suggestions, SuggestedAction::Other),
        public_cleanup_candidates: public,
        data_risk_cleanup_candidates: data,
        high_risk_cleanup_candidates: count_candidate_trait(
            &cleanup.candidates,
            CandidateTrait::HighRisk,
        ),
        priority_groups: list_priority_groups(&groups.groups),
        review_workflow: drift_governance_review_workflow(active),
        safe_commands: drift_governance_safe_commands(),
        suggested_next_actions: drift_governance_next_actions(active, candidates, public, data),
        limitations: unique_sorted(limitations),
    }
}

/// Only one step of the workflow writes the registry, and it has to be executed
/// explicitly.
pub proof fn law_only_apply_writes_the_registry(active: nat, i: int)
    requires
        0 <= i < review_workflow(active).len(),
    ensures
        review_workflow(active)[i].order == i + 1,
        review_workflow(active)[i].writes_registry ==> review_workflow(active)[i].order == 4
            && review_workflow(active)[i].requires_execute
            && review_workflow(active)[i].human_decision_required,
{
}

/// Drift is clean exactly where nothing is reported and nothing is wrong; a person has to
/// decide where something is reported. The counts are those of the candidates.
pub proof fn law_governance(
    drift: DriftReportView,
    groups: DriftGroupsReportView,
    suggestions: DriftSuggestReportView,
    cleanup: DriftCleanupPlanReportView,
)
    ensures
        ({
            let g = governance(drift, groups, suggestions, cleanup);
            let fine = drift.limitations.len() == 0 && groups.limitations.len() == 0
                && suggestions.limitations.len() == 0 && cleanup.limitations.len() == 0;
            &&& g.ok <==> fine && drift.active_findings == 0
            &&& g.status == "blocked"@ <==> !fine
            &&& g.status == "review_required"@ <==> fine && drift.active_findings > 0
            &&& g.status == "clean"@ <==> g.ok
            &&& g.human_decision_required <==> drift.active_findings > 0
            &&& g.read_only
            &&& g.active_findings == drift.active_findings
            &&& g.ignored_findings == drift.ignored_findings
            &&& g.cleanup_candidates == cleanup.candidates.len()
            &&& g.public_cleanup_candidates == tally(
                cleanup.candidates,
                |c: DriftCleanupCandidateView| c.public_bind == Some(true),
            )
            &&& g.data_risk_cleanup_candidates == tally(
                cleanup.candidates,
                |c: DriftCleanupCandidateView| c.data_risk is Some,
            )
            &&& g.high_risk_cleanup_candidates == tally(
                cleanup.candidates,
                |c: DriftCleanupCandidateView| c.risk == "high"@,
            )
            &&& g.priority_groups.len() <= 10
        }),
{
    reveal_strlit("blocked");
    reveal_strlit("review_required");
    reveal_strlit("clean");
    assert("blocked"@.len() == 7 && "review_required"@.len() == 15 && "clean"@.len() == 5);
    law_tally_agrees(
        cleanup.candidates,
        |c: DriftCleanupCandidateView| candidate_has(c, CandidateTrait::Public),
        |c: DriftCleanupCandidateView| c.public_bind == Some(true),
    );
    law_tally_agrees(
        cleanup.candidates,
        |c: DriftCleanupCandidateView| candidate_has(c, CandidateTrait::DataRisk),
        |c: DriftCleanupCandidateView| c.data_risk is Some,
    );
    law_tally_agrees(
        cleanup.candidates,
        |c: DriftCleanupCandidateView| candidate_has(c, CandidateTrait::HighRisk),
        |c: DriftCleanupCandidateView| c.risk == "high"@,
    );
}

/// A group with something to be decided on is among those that come first, as long as
/// there are no more than ten; one with nothing is not.
pub proof fn law_priority_groups(groups: Seq<DriftGroupView>, i: int)
    requires
        0 <= i < groups.len(),
    ensures
        priority_group(groups[i]) is Some <==> groups[i].active > 0,
        priority_group(groups[i]) matches Some(p) ==> p.kind == groups[i].kind && p.group
            == groups[i].group && p.active == groups[i].active && p.ignored == groups[i].ignored
            && p.sample_targets == groups[i].sample_targets,
        priority_groups(groups).len() == (if tally(groups, |g: DriftGroupView| g.active > 0) <= 10 {
            tally(groups, |g: DriftGroupView| g.active > 0)
        } else {
            10
        }),
{
    let f = |g: DriftGroupView| priority_group(g);
    let s = chosen(groups, f);
    lemma_sorted_by_keeps(
        s,
        rank::<DriftGovernancePriorityGroup>(),
        |p: DriftGovernancePriorityGroupView| true,
    );
    lemma_active_groups(groups);
}

proof fn lemma_active_groups(groups: Seq<DriftGroupView>)
    ensures
        chosen(groups, |g: DriftGroupView| priority_group(g)).len() == tally(
            groups,
            |g: DriftGroupView| g.active > 0,
        ),
    decreases groups.len(),
{
    if groups.len() > 0 {
        lemma_active_groups(groups.drop_last());
    }
}

/// The groups that come first are those with the most active findings; at most ten are
/// shown.
pub proof fn law_busiest_groups_come_first(groups: Seq<DriftGroupView>, i: int, j: int)
    requires
        0 <= i < j < priority_groups(groups).len(),
    ensures
        priority_groups(groups)[j].active <= priority_groups(groups)[i].active,
        priority_groups(groups).len() <= 10,
{
    let s = chosen(groups, |g: DriftGroupView| priority_group(g));
    let before = rank::<DriftGovernancePriorityGroup>();
    lemma_sorted_by_keeps(s, before, |x: DriftGovernancePriorityGroupView| true);
    law_ranked(
        s,
        before,
        |x: DriftGovernancePriorityGroupView| -(x.active as int),
        |x: DriftGovernancePriorityGroupView| (x.kind, x.group),
        i,
        j,
    );
}

/// Where nothing drifted, there is one step, which only looks; else there are five, and only
/// the fourth writes the registry.
pub proof fn law_workflows(active: nat)
    ensures
        ({
            let w = review_workflow(active);
            &&& active == 0 ==> w.len() == 1 && !w[0].writes_registry
            &&& active > 0 ==> w.len() == 5 && w[3].writes_registry && !w[0].writes_registry
                && !w[1].writes_registry && !w[2].writes_registry && !w[4].writes_registry
        }),
{
}

/// What is to be done next: where nothing drifted, only to keep looking; else to export and
/// classify, and more for candidates, public ones, and those with data.
pub proof fn law_what_governance_asks_next(active: nat, candidates: nat, public: nat, data: nat)
    ensures
        governance_next_actions(active, candidates, public, data).len() == if active == 0 {
            1int
        } else {
            2 + (if candidates > 0 {
                1int
            } else {
                0
            }) + (if public > 0 {
                1int
            } else {
                0
            }) + (if data > 0 {
                1int
            } else {
                0
            })
        },
{
}

} // verus!
