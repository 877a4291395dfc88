//! Drift grouped by kind and owner hint, and suggested next steps.

use vstd::prelude::*;
use crate::drift::findings::{
    drift_list, drift_report_spec, finding_adopt_kind, finding_adopt_kind_spec,
    lemma_finding_codes, no_filter,
};
use crate::drift::types::{
    DriftFinding, DriftFindingView, DriftGroup, DriftGroupView, DriftGroupsReport,
    DriftGroupsReportView, DriftReport, DriftReportView, DriftSuggestReport,
    DriftSuggestReportView, DriftSuggestion, DriftSuggestionView, IgnoredDriftFindingView,
};
use crate::list::{
    Ranked, chosen, law_chosen, law_pairs_are_ordered, law_ranked, law_sorted_set,
    law_sorted_values_keep_all, law_tally, law_tally_agrees, lemma_place, lemma_sorted_by_keeps,
    less, pair_lt, rank, sort_stable, sorted_by, sorted_set, sorted_values, tally, text_lt,
    unique_ranked, unique_sorted, with_text,
};
use crate::registry::Registry;
use crate::scan::Observation;
use crate::text::{
    as_text, begins, cat2, cat3, cat5, ends, first_of, lead_until, leading, lemma_first_of,
    or_text, parted, same, shell_arg_hint, shell_arg_hint_spec, split_once, starts_with, step,
    text_or,
};

verus! {

broadcast use {vstd::seq::group_seq_axioms, vstd::string::group_string_axioms};

// ---------------------------------------------------------------------------
// Groups
// ---------------------------------------------------------------------------

/// The text before the first of `stops`, or all of it where that is empty.
pub open spec fn lead_or_all(target: Seq<char>, stops: Seq<char>) -> Seq<char> {
    let lead = leading(target, stops);
    if lead.len() == 0 {
        target
    } else {
        lead
    }
}

/// The text before the first of `stops`, or all of it where that is empty.
pub fn lead_or_whole(target: &str, stops: &str) -> (r: String)
    ensures
        r@ == lead_or_all(target@, stops@),
{
    let lead = lead_until(target, stops);
    if lead.as_str().is_empty() {
        target.to_string()
    } else {
        lead
    }
}

/// The group that a target of this kind belongs to.
pub open spec fn drift_group_key_spec(kind: Seq<char>, target: Seq<char>) -> Seq<char> {
    if kind == "docker-volume"@ {
        match parted(target, '_') {
            Some((prefix, _)) => prefix,
            None => target,
        }
    } else if kind == "docker-container"@ || kind == "compose-project"@ {
        lead_or_all(target, "-_"@)
    } else if kind == "port"@ {
        if begins(target, "127."@) || begins(target, "[::1]"@) {
            "localhost"@
        } else if begins(target, "0.0.0.0"@) || begins(target, "[::]"@) {
            "public-bind"@
        } else {
            "private-or-specific-bind"@
        }
    } else if kind == "systemd-unit"@ {
        lead_or_all(target, "@-."@)
    } else {
        "review"@
    }
}

/// The group that a target of this kind belongs to.
pub fn drift_group_key(kind: &str, target: &str) -> (r: String)
    ensures
        r@ == drift_group_key_spec(kind@, target@),
{
    if same(kind, "docker-volume") {
        match split_once(target, '_') {
            Some((prefix, _)) => prefix,
            None => target.to_string(),
        }
    } else if same(kind, "docker-container") || same(kind, "compose-project") {
        lead_or_whole(target, "-_")
    } else if same(kind, "port") {
        if starts_with(target, "127.") || starts_with(target, "[::1]") {
            "localhost".to_string()
        } else if starts_with(target, "0.0.0.0") || starts_with(target, "[::]") {
            "public-bind".to_string()
        } else {
            "private-or-specific-bind".to_string()
        }
    } else if same(kind, "systemd-unit") {
        lead_or_whole(target, "@-.")
    } else {
        "review".to_string()
    }
}

/// What to do next with a group.
pub open spec fn group_next_step_spec(kind: Seq<char>, active: nat) -> Seq<char> {
    if active == 0 {
        "no active drift in this group"@
    } else if kind == "docker-volume"@ {
        "review ownership and backup policy; adopt owned volumes or plan safe cleanup for unused historical volumes"@
    } else if kind == "docker-container"@ || kind == "compose-project"@ {
        "review project ownership; adopt running production resources or ignore confirmed test/system resources"@
    } else if kind == "port"@ {
        "confirm listener owner; adopt application ports, close unexpected public listeners, or add expiring ignore for system ports"@
    } else if kind == "systemd-unit"@ {
        "adopt app-owned units or add expiring ignore rules for base operating-system services"@
    } else {
        "review manually before changing registry facts"@
    }
}

/// What to do next with a group.
pub fn group_next_step(kind: &str, active: usize) -> (r: String)
    ensures
        r@ == group_next_step_spec(kind@, active as nat),
{
    if active == 0 {
        "no active drift in this group".to_string()
    } else if same(kind, "docker-volume") {
        "review ownership and backup policy; adopt owned volumes or plan safe cleanup for unused historical volumes".to_string()
    } else if same(kind, "docker-container") || same(kind, "compose-project") {
        "review project ownership; adopt running production resources or ignore confirmed test/system resources".to_string()
    } else if same(kind, "port") {
        "confirm listener owner; adopt application ports, close unexpected public listeners, or add expiring ignore for system ports".to_string()
    } else if same(kind, "systemd-unit") {
        "adopt app-owned units or add expiring ignore rules for base operating-system services".to_string()
    } else {
        "review manually before changing registry facts".to_string()
    }
}

/// A finding, active or ignored, with the group it falls into.
#[derive(Debug)]
pub struct GroupedFinding {
    pub kind: String,
    pub group: String,
    pub target: Option<String>,
    pub code: String,
    pub active: bool,
}

/// View of [`GroupedFinding`].
#[verifier::ext_equal]
pub struct GroupedFindingView {
    pub kind: Seq<char>,
    pub group: Seq<char>,
    pub target: Option<Seq<char>>,
    pub code: Seq<char>,
    pub active: bool,
}

impl DeepView for GroupedFinding {
    type V = GroupedFindingView;

    open spec fn deep_view(&self) -> GroupedFindingView {
        GroupedFindingView {
            kind: self.kind.deep_view(),
            group: self.group.deep_view(),
            target: self.target.deep_view(),
            code: self.code.deep_view(),
            active: self.active,
        }
    }
}

impl Clone for GroupedFinding {
    fn clone(&self) -> (r: Self)
        ensures
            r.deep_view() == self.deep_view(),
    {
        GroupedFinding {
            kind: self.kind.clone(),
            group: self.group.clone(),
            target: self.target.clone(),
            code: self.code.clone(),
            active: self.active,
        }
    }
}

/// A finding with the group it falls into.
pub open spec fn grouped_finding(
    code: Seq<char>,
    target: Option<Seq<char>>,
    active: bool,
) -> GroupedFindingView {
    let kind = text_or(finding_adopt_kind_spec(code), "review"@);
    GroupedFindingView {
        kind,
        group: drift_group_key_spec(kind, text_or(target, "unknown"@)),
        target,
        code,
        active,
    }
}

/// A finding with the group it falls into.
pub fn group_finding(code: &str, target: &Option<String>, active: bool) -> (r: GroupedFinding)
    ensures
        r.deep_view() == grouped_finding(code@, target.deep_view(), active),
{
    let kind = or_text(finding_adopt_kind(code), "review");
    GroupedFinding {
        kind: kind.to_string(),
        group: drift_group_key(kind, or_text(as_text(target), "unknown")),
        target: target.clone(),
        code: code.to_string(),
        active,
    }
}

/// All findings of a report with their groups, the active ones first.
pub open spec fn grouped_findings(report: DriftReportView) -> Seq<GroupedFindingView> {
    report.findings.map_values(|f: DriftFindingView| grouped_finding(f.code, f.target, true))
        + report.ignored.map_values(
        |f: IgnoredDriftFindingView| grouped_finding(f.code, f.target, false),
    )
}

/// All findings of a report with their groups, the active ones first.
pub fn group_findings(report: &DriftReport) -> (r: Vec<GroupedFinding>)
    ensures
        r.deep_view() == grouped_findings(report.deep_view()),
{
    let mut out: Vec<GroupedFinding> = Vec::new();
    let ghost active = report.deep_view().findings.map_values(
        |f: DriftFindingView| grouped_finding(f.code, f.target, true),
    );
    let ghost hidden = report.deep_view().ignored.map_values(
        |f: IgnoredDriftFindingView| grouped_finding(f.code, f.target, false),
    );
    let mut i: usize = 0;
    while i < report.findings.len()
        invariant
            i <= report.findings@.len(),
            out@.len() == i,
            active == report.deep_view().findings.map_values(
                |f: DriftFindingView| grouped_finding(f.code, f.target, true),
            ),
            forall|j: int| 0 <= j < i ==> (#[trigger] out@[j]).deep_view() == active[j],
        decreases report.findings@.len() - i,
    {
        out.push(group_finding(&report.findings[i].code, &report.findings[i].target, true));
        i = i + 1;
    }
    let mut k: usize = 0;
    while k < report.ignored.len()
        invariant
            k <= report.ignored@.len(),
            i == active.len(),
            out@.len() == i + k,
            hidden == report.deep_view().ignored.map_values(
                |f: IgnoredDriftFindingView| grouped_finding(f.code, f.target, false),
            ),
            forall|j: int| 0 <= j < i ==> (#[trigger] out@[j]).deep_view() == active[j],
            forall|j: int| i <= j < i + k ==> (#[trigger] out@[j]).deep_view() == hidden[j - i],
        decreases report.ignored@.len() - k,
    {
        out.push(group_finding(&report.ignored[k].code, &report.ignored[k].target, false));
        k = k + 1;
    }
    proof {
        assert(out.deep_view() =~= active + hidden);
    }
    out
}

/// Whether a finding belongs to the group of this kind and name.
pub open spec fn in_group(f: GroupedFindingView, key: (Seq<char>, Seq<char>)) -> bool {
    f.kind == key.0 && f.group == key.1
}

/// Up to eight targets, the first distinct ones, in their order.
pub open spec fn sample_of(targets: Seq<Seq<char>>) -> Seq<Seq<char>>
    decreases targets.len(),
{
    if targets.len() == 0 {
        Seq::empty()
    } else {
        let before = sample_of(targets.drop_last());
        if before.len() < 8 {
            with_text(before, targets.last())
        } else {
            before
        }
    }
}

/// The targets of a group.
pub open spec fn group_targets(
    findings: Seq<GroupedFindingView>,
    key: (Seq<char>, Seq<char>),
) -> Seq<Seq<char>> {
    chosen(
        findings,
        |f: GroupedFindingView|
            if in_group(f, key) {
                f.target
            } else {
                None
            },
    )
}

/// The codes of a group.
pub open spec fn group_codes(
    findings: Seq<GroupedFindingView>,
    key: (Seq<char>, Seq<char>),
) -> Seq<Seq<char>> {
    chosen(
        findings,
        |f: GroupedFindingView|
            if in_group(f, key) {
                Some(f.code)
            } else {
                None
            },
    )
}

/// How many active (or ignored) findings a group has.
pub open spec fn group_count(
    findings: Seq<GroupedFindingView>,
    key: (Seq<char>, Seq<char>),
    active: bool,
) -> nat {
    tally(findings, |f: GroupedFindingView| in_group(f, key) && f.active == active)
}

/// One group with its counts, samples and codes.
pub open spec fn group_of(
    findings: Seq<GroupedFindingView>,
    key: (Seq<char>, Seq<char>),
) -> DriftGroupView {
    DriftGroupView {
        kind: key.0,
        group: key.1,
        active: group_count(findings, key, true),
        ignored: group_count(findings, key, false),
        sample_targets: sample_of(group_targets(findings, key)),
        codes: sorted_set(group_codes(findings, key)),
        suggested_next_step: group_next_step_spec(key.0, group_count(findings, key, true)),
    }
}

/// Puts a text in its place in an increasing list.
pub fn insert_text(list: &mut Vec<String>, text: &str)
    ensures
        final(list).deep_view() == with_text(old(list).deep_view(), text@),
{
    let ghost before = list.deep_view();
    let mut p: usize = list.len();
    while p > 0 && !same(&list[p - 1], text) && !less(&list[p - 1], text)
        invariant
            p <= list@.len(),
            list.deep_view() == before,
            forall|j: int| p <= j < before.len() ==> #[trigger] before[j] != text@ && !text_lt(
                before[j],
                text@,
            ),
        decreases p,
    {
        p = p - 1;
    }
    proof {
        lemma_place(before, text@, p as int);
    }
    if p == 0 || !same(&list[p - 1], text) {
        list.insert(p, text.to_string());
        proof {
            assert(list.deep_view() =~= before.insert(p as int, text@));
        }
    }
}

/// One group with its counts, samples and codes.
pub fn build_group(findings: &Vec<GroupedFinding>, kind: &str, group: &str) -> (r: DriftGroup)
    ensures
        r.deep_view() == group_of(findings.deep_view(), (kind@, group@)),
{
    let ghost all = findings.deep_view();
    let ghost key = (kind@, group@);
    let mut active: usize = 0;
    let mut ignored: usize = 0;
    let mut samples: Vec<String> = Vec::new();
    let mut codes: Vec<String> = Vec::new();
    let mut i: usize = 0;
    proof {
        ends(all);
        assert(samples.deep_view() =~= Seq::<Seq<char>>::empty());
        assert(codes.deep_view() =~= Seq::<Seq<char>>::empty());
        assert(group_targets(all.take(0), key) =~= Seq::<Seq<char>>::empty());
    }
    while i < findings.len()
        invariant
            i <= findings@.len(),
            all == findings.deep_view(),
            key == (kind@, group@),
            active == group_count(all.take(i as int), key, true),
            ignored == group_count(all.take(i as int), key, false),
            active + ignored <= i,
            samples.deep_view() == sample_of(group_targets(all.take(i as int), key)),
            codes.deep_view() == group_codes(all.take(i as int), key),
        decreases findings@.len() - i,
    {
        let f = &findings[i];
        proof {
            step(all, i as int);
        }
        if same(&f.kind, kind) && same(&f.group, group) {
            if f.active {
                active = active + 1;
            } else {
                ignored = ignored + 1;
            }
            codes.push(f.code.clone());
            if let Some(target) = &f.target {
                let ghost seen = group_targets(all.take(i as int), key);
                proof {
                    assert(seen.push(target@).drop_last() =~= seen);
                }
                if samples.len() < 8 {
                    insert_text(&mut samples, target);
                }
            }
        }
        i = i + 1;
    }
    proof {
        ends(all);
    }
    DriftGroup {
        kind: kind.to_string(),
        group: group.to_string(),
        active,
        ignored,
        sample_targets: samples,
        codes: unique_sorted(codes),
        suggested_next_step: group_next_step(kind, active),
    }
}

/// The keys of all groups, in order and each once.
pub open spec fn group_keys(findings: Seq<GroupedFindingView>) -> Seq<(Seq<char>, Seq<char>)> {
    sorted_values(
        findings.map_values(|f: GroupedFindingView| (f.kind, f.group)),
        rank::<(String, String)>(),
    )
}

/// All groups in the order of kind and name.
pub open spec fn groups_of(findings: Seq<GroupedFindingView>) -> Seq<DriftGroupView> {
    let keys = group_keys(findings);
    Seq::new(keys.len(), |i: int| group_of(findings, keys[i]))
}

/// The drift report as groups.
pub open spec fn drift_groups_spec(report: DriftReportView) -> DriftGroupsReportView {
    DriftGroupsReportView {
        ok: report.active_findings == 0,
        read_only: true,
        groups: groups_of(grouped_findings(report)),
        active_findings: report.active_findings,
        ignored_findings: report.ignored_findings,
        limitations: report.limitations,
    }
}

/// All groups in the order of kind and name.
pub fn build_groups(findings: &Vec<GroupedFinding>) -> (r: Vec<DriftGroup>)
    ensures
        r.deep_view() == groups_of(findings.deep_view()),
{
    let ghost all = findings.deep_view();
    let mut pairs: Vec<(String, String)> = Vec::new();
    let mut i: usize = 0;
    while i < findings.len()
        invariant
            i <= findings@.len(),
            pairs@.len() == i,
            all == findings.deep_view(),
            forall|j: int|
                0 <= j < i ==> (#[trigger] pairs@[j]).deep_view() == (all[j].kind, all[j].group),
        decreases findings@.len() - i,
    {
        pairs.push((findings[i].kind.clone(), findings[i].group.clone()));
        i = i + 1;
    }
    proof {
        assert(pairs.deep_view() =~= all.map_values(|f: GroupedFindingView| (f.kind, f.group)));
    }
    let keys = unique_ranked(pairs);
    let ghost sorted = group_keys(all);
    let mut out: Vec<DriftGroup> = Vec::new();
    let mut k: usize = 0;
    while k < keys.len()
        invariant
            k <= keys@.len(),
            out@.len() == k,
            all == findings.deep_view(),
            keys.deep_view() == sorted,
            forall|j: int|
                0 <= j < k ==> (#[trigger] out@[j]).deep_view() == group_of(all, sorted[j]),
        decreases keys@.len() - k,
    {
        proof {
            assert(sorted[k as int] == keys@[k as int].deep_view());
        }
        out.push(build_group(findings, &keys[k].0, &keys[k].1));
        k = k + 1;
    }
    proof {
        assert(out.deep_view() =~= groups_of(all));
    }
    out
}

/// All drift as groups.
pub fn drift_groups(registry: &Registry, observation: &Observation) -> (r: DriftGroupsReport)
    ensures
        r.deep_view() == drift_groups_spec(
            drift_report_spec(registry.deep_view(), observation.deep_view(), no_filter()),
        ),
{
    let report = drift_list(registry, observation);
    let findings = group_findings(&report);
    let groups = build_groups(&findings);
    DriftGroupsReport {
        ok: report.active_findings == 0,
        read_only: true,
        groups,
        active_findings: report.active_findings,
        ignored_findings: report.ignored_findings,
        limitations: report.limitations,
    }
}

// ---------------------------------------------------------------------------
// Suggestions
// ---------------------------------------------------------------------------

/// The next step that is suggested for an active finding.
pub open spec fn drift_suggestion_spec(finding: DriftFindingView) -> Option<DriftSuggestionView> {
    match (finding.target, finding_adopt_kind_spec(finding.code)) {
        (Some(target), Some(kind)) => {
            let hint = shell_arg_hint_spec(target);
            if kind == "docker-volume"@ {
                Some(
                    DriftSuggestionView {
                        kind,
                        target,
                        code: finding.code,
                        action: "review_cleanup_or_adopt"@,
                        confidence: "medium"@,
                        reason: "Docker volume ownership cannot be proven from name alone; inspect attached containers and backup needs before adopting or cleaning up."@,
                        command: Some("opsctl registry drift explain --target "@ + hint),
                    },
                )
            } else if kind == "docker-container"@ || kind == "compose-project"@ {
                Some(
                    DriftSuggestionView {
                        kind,
                        target,
                        code: finding.code,
                        action: "review_adopt"@,
                        confidence: "medium"@,
                        reason: "Running Docker resources should be assigned to an existing service only after confirming project ownership."@,
                        command: Some(
                            "opsctl registry drift adopt --kind "@ + kind + " --target "@ + hint
                                + " --service-id <service> --reason <reason> --execute"@,
                        ),
                    },
                )
            } else if kind == "port"@ {
                Some(
                    DriftSuggestionView {
                        kind,
                        target,
                        code: finding.code,
                        action: if begins(target, "0.0.0.0"@) || begins(target, "[::]"@) {
                            "review_public_listener"@
                        } else {
                            "review_adopt_or_ignore"@
                        },
                        confidence: "medium"@,
                        reason: "Ports need owner confirmation; application listeners should be adopted and base system listeners should use expiring ignore rules."@,
                        command: Some(
                            "opsctl registry drift ignore --target "@ + hint
                                + " --reason <reason> --expires-at <RFC3339> --execute"@,
                        ),
                    },
                )
            } else if kind == "systemd-unit"@ {
                Some(
                    DriftSuggestionView {
                        kind,
                        target,
                        code: finding.code,
                        action: "review_adopt_or_ignore"@,
                        confidence: "medium"@,
                        reason: "Systemd units may be base OS services or app units; ignore only base services and adopt app-owned units."@,
                        command: Some(
                            "opsctl registry drift ignore --kind systemd-unit --target "@ + hint
                                + " --reason <reason> --expires-at <RFC3339> --execute"@,
                        ),
                    },
                )
            } else {
                None
            }
        },
        _ => None,
    }
}

/// The next step that is suggested for an active finding.
pub fn drift_suggestion(finding: &DriftFinding) -> (r: Option<DriftSuggestion>)
    ensures
        r.deep_view() == drift_suggestion_spec(finding.deep_view()),
{
    let target = match &finding.target {
        Some(target) => target.clone(),
        None => {
            return None;
        },
    };
    let kind = match finding_adopt_kind(&finding.code) {
        Some(kind) => kind,
        None => {
            return None;
        },
    };
    let hint = shell_arg_hint(&target);
    let (action, reason, command) = if same(kind, "docker-volume") {
        (
            "review_cleanup_or_adopt",
            "Docker volume ownership cannot be proven from name alone; inspect attached containers and backup needs before adopting or cleaning up.",
            cat2("opsctl registry drift explain --target ", &hint),
        )
    } else if same(kind, "docker-container") || same(kind, "compose-project") {
        (
            "review_adopt",
            "Running Docker resources should be assigned to an existing service only after confirming project ownership.",
            cat5(
                "opsctl registry drift adopt --kind ",
                kind,
                " --target ",
                &hint,
                " --service-id <service> --reason <reason> --execute",
            ),
        )
    } else if same(kind, "port") {
        (
            if starts_with(&target, "0.0.0.0") || starts_with(&target, "[::]") {
                "review_public_listener"
            } else {
                "review_adopt_or_ignore"
            },
            "Ports need owner confirmation; application listeners should be adopted and base system listeners should use expiring ignore rules.",
            cat3(
                "opsctl registry drift ignore --target ",
                &hint,
                " --reason <reason> --expires-at <RFC3339> --execute",
            ),
        )
    } else if same(kind, "systemd-unit") {
        (
            "review_adopt_or_ignore",
            "Systemd units may be base OS services or app units; ignore only base services and adopt app-owned units.",
            cat3(
                "opsctl registry drift ignore --kind systemd-unit --target ",
                &hint,
                " --reason <reason> --expires-at <RFC3339> --execute",
            ),
        )
    } else {
        return None;
    };
    Some(
        DriftSuggestion {
            kind: kind.to_string(),
            target,
            code: finding.code.clone(),
            action: action.to_string(),
            confidence: "medium".to_string(),
            reason: reason.to_string(),
            command: Some(command),
        },
    )
}

impl Ranked for DriftSuggestion {
    /// Suggestions are sorted by kind, then by target.
    open spec fn before(a: DriftSuggestionView, b: DriftSuggestionView) -> bool {
        pair_lt((a.kind, a.target), (b.kind, b.target))
    }

    fn ranks_before(&self, other: &Self) -> (r: bool) {
        less(&self.kind, &other.kind) || (same(&self.kind, &other.kind) && less(
            &self.target,
            &other.target,
        ))
    }
}

/// The suggestions for these findings, in their order.
pub open spec fn suggestions_of(findings: Seq<DriftFindingView>) -> Seq<DriftSuggestionView> {
    chosen(findings, |f: DriftFindingView| drift_suggestion_spec(f))
}

/// The suggestions for a drift report, sorted by kind and target.
pub open spec fn drift_suggest_spec(report: DriftReportView) -> DriftSuggestReportView {
    DriftSuggestReportView {
        ok: report.active_findings == 0,
        read_only: true,
        suggestions: sorted_by(suggestions_of(report.findings), rank::<DriftSuggestion>()),
        limitations: report.limitations,
    }
}

/// Suggested next steps for active drift.
pub fn drift_suggest(registry: &Registry, observation: &Observation) -> (r: DriftSuggestReport)
    ensures
        r.deep_view() == drift_suggest_spec(
            drift_report_spec(registry.deep_view(), observation.deep_view(), no_filter()),
        ),
{
    let report = drift_list(registry, observation);
    let ghost all = report.findings.deep_view();
    let mut out: Vec<DriftSuggestion> = Vec::new();
    let mut i: usize = 0;
    proof {
        ends(all);
        assert(out.deep_view() =~= Seq::<DriftSuggestionView>::empty());
    }
    while i < report.findings.len()
        invariant
            i <= report.findings@.len(),
            all == report.findings.deep_view(),
            out.deep_view() == suggestions_of(all.take(i as int)),
        decreases report.findings@.len() - i,
    {
        proof {
            step(all, i as int);
        }
        if let Some(suggestion) = drift_suggestion(&report.findings[i]) {
            out.push(suggestion);
        }
        i = i + 1;
    }
    proof {
        ends(all);
    }
    DriftSuggestReport {
        ok: report.active_findings == 0,
        read_only: true,
        suggestions: sort_stable(out),
        limitations: report.limitations,
    }
}

// ---------------------------------------------------------------------------
// Laws
// ---------------------------------------------------------------------------

/// A volume belongs to the group of what stands before its first underscore; a port to
/// one of three, by where it listens.
pub proof fn law_group_keys(name: Seq<char>, rest: Seq<char>, target: Seq<char>)
    ensures
        !name.contains('_') ==> drift_group_key_spec("docker-volume"@, name.push('_') + rest)
            == name,
        !name.contains('_') ==> drift_group_key_spec("docker-volume"@, name) == name,
        drift_group_key_spec("port"@, target) == "localhost"@ <==> begins(target, "127."@)
            || begins(target, "[::1]"@),
        drift_group_key_spec("port"@, target) == "public-bind"@ <==> !(begins(target, "127."@)
            || begins(target, "[::1]"@)) && (begins(target, "0.0.0.0"@) || begins(
            target,
            "[::]"@,
        )),
{
    lemma_finding_codes();
    reveal_strlit("localhost");
    reveal_strlit("public-bind");
    reveal_strlit("private-or-specific-bind");
    assert("localhost"@.len() == 9 && "public-bind"@.len() == 11 && "private-or-specific-bind"@.len()
        == 24);
    if !name.contains('_') {
        let s = name.push('_') + rest;
        assert(s[name.len() as int] == '_');
        assert(s.contains('_'));
        lemma_first_of(s, '_');
        let p = first_of(s, '_');
        if p < name.len() {
            assert(name[p] == '_');
        }
        assert(p == name.len());
        assert(s.take(p) =~= name);
    }
}

/// Every finding is in a group: the one of its kind and its key, which counts it.
pub proof fn law_every_finding_is_grouped(report: DriftReportView, i: int)
    requires
        0 <= i < report.findings.len(),
    ensures
        ({
            let f = report.findings[i];
            let kind = text_or(finding_adopt_kind_spec(f.code), "review"@);
            let key = drift_group_key_spec(kind, text_or(f.target, "unknown"@));
            let groups = drift_groups_spec(report).groups;
            exists|g: int|
                0 <= g < groups.len() && (#[trigger] groups[g]).kind == kind && groups[g].group
                    == key && groups[g].active > 0 && groups[g].codes.contains(f.code)
        }),
{
    let all = grouped_findings(report);
    let f = report.findings[i];
    let x = grouped_finding(f.code, f.target, true);
    let key = (x.kind, x.group);
    assert(all[i] == x);
    let images = all.map_values(|f: GroupedFindingView| (f.kind, f.group));
    assert(images[i] == key);
    law_pairs_are_ordered();
    law_sorted_values_keep_all(images, rank::<(String, String)>(), i);
    let keys = group_keys(all);
    let g = choose|g: int| 0 <= g < keys.len() && keys[g] == key;
    let groups = drift_groups_spec(report).groups;
    assert(groups[g] == group_of(all, key));
    let p = |f: GroupedFindingView| in_group(f, key) && f.active == true;
    law_tally(all, Seq::empty(), p);
    assert(p(all[i]));
    let c = |f: GroupedFindingView|
        if in_group(f, key) {
            Some(f.code)
        } else {
            None
        };
    law_chosen(all, c, x.code);
    assert(c(all[i]) == Some(x.code));
    law_sorted_set(group_codes(all, key));
    assert(groups[g].kind == x.kind);
}

/// A group counts the findings of its kind and key, those that are reported and those
/// that are ignored.
pub proof fn law_groups_count(findings: Seq<GroupedFindingView>, g: int)
    requires
        0 <= g < groups_of(findings).len(),
    ensures
        ({
            let group = groups_of(findings)[g];
            &&& group.active == tally(
                findings,
                |f: GroupedFindingView|
                    f.kind == group.kind && f.group == group.group && f.active,
            )
            &&& group.ignored == tally(
                findings,
                |f: GroupedFindingView|
                    f.kind == group.kind && f.group == group.group && !f.active,
            )
        }),
{
    let key = group_keys(findings)[g];
    let group = groups_of(findings)[g];
    law_tally_agrees(
        findings,
        |f: GroupedFindingView| in_group(f, key) && f.active == true,
        |f: GroupedFindingView| f.kind == group.kind && f.group == group.group && f.active,
    );
    law_tally_agrees(
        findings,
        |f: GroupedFindingView| in_group(f, key) && f.active == false,
        |f: GroupedFindingView| f.kind == group.kind && f.group == group.group && !f.active,
    );
}

/// Something is suggested for each finding with a target that is no site of Caddy; a port
/// on all addresses is to be looked at as a public listener.
pub proof fn law_suggestions(finding: DriftFindingView)
    ensures
        drift_suggestion_spec(finding) is Some <==> finding.target is Some
            && finding_adopt_kind_spec(finding.code) is Some && finding.code
            != "observed_unregistered_caddy_site"@,
        drift_suggestion_spec(finding) matches Some(s) ==> {
            &&& Some(s.kind) == finding_adopt_kind_spec(finding.code)
            &&& Some(s.target) == finding.target
            &&& s.code == finding.code
            &&& s.action == "review_public_listener"@ <==> finding.code
                == "observed_unregistered_port"@ && (begins(s.target, "0.0.0.0"@) || begins(
                s.target,
                "[::]"@,
            ))
        },
{
    lemma_finding_codes();
    reveal_strlit("review_public_listener");
    reveal_strlit("review_adopt_or_ignore");
    reveal_strlit("review_adopt");
    reveal_strlit("review_cleanup_or_adopt");
    assert("review_public_listener"@.len() == 22 && "review_adopt_or_ignore"@.len() == 22
        && "review_adopt"@.len() == 12 && "review_cleanup_or_adopt"@.len() == 23);
    assert("review_public_listener"@[7] != "review_adopt_or_ignore"@[7]);
}

/// Suggestions come in the order of their kinds, and of their targets under the same kind;
/// there is one for each finding that something can be suggested for.
pub proof fn law_suggestions_are_sorted(report: DriftReportView, i: int, j: int)
    requires
        0 <= i < j < drift_suggest_spec(report).suggestions.len(),
    ensures
        ({
            let all = drift_suggest_spec(report).suggestions;
            &&& all.len() == suggestions_of(report.findings).len()
            &&& !text_lt(all[j].kind, all[i].kind)
            &&& all[i].kind == all[j].kind ==> !text_lt(all[j].target, all[i].target)
        }),
        drift_suggest_spec(report).ok <==> report.active_findings == 0,
        drift_suggest_spec(report).limitations == report.limitations,
{
    let s = suggestions_of(report.findings);
    let before = rank::<DriftSuggestion>();
    lemma_sorted_by_keeps(s, before, |x: DriftSuggestionView| true);
    law_ranked(
        s,
        before,
        |x: DriftSuggestionView| 0,
        |x: DriftSuggestionView| (x.kind, x.target),
        i,
        j,
    );
}

} // verus!
