//! Review documents: exporting drift for review, and applying the decisions.

use vstd::prelude::*;
use crate::adoption::{adoption_record_json, record_json};
use crate::drift::adopt::{adopt_plan, drift_adopt};
use crate::drift::findings::{
    drift_list, drift_report_spec, finding_adopt_kind, finding_adopt_kind_spec, no_filter,
};
use crate::drift::groups::{
    GroupedFindingView, drift_group_key, drift_group_key_spec, drift_groups, drift_groups_spec,
    drift_suggest, drift_suggest_spec, group_keys, group_of, grouped_finding, grouped_findings,
    groups_of, in_group,
};
use crate::drift::ignore::{drift_ignore, ignore_plan};
use crate::drift::ownership::{drift_ownership, drift_ownership_spec};
use crate::drift::types::{
    DriftAdoptOptions, DriftAdoptOptionsView, DriftAdoptReport, DriftAdoptReportView, DriftFilter,
    DriftFinding, DriftFindingView, DriftGroup, DriftGroupView, DriftIgnoreOptions,
    DriftIgnoreOptionsView, DriftIgnoreReport, DriftIgnoreReportView, DriftOwnershipFinding,
    DriftOwnershipFindingView, DriftReportView, DriftReviewApplyEntry, DriftReviewApplyEntryView,
    DriftReviewApplyOptions, DriftReviewApplyOptionsView, DriftReviewApplyReport,
    DriftReviewApplyReportView, DriftReviewDocument, DriftReviewDocumentView,
    DriftReviewExportReport, DriftReviewExportReportView, DriftReviewGroupDocument,
    DriftReviewGroupDocumentView, DriftReviewItemDocument, DriftReviewItemDocumentView,
    DriftSuggestion, DriftSuggestionView,
};
use crate::drift::verify::{fits_on_a_line, text_remark, validate_review_text};
use crate::each::{choose_each, count_where, find_last, gather_each, map_each};
use crate::list::{
    any, chosen, extend, gathered, kept, last_where, law_gathered, law_kept, law_last_where,
    law_pairs_are_ordered, law_sorted_set, law_sorted_values, law_sorted_values_keep_all,
    law_tally, lemma_any, lemma_parts_cover, lemma_parts_fit, note, noted, put, rank, sorted_set,
    tally, total, unique_sorted, with_key,
};
use crate::registry::{Registry, RegistryView};
use crate::scan::{Observation, ObservationView};
use crate::text::{
    as_text, blank, cat2, cat4, cat6, cat8, ends, is_blank, or_text, same, shell_arg_hint,
    shell_arg_hint_spec, step, text_or,
};

verus! {

broadcast use {vstd::seq::group_seq_axioms, vstd::string::group_string_axioms};

// ---------------------------------------------------------------------------
// Export
// ---------------------------------------------------------------------------

/// The schema of a review document.
pub open spec fn review_schema() -> Seq<char> {
    "opsctl.drift_review.v1"@
}

/// The schema of a review document.
pub fn review_schema_version() -> (r: &'static str)
    ensures
        r@ == review_schema(),
{
    "opsctl.drift_review.v1"
}

/// What is suggested for a target: the last suggestion with it.
pub open spec fn suggestion_for(
    suggestions: Seq<DriftSuggestionView>,
    target: Seq<char>,
) -> Option<DriftSuggestionView> {
    last_where(suggestions, |s: DriftSuggestionView| s.target == target)
}

/// What is known of the owner of a target: the last finding with it.
pub open spec fn owner_for(
    findings: Seq<DriftOwnershipFindingView>,
    target: Seq<char>,
) -> Option<DriftOwnershipFindingView> {
    last_where(findings, |f: DriftOwnershipFindingView| f.target == target)
}

/// The kind of a finding under review.
pub open spec fn review_kind(code: Seq<char>) -> Seq<char> {
    text_or(finding_adopt_kind_spec(code), "review"@)
}

/// An item of a review document, with no decision yet.
pub open spec fn review_item(
    code: Seq<char>,
    target: Seq<char>,
    suggestion: Option<DriftSuggestionView>,
    owner: Option<DriftOwnershipFindingView>,
) -> DriftReviewItemDocumentView {
    DriftReviewItemDocumentView {
        code,
        kind: review_kind(code),
        target,
        action: "unknown"@,
        confidence: if owner is Some {
            Some(owner->0.confidence)
        } else if suggestion is Some {
            Some(suggestion->0.confidence)
        } else {
            None
        },
        review_action: if owner is Some {
            Some(owner->0.review_action)
        } else {
            None
        },
        reason: None,
        service_id: None,
        service_candidates: if owner is Some {
            owner->0.service_candidates
        } else {
            Seq::empty()
        },
        exposure: None,
        purpose: None,
        owner: None,
        expires_at: None,
        review_status: Some("pending"@),
        operator_note: if owner is Some {
            Some(owner->0.suggested_action)
        } else if suggestion is Some {
            Some(suggestion->0.reason)
        } else {
            None
        },
        cleanup_note: None,
        cleanup_risk: if owner is Some {
            Some(owner->0.cleanup_risk)
        } else {
            None
        },
        exact_match_required: if owner is Some {
            Some(owner->0.exact_match_required)
        } else {
            None
        },
        resource_fingerprint: if owner is Some {
            owner->0.resource_fingerprint
        } else {
            Seq::empty()
        },
        ownership_evidence: if owner is Some {
            owner->0.evidence
        } else {
            Seq::empty()
        },
    }
}

/// An item of a review document, with no decision yet.
pub fn build_review_item(
    code: &str,
    target: &str,
    suggestion: Option<&DriftSuggestion>,
    owner: Option<&DriftOwnershipFinding>,
) -> (r: DriftReviewItemDocument)
    ensures
        r.deep_view() == review_item(code@, target@, suggestion.deep_view(), owner.deep_view()),
{
    let kind = or_text(finding_adopt_kind(code), "review").to_string();
    match owner {
        Some(f) => DriftReviewItemDocument {
            code: code.to_string(),
            kind,
            target: target.to_string(),
            action: "unknown".to_string(),
            confidence: Some(f.confidence.clone()),
            review_action: Some(f.review_action.clone()),
            reason: None,
            service_id: None,
            service_candidates: f.service_candidates.clone(),
            exposure: None,
            purpose: None,
            owner: None,
            expires_at: None,
            review_status: Some("pending".to_string()),
            operator_note: Some(f.suggested_action.clone()),
            cleanup_note: None,
            cleanup_risk: Some(f.cleanup_risk.clone()),
            exact_match_required: Some(f.exact_match_required),
            resource_fingerprint: f.resource_fingerprint.clone(),
            ownership_evidence: f.evidence.clone(),
        },
        None => {
            let none: Vec<String> = Vec::new();
            proof {
                assert(none.deep_view() =~= Seq::<Seq<char>>::empty());
            }
            let confidence = match suggestion {
                Some(s) => Some(s.confidence.clone()),
                None => None,
            };
            let operator_note = match suggestion {
                Some(s) => Some(s.reason.clone()),
                None => None,
            };
            DriftReviewItemDocument {
                code: code.to_string(),
                kind,
                target: target.to_string(),
                action: "unknown".to_string(),
                confidence,
                review_action: None,
                reason: None,
                service_id: None,
                service_candidates: none.clone(),
                exposure: None,
                purpose: None,
                owner: None,
                expires_at: None,
                review_status: Some("pending".to_string()),
                operator_note,
                cleanup_note: None,
                cleanup_risk: None,
                exact_match_required: None,
                resource_fingerprint: none.clone(),
                ownership_evidence: none,
            }
        },
    }
}

/// The item for a finding, where the finding has a target.
pub open spec fn review_item_of(
    finding: DriftFindingView,
    suggestions: Seq<DriftSuggestionView>,
    owners: Seq<DriftOwnershipFindingView>,
) -> Option<DriftReviewItemDocumentView> {
    match finding.target {
        Some(target) => Some(
            review_item(
                finding.code,
                target,
                suggestion_for(suggestions, target),
                owner_for(owners, target),
            ),
        ),
        None => None,
    }
}

/// The items for these findings, in their order.
pub open spec fn review_items(
    findings: Seq<DriftFindingView>,
    suggestions: Seq<DriftSuggestionView>,
    owners: Seq<DriftOwnershipFindingView>,
) -> Seq<DriftReviewItemDocumentView> {
    chosen(findings, |f: DriftFindingView| review_item_of(f, suggestions, owners))
}

/// The items for these findings, in their order.
pub fn list_review_items(
    findings: &Vec<DriftFinding>,
    suggestions: &Vec<DriftSuggestion>,
    owners: &Vec<DriftOwnershipFinding>,
) -> (r: Vec<DriftReviewItemDocument>)
    ensures
        r.deep_view() == review_items(
            findings.deep_view(),
            suggestions.deep_view(),
            owners.deep_view(),
        ),
{
    choose_each(
        findings,
        |f: &DriftFinding| -> (r: Option<DriftReviewItemDocument>)
            ensures
                r.deep_view() == review_item_of(
                    f.deep_view(),
                    suggestions.deep_view(),
                    owners.deep_view(),
                )
            {
                match &f.target {
                    Some(target) => {
                        let suggestion = find_last(
                            suggestions,
                            |s: &DriftSuggestion| -> (b: bool)
                                ensures
                                    b == (s.deep_view().target == target@)
                                { same(&s.target, target) },
                            Ghost(|s: DriftSuggestionView| s.target == target@),
                        );
                        let owner = find_last(
                            owners,
                            |o: &DriftOwnershipFinding| -> (b: bool)
                                ensures
                                    b == (o.deep_view().target == target@)
                                { same(&o.target, target) },
                            Ghost(|o: DriftOwnershipFindingView| o.target == target@),
                        );
                        Some(build_review_item(&f.code, target, suggestion, owner))
                    },
                    None => None,
                }
            },
        Ghost(
            |f: DriftFindingView|
                review_item_of(f, suggestions.deep_view(), owners.deep_view()),
        ),
    )
}

/// The group that an item belongs to.
pub open spec fn item_group() -> spec_fn(DriftReviewItemDocumentView) -> (Seq<char>, Seq<char>) {
    |i: DriftReviewItemDocumentView| (i.kind, drift_group_key_spec(i.kind, i.target))
}

/// Whether an item belongs to a group.
pub open spec fn item_is_of(key: (Seq<char>, Seq<char>)) -> spec_fn(DriftReviewItemDocumentView) -> bool {
    |i: DriftReviewItemDocumentView| item_group()(i) == key
}

/// The items of a group.
pub open spec fn group_items(
    items: Seq<DriftReviewItemDocumentView>,
    key: (Seq<char>, Seq<char>),
) -> Seq<DriftReviewItemDocumentView> {
    kept(items, item_is_of(key))
}

/// The items of a group.
pub fn list_group_items(items: &Vec<DriftReviewItemDocument>, kind: &str, group: &str) -> (r: Vec<
    DriftReviewItemDocument,
>)
    ensures
        r.deep_view() == group_items(items.deep_view(), (kind@, group@)),
{
    let ghost all = items.deep_view();
    let ghost key = (kind@, group@);
    let mut out: Vec<DriftReviewItemDocument> = Vec::new();
    let mut i: usize = 0;
    proof {
        ends(all);
        assert(out.deep_view() =~= Seq::<DriftReviewItemDocumentView>::empty());
    }
    while i < items.len()
        invariant
            i <= items@.len(),
            all == items.deep_view(),
            key == (kind@, group@),
            out.deep_view() == group_items(all.take(i as int), key),
        decreases items@.len() - i,
    {
        let item = &items[i];
        let ghost before = out.deep_view();
        proof {
            step(all, i as int);
            assert(all[i as int] == item.deep_view());
        }
        if same(&item.kind, kind) && same(&drift_group_key(&item.kind, &item.target), group) {
            out.push(item.clone());
            proof {
                assert(out.deep_view() =~= before.push(item.deep_view()));
            }
        }
        i = i + 1;
    }
    proof {
        ends(all);
    }
    out
}

/// A group of a review document, where it has active findings.
pub open spec fn review_group(
    group: DriftGroupView,
    items: Seq<DriftReviewItemDocumentView>,
) -> Option<DriftReviewGroupDocumentView> {
    if group.active > 0 {
        Some(
            DriftReviewGroupDocumentView {
                kind: group.kind,
                group: group.group,
                active: group.active,
                ignored: group.ignored,
                suggested_next_step: group.suggested_next_step,
                items: group_items(items, (group.kind, group.group)),
            },
        )
    } else {
        None
    }
}

/// The groups of a review document.
pub open spec fn review_groups(
    groups: Seq<DriftGroupView>,
    items: Seq<DriftReviewItemDocumentView>,
) -> Seq<DriftReviewGroupDocumentView> {
    chosen(groups, |g: DriftGroupView| review_group(g, items))
}

/// The groups of a review document.
pub fn list_review_groups(groups: &Vec<DriftGroup>, items: &Vec<DriftReviewItemDocument>) -> (r: Vec<
    DriftReviewGroupDocument,
>)
    ensures
        r.deep_view() == review_groups(groups.deep_view(), items.deep_view()),
{
    choose_each(
        groups,
        |g: &DriftGroup| -> (r: Option<DriftReviewGroupDocument>)
            ensures
                r.deep_view() == review_group(g.deep_view(), items.deep_view())
            {
                if g.active > 0 {
                    Some(
                        DriftReviewGroupDocument {
                            kind: g.kind.clone(),
                            group: g.group.clone(),
                            active: g.active,
                            ignored: g.ignored,
                            suggested_next_step: g.suggested_next_step.clone(),
                            items: list_group_items(items, &g.kind, &g.group),
                        },
                    )
                } else {
                    None
                }
            },
        Ghost(|g: DriftGroupView| review_group(g, items.deep_view())),
    )
}

/// How many items the groups hold.
pub open spec fn item_count(groups: Seq<DriftReviewGroupDocumentView>) -> nat {
    total(groups, |g: DriftReviewGroupDocumentView| g.items.len())
}

/// The keys of the groups with active findings.
spec fn active_keys(groups: Seq<DriftGroupView>) -> Seq<(Seq<char>, Seq<char>)> {
    chosen(
        groups,
        |g: DriftGroupView|
            if g.active > 0 {
                Some((g.kind, g.group))
            } else {
                None
            },
    )
}

/// Whether no two groups have the same kind and name.
pub open spec fn distinct_groups(groups: Seq<DriftGroupView>) -> bool {
    forall|i: int, j: int|
        0 <= i < j < groups.len() ==> ((#[trigger] groups[i]).kind, groups[i].group) != ((
        #[trigger] groups[j]).kind, groups[j].group)
}

proof fn lemma_active_keys(groups: Seq<DriftGroupView>)
    requires
        distinct_groups(groups),
    ensures
        active_keys(groups).no_duplicates(),
        forall|i: int|
            0 <= i < active_keys(groups).len() ==> exists|j: int|
                0 <= j < groups.len() && #[trigger] active_keys(groups)[i] == (
                    (#[trigger] groups[j]).kind,
                    groups[j].group,
                ),
    decreases groups.len(),
{
    if groups.len() > 0 {
        let d = groups.drop_last();
        lemma_active_keys(d);
        let keys = active_keys(groups);
        let rest = active_keys(d);
        let last = groups.len() - 1;
        assert forall|i: int| 0 <= i < keys.len() implies exists|j: int|
            0 <= j < groups.len() && #[trigger] keys[i] == (
                (#[trigger] groups[j]).kind,
                groups[j].group,
            ) by {
            if i < rest.len() {
                let j = choose|j: int|
                    0 <= j < d.len() && rest[i] == ((#[trigger] d[j]).kind, d[j].group);
                assert(groups[j] == d[j]);
            } else {
                assert(keys[i] == (groups[last].kind, groups[last].group));
            }
        }
        assert forall|i: int, j: int|
            0 <= i < keys.len() && 0 <= j < keys.len() && i != j implies keys[i] != keys[j] by {
            if i < rest.len() && j < rest.len() {
            } else {
                let low = if i < j {
                    i
                } else {
                    j
                };
                let k = choose|k: int|
                    0 <= k < d.len() && rest[low] == ((#[trigger] d[k]).kind, d[k].group);
                assert(groups[k] == d[k]);
                assert((groups[k].kind, groups[k].group) != (
                    groups[last].kind,
                    groups[last].group,
                ));
            }
        }
    }
}

proof fn lemma_group_items(
    items: Seq<DriftReviewItemDocumentView>,
    key: (Seq<char>, Seq<char>),
)
    ensures
        group_items(items, key).len() == with_key(items, item_group(), key),
    decreases items.len(),
{
    if items.len() > 0 {
        lemma_group_items(items.drop_last(), key);
    }
}

proof fn lemma_item_count(groups: Seq<DriftGroupView>, items: Seq<DriftReviewItemDocumentView>)
    ensures
        item_count(review_groups(groups, items)) == total(
            active_keys(groups),
            |k: (Seq<char>, Seq<char>)| with_key(items, item_group(), k),
        ),
    decreases groups.len(),
{
    if groups.len() > 0 {
        let d = groups.drop_last();
        let g = groups.last();
        lemma_item_count(d, items);
        if g.active > 0 {
            let key = (g.kind, g.group);
            lemma_group_items(items, key);
            let rest = review_groups(d, items);
            let whole = review_groups(groups, items);
            assert(whole.drop_last() =~= rest);
            assert(whole.last().items.len() == with_key(items, item_group(), key));
            assert(active_keys(groups).drop_last() =~= active_keys(d));
            assert(active_keys(groups).last() == key);
        }
    }
}

/// Every item of a review document is in one group: the groups hold no more
/// items than there are.
pub proof fn law_review_groups_do_not_overlap(
    groups: Seq<DriftGroupView>,
    items: Seq<DriftReviewItemDocumentView>,
)
    requires
        distinct_groups(groups),
    ensures
        item_count(review_groups(groups, items)) <= items.len(),
{
    lemma_active_keys(groups);
    lemma_item_count(groups, items);
    lemma_parts_fit(items, active_keys(groups), item_group());
}

/// The groups of drift have different kinds or names.
pub proof fn law_drift_groups_are_distinct(findings: Seq<GroupedFindingView>)
    ensures
        distinct_groups(groups_of(findings)),
{
    law_pairs_are_ordered();
    law_sorted_values(
        findings.map_values(|f: GroupedFindingView| (f.kind, f.group)),
        rank::<(String, String)>(),
    );
    let keys = group_keys(findings);
    let groups = groups_of(findings);
    assert forall|i: int, j: int| 0 <= i < j < groups.len() implies ((
    #[trigger] groups[i]).kind, groups[i].group) != ((#[trigger] groups[j]).kind, groups[j].group) by {
        assert(keys[i] != keys[j]);
        assert(groups[i].kind == keys[i].0 && groups[i].group == keys[i].1);
        assert(groups[j].kind == keys[j].0 && groups[j].group == keys[j].1);
    }
}

/// How many items the groups hold.
fn count_review_items(
    review: &Vec<DriftReviewGroupDocument>,
    Ghost(groups): Ghost<Seq<DriftGroupView>>,
    items: &Vec<DriftReviewItemDocument>,
) -> (r: usize)
    requires
        distinct_groups(groups),
        review.deep_view() == review_groups(groups, items.deep_view()),
    ensures
        r == item_count(review.deep_view()),
{
    let ghost all = review.deep_view();
    let ghost size = |g: DriftReviewGroupDocumentView| g.items.len();
    let limit = items.len();
    let mut n: usize = 0;
    let mut i: usize = 0;
    proof {
        ends(all);
        law_review_groups_do_not_overlap(groups, items.deep_view());
        assert(items.deep_view().len() == items@.len());
        lemma_total_grows(all, size, 0, all.len() as int);
    }
    while i < review.len()
        invariant
            i <= review@.len(),
            all == review.deep_view(),
            size == (|g: DriftReviewGroupDocumentView| g.items.len()),
            n == total(all.take(i as int), size),
            total(all, size) <= limit,
            n <= limit,
        decreases review@.len() - i,
    {
        proof {
            step(all, i as int);
            lemma_total_grows(all, size, i + 1, all.len() as int);
            ends(all);
            assert(all[i as int].items.len() == review@[i as int].items@.len());
        }
        n = n + review[i].items.len();
        i = i + 1;
    }
    proof {
        ends(all);
    }
    n
}

proof fn lemma_total_grows<A>(s: Seq<A>, size: spec_fn(A) -> nat, i: int, j: int)
    requires
        0 <= i <= j <= s.len(),
    ensures
        total(s.take(i), size) <= total(s.take(j), size),
    decreases j - i,
{
    if i < j {
        lemma_total_grows(s, size, i, j - 1);
        step(s, j - 1);
    }
}

/// Drift for review.
pub open spec fn review_export(
    drift: DriftReportView,
    owners: Seq<DriftOwnershipFindingView>,
    generated_at: Seq<char>,
) -> DriftReviewExportReportView {
    let groups = drift_groups_spec(drift);
    let items = review_items(drift.findings, drift_suggest_spec(drift).suggestions, owners);
    let review = review_groups(groups.groups, items);
    DriftReviewExportReportView {
        ok: groups.limitations.len() == 0,
        read_only: true,
        review: DriftReviewDocumentView {
            schema_version: review_schema(),
            generated_at: Some(generated_at),
            groups: review,
        },
        active_findings: groups.active_findings,
        ignored_findings: groups.ignored_findings,
        groups: review.len(),
        items: item_count(review),
        limitations: groups.limitations,
    }
}

/// Exports drift for review.
pub fn drift_review_export(registry: &Registry, observation: &Observation, generated_at: &str) -> (r:
    DriftReviewExportReport)
    ensures
        r.deep_view() == review_export(
            drift_report_spec(registry.deep_view(), observation.deep_view(), no_filter()),
            drift_ownership_spec(
                registry.deep_view(),
                observation.deep_view(),
                no_filter(),
            ).findings,
            generated_at@,
        ),
{
    let drift = drift_list(registry, observation);
    let groups = drift_groups(registry, observation);
    let suggestions = drift_suggest(registry, observation);
    let ownership = drift_ownership(
        registry,
        observation,
        &DriftFilter { code: None, target: None },
    );
    let items = list_review_items(
        &drift.findings,
        &suggestions.suggestions,
        &ownership.findings,
    );
    let review = list_review_groups(&groups.groups, &items);
    proof {
        law_drift_groups_are_distinct(
            grouped_findings(
                drift_report_spec(registry.deep_view(), observation.deep_view(), no_filter()),
            ),
        );
        assert(review.deep_view().len() == review@.len());
        assert(groups.limitations.deep_view().len() == groups.limitations@.len());
    }
    let count = count_review_items(&review, Ghost(groups.groups.deep_view()), &items);
    let group_count = review.len();
    DriftReviewExportReport {
        ok: groups.limitations.len() == 0,
        read_only: true,
        review: DriftReviewDocument {
            schema_version: review_schema_version().to_string(),
            generated_at: Some(generated_at.to_string()),
            groups: review,
        },
        active_findings: groups.active_findings,
        ignored_findings: groups.ignored_findings,
        groups: group_count,
        items: count,
        limitations: groups.limitations,
    }
}

// ---------------------------------------------------------------------------
// Checking decisions
// ---------------------------------------------------------------------------

/// Everything that is wrong with an item, whatever its decision.
#[verifier::opaque]
pub open spec fn review_item_limitations(
    group_kind: Seq<char>,
    item: DriftReviewItemDocumentView,
) -> Seq<Seq<char>> {
    Seq::empty() + noted(
        item.kind != group_kind,
        "item kind "@ + item.kind + " does not match group kind "@ + group_kind,
    ) + text_remark("target"@, Some(item.target)) + text_remark("code"@, Some(item.code))
        + text_remark("reason"@, item.reason) + text_remark("service_id"@, item.service_id)
        + text_remark("owner"@, item.owner) + text_remark("purpose"@, item.purpose) + text_remark(
        "operator_note"@,
        item.operator_note,
    ) + text_remark("cleanup_note"@, item.cleanup_note) + noted(
        item.target.len() == 0,
        "target is required"@,
    )
}

/// Everything that is wrong with an item, whatever its decision.
pub fn validate_review_item(group_kind: &str, item: &DriftReviewItemDocument) -> (r: Vec<String>)
    ensures
        r.deep_view() == review_item_limitations(group_kind@, item.deep_view()),
{
    let mut l: Vec<String> = Vec::new();
    proof {
        reveal(review_item_limitations);
        assert(l.deep_view() =~= Seq::<Seq<char>>::empty());
    }
    note(
        &mut l,
        !same(&item.kind, group_kind),
        &cat4("item kind ", &item.kind, " does not match group kind ", group_kind),
    );
    validate_review_text("target", Some(item.target.as_str()), &mut l);
    validate_review_text("code", Some(item.code.as_str()), &mut l);
    validate_review_text("reason", as_text(&item.reason), &mut l);
    validate_review_text("service_id", as_text(&item.service_id), &mut l);
    validate_review_text("owner", as_text(&item.owner), &mut l);
    validate_review_text("purpose", as_text(&item.purpose), &mut l);
    validate_review_text("operator_note", as_text(&item.operator_note), &mut l);
    validate_review_text("cleanup_note", as_text(&item.cleanup_note), &mut l);
    note(&mut l, item.target.as_str().is_empty(), "target is required");
    l
}

/// Everything that is wrong with an item, given its decision.
pub open spec fn decision_limitations(
    group_kind: Seq<char>,
    item: DriftReviewItemDocumentView,
) -> Seq<Seq<char>> {
    let base = review_item_limitations(group_kind, item);
    if item.action == "ignore"@ {
        base + noted(blank(item.reason), "reason is required for ignore"@) + noted(
            blank(item.expires_at),
            "expires_at is required for ignore"@,
        )
    } else if item.action == "adopt"@ {
        base + noted(blank(item.service_id), "service_id is required for adopt"@) + noted(
            blank(item.reason),
            "reason is required for adopt"@,
        )
    } else if item.action == "unknown"@ || item.action == "needs_cleanup"@ {
        base
    } else {
        base + noted(true, "action must be adopt, ignore, needs_cleanup, or unknown"@)
    }
}

/// Everything that is wrong with an item, given its decision.
pub fn list_decision_limitations(group_kind: &str, item: &DriftReviewItemDocument) -> (r: Vec<
    String,
>)
    ensures
        r.deep_view() == decision_limitations(group_kind@, item.deep_view()),
{
    let mut l = validate_review_item(group_kind, item);
    if same(&item.action, "ignore") {
        note(&mut l, is_blank(as_text(&item.reason)), "reason is required for ignore");
        note(&mut l, is_blank(as_text(&item.expires_at)), "expires_at is required for ignore");
    } else if same(&item.action, "adopt") {
        note(&mut l, is_blank(as_text(&item.service_id)), "service_id is required for adopt");
        note(&mut l, is_blank(as_text(&item.reason)), "reason is required for adopt");
    } else if !same(&item.action, "unknown") && !same(&item.action, "needs_cleanup") {
        note(&mut l, true, "action must be adopt, ignore, needs_cleanup, or unknown");
    }
    l
}

/// Whether an item asks for a change of the registry.
pub open spec fn actionable(item: DriftReviewItemDocumentView) -> bool {
    item.action == "adopt"@ || item.action == "ignore"@
}

/// Whether two items ask for a change about the same finding.
pub open spec fn same_decision(
    a: DriftReviewItemDocumentView,
    b: DriftReviewItemDocumentView,
) -> bool {
    actionable(a) && actionable(b) && a.kind == b.kind && a.code == b.code && a.target == b.target
}

/// What is said of items that repeat an earlier one.
pub open spec fn repeated_decisions(items: Seq<DriftReviewItemDocumentView>) -> Seq<Seq<char>>
    decreases items.len(),
{
    if items.len() == 0 {
        Seq::empty()
    } else {
        let item = items.last();
        repeated_decisions(items.drop_last()) + noted(
            any(items.drop_last(), |e: DriftReviewItemDocumentView| same_decision(e, item)),
            "duplicate actionable review item kind="@ + item.kind + " code="@ + item.code
                + " target="@ + item.target,
        )
    }
}

/// Whether an item repeats one of the first `limit` items.
fn repeats_earlier(
    items: &Vec<DriftReviewItemDocument>,
    limit: usize,
    item: &DriftReviewItemDocument,
) -> (r: bool)
    requires
        limit <= items@.len(),
    ensures
        r == any(
            items.deep_view().take(limit as int),
            |e: DriftReviewItemDocumentView| same_decision(e, item.deep_view()),
        ),
{
    let ghost all = items.deep_view();
    let ghost p = |e: DriftReviewItemDocumentView| same_decision(e, item.deep_view());
    let wanted = same(&item.action, "adopt") || same(&item.action, "ignore");
    let mut found = false;
    let mut i: usize = 0;
    proof {
        ends(all);
    }
    while i < limit
        invariant
            i <= limit <= items@.len(),
            all == items.deep_view(),
            p == (|e: DriftReviewItemDocumentView| same_decision(e, item.deep_view())),
            wanted == actionable(item.deep_view()),
            found == any(all.take(i as int), p),
        decreases limit - i,
    {
        let e = &items[i];
        proof {
            step(all, i as int);
            assert(all[i as int] == e.deep_view());
        }
        if wanted && (same(&e.action, "adopt") || same(&e.action, "ignore")) && same(
            &e.kind,
            &item.kind,
        ) && same(&e.code, &item.code) && same(&e.target, &item.target) {
            found = true;
        }
        i = i + 1;
    }
    found
}

/// The items of all groups.
pub open spec fn all_items(document: DriftReviewDocumentView) -> Seq<DriftReviewItemDocumentView> {
    gathered(document.groups, |g: DriftReviewGroupDocumentView| g.items)
}

/// What is said of items that repeat an earlier one.
pub fn validate_review_document(document: &DriftReviewDocument) -> (r: Vec<String>)
    ensures
        r.deep_view() == repeated_decisions(all_items(document.deep_view())),
{
    let items = gather_each(
        &document.groups,
        |g: &DriftReviewGroupDocument| -> (r: Vec<DriftReviewItemDocument>)
            ensures
                r.deep_view() == g.deep_view().items
            { g.items.clone() },
        Ghost(|g: DriftReviewGroupDocumentView| g.items),
    );
    let ghost all = items.deep_view();
    let mut l: Vec<String> = Vec::new();
    let mut i: usize = 0;
    proof {
        ends(all);
        assert(l.deep_view() =~= Seq::<Seq<char>>::empty());
    }
    while i < items.len()
        invariant
            i <= items@.len(),
            all == items.deep_view(),
            l.deep_view() == repeated_decisions(all.take(i as int)),
        decreases items@.len() - i,
    {
        let item = &items[i];
        proof {
            step(all, i as int);
            assert(all[i as int] == item.deep_view());
        }
        let repeated = repeats_earlier(&items, i, item);
        note(
            &mut l,
            repeated,
            &cat6(
                "duplicate actionable review item kind=",
                &item.kind,
                " code=",
                &item.code,
                " target=",
                &item.target,
            ),
        );
        i = i + 1;
    }
    proof {
        ends(all);
    }
    l
}

// ---------------------------------------------------------------------------
// Applying decisions
// ---------------------------------------------------------------------------

/// A review document as read from a file, or the reason why it could not be.
#[derive(Debug)]
pub struct LoadedReview {
    pub path: String,
    pub document: Option<DriftReviewDocument>,
    pub error: String,
}

/// View of [`LoadedReview`].
#[verifier::ext_equal]
pub struct LoadedReviewView {
    pub path: Seq<char>,
    pub document: Option<DriftReviewDocumentView>,
    pub error: Seq<char>,
}

impl DeepView for LoadedReview {
    type V = LoadedReviewView;

    open spec fn deep_view(&self) -> LoadedReviewView {
        LoadedReviewView {
            path: self.path.deep_view(),
            document: self.document.deep_view(),
            error: self.error.deep_view(),
        }
    }
}

/// The outcome of a dry run, and whether the decisions are to be carried out.
#[derive(Debug)]
pub struct DriftReviewApplyPlan {
    pub report: DriftReviewApplyReport,
    pub proceed: bool,
}

/// View of [`DriftReviewApplyPlan`].
#[verifier::ext_equal]
pub struct DriftReviewApplyPlanView {
    pub report: DriftReviewApplyReportView,
    pub proceed: bool,
}

impl DeepView for DriftReviewApplyPlan {
    type V = DriftReviewApplyPlanView;

    open spec fn deep_view(&self) -> DriftReviewApplyPlanView {
        DriftReviewApplyPlanView {
            report: self.report.deep_view(),
            proceed: self.proceed,
        }
    }
}

/// What is said of an item.
pub open spec fn review_entry(
    group: Seq<char>,
    item: DriftReviewItemDocumentView,
    status: Seq<char>,
    diff: Seq<Seq<char>>,
    limitations: Seq<Seq<char>>,
) -> DriftReviewApplyEntryView {
    DriftReviewApplyEntryView {
        group,
        kind: item.kind,
        target: item.target,
        action: item.action,
        status,
        command: None,
        diff,
        changed_files: Seq::empty(),
        journal_path: None,
        warnings: Seq::empty(),
        limitations,
    }
}

/// What is said of an item that changes nothing.
pub fn build_review_entry(
    group: &str,
    item: &DriftReviewItemDocument,
    status: &str,
    diff: Vec<String>,
    limitations: Vec<String>,
) -> (r: DriftReviewApplyEntry)
    ensures
        r.deep_view() == review_entry(
            group@,
            item.deep_view(),
            status@,
            diff.deep_view(),
            limitations.deep_view(),
        ),
{
    let entry = DriftReviewApplyEntry {
        group: group.to_string(),
        kind: item.kind.clone(),
        target: item.target.clone(),
        action: item.action.clone(),
        status: status.to_string(),
        command: None,
        diff,
        changed_files: Vec::new(),
        journal_path: None,
        warnings: Vec::new(),
        limitations,
    };
    proof {
        assert(entry.changed_files.deep_view() =~= Seq::<Seq<char>>::empty());
        assert(entry.warnings.deep_view() =~= Seq::<Seq<char>>::empty());
    }
    entry
}

/// What is said of an item that cannot be carried out.
pub open spec fn blocked_entry(
    group: Seq<char>,
    item: DriftReviewItemDocumentView,
    limitations: Seq<Seq<char>>,
) -> DriftReviewApplyEntryView {
    review_entry(group, item, "blocked"@, Seq::empty(), limitations)
}

/// What is said of an item that cannot be carried out.
pub fn review_entry_blocked(
    group: &str,
    item: &DriftReviewItemDocument,
    limitations: Vec<String>,
) -> (r: DriftReviewApplyEntry)
    ensures
        r.deep_view() == blocked_entry(group@, item.deep_view(), limitations.deep_view()),
{
    let none: Vec<String> = Vec::new();
    proof {
        assert(none.deep_view() =~= Seq::<Seq<char>>::empty());
    }
    build_review_entry(group, item, "blocked", none, limitations)
}

/// What is said of an item that changes nothing: none for one that is to be
/// adopted or ignored.
pub open spec fn settled_entry(
    group_kind: Seq<char>,
    group: Seq<char>,
    item: DriftReviewItemDocumentView,
) -> Option<DriftReviewApplyEntryView> {
    let limitations = decision_limitations(group_kind, item);
    if item.action == "unknown"@ {
        Some(
            review_entry(
                group,
                item,
                "skipped"@,
                Seq::<Seq<char>>::empty().push("action is unknown; no registry change planned"@),
                limitations,
            ),
        )
    } else if item.action == "needs_cleanup"@ {
        Some(
            review_entry(
                group,
                item,
                if limitations.len() == 0 {
                    "needs_cleanup"@
                } else {
                    "blocked"@
                },
                Seq::<Seq<char>>::empty().push(
                    "cleanup marker only; opsctl does not generate destructive cleanup commands"@,
                ),
                limitations,
            ),
        )
    } else if limitations.len() > 0 {
        Some(blocked_entry(group, item, limitations))
    } else {
        None
    }
}

/// What is said of an item that changes nothing.
pub fn settle_review_item(
    group_kind: &str,
    group: &str,
    item: &DriftReviewItemDocument,
) -> (r: Option<DriftReviewApplyEntry>)
    ensures
        r.deep_view() == settled_entry(group_kind@, group@, item.deep_view()),
{
    let limitations = list_decision_limitations(group_kind, item);
    let mut diff: Vec<String> = Vec::new();
    proof {
        assert(diff.deep_view() =~= Seq::<Seq<char>>::empty());
        assert(limitations.deep_view().len() == limitations@.len());
    }
    if same(&item.action, "unknown") {
        put(&mut diff, "action is unknown; no registry change planned");
        Some(build_review_entry(group, item, "skipped", diff, limitations))
    } else if same(&item.action, "needs_cleanup") {
        put(
            &mut diff,
            "cleanup marker only; opsctl does not generate destructive cleanup commands",
        );
        let status = if limitations.len() == 0 {
            "needs_cleanup"
        } else {
            "blocked"
        };
        Some(build_review_entry(group, item, status, diff, limitations))
    } else if limitations.len() > 0 {
        Some(review_entry_blocked(group, item, limitations))
    } else {
        None
    }
}

/// The request for the rule that an item asks for.
pub open spec fn ignore_request(
    options: DriftReviewApplyOptionsView,
    registry: RegistryView,
    item: DriftReviewItemDocumentView,
) -> DriftIgnoreOptionsView {
    DriftIgnoreOptionsView {
        registry,
        registry_dir: options.registry_dir,
        state_dir: options.state_dir,
        actor: options.actor,
        kind: item.kind,
        code: Some(item.code),
        target: Some(item.target),
        target_prefix: None,
        target_suffix: None,
        target_contains: None,
        owner: item.owner,
        reason: item.reason,
        expires_at: item.expires_at,
        execute: options.execute,
    }
}

/// The request for the rule that an item asks for.
pub fn review_ignore_request<'a>(
    options: &DriftReviewApplyOptions<'a>,
    registry: &'a Registry,
    item: &'a DriftReviewItemDocument,
) -> (r: DriftIgnoreOptions<'a>)
    ensures
        r.deep_view() == ignore_request(
            options.deep_view(),
            registry.deep_view(),
            item.deep_view(),
        ),
{
    DriftIgnoreOptions {
        registry,
        registry_dir: options.registry_dir,
        state_dir: options.state_dir,
        actor: options.actor,
        kind: &item.kind,
        code: Some(item.code.as_str()),
        target: Some(item.target.as_str()),
        target_prefix: None,
        target_suffix: None,
        target_contains: None,
        owner: as_text(&item.owner),
        reason: as_text(&item.reason),
        expires_at: as_text(&item.expires_at),
        execute: options.execute,
    }
}

/// The request for the adoption that an item asks for.
pub open spec fn adopt_request(
    options: DriftReviewApplyOptionsView,
    registry: RegistryView,
    item: DriftReviewItemDocumentView,
) -> DriftAdoptOptionsView {
    DriftAdoptOptionsView {
        registry,
        registry_dir: options.registry_dir,
        state_dir: options.state_dir,
        actor: options.actor,
        kind: item.kind,
        target: item.target,
        service_id: text_or(item.service_id, ""@),
        exposure: text_or(item.exposure, "private"@),
        purpose: item.purpose,
        reason: item.reason,
        operator_note: item.operator_note,
        review_status: text_or(item.review_status, "pending"@),
        execute: options.execute,
    }
}

/// The request for the adoption that an item asks for.
pub fn review_adopt_request<'a>(
    options: &DriftReviewApplyOptions<'a>,
    registry: &'a Registry,
    item: &'a DriftReviewItemDocument,
) -> (r: DriftAdoptOptions<'a>)
    ensures
        r.deep_view() == adopt_request(options.deep_view(), registry.deep_view(), item.deep_view()),
{
    DriftAdoptOptions {
        registry,
        registry_dir: options.registry_dir,
        state_dir: options.state_dir,
        actor: options.actor,
        kind: &item.kind,
        target: &item.target,
        service_id: or_text(as_text(&item.service_id), ""),
        exposure: or_text(as_text(&item.exposure), "private"),
        purpose: as_text(&item.purpose),
        reason: as_text(&item.reason),
        operator_note: as_text(&item.operator_note),
        review_status: or_text(as_text(&item.review_status), "pending"),
        execute: options.execute,
    }
}

/// The status of an item that was carried out, or would be.
pub open spec fn carried_out(status: Seq<char>, done: Seq<char>) -> Seq<char> {
    if status == "dry_run"@ {
        "planned"@
    } else if status == done {
        "applied"@
    } else {
        "blocked"@
    }
}

/// The status of an item that was carried out, or would be.
pub fn review_status_from(status: &str, done: &str) -> (r: &'static str)
    ensures
        r@ == carried_out(status@, done@),
{
    if same(status, "dry_run") {
        "planned"
    } else if same(status, done) {
        "applied"
    } else {
        "blocked"
    }
}

/// The flag that carries a command out.
pub open spec fn execute_flag(execute: bool) -> Seq<char> {
    if execute {
        " --execute"@
    } else {
        ""@
    }
}

/// The flag that carries a command out.
pub fn write_execute_flag(execute: bool) -> (r: &'static str)
    ensures
        r@ == execute_flag(execute),
{
    if execute {
        " --execute"
    } else {
        ""
    }
}

/// What is said of an item that asks for an ignore rule.
pub open spec fn ignore_entry(
    group: Seq<char>,
    item: DriftReviewItemDocumentView,
    execute: bool,
    report: DriftIgnoreReportView,
) -> DriftReviewApplyEntryView {
    DriftReviewApplyEntryView {
        group,
        kind: item.kind,
        target: item.target,
        action: item.action,
        status: carried_out(report.status, "ignored"@),
        command: Some(
            "opsctl registry drift ignore --kind "@ + item.kind + " --target "@
                + shell_arg_hint_spec(item.target)
                + " --reason <reason> --expires-at <RFC3339>"@ + execute_flag(execute),
        ),
        diff: Seq::<Seq<char>>::empty().push(
            "policies.yml drift_ignores += kind="@ + item.kind + " target="@ + item.target
                + " reason="@ + text_or(item.reason, "-"@) + " expires_at="@ + text_or(
                item.expires_at,
                "-"@,
            ),
        ),
        changed_files: report.changed_files,
        journal_path: report.journal_path,
        warnings: report.warnings,
        limitations: report.limitations,
    }
}

/// What is said of an item that asks for an ignore rule.
pub fn build_ignore_entry(
    group: &str,
    item: &DriftReviewItemDocument,
    execute: bool,
    report: DriftIgnoreReport,
) -> (r: DriftReviewApplyEntry)
    ensures
        r.deep_view() == ignore_entry(group@, item.deep_view(), execute, report.deep_view()),
{
    let mut diff: Vec<String> = Vec::new();
    proof {
        assert(diff.deep_view() =~= Seq::<Seq<char>>::empty());
    }
    put(
        &mut diff,
        &cat8(
            "policies.yml drift_ignores += kind=",
            &item.kind,
            " target=",
            &item.target,
            " reason=",
            or_text(as_text(&item.reason), "-"),
            " expires_at=",
            or_text(as_text(&item.expires_at), "-"),
        ),
    );
    DriftReviewApplyEntry {
        group: group.to_string(),
        kind: item.kind.clone(),
        target: item.target.clone(),
        action: item.action.clone(),
        status: review_status_from(&report.status, "ignored").to_string(),
        command: Some(
            cat6(
                "opsctl registry drift ignore --kind ",
                &item.kind,
                " --target ",
                &shell_arg_hint(&item.target),
                " --reason <reason> --expires-at <RFC3339>",
                write_execute_flag(execute),
            ),
        ),
        diff,
        changed_files: report.changed_files,
        journal_path: report.journal_path,
        warnings: report.warnings,
        limitations: report.limitations,
    }
}

/// What is said of an item that asks for an adoption.
pub open spec fn adopt_entry(
    group: Seq<char>,
    item: DriftReviewItemDocumentView,
    execute: bool,
    report: DriftAdoptReportView,
) -> DriftReviewApplyEntryView {
    let service_id = text_or(item.service_id, ""@);
    let first = Seq::<Seq<char>>::empty().push(
        "registry += kind="@ + item.kind + " target="@ + item.target + " service_id="@ + service_id,
    );
    DriftReviewApplyEntryView {
        group,
        kind: item.kind,
        target: item.target,
        action: item.action,
        status: carried_out(report.status, "adopted"@),
        command: Some(
            "opsctl registry drift adopt --kind "@ + item.kind + " --target "@
                + shell_arg_hint_spec(item.target) + " --service-id "@ + shell_arg_hint_spec(
                service_id,
            ) + " --reason <reason>"@ + execute_flag(execute),
        ),
        diff: match report.record {
            Some(record) => first.push("record="@ + record_json(record, service_id)),
            None => first,
        },
        changed_files: report.changed_files,
        journal_path: report.journal_path,
        warnings: report.warnings,
        limitations: report.limitations,
    }
}

/// What is said of an item that asks for an adoption.
pub fn build_adopt_entry(
    group: &str,
    item: &DriftReviewItemDocument,
    execute: bool,
    report: DriftAdoptReport,
) -> (r: DriftReviewApplyEntry)
    ensures
        r.deep_view() == adopt_entry(group@, item.deep_view(), execute, report.deep_view()),
{
    let service_id = or_text(as_text(&item.service_id), "");
    let mut diff: Vec<String> = Vec::new();
    proof {
        assert(diff.deep_view() =~= Seq::<Seq<char>>::empty());
    }
    put(
        &mut diff,
        &cat6(
            "registry += kind=",
            &item.kind,
            " target=",
            &item.target,
            " service_id=",
            service_id,
        ),
    );
    if let Some(record) = &report.record {
        put(&mut diff, &cat2("record=", &adoption_record_json(record, service_id)));
    }
    DriftReviewApplyEntry {
        group: group.to_string(),
        kind: item.kind.clone(),
        target: item.target.clone(),
        action: item.action.clone(),
        status: review_status_from(&report.status, "adopted").to_string(),
        command: Some(
            cat8(
                "opsctl registry drift adopt --kind ",
                &item.kind,
                " --target ",
                &shell_arg_hint(&item.target),
                " --service-id ",
                &shell_arg_hint(service_id),
                " --reason <reason>",
                write_execute_flag(execute),
            ),
        ),
        diff,
        changed_files: report.changed_files,
        journal_path: report.journal_path,
        warnings: report.warnings,
        limitations: report.limitations,
    }
}

/// The options of a dry run.
pub open spec fn dry(options: DriftReviewApplyOptionsView) -> DriftReviewApplyOptionsView {
    DriftReviewApplyOptionsView { execute: false, ..options }
}

/// What a dry run says of an item.
pub open spec fn dry_entry(
    options: DriftReviewApplyOptionsView,
    registry: RegistryView,
    observation: ObservationView,
    stamp: i64,
    group_kind: Seq<char>,
    group: Seq<char>,
    item: DriftReviewItemDocumentView,
) -> DriftReviewApplyEntryView {
    match settled_entry(group_kind, group, item) {
        Some(entry) => entry,
        None => if item.action == "ignore"@ {
            ignore_entry(
                group,
                item,
                false,
                ignore_plan(
                    ignore_request(dry(options), registry, item),
                    observation,
                    stamp,
                ).report,
            )
        } else {
            adopt_entry(
                group,
                item,
                false,
                adopt_plan(
                    adopt_request(dry(options), registry, item),
                    observation.scan,
                    stamp,
                ).report,
            )
        },
    }
}

/// What a dry run says of an item.
pub fn dry_run_review_item(
    options: &DriftReviewApplyOptions<'_>,
    registry: &Registry,
    observation: &Observation,
    stamp: i64,
    group_kind: &str,
    group: &str,
    item: &DriftReviewItemDocument,
) -> (r: DriftReviewApplyEntry)
    ensures
        r.deep_view() == dry_entry(
            options.deep_view(),
            registry.deep_view(),
            observation.deep_view(),
            stamp,
            group_kind@,
            group@,
            item.deep_view(),
        ),
{
    if let Some(entry) = settle_review_item(group_kind, group, item) {
        return entry;
    }
    let dry_options = DriftReviewApplyOptions {
        registry_dir: options.registry_dir,
        state_dir: options.state_dir,
        review_file: options.review_file,
        actor: options.actor,
        execute: false,
    };
    if same(&item.action, "ignore") {
        let request = review_ignore_request(&dry_options, registry, item);
        build_ignore_entry(group, item, false, drift_ignore(&request, observation, stamp).report)
    } else {
        let request = review_adopt_request(&dry_options, registry, item);
        build_adopt_entry(
            group,
            item,
            false,
            drift_adopt(&request, &observation.scan, stamp).report,
        )
    }
}

/// What a dry run says of the items of a group.
pub open spec fn dry_group(
    options: DriftReviewApplyOptionsView,
    registry: RegistryView,
    observation: ObservationView,
    stamp: i64,
    group: DriftReviewGroupDocumentView,
) -> Seq<DriftReviewApplyEntryView> {
    group.items.map_values(
        |i: DriftReviewItemDocumentView|
            dry_entry(options, registry, observation, stamp, group.kind, group.group, i),
    )
}

/// What a dry run says of the items of a group.
pub fn dry_run_review_group(
    options: &DriftReviewApplyOptions<'_>,
    registry: &Registry,
    observation: &Observation,
    stamp: i64,
    group: &DriftReviewGroupDocument,
) -> (r: Vec<DriftReviewApplyEntry>)
    ensures
        r.deep_view() == dry_group(
            options.deep_view(),
            registry.deep_view(),
            observation.deep_view(),
            stamp,
            group.deep_view(),
        ),
{
    map_each(
        &group.items,
        |i: &DriftReviewItemDocument| -> (r: DriftReviewApplyEntry)
            ensures
                r.deep_view() == dry_entry(
                    options.deep_view(),
                    registry.deep_view(),
                    observation.deep_view(),
                    stamp,
                    group.deep_view().kind,
                    group.deep_view().group,
                    i.deep_view(),
                )
            {
                dry_run_review_item(
                    options,
                    registry,
                    observation,
                    stamp,
                    &group.kind,
                    &group.group,
                    i,
                )
            },
        Ghost(
            |i: DriftReviewItemDocumentView|
                dry_entry(
                    options.deep_view(),
                    registry.deep_view(),
                    observation.deep_view(),
                    stamp,
                    group.deep_view().kind,
                    group.deep_view().group,
                    i,
                ),
        ),
    )
}

/// What a dry run says of all items.
pub open spec fn dry_entries(
    options: DriftReviewApplyOptionsView,
    registry: RegistryView,
    observation: ObservationView,
    stamp: i64,
    document: DriftReviewDocumentView,
) -> Seq<DriftReviewApplyEntryView> {
    gathered(
        document.groups,
        |g: DriftReviewGroupDocumentView| dry_group(options, registry, observation, stamp, g),
    )
}

/// What a dry run says of all items.
pub fn dry_run_review(
    options: &DriftReviewApplyOptions<'_>,
    registry: &Registry,
    observation: &Observation,
    stamp: i64,
    document: &DriftReviewDocument,
) -> (r: Vec<DriftReviewApplyEntry>)
    ensures
        r.deep_view() == dry_entries(
            options.deep_view(),
            registry.deep_view(),
            observation.deep_view(),
            stamp,
            document.deep_view(),
        ),
{
    gather_each(
        &document.groups,
        |g: &DriftReviewGroupDocument| -> (r: Vec<DriftReviewApplyEntry>)
            ensures
                r.deep_view() == dry_group(
                    options.deep_view(),
                    registry.deep_view(),
                    observation.deep_view(),
                    stamp,
                    g.deep_view(),
                )
            { dry_run_review_group(options, registry, observation, stamp, g) },
        Ghost(
            |g: DriftReviewGroupDocumentView|
                dry_group(
                    options.deep_view(),
                    registry.deep_view(),
                    observation.deep_view(),
                    stamp,
                    g,
                ),
        ),
    )
}

// ---------------------------------------------------------------------------
// The report
// ---------------------------------------------------------------------------

/// How many entries have this status.
pub open spec fn entries_by_status(
    entries: Seq<DriftReviewApplyEntryView>,
    status: Seq<char>,
) -> nat {
    tally(entries, |e: DriftReviewApplyEntryView| e.status == status)
}

/// How many entries have this status.
pub fn count_review_status(entries: &Vec<DriftReviewApplyEntry>, status: &str) -> (r: usize)
    ensures
        r == entries_by_status(entries.deep_view(), status@),
{
    count_where(
        entries,
        |e: &DriftReviewApplyEntry| -> (b: bool)
            ensures
                b == (e.deep_view().status == status@)
            { same(&e.status, status) },
        Ghost(|e: DriftReviewApplyEntryView| e.status == status@),
    )
}

/// How many entries are left for later.
pub open spec fn entries_skipped(entries: Seq<DriftReviewApplyEntryView>) -> nat {
    tally(
        entries,
        |e: DriftReviewApplyEntryView| e.status == "skipped"@ || e.status == "needs_cleanup"@,
    )
}

/// How many entries are left for later.
pub fn count_review_skipped(entries: &Vec<DriftReviewApplyEntry>) -> (r: usize)
    ensures
        r == entries_skipped(entries.deep_view()),
{
    count_where(
        entries,
        |e: &DriftReviewApplyEntry| -> (b: bool)
            ensures
                b == (e.deep_view().status == "skipped"@ || e.deep_view().status
                    == "needs_cleanup"@)
            { same(&e.status, "skipped") || same(&e.status, "needs_cleanup") },
        Ghost(
            |e: DriftReviewApplyEntryView| e.status == "skipped"@ || e.status == "needs_cleanup"@,
        ),
    )
}

/// Everything that is wrong with a document as a whole.
pub open spec fn review_document_limitations(
    document: DriftReviewDocumentView,
    entries: nat,
) -> Seq<Seq<char>> {
    Seq::<Seq<char>>::empty() + noted(
        document.schema_version != review_schema(),
        "review schema_version must be "@ + review_schema(),
    ) + repeated_decisions(all_items(document)) + noted(
        entries == 0,
        "review document contains no items"@,
    )
}

/// The report on a document, from what came of its items.
pub open spec fn review_report(
    path: Seq<char>,
    document: DriftReviewDocumentView,
    execute: bool,
    entries: Seq<DriftReviewApplyEntryView>,
) -> DriftReviewApplyReportView {
    let limitations = review_document_limitations(document, entries.len());
    let blocked = entries_by_status(entries, "blocked"@);
    let ok = blocked == 0 && limitations.len() == 0;
    DriftReviewApplyReportView {
        ok,
        execute,
        status: if !ok {
            "blocked"@
        } else if execute {
            "applied"@
        } else {
            "dry_run"@
        },
        review_file: path,
        total_items: entries.len(),
        planned: entries_by_status(entries, "planned"@),
        applied: entries_by_status(entries, "applied"@),
        skipped: entries_skipped(entries),
        blocked,
        cleanup_candidates: entries_by_status(entries, "needs_cleanup"@),
        entries,
        changed_files: sorted_set(
            gathered(entries, |e: DriftReviewApplyEntryView| e.changed_files),
        ),
        journal_paths: sorted_set(
            chosen(entries, |e: DriftReviewApplyEntryView| e.journal_path),
        ),
        limitations,
    }
}

/// The report on a document, from what came of its items.
pub fn finish_review_apply(
    path: &str,
    document: &DriftReviewDocument,
    execute: bool,
    entries: Vec<DriftReviewApplyEntry>,
) -> (r: DriftReviewApplyReport)
    ensures
        r.deep_view() == review_report(
            path@,
            document.deep_view(),
            execute,
            entries.deep_view(),
        ),
{
    let mut l: Vec<String> = Vec::new();
    proof {
        assert(l.deep_view() =~= Seq::<Seq<char>>::empty());
        assert(entries.deep_view().len() == entries@.len());
    }
    note(
        &mut l,
        !same(&document.schema_version, review_schema_version()),
        &cat2("review schema_version must be ", review_schema_version()),
    );
    extend(&mut l, &validate_review_document(document));
    note(&mut l, entries.len() == 0, "review document contains no items");
    proof {
        assert(l.deep_view().len() == l@.len());
    }
    let files = gather_each(
        &entries,
        |e: &DriftReviewApplyEntry| -> (r: Vec<String>)
            ensures
                r.deep_view() == e.deep_view().changed_files
            { e.changed_files.clone() },
        Ghost(|e: DriftReviewApplyEntryView| e.changed_files),
    );
    let journals = choose_each(
        &entries,
        |e: &DriftReviewApplyEntry| -> (r: Option<String>)
            ensures
                r.deep_view() == e.deep_view().journal_path
            { e.journal_path.clone() },
        Ghost(|e: DriftReviewApplyEntryView| e.journal_path),
    );
    let blocked = count_review_status(&entries, "blocked");
    let ok = blocked == 0 && l.len() == 0;
    let status = if !ok {
        "blocked"
    } else if execute {
        "applied"
    } else {
        "dry_run"
    };
    DriftReviewApplyReport {
        ok,
        execute,
        status: status.to_string(),
        review_file: path.to_string(),
        total_items: entries.len(),
        planned: count_review_status(&entries, "planned"),
        applied: count_review_status(&entries, "applied"),
        skipped: count_review_skipped(&entries),
        blocked,
        cleanup_candidates: count_review_status(&entries, "needs_cleanup"),
        entries,
        changed_files: unique_sorted(files),
        journal_paths: unique_sorted(journals),
        limitations: l,
    }
}

/// What comes of a review document before anything is written. The decisions are
/// to be carried out if and only if execution is asked for and the dry run finds
/// nothing wrong.
pub open spec fn review_apply(
    options: DriftReviewApplyOptionsView,
    registry: RegistryView,
    observation: ObservationView,
    stamp: i64,
    review: LoadedReviewView,
) -> DriftReviewApplyPlanView {
    match review.document {
        None => DriftReviewApplyPlanView {
            report: DriftReviewApplyReportView {
                ok: false,
                execute: options.execute,
                status: "blocked"@,
                review_file: review.path,
                total_items: 0,
                planned: 0,
                applied: 0,
                skipped: 0,
                blocked: 1,
                cleanup_candidates: 0,
                entries: Seq::empty(),
                changed_files: Seq::empty(),
                journal_paths: Seq::empty(),
                limitations: seq![review.error],
            },
            proceed: false,
        },
        Some(document) => {
            let entries = dry_entries(options, registry, observation, stamp, document);
            let report = review_report(review.path, document, false, entries);
            DriftReviewApplyPlanView {
                report: if options.execute && !report.ok {
                    DriftReviewApplyReportView {
                        execute: true,
                        limitations: report.limitations.push(
                            "execute blocked because drift review dry-run validation failed"@,
                        ),
                        ..report
                    }
                } else {
                    report
                },
                proceed: options.execute && report.ok,
            }
        },
    }
}

/// Plans the decisions of a review document.
pub fn drift_review_apply(
    options: &DriftReviewApplyOptions<'_>,
    registry: &Registry,
    observation: &Observation,
    stamp: i64,
    review: &LoadedReview,
) -> (r: DriftReviewApplyPlan)
    ensures
        r.deep_view() == review_apply(
            options.deep_view(),
            registry.deep_view(),
            observation.deep_view(),
            stamp,
            review.deep_view(),
        ),
{
    let document = match &review.document {
        Some(document) => document,
        None => {
            let report = DriftReviewApplyReport {
                ok: false,
                execute: options.execute,
                status: "blocked".to_string(),
                review_file: review.path.clone(),
                total_items: 0,
                planned: 0,
                applied: 0,
                skipped: 0,
                blocked: 1,
                cleanup_candidates: 0,
                entries: Vec::new(),
                changed_files: Vec::new(),
                journal_paths: Vec::new(),
                limitations: vec![review.error.clone()],
            };
            proof {
                assert(report.deep_view() =~= review_apply(
                    options.deep_view(),
                    registry.deep_view(),
                    observation.deep_view(),
                    stamp,
                    review.deep_view(),
                ).report);
            }
            return DriftReviewApplyPlan { report, proceed: false };
        },
    };
    let entries = dry_run_review(options, registry, observation, stamp, document);
    let mut report = finish_review_apply(&review.path, document, false, entries);
    let ok = report.ok;
    if options.execute && !ok {
        let mut limitations = report.limitations;
        put(
            &mut limitations,
            "execute blocked because drift review dry-run validation failed",
        );
        report.limitations = limitations;
        report.execute = true;
    }
    DriftReviewApplyPlan { report, proceed: options.execute && ok }
}

// ---------------------------------------------------------------------------
// Laws
// ---------------------------------------------------------------------------

/// A document with a wrong item is never carried out, and neither is one that
/// decides twice about the same finding.
pub proof fn law_review_is_all_or_nothing(
    options: DriftReviewApplyOptionsView,
    registry: RegistryView,
    observation: ObservationView,
    stamp: i64,
    review: LoadedReviewView,
)
    requires
        review_apply(options, registry, observation, stamp, review).proceed,
    ensures
        options.execute,
        review.document is Some,
        repeated_decisions(all_items(review.document->0)).len() == 0,
        entries_by_status(
            dry_entries(options, registry, observation, stamp, review.document->0),
            "blocked"@,
        ) == 0,
{
}

/// A fresh item decides nothing: it is skipped.
pub proof fn law_exported_items_decide_nothing(
    code: Seq<char>,
    target: Seq<char>,
    suggestion: Option<DriftSuggestionView>,
    owner: Option<DriftOwnershipFindingView>,
    group_kind: Seq<char>,
    group: Seq<char>,
)
    ensures
        ({
            let entry = settled_entry(
                group_kind,
                group,
                review_item(code, target, suggestion, owner),
            );
            entry is Some && entry->0.status == "skipped"@
        }),
{
}

proof fn lemma_items_of_findings(
    findings: Seq<DriftFindingView>,
    suggestions: Seq<DriftSuggestionView>,
    owners: Seq<DriftOwnershipFindingView>,
)
    ensures
        review_items(findings, suggestions, owners).len() == tally(findings, has_target()),
        forall|k: int|
            0 <= k < review_items(findings, suggestions, owners).len() ==> exists|i: int|
                0 <= i < findings.len() && review_item_of(
                    #[trigger] findings[i],
                    suggestions,
                    owners,
                ) == Some(#[trigger] review_items(findings, suggestions, owners)[k]),
        forall|i: int|
            0 <= i < findings.len() && (#[trigger] findings[i]).target is Some ==> review_items(
                findings,
                suggestions,
                owners,
            ).contains(review_item_of(findings[i], suggestions, owners)->0),
    decreases findings.len(),
{
    if findings.len() > 0 {
        let d = findings.drop_last();
        lemma_items_of_findings(d, suggestions, owners);
        let items = review_items(findings, suggestions, owners);
        let rest = review_items(d, suggestions, owners);
        let last = findings.len() - 1;
        assert(findings[last] == findings.last());
        assert forall|k: int| 0 <= k < items.len() implies exists|i: int|
            0 <= i < findings.len() && review_item_of(
                #[trigger] findings[i],
                suggestions,
                owners,
            ) == Some(#[trigger] items[k]) by {
            if k < rest.len() {
                assert(rest[k] == items[k]);
                let i = choose|i: int|
                    0 <= i < d.len() && review_item_of(#[trigger] d[i], suggestions, owners)
                        == Some(rest[k]);
                assert(findings[i] == d[i]);
            } else {
                assert(review_item_of(findings[last], suggestions, owners) == Some(items[k]));
            }
        }
        assert forall|i: int|
            0 <= i < findings.len() && (#[trigger] findings[i]).target is Some implies items.contains(
            review_item_of(findings[i], suggestions, owners)->0,
        ) by {
            if i < last {
                assert(d[i] == findings[i]);
                let x = review_item_of(d[i], suggestions, owners)->0;
                let k = choose|k: int| 0 <= k < rest.len() && rest[k] == x;
                assert(items[k] == x);
            } else {
                assert(items[items.len() - 1] == review_item_of(
                    findings[last],
                    suggestions,
                    owners,
                )->0);
            }
        }
    }
}

proof fn lemma_counted<A>(s: Seq<A>, p: spec_fn(A) -> bool, i: int)
    requires
        0 <= i < s.len(),
        p(s[i]),
    ensures
        tally(s, p) > 0,
    decreases s.len(),
{
    if i < s.len() - 1 {
        assert(s.drop_last()[i] == s[i]);
        lemma_counted(s.drop_last(), p, i);
    }
}

proof fn lemma_active_key_is_listed(groups: Seq<DriftGroupView>, j: int)
    requires
        0 <= j < groups.len(),
        groups[j].active > 0,
    ensures
        active_keys(groups).contains((groups[j].kind, groups[j].group)),
    decreases groups.len(),
{
    let d = groups.drop_last();
    let keys = active_keys(groups);
    if j < d.len() {
        lemma_active_key_is_listed(d, j);
        let rest = active_keys(d);
        let k = choose|k: int| 0 <= k < rest.len() && rest[k] == (d[j].kind, d[j].group);
        assert(keys[k] == rest[k]);
    } else {
        assert(keys[keys.len() - 1] == (groups[j].kind, groups[j].group));
    }
}

/// Whether a finding names a target.
pub open spec fn has_target() -> spec_fn(DriftFindingView) -> bool {
    |f: DriftFindingView| f.target is Some
}

/// The key of an item of an active finding is that of a group with active findings.
proof fn lemma_active_group(drift: DriftReportView, i: int) -> (j: int)
    requires
        0 <= i < drift.findings.len(),
        drift.findings[i].target is Some,
    ensures
        ({
            let groups = drift_groups_spec(drift).groups;
            let f = drift.findings[i];
            &&& 0 <= j < groups.len()
            &&& groups[j].active > 0
            &&& groups[j].kind == review_kind(f.code)
            &&& groups[j].group == drift_group_key_spec(review_kind(f.code), f.target->0)
        }),
{
    let all = grouped_findings(drift);
    let f = drift.findings[i];
    assert(all[i] == grouped_finding(f.code, f.target, true));
    let pairs = all.map_values(|g: GroupedFindingView| (g.kind, g.group));
    law_pairs_are_ordered();
    law_sorted_values_keep_all(pairs, rank::<(String, String)>(), i);
    let keys = group_keys(all);
    let key = (all[i].kind, all[i].group);
    assert(pairs[i] == key);
    let j = choose|j: int| 0 <= j < keys.len() && keys[j] == key;
    lemma_counted(all, |g: GroupedFindingView| in_group(g, key) && g.active == true, i);
    assert(groups_of(all)[j] == group_of(all, keys[j]));
    j
}

proof fn lemma_kept_holds<A>(s: Seq<A>, p: spec_fn(A) -> bool, k: int)
    requires
        0 <= k < s.len(),
        p(s[k]),
    ensures
        kept(s, p).contains(s[k]),
    decreases s.len(),
{
    let d = s.drop_last();
    let r = kept(s, p);
    if k < d.len() {
        lemma_kept_holds(d, p, k);
        assert(d[k] == s[k]);
        let rest = kept(d, p);
        let m = choose|m: int| 0 <= m < rest.len() && rest[m] == s[k];
        assert(r[m] == s[k]);
    } else {
        assert(r[r.len() - 1] == s[k]);
    }
}

proof fn lemma_kept_passes<A>(s: Seq<A>, p: spec_fn(A) -> bool, k: int)
    requires
        0 <= k < kept(s, p).len(),
    ensures
        p(kept(s, p)[k]),
    decreases s.len(),
{
    let rest = kept(s.drop_last(), p);
    if k < rest.len() {
        lemma_kept_passes(s.drop_last(), p, k);
    }
}

proof fn lemma_review_groups(groups: Seq<DriftGroupView>, items: Seq<DriftReviewItemDocumentView>)
    ensures
        review_groups(groups, items).len() == active_keys(groups).len(),
        forall|j: int|
            0 <= j < review_groups(groups, items).len() ==> {
                let g = #[trigger] review_groups(groups, items)[j];
                let key = active_keys(groups)[j];
                &&& g.kind == key.0
                &&& g.group == key.1
                &&& g.items == group_items(items, key)
            },
    decreases groups.len(),
{
    if groups.len() > 0 {
        let d = groups.drop_last();
        lemma_review_groups(d, items);
        let rest = review_groups(d, items);
        assert forall|j: int| 0 <= j < review_groups(groups, items).len() implies {
            let g = #[trigger] review_groups(groups, items)[j];
            let key = active_keys(groups)[j];
            &&& g.kind == key.0
            &&& g.group == key.1
            &&& g.items == group_items(items, key)
        } by {
            if j < rest.len() {
                assert(review_groups(groups, items)[j] == rest[j]);
            }
        }
    }
}

/// Every active finding that names a target is exported exactly once: there are as
/// many items as such findings, the item of each is in a group, and each group holds
/// the items of its own kind and name only, which no other group has.
pub proof fn law_active_findings_are_exported_once(
    drift: DriftReportView,
    owners: Seq<DriftOwnershipFindingView>,
    generated_at: Seq<char>,
)
    ensures
        ({
            let export = review_export(drift, owners, generated_at);
            let suggestions = drift_suggest_spec(drift).suggestions;
            &&& export.items == tally(drift.findings, has_target())
            &&& forall|i: int|
                0 <= i < drift.findings.len() && (#[trigger] drift.findings[i]).target is Some
                    ==> exists|j: int|
                    0 <= j < export.review.groups.len() && (
                    #[trigger] export.review.groups[j]).items.contains(
                        review_item_of(drift.findings[i], suggestions, owners)->0,
                    )
            &&& forall|j: int, k: int|
                0 <= j < export.review.groups.len() && 0 <= k
                    < export.review.groups[j].items.len() ==> item_group()(
                    #[trigger] export.review.groups[j].items[k],
                ) == (export.review.groups[j].kind, export.review.groups[j].group)
            &&& forall|j: int, k: int|
                0 <= j < k < export.review.groups.len() ==> (
                    (#[trigger] export.review.groups[j]).kind,
                    export.review.groups[j].group,
                ) != (
                    (#[trigger] export.review.groups[k]).kind,
                    export.review.groups[k].group,
                )
        }),
{
    let suggestions = drift_suggest_spec(drift).suggestions;
    let groups = drift_groups_spec(drift).groups;
    let items = review_items(drift.findings, suggestions, owners);
    let review = review_groups(groups, items);
    law_drift_groups_are_distinct(grouped_findings(drift));
    lemma_items_of_findings(drift.findings, suggestions, owners);
    lemma_active_keys(groups);
    lemma_item_count(groups, items);
    lemma_review_groups(groups, items);
    assert forall|k: int| 0 <= k < items.len() implies active_keys(groups).contains(
        item_group()(#[trigger] items[k]),
    ) by {
        let i = choose|i: int|
            0 <= i < drift.findings.len() && review_item_of(
                #[trigger] drift.findings[i],
                suggestions,
                owners,
            ) == Some(items[k]);
        let j = lemma_active_group(drift, i);
        lemma_active_key_is_listed(groups, j);
    }
    lemma_parts_cover(items, active_keys(groups), item_group());
    assert forall|i: int|
        0 <= i < drift.findings.len() && (#[trigger] drift.findings[i]).target is Some implies exists|
        j: int,
    |
        0 <= j < review.len() && (#[trigger] review[j]).items.contains(
            review_item_of(drift.findings[i], suggestions, owners)->0,
        ) by {
        let x = review_item_of(drift.findings[i], suggestions, owners)->0;
        let g = lemma_active_group(drift, i);
        lemma_active_key_is_listed(groups, g);
        let key = (groups[g].kind, groups[g].group);
        let keys = active_keys(groups);
        let j = choose|j: int| 0 <= j < keys.len() && keys[j] == key;
        assert(review[j].items == group_items(items, key));
        let k = choose|k: int| 0 <= k < items.len() && items[k] == x;
        lemma_kept_holds(items, item_is_of(key), k);
    }
    assert forall|j: int, k: int|
        0 <= j < review.len() && 0 <= k < review[j].items.len() implies item_group()(
        #[trigger] review[j].items[k],
    ) == (review[j].kind, review[j].group) by {
        let key = active_keys(groups)[j];
        lemma_kept_passes(items, item_is_of(key), k);
    }
    let export = review_export(drift, owners, generated_at);
    assert(export.review.groups == review);
    assert(export.items == items.len());
    assert forall|j: int, k: int| 0 <= j < k < review.len() implies (
        (#[trigger] review[j]).kind,
        review[j].group,
    ) != ((#[trigger] review[k]).kind, review[k].group) by {
        assert(active_keys(groups)[j] != active_keys(groups)[k]);
    }
}

/// Whether a decision can be carried out as it stands: its item is of the group's kind, has
/// a target, and its texts fit on a line; one to ignore has a reason and an expiry, one to
/// adopt a service and a reason, and only four actions can be decided.
pub open spec fn decision_is_fine(
    group_kind: Seq<char>,
    item: DriftReviewItemDocumentView,
) -> bool {
    &&& item.kind == group_kind
    &&& item.target.len() > 0
    &&& fits_on_a_line(Some(item.target)) && fits_on_a_line(Some(item.code)) && fits_on_a_line(
        item.reason,
    ) && fits_on_a_line(item.service_id) && fits_on_a_line(item.owner) && fits_on_a_line(
        item.purpose,
    ) && fits_on_a_line(item.operator_note) && fits_on_a_line(item.cleanup_note)
    &&& item.action == "ignore"@ || item.action == "adopt"@ || item.action == "unknown"@
        || item.action == "needs_cleanup"@
    &&& item.action == "ignore"@ ==> item.reason is Some && item.reason->0.len() > 0
        && item.expires_at is Some && item.expires_at->0.len() > 0
    &&& item.action == "adopt"@ ==> item.service_id is Some && item.service_id->0.len() > 0
        && item.reason is Some && item.reason->0.len() > 0
}

/// Nothing stands against a decision exactly where it can be carried out as it stands.
pub proof fn law_what_a_decision_needs(group_kind: Seq<char>, item: DriftReviewItemDocumentView)
    ensures
        decision_limitations(group_kind, item).len() == 0 <==> decision_is_fine(group_kind, item),
{
    reveal_strlit("ignore");
    reveal_strlit("adopt");
    reveal_strlit("unknown");
    reveal_strlit("needs_cleanup");
    assert("ignore"@.len() == 6 && "adopt"@.len() == 5 && "unknown"@.len() == 7
        && "needs_cleanup"@.len() == 13);
    lemma_review_item(group_kind, item);
}

#[verifier::spinoff_prover]
#[verifier::rlimit(60)]
proof fn lemma_review_item(group_kind: Seq<char>, item: DriftReviewItemDocumentView)
    ensures
        review_item_limitations(group_kind, item).len() == 0 <==> item.kind == group_kind
            && item.target.len() > 0 && fits_on_a_line(Some(item.target)) && fits_on_a_line(
            Some(item.code),
        ) && fits_on_a_line(item.reason) && fits_on_a_line(item.service_id) && fits_on_a_line(
            item.owner,
        ) && fits_on_a_line(item.purpose) && fits_on_a_line(item.operator_note) && fits_on_a_line(
            item.cleanup_note,
        ),
{
    reveal(review_item_limitations);
}

/// What a decision comes to without being executed: nobody decided and it is skipped; it
/// is a note that cleanup is needed; something stands against it; or it is to be adopted
/// or ignored, as that comes to.
pub proof fn law_what_a_decision_comes_to(
    options: DriftReviewApplyOptionsView,
    registry: RegistryView,
    observation: ObservationView,
    stamp: i64,
    group_kind: Seq<char>,
    group: Seq<char>,
    item: DriftReviewItemDocumentView,
)
    ensures
        ({
            let e = dry_entry(options, registry, observation, stamp, group_kind, group, item);
            let fine = decision_limitations(group_kind, item).len() == 0;
            &&& e.kind == item.kind
            &&& e.target == item.target
            &&& e.action == item.action
            &&& e.group == group
            &&& item.action == "unknown"@ ==> e.status == "skipped"@
            &&& item.action == "needs_cleanup"@ ==> e.status == (if fine {
                "needs_cleanup"@
            } else {
                "blocked"@
            })
            &&& item.action != "unknown"@ && !fine ==> e.status == "blocked"@
            &&& item.action == "ignore"@ && fine ==> {
                let plan = ignore_plan(
                    DriftIgnoreOptionsView {
                        registry,
                        registry_dir: options.registry_dir,
                        state_dir: options.state_dir,
                        actor: options.actor,
                        kind: item.kind,
                        code: Some(item.code),
                        target: Some(item.target),
                        target_prefix: None,
                        target_suffix: None,
                        target_contains: None,
                        owner: item.owner,
                        reason: item.reason,
                        expires_at: item.expires_at,
                        execute: false,
                    },
                    observation,
                    stamp,
                );
                &&& e.status == (if plan.report.ok {
                    "planned"@
                } else {
                    "blocked"@
                })
                &&& !plan.write
            }
            &&& item.action == "adopt"@ && fine ==> {
                let plan = adopt_plan(
                    DriftAdoptOptionsView {
                        registry,
                        registry_dir: options.registry_dir,
                        state_dir: options.state_dir,
                        actor: options.actor,
                        kind: item.kind,
                        target: item.target,
                        service_id: item.service_id->0,
                        exposure: if item.exposure is Some {
                            item.exposure->0
                        } else {
                            "private"@
                        },
                        purpose: item.purpose,
                        reason: item.reason,
                        operator_note: item.operator_note,
                        review_status: if item.review_status is Some {
                            item.review_status->0
                        } else {
                            "pending"@
                        },
                        execute: false,
                    },
                    observation.scan,
                    stamp,
                );
                &&& e.status == (if plan.report.ok {
                    "planned"@
                } else {
                    "blocked"@
                })
                &&& !plan.write
            }
        }),
{
    reveal_strlit("unknown");
    reveal_strlit("needs_cleanup");
    reveal_strlit("ignore");
    reveal_strlit("adopt");
    reveal_strlit("dry_run");
    reveal_strlit("blocked");
    reveal_strlit("ignored");
    reveal_strlit("adopted");
    assert("unknown"@.len() == 7 && "needs_cleanup"@.len() == 13 && "ignore"@.len() == 6
        && "adopt"@.len() == 5);
    assert("dry_run"@[0] == 'd' && "blocked"@[0] == 'b' && "ignored"@[0] == 'i' && "adopted"@[0]
        == 'a');
    law_what_a_decision_needs(group_kind, item);
}

/// A review is applied exactly where it is to be executed, has the known format and some
/// items, decides on nothing twice, and nothing in it is blocked.
pub proof fn law_when_a_review_is_applied(
    options: DriftReviewApplyOptionsView,
    registry: RegistryView,
    observation: ObservationView,
    stamp: i64,
    review: LoadedReviewView,
)
    requires
        review.document is Some,
    ensures
        ({
            let document = review.document->0;
            let plan = review_apply(options, registry, observation, stamp, review);
            let entries = dry_entries(options, registry, observation, stamp, document);
            let fine = document.schema_version == "opsctl.drift_review.v1"@ && entries.len() > 0
                && repeated_decisions(all_items(document)).len() == 0 && forall|i: int|
                0 <= i < entries.len() ==> (#[trigger] entries[i]).status != "blocked"@;
            &&& plan.proceed <==> options.execute && fine
            &&& plan.report.ok <==> fine
            &&& plan.report.entries == entries
            &&& plan.report.total_items == entries.len()
            &&& plan.report.status == "blocked"@ <==> !fine
        }),
{
    let document = review.document->0;
    let entries = dry_entries(options, registry, observation, stamp, document);
    let p = |e: DriftReviewApplyEntryView| e.status == "blocked"@;
    law_tally(entries, Seq::empty(), p);
    assert(entries_by_status(entries, "blocked"@) == tally(entries, p));
    if tally(entries, p) == 0 {
        assert forall|i: int| 0 <= i < entries.len() implies (#[trigger] entries[i]).status
            != "blocked"@ by {
            if p(entries[i]) {
                assert(tally(entries, p) > 0);
            }
        }
    }
    reveal_strlit("blocked");
    reveal_strlit("applied");
    reveal_strlit("dry_run");
    assert("applied"@[0] == 'a' && "blocked"@[0] == 'b' && "dry_run"@[0] == 'd');
}

/// Something is decided on twice exactly where two items to be adopted or ignored have the
/// same kind, code and target.
pub proof fn law_repeated_decisions(items: Seq<DriftReviewItemDocumentView>)
    ensures
        repeated_decisions(items).len() > 0 <==> exists|i: int, j: int|
            0 <= i < j < items.len() && (#[trigger] items[i]).kind == (#[trigger] items[j]).kind
                && items[i].code == items[j].code && items[i].target == items[j].target && (
            items[i].action == "adopt"@ || items[i].action == "ignore"@) && (items[j].action
                == "adopt"@ || items[j].action == "ignore"@),
    decreases items.len(),
{
    if items.len() > 0 {
        let d = items.drop_last();
        let last = items.len() - 1;
        let item = items.last();
        law_repeated_decisions(d);
        assert(items[last] == item);
        assert forall|i: int| 0 <= i < d.len() implies #[trigger] d[i] == items[i] by {}
        let p = |e: DriftReviewItemDocumentView| same_decision(e, item);
        lemma_any(d, p);
        if repeated_decisions(d).len() > 0 {
            let (i, j) = choose|i: int, j: int|
                0 <= i < j < d.len() && (#[trigger] d[i]).kind == (#[trigger] d[j]).kind
                    && d[i].code == d[j].code && d[i].target == d[j].target && (d[i].action
                    == "adopt"@ || d[i].action == "ignore"@) && (d[j].action == "adopt"@
                    || d[j].action == "ignore"@);
            assert(items[i].kind == items[j].kind);
        }
        if any(d, p) {
            let i = choose|i: int| 0 <= i < d.len() && p(#[trigger] d[i]);
            assert(items[i].kind == items[last].kind);
        }
        if exists|i: int, j: int|
            0 <= i < j < items.len() && (#[trigger] items[i]).kind == (#[trigger] items[j]).kind
                && items[i].code == items[j].code && items[i].target == items[j].target && (
            items[i].action == "adopt"@ || items[i].action == "ignore"@) && (items[j].action
                == "adopt"@ || items[j].action == "ignore"@) {
            let (i, j) = choose|i: int, j: int|
                0 <= i < j < items.len() && (#[trigger] items[i]).kind == (
                #[trigger] items[j]).kind && items[i].code == items[j].code && items[i].target
                    == items[j].target && (items[i].action == "adopt"@ || items[i].action
                    == "ignore"@) && (items[j].action == "adopt"@ || items[j].action == "ignore"@);
            if j < last {
                assert(d[i].kind == d[j].kind);
            } else {
                assert(p(d[i]));
            }
        }
    }
}

/// An item of an exported review decides nothing yet, and tells what is known of its owner,
/// or else what was suggested.
pub proof fn law_exported_items_tell_what_is_known(
    code: Seq<char>,
    target: Seq<char>,
    suggestion: Option<DriftSuggestionView>,
    owner: Option<DriftOwnershipFindingView>,
)
    ensures
        ({
            let i = review_item(code, target, suggestion, owner);
            &&& i.code == code && i.target == target && i.action == "unknown"@
            &&& i.service_id is None && i.reason is None && i.expires_at is None && i.owner is None
            &&& i.review_status == Some("pending"@)
            &&& owner matches Some(o) ==> i.confidence == Some(o.confidence)
                && i.service_candidates == o.service_candidates && i.cleanup_risk == Some(
                o.cleanup_risk,
            ) && i.ownership_evidence == o.evidence && i.resource_fingerprint
                == o.resource_fingerprint && i.operator_note == Some(o.suggested_action)
            &&& owner is None ==> i.service_candidates.len() == 0 && i.ownership_evidence.len() == 0
                && i.cleanup_risk is None
            &&& owner is None && suggestion is Some ==> i.confidence == Some(
                suggestion->0.confidence,
            ) && i.operator_note == Some(suggestion->0.reason)
        }),
{
}

/// A group is exported exactly where it has active findings, with its own items.
pub proof fn law_which_groups_are_exported(
    group: DriftGroupView,
    items: Seq<DriftReviewItemDocumentView>,
    x: DriftReviewItemDocumentView,
)
    ensures
        review_group(group, items) is Some <==> group.active > 0,
        review_group(group, items) matches Some(g) ==> {
            &&& g.kind == group.kind && g.group == group.group && g.active == group.active
                && g.ignored == group.ignored
            &&& g.items.contains(x) <==> items.contains(x) && item_is_of(
                (group.kind, group.group),
            )(x)
        },
{
    law_kept(items, item_is_of((group.kind, group.group)), x);
}

/// What a review comes to: it is fine exactly where no entry is blocked and nothing stands
/// against the document; it counts its entries, and lists each file that was changed.
pub proof fn law_what_a_review_comes_to(
    path: Seq<char>,
    document: DriftReviewDocumentView,
    execute: bool,
    entries: Seq<DriftReviewApplyEntryView>,
    file: Seq<char>,
)
    ensures
        ({
            let r = review_report(path, document, execute, entries);
            let blocked = exists|i: int|
                0 <= i < entries.len() && (#[trigger] entries[i]).status == "blocked"@;
            &&& r.ok <==> !blocked && r.limitations.len() == 0
            &&& r.status == "blocked"@ <==> !r.ok
            &&& r.status == "applied"@ <==> r.ok && execute
            &&& r.status == "dry_run"@ <==> r.ok && !execute
            &&& r.blocked > 0 <==> blocked
            &&& r.total_items == entries.len()
            &&& r.applied > 0 <==> exists|i: int|
                0 <= i < entries.len() && (#[trigger] entries[i]).status == "applied"@
            &&& r.planned > 0 <==> exists|i: int|
                0 <= i < entries.len() && (#[trigger] entries[i]).status == "planned"@
            &&& r.cleanup_candidates > 0 <==> exists|i: int|
                0 <= i < entries.len() && (#[trigger] entries[i]).status == "needs_cleanup"@
            &&& r.changed_files.contains(file) <==> exists|i: int|
                0 <= i < entries.len() && (#[trigger] entries[i]).changed_files.contains(file)
        }),
{
    lemma_by_status(entries, "blocked"@);
    lemma_by_status(entries, "applied"@);
    lemma_by_status(entries, "planned"@);
    lemma_by_status(entries, "needs_cleanup"@);
    let f = |e: DriftReviewApplyEntryView| e.changed_files;
    law_gathered(entries, f, file);
    law_sorted_set(gathered(entries, f));
    if gathered(entries, f).contains(file) {
        let i = choose|i: int| 0 <= i < entries.len() && f(#[trigger] entries[i]).contains(file);
        assert(entries[i].changed_files.contains(file));
    }
    if exists|i: int|
        0 <= i < entries.len() && (#[trigger] entries[i]).changed_files.contains(file) {
        let i = choose|i: int|
            0 <= i < entries.len() && (#[trigger] entries[i]).changed_files.contains(file);
        assert(f(entries[i]).contains(file));
    }
    reveal_strlit("blocked");
    reveal_strlit("applied");
    reveal_strlit("dry_run");
    assert("applied"@[0] == 'a' && "blocked"@[0] == 'b' && "dry_run"@[0] == 'd');
}

proof fn lemma_by_status(entries: Seq<DriftReviewApplyEntryView>, status: Seq<char>)
    ensures
        entries_by_status(entries, status) > 0 <==> exists|i: int|
            0 <= i < entries.len() && (#[trigger] entries[i]).status == status,
{
    let p = |e: DriftReviewApplyEntryView| e.status == status;
    law_tally(entries, Seq::empty(), p);
    if tally(entries, p) > 0 {
        let i = choose|i: int| 0 <= i < entries.len() && p(#[trigger] entries[i]);
        assert(entries[i].status == status);
    }
    if exists|i: int| 0 <= i < entries.len() && (#[trigger] entries[i]).status == status {
        let i = choose|i: int| 0 <= i < entries.len() && (#[trigger] entries[i]).status == status;
        assert(p(entries[i]));
    }
}

/// What is known of a target is the last suggestion for it, and the last owner.
pub proof fn law_what_is_known_of_a_target(
    suggestions: Seq<DriftSuggestionView>,
    findings: Seq<DriftOwnershipFindingView>,
    target: Seq<char>,
)
    ensures
        suggestion_for(suggestions, target) is None <==> forall|i: int|
            0 <= i < suggestions.len() ==> (#[trigger] suggestions[i]).target != target,
        suggestion_for(suggestions, target) matches Some(s) ==> s.target == target
            && suggestions.contains(s),
        owner_for(findings, target) is None <==> forall|i: int|
            0 <= i < findings.len() ==> (#[trigger] findings[i]).target != target,
        owner_for(findings, target) matches Some(f) ==> f.target == target && findings.contains(f),
{
    let p = |s: DriftSuggestionView| s.target == target;
    law_last_where(suggestions, p);
    if suggestion_for(suggestions, target) is None {
        assert forall|i: int| 0 <= i < suggestions.len() implies (#[trigger] suggestions[i]).target
            != target by {
            assert(!p(suggestions[i]));
        }
    }
    let q = |f: DriftOwnershipFindingView| f.target == target;
    law_last_where(findings, q);
    if owner_for(findings, target) is None {
        assert forall|i: int| 0 <= i < findings.len() implies (#[trigger] findings[i]).target
            != target by {
            assert(!q(findings[i]));
        }
    }
}

} // verus!
