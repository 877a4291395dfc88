//! Rules that hide drift for a time.

use vstd::prelude::*;
use crate::drift::findings::{
    drift_finding, drift_finding_spec, finding_adopt_kind, finding_adopt_kind_spec, hiding_rule,
    matching_ignore, selects_target, target_selected,
};
use crate::drift::ownership::any_contains;
use crate::drift::types::{
    DriftFinding, DriftFindingView, DriftIgnoreOptions, DriftIgnoreOptionsView, DriftIgnoreReport,
    DriftIgnoreReportView,
};
use crate::drift::verify::{
    bad_expiry, expiry_is_bad, fits_on_a_line, option_remark, validate_optional_adopt_text,
};
use crate::each::{choose_each, map_each};
use crate::edits::{
    ApplyOutcome, ApplyOutcomeView, existing_ignore_rule, id_part, record_id, rule_exists,
    sanitize_id_part, unique_record_id,
};
use crate::list::{any, chosen, law_chosen, lemma_any, note, noted, put, sorted_set, unique_sorted};
use crate::outside::rfc3339_nanos;
use crate::registry::{DriftIgnoreRule, DriftIgnoreRuleView};
use crate::scan::{Observation, ObservationView, ScanFinding, ScanFindingView};
use crate::text::{
    as_text, begins, blank, byte_len, byte_size, cat2, contains_char, finishes, holds, is_blank,
    is_text, or_text, own_opt, same, text_or,
};

verus! {

broadcast use {vstd::seq::group_seq_axioms, vstd::string::group_string_axioms};

/// Whether drift of this kind can be adopted or ignored.
pub open spec fn reviewable_kind(kind: Seq<char>) -> bool {
    kind == "auto"@ || kind == "port"@ || kind == "caddy-domain"@ || kind == "docker-container"@
        || kind == "compose-project"@ || kind == "docker-volume"@ || kind == "systemd-unit"@
}

/// What is said of a kind that can be neither adopted nor ignored.
pub open spec fn kind_remark(kind: Seq<char>) -> Seq<Seq<char>> {
    noted(
        !reviewable_kind(kind),
        "kind must be auto, port, caddy-domain, docker-container, compose-project, docker-volume, or systemd-unit"@,
    )
}

/// Remarks on a kind that can be neither adopted nor ignored.
pub fn note_kind(kind: &str, limitations: &mut Vec<String>)
    ensures
        final(limitations).deep_view() == old(limitations).deep_view() + kind_remark(kind@),
{
    let known = same(kind, "auto") || same(kind, "port") || same(kind, "caddy-domain") || same(
        kind,
        "docker-container",
    ) || same(kind, "compose-project") || same(kind, "docker-volume") || same(
        kind,
        "systemd-unit",
    );
    note(
        limitations,
        !known,
        "kind must be auto, port, caddy-domain, docker-container, compose-project, docker-volume, or systemd-unit",
    );
}

/// What is said of a pattern that is too long or spans lines.
pub open spec fn pattern_remark(label: Seq<char>, value: Option<Seq<char>>) -> Seq<Seq<char>> {
    noted(
        value is Some && (byte_len(value->0) > 256 || value->0.contains('\n') || value->0.contains(
            '\r',
        )),
        label + " must be <= 256 bytes and must not contain newlines"@,
    )
}

/// Remarks on a pattern that is too long or spans lines.
pub fn note_pattern(label: &str, value: Option<&str>, limitations: &mut Vec<String>)
    ensures
        final(limitations).deep_view() == old(limitations).deep_view() + pattern_remark(
            label@,
            value.deep_view(),
        ),
{
    let bad = match value {
        Some(text) => byte_size(text) > 256 || contains_char(text, '\n') || contains_char(
            text,
            '\r',
        ),
        None => false,
    };
    note(
        limitations,
        bad,
        &cat2(label, " must be <= 256 bytes and must not contain newlines"),
    );
}

/// Everything that is wrong with the request for a rule.
#[verifier::opaque]
pub open spec fn ignore_option_limitations(options: DriftIgnoreOptionsView) -> Seq<Seq<char>> {
    Seq::empty() + kind_remark(options.kind) + noted(
        options.target is None && options.target_prefix is None && options.target_suffix is None
            && options.target_contains is None && options.code is None && options.kind == "auto"@,
        "ignore requires --target or a code/kind/pattern filter"@,
    ) + option_remark("owner"@, options.owner) + option_remark("reason"@, options.reason)
        + pattern_remark("target"@, options.target) + pattern_remark(
        "target_prefix"@,
        options.target_prefix,
    ) + pattern_remark("target_suffix"@, options.target_suffix) + pattern_remark(
        "target_contains"@,
        options.target_contains,
    ) + pattern_remark("code"@, options.code) + noted(
        bad_expiry(options.expires_at),
        "expires_at must be valid RFC3339"@,
    ) + noted(
        options.expires_at is None,
        "expires_at is required for drift ignore rules"@,
    ) + noted(blank(options.reason), "reason is required for drift ignore rules"@)
}

/// Everything that is wrong with the request for a rule.
pub fn validate_ignore_options(options: &DriftIgnoreOptions<'_>) -> (r: Vec<String>)
    ensures
        r.deep_view() == ignore_option_limitations(options.deep_view()),
{
    let mut l: Vec<String> = Vec::new();
    proof {
        reveal(ignore_option_limitations);
        assert(l.deep_view() =~= Seq::<Seq<char>>::empty());
    }
    note_kind(options.kind, &mut l);
    note(
        &mut l,
        options.target.is_none() && options.target_prefix.is_none()
            && options.target_suffix.is_none() && options.target_contains.is_none()
            && options.code.is_none() && same(options.kind, "auto"),
        "ignore requires --target or a code/kind/pattern filter",
    );
    validate_optional_adopt_text("owner", options.owner, &mut l);
    validate_optional_adopt_text("reason", options.reason, &mut l);
    note_pattern("target", options.target, &mut l);
    note_pattern("target_prefix", options.target_prefix, &mut l);
    note_pattern("target_suffix", options.target_suffix, &mut l);
    note_pattern("target_contains", options.target_contains, &mut l);
    note_pattern("code", options.code, &mut l);
    note(&mut l, expiry_is_bad(options.expires_at), "expires_at must be valid RFC3339");
    note(
        &mut l,
        options.expires_at.is_none(),
        "expires_at is required for drift ignore rules",
    );
    note(&mut l, is_blank(options.reason), "reason is required for drift ignore rules");
    l
}

/// Whether the request speaks of a finding.
pub open spec fn ignore_selects(options: DriftIgnoreOptionsView, finding: ScanFindingView) -> bool {
    &&& options.code is None || options.code == Some(finding.code)
    &&& options.kind == "auto"@ || finding_adopt_kind_spec(finding.code) == Some(options.kind)
    &&& target_selected(
        options.target,
        options.target_prefix,
        options.target_suffix,
        options.target_contains,
        text_or(finding.target, ""@),
    )
}

/// Whether the request speaks of a finding.
pub fn ignore_options_match_finding(
    options: &DriftIgnoreOptions<'_>,
    finding: &ScanFinding,
) -> (r: bool)
    ensures
        r == ignore_selects(options.deep_view(), finding.deep_view()),
{
    if let Some(code) = options.code {
        if !same(code, &finding.code) {
            return false;
        }
    }
    if !same(options.kind, "auto") && !is_text(finding_adopt_kind(&finding.code), options.kind) {
        return false;
    }
    selects_target(
        options.target,
        options.target_prefix,
        options.target_suffix,
        options.target_contains,
        or_text(as_text(&finding.target), ""),
    )
}

/// The active findings that the rule would hide.
pub open spec fn ignore_matches(
    options: DriftIgnoreOptionsView,
    findings: Seq<ScanFindingView>,
    now: i128,
) -> Seq<DriftFindingView> {
    chosen(
        findings,
        |f: ScanFindingView|
            if hiding_rule(options.registry.policies.drift_ignores, f, now) is None
                && ignore_selects(options, f) {
                Some(drift_finding_spec(f))
            } else {
                None
            },
    )
}

/// The active findings that the rule would hide.
pub fn list_ignore_matches(
    options: &DriftIgnoreOptions<'_>,
    findings: &Vec<ScanFinding>,
    now: i128,
) -> (r: Vec<DriftFinding>)
    ensures
        r.deep_view() == ignore_matches(options.deep_view(), findings.deep_view(), now),
{
    choose_each(
        findings,
        |f: &ScanFinding| -> (r: Option<DriftFinding>)
            ensures
                r.deep_view() == (if hiding_rule(
                    options.deep_view().registry.policies.drift_ignores,
                    f.deep_view(),
                    now,
                ) is None && ignore_selects(options.deep_view(), f.deep_view()) {
                    Some(drift_finding_spec(f.deep_view()))
                } else {
                    None
                })
            {
                let mut remarks: Vec<String> = Vec::new();
                if matching_ignore(options.registry, f, now, &mut remarks).is_none()
                    && ignore_options_match_finding(options, f) {
                    Some(drift_finding(f))
                } else {
                    None
                }
            },
        Ghost(
            |f: ScanFindingView|
                if hiding_rule(
                    options.deep_view().registry.policies.drift_ignores,
                    f,
                    now,
                ) is None && ignore_selects(options.deep_view(), f) {
                    Some(drift_finding_spec(f))
                } else {
                    None
                },
        ),
    )
}

/// The code that the rule names: the one asked for, or the only one that occurs.
pub open spec fn ignore_code(
    options: DriftIgnoreOptionsView,
    matched: Seq<DriftFindingView>,
) -> Option<Seq<char>> {
    let codes = sorted_set(matched.map_values(|f: DriftFindingView| f.code));
    if options.code is Some {
        options.code
    } else if codes.len() == 1 {
        Some(codes[0])
    } else {
        None
    }
}

/// The code that the rule names.
pub fn resolve_ignore_code(options: &DriftIgnoreOptions<'_>, matched: &Vec<DriftFinding>) -> (r:
    Option<String>)
    ensures
        r.deep_view() == ignore_code(options.deep_view(), matched.deep_view()),
{
    if let Some(code) = options.code {
        return Some(code.to_string());
    }
    let codes = unique_sorted(
        map_each(
            matched,
            |f: &DriftFinding| -> (r: String)
                ensures
                    r.deep_view() == f.deep_view().code
                { f.code.clone() },
            Ghost(|f: DriftFindingView| f.code),
        ),
    );
    proof {
        assert(codes.deep_view().len() == codes@.len());
    }
    if codes.len() == 1 {
        Some(codes[0].clone())
    } else {
        None
    }
}

/// The kind that the rule names: the one asked for, or the first that occurs.
pub open spec fn ignore_kind(
    options: DriftIgnoreOptionsView,
    matched: Seq<DriftFindingView>,
) -> Option<Seq<char>> {
    let kinds = sorted_set(
        chosen(matched, |f: DriftFindingView| finding_adopt_kind_spec(f.code)),
    );
    if options.kind != "auto"@ {
        Some(options.kind)
    } else if kinds.len() > 0 {
        Some(kinds[0])
    } else {
        None
    }
}

/// The kind that the rule names.
pub fn resolve_ignore_kind(options: &DriftIgnoreOptions<'_>, matched: &Vec<DriftFinding>) -> (r:
    Option<String>)
    ensures
        r.deep_view() == ignore_kind(options.deep_view(), matched.deep_view()),
{
    if !same(options.kind, "auto") {
        return Some(options.kind.to_string());
    }
    let kinds = unique_sorted(
        choose_each(
            matched,
            |f: &DriftFinding| -> (r: Option<String>)
                ensures
                    r.deep_view() == finding_adopt_kind_spec(f.deep_view().code)
                { own_opt(finding_adopt_kind(&f.code)) },
            Ghost(|f: DriftFindingView| finding_adopt_kind_spec(f.code)),
        ),
    );
    proof {
        assert(kinds.deep_view().len() == kinds@.len());
    }
    if kinds.len() > 0 {
        Some(kinds[0].clone())
    } else {
        None
    }
}

/// What the id of the rule is made from.
pub open spec fn ignore_subject(
    options: DriftIgnoreOptionsView,
    matched: Seq<DriftFindingView>,
) -> Seq<char> {
    if options.target is Some {
        options.target->0
    } else if options.target_prefix is Some {
        options.target_prefix->0
    } else if options.target_suffix is Some {
        options.target_suffix->0
    } else if options.target_contains is Some {
        options.target_contains->0
    } else if matched.len() > 0 && matched[0].target is Some {
        matched[0].target->0
    } else {
        text_or(options.code, "drift"@)
    }
}

/// What the id of the rule is made from.
pub fn resolve_ignore_subject(options: &DriftIgnoreOptions<'_>, matched: &Vec<DriftFinding>) -> (r:
    String)
    ensures
        r@ == ignore_subject(options.deep_view(), matched.deep_view()),
{
    if let Some(text) = options.target {
        return text.to_string();
    }
    if let Some(text) = options.target_prefix {
        return text.to_string();
    }
    if let Some(text) = options.target_suffix {
        return text.to_string();
    }
    if let Some(text) = options.target_contains {
        return text.to_string();
    }
    if matched.len() > 0 {
        proof {
            assert(matched.deep_view()[0] == matched@[0].deep_view());
        }
        if let Some(text) = &matched[0].target {
            return text.clone();
        }
    }
    or_text(options.code, "drift").to_string()
}

/// The ids of the rules.
pub open spec fn rule_ids(rules: Seq<DriftIgnoreRuleView>) -> Seq<Seq<char>> {
    rules.map_values(|r: DriftIgnoreRuleView| r.id)
}

/// A free id for the rule.
pub fn unique_ignore_id(
    options: &DriftIgnoreOptions<'_>,
    matched: &Vec<DriftFinding>,
    stamp: i64,
) -> (r: String)
    ensures
        r@ == record_id(
            rule_ids(options.deep_view().registry.policies.drift_ignores),
            "ignore-"@ + id_part(ignore_subject(options.deep_view(), matched.deep_view())),
            stamp,
        ),
{
    let ids = map_each(
        &options.registry.policies.drift_ignores,
        |r: &DriftIgnoreRule| -> (t: String)
            ensures
                t.deep_view() == r.deep_view().id
            { r.id.clone() },
        Ghost(|r: DriftIgnoreRuleView| r.id),
    );
    let subject = resolve_ignore_subject(options, matched);
    unique_record_id(&ids, &cat2("ignore-", &sanitize_id_part(&subject)), stamp)
}

/// The rule that hides the matched findings; none without a reason and a valid
/// expiry.
pub open spec fn ignore_rule(
    options: DriftIgnoreOptionsView,
    matched: Seq<DriftFindingView>,
    limitations: Seq<Seq<char>>,
    stamp: i64,
) -> Option<DriftIgnoreRuleView> {
    if options.reason is None || options.expires_at is None || any(
        limitations,
        |l: Seq<char>| holds(l, "expires_at"@),
    ) || any(limitations, |l: Seq<char>| holds(l, "reason is required"@)) {
        None
    } else {
        Some(
            DriftIgnoreRuleView {
                id: record_id(
                    rule_ids(options.registry.policies.drift_ignores),
                    "ignore-"@ + id_part(ignore_subject(options, matched)),
                    stamp,
                ),
                code: ignore_code(options, matched),
                kind: ignore_kind(options, matched),
                target: options.target,
                target_prefix: options.target_prefix,
                target_suffix: options.target_suffix,
                target_contains: options.target_contains,
                owner: text_or(options.owner, options.actor),
                reason: options.reason->0,
                expires_at: options.expires_at,
                status: "active"@,
            },
        )
    }
}

/// The rule that hides the matched findings.
pub fn build_ignore_rule(
    options: &DriftIgnoreOptions<'_>,
    matched: &Vec<DriftFinding>,
    limitations: &Vec<String>,
    stamp: i64,
) -> (r: Option<DriftIgnoreRule>)
    ensures
        r.deep_view() == ignore_rule(
            options.deep_view(),
            matched.deep_view(),
            limitations.deep_view(),
            stamp,
        ),
{
    let reason = match options.reason {
        Some(text) => text,
        None => {
            return None;
        },
    };
    if options.expires_at.is_none() || any_contains(limitations, "expires_at") || any_contains(
        limitations,
        "reason is required",
    ) {
        return None;
    }
    Some(
        DriftIgnoreRule {
            id: unique_ignore_id(options, matched, stamp),
            code: resolve_ignore_code(options, matched),
            kind: resolve_ignore_kind(options, matched),
            target: own_opt(options.target),
            target_prefix: own_opt(options.target_prefix),
            target_suffix: own_opt(options.target_suffix),
            target_contains: own_opt(options.target_contains),
            owner: or_text(options.owner, options.actor).to_string(),
            reason: reason.to_string(),
            expires_at: own_opt(options.expires_at),
            status: "active".to_string(),
        },
    )
}

/// The outcome of asking for a rule, and whether its rule is to be added to the
/// policies.
#[derive(Debug)]
pub struct DriftIgnorePlan {
    pub report: DriftIgnoreReport,
    pub write: bool,
}

/// View of [`DriftIgnorePlan`].
#[verifier::ext_equal]
pub struct DriftIgnorePlanView {
    pub report: DriftIgnoreReportView,
    pub write: bool,
}

impl DeepView for DriftIgnorePlan {
    type V = DriftIgnorePlanView;

    open spec fn deep_view(&self) -> DriftIgnorePlanView {
        DriftIgnorePlanView {
            report: self.report.deep_view(),
            write: self.write,
        }
    }
}

/// The report on a rule before anything is written.
pub open spec fn ignore_report(
    options: DriftIgnoreOptionsView,
    status: Seq<char>,
    ok: bool,
    rule: Option<DriftIgnoreRuleView>,
    matched: Seq<DriftFindingView>,
    warnings: Seq<Seq<char>>,
    limitations: Seq<Seq<char>>,
) -> DriftIgnoreReportView {
    DriftIgnoreReportView {
        ok,
        execute: options.execute,
        status,
        rule,
        matched_findings: matched,
        warnings,
        limitations,
        changed_files: Seq::empty(),
        rollback_performed: false,
        rollback_errors: Seq::empty(),
        journal_path: None,
        journal_written: false,
    }
}

/// The outcome of asking for a rule. The rule is to be added if and only if
/// nothing is wrong, it hides some active finding, and execution is asked for.
pub open spec fn ignore_plan(
    options: DriftIgnoreOptionsView,
    observation: ObservationView,
    stamp: i64,
) -> DriftIgnorePlanView {
    let matched = ignore_matches(options, observation.scan.findings, observation.now);
    let limitations = ignore_option_limitations(options) + noted(
        matched.len() == 0,
        "ignore rule does not match any active observed drift finding"@,
    );
    let rule = ignore_rule(options, matched, limitations, stamp);
    let ok = rule is Some && limitations.len() == 0;
    DriftIgnorePlanView {
        report: ignore_report(
            options,
            if !ok {
                "blocked"@
            } else if !options.execute {
                "dry_run"@
            } else {
                "ignored"@
            },
            ok,
            rule,
            matched,
            Seq::empty() + noted(
                rule is Some && rule_exists(options.registry.policies.drift_ignores, rule->0),
                "an equivalent active drift ignore rule already exists"@,
            ),
            limitations,
        ),
        write: ok && options.execute,
    }
}

/// Asks for a rule that hides drift until it expires.
pub fn drift_ignore(options: &DriftIgnoreOptions<'_>, observation: &Observation, stamp: i64) -> (r:
    DriftIgnorePlan)
    ensures
        r.deep_view() == ignore_plan(options.deep_view(), observation.deep_view(), stamp),
{
    let mut limitations = validate_ignore_options(options);
    let matched = list_ignore_matches(options, &observation.scan.findings, observation.now);
    proof {
        assert(matched.deep_view().len() == matched@.len());
    }
    note(
        &mut limitations,
        matched.len() == 0,
        "ignore rule does not match any active observed drift finding",
    );
    proof {
        assert(limitations.deep_view().len() == limitations@.len());
    }
    let rule = build_ignore_rule(options, &matched, &limitations, stamp);
    let mut warnings: Vec<String> = Vec::new();
    proof {
        assert(warnings.deep_view() =~= Seq::<Seq<char>>::empty());
    }
    let known = match &rule {
        Some(r) => existing_ignore_rule(&options.registry.policies.drift_ignores, r),
        None => false,
    };
    note(&mut warnings, known, "an equivalent active drift ignore rule already exists");
    let ok = rule.is_some() && limitations.len() == 0;
    let status = if !ok {
        "blocked"
    } else if !options.execute {
        "dry_run"
    } else {
        "ignored"
    };
    let report = DriftIgnoreReport {
        ok,
        execute: options.execute,
        status: status.to_string(),
        rule,
        matched_findings: matched,
        warnings,
        limitations,
        changed_files: Vec::new(),
        rollback_performed: false,
        rollback_errors: Vec::new(),
        journal_path: None,
        journal_written: false,
    };
    proof {
        assert(report.changed_files.deep_view() =~= Seq::<Seq<char>>::empty());
        assert(report.rollback_errors.deep_view() =~= Seq::<Seq<char>>::empty());
    }
    DriftIgnorePlan { report, write: ok && options.execute }
}

/// The report on a rule after the policies were written, or could not be.
pub open spec fn written_ignore(
    report: DriftIgnoreReportView,
    outcome: ApplyOutcomeView,
) -> DriftIgnoreReportView {
    DriftIgnoreReportView {
        ok: report.ok && outcome.error is None,
        status: if outcome.error is Some {
            "failed"@
        } else {
            report.status
        },
        limitations: match outcome.error {
            Some(error) => report.limitations.push(error),
            None => report.limitations,
        },
        changed_files: outcome.changed_files,
        rollback_performed: outcome.rollback_performed,
        rollback_errors: outcome.rollback_errors,
        ..report
    }
}

/// The report on a rule after the policies were written, or could not be.
pub fn finish_ignore(report: DriftIgnoreReport, outcome: ApplyOutcome) -> (r: DriftIgnoreReport)
    ensures
        r.deep_view() == written_ignore(report.deep_view(), outcome.deep_view()),
{
    let mut report = report;
    if let Some(error) = &outcome.error {
        let mut limitations = report.limitations;
        put(&mut limitations, error);
        report.limitations = limitations;
        report.ok = false;
        report.status = "failed".to_string();
    }
    report.changed_files = outcome.changed_files;
    report.rollback_performed = outcome.rollback_performed;
    report.rollback_errors = outcome.rollback_errors;
    report
}

// ---------------------------------------------------------------------------
// Laws
// ---------------------------------------------------------------------------

/// Every rule that is to be added has a reason and an expiry, is active, and
/// hides some finding that was active.
pub proof fn law_new_rules_expire(
    options: DriftIgnoreOptionsView,
    observation: ObservationView,
    stamp: i64,
)
    requires
        ignore_plan(options, observation, stamp).write,
    ensures
        ({
            let report = ignore_plan(options, observation, stamp).report;
            &&& report.rule is Some
            &&& report.rule->0.status == "active"@
            &&& report.rule->0.reason.len() > 0
            &&& report.rule->0.expires_at is Some
            &&& rfc3339_nanos(report.rule->0.expires_at->0) is Some
            &&& report.matched_findings.len() > 0
        }),
{
    reveal(ignore_option_limitations);
}

/// Nothing is written in a dry run.
pub proof fn law_dry_run_ignore_writes_nothing(
    options: DriftIgnoreOptionsView,
    observation: ObservationView,
    stamp: i64,
)
    requires
        !options.execute,
    ensures
        !ignore_plan(options, observation, stamp).write,
{
}

/// A text that can stand in a rule: at most 256 bytes, and on one line.
pub open spec fn fits_a_rule(value: Option<Seq<char>>) -> bool {
    value is Some ==> byte_len(value->0) <= 256 && !value->0.contains('\n') && !value->0.contains(
        '\r',
    )
}

/// Whether a rule that is asked for can be made.
pub open spec fn rule_can_be_made(options: DriftIgnoreOptionsView) -> bool {
    &&& {
        ||| options.kind == "auto"@
        ||| options.kind == "port"@
        ||| options.kind == "caddy-domain"@
        ||| options.kind == "docker-container"@
        ||| options.kind == "compose-project"@
        ||| options.kind == "docker-volume"@
        ||| options.kind == "systemd-unit"@
    }
    &&& options.target is Some || options.target_prefix is Some || options.target_suffix is Some
        || options.target_contains is Some || options.code is Some || options.kind != "auto"@
    &&& fits_on_a_line(options.owner)
    &&& fits_on_a_line(options.reason)
    &&& fits_a_rule(options.target)
    &&& fits_a_rule(options.target_prefix)
    &&& fits_a_rule(options.target_suffix)
    &&& fits_a_rule(options.target_contains)
    &&& fits_a_rule(options.code)
    &&& options.expires_at is Some && rfc3339_nanos(options.expires_at->0) is Some
    &&& options.reason is Some && options.reason->0.len() > 0
}

#[verifier::spinoff_prover]
#[verifier::rlimit(60)]
proof fn lemma_rule_can_be_made(options: DriftIgnoreOptionsView)
    ensures
        ignore_option_limitations(options).len() == 0 <==> rule_can_be_made(options),
{
    reveal(ignore_option_limitations);
    let s0 = Seq::<Seq<char>>::empty();
    let s1 = s0 + kind_remark(options.kind);
    let s2 = s1 + noted(
        options.target is None && options.target_prefix is None && options.target_suffix is None
            && options.target_contains is None && options.code is None && options.kind == "auto"@,
        "ignore requires --target or a code/kind/pattern filter"@,
    );
    let s3 = s2 + option_remark("owner"@, options.owner);
    let s4 = s3 + option_remark("reason"@, options.reason);
    assert(s4.len() == 0 <==> s2.len() == 0 && fits_on_a_line(options.owner) && fits_on_a_line(
        options.reason,
    ));
    let s5 = s4 + pattern_remark("target"@, options.target);
    let s6 = s5 + pattern_remark("target_prefix"@, options.target_prefix);
    let s7 = s6 + pattern_remark("target_suffix"@, options.target_suffix);
    let s8 = s7 + pattern_remark("target_contains"@, options.target_contains);
    let s9 = s8 + pattern_remark("code"@, options.code);
    assert(s9.len() == 0 <==> s4.len() == 0 && fits_a_rule(options.target) && fits_a_rule(
        options.target_prefix,
    ) && fits_a_rule(options.target_suffix) && fits_a_rule(options.target_contains) && fits_a_rule(
        options.code,
    ));
    let s10 = s9 + noted(bad_expiry(options.expires_at), "expires_at must be valid RFC3339"@);
    let s11 = s10 + noted(
        options.expires_at is None,
        "expires_at is required for drift ignore rules"@,
    );
    let s12 = s11 + noted(blank(options.reason), "reason is required for drift ignore rules"@);
    assert(s12.len() == 0 <==> s9.len() == 0 && options.expires_at is Some && rfc3339_nanos(
        options.expires_at->0,
    ) is Some && options.reason is Some && options.reason->0.len() > 0);
    assert(equal(ignore_option_limitations(options), s12));
}

/// Whether a finding is one that the asked-for rule is about.
pub open spec fn rule_would_cover(
    options: DriftIgnoreOptionsView,
    finding: ScanFindingView,
) -> bool {
    let target = if finding.target is Some {
        finding.target->0
    } else {
        ""@
    };
    &&& options.code is None || options.code->0 == finding.code
    &&& options.kind == "auto"@ || finding_adopt_kind_spec(finding.code) == Some(options.kind)
    &&& {
        ||| options.target is None && options.target_prefix is None && options.target_suffix is None
            && options.target_contains is None
        ||| options.target == Some(target)
        ||| options.target_prefix is Some && begins(target, options.target_prefix->0)
        ||| options.target_suffix is Some && finishes(target, options.target_suffix->0)
        ||| options.target_contains is Some && holds(target, options.target_contains->0)
    }
}

/// A rule is accepted exactly where it can be made and is about a finding that no rule
/// hides yet. It is written where it is also to be executed. It is active, and says what
/// was asked for.
pub proof fn law_which_rules_are_accepted(
    options: DriftIgnoreOptionsView,
    observation: ObservationView,
    stamp: i64,
)
    ensures
        ({
            let plan = ignore_plan(options, observation, stamp);
            let all = observation.scan.findings;
            let rules = options.registry.policies.drift_ignores;
            &&& plan.report.ok <==> rule_can_be_made(options) && exists|i: int|
                0 <= i < all.len() && hiding_rule(rules, #[trigger] all[i], observation.now) is None
                    && rule_would_cover(options, all[i])
            &&& plan.write <==> plan.report.ok && options.execute
            &&& plan.report.status == "blocked"@ <==> !plan.report.ok
            &&& plan.report.status == "ignored"@ <==> plan.write
            &&& plan.report.rule matches Some(rule) ==> {
                &&& rule.status == "active"@
                &&& rule.target == options.target
                &&& rule.target_prefix == options.target_prefix
                &&& rule.target_suffix == options.target_suffix
                &&& rule.target_contains == options.target_contains
                &&& Some(rule.reason) == options.reason
                &&& rule.expires_at == options.expires_at
                &&& rule.owner == (if options.owner is Some {
                    options.owner->0
                } else {
                    options.actor
                })
                &&& options.code is Some ==> rule.code == options.code
                &&& options.kind != "auto"@ ==> rule.kind == Some(options.kind)
            }
        }),
{
    let all = observation.scan.findings;
    let now = observation.now;
    let rules = options.registry.policies.drift_ignores;
    let matched = ignore_matches(options, all, now);
    let f = |f: ScanFindingView|
        if hiding_rule(options.registry.policies.drift_ignores, f, now) is None && ignore_selects(
            options,
            f,
        ) {
            Some(drift_finding_spec(f))
        } else {
            None
        };
    assert(matched == chosen(all, f));
    if matched.len() > 0 {
        assert(matched.contains(matched[0]));
        law_chosen(all, f, matched[0]);
        let i = choose|i: int| 0 <= i < all.len() && f(#[trigger] all[i]) == Some(matched[0]);
        assert(rule_would_cover(options, all[i]));
    }
    if exists|i: int|
        0 <= i < all.len() && hiding_rule(rules, #[trigger] all[i], now) is None
            && rule_would_cover(options, all[i]) {
        let i = choose|i: int|
            0 <= i < all.len() && hiding_rule(rules, #[trigger] all[i], now) is None
                && rule_would_cover(options, all[i]);
        let x = drift_finding_spec(all[i]);
        law_chosen(all, f, x);
        assert(f(all[i]) == Some(x));
        assert(matched.contains(x));
    }
    lemma_rule_can_be_made(options);
    let limits = ignore_option_limitations(options) + noted(
        matched.len() == 0,
        "ignore rule does not match any active observed drift finding"@,
    );
    if limits.len() == 0 {
        let p = |l: Seq<char>| holds(l, "expires_at"@);
        let q = |l: Seq<char>| holds(l, "reason is required"@);
        lemma_any(limits, p);
        lemma_any(limits, q);
    }
    reveal_strlit("blocked");
    reveal_strlit("dry_run");
    reveal_strlit("ignored");
    assert("blocked"@[0] == 'b' && "dry_run"@[0] == 'd' && "ignored"@[0] == 'i');
}

/// What writing a rule comes to: it is as good as it was planned exactly where nothing
/// failed, and tells what was changed and rolled back.
pub proof fn law_written_rules(report: DriftIgnoreReportView, outcome: ApplyOutcomeView)
    ensures
        ({
            let r = written_ignore(report, outcome);
            &&& r.ok <==> report.ok && outcome.error is None
            &&& outcome.error is Some ==> r.status == "failed"@ && r.limitations
                == report.limitations.push(outcome.error->0)
            &&& outcome.error is None ==> r.status == report.status && r.limitations
                == report.limitations
            &&& r.changed_files == outcome.changed_files
            &&& r.rollback_performed == outcome.rollback_performed
            &&& r.rollback_errors == outcome.rollback_errors
        }),
{
}

} // verus!
