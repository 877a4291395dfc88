//! Active and ignored drift.

use vstd::prelude::*;
use crate::drift::types::{
    DriftAdoptionCandidate, DriftAdoptionCandidateView, DriftFilter, DriftFilterView, DriftFinding,
    DriftFindingView, DriftReport, DriftReportView, DriftSummaryEntry, DriftSummaryEntryView,
    IgnoredDriftFinding, IgnoredDriftFindingView,
};
use crate::list::{
    chosen, first_where, gathered, law_chosen, law_first_where, lemma_first_stays, sorted_set,
    tally, unique_sorted,
};
use crate::number::{decimal, decimal_text};
use crate::outside::{parse_rfc3339, rfc3339_nanos};
use crate::registry::{DriftIgnoreRule, DriftIgnoreRuleView, Registry, RegistryView};
use crate::scan::{
    Observation, ObservationView, ObservedPort, ObservedPortView, ScanFinding, ScanFindingView,
};
use crate::text::{
    as_text, begins, cat2, cat3, cat4, contains, contains_char, ends, ends_with, finishes, holds,
    is_text, law_found_parts_are_there, or_text, own_opt, same, starts_with, step, text_or,
};

verus! {

broadcast use {vstd::seq::group_seq_axioms, vstd::string::group_string_axioms};

/// The kind of resource that a finding with this code can be adopted as.
pub open spec fn finding_adopt_kind_spec(code: Seq<char>) -> Option<Seq<char>> {
    if code == "observed_unregistered_port"@ {
        Some("port"@)
    } else if code == "observed_unregistered_caddy_site"@ {
        Some("caddy-domain"@)
    } else if code == "observed_unregistered_docker_container"@ {
        Some("docker-container"@)
    } else if code == "observed_unregistered_compose_project"@ {
        Some("compose-project"@)
    } else if code == "observed_unregistered_docker_volume"@ {
        Some("docker-volume"@)
    } else if code == "observed_unregistered_systemd_unit"@ {
        Some("systemd-unit"@)
    } else {
        None
    }
}

/// The kind of resource that a finding with this code can be adopted as.
pub fn finding_adopt_kind(code: &str) -> (r: Option<&'static str>)
    ensures
        r.deep_view() == finding_adopt_kind_spec(code@),
{
    if same(code, "observed_unregistered_port") {
        Some("port")
    } else if same(code, "observed_unregistered_caddy_site") {
        Some("caddy-domain")
    } else if same(code, "observed_unregistered_docker_container") {
        Some("docker-container")
    } else if same(code, "observed_unregistered_compose_project") {
        Some("compose-project")
    } else if same(code, "observed_unregistered_docker_volume") {
        Some("docker-volume")
    } else if same(code, "observed_unregistered_systemd_unit") {
        Some("systemd-unit")
    } else {
        None
    }
}

/// What a finding with this code means.
pub open spec fn drift_explanation_spec(code: Seq<char>) -> Seq<char> {
    if code == "observed_unregistered_port"@ {
        "A listener exists on the server but ports.yml has no matching protocol/port. Adopt it only after confirming the owning service."@
    } else if code == "observed_port_bind_drift"@ {
        "A registered port exists but the observed bind address differs. Review whether the service is listening publicly, locally, or on IPv6 before changing facts."@
    } else if code == "observed_unregistered_caddy_site"@ {
        "A Caddy site label exists but domains.yml or services.yml does not register it. Adopt only after confirming the owning service and upstream."@
    } else if code == "observed_unregistered_docker_container"@ {
        "A Docker container is running but no registered service claims its container name. Adopt only to an existing service after confirming ownership."@
    } else if code == "observed_unregistered_compose_project"@ {
        "A Docker Compose project exists but no registered service claims its project name. Adopt only after confirming the project directory and service."@
    } else if code == "observed_unregistered_docker_volume"@ {
        "A Docker volume exists but volumes.yml or services.yml does not register it. Adopt only after confirming contents, backup policy, and ownership."@
    } else if code == "observed_unregistered_systemd_unit"@ {
        "A running systemd service exists but no registered service deployment contract declares it. Adopt only after confirming it is managed by that service."@
    } else {
        "Observed drift should be reviewed manually before changing the registry."@
    }
}

/// What a finding with this code means.
pub fn drift_explanation(code: &str) -> (r: &'static str)
    ensures
        r@ == drift_explanation_spec(code@),
{
    if same(code, "observed_unregistered_port") {
        "A listener exists on the server but ports.yml has no matching protocol/port. Adopt it only after confirming the owning service."
    } else if same(code, "observed_port_bind_drift") {
        "A registered port exists but the observed bind address differs. Review whether the service is listening publicly, locally, or on IPv6 before changing facts."
    } else if same(code, "observed_unregistered_caddy_site") {
        "A Caddy site label exists but domains.yml or services.yml does not register it. Adopt only after confirming the owning service and upstream."
    } else if same(code, "observed_unregistered_docker_container") {
        "A Docker container is running but no registered service claims its container name. Adopt only to an existing service after confirming ownership."
    } else if same(code, "observed_unregistered_compose_project") {
        "A Docker Compose project exists but no registered service claims its project name. Adopt only after confirming the project directory and service."
    } else if same(code, "observed_unregistered_docker_volume") {
        "A Docker volume exists but volumes.yml or services.yml does not register it. Adopt only after confirming contents, backup policy, and ownership."
    } else if same(code, "observed_unregistered_systemd_unit") {
        "A running systemd service exists but no registered service deployment contract declares it. Adopt only after confirming it is managed by that service."
    } else {
        "Observed drift should be reviewed manually before changing the registry."
    }
}

/// A listener as `bind:port`, with brackets around an address that has colons.
pub open spec fn endpoint_spec(bind: Seq<char>, port: u16) -> Seq<char> {
    if bind.contains(':') {
        "["@ + bind + "]:"@ + decimal(port as nat)
    } else {
        bind + ":"@ + decimal(port as nat)
    }
}

/// A listener as `bind:port`, with brackets around an address that has colons.
pub fn endpoint(bind: &str, port: u16) -> (r: String)
    ensures
        r@ == endpoint_spec(bind@, port),
{
    let number = decimal_text(port as u64);
    if contains_char(bind, ':') {
        cat4("[", bind, "]:", &number)
    } else {
        cat3(bind, ":", &number)
    }
}

// ---------------------------------------------------------------------------
// Ignore rules
// ---------------------------------------------------------------------------

/// Whether the target satisfies one of the matchers that are present; without
/// any matcher every target does.
pub open spec fn target_selected(
    exact: Option<Seq<char>>,
    prefix: Option<Seq<char>>,
    suffix: Option<Seq<char>>,
    part: Option<Seq<char>>,
    target: Seq<char>,
) -> bool {
    ||| exact is None && prefix is None && suffix is None && part is None
    ||| exact == Some(target)
    ||| prefix is Some && begins(target, prefix->0)
    ||| suffix is Some && finishes(target, suffix->0)
    ||| part is Some && holds(target, part->0)
}

/// Whether the target satisfies one of the matchers that are present.
pub fn selects_target(
    exact: Option<&str>,
    prefix: Option<&str>,
    suffix: Option<&str>,
    part: Option<&str>,
    target: &str,
) -> (r: bool)
    ensures
        r == target_selected(
            exact.deep_view(),
            prefix.deep_view(),
            suffix.deep_view(),
            part.deep_view(),
            target@,
        ),
{
    if exact.is_none() && prefix.is_none() && suffix.is_none() && part.is_none() {
        return true;
    }
    if is_text(exact, target) {
        return true;
    }
    if let Some(text) = prefix {
        if starts_with(target, text) {
            return true;
        }
    }
    if let Some(text) = suffix {
        if ends_with(target, text) {
            return true;
        }
    }
    if let Some(text) = part {
        if contains(target, text) {
            return true;
        }
    }
    false
}

/// Whether a rule speaks of a finding of this kind.
pub open spec fn ignore_matches_finding_spec(
    ignore: DriftIgnoreRuleView,
    finding: ScanFindingView,
    kind: Option<Seq<char>>,
) -> bool {
    &&& ignore.code is None || ignore.code == Some(finding.code)
    &&& ignore.kind is None || ignore.kind == kind
    &&& target_selected(
        ignore.target,
        ignore.target_prefix,
        ignore.target_suffix,
        ignore.target_contains,
        text_or(finding.target, ""@),
    )
}

/// Whether a rule speaks of a finding of this kind.
pub fn ignore_matches_finding(
    ignore: &DriftIgnoreRule,
    finding: &ScanFinding,
    kind: Option<&str>,
) -> (r: bool)
    ensures
        r == ignore_matches_finding_spec(ignore.deep_view(), finding.deep_view(), kind.deep_view()),
{
    if let Some(code) = &ignore.code {
        if !same(code, &finding.code) {
            return false;
        }
    }
    if let Some(expected) = &ignore.kind {
        if !is_text(kind, expected) {
            return false;
        }
    }
    selects_target(
        as_text(&ignore.target),
        as_text(&ignore.target_prefix),
        as_text(&ignore.target_suffix),
        as_text(&ignore.target_contains),
        or_text(as_text(&finding.target), ""),
    )
}

/// How a rule stands at a moment.
#[derive(Debug, Clone, Copy, PartialEq, Eq, Structural)]
pub enum RuleState {
    InForce,
    Expired,
    InvalidTimestamp,
}

/// How a rule stands at a moment, given the instant that its expiry denotes.
pub open spec fn rule_state_at(instant: Option<i128>, now: i128) -> RuleState {
    match instant {
        Some(instant) => if instant >= now {
            RuleState::InForce
        } else {
            RuleState::Expired
        },
        None => RuleState::InvalidTimestamp,
    }
}

/// How a rule with this expiry stands at a moment.
pub open spec fn rule_state_spec(expires_at: Option<Seq<char>>, now: i128) -> RuleState {
    match expires_at {
        None => RuleState::InForce,
        Some(text) => rule_state_at(rfc3339_nanos(text), now),
    }
}

/// How a rule stands at a moment, given the instant that its expiry denotes.
pub fn expiry_state(instant: Option<i128>, now: i128) -> (r: RuleState)
    ensures
        r == rule_state_at(instant, now),
{
    match instant {
        Some(instant) => if instant >= now {
            RuleState::InForce
        } else {
            RuleState::Expired
        },
        None => RuleState::InvalidTimestamp,
    }
}

/// How a rule with this expiry stands at a moment.
pub fn rule_state(expires_at: Option<&str>, now: i128) -> (r: RuleState)
    ensures
        r == rule_state_spec(expires_at.deep_view(), now),
{
    match expires_at {
        None => RuleState::InForce,
        Some(text) => expiry_state(parse_rfc3339(text), now),
    }
}

/// Whether a rule is active and speaks of the finding.
pub open spec fn rule_speaks(ignore: DriftIgnoreRuleView, finding: ScanFindingView) -> bool {
    ignore.status == "active"@ && ignore_matches_finding_spec(
        ignore,
        finding,
        finding_adopt_kind_spec(finding.code),
    )
}

/// Whether a rule hides the finding at a moment.
pub open spec fn rule_hides(
    ignore: DriftIgnoreRuleView,
    finding: ScanFindingView,
    now: i128,
) -> bool {
    rule_speaks(ignore, finding) && rule_state_spec(ignore.expires_at, now) is InForce
}

/// What is said of a rule that speaks of the finding but is not in force.
pub open spec fn rule_remark(
    ignore: DriftIgnoreRuleView,
    finding: ScanFindingView,
    now: i128,
) -> Seq<Seq<char>> {
    if !rule_speaks(ignore, finding) {
        Seq::empty()
    } else {
        match rule_state_spec(ignore.expires_at, now) {
            RuleState::InForce => Seq::empty(),
            RuleState::Expired => seq!["drift ignore "@ + ignore.id + " is expired"@],
            RuleState::InvalidTimestamp => seq![
                "drift ignore "@ + ignore.id + " has invalid expires_at timestamp"@,
            ],
        }
    }
}

/// The first rule that hides the finding.
pub open spec fn hiding_rule(
    rules: Seq<DriftIgnoreRuleView>,
    finding: ScanFindingView,
    now: i128,
) -> Option<DriftIgnoreRuleView> {
    first_where(rules, |rule: DriftIgnoreRuleView| rule_hides(rule, finding, now))
}

/// The remarks on the rules before the first one that hides the finding.
pub open spec fn rule_remarks(
    rules: Seq<DriftIgnoreRuleView>,
    finding: ScanFindingView,
    now: i128,
) -> Seq<Seq<char>>
    decreases rules.len(),
{
    if rules.len() == 0 {
        Seq::empty()
    } else {
        let before = rule_remarks(rules.drop_last(), finding, now);
        if hiding_rule(rules.drop_last(), finding, now) is Some {
            before
        } else {
            before + rule_remark(rules.last(), finding, now)
        }
    }
}

proof fn lemma_remarks_stop(
    rules: Seq<DriftIgnoreRuleView>,
    finding: ScanFindingView,
    now: i128,
    i: int,
    j: int,
)
    requires
        0 <= i <= j <= rules.len(),
        hiding_rule(rules.take(i), finding, now) is Some,
    ensures
        hiding_rule(rules.take(j), finding, now) == hiding_rule(rules.take(i), finding, now),
        rule_remarks(rules.take(j), finding, now) == rule_remarks(rules.take(i), finding, now),
    decreases j,
{
    if i < j {
        lemma_remarks_stop(rules, finding, now, i, j - 1);
        step(rules, j - 1);
    }
}

/// The first rule that hides the finding; remarks on the rules before it that
/// are not in force are appended to `limitations`.
pub fn matching_ignore<'a>(
    registry: &'a Registry,
    finding: &ScanFinding,
    now: i128,
    limitations: &mut Vec<String>,
) -> (r: Option<&'a DriftIgnoreRule>)
    ensures
        r.deep_view() == hiding_rule(
            registry.deep_view().policies.drift_ignores,
            finding.deep_view(),
            now,
        ),
        final(limitations).deep_view() == old(limitations).deep_view() + rule_remarks(
            registry.deep_view().policies.drift_ignores,
            finding.deep_view(),
            now,
        ),
{
    let kind = finding_adopt_kind(&finding.code);
    let rules = &registry.policies.drift_ignores;
    let ghost all = rules.deep_view();
    let ghost f = finding.deep_view();
    let ghost start = limitations.deep_view();
    let mut i: usize = 0;
    proof {
        ends(all);
        assert(start + Seq::<Seq<char>>::empty() =~= start);
    }
    while i < rules.len()
        invariant
            i <= rules@.len(),
            all == rules.deep_view(),
            all == registry.deep_view().policies.drift_ignores,
            start == old(limitations).deep_view(),
            f == finding.deep_view(),
            kind.deep_view() == finding_adopt_kind_spec(f.code),
            hiding_rule(all.take(i as int), f, now) is None,
            limitations.deep_view() == start + rule_remarks(all.take(i as int), f, now),
        decreases rules@.len() - i,
    {
        let rule = &rules[i];
        proof {
            step(all, i as int);
            assert(all[i as int] == rule.deep_view());
        }
        let ghost held = limitations.deep_view();
        if same(&rule.status, "active") && ignore_matches_finding(rule, finding, kind) {
            match rule_state(as_text(&rule.expires_at), now) {
                RuleState::InForce => {
                    proof {
                        lemma_remarks_stop(all, f, now, i + 1, all.len() as int);
                        ends(all);
                        assert(held + Seq::<Seq<char>>::empty() =~= held);
                        assert(rule_remarks(all.take(i as int), f, now)
                            + Seq::<Seq<char>>::empty() =~= rule_remarks(
                            all.take(i as int),
                            f,
                            now,
                        ));
                    }
                    return Some(rule);
                },
                RuleState::Expired => {
                    limitations.push(cat3("drift ignore ", &rule.id, " is expired"));
                },
                RuleState::InvalidTimestamp => {
                    limitations.push(
                        cat3("drift ignore ", &rule.id, " has invalid expires_at timestamp"),
                    );
                },
            }
        }
        proof {
            assert(limitations.deep_view() =~= held + rule_remark(all[i as int], f, now));
            assert(limitations.deep_view() =~= start + rule_remarks(all.take(i + 1), f, now));
        }
        i = i + 1;
    }
    proof {
        ends(all);
    }
    None
}

// ---------------------------------------------------------------------------
// The drift report
// ---------------------------------------------------------------------------

/// A scan finding with its explanation.
pub open spec fn drift_finding_spec(finding: ScanFindingView) -> DriftFindingView {
    DriftFindingView {
        severity: finding.severity,
        code: finding.code,
        target: finding.target,
        message: finding.message,
        explanation: drift_explanation_spec(finding.code),
        adoptable: finding_adopt_kind_spec(finding.code) is Some,
    }
}

/// A scan finding with its explanation.
pub fn drift_finding(finding: &ScanFinding) -> (r: DriftFinding)
    ensures
        r.deep_view() == drift_finding_spec(finding.deep_view()),
{
    DriftFinding {
        severity: finding.severity.clone(),
        code: finding.code.clone(),
        target: finding.target.clone(),
        message: finding.message.clone(),
        explanation: drift_explanation(&finding.code).to_string(),
        adoptable: finding_adopt_kind(&finding.code).is_some(),
    }
}

/// A hidden finding with the rule that hides it.
pub open spec fn ignored_drift_finding_spec(
    finding: ScanFindingView,
    ignore: DriftIgnoreRuleView,
) -> IgnoredDriftFindingView {
    IgnoredDriftFindingView {
        severity: finding.severity,
        code: finding.code,
        target: finding.target,
        message: finding.message,
        ignore_id: ignore.id,
        owner: ignore.owner,
        reason: ignore.reason,
        expires_at: ignore.expires_at,
    }
}

/// A hidden finding with the rule that hides it.
pub fn ignored_drift_finding(finding: &ScanFinding, ignore: &DriftIgnoreRule) -> (r:
    IgnoredDriftFinding)
    ensures
        r.deep_view() == ignored_drift_finding_spec(finding.deep_view(), ignore.deep_view()),
{
    IgnoredDriftFinding {
        severity: finding.severity.clone(),
        code: finding.code.clone(),
        target: finding.target.clone(),
        message: finding.message.clone(),
        ignore_id: ignore.id.clone(),
        owner: ignore.owner.clone(),
        reason: ignore.reason.clone(),
        expires_at: ignore.expires_at.clone(),
    }
}

/// The first listener at this endpoint.
pub open spec fn port_at(ports: Seq<ObservedPortView>, target: Seq<char>) -> Option<
    ObservedPortView,
> {
    first_where(ports, |p: ObservedPortView| endpoint_spec(p.bind, p.port) == target)
}

/// The first listener at this endpoint.
pub fn observed_port_at<'a>(ports: &'a Vec<ObservedPort>, target: &str) -> (r: Option<
    &'a ObservedPort,
>)
    ensures
        r.deep_view() == port_at(ports.deep_view(), target@),
{
    let ghost all = ports.deep_view();
    let mut i: usize = 0;
    proof {
        ends(all);
    }
    while i < ports.len()
        invariant
            i <= ports@.len(),
            all == ports.deep_view(),
            port_at(all.take(i as int), target@) is None,
        decreases ports@.len() - i,
    {
        proof {
            step(all, i as int);
        }
        if same(&endpoint(&ports[i].bind, ports[i].port), target) {
            proof {
                lemma_first_stays(
                    all,
                    |p: ObservedPortView| endpoint_spec(p.bind, p.port) == target@,
                    i + 1,
                    all.len() as int,
                );
                ends(all);
            }
            return Some(&ports[i]);
        }
        i = i + 1;
    }
    proof {
        ends(all);
    }
    None
}

/// How a finding can be adopted.
pub open spec fn adoption_candidate_spec(
    finding: ScanFindingView,
    ports: Seq<ObservedPortView>,
) -> Option<DriftAdoptionCandidateView> {
    match (finding_adopt_kind_spec(finding.code), finding.target) {
        (Some(kind), Some(target)) => {
            let observed = port_at(ports, target);
            let flag = if kind == "port"@ {
                ""@
            } else {
                " --kind "@ + kind
            };
            Some(
                DriftAdoptionCandidateView {
                    kind,
                    code: finding.code,
                    target,
                    protocol: match observed {
                        Some(p) => Some(p.protocol),
                        None => None,
                    },
                    bind: match observed {
                        Some(p) => Some(p.bind),
                        None => None,
                    },
                    port: match observed {
                        Some(p) => Some(p.port),
                        None => None,
                    },
                    suggested_action: "opsctl registry drift adopt"@ + flag
                        + " --target <target> --service-id <service> --execute"@,
                },
            )
        },
        _ => None,
    }
}

/// How a finding can be adopted.
pub fn adoption_candidate(finding: &ScanFinding, observed_ports: &Vec<ObservedPort>) -> (r: Option<
    DriftAdoptionCandidate,
>)
    ensures
        r.deep_view() == adoption_candidate_spec(finding.deep_view(), observed_ports.deep_view()),
{
    let kind = match finding_adopt_kind(&finding.code) {
        Some(kind) => kind,
        None => {
            return None;
        },
    };
    let target = match &finding.target {
        Some(target) => target.clone(),
        None => {
            return None;
        },
    };
    let flag = if same(kind, "port") {
        "".to_string()
    } else {
        cat2(" --kind ", kind)
    };
    let (protocol, bind, port) = match observed_port_at(observed_ports, &target) {
        Some(p) => (Some(p.protocol.clone()), Some(p.bind.clone()), Some(p.port)),
        None => (None, None, None),
    };
    Some(
        DriftAdoptionCandidate {
            kind: kind.to_string(),
            code: finding.code.clone(),
            target,
            protocol,
            bind,
            port,
            suggested_action: cat3(
                "opsctl registry drift adopt",
                &flag,
                " --target <target> --service-id <service> --execute",
            ),
        },
    )
}

/// Whether a finding passes the filter.
pub open spec fn passes(filter: DriftFilterView, finding: ScanFindingView) -> bool {
    &&& filter.code is None || filter.code == Some(finding.code)
    &&& filter.target is None || finding.target == filter.target
}

/// Whether a finding passes the filter.
pub fn filter_passes(filter: &DriftFilter<'_>, finding: &ScanFinding) -> (r: bool)
    ensures
        r == passes(filter.deep_view(), finding.deep_view()),
{
    if let Some(code) = filter.code {
        if !same(code, &finding.code) {
            return false;
        }
    }
    if let Some(target) = filter.target {
        if !is_text(as_text(&finding.target), target) {
            return false;
        }
    }
    true
}

/// The explained active findings.
pub open spec fn active_findings(
    rules: Seq<DriftIgnoreRuleView>,
    now: i128,
    filter: DriftFilterView,
    findings: Seq<ScanFindingView>,
) -> Seq<DriftFindingView> {
    chosen(
        findings,
        |f: ScanFindingView|
            if passes(filter, f) && hiding_rule(rules, f, now) is None {
                Some(drift_finding_spec(f))
            } else {
                None
            },
    )
}

/// The hidden findings, each with its rule.
pub open spec fn hidden_findings(
    rules: Seq<DriftIgnoreRuleView>,
    now: i128,
    filter: DriftFilterView,
    findings: Seq<ScanFindingView>,
) -> Seq<IgnoredDriftFindingView> {
    chosen(
        findings,
        |f: ScanFindingView|
            if passes(filter, f) {
                match hiding_rule(rules, f, now) {
                    Some(rule) => Some(ignored_drift_finding_spec(f, rule)),
                    None => None,
                }
            } else {
                None
            },
    )
}

/// How the active findings can be adopted.
pub open spec fn adoption_candidates(
    rules: Seq<DriftIgnoreRuleView>,
    now: i128,
    filter: DriftFilterView,
    ports: Seq<ObservedPortView>,
    findings: Seq<ScanFindingView>,
) -> Seq<DriftAdoptionCandidateView> {
    chosen(
        findings,
        |f: ScanFindingView|
            if passes(filter, f) && hiding_rule(rules, f, now) is None {
                adoption_candidate_spec(f, ports)
            } else {
                None
            },
    )
}

/// The codes of the findings that pass the filter.
pub open spec fn passing_codes(filter: DriftFilterView, findings: Seq<ScanFindingView>) -> Seq<
    Seq<char>,
> {
    chosen(
        findings,
        |f: ScanFindingView|
            if passes(filter, f) {
                Some(f.code)
            } else {
                None
            },
    )
}

/// The remarks on rules that are not in force.
pub open spec fn all_rule_remarks(
    rules: Seq<DriftIgnoreRuleView>,
    now: i128,
    filter: DriftFilterView,
    findings: Seq<ScanFindingView>,
) -> Seq<Seq<char>> {
    gathered(
        findings,
        |f: ScanFindingView|
            if passes(filter, f) {
                rule_remarks(rules, f, now)
            } else {
                Seq::empty()
            },
    )
}

/// How many active findings have this code.
pub open spec fn active_with_code(findings: Seq<DriftFindingView>, code: Seq<char>) -> nat {
    tally(findings, |f: DriftFindingView| f.code == code)
}

/// How many hidden findings have this code.
pub open spec fn hidden_with_code(findings: Seq<IgnoredDriftFindingView>, code: Seq<char>) -> nat {
    tally(findings, |f: IgnoredDriftFindingView| f.code == code)
}

/// The summary of one code.
pub open spec fn summary_entry(
    active: Seq<DriftFindingView>,
    hidden: Seq<IgnoredDriftFindingView>,
    code: Seq<char>,
) -> DriftSummaryEntryView {
    DriftSummaryEntryView {
        code,
        kind: finding_adopt_kind_spec(code),
        active: active_with_code(active, code),
        ignored: hidden_with_code(hidden, code),
        adoptable: finding_adopt_kind_spec(code) is Some,
    }
}

/// The drift report: every finding that passes the filter is either active or
/// hidden by the first rule in force that speaks of it.
pub open spec fn drift_report_spec(
    registry: RegistryView,
    observation: ObservationView,
    filter: DriftFilterView,
) -> DriftReportView {
    let rules = registry.policies.drift_ignores;
    let now = observation.now;
    let all = observation.scan.findings;
    let active = active_findings(rules, now, filter, all);
    let hidden = hidden_findings(rules, now, filter, all);
    let codes = sorted_set(passing_codes(filter, all));
    DriftReportView {
        ok: active.len() == 0,
        read_only: true,
        active_findings: active.len(),
        ignored_findings: hidden.len(),
        findings: active,
        ignored: hidden,
        summary: Seq::new(codes.len(), |i: int| summary_entry(active, hidden, codes[i])),
        adoption_candidates: adoption_candidates(
            rules,
            now,
            filter,
            observation.scan.detected.ports,
            all,
        ),
        limitations: sorted_set(all_rule_remarks(rules, now, filter, all)),
    }
}

/// Counts the active and hidden findings with this code.
pub fn drift_summary_entry(
    active: &Vec<DriftFinding>,
    hidden: &Vec<IgnoredDriftFinding>,
    code: &str,
) -> (r: DriftSummaryEntry)
    ensures
        r.deep_view() == summary_entry(active.deep_view(), hidden.deep_view(), code@),
{
    let ghost a = active.deep_view();
    let ghost h = hidden.deep_view();
    proof {
        ends(a);
        ends(h);
    }
    let mut n: usize = 0;
    let mut i: usize = 0;
    while i < active.len()
        invariant
            i <= active@.len(),
            a == active.deep_view(),
            n == active_with_code(a.take(i as int), code@),
            n <= i,
        decreases active@.len() - i,
    {
        proof {
            step(a, i as int);
        }
        if same(&active[i].code, code) {
            n = n + 1;
        }
        i = i + 1;
    }
    let mut m: usize = 0;
    let mut j: usize = 0;
    while j < hidden.len()
        invariant
            j <= hidden@.len(),
            h == hidden.deep_view(),
            m == hidden_with_code(h.take(j as int), code@),
            m <= j,
        decreases hidden@.len() - j,
    {
        proof {
            step(h, j as int);
        }
        if same(&hidden[j].code, code) {
            m = m + 1;
        }
        j = j + 1;
    }
    proof {
        ends(a);
        ends(h);
    }
    let kind = finding_adopt_kind(code);
    DriftSummaryEntry {
        code: code.to_string(),
        kind: own_opt(kind),
        active: n,
        ignored: m,
        adoptable: kind.is_some(),
    }
}

/// The drift report under a filter.
pub fn drift_report(registry: &Registry, observation: &Observation, filter: &DriftFilter<'_>) -> (r:
    DriftReport)
    ensures
        r.deep_view() == drift_report_spec(
            registry.deep_view(),
            observation.deep_view(),
            filter.deep_view(),
        ),
{
    let scan = &observation.scan;
    let now = observation.now;
    let ghost rules = registry.deep_view().policies.drift_ignores;
    let ghost fl = filter.deep_view();
    let ghost ports = scan.detected.ports.deep_view();
    let ghost all = scan.findings.deep_view();
    let mut limitations: Vec<String> = Vec::new();
    let mut findings: Vec<DriftFinding> = Vec::new();
    let mut ignored: Vec<IgnoredDriftFinding> = Vec::new();
    let mut codes: Vec<String> = Vec::new();
    let mut candidates: Vec<DriftAdoptionCandidate> = Vec::new();
    let mut i: usize = 0;
    proof {
        ends(all);
        assert(limitations.deep_view() =~= Seq::<Seq<char>>::empty());
        assert(codes.deep_view() =~= Seq::<Seq<char>>::empty());
        assert(findings.deep_view() =~= Seq::<DriftFindingView>::empty());
        assert(ignored.deep_view() =~= Seq::<IgnoredDriftFindingView>::empty());
        assert(candidates.deep_view() =~= Seq::<DriftAdoptionCandidateView>::empty());
    }
    while i < scan.findings.len()
        invariant
            i <= scan.findings@.len(),
            all == scan.findings.deep_view(),
            rules == registry.deep_view().policies.drift_ignores,
            fl == filter.deep_view(),
            ports == scan.detected.ports.deep_view(),
            limitations.deep_view() == all_rule_remarks(rules, now, fl, all.take(i as int)),
            findings.deep_view() == active_findings(rules, now, fl, all.take(i as int)),
            ignored.deep_view() == hidden_findings(rules, now, fl, all.take(i as int)),
            codes.deep_view() == passing_codes(fl, all.take(i as int)),
            candidates.deep_view() == adoption_candidates(
                rules,
                now,
                fl,
                ports,
                all.take(i as int),
            ),
        decreases scan.findings@.len() - i,
    {
        let finding = &scan.findings[i];
        let ghost before_limits = limitations.deep_view();
        proof {
            step(all, i as int);
            assert(before_limits + Seq::<Seq<char>>::empty() =~= before_limits);
        }
        if filter_passes(filter, finding) {
            codes.push(finding.code.clone());
            match matching_ignore(registry, finding, now, &mut limitations) {
                Some(ignore) => {
                    ignored.push(ignored_drift_finding(finding, ignore));
                },
                None => {
                    findings.push(drift_finding(finding));
                    if let Some(candidate) = adoption_candidate(finding, &scan.detected.ports) {
                        candidates.push(candidate);
                    }
                },
            }
        }
        i = i + 1;
    }
    proof {
        ends(all);
    }
    let codes = unique_sorted(codes);
    let mut summary: Vec<DriftSummaryEntry> = Vec::new();
    let mut k: usize = 0;
    while k < codes.len()
        invariant
            k <= codes@.len(),
            summary@.len() == k,
            forall|j: int|
                0 <= j < k ==> (#[trigger] summary@[j]).deep_view() == summary_entry(
                    findings.deep_view(),
                    ignored.deep_view(),
                    codes.deep_view()[j],
                ),
        decreases codes@.len() - k,
    {
        summary.push(drift_summary_entry(&findings, &ignored, &codes[k]));
        k = k + 1;
    }
    let ok = findings.is_empty();
    let active_count = findings.len();
    let ignored_count = ignored.len();
    DriftReport {
        ok,
        read_only: true,
        active_findings: active_count,
        ignored_findings: ignored_count,
        findings,
        ignored,
        summary,
        adoption_candidates: candidates,
        limitations: unique_sorted(limitations),
    }
}

/// The filter that every finding passes.
pub open spec fn no_filter() -> DriftFilterView {
    DriftFilterView { code: None, target: None }
}

/// All drift.
pub fn drift_list(registry: &Registry, observation: &Observation) -> (r: DriftReport)
    ensures
        r.deep_view() == drift_report_spec(
            registry.deep_view(),
            observation.deep_view(),
            no_filter(),
        ),
{
    drift_report(registry, observation, &DriftFilter { code: None, target: None })
}

/// The drift that passes the filter.
pub fn drift_explain(
    registry: &Registry,
    observation: &Observation,
    filter: &DriftFilter<'_>,
) -> (r: DriftReport)
    ensures
        r.deep_view() == drift_report_spec(
            registry.deep_view(),
            observation.deep_view(),
            filter.deep_view(),
        ),
{
    drift_report(registry, observation, filter)
}

// ---------------------------------------------------------------------------
// Laws
// ---------------------------------------------------------------------------

/// Whether a finding passes the filter.
pub open spec fn passing(filter: DriftFilterView) -> spec_fn(ScanFindingView) -> bool {
    |f: ScanFindingView| passes(filter, f)
}

proof fn lemma_findings_split(
    rules: Seq<DriftIgnoreRuleView>,
    now: i128,
    filter: DriftFilterView,
    findings: Seq<ScanFindingView>,
)
    ensures
        active_findings(rules, now, filter, findings).len() + hidden_findings(
            rules,
            now,
            filter,
            findings,
        ).len() == tally(findings, passing(filter)),
    decreases findings.len(),
{
    if findings.len() > 0 {
        lemma_findings_split(rules, now, filter, findings.drop_last());
    }
}

/// Every finding that passes the filter is reported once, as active or as hidden by a
/// rule, and the report is fine if and only if none is active.
pub proof fn law_findings_are_active_or_hidden(
    registry: RegistryView,
    observation: ObservationView,
    filter: DriftFilterView,
)
    ensures
        ({
            let r = drift_report_spec(registry, observation, filter);
            &&& r.active_findings + r.ignored_findings == tally(
                observation.scan.findings,
                passing(filter),
            )
            &&& r.findings.len() == r.active_findings
            &&& r.ignored.len() == r.ignored_findings
            &&& r.ok <==> r.active_findings == 0
        }),
{
    lemma_findings_split(
        registry.policies.drift_ignores,
        observation.now,
        filter,
        observation.scan.findings,
    );
}

/// Whether a finding names what a rule names: nothing in particular, this target, or one
/// that begins with, ends with or holds what the rule gives.
pub open spec fn rule_names(rule: DriftIgnoreRuleView, target: Seq<char>) -> bool {
    ||| rule.target is None && rule.target_prefix is None && rule.target_suffix is None
        && rule.target_contains is None
    ||| rule.target == Some(target)
    ||| rule.target_prefix is Some && exists|rest: Seq<char>|
        target == #[trigger] (rule.target_prefix->0 + rest)
    ||| rule.target_suffix is Some && exists|front: Seq<char>|
        target == #[trigger] (front + rule.target_suffix->0)
    ||| rule.target_contains is Some && exists|front: Seq<char>, back: Seq<char>|
        target == #[trigger] (front + rule.target_contains->0 + back)
}

/// Whether a rule that is active is about a finding.
pub open spec fn rule_is_about(rule: DriftIgnoreRuleView, finding: ScanFindingView) -> bool {
    &&& rule.status == "active"@
    &&& rule.code is None || rule.code->0 == finding.code
    &&& rule.kind is None || rule.kind == finding_adopt_kind_spec(finding.code)
    &&& rule_names(
        rule,
        if finding.target is Some {
            finding.target->0
        } else {
            ""@
        },
    )
}

/// Whether a rule has no expiry, or one that is not over.
pub open spec fn rule_lasts(rule: DriftIgnoreRuleView, now: i128) -> bool {
    rule.expires_at is Some ==> rfc3339_nanos(rule.expires_at->0) is Some && rfc3339_nanos(
        rule.expires_at->0,
    )->0 >= now
}

/// A rule hides a finding exactly where it is active, is about the finding, and has no
/// expiry or one that is not over.
pub proof fn law_what_a_rule_hides(rule: DriftIgnoreRuleView, finding: ScanFindingView, now: i128)
    ensures
        rule_speaks(rule, finding) <==> rule_is_about(rule, finding),
        rule_hides(rule, finding, now) <==> rule_is_about(rule, finding) && rule_lasts(rule, now),
        rule_remark(rule, finding, now).len() > 0 <==> rule_is_about(rule, finding) && !rule_lasts(
            rule,
            now,
        ),
        rule_is_about(rule, finding) && rule.expires_at is Some ==> match rfc3339_nanos(
            rule.expires_at->0,
        ) {
            None => rule_remark(rule, finding, now) == seq![
                "drift ignore "@ + rule.id + " has invalid expires_at timestamp"@,
            ],
            Some(instant) => instant < now ==> rule_remark(rule, finding, now) == seq![
                "drift ignore "@ + rule.id + " is expired"@,
            ],
        },
{
    let target = text_or(finding.target, ""@);
    if rule.target_prefix is Some {
        law_found_parts_are_there(target, rule.target_prefix->0);
    }
    if rule.target_suffix is Some {
        law_found_parts_are_there(target, rule.target_suffix->0);
    }
    if rule.target_contains is Some {
        law_found_parts_are_there(target, rule.target_contains->0);
    }
}

/// Whether some rule hides a finding.
pub open spec fn is_hidden(
    rules: Seq<DriftIgnoreRuleView>,
    finding: ScanFindingView,
    now: i128,
) -> bool {
    exists|r: int|
        0 <= r < rules.len() && rule_is_about(#[trigger] rules[r], finding) && rule_lasts(
            rules[r],
            now,
        )
}

/// Whether a finding is one that is asked for.
pub open spec fn asked_for(filter: DriftFilterView, finding: ScanFindingView) -> bool {
    &&& filter.code is Some ==> filter.code->0 == finding.code
    &&& filter.target is Some ==> finding.target == filter.target
}

proof fn lemma_hidden(rules: Seq<DriftIgnoreRuleView>, finding: ScanFindingView, now: i128)
    ensures
        hiding_rule(rules, finding, now) is Some <==> is_hidden(rules, finding, now),
        hiding_rule(rules, finding, now) is Some ==> exists|r: int|
            0 <= r < rules.len() && #[trigger] rules[r] == hiding_rule(rules, finding, now)->0
                && rule_is_about(rules[r], finding) && rule_lasts(rules[r], now) && forall|q: int|
                0 <= q < r ==> !(rule_is_about(#[trigger] rules[q], finding) && rule_lasts(
                    rules[q],
                    now,
                )),
{
    let p = |rule: DriftIgnoreRuleView| rule_hides(rule, finding, now);
    law_first_where(rules, p);
    assert forall|r: int| 0 <= r < rules.len() implies p(#[trigger] rules[r]) == (rule_is_about(
        rules[r],
        finding,
    ) && rule_lasts(rules[r], now)) by {
        law_what_a_rule_hides(rules[r], finding, now);
    }
    if is_hidden(rules, finding, now) {
        let r = choose|r: int|
            0 <= r < rules.len() && rule_is_about(#[trigger] rules[r], finding) && rule_lasts(
                rules[r],
                now,
            );
        assert(p(rules[r]));
    }
    if hiding_rule(rules, finding, now) is Some {
        let r = choose|r: int|
            0 <= r < rules.len() && #[trigger] rules[r] == first_where(rules, p)->0 && p(rules[r])
                && forall|q: int| 0 <= q < r ==> !p(#[trigger] rules[q]);
        assert(rule_is_about(rules[r], finding));
        assert forall|q: int| 0 <= q < r implies !(rule_is_about(#[trigger] rules[q], finding)
            && rule_lasts(rules[q], now)) by {
            assert(!p(rules[q]));
        }
    }
}

/// A finding is reported exactly where it is asked for and no rule hides it, and is
/// reported as ignored, with the first rule that hides it, exactly where one does. What
/// is reported can be adopted where its kind is known and it has a target.
pub proof fn law_which_findings_are_reported(
    registry: RegistryView,
    observation: ObservationView,
    filter: DriftFilterView,
    x: DriftFindingView,
    y: IgnoredDriftFindingView,
)
    ensures
        ({
            let rules = registry.policies.drift_ignores;
            let now = observation.now;
            let all = observation.scan.findings;
            let report = drift_report_spec(registry, observation, filter);
            &&& report.findings.contains(x) <==> exists|i: int|
                0 <= i < all.len() && asked_for(filter, #[trigger] all[i]) && !is_hidden(
                    rules,
                    all[i],
                    now,
                ) && x == drift_finding_spec(all[i])
            &&& report.ignored.contains(y) ==> exists|i: int, r: int|
                0 <= i < all.len() && 0 <= r < rules.len() && asked_for(filter, #[trigger] all[i])
                    && rule_is_about(#[trigger] rules[r], all[i]) && rule_lasts(rules[r], now) && y
                    == ignored_drift_finding_spec(all[i], rules[r])
            &&& report.ok <==> forall|i: int|
                0 <= i < all.len() && asked_for(filter, #[trigger] all[i]) ==> is_hidden(
                    rules,
                    all[i],
                    now,
                )
        }),
{
    let rules = registry.policies.drift_ignores;
    let now = observation.now;
    let all = observation.scan.findings;
    let f = |f: ScanFindingView|
        if passes(filter, f) && hiding_rule(rules, f, now) is None {
            Some(drift_finding_spec(f))
        } else {
            None
        };
    let g = |f: ScanFindingView|
        if passes(filter, f) {
            match hiding_rule(rules, f, now) {
                Some(rule) => Some(ignored_drift_finding_spec(f, rule)),
                None => None,
            }
        } else {
            None
        };
    assert forall|i: int| 0 <= i < all.len() implies (hiding_rule(rules, #[trigger] all[i], now)
        is Some) == is_hidden(rules, all[i], now) by {
        lemma_hidden(rules, all[i], now);
    }
    law_chosen(all, f, x);
    law_chosen(all, g, y);
    if exists|i: int|
        0 <= i < all.len() && asked_for(filter, #[trigger] all[i]) && !is_hidden(
            rules,
            all[i],
            now,
        ) && x == drift_finding_spec(all[i]) {
        let i = choose|i: int|
            0 <= i < all.len() && asked_for(filter, #[trigger] all[i]) && !is_hidden(
                rules,
                all[i],
                now,
            ) && x == drift_finding_spec(all[i]);
        assert(f(all[i]) == Some(x));
    }
    if chosen(all, f).contains(x) {
        let i = choose|i: int| 0 <= i < all.len() && f(#[trigger] all[i]) == Some(x);
        assert(asked_for(filter, all[i]));
    }
    if chosen(all, g).contains(y) {
        let i = choose|i: int| 0 <= i < all.len() && g(#[trigger] all[i]) == Some(y);
        lemma_hidden(rules, all[i], now);
        let r = choose|r: int|
            0 <= r < rules.len() && #[trigger] rules[r] == hiding_rule(rules, all[i], now)->0
                && rule_is_about(rules[r], all[i]) && rule_lasts(rules[r], now) && forall|q: int|
                0 <= q < r ==> !(rule_is_about(#[trigger] rules[q], all[i]) && rule_lasts(
                    rules[q],
                    now,
                ));
        assert(asked_for(filter, all[i]));
        assert(rule_is_about(rules[r], all[i]));
    }
    let active = chosen(all, f);
    if active.len() == 0 {
        assert forall|i: int|
            0 <= i < all.len() && asked_for(filter, #[trigger] all[i]) implies is_hidden(
            rules,
            all[i],
            now,
        ) by {
            if !is_hidden(rules, all[i], now) {
                let z = drift_finding_spec(all[i]);
                law_chosen(all, f, z);
                assert(f(all[i]) == Some(z));
                assert(active.contains(z));
            }
        }
    } else {
        let z = active[0];
        assert(active.contains(z));
        law_chosen(all, f, z);
        let i = choose|i: int| 0 <= i < all.len() && f(#[trigger] all[i]) == Some(z);
        assert(asked_for(filter, all[i]) && !is_hidden(rules, all[i], now));
    }
}

/// What can be adopted is told from the code of a finding: six codes stand for one kind
/// each, and no other code does.
pub proof fn law_kinds_of_findings(code: Seq<char>, other: Seq<char>)
    ensures
        finding_adopt_kind_spec("observed_unregistered_port"@) == Some("port"@),
        finding_adopt_kind_spec("observed_unregistered_caddy_site"@) == Some("caddy-domain"@),
        finding_adopt_kind_spec("observed_unregistered_docker_container"@) == Some(
            "docker-container"@,
        ),
        finding_adopt_kind_spec("observed_unregistered_compose_project"@) == Some(
            "compose-project"@,
        ),
        finding_adopt_kind_spec("observed_unregistered_docker_volume"@) == Some("docker-volume"@),
        finding_adopt_kind_spec("observed_unregistered_systemd_unit"@) == Some("systemd-unit"@),
        finding_adopt_kind_spec(code) is Some && finding_adopt_kind_spec(code)
            == finding_adopt_kind_spec(other) ==> code == other,
        finding_adopt_kind_spec(code) is Some ==> begins(code, "observed_unregistered_"@),
{
    lemma_finding_codes();
    reveal_strlit("observed_unregistered_");
    if finding_adopt_kind_spec(code) is Some {
        assert(code.subrange(0, 22) =~= "observed_unregistered_"@);
    }
}

/// The codes and the kinds of findings are all different.
pub proof fn lemma_finding_codes()
    ensures
        "observed_unregistered_port"@.len() == 26,
        "observed_unregistered_caddy_site"@.len() == 32,
        "observed_unregistered_docker_container"@.len() == 38,
        "observed_unregistered_compose_project"@.len() == 37,
        "observed_unregistered_docker_volume"@.len() == 35,
        "observed_unregistered_systemd_unit"@.len() == 34,
        "observed_unregistered_"@.len() == 22,
        forall|i: int|
            0 <= i < 22 ==> #[trigger] "observed_unregistered_"@[i]
                == "observed_unregistered_port"@[i] && "observed_unregistered_"@[i]
                == "observed_unregistered_caddy_site"@[i] && "observed_unregistered_"@[i]
                == "observed_unregistered_docker_container"@[i] && "observed_unregistered_"@[i]
                == "observed_unregistered_compose_project"@[i] && "observed_unregistered_"@[i]
                == "observed_unregistered_docker_volume"@[i] && "observed_unregistered_"@[i]
                == "observed_unregistered_systemd_unit"@[i],
        "port"@.len() == 4,
        "caddy-domain"@.len() == 12,
        "docker-container"@.len() == 16,
        "compose-project"@.len() == 15,
        "docker-volume"@.len() == 13,
        "systemd-unit"@.len() == 12,
        "systemd-unit"@[0] != "caddy-domain"@[0],
{
    reveal_strlit("observed_unregistered_port");
    reveal_strlit("observed_unregistered_caddy_site");
    reveal_strlit("observed_unregistered_docker_container");
    reveal_strlit("observed_unregistered_compose_project");
    reveal_strlit("observed_unregistered_docker_volume");
    reveal_strlit("observed_unregistered_systemd_unit");
    reveal_strlit("observed_unregistered_");
    reveal_strlit("port");
    reveal_strlit("caddy-domain");
    reveal_strlit("docker-container");
    reveal_strlit("compose-project");
    reveal_strlit("docker-volume");
    reveal_strlit("systemd-unit");
}

/// What is offered for adoption are the findings that are asked for, that no rule hides,
/// and whose kind is known and target given.
pub proof fn law_what_can_be_adopted(
    registry: RegistryView,
    observation: ObservationView,
    filter: DriftFilterView,
    kind: Seq<char>,
    target: Seq<char>,
)
    ensures
        ({
            let rules = registry.policies.drift_ignores;
            let all = observation.scan.findings;
            let offered = drift_report_spec(registry, observation, filter).adoption_candidates;
            (exists|k: int|
                0 <= k < offered.len() && (#[trigger] offered[k]).kind == kind && offered[k].target
                    == target) <==> exists|i: int|
                0 <= i < all.len() && asked_for(filter, #[trigger] all[i]) && !is_hidden(
                    rules,
                    all[i],
                    observation.now,
                ) && all[i].target == Some(target) && finding_adopt_kind_spec(all[i].code) == Some(
                    kind,
                )
        }),
{
    let rules = registry.policies.drift_ignores;
    let now = observation.now;
    let all = observation.scan.findings;
    let ports = observation.scan.detected.ports;
    let offered = drift_report_spec(registry, observation, filter).adoption_candidates;
    let f = |f: ScanFindingView|
        if passes(filter, f) && hiding_rule(rules, f, now) is None {
            adoption_candidate_spec(f, ports)
        } else {
            None
        };
    assert(offered == chosen(all, f));
    assert forall|i: int| 0 <= i < all.len() implies (hiding_rule(rules, #[trigger] all[i], now)
        is Some) == is_hidden(rules, all[i], now) by {
        lemma_hidden(rules, all[i], now);
    }
    if exists|k: int|
        0 <= k < offered.len() && (#[trigger] offered[k]).kind == kind && offered[k].target
            == target {
        let k = choose|k: int|
            0 <= k < offered.len() && (#[trigger] offered[k]).kind == kind && offered[k].target
                == target;
        assert(offered.contains(offered[k]));
        law_chosen(all, f, offered[k]);
        let i = choose|i: int| 0 <= i < all.len() && f(#[trigger] all[i]) == Some(offered[k]);
        assert(asked_for(filter, all[i]));
    }
    if exists|i: int|
        0 <= i < all.len() && asked_for(filter, #[trigger] all[i]) && !is_hidden(
            rules,
            all[i],
            now,
        ) && all[i].target == Some(target) && finding_adopt_kind_spec(all[i].code) == Some(kind) {
        let i = choose|i: int|
            0 <= i < all.len() && asked_for(filter, #[trigger] all[i]) && !is_hidden(
                rules,
                all[i],
                now,
            ) && all[i].target == Some(target) && finding_adopt_kind_spec(all[i].code) == Some(
                kind,
            );
        let x = f(all[i])->0;
        law_chosen(all, f, x);
        assert(f(all[i]) == Some(x));
        let k = choose|k: int| 0 <= k < offered.len() && offered[k] == x;
        assert(offered[k].kind == kind);
    }
}

} // verus!
