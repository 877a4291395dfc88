//! Resources that may be cleaned up, and the cleanup request made of them.

use vstd::prelude::*;
use crate::drift::findings::{
    drift_list, drift_report_spec, finding_adopt_kind, finding_adopt_kind_spec,
    lemma_finding_codes, no_filter,
};
use crate::drift::ownership::{
    container_at, observed_container, observed_project, observed_volume, project_at, volume_at,
};
use crate::drift::types::{
    DriftCleanupCandidate, DriftCleanupCandidateView, DriftCleanupPlanReport,
    DriftCleanupPlanReportView, DriftCleanupRequestDocument, DriftCleanupRequestDocumentView,
    DriftCleanupRequestExportReport, DriftCleanupRequestExportReportView, DriftCleanupRequestItem,
    DriftCleanupRequestItemView, DriftFinding, DriftFindingView,
};
use crate::list::{any, chosen, law_chosen};
use crate::number::{padded, padded_text};
use crate::registry::{Registry, RegistryView};
use crate::scan::{Observation, ObservationView, ScanReport, ScanReportView};
use crate::text::{
    alnum, begins, cat2, cat6, chars_of, ends, is_alnum, is_char, law_found_parts_are_there,
    law_parts_are_found, same, small, starts_with, step, text_of, to_small, trim_char, trimmed_by,
};

verus! {

broadcast use {vstd::seq::group_seq_axioms, vstd::string::group_string_axioms};

/// The schema version of a cleanup request.
pub open spec fn request_schema() -> Seq<char> {
    "opsctl.drift_cleanup_request.v1"@
}

/// The schema version of a cleanup request.
pub fn request_schema_version() -> (r: &'static str)
    ensures
        r@ == request_schema(),
{
    "opsctl.drift_cleanup_request.v1"
}

/// The candidates for cleanup that the current drift gives.
#[derive(Debug)]
pub struct DriftCleanupBuild {
    pub active_findings: usize,
    pub candidates: Vec<DriftCleanupCandidate>,
    pub limitations: Vec<String>,
}

/// View of [`DriftCleanupBuild`].
#[verifier::ext_equal]
pub struct DriftCleanupBuildView {
    pub active_findings: nat,
    pub candidates: Seq<DriftCleanupCandidateView>,
    pub limitations: Seq<Seq<char>>,
}

impl DeepView for DriftCleanupBuild {
    type V = DriftCleanupBuildView;

    open spec fn deep_view(&self) -> DriftCleanupBuildView {
        DriftCleanupBuildView {
            active_findings: self.active_findings as nat,
            candidates: self.candidates.deep_view(),
            limitations: self.limitations.deep_view(),
        }
    }
}

impl Clone for DriftCleanupBuild {
    fn clone(&self) -> (r: Self)
        ensures
            r.deep_view() == self.deep_view(),
    {
        DriftCleanupBuild {
            active_findings: self.active_findings,
            candidates: self.candidates.clone(),
            limitations: self.limitations.clone(),
        }
    }
}

/// A cleanup request as it was read from its file.
#[derive(Debug)]
pub struct LoadedRequest {
    /// The path of the file.
    pub path: String,
    pub document: Option<DriftCleanupRequestDocument>,
    /// Why there is no document.
    pub error: String,
}

/// View of [`LoadedRequest`].
#[verifier::ext_equal]
pub struct LoadedRequestView {
    pub path: Seq<char>,
    pub document: Option<DriftCleanupRequestDocumentView>,
    pub error: Seq<char>,
}

impl DeepView for LoadedRequest {
    type V = LoadedRequestView;

    open spec fn deep_view(&self) -> LoadedRequestView {
        LoadedRequestView {
            path: self.path.deep_view(),
            document: self.document.deep_view(),
            error: self.error.deep_view(),
        }
    }
}

impl Clone for LoadedRequest {
    fn clone(&self) -> (r: Self)
        ensures
            r.deep_view() == self.deep_view(),
    {
        LoadedRequest {
            path: self.path.clone(),
            document: self.document.clone(),
            error: self.error.clone(),
        }
    }
}

/// Whether a port target names a public listener.
pub open spec fn public_listener(target: Seq<char>) -> bool {
    ||| begins(target, "0.0.0.0:"@)
    ||| begins(target, "*:"@)
    ||| begins(target, "[::]:"@)
    ||| begins(target, ":::"@)
}

/// A listener as a cleanup candidate.
pub open spec fn port_candidate(code: Seq<char>, target: Seq<char>) -> DriftCleanupCandidateView {
    let public = public_listener(target);
    DriftCleanupCandidateView {
        kind: "port"@,
        target,
        code,
        risk: if public {
            "high"@
        } else {
            "medium"@
        },
        running: Some(true),
        public_bind: Some(public),
        data_risk: None,
        observed_status: Some("listening"@),
        suggested_action: if public {
            "identify owning process/service, then either register the port, move it behind localhost/firewall, or stop it through the owning service after approval"@
        } else {
            "identify owning process/service, then register expected listeners or add an expiring ignore for base services"@
        },
        destructive_command_generated: false,
        rationale: "ports cannot be safely cleaned up by port number alone"@,
    }
}

/// A listener as a cleanup candidate.
pub fn cleanup_port_candidate(finding: &DriftFinding, target: &str) -> (r: DriftCleanupCandidate)
    ensures
        r.deep_view() == port_candidate(finding.code@, target@),
{
    let public = starts_with(target, "0.0.0.0:") || starts_with(target, "*:") || starts_with(
        target,
        "[::]:",
    ) || starts_with(target, ":::");
    DriftCleanupCandidate {
        kind: "port".to_string(),
        target: target.to_string(),
        code: finding.code.clone(),
        risk: (if public {
            "high"
        } else {
            "medium"
        }).to_string(),
        running: Some(true),
        public_bind: Some(public),
        data_risk: None,
        observed_status: Some("listening".to_string()),
        suggested_action: (if public {
            "identify owning process/service, then either register the port, move it behind localhost/firewall, or stop it through the owning service after approval"
        } else {
            "identify owning process/service, then register expected listeners or add an expiring ignore for base services"
        }).to_string(),
        destructive_command_generated: false,
        rationale: "ports cannot be safely cleaned up by port number alone".to_string(),
    }
}

/// A container as a cleanup candidate.
pub open spec fn container_candidate(
    code: Seq<char>,
    scan: ScanReportView,
    target: Seq<char>,
) -> DriftCleanupCandidateView {
    DriftCleanupCandidateView {
        kind: "docker-container"@,
        target,
        code,
        risk: "high"@,
        running: Some(true),
        public_bind: None,
        data_risk: None,
        observed_status: match container_at(scan.detected.docker.containers, target) {
            Some(container) => container.status,
            None => None,
        },
        suggested_action: "confirm owner and compose project; adopt running production containers or stop/remove only through the owning deployment after approval"@,
        destructive_command_generated: false,
        rationale: "running containers may be serving production traffic"@,
    }
}

/// A container as a cleanup candidate.
pub fn cleanup_container_candidate(finding: &DriftFinding, scan: &ScanReport, target: &str) -> (r:
    DriftCleanupCandidate)
    ensures
        r.deep_view() == container_candidate(finding.code@, scan.deep_view(), target@),
{
    let observed_status = match observed_container(&scan.detected.docker.containers, target) {
        Some(container) => container.status.clone(),
        None => None,
    };
    DriftCleanupCandidate {
        kind: "docker-container".to_string(),
        target: target.to_string(),
        code: finding.code.clone(),
        risk: "high".to_string(),
        running: Some(true),
        public_bind: None,
        data_risk: None,
        observed_status,
        suggested_action: "confirm owner and compose project; adopt running production containers or stop/remove only through the owning deployment after approval".to_string(),
        destructive_command_generated: false,
        rationale: "running containers may be serving production traffic".to_string(),
    }
}

/// A volume as a cleanup candidate.
pub open spec fn volume_candidate(
    code: Seq<char>,
    scan: ScanReportView,
    target: Seq<char>,
) -> DriftCleanupCandidateView {
    DriftCleanupCandidateView {
        kind: "docker-volume"@,
        target,
        code,
        risk: "high"@,
        running: None,
        public_bind: None,
        data_risk: Some("unknown_data_may_exist"@),
        observed_status: match volume_at(scan.detected.docker.volumes, target) {
            Some(volume) => match volume.driver {
                Some(driver) => Some("driver="@ + driver),
                None => None,
            },
            None => None,
        },
        suggested_action: "inspect attached/stopped containers and backup requirements; adopt owned data volumes or create a separate approved deletion plan"@,
        destructive_command_generated: false,
        rationale: "Docker volumes can contain irreplaceable database or upload data"@,
    }
}

/// A volume as a cleanup candidate.
pub fn cleanup_volume_candidate(finding: &DriftFinding, scan: &ScanReport, target: &str) -> (r:
    DriftCleanupCandidate)
    ensures
        r.deep_view() == volume_candidate(finding.code@, scan.deep_view(), target@),
{
    let observed_status = match observed_volume(&scan.detected.docker.volumes, target) {
        Some(volume) => match &volume.driver {
            Some(driver) => Some(cat2("driver=", driver)),
            None => None,
        },
        None => None,
    };
    DriftCleanupCandidate {
        kind: "docker-volume".to_string(),
        target: target.to_string(),
        code: finding.code.clone(),
        risk: "high".to_string(),
        running: None,
        public_bind: None,
        data_risk: Some("unknown_data_may_exist".to_string()),
        observed_status,
        suggested_action: "inspect attached/stopped containers and backup requirements; adopt owned data volumes or create a separate approved deletion plan".to_string(),
        destructive_command_generated: false,
        rationale: "Docker volumes can contain irreplaceable database or upload data".to_string(),
    }
}

/// A Compose project as a cleanup candidate.
pub open spec fn compose_candidate(
    code: Seq<char>,
    scan: ScanReportView,
    target: Seq<char>,
) -> DriftCleanupCandidateView {
    DriftCleanupCandidateView {
        kind: "compose-project"@,
        target,
        code,
        risk: "high"@,
        running: Some(true),
        public_bind: None,
        data_risk: None,
        observed_status: match project_at(scan.detected.docker.compose_projects, target) {
            Some(project) => project.status,
            None => None,
        },
        suggested_action: "confirm compose files and service owner; adopt expected projects or plan controlled compose shutdown after approval"@,
        destructive_command_generated: false,
        rationale: "Compose projects can own multiple containers, networks, and volumes"@,
    }
}

/// A Compose project as a cleanup candidate.
pub fn cleanup_compose_candidate(finding: &DriftFinding, scan: &ScanReport, target: &str) -> (r:
    DriftCleanupCandidate)
    ensures
        r.deep_view() == compose_candidate(finding.code@, scan.deep_view(), target@),
{
    let observed_status = match observed_project(&scan.detected.docker.compose_projects, target) {
        Some(project) => project.status.clone(),
        None => None,
    };
    DriftCleanupCandidate {
        kind: "compose-project".to_string(),
        target: target.to_string(),
        code: finding.code.clone(),
        risk: "high".to_string(),
        running: Some(true),
        public_bind: None,
        data_risk: None,
        observed_status,
        suggested_action: "confirm compose files and service owner; adopt expected projects or plan controlled compose shutdown after approval".to_string(),
        destructive_command_generated: false,
        rationale: "Compose projects can own multiple containers, networks, and volumes".to_string(),
    }
}

/// The cleanup candidate of a finding. Only listeners, containers, volumes and
/// Compose projects with a target are candidates.
pub open spec fn cleanup_candidate_spec(finding: DriftFindingView, scan: ScanReportView) -> Option<
    DriftCleanupCandidateView,
> {
    match (finding.target, finding_adopt_kind_spec(finding.code)) {
        (Some(target), Some(kind)) => if kind == "port"@ {
            Some(port_candidate(finding.code, target))
        } else if kind == "docker-container"@ {
            Some(container_candidate(finding.code, scan, target))
        } else if kind == "docker-volume"@ {
            Some(volume_candidate(finding.code, scan, target))
        } else if kind == "compose-project"@ {
            Some(compose_candidate(finding.code, scan, target))
        } else {
            None
        },
        _ => None,
    }
}

/// The cleanup candidate of a finding.
pub fn cleanup_candidate(finding: &DriftFinding, scan: &ScanReport) -> (r: Option<
    DriftCleanupCandidate,
>)
    ensures
        r.deep_view() == cleanup_candidate_spec(finding.deep_view(), scan.deep_view()),
{
    let target = match &finding.target {
        Some(target) => target.as_str(),
        None => {
            return None;
        },
    };
    let kind = match finding_adopt_kind(&finding.code) {
        Some(kind) => kind,
        None => {
            return None;
        },
    };
    if same(kind, "port") {
        Some(cleanup_port_candidate(finding, target))
    } else if same(kind, "docker-container") {
        Some(cleanup_container_candidate(finding, scan, target))
    } else if same(kind, "docker-volume") {
        Some(cleanup_volume_candidate(finding, scan, target))
    } else if same(kind, "compose-project") {
        Some(cleanup_compose_candidate(finding, scan, target))
    } else {
        None
    }
}

/// The candidates among these findings.
pub open spec fn candidates_of(findings: Seq<DriftFindingView>, scan: ScanReportView) -> Seq<
    DriftCleanupCandidateView,
> {
    chosen(findings, |f: DriftFindingView| cleanup_candidate_spec(f, scan))
}

/// The candidates that the current drift gives.
pub open spec fn cleanup_build(
    registry: RegistryView,
    observation: ObservationView,
) -> DriftCleanupBuildView {
    let active = drift_report_spec(registry, observation, no_filter());
    DriftCleanupBuildView {
        active_findings: active.active_findings,
        candidates: candidates_of(active.findings, observation.scan),
        limitations: active.limitations,
    }
}

/// The candidates that the current drift gives.
pub fn build_drift_cleanup(registry: &Registry, observation: &Observation) -> (r: DriftCleanupBuild)
    ensures
        r.deep_view() == cleanup_build(registry.deep_view(), observation.deep_view()),
{
    let active = drift_list(registry, observation);
    let scan = &observation.scan;
    let ghost all = active.findings.deep_view();
    let mut candidates: Vec<DriftCleanupCandidate> = Vec::new();
    let mut i: usize = 0;
    proof {
        ends(all);
        assert(candidates.deep_view() =~= Seq::<DriftCleanupCandidateView>::empty());
    }
    while i < active.findings.len()
        invariant
            i <= active.findings@.len(),
            all == active.findings.deep_view(),
            candidates.deep_view() == candidates_of(all.take(i as int), scan.deep_view()),
        decreases active.findings@.len() - i,
    {
        proof {
            step(all, i as int);
        }
        if let Some(candidate) = cleanup_candidate(&active.findings[i], scan) {
            candidates.push(candidate);
        }
        i = i + 1;
    }
    proof {
        ends(all);
    }
    DriftCleanupBuild {
        active_findings: active.active_findings,
        candidates,
        limitations: active.limitations,
    }
}

/// The plan of what may be cleaned up.
pub open spec fn cleanup_plan(build: DriftCleanupBuildView) -> DriftCleanupPlanReportView {
    DriftCleanupPlanReportView {
        ok: true,
        read_only: true,
        status: if build.candidates.len() == 0 {
            "clean"@
        } else {
            "review_required"@
        },
        candidates: build.candidates,
        limitations: build.limitations,
    }
}

/// The plan of what may be cleaned up.
pub fn drift_cleanup_plan(registry: &Registry, observation: &Observation) -> (r:
    DriftCleanupPlanReport)
    ensures
        r.deep_view() == cleanup_plan(
            cleanup_build(registry.deep_view(), observation.deep_view()),
        ),
{
    let build = build_drift_cleanup(registry, observation);
    let clean = build.candidates.len() == 0;
    DriftCleanupPlanReport {
        ok: true,
        read_only: true,
        status: (if clean {
            "clean"
        } else {
            "review_required"
        }).to_string(),
        candidates: build.candidates,
        limitations: build.limitations,
    }
}

/// What one more character adds to a part of a request id.
pub open spec fn id_step(before: Seq<char>, c: char) -> Seq<char> {
    if is_alnum(c) {
        before.push(small(c))
    } else if c == '-' || c == '_' || c == '.' {
        before.push(c)
    } else if before.len() > 0 && before.last() == '-' {
        before
    } else {
        before.push('-')
    }
}

/// The characters of a text that a request id takes over, at most 64.
pub open spec fn id_characters(raw: Seq<char>) -> Seq<char>
    decreases raw.len(),
{
    if raw.len() == 0 {
        Seq::empty()
    } else {
        let before = id_characters(raw.drop_last());
        if before.len() >= 64 {
            before
        } else {
            id_step(before, raw.last())
        }
    }
}

/// A text as a part of a request id.
pub open spec fn request_id_part(raw: Seq<char>) -> Seq<char> {
    let part = trimmed_by(id_characters(raw), is_char('-'));
    if part.len() == 0 {
        "target"@
    } else {
        part
    }
}

/// A text as a part of a request id.
pub fn sanitize_request_id_part(raw: &str) -> (r: String)
    ensures
        r@ == request_id_part(raw@),
{
    let a = chars_of(raw);
    let mut out: Vec<char> = Vec::new();
    let mut i: usize = 0;
    proof {
        ends(raw@);
    }
    while i < a.len()
        invariant
            a@ == raw@,
            i <= a@.len(),
            out@ == id_characters(raw@.take(i as int)),
        decreases a@.len() - i,
    {
        let c = a[i];
        proof {
            step(raw@, i as int);
        }
        if out.len() < 64 {
            if alnum(c) {
                out.push(to_small(c));
            } else if c == '-' || c == '_' || c == '.' {
                out.push(c);
            } else if out.len() == 0 || out[out.len() - 1] != '-' {
                out.push('-');
            }
        }
        i = i + 1;
    }
    proof {
        ends(raw@);
    }
    let part = trim_char(&text_of(&out), '-');
    if part.as_str().is_empty() {
        "target".to_string()
    } else {
        part
    }
}

/// A candidate as an item that awaits its review.
pub open spec fn request_item(index: nat, candidate: DriftCleanupCandidateView) -> DriftCleanupRequestItemView {
    DriftCleanupRequestItemView {
        request_id: "cleanup-"@ + padded(index + 1, 4) + "-"@ + candidate.kind + "-"@
            + request_id_part(candidate.target),
        kind: candidate.kind,
        target: candidate.target,
        code: candidate.code,
        risk: candidate.risk,
        running: candidate.running,
        public_bind: candidate.public_bind,
        data_risk: candidate.data_risk,
        observed_status: candidate.observed_status,
        planned_action: candidate.suggested_action,
        approval_status: "unknown"@,
        owner: None,
        reason: None,
        operator_note: None,
        cleanup_strategy: None,
        exact_resource_id: Some(candidate.target),
        backup_snapshot_id: None,
        restore_drill_id: None,
        maintenance_window: None,
        rollback_plan: None,
        approval_expires_at: None,
        collected_evidence: Seq::empty(),
        evidence_collected_at: None,
        destructive_command_generated: false,
        rationale: candidate.rationale,
    }
}

/// A candidate as an item that awaits its review.
pub fn cleanup_request_item(index: usize, candidate: &DriftCleanupCandidate) -> (r:
    DriftCleanupRequestItem)
    requires
        index < usize::MAX,
    ensures
        r.deep_view() == request_item(index as nat, candidate.deep_view()),
{
    DriftCleanupRequestItem {
        request_id: cat6(
            "cleanup-",
            &padded_text(index + 1, 4),
            "-",
            &candidate.kind,
            "-",
            &sanitize_request_id_part(&candidate.target),
        ),
        kind: candidate.kind.clone(),
        target: candidate.target.clone(),
        code: candidate.code.clone(),
        risk: candidate.risk.clone(),
        running: candidate.running,
        public_bind: candidate.public_bind,
        data_risk: candidate.data_risk.clone(),
        observed_status: candidate.observed_status.clone(),
        planned_action: candidate.suggested_action.clone(),
        approval_status: "unknown".to_string(),
        owner: None,
        reason: None,
        operator_note: None,
        cleanup_strategy: None,
        exact_resource_id: Some(candidate.target.clone()),
        backup_snapshot_id: None,
        restore_drill_id: None,
        maintenance_window: None,
        rollback_plan: None,
        approval_expires_at: None,
        collected_evidence: Vec::new(),
        evidence_collected_at: None,
        destructive_command_generated: false,
        rationale: candidate.rationale.clone(),
    }
}

/// The items of a fresh request.
pub open spec fn request_items(candidates: Seq<DriftCleanupCandidateView>) -> Seq<
    DriftCleanupRequestItemView,
> {
    Seq::new(candidates.len(), |i: int| request_item(i as nat, candidates[i]))
}

/// A fresh cleanup request with one item for each candidate.
pub open spec fn request_export(
    build: DriftCleanupBuildView,
    generated_at: Seq<char>,
) -> DriftCleanupRequestExportReportView {
    DriftCleanupRequestExportReportView {
        ok: build.limitations.len() == 0,
        read_only: true,
        request: DriftCleanupRequestDocumentView {
            schema_version: request_schema(),
            generated_at: Some(generated_at),
            source_active_findings: build.active_findings,
            source_candidates: build.candidates.len(),
            items: request_items(build.candidates),
        },
        candidates: build.candidates.len(),
        limitations: build.limitations,
    }
}

/// A fresh cleanup request with one item for each candidate.
pub fn drift_cleanup_request_export(
    registry: &Registry,
    observation: &Observation,
    generated_at: &str,
) -> (r: DriftCleanupRequestExportReport)
    ensures
        r.deep_view() == request_export(
            cleanup_build(registry.deep_view(), observation.deep_view()),
            generated_at@,
        ),
{
    let build = build_drift_cleanup(registry, observation);
    let ghost all = build.candidates.deep_view();
    let mut items: Vec<DriftCleanupRequestItem> = Vec::new();
    let mut i: usize = 0;
    while i < build.candidates.len()
        invariant
            i <= build.candidates@.len(),
            items@.len() == i,
            all == build.candidates.deep_view(),
            forall|j: int|
                0 <= j < i ==> (#[trigger] items@[j]).deep_view() == request_item(j as nat, all[j]),
        decreases build.candidates@.len() - i,
    {
        items.push(cleanup_request_item(i, &build.candidates[i]));
        i = i + 1;
    }
    proof {
        assert(items.deep_view() =~= request_items(all));
    }
    let count = items.len();
    DriftCleanupRequestExportReport {
        ok: build.limitations.is_empty(),
        read_only: true,
        request: DriftCleanupRequestDocument {
            schema_version: request_schema_version().to_string(),
            generated_at: Some(generated_at.to_string()),
            source_active_findings: build.active_findings,
            source_candidates: count,
            items,
        },
        candidates: count,
        limitations: build.limitations,
    }
}

/// The key by which candidates and request items are matched.
pub open spec fn candidate_key(candidate: DriftCleanupCandidateView) -> (Seq<char>, Seq<char>) {
    (candidate.kind, candidate.target)
}

/// The key by which candidates and request items are matched.
pub open spec fn item_key(item: DriftCleanupRequestItemView) -> (Seq<char>, Seq<char>) {
    (item.kind, item.target)
}

/// Whether some candidate has this key.
pub open spec fn is_current(
    candidates: Seq<DriftCleanupCandidateView>,
    key: (Seq<char>, Seq<char>),
) -> bool {
    any(candidates, |c: DriftCleanupCandidateView| candidate_key(c) == key)
}

/// Whether some candidate has this kind and target.
pub fn current_candidate(candidates: &Vec<DriftCleanupCandidate>, kind: &str, target: &str) -> (r:
    bool)
    ensures
        r == is_current(candidates.deep_view(), (kind@, target@)),
{
    let ghost all = candidates.deep_view();
    let mut found = false;
    let mut i: usize = 0;
    proof {
        ends(all);
    }
    while i < candidates.len()
        invariant
            i <= candidates@.len(),
            all == candidates.deep_view(),
            found == is_current(all.take(i as int), (kind@, target@)),
        decreases candidates@.len() - i,
    {
        proof {
            step(all, i as int);
        }
        if same(&candidates[i].kind, kind) && same(&candidates[i].target, target) {
            found = true;
        }
        i = i + 1;
    }
    proof {
        ends(all);
    }
    found
}

/// No candidate and no fresh item carries a generated destructive command.
pub proof fn law_candidates_carry_no_destructive_command(
    registry: RegistryView,
    observation: ObservationView,
    generated_at: Seq<char>,
)
    ensures
        forall|i: int|
            0 <= i < cleanup_build(registry, observation).candidates.len() ==> !(
            #[trigger] cleanup_build(
                registry,
                observation,
            ).candidates[i]).destructive_command_generated,
        forall|i: int|
            0 <= i < request_export(
                cleanup_build(registry, observation),
                generated_at,
            ).request.items.len() ==> !(#[trigger] request_export(
                cleanup_build(registry, observation),
                generated_at,
            ).request.items[i]).destructive_command_generated,
{
    let active = drift_report_spec(registry, observation, no_filter()).findings;
    lemma_candidates_harmless(active, observation.scan);
}

proof fn lemma_candidates_harmless(findings: Seq<DriftFindingView>, scan: ScanReportView)
    ensures
        forall|i: int|
            0 <= i < candidates_of(findings, scan).len() ==> !(#[trigger] candidates_of(
                findings,
                scan,
            )[i]).destructive_command_generated,
    decreases findings.len(),
{
    if findings.len() > 0 {
        lemma_candidates_harmless(findings.drop_last(), scan);
    }
}

/// A listener is public where it stands on all addresses.
pub proof fn law_public_listeners(target: Seq<char>)
    ensures
        public_listener(target) <==> {
            ||| exists|rest: Seq<char>| target == #[trigger] ("0.0.0.0:"@ + rest)
            ||| exists|rest: Seq<char>| target == #[trigger] ("*:"@ + rest)
            ||| exists|rest: Seq<char>| target == #[trigger] ("[::]:"@ + rest)
            ||| exists|rest: Seq<char>| target == #[trigger] (":::"@ + rest)
        },
{
    law_found_parts_are_there(target, "0.0.0.0:"@);
    law_found_parts_are_there(target, "*:"@);
    law_found_parts_are_there(target, "[::]:"@);
    law_found_parts_are_there(target, ":::"@);
}

/// Whether a finding of this code stands for something that can be cleaned up.
pub open spec fn can_be_cleaned_up(code: Seq<char>) -> bool {
    ||| code == "observed_unregistered_port"@
    ||| code == "observed_unregistered_docker_container"@
    ||| code == "observed_unregistered_docker_volume"@
    ||| code == "observed_unregistered_compose_project"@
}

/// A finding becomes a candidate exactly where it is of a port, a container, a volume or
/// a project and has a target. Volumes hold data; containers, volumes, projects and
/// public ports are of high risk, other ports of medium risk; all but volumes run.
pub proof fn law_candidates(finding: DriftFindingView, scan: ScanReportView)
    ensures
        cleanup_candidate_spec(finding, scan) is Some <==> finding.target is Some
            && can_be_cleaned_up(finding.code),
        cleanup_candidate_spec(finding, scan) matches Some(c) ==> {
            &&& Some(c.kind) == finding_adopt_kind_spec(finding.code)
            &&& Some(c.target) == finding.target
            &&& c.code == finding.code
            &&& !c.destructive_command_generated
            &&& c.data_risk is Some <==> finding.code == "observed_unregistered_docker_volume"@
            &&& c.running == (if finding.code == "observed_unregistered_docker_volume"@ {
                None
            } else {
                Some(true)
            })
            &&& finding.code == "observed_unregistered_port"@ ==> c.public_bind == Some(
                public_listener(c.target),
            )
            &&& finding.code != "observed_unregistered_port"@ ==> c.public_bind is None
            &&& c.risk == (if finding.code == "observed_unregistered_port"@ && !public_listener(
                c.target,
            ) {
                "medium"@
            } else {
                "high"@
            })
        },
{
    lemma_finding_codes();
}

/// The candidates are those of the findings, each for one.
pub proof fn law_candidates_of_findings(
    findings: Seq<DriftFindingView>,
    scan: ScanReportView,
    kind: Seq<char>,
    target: Seq<char>,
)
    ensures
        (exists|k: int|
            0 <= k < candidates_of(findings, scan).len() && (#[trigger] candidates_of(
                findings,
                scan,
            )[k]).kind == kind && candidates_of(findings, scan)[k].target == target)
            <==> exists|i: int|
            0 <= i < findings.len() && (#[trigger] findings[i]).target == Some(target)
                && can_be_cleaned_up(findings[i].code) && finding_adopt_kind_spec(findings[i].code)
                == Some(kind),
{
    let f = |f: DriftFindingView| cleanup_candidate_spec(f, scan);
    let all = candidates_of(findings, scan);
    if exists|k: int| 0 <= k < all.len() && (#[trigger] all[k]).kind == kind && all[k].target
        == target {
        let k = choose|k: int|
            0 <= k < all.len() && (#[trigger] all[k]).kind == kind && all[k].target == target;
        assert(all.contains(all[k]));
        law_chosen(findings, f, all[k]);
        let i = choose|i: int| 0 <= i < findings.len() && f(#[trigger] findings[i]) == Some(all[k]);
        law_candidates(findings[i], scan);
    }
    if exists|i: int|
        0 <= i < findings.len() && (#[trigger] findings[i]).target == Some(target)
            && can_be_cleaned_up(findings[i].code) && finding_adopt_kind_spec(findings[i].code)
            == Some(kind) {
        let i = choose|i: int|
            0 <= i < findings.len() && (#[trigger] findings[i]).target == Some(target)
                && can_be_cleaned_up(findings[i].code) && finding_adopt_kind_spec(findings[i].code)
                == Some(kind);
        law_candidates(findings[i], scan);
        let x = f(findings[i])->0;
        law_chosen(findings, f, x);
        assert(f(findings[i]) == Some(x));
        let k = choose|k: int| 0 <= k < all.len() && all[k] == x;
        assert(all[k].kind == kind);
    }
}

/// A new item of a request is about its candidate, waits for a decision, names the exact
/// resource, and has nothing else filled in.
pub proof fn law_new_items(build: DriftCleanupBuildView, generated_at: Seq<char>, i: int)
    requires
        0 <= i < build.candidates.len(),
    ensures
        ({
            let c = build.candidates[i];
            let export = request_export(build, generated_at);
            let item = export.request.items[i];
            &&& export.request.items.len() == build.candidates.len()
            &&& export.request.schema_version == "opsctl.drift_cleanup_request.v1"@
            &&& export.request.generated_at == Some(generated_at)
            &&& export.request.source_candidates == build.candidates.len()
            &&& export.request.source_active_findings == build.active_findings
            &&& export.ok <==> build.limitations.len() == 0
            &&& item.kind == c.kind
            &&& item.target == c.target
            &&& item.code == c.code
            &&& item.risk == c.risk
            &&& item.running == c.running
            &&& item.public_bind == c.public_bind
            &&& item.data_risk == c.data_risk
            &&& item.observed_status == c.observed_status
            &&& item.approval_status == "unknown"@
            &&& item.exact_resource_id == Some(c.target)
            &&& item.owner is None && item.reason is None && item.cleanup_strategy is None
            &&& item.approval_expires_at is None && item.backup_snapshot_id is None
            &&& item.restore_drill_id is None && item.maintenance_window is None
            &&& item.rollback_plan is None && item.collected_evidence.len() == 0
            &&& !item.destructive_command_generated
            &&& begins(item.request_id, "cleanup-"@ + padded((i + 1) as nat, 4) + "-"@)
        }),
{
    let c = build.candidates[i];
    let front = "cleanup-"@ + padded((i + 1) as nat, 4) + "-"@;
    let rest = c.kind + "-"@ + request_id_part(c.target);
    let item = request_export(build, generated_at).request.items[i];
    assert(item.request_id =~= front + rest);
    law_parts_are_found(Seq::empty(), front, rest);
}

/// A cleanup plan is clean exactly where there is no candidate; it lists them all.
pub proof fn law_cleanup_plans(build: DriftCleanupBuildView)
    ensures
        ({
            let p = cleanup_plan(build);
            &&& p.candidates == build.candidates
            &&& p.limitations == build.limitations
            &&& p.status == "clean"@ <==> build.candidates.len() == 0
            &&& p.status == "review_required"@ <==> build.candidates.len() > 0
            &&& p.ok && p.read_only
        }),
{
    reveal_strlit("clean");
    reveal_strlit("review_required");
    assert("clean"@.len() == 5 && "review_required"@.len() == 15);
}

} // verus!
