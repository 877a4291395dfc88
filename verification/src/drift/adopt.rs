//! Taking observed resources into the registry.

use vstd::prelude::*;
use crate::adoption::{AdoptionRecord, AdoptionRecordView, ServiceListField};
use crate::drift::findings::{
    endpoint, endpoint_spec, finding_adopt_kind, finding_adopt_kind_spec, lemma_finding_codes,
    observed_port_at, port_at,
};
use crate::drift::ignore::{kind_remark, note_kind};
use crate::drift::types::{
    DriftAdoptOptions, DriftAdoptOptionsView, DriftAdoptReport, DriftAdoptReportView,
    DriftAdoptReviewOptions, DriftAdoptReviewOptionsView, DriftAdoptReviewReport,
    DriftAdoptReviewReportView, DriftServiceAddOptions, DriftServiceAddOptionsView,
    DriftServiceAddReport, DriftServiceAddReportView,
};
use crate::drift::verify::{fits_on_a_line, option_remark, validate_optional_adopt_text};
use crate::each::{choose_each, find_first, gather_each, map_each};
use crate::edits::{
    ApplyOutcome, ApplyOutcomeView, choose_free_id, empty_observed_deployment_contract,
    has_service, id_part, observed_contract, record_id, sanitize_id_part, service_known, unique_id,
    unique_record_id,
};
use crate::list::{
    chosen, extend, first_where, gathered, law_chosen, law_first_where, law_gathered, law_one_more,
    law_sorted_set, lemma_any, note, noted, put, sorted_set, unique_sorted,
};
use crate::number::{decimal, decimal_text};
use crate::paths::{is_absolute, is_absolute_spec};
use crate::registry::{
    DomainRecord, DomainRecordView, PortRecord, PortRecordView, Registry, RegistryView, Service,
    ServiceSystemdContract, ServiceSystemdContractView, ServiceView, VolumeRecord,
    VolumeRecordView,
};
use crate::scan::{
    ObservedPort, ObservedPortView, ScanFinding, ScanFindingView, ScanReport, ScanReportView,
};
use crate::text::{
    as_text, blank, byte_len, byte_size, cat2, cat4, cat6, chars_of, contains, digit, holds,
    is_blank, is_digit, is_lower, is_text, lower, or_text, own_opt, same, stands_at, text_or, trim,
    trimmed,
};

verus! {

broadcast use {vstd::seq::group_seq_axioms, vstd::string::group_string_axioms};

// ---------------------------------------------------------------------------
// Checks
// ---------------------------------------------------------------------------

/// The exposure of a port under its usual name.
pub open spec fn port_exposure(exposure: Seq<char>) -> Option<Seq<char>> {
    if exposure == "public"@ {
        Some("public"@)
    } else if exposure == "local"@ || exposure == "localhost"@ {
        Some("localhost"@)
    } else if exposure == "private"@ || exposure == "private_network"@ {
        Some("private_network"@)
    } else if exposure == "docker_internal"@ {
        Some("docker_internal"@)
    } else if exposure == "external"@ {
        Some("external"@)
    } else if exposure == "unknown"@ {
        Some("unknown"@)
    } else {
        None
    }
}

/// The exposure of a port under its usual name.
pub fn normalize_port_exposure(exposure: &str) -> (r: Option<&'static str>)
    ensures
        r.deep_view() == port_exposure(exposure@),
{
    if same(exposure, "public") {
        Some("public")
    } else if same(exposure, "local") || same(exposure, "localhost") {
        Some("localhost")
    } else if same(exposure, "private") || same(exposure, "private_network") {
        Some("private_network")
    } else if same(exposure, "docker_internal") {
        Some("docker_internal")
    } else if same(exposure, "external") {
        Some("external")
    } else if same(exposure, "unknown") {
        Some("unknown")
    } else {
        None
    }
}

/// Everything that is wrong with the request, whatever the server shows.
#[verifier::opaque]
pub open spec fn adopt_option_limitations(options: DriftAdoptOptionsView) -> Seq<Seq<char>> {
    Seq::empty() + kind_remark(options.kind) + noted(
        port_exposure(options.exposure) is None,
        "exposure must be local, localhost, private, private_network, or public"@,
    ) + noted(
        options.review_status != "pending"@ && options.review_status != "reviewed"@
            && options.review_status != "needs_review"@,
        "review_status must be pending, reviewed, or needs_review"@,
    ) + noted(
        options.execute && blank(options.reason),
        "reason is required when executing drift adoption"@,
    ) + option_remark("reason"@, options.reason) + option_remark(
        "operator_note"@,
        options.operator_note,
    )
}

/// Everything that is wrong with the request, whatever the server shows.
pub fn validate_adopt_options(options: &DriftAdoptOptions<'_>) -> (r: Vec<String>)
    ensures
        r.deep_view() == adopt_option_limitations(options.deep_view()),
{
    let mut l: Vec<String> = Vec::new();
    proof {
        reveal(adopt_option_limitations);
        assert(l.deep_view() =~= Seq::<Seq<char>>::empty());
    }
    note_kind(options.kind, &mut l);
    note(
        &mut l,
        normalize_port_exposure(options.exposure).is_none(),
        "exposure must be local, localhost, private, private_network, or public",
    );
    note(
        &mut l,
        !same(options.review_status, "pending") && !same(options.review_status, "reviewed")
            && !same(options.review_status, "needs_review"),
        "review_status must be pending, reviewed, or needs_review",
    );
    note(
        &mut l,
        options.execute && is_blank(options.reason),
        "reason is required when executing drift adoption",
    );
    validate_optional_adopt_text("reason", options.reason, &mut l);
    validate_optional_adopt_text("operator_note", options.operator_note, &mut l);
    l
}

/// The service with this id.
pub open spec fn service_with_id(services: Seq<ServiceView>, id: Seq<char>) -> Option<ServiceView> {
    first_where(services, |s: ServiceView| s.id == id)
}

/// The service with this id.
pub fn find_service<'a>(services: &'a Vec<Service>, id: &str) -> (r: Option<&'a Service>)
    ensures
        r.deep_view() == service_with_id(services.deep_view(), id@),
{
    find_first(
        services,
        |s: &Service| -> (b: bool)
            ensures
                b == (s.deep_view().id == id@)
            { same(&s.id, id) },
        Ghost(|s: ServiceView| s.id == id@),
    )
}

/// Whether a finding is what the request wants to adopt.
pub open spec fn adopts(options: DriftAdoptOptionsView, finding: ScanFindingView) -> bool {
    finding.target == Some(options.target) && finding_adopt_kind_spec(finding.code) is Some && (
    options.kind == "auto"@ || finding_adopt_kind_spec(finding.code) == Some(options.kind))
}

/// The kinds of the findings that the request wants to adopt.
pub open spec fn adoptable_kinds(
    options: DriftAdoptOptionsView,
    findings: Seq<ScanFindingView>,
) -> Seq<Seq<char>> {
    chosen(
        findings,
        |f: ScanFindingView|
            if adopts(options, f) {
                finding_adopt_kind_spec(f.code)
            } else {
                None
            },
    )
}

/// The kinds of the findings that the request wants to adopt.
pub fn list_adoptable_kinds(options: &DriftAdoptOptions<'_>, findings: &Vec<ScanFinding>) -> (r: Vec<
    String,
>)
    ensures
        r.deep_view() == adoptable_kinds(options.deep_view(), findings.deep_view()),
{
    choose_each(
        findings,
        |f: &ScanFinding| -> (r: Option<String>)
            ensures
                r.deep_view() == (if adopts(options.deep_view(), f.deep_view()) {
                    finding_adopt_kind_spec(f.deep_view().code)
                } else {
                    None
                })
            {
                let kind = finding_adopt_kind(&f.code);
                if is_text(as_text(&f.target), options.target) && kind.is_some() && (same(
                    options.kind,
                    "auto",
                ) || is_text(kind, options.kind)) {
                    own_opt(kind)
                } else {
                    None
                }
            },
        Ghost(
            |f: ScanFindingView|
                if adopts(options.deep_view(), f) {
                    finding_adopt_kind_spec(f.code)
                } else {
                    None
                },
        ),
    )
}

/// What an adoption of this kind leaves to be reviewed.
pub open spec fn review_warnings(kind: Seq<char>) -> Seq<Seq<char>> {
    Seq::<Seq<char>>::empty() + noted(
        kind == "caddy-domain"@,
        "adopted Caddy domain uses unknown TLS/upstream fields; review Caddy route ownership and upstream before deployment"@,
    ) + noted(
        kind == "docker-volume"@,
        "adopted Docker volume has unknown mountpoint/contents; review data contents and backup policy before deployment"@,
    ) + noted(
        kind == "systemd-unit"@,
        "adopted systemd unit records ownership only; allowed actions remain empty until reviewed"@,
    )
}

/// What an adoption of this kind leaves to be reviewed.
pub fn incomplete_review_warnings(kind: &str) -> (r: Vec<String>)
    ensures
        r.deep_view() == review_warnings(kind@),
{
    let mut list: Vec<String> = Vec::new();
    proof {
        assert(list.deep_view() =~= Seq::<Seq<char>>::empty());
    }
    note(
        &mut list,
        same(kind, "caddy-domain"),
        "adopted Caddy domain uses unknown TLS/upstream fields; review Caddy route ownership and upstream before deployment",
    );
    note(
        &mut list,
        same(kind, "docker-volume"),
        "adopted Docker volume has unknown mountpoint/contents; review data contents and backup policy before deployment",
    );
    note(
        &mut list,
        same(kind, "systemd-unit"),
        "adopted systemd unit records ownership only; allowed actions remain empty until reviewed",
    );
    list
}

// ---------------------------------------------------------------------------
// Records
// ---------------------------------------------------------------------------

/// The base of an id for something observed.
pub open spec fn observed_base(service_id: Seq<char>, name: Seq<char>) -> Seq<char> {
    "observed-"@ + id_part(service_id) + "-"@ + id_part(name)
}

/// A port of a service, as observed.
pub open spec fn adopted_port(
    options: DriftAdoptOptionsView,
    service: ServiceView,
    observed: ObservedPortView,
    stamp: i64,
) -> PortRecordView {
    PortRecordView {
        id: unique_id(
            options.registry.ports.ports.map_values(|p: PortRecordView| p.id),
            "observed-"@ + id_part(service.id) + "-"@ + observed.protocol + "-"@ + decimal(
                observed.port as nat,
            ),
            stamp,
        ),
        port: observed.port,
        protocol: observed.protocol,
        bind: observed.bind,
        service_id: service.id,
        purpose: options.purpose,
        exposure: text_or(port_exposure(options.exposure), options.exposure),
        source: "observed"@,
        notes: Some("Adopted from read-only observed drift scan."@),
    }
}

/// A port of a service, as observed.
pub fn build_adopted_port(
    options: &DriftAdoptOptions<'_>,
    service: &Service,
    observed: &ObservedPort,
    stamp: i64,
) -> (r: PortRecord)
    ensures
        r.deep_view() == adopted_port(
            options.deep_view(),
            service.deep_view(),
            observed.deep_view(),
            stamp,
        ),
{
    let ids = map_each(
        &options.registry.ports.ports,
        |p: &PortRecord| -> (t: String)
            ensures
                t.deep_view() == p.deep_view().id
            { p.id.clone() },
        Ghost(|p: PortRecordView| p.id),
    );
    let base = cat6(
        "observed-",
        &sanitize_id_part(&service.id),
        "-",
        &observed.protocol,
        "-",
        &decimal_text(observed.port as u64),
    );
    PortRecord {
        id: choose_free_id(&ids, &base, stamp),
        port: observed.port,
        protocol: observed.protocol.clone(),
        bind: observed.bind.clone(),
        service_id: service.id.clone(),
        purpose: own_opt(options.purpose),
        exposure: or_text(normalize_port_exposure(options.exposure), options.exposure).to_string(),
        source: "observed".to_string(),
        notes: Some("Adopted from read-only observed drift scan.".to_string()),
    }
}

/// A domain of a service, as observed.
pub open spec fn adopted_domain(
    options: DriftAdoptOptionsView,
    service: ServiceView,
    stamp: i64,
) -> DomainRecordView {
    DomainRecordView {
        id: record_id(
            options.registry.domains.domains.map_values(|d: DomainRecordView| d.id),
            observed_base(service.id, options.target),
            stamp,
        ),
        host: options.target,
        service_id: service.id,
        upstream: None,
        caddy_managed: Some(false),
        tls: Some("unknown"@),
        status: "active"@,
        notes: Some(
            "Adopted from observed Caddy site label; upstream must be reviewed manually."@,
        ),
    }
}

/// A domain of a service, as observed.
pub fn build_adopted_domain(options: &DriftAdoptOptions<'_>, service: &Service, stamp: i64) -> (r:
    DomainRecord)
    ensures
        r.deep_view() == adopted_domain(options.deep_view(), service.deep_view(), stamp),
{
    let ids = map_each(
        &options.registry.domains.domains,
        |d: &DomainRecord| -> (t: String)
            ensures
                t.deep_view() == d.deep_view().id
            { d.id.clone() },
        Ghost(|d: DomainRecordView| d.id),
    );
    let base = cat4(
        "observed-",
        &sanitize_id_part(&service.id),
        "-",
        &sanitize_id_part(options.target),
    );
    DomainRecord {
        id: unique_record_id(&ids, &base, stamp),
        host: options.target.to_string(),
        service_id: service.id.clone(),
        upstream: None,
        caddy_managed: Some(false),
        tls: Some("unknown".to_string()),
        status: "active".to_string(),
        notes: Some(
            "Adopted from observed Caddy site label; upstream must be reviewed manually.".to_string(),
        ),
    }
}

/// A volume of a service, as observed. Volumes of production services are
/// protected.
pub open spec fn adopted_volume(
    options: DriftAdoptOptionsView,
    service: ServiceView,
    stamp: i64,
) -> VolumeRecordView {
    VolumeRecordView {
        id: record_id(
            options.registry.volumes.volumes.map_values(|v: VolumeRecordView| v.id),
            observed_base(service.id, options.target),
            stamp,
        ),
        name: options.target,
        service_id: service.id,
        kind: "docker_volume"@,
        mountpoint: None,
        contains: Seq::empty(),
        backup_policy: service.backup_policy,
        protected: service.environment == "production"@,
        notes: Some(
            "Adopted from observed Docker volume; contents and backup policy should be reviewed."@,
        ),
    }
}

/// A volume of a service, as observed.
pub fn build_adopted_volume(options: &DriftAdoptOptions<'_>, service: &Service, stamp: i64) -> (r:
    VolumeRecord)
    ensures
        r.deep_view() == adopted_volume(options.deep_view(), service.deep_view(), stamp),
{
    let ids = map_each(
        &options.registry.volumes.volumes,
        |v: &VolumeRecord| -> (t: String)
            ensures
                t.deep_view() == v.deep_view().id
            { v.id.clone() },
        Ghost(|v: VolumeRecordView| v.id),
    );
    let base = cat4(
        "observed-",
        &sanitize_id_part(&service.id),
        "-",
        &sanitize_id_part(options.target),
    );
    let none: Vec<String> = Vec::new();
    proof {
        assert(none.deep_view() =~= Seq::<Seq<char>>::empty());
    }
    VolumeRecord {
        id: unique_record_id(&ids, &base, stamp),
        name: options.target.to_string(),
        service_id: service.id.clone(),
        kind: "docker_volume".to_string(),
        mountpoint: None,
        contains: none,
        backup_policy: service.backup_policy.clone(),
        protected: same(&service.environment, "production"),
        notes: Some(
            "Adopted from observed Docker volume; contents and backup policy should be reviewed.".to_string(),
        ),
    }
}

/// What an adoption of this kind adds; none for a port that is no longer
/// observed.
pub open spec fn adoption_record(
    options: DriftAdoptOptionsView,
    service: ServiceView,
    ports: Seq<ObservedPortView>,
    kind: Seq<char>,
    stamp: i64,
) -> Option<AdoptionRecordView> {
    if kind == "port"@ {
        match port_at(ports, options.target) {
            Some(observed) => Some(
                AdoptionRecordView::Port(adopted_port(options, service, observed, stamp)),
            ),
            None => None,
        }
    } else if kind == "caddy-domain"@ {
        Some(AdoptionRecordView::Domain(adopted_domain(options, service, stamp)))
    } else if kind == "docker-container"@ {
        Some(
            AdoptionRecordView::ServiceList {
                field: ServiceListField::Containers,
                value: options.target,
            },
        )
    } else if kind == "compose-project"@ {
        Some(
            AdoptionRecordView::ServiceList {
                field: ServiceListField::ComposeProjects,
                value: options.target,
            },
        )
    } else if kind == "docker-volume"@ {
        Some(AdoptionRecordView::Volume(adopted_volume(options, service, stamp)))
    } else {
        Some(AdoptionRecordView::SystemdUnit(options.target))
    }
}

/// What an adoption of this kind adds.
pub fn build_adoption_record(
    options: &DriftAdoptOptions<'_>,
    service: &Service,
    ports: &Vec<ObservedPort>,
    kind: &str,
    stamp: i64,
) -> (r: Option<AdoptionRecord>)
    ensures
        r.deep_view() == adoption_record(
            options.deep_view(),
            service.deep_view(),
            ports.deep_view(),
            kind@,
            stamp,
        ),
{
    if same(kind, "port") {
        match observed_port_at(ports, options.target) {
            Some(observed) => Some(
                AdoptionRecord::Port(build_adopted_port(options, service, observed, stamp)),
            ),
            None => None,
        }
    } else if same(kind, "caddy-domain") {
        Some(AdoptionRecord::Domain(build_adopted_domain(options, service, stamp)))
    } else if same(kind, "docker-container") {
        Some(
            AdoptionRecord::ServiceList {
                field: ServiceListField::Containers,
                value: options.target.to_string(),
            },
        )
    } else if same(kind, "compose-project") {
        Some(
            AdoptionRecord::ServiceList {
                field: ServiceListField::ComposeProjects,
                value: options.target.to_string(),
            },
        )
    } else if same(kind, "docker-volume") {
        Some(AdoptionRecord::Volume(build_adopted_volume(options, service, stamp)))
    } else {
        Some(AdoptionRecord::SystemdUnit(options.target.to_string()))
    }
}

// ---------------------------------------------------------------------------
// Adopting
// ---------------------------------------------------------------------------

/// The outcome of asking for an adoption, and whether its record is to be
/// written.
#[derive(Debug)]
pub struct DriftAdoptPlan {
    pub report: DriftAdoptReport,
    pub write: bool,
}

/// View of [`DriftAdoptPlan`].
#[verifier::ext_equal]
pub struct DriftAdoptPlanView {
    pub report: DriftAdoptReportView,
    pub write: bool,
}

impl DeepView for DriftAdoptPlan {
    type V = DriftAdoptPlanView;

    open spec fn deep_view(&self) -> DriftAdoptPlanView {
        DriftAdoptPlanView {
            report: self.report.deep_view(),
            write: self.write,
        }
    }
}

/// The report on an adoption before anything is written.
pub open spec fn adopt_report_for_kind(
    options: DriftAdoptOptionsView,
    kind: Seq<char>,
    status: Seq<char>,
    ok: bool,
    record: Option<AdoptionRecordView>,
    warnings: Seq<Seq<char>>,
    limitations: Seq<Seq<char>>,
) -> DriftAdoptReportView {
    DriftAdoptReportView {
        ok,
        execute: options.execute,
        kind,
        target: options.target,
        service_id: options.service_id,
        status,
        reason: options.reason,
        operator_note: options.operator_note,
        review_status: options.review_status,
        record,
        warnings,
        limitations,
        changed_files: Seq::empty(),
        rollback_performed: false,
        rollback_errors: Seq::empty(),
        journal_path: None,
        journal_written: false,
    }
}

/// The report on an adoption before anything is written.
pub fn build_adopt_report(
    options: &DriftAdoptOptions<'_>,
    kind: &str,
    status: &str,
    ok: bool,
    record: Option<AdoptionRecord>,
    warnings: Vec<String>,
    limitations: Vec<String>,
) -> (r: DriftAdoptReport)
    ensures
        r.deep_view() == adopt_report_for_kind(
            options.deep_view(),
            kind@,
            status@,
            ok,
            record.deep_view(),
            warnings.deep_view(),
            limitations.deep_view(),
        ),
{
    let report = DriftAdoptReport {
        ok,
        execute: options.execute,
        kind: kind.to_string(),
        target: options.target.to_string(),
        service_id: options.service_id.to_string(),
        status: status.to_string(),
        reason: own_opt(options.reason),
        operator_note: own_opt(options.operator_note),
        review_status: options.review_status.to_string(),
        record,
        warnings,
        limitations,
        changed_files: Vec::new(),
        rollback_performed: false,
        rollback_errors: Vec::new(),
        journal_path: None,
        journal_written: false,
    };
    proof {
        assert(report.changed_files.deep_view() =~= Seq::<Seq<char>>::empty());
        assert(report.rollback_errors.deep_view() =~= Seq::<Seq<char>>::empty());
    }
    report
}

/// Everything that keeps a request from being resolved.
pub open spec fn adopt_limitations(
    options: DriftAdoptOptionsView,
    findings: Seq<ScanFindingView>,
) -> Seq<Seq<char>> {
    let kinds = adoptable_kinds(options, findings);
    adopt_option_limitations(options) + if service_with_id(
        options.registry.services.services,
        options.service_id,
    ) is None {
        noted(true, "service_id is not registered: "@ + options.service_id)
    } else {
        noted(
            kinds.len() == 0,
            "adoptable observed drift target not found for kind "@ + options.kind + ": "@
                + options.target,
        ) + noted(
            options.kind == "auto"@ && kinds.len() > 1,
            "multiple adoptable drift findings match this target; rerun with --kind"@,
        )
    }
}

/// Everything that keeps a request from being resolved.
pub fn list_adopt_limitations(
    options: &DriftAdoptOptions<'_>,
    known: bool,
    kinds: &Vec<String>,
    findings: &Vec<ScanFinding>,
) -> (r: Vec<String>)
    requires
        known == (service_with_id(
            options.deep_view().registry.services.services,
            options.deep_view().service_id,
        ) is Some),
        kinds.deep_view() == adoptable_kinds(options.deep_view(), findings.deep_view()),
    ensures
        r.deep_view() == adopt_limitations(options.deep_view(), findings.deep_view()),
{
    let mut l = validate_adopt_options(options);
    proof {
        assert(kinds.deep_view().len() == kinds@.len());
    }
    if !known {
        note(&mut l, true, &cat2("service_id is not registered: ", options.service_id));
    } else {
        note(
            &mut l,
            kinds.len() == 0,
            &cat4(
                "adoptable observed drift target not found for kind ",
                options.kind,
                ": ",
                options.target,
            ),
        );
        note(
            &mut l,
            same(options.kind, "auto") && kinds.len() > 1,
            "multiple adoptable drift findings match this target; rerun with --kind",
        );
        proof {
            assert(l.deep_view() =~= adopt_limitations(options.deep_view(), findings.deep_view()));
        }
    }
    l
}

/// The outcome of asking for an adoption. Its record is to be written if and
/// only if nothing is wrong and execution is asked for.
pub open spec fn adopt_plan(
    options: DriftAdoptOptionsView,
    scan: ScanReportView,
    stamp: i64,
) -> DriftAdoptPlanView {
    let limitations = adopt_limitations(options, scan.findings);
    let none = Seq::<Seq<char>>::empty();
    if limitations.len() > 0 {
        DriftAdoptPlanView {
            report: adopt_report_for_kind(
                options,
                options.kind,
                "blocked"@,
                false,
                None,
                none,
                limitations,
            ),
            write: false,
        }
    } else {
        let kind = adoptable_kinds(options, scan.findings)[0];
        let service = service_with_id(options.registry.services.services, options.service_id)->0;
        let record = adoption_record(options, service, scan.detected.ports, kind, stamp);
        if record is None {
            DriftAdoptPlanView {
                report: adopt_report_for_kind(
                    options,
                    kind,
                    "blocked"@,
                    false,
                    None,
                    review_warnings(kind),
                    none.push("observed port target not found: "@ + options.target),
                ),
                write: false,
            }
        } else {
            DriftAdoptPlanView {
                report: adopt_report_for_kind(
                    options,
                    kind,
                    if options.execute {
                        "adopted"@
                    } else {
                        "dry_run"@
                    },
                    true,
                    record,
                    review_warnings(kind),
                    none,
                ),
                write: options.execute,
            }
        }
    }
}

/// Asks for the adoption of an observed resource into a registered service.
pub fn drift_adopt(options: &DriftAdoptOptions<'_>, scan: &ScanReport, stamp: i64) -> (r:
    DriftAdoptPlan)
    ensures
        r.deep_view() == adopt_plan(options.deep_view(), scan.deep_view(), stamp),
{
    let kinds = list_adoptable_kinds(options, &scan.findings);
    let service = find_service(&options.registry.services.services, options.service_id);
    let limitations = list_adopt_limitations(options, service.is_some(), &kinds, &scan.findings);
    let mut none: Vec<String> = Vec::new();
    proof {
        assert(none.deep_view() =~= Seq::<Seq<char>>::empty());
        assert(limitations.deep_view().len() == limitations@.len());
        assert(kinds.deep_view().len() == kinds@.len());
    }
    if limitations.len() > 0 {
        return DriftAdoptPlan {
            report: build_adopt_report(
                options,
                options.kind,
                "blocked",
                false,
                None,
                none,
                limitations,
            ),
            write: false,
        };
    }
    let service = match service {
        Some(service) => service,
        None => {
            proof {
                assert(false);
            }
            return DriftAdoptPlan {
                report: build_adopt_report(
                    options,
                    options.kind,
                    "blocked",
                    false,
                    None,
                    none,
                    limitations,
                ),
                write: false,
            };
        },
    };
    proof {
        assert(kinds@.len() > 0);
        assert(kinds.deep_view()[0] == kinds@[0]@);
    }
    let kind = &kinds[0];
    let warnings = incomplete_review_warnings(kind);
    match build_adoption_record(options, service, &scan.detected.ports, kind, stamp) {
        None => {
            put(&mut none, &cat2("observed port target not found: ", options.target));
            DriftAdoptPlan {
                report: build_adopt_report(
                    options,
                    kind,
                    "blocked",
                    false,
                    None,
                    warnings,
                    none,
                ),
                write: false,
            }
        },
        Some(record) => {
            let status = if options.execute {
                "adopted"
            } else {
                "dry_run"
            };
            DriftAdoptPlan {
                report: build_adopt_report(
                    options,
                    kind,
                    status,
                    true,
                    Some(record),
                    warnings,
                    none,
                ),
                write: options.execute,
            }
        },
    }
}

/// The report on an adoption after the registry was written, or could not be.
pub open spec fn written_adopt(
    report: DriftAdoptReportView,
    outcome: ApplyOutcomeView,
) -> DriftAdoptReportView {
    DriftAdoptReportView {
        ok: report.ok && outcome.error is None,
        status: if outcome.error is Some {
            "failed"@
        } else {
            report.status
        },
        limitations: match outcome.error {
            Some(error) => report.limitations.push(error),
            None => report.limitations,
        },
        changed_files: outcome.changed_files,
        rollback_performed: outcome.rollback_performed,
        rollback_errors: outcome.rollback_errors,
        ..report
    }
}

/// The report on an adoption after the registry was written, or could not be.
pub fn finish_adopt(report: DriftAdoptReport, outcome: ApplyOutcome) -> (r: DriftAdoptReport)
    ensures
        r.deep_view() == written_adopt(report.deep_view(), outcome.deep_view()),
{
    let mut report = report;
    if let Some(error) = &outcome.error {
        let mut limitations = report.limitations;
        put(&mut limitations, error);
        report.limitations = limitations;
        report.ok = false;
        report.status = "failed".to_string();
    }
    report.changed_files = outcome.changed_files;
    report.rollback_performed = outcome.rollback_performed;
    report.rollback_errors = outcome.rollback_errors;
    report
}

// ---------------------------------------------------------------------------
// Reviewing an adoption
// ---------------------------------------------------------------------------

/// The names of a list that equal the target, as places in the registry.
pub open spec fn list_places(
    service_id: Seq<char>,
    label: Seq<char>,
    values: Seq<Seq<char>>,
    target: Seq<char>,
) -> Seq<Seq<char>> {
    gathered(
        values,
        |v: Seq<char>|
            noted(v == target, "services.yml:"@ + service_id + ":"@ + label + "="@ + v),
    )
}

/// The names of a list that equal the target, as places in the registry.
pub fn note_list_places(
    places: &mut Vec<String>,
    service_id: &str,
    label: &str,
    values: &Vec<String>,
    target: &str,
)
    ensures
        final(places).deep_view() == old(places).deep_view() + list_places(
            service_id@,
            label@,
            values.deep_view(),
            target@,
        ),
{
    let more = gather_each(
        values,
        |v: &String| -> (r: Vec<String>)
            ensures
                r.deep_view() == noted(
                    v@ == target@,
                    "services.yml:"@ + service_id@ + ":"@ + label@ + "="@ + v@,
                )
            {
                let mut one: Vec<String> = Vec::new();
                proof {
                    assert(one.deep_view() =~= Seq::<Seq<char>>::empty());
                }
                note(
                    &mut one,
                    same(v, target),
                    &cat6("services.yml:", service_id, ":", label, "=", v),
                );
                proof {
                    let whole = noted(
                        v@ == target@,
                        "services.yml:"@ + service_id@ + ":"@ + label@ + "="@ + v@,
                    );
                    assert(Seq::<Seq<char>>::empty() + whole =~= whole);
                }
                one
            },
        Ghost(
            |v: Seq<char>|
                noted(
                    v == target@,
                    "services.yml:"@ + service_id@ + ":"@ + label@ + "="@ + v,
                ),
        ),
    );
    extend(places, &more);
}

/// The units of a service that equal the target, as places in the registry.
pub open spec fn unit_places(service: ServiceView, target: Seq<char>) -> Seq<Seq<char>> {
    match service.deployment {
        None => Seq::empty(),
        Some(contract) => list_places(
            service.id,
            "systemd"@,
            contract.systemd.map_values(|s: ServiceSystemdContractView| s.unit),
            target,
        ),
    }
}

/// Whether a record belongs to the service, or any service will do.
pub open spec fn service_fits(expected: Option<Seq<char>>, service_id: Seq<char>) -> bool {
    expected is None || expected == Some(service_id)
}

/// Whether a record belongs to the service, or any service will do.
pub fn fits_service(expected: Option<&str>, service_id: &str) -> (r: bool)
    ensures
        r == service_fits(expected.deep_view(), service_id@),
{
    expected.is_none() || is_text(expected, service_id)
}

/// Where a service names the target.
pub open spec fn service_places(
    service: ServiceView,
    target: Seq<char>,
    expected: Option<Seq<char>>,
) -> Seq<Seq<char>> {
    if service_fits(expected, service.id) {
        Seq::<Seq<char>>::empty() + list_places(
            service.id,
            "container"@,
            service.containers,
            target,
        ) + list_places(
            service.id,
            "compose_project"@,
            service.compose_projects,
            target,
        ) + list_places(service.id, "domain"@, service.domains, target) + list_places(
            service.id,
            "volume_ref"@,
            service.volumes,
            target,
        ) + unit_places(service, target)
    } else {
        Seq::empty()
    }
}

/// Where a service names the target.
pub fn list_service_places(service: &Service, target: &str, expected: Option<&str>) -> (r: Vec<
    String,
>)
    ensures
        r.deep_view() == service_places(service.deep_view(), target@, expected.deep_view()),
{
    let mut places: Vec<String> = Vec::new();
    proof {
        assert(places.deep_view() =~= Seq::<Seq<char>>::empty());
    }
    if fits_service(expected, &service.id) {
        note_list_places(&mut places, &service.id, "container", &service.containers, target);
        note_list_places(
            &mut places,
            &service.id,
            "compose_project",
            &service.compose_projects,
            target,
        );
        note_list_places(&mut places, &service.id, "domain", &service.domains, target);
        note_list_places(&mut places, &service.id, "volume_ref", &service.volumes, target);
        let ghost before = places.deep_view();
        match &service.deployment {
            None => {
                proof {
                    assert(before + Seq::<Seq<char>>::empty() =~= before);
                }
            },
            Some(contract) => {
                let units = map_each(
                    &contract.systemd,
                    |s: &ServiceSystemdContract| -> (t: String)
                        ensures
                            t.deep_view() == s.deep_view().unit
                        { s.unit.clone() },
                    Ghost(|s: ServiceSystemdContractView| s.unit),
                );
                note_list_places(&mut places, &service.id, "systemd", &units, target);
            },
        }
    }
    places
}

/// Where the registry names the target.
pub open spec fn adopted_places(
    registry: RegistryView,
    target: Seq<char>,
    expected: Option<Seq<char>>,
) -> Seq<Seq<char>> {
    sorted_set(
        gathered(
            registry.services.services,
            |s: ServiceView| service_places(s, target, expected),
        ) + chosen(
            registry.ports.ports,
            |p: PortRecordView|
                if endpoint_spec(p.bind, p.port) == target && service_fits(
                    expected,
                    p.service_id,
                ) {
                    Some("ports.yml:"@ + p.service_id + ":"@ + p.id)
                } else {
                    None
                },
        ) + chosen(
            registry.domains.domains,
            |d: DomainRecordView|
                if d.host == target && service_fits(expected, d.service_id) {
                    Some("domains.yml:"@ + d.service_id + ":"@ + d.id)
                } else {
                    None
                },
        ) + chosen(
            registry.volumes.volumes,
            |v: VolumeRecordView|
                if v.name == target && service_fits(expected, v.service_id) {
                    Some("volumes.yml:"@ + v.service_id + ":"@ + v.id)
                } else {
                    None
                },
        ),
    )
}

/// Where the registry names the target.
pub fn find_adopted_registry_records(
    registry: &Registry,
    target: &str,
    expected: Option<&str>,
) -> (r: Vec<String>)
    ensures
        r.deep_view() == adopted_places(registry.deep_view(), target@, expected.deep_view()),
{
    let mut places = gather_each(
        &registry.services.services,
        |s: &Service| -> (r: Vec<String>)
            ensures
                r.deep_view() == service_places(s.deep_view(), target@, expected.deep_view())
            { list_service_places(s, target, expected) },
        Ghost(|s: ServiceView| service_places(s, target@, expected.deep_view())),
    );
    let ports = choose_each(
        &registry.ports.ports,
        |p: &PortRecord| -> (r: Option<String>)
            ensures
                r.deep_view() == (if endpoint_spec(p.deep_view().bind, p.deep_view().port)
                    == target@ && service_fits(expected.deep_view(), p.deep_view().service_id) {
                    Some("ports.yml:"@ + p.deep_view().service_id + ":"@ + p.deep_view().id)
                } else {
                    None
                })
            {
                if same(&endpoint(&p.bind, p.port), target) && fits_service(
                    expected,
                    &p.service_id,
                ) {
                    Some(cat4("ports.yml:", &p.service_id, ":", &p.id))
                } else {
                    None
                }
            },
        Ghost(
            |p: PortRecordView|
                if endpoint_spec(p.bind, p.port) == target@ && service_fits(
                    expected.deep_view(),
                    p.service_id,
                ) {
                    Some("ports.yml:"@ + p.service_id + ":"@ + p.id)
                } else {
                    None
                },
        ),
    );
    let domains = choose_each(
        &registry.domains.domains,
        |d: &DomainRecord| -> (r: Option<String>)
            ensures
                r.deep_view() == (if d.deep_view().host == target@ && service_fits(
                    expected.deep_view(),
                    d.deep_view().service_id,
                ) {
                    Some("domains.yml:"@ + d.deep_view().service_id + ":"@ + d.deep_view().id)
                } else {
                    None
                })
            {
                if same(&d.host, target) && fits_service(expected, &d.service_id) {
                    Some(cat4("domains.yml:", &d.service_id, ":", &d.id))
                } else {
                    None
                }
            },
        Ghost(
            |d: DomainRecordView|
                if d.host == target@ && service_fits(expected.deep_view(), d.service_id) {
                    Some("domains.yml:"@ + d.service_id + ":"@ + d.id)
                } else {
                    None
                },
        ),
    );
    let volumes = choose_each(
        &registry.volumes.volumes,
        |v: &VolumeRecord| -> (r: Option<String>)
            ensures
                r.deep_view() == (if v.deep_view().name == target@ && service_fits(
                    expected.deep_view(),
                    v.deep_view().service_id,
                ) {
                    Some("volumes.yml:"@ + v.deep_view().service_id + ":"@ + v.deep_view().id)
                } else {
                    None
                })
            {
                if same(&v.name, target) && fits_service(expected, &v.service_id) {
                    Some(cat4("volumes.yml:", &v.service_id, ":", &v.id))
                } else {
                    None
                }
            },
        Ghost(
            |v: VolumeRecordView|
                if v.name == target@ && service_fits(expected.deep_view(), v.service_id) {
                    Some("volumes.yml:"@ + v.service_id + ":"@ + v.id)
                } else {
                    None
                },
        ),
    );
    extend(&mut places, &ports);
    extend(&mut places, &domains);
    extend(&mut places, &volumes);
    unique_sorted(places)
}

/// Everything that is wrong with a review of an adoption.
pub open spec fn adopt_review_limitations(
    options: DriftAdoptReviewOptionsView,
    matched: Seq<Seq<char>>,
) -> Seq<Seq<char>> {
    Seq::<Seq<char>>::empty() + option_remark("target"@, Some(options.target)) + option_remark(
        "service_id"@,
        options.service_id,
    ) + option_remark("reason"@, options.reason) + noted(
        options.status != "reviewed"@ && options.status != "rejected"@ && options.status
            != "needs_review"@,
        "status must be reviewed, rejected, or needs_review"@,
    ) + noted(
        options.execute && blank(options.reason),
        "reason is required when executing adopt-review"@,
    ) + noted(
        matched.len() == 0,
        "no matching adopted registry record was found for target/service_id"@,
    )
}

/// The review of an adoption. It is to be recorded if and only if its status is
/// `recorded`.
pub open spec fn adopt_review(options: DriftAdoptReviewOptionsView) -> DriftAdoptReviewReportView {
    let matched = adopted_places(options.registry, options.target, options.service_id);
    let limitations = adopt_review_limitations(options, matched);
    let ok = limitations.len() == 0;
    DriftAdoptReviewReportView {
        ok,
        execute: options.execute,
        status: if !ok {
            "blocked"@
        } else if options.execute {
            "recorded"@
        } else {
            "dry_run"@
        },
        target: options.target,
        service_id: options.service_id,
        review_status: options.status,
        reason: options.reason,
        matched_registry_records: matched,
        warnings: Seq::<Seq<char>>::empty() + noted(
            options.status == "rejected"@,
            "adopt-review rejected records are journaled only; remove or correct registry records separately through a reviewed change"@,
        ),
        limitations,
        journal_path: None,
        journal_written: false,
    }
}

/// Reviews an adoption.
pub fn drift_adopt_review(options: &DriftAdoptReviewOptions<'_>) -> (r: DriftAdoptReviewReport)
    ensures
        r.deep_view() == adopt_review(options.deep_view()),
{
    let matched = find_adopted_registry_records(
        options.registry,
        options.target,
        options.service_id,
    );
    let mut l: Vec<String> = Vec::new();
    let mut warnings: Vec<String> = Vec::new();
    proof {
        assert(l.deep_view() =~= Seq::<Seq<char>>::empty());
        assert(warnings.deep_view() =~= Seq::<Seq<char>>::empty());
        assert(matched.deep_view().len() == matched@.len());
    }
    validate_optional_adopt_text("target", Some(options.target), &mut l);
    validate_optional_adopt_text("service_id", options.service_id, &mut l);
    validate_optional_adopt_text("reason", options.reason, &mut l);
    note(
        &mut l,
        !same(options.status, "reviewed") && !same(options.status, "rejected") && !same(
            options.status,
            "needs_review",
        ),
        "status must be reviewed, rejected, or needs_review",
    );
    note(
        &mut l,
        options.execute && is_blank(options.reason),
        "reason is required when executing adopt-review",
    );
    note(
        &mut l,
        matched.len() == 0,
        "no matching adopted registry record was found for target/service_id",
    );
    note(
        &mut warnings,
        same(options.status, "rejected"),
        "adopt-review rejected records are journaled only; remove or correct registry records separately through a reviewed change",
    );
    proof {
        assert(l.deep_view().len() == l@.len());
    }
    let ok = l.len() == 0;
    let status = if !ok {
        "blocked"
    } else if options.execute {
        "recorded"
    } else {
        "dry_run"
    };
    DriftAdoptReviewReport {
        ok,
        execute: options.execute,
        status: status.to_string(),
        target: options.target.to_string(),
        service_id: own_opt(options.service_id),
        review_status: options.status.to_string(),
        reason: own_opt(options.reason),
        matched_registry_records: matched,
        warnings,
        limitations: l,
        journal_path: None,
        journal_written: false,
    }
}

// ---------------------------------------------------------------------------
// Adding a service
// ---------------------------------------------------------------------------

/// A character of a service id.
pub open spec fn service_id_char(c: char) -> bool {
    is_lower(c) || is_digit(c) || c == '-' || c == '_'
}

/// Whether a text can be the id of a service.
pub open spec fn valid_service_id(id: Seq<char>) -> bool {
    id.len() > 0 && byte_len(id) <= 80 && !holds(id, ".."@) && forall|i: int|
        0 <= i < id.len() ==> service_id_char(#[trigger] id[i])
}

/// Whether a text can be the id of a service.
pub fn service_id_is_valid(id: &str) -> (r: bool)
    ensures
        r == valid_service_id(id@),
{
    let a = chars_of(id);
    if a.len() == 0 || byte_size(id) > 80 || contains(id, "..") {
        return false;
    }
    let mut i: usize = 0;
    while i < a.len()
        invariant
            i <= a@.len(),
            a@ == id@,
            forall|j: int| 0 <= j < i ==> service_id_char(#[trigger] id@[j]),
        decreases a@.len() - i,
    {
        let c = a[i];
        if !(lower(c) || digit(c) || c == '-' || c == '_') {
            proof {
                assert(!service_id_char(id@[i as int]));
            }
            return false;
        }
        i = i + 1;
    }
    true
}

/// A text that holds more than white space.
pub open spec fn unblank(text: Option<Seq<char>>) -> Option<Seq<char>> {
    match text {
        Some(t) => if trimmed(t).len() == 0 {
            None
        } else {
            Some(t)
        },
        None => None,
    }
}

/// A text that holds more than white space.
pub fn non_blank(text: Option<&str>) -> (r: Option<&str>)
    ensures
        r.deep_view() == unblank(text.deep_view()),
{
    match text {
        Some(t) => if trim(t).as_str().is_empty() {
            None
        } else {
            Some(t)
        },
        None => None,
    }
}

/// The service that the request describes.
pub open spec fn new_service(options: DriftServiceAddOptionsView) -> ServiceView {
    ServiceView {
        id: options.id,
        name: text_or(unblank(options.name), options.id),
        root: options.root,
        kind: options.kind,
        environment: options.environment,
        deploy_method: unblank(options.deploy_method),
        owner: unblank(options.owner),
        status: options.status,
        ports: Seq::empty(),
        domains: Seq::empty(),
        compose_projects: Seq::empty(),
        containers: Seq::empty(),
        volumes: Seq::empty(),
        data_paths: match options.root {
            Some(root) => seq![root],
            None => Seq::empty(),
        },
        env_files: Seq::empty(),
        database: None,
        deployment: Some(observed_contract()),
        backup_policy: unblank(options.backup_policy),
        notes: Some(text_or(options.notes, "Added from observed drift review."@)),
    }
}

/// The service that the request describes.
pub fn build_new_service(options: &DriftServiceAddOptions<'_>) -> (r: Service)
    ensures
        r.deep_view() == new_service(options.deep_view()),
{
    let data_paths: Vec<String> = match options.root {
        Some(root) => vec![root.to_string()],
        None => Vec::new(),
    };
    let service = Service {
        id: options.id.to_string(),
        name: or_text(non_blank(options.name), options.id).to_string(),
        root: own_opt(options.root),
        kind: options.kind.to_string(),
        environment: options.environment.to_string(),
        deploy_method: own_opt(non_blank(options.deploy_method)),
        owner: own_opt(non_blank(options.owner)),
        status: options.status.to_string(),
        ports: Vec::new(),
        domains: Vec::new(),
        compose_projects: Vec::new(),
        containers: Vec::new(),
        volumes: Vec::new(),
        data_paths,
        env_files: Vec::new(),
        database: None,
        deployment: Some(empty_observed_deployment_contract()),
        backup_policy: own_opt(non_blank(options.backup_policy)),
        notes: Some(or_text(options.notes, "Added from observed drift review.").to_string()),
    };
    proof {
        assert(service.deep_view() =~= new_service(options.deep_view()));
    }
    service
}

/// Everything that is wrong with the request for a service.
#[verifier::opaque]
pub open spec fn service_add_limitations(options: DriftServiceAddOptionsView) -> Seq<Seq<char>> {
    Seq::empty() + noted(
        !valid_service_id(options.id),
        "service id must use lowercase ASCII letters, digits, '-' or '_'"@,
    ) + option_remark("name"@, options.name) + option_remark("kind"@, Some(options.kind))
        + option_remark("environment"@, Some(options.environment)) + option_remark(
        "deploy_method"@,
        options.deploy_method,
    ) + option_remark("owner"@, options.owner) + option_remark("status"@, Some(options.status))
        + option_remark("backup_policy"@, options.backup_policy) + option_remark(
        "reason"@,
        options.reason,
    ) + option_remark("notes"@, options.notes) + noted(
        options.execute && blank(options.reason),
        "reason is required when executing service-add"@,
    ) + noted(trimmed(options.kind).len() == 0, "kind is required"@) + noted(
        trimmed(options.environment).len() == 0,
        "environment is required"@,
    ) + noted(trimmed(options.status).len() == 0, "status is required"@) + noted(
        options.root is Some && !is_absolute_spec(options.root->0),
        "root must be an absolute path"@,
    ) + noted(
        service_known(options.registry.services.services, options.id),
        "service id is already registered: "@ + options.id,
    )
}

/// Everything that is wrong with the request for a service.
pub fn validate_service_add(options: &DriftServiceAddOptions<'_>) -> (r: Vec<String>)
    ensures
        r.deep_view() == service_add_limitations(options.deep_view()),
{
    let mut l: Vec<String> = Vec::new();
    proof {
        reveal(service_add_limitations);
        assert(l.deep_view() =~= Seq::<Seq<char>>::empty());
    }
    note(
        &mut l,
        !service_id_is_valid(options.id),
        "service id must use lowercase ASCII letters, digits, '-' or '_'",
    );
    validate_optional_adopt_text("name", options.name, &mut l);
    validate_optional_adopt_text("kind", Some(options.kind), &mut l);
    validate_optional_adopt_text("environment", Some(options.environment), &mut l);
    validate_optional_adopt_text("deploy_method", options.deploy_method, &mut l);
    validate_optional_adopt_text("owner", options.owner, &mut l);
    validate_optional_adopt_text("status", Some(options.status), &mut l);
    validate_optional_adopt_text("backup_policy", options.backup_policy, &mut l);
    validate_optional_adopt_text("reason", options.reason, &mut l);
    validate_optional_adopt_text("notes", options.notes, &mut l);
    note(
        &mut l,
        options.execute && is_blank(options.reason),
        "reason is required when executing service-add",
    );
    note(&mut l, trim(options.kind).as_str().is_empty(), "kind is required");
    note(&mut l, trim(options.environment).as_str().is_empty(), "environment is required");
    note(&mut l, trim(options.status).as_str().is_empty(), "status is required");
    let relative = match options.root {
        Some(root) => !is_absolute(root),
        None => false,
    };
    note(&mut l, relative, "root must be an absolute path");
    note(
        &mut l,
        has_service(&options.registry.services.services, options.id),
        &cat2("service id is already registered: ", options.id),
    );
    l
}

/// The outcome of asking for a service, and whether the service is to be added.
#[derive(Debug)]
pub struct DriftServiceAddPlan {
    pub report: DriftServiceAddReport,
    pub write: bool,
}

/// View of [`DriftServiceAddPlan`].
#[verifier::ext_equal]
pub struct DriftServiceAddPlanView {
    pub report: DriftServiceAddReportView,
    pub write: bool,
}

impl DeepView for DriftServiceAddPlan {
    type V = DriftServiceAddPlanView;

    open spec fn deep_view(&self) -> DriftServiceAddPlanView {
        DriftServiceAddPlanView {
            report: self.report.deep_view(),
            write: self.write,
        }
    }
}

/// The outcome of asking for a service. The service is to be added if and only
/// if nothing is wrong and execution is asked for.
pub open spec fn service_add_plan(
    options: DriftServiceAddOptionsView,
    root_exists: bool,
) -> DriftServiceAddPlanView {
    let limitations = service_add_limitations(options);
    let ok = limitations.len() == 0;
    DriftServiceAddPlanView {
        report: DriftServiceAddReportView {
            ok,
            execute: options.execute,
            status: if !ok {
                "blocked"@
            } else if !options.execute {
                "dry_run"@
            } else {
                "added"@
            },
            service_id: options.id,
            reason: options.reason,
            service: Some(new_service(options)),
            warnings: Seq::<Seq<char>>::empty() + noted(
                options.root is Some && !root_exists,
                "root path does not currently exist: "@ + text_or(options.root, ""@),
            ),
            limitations,
            changed_files: Seq::empty(),
            rollback_performed: false,
            rollback_errors: Seq::empty(),
        },
        write: ok && options.execute,
    }
}

/// Asks for a service to be added. `root_exists` tells whether the root is
/// there.
pub fn drift_service_add(options: &DriftServiceAddOptions<'_>, root_exists: bool) -> (r:
    DriftServiceAddPlan)
    ensures
        r.deep_view() == service_add_plan(options.deep_view(), root_exists),
{
    let limitations = validate_service_add(options);
    let mut warnings: Vec<String> = Vec::new();
    proof {
        assert(warnings.deep_view() =~= Seq::<Seq<char>>::empty());
        assert(limitations.deep_view().len() == limitations@.len());
    }
    note(
        &mut warnings,
        options.root.is_some() && !root_exists,
        &cat2("root path does not currently exist: ", or_text(options.root, "")),
    );
    let ok = limitations.len() == 0;
    let status = if !ok {
        "blocked"
    } else if !options.execute {
        "dry_run"
    } else {
        "added"
    };
    let report = DriftServiceAddReport {
        ok,
        execute: options.execute,
        status: status.to_string(),
        service_id: options.id.to_string(),
        reason: own_opt(options.reason),
        service: Some(build_new_service(options)),
        warnings,
        limitations,
        changed_files: Vec::new(),
        rollback_performed: false,
        rollback_errors: Vec::new(),
    };
    proof {
        assert(report.changed_files.deep_view() =~= Seq::<Seq<char>>::empty());
        assert(report.rollback_errors.deep_view() =~= Seq::<Seq<char>>::empty());
    }
    DriftServiceAddPlan { report, write: ok && options.execute }
}

/// The report on a service after the registry was written, or could not be.
pub open spec fn written_service_add(
    report: DriftServiceAddReportView,
    outcome: ApplyOutcomeView,
) -> DriftServiceAddReportView {
    DriftServiceAddReportView {
        ok: report.ok && outcome.error is None,
        status: if outcome.error is Some {
            "failed"@
        } else {
            report.status
        },
        limitations: match outcome.error {
            Some(error) => report.limitations.push(error),
            None => report.limitations,
        },
        changed_files: outcome.changed_files,
        rollback_performed: outcome.rollback_performed,
        rollback_errors: outcome.rollback_errors,
        ..report
    }
}

/// The report on a service after the registry was written, or could not be.
pub fn finish_service_add(report: DriftServiceAddReport, outcome: ApplyOutcome) -> (r:
    DriftServiceAddReport)
    ensures
        r.deep_view() == written_service_add(report.deep_view(), outcome.deep_view()),
{
    let mut report = report;
    if let Some(error) = &outcome.error {
        let mut limitations = report.limitations;
        put(&mut limitations, error);
        report.limitations = limitations;
        report.ok = false;
        report.status = "failed".to_string();
    }
    report.changed_files = outcome.changed_files;
    report.rollback_performed = outcome.rollback_performed;
    report.rollback_errors = outcome.rollback_errors;
    report
}

// ---------------------------------------------------------------------------
// Laws
// ---------------------------------------------------------------------------

/// Nothing is written in a dry run.
pub proof fn law_dry_run_adopt_writes_nothing(
    options: DriftAdoptOptionsView,
    scan: ScanReportView,
    stamp: i64,
)
    requires
        !options.execute,
    ensures
        !adopt_plan(options, scan, stamp).write,
{
}

/// What is adopted was observed, goes to a registered service, and has a reason.
pub proof fn law_adopted_resources_are_observed(
    options: DriftAdoptOptionsView,
    scan: ScanReportView,
    stamp: i64,
)
    requires
        adopt_plan(options, scan, stamp).write,
    ensures
        adopt_plan(options, scan, stamp).report.record is Some,
        adoptable_kinds(options, scan.findings).len() > 0,
        service_with_id(options.registry.services.services, options.service_id) is Some,
        !blank(options.reason),
{
    reveal(adopt_option_limitations);
}

/// Whether the options of an adoption can be used.
pub open spec fn adoption_can_be_made(options: DriftAdoptOptionsView) -> bool {
    &&& {
        ||| options.kind == "auto"@
        ||| options.kind == "port"@
        ||| options.kind == "caddy-domain"@
        ||| options.kind == "docker-container"@
        ||| options.kind == "compose-project"@
        ||| options.kind == "docker-volume"@
        ||| options.kind == "systemd-unit"@
    }
    &&& {
        ||| options.exposure == "public"@
        ||| options.exposure == "local"@
        ||| options.exposure == "localhost"@
        ||| options.exposure == "private"@
        ||| options.exposure == "private_network"@
        ||| options.exposure == "docker_internal"@
        ||| options.exposure == "external"@
        ||| options.exposure == "unknown"@
    }
    &&& options.review_status == "pending"@ || options.review_status == "reviewed"@
        || options.review_status == "needs_review"@
    &&& options.execute ==> options.reason is Some && options.reason->0.len() > 0
    &&& fits_on_a_line(options.reason)
    &&& fits_on_a_line(options.operator_note)
}

#[verifier::spinoff_prover]
#[verifier::rlimit(60)]
proof fn lemma_adoption_can_be_made(options: DriftAdoptOptionsView)
    ensures
        adopt_option_limitations(options).len() == 0 <==> adoption_can_be_made(options),
{
    reveal(adopt_option_limitations);
    assert(option_remark("reason"@, options.reason).len() == 0 <==> fits_on_a_line(
        options.reason,
    ));
    assert(option_remark("operator_note"@, options.operator_note).len() == 0 <==> fits_on_a_line(
        options.operator_note,
    ));
}

/// Whether a finding is one that the asked-for adoption is about, and of which kind.
pub open spec fn finding_can_be_adopted(
    options: DriftAdoptOptionsView,
    finding: ScanFindingView,
    kind: Seq<char>,
) -> bool {
    &&& finding.target == Some(options.target)
    &&& finding_adopt_kind_spec(finding.code) == Some(kind)
    &&& options.kind == "auto"@ || options.kind == kind
}

proof fn lemma_adoptable(
    options: DriftAdoptOptionsView,
    findings: Seq<ScanFindingView>,
    kind: Seq<char>,
)
    ensures
        adoptable_kinds(options, findings).contains(kind) <==> exists|i: int|
            0 <= i < findings.len() && finding_can_be_adopted(
                options,
                #[trigger] findings[i],
                kind,
            ),
{
    let f = |f: ScanFindingView|
        if adopts(options, f) {
            finding_adopt_kind_spec(f.code)
        } else {
            None
        };
    law_chosen(findings, f, kind);
    if exists|i: int|
        0 <= i < findings.len() && finding_can_be_adopted(options, #[trigger] findings[i], kind) {
        let i = choose|i: int|
            0 <= i < findings.len() && finding_can_be_adopted(
                options,
                #[trigger] findings[i],
                kind,
            );
        assert(f(findings[i]) == Some(kind));
    }
    if adoptable_kinds(options, findings).contains(kind) {
        let i = choose|i: int|
            0 <= i < findings.len() && f(#[trigger] findings[i]) == Some(kind);
        assert(finding_can_be_adopted(options, findings[i], kind));
    }
}

/// An adoption that is accepted is one that can be made, of a registered service, and of
/// something that was found under this target; its kind is that of the finding. It is
/// written where it is to be executed. It is refused where one of these does not hold.
pub proof fn law_which_adoptions_are_accepted(
    options: DriftAdoptOptionsView,
    scan: ScanReportView,
    stamp: i64,
)
    ensures
        ({
            let plan = adopt_plan(options, scan, stamp);
            let services = options.registry.services.services;
            &&& plan.report.ok ==> {
                &&& adoption_can_be_made(options)
                &&& exists|s: int|
                    0 <= s < services.len() && (#[trigger] services[s]).id == options.service_id
                &&& exists|i: int|
                    0 <= i < scan.findings.len() && finding_can_be_adopted(
                        options,
                        #[trigger] scan.findings[i],
                        plan.report.kind,
                    )
                &&& plan.report.record is Some
            }
            &&& !adoption_can_be_made(options) ==> !plan.report.ok
            &&& (forall|s: int|
                0 <= s < services.len() ==> (#[trigger] services[s]).id != options.service_id)
                ==> !plan.report.ok
            &&& options.kind != "auto"@ && adoption_can_be_made(options) && (exists|s: int|
                0 <= s < services.len() && (#[trigger] services[s]).id == options.service_id) && (
            exists|i: int|
                0 <= i < scan.findings.len() && finding_can_be_adopted(
                    options,
                    #[trigger] scan.findings[i],
                    options.kind,
                )) && (options.kind == "port"@ ==> port_at(scan.detected.ports, options.target)
                is Some) ==> plan.report.ok && plan.report.kind == options.kind
            &&& plan.write <==> plan.report.ok && options.execute
            &&& plan.report.status == "adopted"@ <==> plan.write
            &&& plan.report.status == "blocked"@ <==> !plan.report.ok
            &&& plan.report.target == options.target
            &&& plan.report.service_id == options.service_id
        }),
{
    let services = options.registry.services.services;
    let kinds = adoptable_kinds(options, scan.findings);
    let plan = adopt_plan(options, scan, stamp);
    lemma_adoption_can_be_made(options);
    let p = |s: ServiceView| s.id == options.service_id;
    law_first_where(services, p);
    if service_with_id(services, options.service_id) is Some {
        let s = choose|s: int|
            0 <= s < services.len() && #[trigger] services[s] == first_where(services, p)->0 && p(
                services[s],
            ) && forall|j: int| 0 <= j < s ==> !p(#[trigger] services[j]);
        assert(services[s].id == options.service_id);
    } else {
        assert forall|s: int| 0 <= s < services.len() implies (#[trigger] services[s]).id
            != options.service_id by {
            assert(!p(services[s]));
        }
    }
    if kinds.len() > 0 {
        assert(kinds.contains(kinds[0]));
        lemma_adoptable(options, scan.findings, kinds[0]);
        let i = choose|i: int|
            0 <= i < scan.findings.len() && finding_can_be_adopted(
                options,
                #[trigger] scan.findings[i],
                kinds[0],
            );
        assert(options.kind != "auto"@ ==> kinds[0] == options.kind);
    }
    lemma_adoptable(options, scan.findings, options.kind);
    reveal_strlit("adopted");
    reveal_strlit("blocked");
    reveal_strlit("dry_run");
    assert("adopted"@[0] == 'a' && "blocked"@[0] == 'b' && "dry_run"@[0] == 'd');
}

/// What is adopted is recorded as it was observed, for the service: a port with its
/// address and a known exposure, a host without an upstream, a volume that is protected
/// where the service is for production, or a name in the service's own lists.
pub proof fn law_what_is_recorded(
    options: DriftAdoptOptionsView,
    service: ServiceView,
    ports: Seq<ObservedPortView>,
    kind: Seq<char>,
    stamp: i64,
)
    ensures
        kind == "port"@ ==> match port_at(ports, options.target) {
            None => adoption_record(options, service, ports, kind, stamp) is None,
            Some(observed) => adoption_record(options, service, ports, kind, stamp) matches Some(
                AdoptionRecordView::Port(r),
            ) && r.port == observed.port && r.protocol == observed.protocol && r.bind
                == observed.bind && r.service_id == service.id && r.purpose == options.purpose
                && r.source == "observed"@ && (options.exposure == "local"@ ==> r.exposure
                == "localhost"@) && (options.exposure == "private"@ ==> r.exposure
                == "private_network"@) && (options.exposure == "public"@ ==> r.exposure
                == "public"@),
        },
        kind == "caddy-domain"@ ==> (adoption_record(options, service, ports, kind, stamp)
            matches Some(AdoptionRecordView::Domain(r)) && r.host == options.target && r.service_id
            == service.id && r.upstream is None && r.caddy_managed == Some(false) && r.status
            == "active"@),
        kind == "docker-volume"@ ==> (adoption_record(options, service, ports, kind, stamp)
            matches Some(AdoptionRecordView::Volume(r)) && r.name == options.target && r.service_id
            == service.id && r.backup_policy == service.backup_policy && (r.protected
            <==> service.environment == "production"@)),
        kind == "docker-container"@ ==> adoption_record(options, service, ports, kind, stamp)
            == Some(
            AdoptionRecordView::ServiceList {
                field: ServiceListField::Containers,
                value: options.target,
            },
        ),
        kind == "compose-project"@ ==> adoption_record(options, service, ports, kind, stamp) == Some(
            AdoptionRecordView::ServiceList {
                field: ServiceListField::ComposeProjects,
                value: options.target,
            },
        ),
        kind == "systemd-unit"@ ==> adoption_record(options, service, ports, kind, stamp) == Some(
            AdoptionRecordView::SystemdUnit(options.target),
        ),
{
    lemma_finding_codes();
    reveal_strlit("public");
    reveal_strlit("local");
    reveal_strlit("localhost");
    reveal_strlit("private");
    reveal_strlit("private_network");
    assert("public"@.len() == 6 && "local"@.len() == 5 && "localhost"@.len() == 9
        && "private"@.len() == 7 && "private_network"@.len() == 15);
}

/// An id of a service is one to 80 bytes of small letters, digits, hyphens and
/// underscores.
pub proof fn law_service_ids(id: Seq<char>)
    ensures
        valid_service_id(id) <==> 0 < id.len() && byte_len(id) <= 80 && forall|i: int|
            0 <= i < id.len() ==> 'a' <= #[trigger] id[i] <= 'z' || '0' <= id[i] <= '9' || id[i]
                == '-' || id[i] == '_',
{
    reveal_strlit("..");
    if holds(id, ".."@) {
        let k = choose|k: int| #[trigger] stands_at(id, ".."@, k);
        assert(id.subrange(k, k + 2)[0] == id[k]);
        assert(id[k] == '.');
        assert(!service_id_char(id[k]));
    }
    if forall|i: int|
        0 <= i < id.len() ==> 'a' <= #[trigger] id[i] <= 'z' || '0' <= id[i] <= '9' || id[i] == '-'
            || id[i] == '_' {
        assert forall|i: int| 0 <= i < id.len() implies service_id_char(#[trigger] id[i]) by {}
    }
    if forall|i: int| 0 <= i < id.len() ==> service_id_char(#[trigger] id[i]) {
        assert forall|i: int| 0 <= i < id.len() implies 'a' <= #[trigger] id[i] <= 'z' || '0'
            <= id[i] <= '9' || id[i] == '-' || id[i] == '_' by {
            assert(service_id_char(id[i]));
        }
    }
}

/// A new service is what was asked for, and has nothing yet; it is named after its id
/// where no name is given.
pub proof fn law_added_services(options: DriftServiceAddOptionsView)
    ensures
        ({
            let s = new_service(options);
            &&& s.id == options.id
            &&& s.kind == options.kind
            &&& s.environment == options.environment
            &&& s.status == options.status
            &&& s.root == options.root
            &&& options.name is None ==> s.name == options.id
            &&& options.name is Some && trimmed(options.name->0).len() > 0 ==> s.name
                == options.name->0
            &&& s.ports.len() == 0 && s.domains.len() == 0 && s.containers.len() == 0
                && s.volumes.len() == 0 && s.compose_projects.len() == 0
            &&& options.root is Some ==> s.data_paths == seq![options.root->0]
            &&& s.deployment is Some
        }),
{
}

/// A service is added exactly where its id is valid and not taken, its kind, environment
/// and status are not blank, its root is absolute, a reason is given, and its texts fit on
/// a line; it is written where it is to be executed.
pub proof fn law_when_a_service_can_be_added(options: DriftServiceAddOptionsView, root_exists: bool)
    ensures
        ({
            let plan = service_add_plan(options, root_exists);
            let services = options.registry.services.services;
            &&& plan.report.ok <==> service_can_be_added(options)
            &&& plan.report.ok ==> forall|k: int|
                0 <= k < services.len() ==> (#[trigger] services[k]).id != options.id
            &&& plan.write <==> plan.report.ok && options.execute
            &&& plan.report.ok <==> plan.report.limitations.len() == 0
            &&& plan.report.status == "added"@ <==> plan.write
            &&& plan.report.status == "blocked"@ <==> !plan.report.ok
            &&& plan.report.warnings.len() > 0 <==> options.root is Some && !root_exists
        }),
{
    let services = options.registry.services.services;
    let p = |s: ServiceView| s.id == options.id;
    lemma_any(services, p);
    lemma_service_can_be_added(options);
    if service_can_be_added(options) {
        assert forall|k: int| 0 <= k < services.len() implies (#[trigger] services[k]).id
            != options.id by {
            assert(!p(services[k]));
        }
    }
    reveal_strlit("added");
    reveal_strlit("blocked");
    reveal_strlit("dry_run");
    assert("added"@[0] == 'a' && "blocked"@[0] == 'b' && "dry_run"@[0] == 'd');
}

/// Whether a service can be added: its id is valid and new, its other texts fit on a line,
/// and what must be given is.
pub open spec fn service_can_be_added(options: DriftServiceAddOptionsView) -> bool {
    &&& valid_service_id(options.id)
    &&& !service_known(options.registry.services.services, options.id)
    &&& trimmed(options.kind).len() > 0
    &&& trimmed(options.environment).len() > 0
    &&& trimmed(options.status).len() > 0
    &&& options.root is Some ==> is_absolute_spec(options.root->0)
    &&& options.execute ==> options.reason is Some && options.reason->0.len() > 0
    &&& fits_on_a_line(options.name) && fits_on_a_line(Some(options.kind)) && fits_on_a_line(
        Some(options.environment),
    ) && fits_on_a_line(options.deploy_method) && fits_on_a_line(options.owner) && fits_on_a_line(
        Some(options.status),
    ) && fits_on_a_line(options.backup_policy) && fits_on_a_line(options.reason) && fits_on_a_line(
        options.notes,
    )
}

proof fn lemma_option_fits(label: Seq<char>, value: Option<Seq<char>>)
    ensures
        option_remark(label, value).len() == 0 <==> fits_on_a_line(value),
{
}

#[verifier::spinoff_prover]
#[verifier::rlimit(60)]
proof fn lemma_service_can_be_added(options: DriftServiceAddOptionsView)
    ensures
        service_add_limitations(options).len() == 0 <==> service_can_be_added(options),
{
    reveal(service_add_limitations);
    lemma_option_fits("name"@, options.name);
    lemma_option_fits("kind"@, Some(options.kind));
    lemma_option_fits("environment"@, Some(options.environment));
    lemma_option_fits("deploy_method"@, options.deploy_method);
    lemma_option_fits("owner"@, options.owner);
    lemma_option_fits("status"@, Some(options.status));
    lemma_option_fits("backup_policy"@, options.backup_policy);
    lemma_option_fits("reason"@, options.reason);
    lemma_option_fits("notes"@, options.notes);
}

/// An adoption is accepted exactly where it can be made, of a registered service, and of
/// one thing that was found: of the kind that was asked for, or, where none was, the only
/// one; a port must still be observed.
pub proof fn law_when_an_adoption_is_accepted(
    options: DriftAdoptOptionsView,
    scan: ScanReportView,
    stamp: i64,
)
    ensures
        ({
            let plan = adopt_plan(options, scan, stamp);
            let services = options.registry.services.services;
            let kinds = adoptable_kinds(options, scan.findings);
            plan.report.ok <==> adoption_can_be_made(options) && (exists|s: int|
                0 <= s < services.len() && (#[trigger] services[s]).id == options.service_id)
                && kinds.len() > 0 && (options.kind == "auto"@ ==> kinds.len() == 1) && (kinds[0]
                == "port"@ ==> port_at(scan.detected.ports, options.target) is Some) && (kinds[0]
                == "port"@ || kinds[0] == "caddy-domain"@ || kinds[0] == "docker-volume"@
                || kinds[0] == "docker-container"@ || kinds[0] == "compose-project"@ || kinds[0]
                == "systemd-unit"@)
        }),
{
    let services = options.registry.services.services;
    let kinds = adoptable_kinds(options, scan.findings);
    lemma_adoption_can_be_made(options);
    lemma_finding_codes();
    let p = |s: ServiceView| s.id == options.service_id;
    law_first_where(services, p);
    if service_with_id(services, options.service_id) is Some {
        let s = choose|s: int|
            0 <= s < services.len() && #[trigger] services[s] == first_where(services, p)->0 && p(
                services[s],
            ) && forall|j: int| 0 <= j < s ==> !p(#[trigger] services[j]);
        assert(services[s].id == options.service_id);
    } else {
        assert forall|s: int| 0 <= s < services.len() implies (#[trigger] services[s]).id
            != options.service_id by {
            assert(!p(services[s]));
        }
    }
    if kinds.len() > 0 {
        assert(kinds.contains(kinds[0]));
        lemma_adoptable(options, scan.findings, kinds[0]);
        let i = choose|i: int|
            0 <= i < scan.findings.len() && finding_can_be_adopted(
                options,
                #[trigger] scan.findings[i],
                kinds[0],
            );
        assert(finding_adopt_kind_spec(scan.findings[i].code) == Some(kinds[0]));
    }
}

/// What writing an adoption or a service comes to: it is as good as it was planned exactly
/// where nothing failed, and tells what was changed and rolled back.
pub proof fn law_what_writing_comes_to(
    adopted: DriftAdoptReportView,
    added: DriftServiceAddReportView,
    outcome: ApplyOutcomeView,
)
    ensures
        ({
            let r = written_adopt(adopted, outcome);
            &&& r.ok <==> adopted.ok && outcome.error is None
            &&& outcome.error is Some ==> r.status == "failed"@ && r.limitations
                == adopted.limitations.push(outcome.error->0)
            &&& outcome.error is None ==> r.status == adopted.status && r.limitations
                == adopted.limitations
            &&& r.changed_files == outcome.changed_files
            &&& r.rollback_performed == outcome.rollback_performed
            &&& r.rollback_errors == outcome.rollback_errors
            &&& r.target == adopted.target && r.kind == adopted.kind
        }),
        ({
            let r = written_service_add(added, outcome);
            &&& r.ok <==> added.ok && outcome.error is None
            &&& outcome.error is Some ==> r.status == "failed"@ && r.limitations
                == added.limitations.push(outcome.error->0)
            &&& outcome.error is None ==> r.status == added.status && r.limitations
                == added.limitations
            &&& r.changed_files == outcome.changed_files
            &&& r.rollback_performed == outcome.rollback_performed
            &&& r.rollback_errors == outcome.rollback_errors
        }),
{
}

/// Whether something is registered under this target, for the service asked for if any: in
/// one of a service's lists or units, or as a port, host or volume.
pub open spec fn is_registered(
    registry: RegistryView,
    target: Seq<char>,
    expected: Option<Seq<char>>,
) -> bool {
    let services = registry.services.services;
    let ports = registry.ports.ports;
    let domains = registry.domains.domains;
    let volumes = registry.volumes.volumes;
    ||| exists|s: int|
        0 <= s < services.len() && lists_target(#[trigger] services[s], target) && (expected is None
            || expected->0 == services[s].id)
    ||| exists|p: int|
        0 <= p < ports.len() && endpoint_spec((#[trigger] ports[p]).bind, ports[p].port) == target
            && (expected is None || expected->0 == ports[p].service_id)
    ||| exists|d: int|
        0 <= d < domains.len() && (#[trigger] domains[d]).host == target && (expected is None
            || expected->0 == domains[d].service_id)
    ||| exists|v: int|
        0 <= v < volumes.len() && (#[trigger] volumes[v]).name == target && (expected is None
            || expected->0 == volumes[v].service_id)
}

/// Whether a service lists a target: as a container, project, host, volume or unit.
pub open spec fn lists_target(service: ServiceView, target: Seq<char>) -> bool {
    ||| service.containers.contains(target)
    ||| service.compose_projects.contains(target)
    ||| service.domains.contains(target)
    ||| service.volumes.contains(target)
    ||| service.deployment is Some && exists|u: int|
        0 <= u < service.deployment->0.systemd.len() && (
        #[trigger] service.deployment->0.systemd[u]).unit == target
}

proof fn lemma_list_places(
    service_id: Seq<char>,
    label: Seq<char>,
    values: Seq<Seq<char>>,
    target: Seq<char>,
)
    ensures
        list_places(service_id, label, values, target).len() > 0 <==> values.contains(target),
    decreases values.len(),
{
    if values.len() > 0 {
        lemma_list_places(service_id, label, values.drop_last(), target);
        law_one_more(values.drop_last(), values.last(), target);
        assert(values.drop_last().push(values.last()) =~= values);
    }
}

proof fn lemma_service_places(
    service: ServiceView,
    target: Seq<char>,
    expected: Option<Seq<char>>,
)
    ensures
        service_places(service, target, expected).len() > 0 <==> lists_target(service, target) && (
        expected is None || expected->0 == service.id),
{
    lemma_list_places(service.id, "container"@, service.containers, target);
    lemma_list_places(service.id, "compose_project"@, service.compose_projects, target);
    lemma_list_places(service.id, "domain"@, service.domains, target);
    lemma_list_places(service.id, "volume_ref"@, service.volumes, target);
    if service.deployment is Some {
        let systemd = service.deployment->0.systemd;
        let units = systemd.map_values(|s: ServiceSystemdContractView| s.unit);
        lemma_list_places(service.id, "systemd"@, units, target);
        if units.contains(target) {
            let u = choose|u: int| 0 <= u < units.len() && units[u] == target;
            assert(systemd[u].unit == target);
        }
        if exists|u: int| 0 <= u < systemd.len() && (#[trigger] systemd[u]).unit == target {
            let u = choose|u: int| 0 <= u < systemd.len() && (#[trigger] systemd[u]).unit == target;
            assert(units[u] == target);
        }
    }
}

proof fn lemma_chosen_none<A, B>(s: Seq<A>, f: spec_fn(A) -> Option<B>)
    ensures
        chosen(s, f).len() > 0 <==> exists|i: int| 0 <= i < s.len() && f(#[trigger] s[i]) is Some,
{
    if chosen(s, f).len() > 0 {
        law_chosen(s, f, chosen(s, f)[0]);
        assert(chosen(s, f).contains(chosen(s, f)[0]));
    }
    if exists|i: int| 0 <= i < s.len() && f(#[trigger] s[i]) is Some {
        let i = choose|i: int| 0 <= i < s.len() && f(#[trigger] s[i]) is Some;
        law_chosen(s, f, f(s[i])->0);
        assert(chosen(s, f).contains(f(s[i])->0));
    }
}

/// A record of what was adopted is found exactly where something is registered under the
/// target, for the service asked for.
#[verifier::spinoff_prover]
#[verifier::rlimit(60)]
pub proof fn law_which_records_are_found(
    registry: RegistryView,
    target: Seq<char>,
    expected: Option<Seq<char>>,
)
    ensures
        adopted_places(registry, target, expected).len() > 0 <==> is_registered(
            registry,
            target,
            expected,
        ),
{
    let services = registry.services.services;
    let ports = registry.ports.ports;
    let domains = registry.domains.domains;
    let volumes = registry.volumes.volumes;
    let fs = |s: ServiceView| service_places(s, target, expected);
    let fp = |p: PortRecordView|
        if endpoint_spec(p.bind, p.port) == target && service_fits(expected, p.service_id) {
            Some("ports.yml:"@ + p.service_id + ":"@ + p.id)
        } else {
            None
        };
    let fd = |d: DomainRecordView|
        if d.host == target && service_fits(expected, d.service_id) {
            Some("domains.yml:"@ + d.service_id + ":"@ + d.id)
        } else {
            None
        };
    let fv = |v: VolumeRecordView|
        if v.name == target && service_fits(expected, v.service_id) {
            Some("volumes.yml:"@ + v.service_id + ":"@ + v.id)
        } else {
            None
        };
    let a = gathered(services, fs);
    let b = chosen(ports, fp);
    let c = chosen(domains, fd);
    let d = chosen(volumes, fv);
    let all = a + b + c + d;
    assert(equal(adopted_places(registry, target, expected), sorted_set(all)));
    law_sorted_set(all);
    if all.len() > 0 {
        assert(all.contains(all[0]));
        assert(sorted_set(all).contains(all[0]));
    }
    lemma_chosen_none(ports, fp);
    lemma_chosen_none(domains, fd);
    lemma_chosen_none(volumes, fv);
    assert(b.len() > 0 <==> exists|p: int|
        0 <= p < ports.len() && endpoint_spec((#[trigger] ports[p]).bind, ports[p].port) == target
            && (expected is None || expected->0 == ports[p].service_id)) by {
        if b.len() > 0 {
            let p = choose|p: int| 0 <= p < ports.len() && fp(#[trigger] ports[p]) is Some;
            assert(endpoint_spec(ports[p].bind, ports[p].port) == target);
        }
        if exists|p: int|
            0 <= p < ports.len() && endpoint_spec((#[trigger] ports[p]).bind, ports[p].port)
                == target && (expected is None || expected->0 == ports[p].service_id) {
            let p = choose|p: int|
                0 <= p < ports.len() && endpoint_spec((#[trigger] ports[p]).bind, ports[p].port)
                    == target && (expected is None || expected->0 == ports[p].service_id);
            assert(fp(ports[p]) is Some);
        }
    }
    assert(c.len() > 0 <==> exists|d: int|
        0 <= d < domains.len() && (#[trigger] domains[d]).host == target && (expected is None
            || expected->0 == domains[d].service_id)) by {
        if exists|d: int|
            0 <= d < domains.len() && (#[trigger] domains[d]).host == target && (expected is None
                || expected->0 == domains[d].service_id) {
            let d = choose|d: int|
                0 <= d < domains.len() && (#[trigger] domains[d]).host == target && (expected
                    is None || expected->0 == domains[d].service_id);
            assert(fd(domains[d]) is Some);
        }
    }
    assert(d.len() > 0 <==> exists|v: int|
        0 <= v < volumes.len() && (#[trigger] volumes[v]).name == target && (expected is None
            || expected->0 == volumes[v].service_id)) by {
        if exists|v: int|
            0 <= v < volumes.len() && (#[trigger] volumes[v]).name == target && (expected is None
                || expected->0 == volumes[v].service_id) {
            let v = choose|v: int|
                0 <= v < volumes.len() && (#[trigger] volumes[v]).name == target && (expected
                    is None || expected->0 == volumes[v].service_id);
            assert(fv(volumes[v]) is Some);
        }
    }
    assert(a.len() > 0 <==> exists|s: int|
        0 <= s < services.len() && lists_target(#[trigger] services[s], target) && (expected is None
            || expected->0 == services[s].id)) by {
        if a.len() > 0 {
            law_gathered(services, fs, a[0]);
            assert(a.contains(a[0]));
            let s = choose|s: int|
                0 <= s < services.len() && fs(#[trigger] services[s]).contains(a[0]);
            lemma_service_places(services[s], target, expected);
            assert(lists_target(services[s], target));
        }
        if exists|s: int|
            0 <= s < services.len() && lists_target(#[trigger] services[s], target) && (expected
                is None || expected->0 == services[s].id) {
            let s = choose|s: int|
                0 <= s < services.len() && lists_target(#[trigger] services[s], target) && (expected
                    is None || expected->0 == services[s].id);
            lemma_service_places(services[s], target, expected);
            let x = fs(services[s])[0];
            assert(fs(services[s]).contains(x));
            law_gathered(services, fs, x);
            assert(a.contains(x));
        }
    }
}

/// A review of an adoption is recorded exactly where its texts fit on a line, its status is
/// known, a reason is given if it is to be executed, and something is registered under its
/// target.
pub proof fn law_which_reviews_are_recorded(options: DriftAdoptReviewOptionsView)
    ensures
        ({
            let r = adopt_review(options);
            let fine = fits_on_a_line(Some(options.target)) && fits_on_a_line(options.service_id)
                && fits_on_a_line(options.reason) && (options.status == "reviewed"@
                || options.status == "rejected"@ || options.status == "needs_review"@) && (
            options.execute ==> options.reason is Some && options.reason->0.len() > 0)
                && is_registered(options.registry, options.target, options.service_id);
            &&& r.ok <==> fine
            &&& r.status == "blocked"@ <==> !fine
            &&& r.status == "recorded"@ <==> fine && options.execute
            &&& r.status == "dry_run"@ <==> fine && !options.execute
            &&& r.review_status == options.status && r.target == options.target
            &&& r.warnings.len() > 0 <==> options.status == "rejected"@
            &&& !r.journal_written
        }),
{
    law_which_records_are_found(options.registry, options.target, options.service_id);
    reveal_strlit("blocked");
    reveal_strlit("recorded");
    reveal_strlit("dry_run");
    assert("blocked"@[0] == 'b' && "recorded"@[0] == 'r' && "dry_run"@[0] == 'd');
    assert(option_remark("target"@, Some(options.target)).len() == 0 <==> fits_on_a_line(
        Some(options.target),
    ));
    assert(option_remark("service_id"@, options.service_id).len() == 0 <==> fits_on_a_line(
        options.service_id,
    ));
    assert(option_remark("reason"@, options.reason).len() == 0 <==> fits_on_a_line(options.reason));
}

} // verus!
