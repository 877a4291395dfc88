//! Checking that a registry is consistent.

use vstd::prelude::*;
use crate::each::{any_where, choose_each, count_where, find_first, gather_each, map_each};
use crate::edits::{has_service, service_known};
use crate::list::{
    any, chosen, first_where, gathered, includes, last_where, law_chosen, law_either_list,
    law_first_where, law_gathered, law_last_where, law_tally, lemma_any, put, tally,
};
use crate::number::{decimal, decimal_text};
use crate::outside::{parse_rfc3339, rfc3339_nanos};
use crate::paths::{is_absolute, is_absolute_spec};
use crate::registry::{
    DomainRecord, DomainRecordView, PortRecord, PortRecordView, PublicDataPortException,
    PublicDataPortExceptionView, Registry, RegistryView, Service, ServiceBuildContract,
    ServiceBuildContractView, ServiceDeploymentContractView, ServiceStaticSiteContract,
    ServiceStaticSiteContractView, ServiceSystemdContract, ServiceSystemdContractView, ServiceView,
    SnapshotRecord, SnapshotRecordView, VolumeRecord, VolumeRecordView,
};
use crate::text::{
    alnum, as_text, byte_len, byte_size, cat2, cat3, cat6, chars_of, contains, contains_char, ends,
    ends_with, finishes, holds, is_alnum, is_text, is_white, lemma_trimmed, lowered, or_text, same,
    step, text_or, to_lower, trim, trimmed, white_space,
};

verus! {

broadcast use {vstd::seq::group_seq_axioms, vstd::string::group_string_axioms};

/// How bad a finding is.
#[derive(Debug, Clone, Copy, PartialEq, Eq, Structural)]
pub enum Severity {
    Warn,
    Error,
}

/// Something that is wrong with a registry.
#[derive(Debug)]
pub struct Finding {
    pub severity: Severity,
    pub code: String,
    pub message: String,
    pub target: Option<String>,
}

/// View of [`Finding`].
#[verifier::ext_equal]
pub struct FindingView {
    pub severity: Severity,
    pub code: Seq<char>,
    pub message: Seq<char>,
    pub target: Option<Seq<char>>,
}

impl DeepView for Finding {
    type V = FindingView;

    open spec fn deep_view(&self) -> FindingView {
        FindingView {
            severity: self.severity,
            code: self.code.deep_view(),
            message: self.message.deep_view(),
            target: self.target.deep_view(),
        }
    }
}

/// Everything that is wrong with a registry.
#[derive(Debug)]
pub struct DoctorReport {
    pub ok: bool,
    pub errors: usize,
    pub warnings: usize,
    pub findings: Vec<Finding>,
}

/// View of [`DoctorReport`].
#[verifier::ext_equal]
pub struct DoctorReportView {
    pub ok: bool,
    pub errors: nat,
    pub warnings: nat,
    pub findings: Seq<FindingView>,
}

impl DeepView for DoctorReport {
    type V = DoctorReportView;

    open spec fn deep_view(&self) -> DoctorReportView {
        DoctorReportView {
            ok: self.ok,
            errors: self.errors as nat,
            warnings: self.warnings as nat,
            findings: self.findings.deep_view(),
        }
    }
}

/// A finding about a target.
pub open spec fn finding(
    severity: Severity,
    code: Seq<char>,
    message: Seq<char>,
    target: Seq<char>,
) -> FindingView {
    FindingView { severity, code, message, target: Some(target) }
}

/// A list with a finding in it, or an empty one.
pub open spec fn found(b: bool, f: FindingView) -> Seq<FindingView> {
    if b {
        seq![f]
    } else {
        Seq::empty()
    }
}

/// Adds a finding where there is one.
pub fn report_finding(
    findings: &mut Vec<Finding>,
    b: bool,
    severity: Severity,
    code: &str,
    message: &str,
    target: &str,
)
    ensures
        final(findings).deep_view() == old(findings).deep_view() + found(
            b,
            finding(severity, code@, message@, target@),
        ),
{
    let ghost before = findings.deep_view();
    if b {
        findings.push(
            Finding {
                severity,
                code: code.to_string(),
                message: message.to_string(),
                target: Some(target.to_string()),
            },
        );
    }
    proof {
        assert(findings.deep_view() =~= before + found(
            b,
            finding(severity, code@, message@, target@),
        ));
    }
}

/// Adds findings.
pub fn add_findings(findings: &mut Vec<Finding>, more: Vec<Finding>)
    ensures
        final(findings).deep_view() == old(findings).deep_view() + more.deep_view(),
{
    let ghost before = findings.deep_view();
    let ghost added = more.deep_view();
    let mut more = more;
    findings.append(&mut more);
    proof {
        assert(findings.deep_view() =~= before + added);
    }
}

// ---------------------------------------------------------------------------
// Unique names
// ---------------------------------------------------------------------------

/// A finding for each value that occurred before.
pub open spec fn duplicates(
    values: Seq<Seq<char>>,
    code: Seq<char>,
    message: Seq<char>,
) -> Seq<FindingView>
    decreases values.len(),
{
    if values.len() == 0 {
        Seq::empty()
    } else {
        let v = values.last();
        duplicates(values.drop_last(), code, message) + found(
            values.drop_last().contains(v),
            finding(Severity::Error, code, message + ": "@ + v, v),
        )
    }
}

/// A finding for each value that occurred before.
pub fn check_duplicates(values: &Vec<String>, code: &str, message: &str) -> (r: Vec<Finding>)
    ensures
        r.deep_view() == duplicates(values.deep_view(), code@, message@),
{
    let ghost all = values.deep_view();
    let mut seen: Vec<String> = Vec::new();
    let mut findings: Vec<Finding> = Vec::new();
    let mut i: usize = 0;
    proof {
        ends(all);
        assert(seen.deep_view() =~= Seq::<Seq<char>>::empty());
        assert(findings.deep_view() =~= Seq::<FindingView>::empty());
    }
    while i < values.len()
        invariant
            i <= values@.len(),
            all == values.deep_view(),
            seen.deep_view() == all.take(i as int),
            findings.deep_view() == duplicates(all.take(i as int), code@, message@),
        decreases values@.len() - i,
    {
        let v = &values[i];
        proof {
            step(all, i as int);
        }
        let again = includes(&seen, v);
        report_finding(
            &mut findings,
            again,
            Severity::Error,
            code,
            &cat3(message, ": ", v),
            v,
        );
        put(&mut seen, v);
        i = i + 1;
    }
    proof {
        ends(all);
    }
    findings
}

/// Whether two ports listen in the same place.
pub open spec fn same_binding(a: PortRecordView, b: PortRecordView) -> bool {
    a.protocol == b.protocol && a.bind == b.bind && a.port == b.port
}

/// A finding for each port that listens where an earlier one does.
pub open spec fn binding_clashes(ports: Seq<PortRecordView>) -> Seq<FindingView>
    decreases ports.len(),
{
    if ports.len() == 0 {
        Seq::empty()
    } else {
        let p = ports.last();
        binding_clashes(ports.drop_last()) + match last_where(
            ports.drop_last(),
            |e: PortRecordView| same_binding(e, p),
        ) {
            Some(existing) => found(
                true,
                finding(
                    Severity::Error,
                    "duplicate_port_binding"@,
                    "port binding "@ + p.bind + ":"@ + decimal(p.port as nat) + " duplicates "@
                        + existing.id,
                    p.id,
                ),
            ),
            None => Seq::empty(),
        }
    }
}

/// The last of the first `limit` ports that listens in the same place.
fn earlier_binding<'a>(ports: &'a Vec<PortRecord>, limit: usize, port: &PortRecord) -> (r: Option<
    &'a PortRecord,
>)
    requires
        limit <= ports@.len(),
    ensures
        r.deep_view() == last_where(
            ports.deep_view().take(limit as int),
            |e: PortRecordView| same_binding(e, port.deep_view()),
        ),
{
    let ghost all = ports.deep_view();
    let ghost p = |e: PortRecordView| same_binding(e, port.deep_view());
    let mut hit: Option<&'a PortRecord> = None;
    let mut i: usize = 0;
    proof {
        ends(all);
    }
    while i < limit
        invariant
            i <= limit <= ports@.len(),
            all == ports.deep_view(),
            p == (|e: PortRecordView| same_binding(e, port.deep_view())),
            hit.deep_view() == last_where(all.take(i as int), p),
        decreases limit - i,
    {
        let e = &ports[i];
        proof {
            step(all, i as int);
            assert(all[i as int] == e.deep_view());
        }
        if same(&e.protocol, &port.protocol) && same(&e.bind, &port.bind) && e.port == port.port {
            hit = Some(e);
        }
        i = i + 1;
    }
    hit
}

/// A finding for each port that listens where an earlier one does.
pub fn check_bindings(ports: &Vec<PortRecord>) -> (r: Vec<Finding>)
    ensures
        r.deep_view() == binding_clashes(ports.deep_view()),
{
    let ghost all = ports.deep_view();
    let mut findings: Vec<Finding> = Vec::new();
    let mut i: usize = 0;
    proof {
        ends(all);
        assert(findings.deep_view() =~= Seq::<FindingView>::empty());
    }
    while i < ports.len()
        invariant
            i <= ports@.len(),
            all == ports.deep_view(),
            findings.deep_view() == binding_clashes(all.take(i as int)),
        decreases ports@.len() - i,
    {
        let port = &ports[i];
        let ghost before = findings.deep_view();
        proof {
            step(all, i as int);
            assert(all[i as int] == port.deep_view());
            assert(before + Seq::<FindingView>::empty() =~= before);
        }
        if let Some(existing) = earlier_binding(ports, i, port) {
            report_finding(
                &mut findings,
                true,
                Severity::Error,
                "duplicate_port_binding",
                &cat6(
                    "port binding ",
                    &port.bind,
                    ":",
                    &decimal_text(port.port as u64),
                    " duplicates ",
                    &existing.id,
                ),
                &port.id,
            );
        }
        i = i + 1;
    }
    proof {
        ends(all);
    }
    findings
}

/// A finding for each id, host, name or binding that occurs twice.
pub open spec fn uniqueness_findings(registry: RegistryView) -> Seq<FindingView> {
    duplicates(
        registry.services.services.map_values(|s: ServiceView| s.id),
        "duplicate_service_id"@,
        "duplicate service id"@,
    ) + duplicates(
        registry.ports.ports.map_values(|p: PortRecordView| p.id),
        "duplicate_port_id"@,
        "duplicate port id"@,
    ) + binding_clashes(registry.ports.ports) + duplicates(
        registry.domains.domains.map_values(|d: DomainRecordView| d.id),
        "duplicate_domain_id"@,
        "duplicate domain id"@,
    ) + duplicates(
        registry.domains.domains.map_values(|d: DomainRecordView| d.host),
        "duplicate_domain_host"@,
        "duplicate domain host"@,
    ) + duplicates(
        registry.volumes.volumes.map_values(|v: VolumeRecordView| v.id),
        "duplicate_volume_id"@,
        "duplicate volume id"@,
    ) + duplicates(
        registry.volumes.volumes.map_values(|v: VolumeRecordView| v.name),
        "duplicate_volume_name"@,
        "duplicate volume name"@,
    )
}

/// A finding for each id, host, name or binding that occurs twice.
pub fn check_uniqueness(registry: &Registry) -> (r: Vec<Finding>)
    ensures
        r.deep_view() == uniqueness_findings(registry.deep_view()),
{
    let services = map_each(
        &registry.services.services,
        |s: &Service| -> (t: String)
            ensures
                t.deep_view() == s.deep_view().id
            { s.id.clone() },
        Ghost(|s: ServiceView| s.id),
    );
    let ports = map_each(
        &registry.ports.ports,
        |p: &PortRecord| -> (t: String)
            ensures
                t.deep_view() == p.deep_view().id
            { p.id.clone() },
        Ghost(|p: PortRecordView| p.id),
    );
    let domains = map_each(
        &registry.domains.domains,
        |d: &DomainRecord| -> (t: String)
            ensures
                t.deep_view() == d.deep_view().id
            { d.id.clone() },
        Ghost(|d: DomainRecordView| d.id),
    );
    let hosts = map_each(
        &registry.domains.domains,
        |d: &DomainRecord| -> (t: String)
            ensures
                t.deep_view() == d.deep_view().host
            { d.host.clone() },
        Ghost(|d: DomainRecordView| d.host),
    );
    let volumes = map_each(
        &registry.volumes.volumes,
        |v: &VolumeRecord| -> (t: String)
            ensures
                t.deep_view() == v.deep_view().id
            { v.id.clone() },
        Ghost(|v: VolumeRecordView| v.id),
    );
    let names = map_each(
        &registry.volumes.volumes,
        |v: &VolumeRecord| -> (t: String)
            ensures
                t.deep_view() == v.deep_view().name
            { v.name.clone() },
        Ghost(|v: VolumeRecordView| v.name),
    );
    let mut findings = check_duplicates(&services, "duplicate_service_id", "duplicate service id");
    add_findings(&mut findings, check_duplicates(&ports, "duplicate_port_id", "duplicate port id"));
    add_findings(&mut findings, check_bindings(&registry.ports.ports));
    add_findings(
        &mut findings,
        check_duplicates(&domains, "duplicate_domain_id", "duplicate domain id"),
    );
    add_findings(
        &mut findings,
        check_duplicates(&hosts, "duplicate_domain_host", "duplicate domain host"),
    );
    add_findings(
        &mut findings,
        check_duplicates(&volumes, "duplicate_volume_id", "duplicate volume id"),
    );
    add_findings(
        &mut findings,
        check_duplicates(&names, "duplicate_volume_name", "duplicate volume name"),
    );
    findings
}

// ---------------------------------------------------------------------------
// References
// ---------------------------------------------------------------------------

/// A record that names a service which is not there.
pub open spec fn missing_service_spec(
    services: Seq<ServiceView>,
    code: Seq<char>,
    service_id: Seq<char>,
    target: Seq<char>,
) -> Option<FindingView> {
    if service_known(services, service_id) {
        None
    } else {
        Some(
            finding(
                Severity::Error,
                code,
                "referenced service id is not registered: "@ + service_id,
                target,
            ),
        )
    }
}

/// A record that names a service which is not there.
pub fn missing_service(services: &Vec<Service>, code: &str, service_id: &str, target: &str) -> (r:
    Option<Finding>)
    ensures
        r.deep_view() == missing_service_spec(
            services.deep_view(),
            code@,
            service_id@,
            target@,
        ),
{
    if has_service(services, service_id) {
        None
    } else {
        Some(
            Finding {
                severity: Severity::Error,
                code: code.to_string(),
                message: cat2("referenced service id is not registered: ", service_id),
                target: Some(target.to_string()),
            },
        )
    }
}

/// A finding for each record that names a service which is not there.
pub open spec fn reference_findings(registry: RegistryView) -> Seq<FindingView> {
    chosen(
        registry.ports.ports,
        |p: PortRecordView|
            missing_service_spec(
                registry.services.services,
                "port_missing_service"@,
                p.service_id,
                p.id,
            ),
    ) + chosen(
        registry.domains.domains,
        |d: DomainRecordView|
            missing_service_spec(
                registry.services.services,
                "domain_missing_service"@,
                d.service_id,
                d.id,
            ),
    ) + chosen(
        registry.volumes.volumes,
        |v: VolumeRecordView|
            missing_service_spec(
                registry.services.services,
                "volume_missing_service"@,
                v.service_id,
                v.id,
            ),
    )
}

/// A finding for each record that names a service which is not there.
pub fn check_service_references(registry: &Registry) -> (r: Vec<Finding>)
    ensures
        r.deep_view() == reference_findings(registry.deep_view()),
{
    let services = &registry.services.services;
    let mut findings = choose_each(
        &registry.ports.ports,
        |p: &PortRecord| -> (f: Option<Finding>)
            ensures
                f.deep_view() == missing_service_spec(
                    services.deep_view(),
                    "port_missing_service"@,
                    p.deep_view().service_id,
                    p.deep_view().id,
                )
            { missing_service(services, "port_missing_service", &p.service_id, &p.id) },
        Ghost(
            |p: PortRecordView|
                missing_service_spec(
                    services.deep_view(),
                    "port_missing_service"@,
                    p.service_id,
                    p.id,
                ),
        ),
    );
    let domains = choose_each(
        &registry.domains.domains,
        |d: &DomainRecord| -> (f: Option<Finding>)
            ensures
                f.deep_view() == missing_service_spec(
                    services.deep_view(),
                    "domain_missing_service"@,
                    d.deep_view().service_id,
                    d.deep_view().id,
                )
            { missing_service(services, "domain_missing_service", &d.service_id, &d.id) },
        Ghost(
            |d: DomainRecordView|
                missing_service_spec(
                    services.deep_view(),
                    "domain_missing_service"@,
                    d.service_id,
                    d.id,
                ),
        ),
    );
    let volumes = choose_each(
        &registry.volumes.volumes,
        |v: &VolumeRecord| -> (f: Option<Finding>)
            ensures
                f.deep_view() == missing_service_spec(
                    services.deep_view(),
                    "volume_missing_service"@,
                    v.deep_view().service_id,
                    v.deep_view().id,
                )
            { missing_service(services, "volume_missing_service", &v.service_id, &v.id) },
        Ghost(
            |v: VolumeRecordView|
                missing_service_spec(
                    services.deep_view(),
                    "volume_missing_service"@,
                    v.service_id,
                    v.id,
                ),
        ),
    );
    add_findings(&mut findings, domains);
    add_findings(&mut findings, volumes);
    findings
}

// ---------------------------------------------------------------------------
// Deployment contracts
// ---------------------------------------------------------------------------

/// Whether every character of a text is an ASCII letter or digit, or one of
/// these.
pub open spec fn made_of(s: Seq<char>, others: Seq<char>) -> bool {
    forall|i: int|
        0 <= i < s.len() ==> is_alnum(#[trigger] s[i]) || others.contains(s[i])
}

/// Whether every character of a text is an ASCII letter or digit, or one of
/// these.
pub fn is_made_of(s: &str, others: &str) -> (r: bool)
    ensures
        r == made_of(s@, others@),
{
    let a = chars_of(s);
    let mut i: usize = 0;
    while i < a.len()
        invariant
            i <= a@.len(),
            a@ == s@,
            forall|j: int| 0 <= j < i ==> is_alnum(#[trigger] s@[j]) || others@.contains(s@[j]),
        decreases a@.len() - i,
    {
        let c = a[i];
        if !alnum(c) && !contains_char(others, c) {
            proof {
                assert(!is_alnum(s@[i as int]) && !others@.contains(s@[i as int]));
            }
            return false;
        }
        i = i + 1;
    }
    true
}

/// Whether a text can name a build script.
pub open spec fn script_is_safe(script: Seq<char>) -> bool {
    trimmed(script) == script && script.len() > 0 && byte_len(script) <= 64 && made_of(
        script,
        ":-_"@,
    )
}

/// Whether a text can name a build script.
pub fn safe_script_name(script: &str) -> (r: bool)
    ensures
        r == script_is_safe(script@),
{
    same(&trim(script), script) && !script.is_empty() && byte_size(script) <= 64 && is_made_of(
        script,
        ":-_",
    )
}

/// Whether a text can name a systemd unit.
pub open spec fn unit_is_safe(unit: Seq<char>) -> bool {
    unit.len() > 0 && byte_len(unit) <= 128 && finishes(unit, ".service"@) && made_of(
        unit,
        ".@-_"@,
    )
}

/// Whether a text can name a systemd unit.
pub fn safe_systemd_unit(unit: &str) -> (r: bool)
    ensures
        r == unit_is_safe(unit@),
{
    !unit.is_empty() && byte_size(unit) <= 128 && ends_with(unit, ".service") && is_made_of(
        unit,
        ".@-_",
    )
}

/// Whether a text can name a deployment.
pub open spec fn deployment_is_safe(id: Seq<char>) -> bool {
    id.len() > 0 && byte_len(id) <= 64 && made_of(id, "-_"@)
}

/// Whether a text can name a deployment.
pub fn safe_deployment_id(value: &str) -> (r: bool)
    ensures
        r == deployment_is_safe(value@),
{
    !value.is_empty() && byte_size(value) <= 64 && is_made_of(value, "-_")
}

/// What is wrong with a build step.
pub open spec fn build_findings(service: Seq<char>, build: ServiceBuildContractView) -> Seq<
    FindingView,
> {
    found(
        build.adapter != "npm"@ && build.adapter != "pnpm"@ && build.adapter != "bun"@,
        finding(
            Severity::Error,
            "deployment_contract_unsupported_build_adapter"@,
            "unsupported build adapter "@ + build.adapter,
            service,
        ),
    ) + gathered(
        build.scripts,
        |script: Seq<char>|
            found(
                !script_is_safe(script),
                finding(
                    Severity::Error,
                    "deployment_contract_unsafe_build_script"@,
                    "unsafe build script name "@ + script,
                    service,
                ),
            ),
    )
}

/// What is wrong with a build step.
pub fn check_build(service: &str, build: &ServiceBuildContract) -> (r: Vec<Finding>)
    ensures
        r.deep_view() == build_findings(service@, build.deep_view()),
{
    let mut findings: Vec<Finding> = Vec::new();
    proof {
        assert(findings.deep_view() =~= Seq::<FindingView>::empty());
    }
    let bad = !same(&build.adapter, "npm") && !same(&build.adapter, "pnpm") && !same(
        &build.adapter,
        "bun",
    );
    report_finding(
        &mut findings,
        bad,
        Severity::Error,
        "deployment_contract_unsupported_build_adapter",
        &cat2("unsupported build adapter ", &build.adapter),
        service,
    );
    let scripts = gather_each(
        &build.scripts,
        |script: &String| -> (r: Vec<Finding>)
            ensures
                r.deep_view() == found(
                    !script_is_safe(script@),
                    finding(
                        Severity::Error,
                        "deployment_contract_unsafe_build_script"@,
                        "unsafe build script name "@ + script@,
                        service@,
                    ),
                )
            {
                let mut one: Vec<Finding> = Vec::new();
                report_finding(
                    &mut one,
                    !safe_script_name(script),
                    Severity::Error,
                    "deployment_contract_unsafe_build_script",
                    &cat2("unsafe build script name ", script),
                    service,
                );
                proof {
                    assert(one.deep_view() =~= found(
                        !script_is_safe(script@),
                        finding(
                            Severity::Error,
                            "deployment_contract_unsafe_build_script"@,
                            "unsafe build script name "@ + script@,
                            service@,
                        ),
                    ));
                }
                one
            },
        Ghost(
            |script: Seq<char>|
                found(
                    !script_is_safe(script),
                    finding(
                        Severity::Error,
                        "deployment_contract_unsafe_build_script"@,
                        "unsafe build script name "@ + script,
                        service@,
                    ),
                ),
        ),
    );
    add_findings(&mut findings, scripts);
    proof {
        assert(findings.deep_view() =~= build_findings(service@, build.deep_view()));
    }
    findings
}

/// What is wrong with a migration command.
pub open spec fn migration_finding(service: Seq<char>, command: Seq<char>) -> Option<FindingView> {
    if trimmed(command).len() == 0 || byte_len(command) > 256 {
        Some(
            finding(
                Severity::Error,
                "deployment_contract_unsafe_migration"@,
                "migration command must be non-empty and <= 256 bytes"@,
                service,
            ),
        )
    } else {
        None
    }
}

/// What is wrong with a migration command.
pub fn check_migration(service: &str, command: &str) -> (r: Option<Finding>)
    ensures
        r.deep_view() == migration_finding(service@, command@),
{
    if trim(command).as_str().is_empty() || byte_size(command) > 256 {
        Some(
            Finding {
                severity: Severity::Error,
                code: "deployment_contract_unsafe_migration".to_string(),
                message: "migration command must be non-empty and <= 256 bytes".to_string(),
                target: Some(service.to_string()),
            },
        )
    } else {
        None
    }
}

/// What is wrong with a systemd unit.
pub open spec fn unit_findings(service: Seq<char>, unit: ServiceSystemdContractView) -> Seq<
    FindingView,
> {
    found(
        !unit_is_safe(unit.unit),
        finding(
            Severity::Error,
            "deployment_contract_unsafe_systemd_unit"@,
            "unsafe systemd unit "@ + unit.unit,
            service,
        ),
    ) + gathered(
        unit.actions,
        |action: Seq<char>|
            found(
                action != "reload"@ && action != "restart"@,
                finding(
                    Severity::Error,
                    "deployment_contract_unsupported_systemd_action"@,
                    "unsupported systemd action "@ + action,
                    service,
                ),
            ),
    )
}

/// What is wrong with a systemd unit.
pub fn check_unit(service: &str, unit: &ServiceSystemdContract) -> (r: Vec<Finding>)
    ensures
        r.deep_view() == unit_findings(service@, unit.deep_view()),
{
    let mut findings: Vec<Finding> = Vec::new();
    proof {
        assert(findings.deep_view() =~= Seq::<FindingView>::empty());
    }
    report_finding(
        &mut findings,
        !safe_systemd_unit(&unit.unit),
        Severity::Error,
        "deployment_contract_unsafe_systemd_unit",
        &cat2("unsafe systemd unit ", &unit.unit),
        service,
    );
    let actions = gather_each(
        &unit.actions,
        |action: &String| -> (r: Vec<Finding>)
            ensures
                r.deep_view() == found(
                    action@ != "reload"@ && action@ != "restart"@,
                    finding(
                        Severity::Error,
                        "deployment_contract_unsupported_systemd_action"@,
                        "unsupported systemd action "@ + action@,
                        service@,
                    ),
                )
            {
                let mut one: Vec<Finding> = Vec::new();
                report_finding(
                    &mut one,
                    !same(action, "reload") && !same(action, "restart"),
                    Severity::Error,
                    "deployment_contract_unsupported_systemd_action",
                    &cat2("unsupported systemd action ", action),
                    service,
                );
                proof {
                    assert(one.deep_view() =~= found(
                        action@ != "reload"@ && action@ != "restart"@,
                        finding(
                            Severity::Error,
                            "deployment_contract_unsupported_systemd_action"@,
                            "unsupported systemd action "@ + action@,
                            service@,
                        ),
                    ));
                }
                one
            },
        Ghost(
            |action: Seq<char>|
                found(
                    action != "reload"@ && action != "restart"@,
                    finding(
                        Severity::Error,
                        "deployment_contract_unsupported_systemd_action"@,
                        "unsupported systemd action "@ + action,
                        service@,
                    ),
                ),
        ),
    );
    add_findings(&mut findings, actions);
    proof {
        assert(findings.deep_view() =~= unit_findings(service@, unit.deep_view()));
    }
    findings
}

/// What is wrong with a static site.
pub open spec fn site_finding(service: Seq<char>, site: ServiceStaticSiteContractView) -> Option<
    FindingView,
> {
    if !is_absolute_spec(site.source) || !is_absolute_spec(site.destination) || !deployment_is_safe(
        site.deployment_id,
    ) {
        Some(
            finding(
                Severity::Error,
                "deployment_contract_unsafe_static_site"@,
                "static site contract must use absolute paths and safe deployment_id"@,
                service,
            ),
        )
    } else {
        None
    }
}

/// What is wrong with a static site.
pub fn check_site(service: &str, site: &ServiceStaticSiteContract) -> (r: Option<Finding>)
    ensures
        r.deep_view() == site_finding(service@, site.deep_view()),
{
    if !is_absolute(&site.source) || !is_absolute(&site.destination) || !safe_deployment_id(
        &site.deployment_id,
    ) {
        Some(
            Finding {
                severity: Severity::Error,
                code: "deployment_contract_unsafe_static_site".to_string(),
                message:
                    "static site contract must use absolute paths and safe deployment_id".to_string(),
                target: Some(service.to_string()),
            },
        )
    } else {
        None
    }
}

/// What is wrong with the deployment contract of a service.
pub open spec fn contract_findings(service: ServiceView) -> Seq<FindingView> {
    match service.deployment {
        None => Seq::empty(),
        Some(contract) => gathered(
            contract.build,
            |b: ServiceBuildContractView| build_findings(service.id, b),
        ) + chosen(contract.migrations, |c: Seq<char>| migration_finding(service.id, c)) + gathered(
            contract.systemd,
            |u: ServiceSystemdContractView| unit_findings(service.id, u),
        ) + chosen(
            contract.static_sites,
            |s: ServiceStaticSiteContractView| site_finding(service.id, s),
        ),
    }
}

/// What is wrong with the deployment contract of a service.
pub fn check_contract(service: &Service) -> (r: Vec<Finding>)
    ensures
        r.deep_view() == contract_findings(service.deep_view()),
{
    let contract = match &service.deployment {
        Some(contract) => contract,
        None => {
            let none: Vec<Finding> = Vec::new();
            proof {
                assert(none.deep_view() =~= Seq::<FindingView>::empty());
            }
            return none;
        },
    };
    let id = &service.id;
    let mut findings = gather_each(
        &contract.build,
        |b: &ServiceBuildContract| -> (r: Vec<Finding>)
            ensures
                r.deep_view() == build_findings(id@, b.deep_view())
            { check_build(id, b) },
        Ghost(|b: ServiceBuildContractView| build_findings(id@, b)),
    );
    let migrations = choose_each(
        &contract.migrations,
        |c: &String| -> (r: Option<Finding>)
            ensures
                r.deep_view() == migration_finding(id@, c@)
            { check_migration(id, c) },
        Ghost(|c: Seq<char>| migration_finding(id@, c)),
    );
    let units = gather_each(
        &contract.systemd,
        |u: &ServiceSystemdContract| -> (r: Vec<Finding>)
            ensures
                r.deep_view() == unit_findings(id@, u.deep_view())
            { check_unit(id, u) },
        Ghost(|u: ServiceSystemdContractView| unit_findings(id@, u)),
    );
    let sites = choose_each(
        &contract.static_sites,
        |s: &ServiceStaticSiteContract| -> (r: Option<Finding>)
            ensures
                r.deep_view() == site_finding(id@, s.deep_view())
            { check_site(id, s) },
        Ghost(|s: ServiceStaticSiteContractView| site_finding(id@, s)),
    );
    add_findings(&mut findings, migrations);
    add_findings(&mut findings, units);
    add_findings(&mut findings, sites);
    findings
}

/// What is wrong with the deployment contracts.
pub open spec fn all_contract_findings(registry: RegistryView) -> Seq<FindingView> {
    gathered(registry.services.services, |s: ServiceView| contract_findings(s))
}

/// What is wrong with the deployment contracts.
pub fn check_service_deployment_contracts(registry: &Registry) -> (r: Vec<Finding>)
    ensures
        r.deep_view() == all_contract_findings(registry.deep_view()),
{
    gather_each(
        &registry.services.services,
        |s: &Service| -> (r: Vec<Finding>)
            ensures
                r.deep_view() == contract_findings(s.deep_view())
            { check_contract(s) },
        Ghost(|s: ServiceView| contract_findings(s)),
    )
}

// ---------------------------------------------------------------------------
// Public data ports
// ---------------------------------------------------------------------------

/// Whether a port gives the public access to data.
pub open spec fn public_data(port: PortRecordView) -> bool {
    let purpose = lowered(text_or(port.purpose, ""@));
    port.exposure == "public"@ && (holds(purpose, "postgres"@) || holds(purpose, "mysql"@) || holds(
        purpose,
        "mariadb"@,
    ) || holds(purpose, "redis"@) || holds(purpose, "valkey"@) || holds(purpose, "database"@)
        || holds(purpose, "cache"@))
}

/// Whether a port gives the public access to data.
pub fn is_public_data_port(port: &PortRecord) -> (r: bool)
    ensures
        r == public_data(port.deep_view()),
{
    let purpose = to_lower(or_text(as_text(&port.purpose), ""));
    same(&port.exposure, "public") && (contains(&purpose, "postgres") || contains(
        &purpose,
        "mysql",
    ) || contains(&purpose, "mariadb") || contains(&purpose, "redis") || contains(
        &purpose,
        "valkey",
    ) || contains(&purpose, "database") || contains(&purpose, "cache"))
}

/// The active exception for a port: the first one.
pub open spec fn exception_for(
    exceptions: Seq<PublicDataPortExceptionView>,
    port_id: Seq<char>,
) -> Option<PublicDataPortExceptionView> {
    first_where(
        exceptions,
        |e: PublicDataPortExceptionView| e.status == "active"@ && e.port_id == port_id,
    )
}

/// What is said of a port. An exception silences the warning until it expires.
pub open spec fn public_port_finding(
    exceptions: Seq<PublicDataPortExceptionView>,
    port: PortRecordView,
    now: i128,
) -> Option<FindingView> {
    if !public_data(port) {
        None
    } else {
        match exception_for(exceptions, port.id) {
            None => Some(
                finding(
                    Severity::Warn,
                    "public_data_port"@,
                    "data service port "@ + decimal(port.port as nat)
                        + " is marked public; prefer 127.0.0.1 or private network"@,
                    port.id,
                ),
            ),
            Some(exception) => match rfc3339_nanos(exception.expires_at) {
                None => Some(
                    finding(
                        Severity::Warn,
                        "public_data_port_exception_invalid_timestamp"@,
                        "public data port exception expires_at is not valid RFC3339"@,
                        exception.id,
                    ),
                ),
                Some(expiry) => if expiry >= now {
                    None
                } else {
                    Some(
                        finding(
                            Severity::Warn,
                            "public_data_port_exception_expired"@,
                            "public data port exception is expired; renew it or bind the service privately"@,
                            exception.id,
                        ),
                    )
                },
            },
        }
    }
}

/// What is said of a port.
pub fn check_public_port(
    exceptions: &Vec<PublicDataPortException>,
    port: &PortRecord,
    now: i128,
) -> (r: Option<Finding>)
    ensures
        r.deep_view() == public_port_finding(exceptions.deep_view(), port.deep_view(), now),
{
    if !is_public_data_port(port) {
        return None;
    }
    let id = &port.id;
    let exception = find_first(
        exceptions,
        |e: &PublicDataPortException| -> (b: bool)
            ensures
                b == (e.deep_view().status == "active"@ && e.deep_view().port_id == id@)
            { same(&e.status, "active") && same(&e.port_id, id) },
        Ghost(|e: PublicDataPortExceptionView| e.status == "active"@ && e.port_id == id@),
    );
    match exception {
        None => Some(
            Finding {
                severity: Severity::Warn,
                code: "public_data_port".to_string(),
                message: cat3(
                    "data service port ",
                    &decimal_text(port.port as u64),
                    " is marked public; prefer 127.0.0.1 or private network",
                ),
                target: Some(port.id.clone()),
            },
        ),
        Some(exception) => match parse_rfc3339(&exception.expires_at) {
            None => Some(
                Finding {
                    severity: Severity::Warn,
                    code: "public_data_port_exception_invalid_timestamp".to_string(),
                    message:
                        "public data port exception expires_at is not valid RFC3339".to_string(),
                    target: Some(exception.id.clone()),
                },
            ),
            Some(expiry) => if expiry >= now {
                None
            } else {
                Some(
                    Finding {
                        severity: Severity::Warn,
                        code: "public_data_port_exception_expired".to_string(),
                        message:
                            "public data port exception is expired; renew it or bind the service privately".to_string(),
                        target: Some(exception.id.clone()),
                    },
                )
            },
        },
    }
}

/// What is said of an exception for a port that is not there.
pub open spec fn lost_exception(
    ports: Seq<PortRecordView>,
    exception: PublicDataPortExceptionView,
) -> Option<FindingView> {
    if exception.status == "active"@ && !any(
        ports,
        |p: PortRecordView| p.id == exception.port_id,
    ) {
        Some(
            finding(
                Severity::Warn,
                "public_data_port_exception_missing_port"@,
                "public data port exception references missing port_id "@ + exception.port_id,
                exception.id,
            ),
        )
    } else {
        None
    }
}

/// What is said of an exception for a port that is not there.
pub fn check_exception(ports: &Vec<PortRecord>, exception: &PublicDataPortException) -> (r: Option<
    Finding,
>)
    ensures
        r.deep_view() == lost_exception(ports.deep_view(), exception.deep_view()),
{
    let there = any_where(
        ports,
        |p: &PortRecord| -> (b: bool)
            ensures
                b == (p.deep_view().id == exception.deep_view().port_id)
            { same(&p.id, &exception.port_id) },
        Ghost(|p: PortRecordView| p.id == exception.deep_view().port_id),
    );
    if same(&exception.status, "active") && !there {
        Some(
            Finding {
                severity: Severity::Warn,
                code: "public_data_port_exception_missing_port".to_string(),
                message: cat2(
                    "public data port exception references missing port_id ",
                    &exception.port_id,
                ),
                target: Some(exception.id.clone()),
            },
        )
    } else {
        None
    }
}

/// What is said of public data ports.
pub open spec fn public_data_findings(registry: RegistryView, now: i128) -> Seq<FindingView> {
    chosen(
        registry.ports.ports,
        |p: PortRecordView|
            public_port_finding(registry.policies.public_data_port_exceptions, p, now),
    ) + chosen(
        registry.policies.public_data_port_exceptions,
        |e: PublicDataPortExceptionView| lost_exception(registry.ports.ports, e),
    )
}

/// What is said of public data ports.
pub fn check_public_data_ports(registry: &Registry, now: i128) -> (r: Vec<Finding>)
    ensures
        r.deep_view() == public_data_findings(registry.deep_view(), now),
{
    let exceptions = &registry.policies.public_data_port_exceptions;
    let ports = &registry.ports.ports;
    let mut findings = choose_each(
        ports,
        |p: &PortRecord| -> (f: Option<Finding>)
            ensures
                f.deep_view() == public_port_finding(exceptions.deep_view(), p.deep_view(), now)
            { check_public_port(exceptions, p, now) },
        Ghost(|p: PortRecordView| public_port_finding(exceptions.deep_view(), p, now)),
    );
    let lost = choose_each(
        exceptions,
        |e: &PublicDataPortException| -> (f: Option<Finding>)
            ensures
                f.deep_view() == lost_exception(ports.deep_view(), e.deep_view())
            { check_exception(ports, e) },
        Ghost(|e: PublicDataPortExceptionView| lost_exception(ports.deep_view(), e)),
    );
    add_findings(&mut findings, lost);
    findings
}

// ---------------------------------------------------------------------------
// Snapshots
// ---------------------------------------------------------------------------

/// Whether some snapshot covers a service.
pub open spec fn has_snapshot(snapshots: Seq<SnapshotRecordView>, service: Seq<char>) -> bool {
    any(snapshots, |s: SnapshotRecordView| s.service_ids.contains(service))
}

/// What is said of a production service without a snapshot.
pub open spec fn snapshot_finding(
    snapshots: Seq<SnapshotRecordView>,
    service: ServiceView,
) -> Option<FindingView> {
    if service.environment == "production"@ && service.backup_policy == Some("before_deploy"@)
        && !has_snapshot(snapshots, service.id) {
        Some(
            finding(
                Severity::Warn,
                "production_service_without_snapshot_record"@,
                "production service requires before-deploy snapshots but has no snapshot record"@,
                service.id,
            ),
        )
    } else {
        None
    }
}

/// What is said of production services without snapshots.
pub open spec fn snapshot_findings(registry: RegistryView) -> Seq<FindingView> {
    chosen(
        registry.services.services,
        |s: ServiceView| snapshot_finding(registry.snapshots.snapshots, s),
    )
}

/// What is said of a production service without a snapshot.
pub fn check_production_snapshot(snapshots: &Vec<SnapshotRecord>, service: &Service) -> (r: Option<
    Finding,
>)
    ensures
        r.deep_view() == snapshot_finding(snapshots.deep_view(), service.deep_view()),
{
    let covered = any_where(
        snapshots,
        |s: &SnapshotRecord| -> (b: bool)
            ensures
                b == s.deep_view().service_ids.contains(service.deep_view().id)
            { includes(&s.service_ids, &service.id) },
        Ghost(|s: SnapshotRecordView| s.service_ids.contains(service.deep_view().id)),
    );
    if same(&service.environment, "production") && is_text(
        as_text(&service.backup_policy),
        "before_deploy",
    ) && !covered {
        Some(
            Finding {
                severity: Severity::Warn,
                code: "production_service_without_snapshot_record".to_string(),
                message:
                    "production service requires before-deploy snapshots but has no snapshot record".to_string(),
                target: Some(service.id.clone()),
            },
        )
    } else {
        None
    }
}

/// What is said of production services without snapshots.
pub fn check_production_snapshots(registry: &Registry) -> (r: Vec<Finding>)
    ensures
        r.deep_view() == snapshot_findings(registry.deep_view()),
{
    let snapshots = &registry.snapshots.snapshots;
    choose_each(
        &registry.services.services,
        |s: &Service| -> (f: Option<Finding>)
            ensures
                f.deep_view() == snapshot_finding(snapshots.deep_view(), s.deep_view())
            { check_production_snapshot(snapshots, s) },
        Ghost(|s: ServiceView| snapshot_finding(snapshots.deep_view(), s)),
    )
}

// ---------------------------------------------------------------------------
// The report
// ---------------------------------------------------------------------------

/// Everything that is wrong with a registry.
pub open spec fn registry_findings(registry: RegistryView, now: i128) -> Seq<FindingView> {
    uniqueness_findings(registry) + reference_findings(registry) + all_contract_findings(registry)
        + public_data_findings(registry, now) + snapshot_findings(registry)
}

/// How many findings are this bad.
pub open spec fn with_severity(findings: Seq<FindingView>, severity: Severity) -> nat {
    tally(findings, |f: FindingView| f.severity == severity)
}

/// How many findings are this bad.
pub fn count_severity(findings: &Vec<Finding>, severity: Severity) -> (r: usize)
    ensures
        r == with_severity(findings.deep_view(), severity),
{
    count_where(
        findings,
        |f: &Finding| -> (b: bool)
            ensures
                b == (f.deep_view().severity == severity)
            { f.severity == severity },
        Ghost(|f: FindingView| f.severity == severity),
    )
}

/// The report on a registry: it is fine if and only if there is no error.
pub open spec fn doctor_report(registry: RegistryView, now: i128) -> DoctorReportView {
    let findings = registry_findings(registry, now);
    DoctorReportView {
        ok: with_severity(findings, Severity::Error) == 0,
        errors: with_severity(findings, Severity::Error),
        warnings: with_severity(findings, Severity::Warn),
        findings,
    }
}

impl DoctorReport {
    /// Checks a registry at an instant, in nanoseconds since the Unix epoch.
    pub fn from_registry(registry: &Registry, now: i128) -> (r: Self)
        ensures
            r.deep_view() == doctor_report(registry.deep_view(), now),
    {
        let mut findings = check_uniqueness(registry);
        add_findings(&mut findings, check_service_references(registry));
        add_findings(&mut findings, check_service_deployment_contracts(registry));
        add_findings(&mut findings, check_public_data_ports(registry, now));
        add_findings(&mut findings, check_production_snapshots(registry));
        let errors = count_severity(&findings, Severity::Error);
        let warnings = count_severity(&findings, Severity::Warn);
        DoctorReport { ok: errors == 0, errors, warnings, findings }
    }
}

// ---------------------------------------------------------------------------
// Laws
// ---------------------------------------------------------------------------

/// Ids without a repeat give no finding, and ids with one do.
pub proof fn law_duplicates_are_found(values: Seq<Seq<char>>, code: Seq<char>, message: Seq<char>)
    ensures
        duplicates(values, code, message).len() == 0 <==> values.no_duplicates(),
    decreases values.len(),
{
    if values.len() > 0 {
        let d = values.drop_last();
        law_duplicates_are_found(d, code, message);
        if d.contains(values.last()) {
            let k = choose|k: int| 0 <= k < d.len() && d[k] == values.last();
            assert(values[k] == values[values.len() - 1]);
        }
        if values.no_duplicates() {
            assert forall|i: int, j: int| 0 <= i < d.len() && 0 <= j < d.len() && i != j implies d[i]
                != d[j] by {
                assert(values[i] != values[j]);
            }
        } else {
            if d.no_duplicates() && !d.contains(values.last()) {
                assert forall|i: int, j: int|
                    0 <= i < values.len() && 0 <= j < values.len() && i != j implies values[i]
                    != values[j] by {
                    if i < d.len() && j < d.len() {
                        assert(d[i] != d[j]);
                    } else if i < d.len() {
                        assert(d[i] != values.last());
                    } else {
                        assert(d[j] != values.last());
                    }
                }
            }
        }
    }
}

proof fn lemma_tally_partition(findings: Seq<FindingView>)
    ensures
        with_severity(findings, Severity::Error) + with_severity(findings, Severity::Warn)
            == findings.len(),
    decreases findings.len(),
{
    if findings.len() > 0 {
        lemma_tally_partition(findings.drop_last());
    }
}

/// Every finding is counted once, as an error or as a warning.
pub proof fn law_every_finding_is_counted(registry: RegistryView, now: i128)
    ensures
        doctor_report(registry, now).errors + doctor_report(registry, now).warnings
            == doctor_report(registry, now).findings.len(),
{
    lemma_tally_partition(registry_findings(registry, now));
}

/// An active exception that has not expired silences the warning about its port,
/// and without one there is a warning.
pub proof fn law_exceptions_suppress_warnings_until_they_expire(
    exceptions: Seq<PublicDataPortExceptionView>,
    port: PortRecordView,
    now: i128,
)
    requires
        public_data(port),
    ensures
        public_port_finding(exceptions, port, now) is None <==> (exception_for(
            exceptions,
            port.id,
        ) is Some && rfc3339_nanos(exception_for(exceptions, port.id)->0.expires_at) is Some
            && rfc3339_nanos(exception_for(exceptions, port.id)->0.expires_at)->0 >= now),
{
}

/// Whether all findings are this bad.
spec fn all_are(findings: Seq<FindingView>, severity: Severity) -> bool {
    forall|i: int| 0 <= i < findings.len() ==> (#[trigger] findings[i]).severity == severity
}

proof fn lemma_errors_of_parts(a: Seq<FindingView>, b: Seq<FindingView>)
    ensures
        with_severity(a + b, Severity::Error) == with_severity(a, Severity::Error)
            + with_severity(b, Severity::Error),
    decreases b.len(),
{
    if b.len() == 0 {
        assert(a + b =~= a);
    } else {
        lemma_errors_of_parts(a, b.drop_last());
        assert((a + b).drop_last() =~= a + b.drop_last());
    }
}

proof fn lemma_errors_of_errors(findings: Seq<FindingView>)
    requires
        all_are(findings, Severity::Error),
    ensures
        with_severity(findings, Severity::Error) == findings.len(),
    decreases findings.len(),
{
    if findings.len() > 0 {
        let d = findings.drop_last();
        assert forall|i: int| 0 <= i < d.len() implies (#[trigger] d[i]).severity
            == Severity::Error by {
            assert(d[i] == findings[i]);
        }
        lemma_errors_of_errors(d);
        assert(findings[findings.len() - 1] == findings.last());
    }
}

proof fn lemma_errors_of_warnings(findings: Seq<FindingView>)
    requires
        all_are(findings, Severity::Warn),
    ensures
        with_severity(findings, Severity::Error) == 0,
    decreases findings.len(),
{
    if findings.len() > 0 {
        let d = findings.drop_last();
        assert forall|i: int| 0 <= i < d.len() implies (#[trigger] d[i]).severity
            == Severity::Warn by {
            assert(d[i] == findings[i]);
        }
        lemma_errors_of_warnings(d);
        assert(findings[findings.len() - 1] == findings.last());
    }
}

proof fn lemma_chosen_findings<A>(
    s: Seq<A>,
    f: spec_fn(A) -> Option<FindingView>,
    severity: Severity,
)
    requires
        forall|i: int|
            0 <= i < s.len() && f(#[trigger] s[i]) is Some ==> f(s[i])->0.severity == severity,
    ensures
        all_are(chosen(s, f), severity),
        chosen(s, f).len() == 0 <==> forall|i: int| 0 <= i < s.len() ==> f(#[trigger] s[i]) is None,
    decreases s.len(),
{
    if s.len() > 0 {
        let d = s.drop_last();
        assert forall|i: int| 0 <= i < d.len() && f(#[trigger] d[i]) is Some implies f(
            d[i],
        )->0.severity == severity by {
            assert(d[i] == s[i]);
        }
        lemma_chosen_findings(d, f, severity);
        assert(s[s.len() - 1] == s.last());
        if chosen(s, f).len() == 0 {
            assert forall|i: int| 0 <= i < s.len() implies f(#[trigger] s[i]) is None by {
                if i < d.len() {
                    assert(d[i] == s[i]);
                }
            }
        } else if forall|i: int| 0 <= i < s.len() ==> f(#[trigger] s[i]) is None {
            assert forall|i: int| 0 <= i < d.len() implies f(#[trigger] d[i]) is None by {
                assert(d[i] == s[i]);
            }
        }
    }
}

proof fn lemma_duplicates_are_errors(values: Seq<Seq<char>>, code: Seq<char>, message: Seq<char>)
    ensures
        all_are(duplicates(values, code, message), Severity::Error),
    decreases values.len(),
{
    if values.len() > 0 {
        lemma_duplicates_are_errors(values.drop_last(), code, message);
    }
}

proof fn lemma_last_where_finds<A>(s: Seq<A>, p: spec_fn(A) -> bool)
    ensures
        last_where(s, p) is None <==> forall|i: int| 0 <= i < s.len() ==> !p(#[trigger] s[i]),
    decreases s.len(),
{
    if s.len() > 0 {
        let d = s.drop_last();
        lemma_last_where_finds(d, p);
        assert(s[s.len() - 1] == s.last());
        assert forall|i: int| 0 <= i < d.len() implies d[i] == #[trigger] s[i] by {}
        if last_where(s, p) is None {
            assert forall|i: int| 0 <= i < s.len() implies !p(#[trigger] s[i]) by {
                if i < d.len() {
                    assert(!p(d[i]));
                }
            }
        } else if forall|i: int| 0 <= i < s.len() ==> !p(#[trigger] s[i]) {
            assert forall|i: int| 0 <= i < d.len() implies !p(#[trigger] d[i]) by {
                assert(!p(s[i]));
            }
        }
    }
}

/// Whether no two ports listen in the same place.
pub open spec fn distinct_bindings(ports: Seq<PortRecordView>) -> bool {
    forall|i: int, j: int|
        0 <= i < j < ports.len() ==> !same_binding(#[trigger] ports[i], #[trigger] ports[j])
}

/// Ports that listen in different places give no finding, and others do.
pub proof fn law_binding_clashes_are_found(ports: Seq<PortRecordView>)
    ensures
        binding_clashes(ports).len() == 0 <==> distinct_bindings(ports),
        forall|i: int|
            0 <= i < binding_clashes(ports).len() ==> (#[trigger] binding_clashes(
                ports,
            )[i]).severity == Severity::Error,
    decreases ports.len(),
{
    if ports.len() > 0 {
        let d = ports.drop_last();
        let p = ports.last();
        let q = |e: PortRecordView| same_binding(e, p);
        law_binding_clashes_are_found(d);
        lemma_last_where_finds(d, q);
        assert(ports[ports.len() - 1] == p);
        assert forall|i: int| 0 <= i < d.len() implies d[i] == #[trigger] ports[i] by {}
        if distinct_bindings(ports) {
            assert forall|i: int| 0 <= i < d.len() implies !q(#[trigger] d[i]) by {
                assert(!same_binding(ports[i], ports[ports.len() - 1]));
            }
            assert forall|i: int, j: int| 0 <= i < j < d.len() implies !same_binding(
                #[trigger] d[i],
                #[trigger] d[j],
            ) by {
                assert(!same_binding(ports[i], ports[j]));
            }
        } else if binding_clashes(ports).len() == 0 {
            assert forall|i: int, j: int| 0 <= i < j < ports.len() implies !same_binding(
                #[trigger] ports[i],
                #[trigger] ports[j],
            ) by {
                if j < d.len() {
                    assert(!same_binding(d[i], d[j]));
                } else {
                    assert(!q(d[i]));
                }
            }
        }
    }
}

/// Whether all ids, hosts, names and bindings of a registry are different.
pub open spec fn names_are_unique(registry: RegistryView) -> bool {
    &&& registry.services.services.map_values(|s: ServiceView| s.id).no_duplicates()
    &&& registry.ports.ports.map_values(|p: PortRecordView| p.id).no_duplicates()
    &&& distinct_bindings(registry.ports.ports)
    &&& registry.domains.domains.map_values(|d: DomainRecordView| d.id).no_duplicates()
    &&& registry.domains.domains.map_values(|d: DomainRecordView| d.host).no_duplicates()
    &&& registry.volumes.volumes.map_values(|v: VolumeRecordView| v.id).no_duplicates()
    &&& registry.volumes.volumes.map_values(|v: VolumeRecordView| v.name).no_duplicates()
}

/// Whether every port, domain and volume names a service of the registry.
pub open spec fn references_resolve(registry: RegistryView) -> bool {
    let services = registry.services.services;
    &&& forall|i: int|
        0 <= i < registry.ports.ports.len() ==> service_known(
            services,
            (#[trigger] registry.ports.ports[i]).service_id,
        )
    &&& forall|i: int|
        0 <= i < registry.domains.domains.len() ==> service_known(
            services,
            (#[trigger] registry.domains.domains[i]).service_id,
        )
    &&& forall|i: int|
        0 <= i < registry.volumes.volumes.len() ==> service_known(
            services,
            (#[trigger] registry.volumes.volumes[i]).service_id,
        )
}

proof fn lemma_uniqueness(registry: RegistryView)
    ensures
        with_severity(uniqueness_findings(registry), Severity::Error) == 0 <==> names_are_unique(
            registry,
        ),
{
    let services = registry.services.services.map_values(|s: ServiceView| s.id);
    let ports = registry.ports.ports.map_values(|p: PortRecordView| p.id);
    let domains = registry.domains.domains.map_values(|d: DomainRecordView| d.id);
    let hosts = registry.domains.domains.map_values(|d: DomainRecordView| d.host);
    let volumes = registry.volumes.volumes.map_values(|v: VolumeRecordView| v.id);
    let names = registry.volumes.volumes.map_values(|v: VolumeRecordView| v.name);
    let a = duplicates(services, "duplicate_service_id"@, "duplicate service id"@);
    let b = duplicates(ports, "duplicate_port_id"@, "duplicate port id"@);
    let c = binding_clashes(registry.ports.ports);
    let d = duplicates(domains, "duplicate_domain_id"@, "duplicate domain id"@);
    let e = duplicates(hosts, "duplicate_domain_host"@, "duplicate domain host"@);
    let f = duplicates(volumes, "duplicate_volume_id"@, "duplicate volume id"@);
    let g = duplicates(names, "duplicate_volume_name"@, "duplicate volume name"@);
    lemma_errors_of_parts(a, b);
    lemma_errors_of_parts(a + b, c);
    lemma_errors_of_parts(a + b + c, d);
    lemma_errors_of_parts(a + b + c + d, e);
    lemma_errors_of_parts(a + b + c + d + e, f);
    lemma_errors_of_parts(a + b + c + d + e + f, g);
    law_binding_clashes_are_found(registry.ports.ports);
    lemma_errors_of_errors(c);
    lemma_duplicate_errors(services, "duplicate_service_id"@, "duplicate service id"@);
    lemma_duplicate_errors(ports, "duplicate_port_id"@, "duplicate port id"@);
    lemma_duplicate_errors(domains, "duplicate_domain_id"@, "duplicate domain id"@);
    lemma_duplicate_errors(hosts, "duplicate_domain_host"@, "duplicate domain host"@);
    lemma_duplicate_errors(volumes, "duplicate_volume_id"@, "duplicate volume id"@);
    lemma_duplicate_errors(names, "duplicate_volume_name"@, "duplicate volume name"@);
}

proof fn lemma_duplicate_errors(values: Seq<Seq<char>>, code: Seq<char>, message: Seq<char>)
    ensures
        with_severity(duplicates(values, code, message), Severity::Error) == 0
            <==> values.no_duplicates(),
{
    lemma_duplicates_are_errors(values, code, message);
    lemma_errors_of_errors(duplicates(values, code, message));
    law_duplicates_are_found(values, code, message);
}

proof fn lemma_references(registry: RegistryView)
    ensures
        with_severity(reference_findings(registry), Severity::Error) == 0 <==> references_resolve(
            registry,
        ),
{
    let services = registry.services.services;
    let f = |p: PortRecordView|
        missing_service_spec(services, "port_missing_service"@, p.service_id, p.id);
    let g = |d: DomainRecordView|
        missing_service_spec(services, "domain_missing_service"@, d.service_id, d.id);
    let h = |v: VolumeRecordView|
        missing_service_spec(services, "volume_missing_service"@, v.service_id, v.id);
    let a = chosen(registry.ports.ports, f);
    let b = chosen(registry.domains.domains, g);
    let c = chosen(registry.volumes.volumes, h);
    lemma_chosen_findings(registry.ports.ports, f, Severity::Error);
    lemma_chosen_findings(registry.domains.domains, g, Severity::Error);
    lemma_chosen_findings(registry.volumes.volumes, h, Severity::Error);
    lemma_errors_of_errors(a);
    lemma_errors_of_errors(b);
    lemma_errors_of_errors(c);
    lemma_errors_of_parts(a, b);
    lemma_errors_of_parts(a + b, c);
    assert(reference_findings(registry) == a + b + c);
    assert forall|i: int| 0 <= i < registry.ports.ports.len() implies (f(
        #[trigger] registry.ports.ports[i],
    ) is None <==> service_known(services, registry.ports.ports[i].service_id)) by {}
    assert forall|i: int| 0 <= i < registry.domains.domains.len() implies (g(
        #[trigger] registry.domains.domains[i],
    ) is None <==> service_known(services, registry.domains.domains[i].service_id)) by {}
    assert forall|i: int| 0 <= i < registry.volumes.volumes.len() implies (h(
        #[trigger] registry.volumes.volumes[i],
    ) is None <==> service_known(services, registry.volumes.volumes[i].service_id)) by {}
}

proof fn lemma_no_contract_findings(services: Seq<ServiceView>)
    requires
        forall|i: int| 0 <= i < services.len() ==> (#[trigger] services[i]).deployment is None,
    ensures
        gathered(services, |s: ServiceView| contract_findings(s)).len() == 0,
    decreases services.len(),
{
    if services.len() > 0 {
        let d = services.drop_last();
        assert forall|i: int| 0 <= i < d.len() implies (#[trigger] d[i]).deployment is None by {
            assert(d[i] == services[i]);
        }
        lemma_no_contract_findings(d);
        assert(services[services.len() - 1] == services.last());
    }
}

/// A registry whose services have no deployment contract is fine if and only if all its
/// ids, hosts, names and bindings are different and every port, domain and volume names
/// a service of the registry.
pub proof fn law_registries_are_fine_iff_unique_and_resolved(registry: RegistryView, now: i128)
    requires
        forall|i: int|
            0 <= i < registry.services.services.len() ==> (
            #[trigger] registry.services.services[i]).deployment is None,
    ensures
        doctor_report(registry, now).ok <==> names_are_unique(registry) && references_resolve(
            registry,
        ),
{
    let a = uniqueness_findings(registry);
    let b = reference_findings(registry);
    let c = all_contract_findings(registry);
    let d = public_data_findings(registry, now);
    let e = snapshot_findings(registry);
    lemma_uniqueness(registry);
    lemma_references(registry);
    lemma_no_contract_findings(registry.services.services);
    let f = |p: PortRecordView|
        public_port_finding(registry.policies.public_data_port_exceptions, p, now);
    let g = |x: PublicDataPortExceptionView| lost_exception(registry.ports.ports, x);
    let h = |s: ServiceView| snapshot_finding(registry.snapshots.snapshots, s);
    lemma_chosen_findings(registry.ports.ports, f, Severity::Warn);
    lemma_chosen_findings(registry.policies.public_data_port_exceptions, g, Severity::Warn);
    lemma_chosen_findings(registry.services.services, h, Severity::Warn);
    lemma_errors_of_warnings(chosen(registry.ports.ports, f));
    lemma_errors_of_warnings(chosen(registry.policies.public_data_port_exceptions, g));
    lemma_errors_of_warnings(chosen(registry.services.services, h));
    lemma_errors_of_parts(
        chosen(registry.ports.ports, f),
        chosen(registry.policies.public_data_port_exceptions, g),
    );
    assert(d == chosen(registry.ports.ports, f) + chosen(
        registry.policies.public_data_port_exceptions,
        g,
    ));
    assert(e == chosen(registry.services.services, h));
    lemma_errors_of_parts(a, b);
    lemma_errors_of_parts(a + b, c);
    lemma_errors_of_parts(a + b + c, d);
    lemma_errors_of_parts(a + b + c + d, e);
}

/// Whether something is said of a target, under a code and with this severity.
pub open spec fn reports(
    findings: Seq<FindingView>,
    severity: Severity,
    code: Seq<char>,
    target: Seq<char>,
) -> bool {
    exists|k: int|
        0 <= k < findings.len() && (#[trigger] findings[k]).severity == severity && findings[k].code
            == code && findings[k].target == Some(target)
}

/// The number of a code.
spec fn code_number(code: Seq<char>) -> int {
    if code == "duplicate_service_id"@ {
        0
    } else if code == "duplicate_port_id"@ {
        1
    } else if code == "duplicate_port_binding"@ {
        2
    } else if code == "duplicate_domain_id"@ {
        3
    } else if code == "duplicate_domain_host"@ {
        4
    } else if code == "duplicate_volume_id"@ {
        5
    } else if code == "duplicate_volume_name"@ {
        6
    } else if code == "port_missing_service"@ {
        7
    } else if code == "domain_missing_service"@ {
        8
    } else if code == "volume_missing_service"@ {
        9
    } else if code == "deployment_contract_unsupported_build_adapter"@ {
        10
    } else if code == "deployment_contract_unsafe_build_script"@ {
        11
    } else if code == "deployment_contract_unsafe_migration"@ {
        12
    } else if code == "deployment_contract_unsafe_systemd_unit"@ {
        13
    } else if code == "deployment_contract_unsupported_systemd_action"@ {
        14
    } else if code == "deployment_contract_unsafe_static_site"@ {
        15
    } else if code == "public_data_port"@ {
        16
    } else if code == "public_data_port_exception_invalid_timestamp"@ {
        17
    } else if code == "public_data_port_exception_expired"@ {
        18
    } else if code == "public_data_port_exception_missing_port"@ {
        19
    } else if code == "production_service_without_snapshot_record"@ {
        20
    } else {
        21
    }
}

#[verifier::spinoff_prover]
proof fn lemma_code_numbers()
    ensures
        code_number("duplicate_service_id"@) == 0,
        code_number("duplicate_port_id"@) == 1,
        code_number("duplicate_port_binding"@) == 2,
        code_number("duplicate_domain_id"@) == 3,
        code_number("duplicate_domain_host"@) == 4,
        code_number("duplicate_volume_id"@) == 5,
        code_number("duplicate_volume_name"@) == 6,
        code_number("port_missing_service"@) == 7,
        code_number("domain_missing_service"@) == 8,
        code_number("volume_missing_service"@) == 9,
        code_number("deployment_contract_unsupported_build_adapter"@) == 10,
        code_number("deployment_contract_unsafe_build_script"@) == 11,
        code_number("deployment_contract_unsafe_migration"@) == 12,
        code_number("deployment_contract_unsafe_systemd_unit"@) == 13,
        code_number("deployment_contract_unsupported_systemd_action"@) == 14,
        code_number("deployment_contract_unsafe_static_site"@) == 15,
        code_number("public_data_port"@) == 16,
        code_number("public_data_port_exception_invalid_timestamp"@) == 17,
        code_number("public_data_port_exception_expired"@) == 18,
        code_number("public_data_port_exception_missing_port"@) == 19,
        code_number("production_service_without_snapshot_record"@) == 20,
{
    reveal_strlit("duplicate_service_id");
    reveal_strlit("duplicate_port_id");
    reveal_strlit("duplicate_port_binding");
    reveal_strlit("duplicate_domain_id");
    reveal_strlit("duplicate_domain_host");
    reveal_strlit("duplicate_volume_id");
    reveal_strlit("duplicate_volume_name");
    reveal_strlit("port_missing_service");
    reveal_strlit("domain_missing_service");
    reveal_strlit("volume_missing_service");
    reveal_strlit("deployment_contract_unsupported_build_adapter");
    reveal_strlit("deployment_contract_unsafe_build_script");
    reveal_strlit("deployment_contract_unsafe_migration");
    reveal_strlit("deployment_contract_unsafe_systemd_unit");
    reveal_strlit("deployment_contract_unsupported_systemd_action");
    reveal_strlit("deployment_contract_unsafe_static_site");
    reveal_strlit("public_data_port");
    reveal_strlit("public_data_port_exception_invalid_timestamp");
    reveal_strlit("public_data_port_exception_expired");
    reveal_strlit("public_data_port_exception_missing_port");
    reveal_strlit("production_service_without_snapshot_record");
    assert("duplicate_service_id"@.len() == 20);
    assert("duplicate_port_id"@.len() == 17);
    assert("duplicate_port_binding"@.len() == 22);
    assert("duplicate_domain_id"@.len() == 19);
    assert("duplicate_domain_host"@.len() == 21);
    assert("duplicate_volume_id"@.len() == 19);
    assert("duplicate_volume_name"@.len() == 21);
    assert("port_missing_service"@.len() == 20);
    assert("domain_missing_service"@.len() == 22);
    assert("volume_missing_service"@.len() == 22);
    assert("deployment_contract_unsupported_build_adapter"@.len() == 45);
    assert("deployment_contract_unsafe_build_script"@.len() == 39);
    assert("deployment_contract_unsafe_migration"@.len() == 36);
    assert("deployment_contract_unsafe_systemd_unit"@.len() == 39);
    assert("deployment_contract_unsupported_systemd_action"@.len() == 46);
    assert("deployment_contract_unsafe_static_site"@.len() == 38);
    assert("public_data_port"@.len() == 16);
    assert("public_data_port_exception_invalid_timestamp"@.len() == 44);
    assert("public_data_port_exception_expired"@.len() == 34);
    assert("public_data_port_exception_missing_port"@.len() == 39);
    assert("production_service_without_snapshot_record"@.len() == 42);
    assert("duplicate_volume_id"@[10] != "duplicate_domain_id"@[10]);
    assert("duplicate_volume_name"@[10] != "duplicate_domain_host"@[10]);
    assert("port_missing_service"@[0] != "duplicate_service_id"@[0]);
    assert("domain_missing_service"@[1] != "duplicate_port_binding"@[1]);
    assert("volume_missing_service"@[0] != "duplicate_port_binding"@[0]);
    assert("volume_missing_service"@[0] != "domain_missing_service"@[0]);
    assert("deployment_contract_unsafe_systemd_unit"@[27] != "deployment_contract_unsafe_build_script"@[27]);
    assert("public_data_port_exception_missing_port"@[0] != "deployment_contract_unsafe_build_script"@[0]);
    assert("public_data_port_exception_missing_port"@[0] != "deployment_contract_unsafe_systemd_unit"@[0]);
}

/// Where the findings with this number come from.
spec fn source_of(number: int) -> int {
    if number < 10 {
        number
    } else if number < 16 {
        10
    } else if number < 19 {
        11
    } else if number == 19 {
        12
    } else {
        13
    }
}

/// What each of the checks finds.
spec fn checked(registry: RegistryView, now: i128, n: int) -> Seq<FindingView> {
    let services = registry.services.services;
    let ports = registry.ports.ports;
    let domains = registry.domains.domains;
    let volumes = registry.volumes.volumes;
    if n == 0 {
        duplicates(
            services.map_values(|s: ServiceView| s.id),
            "duplicate_service_id"@,
            "duplicate service id"@,
        )
    } else if n == 1 {
        duplicates(
            ports.map_values(|p: PortRecordView| p.id),
            "duplicate_port_id"@,
            "duplicate port id"@,
        )
    } else if n == 2 {
        binding_clashes(ports)
    } else if n == 3 {
        duplicates(
            domains.map_values(|d: DomainRecordView| d.id),
            "duplicate_domain_id"@,
            "duplicate domain id"@,
        )
    } else if n == 4 {
        duplicates(
            domains.map_values(|d: DomainRecordView| d.host),
            "duplicate_domain_host"@,
            "duplicate domain host"@,
        )
    } else if n == 5 {
        duplicates(
            volumes.map_values(|v: VolumeRecordView| v.id),
            "duplicate_volume_id"@,
            "duplicate volume id"@,
        )
    } else if n == 6 {
        duplicates(
            volumes.map_values(|v: VolumeRecordView| v.name),
            "duplicate_volume_name"@,
            "duplicate volume name"@,
        )
    } else if n == 7 {
        chosen(ports, lost_port(services))
    } else if n == 8 {
        chosen(domains, lost_domain(services))
    } else if n == 9 {
        chosen(volumes, lost_volume(services))
    } else if n == 10 {
        all_contract_findings(registry)
    } else if n == 11 {
        chosen(ports, data_port(registry, now))
    } else if n == 12 {
        chosen(registry.policies.public_data_port_exceptions, stray_exception(registry))
    } else {
        snapshot_findings(registry)
    }
}

spec fn lost_port(services: Seq<ServiceView>) -> spec_fn(PortRecordView) -> Option<FindingView> {
    |p: PortRecordView|
        missing_service_spec(services, "port_missing_service"@, p.service_id, p.id)
}

spec fn lost_domain(services: Seq<ServiceView>) -> spec_fn(DomainRecordView) -> Option<
    FindingView,
> {
    |d: DomainRecordView|
        missing_service_spec(services, "domain_missing_service"@, d.service_id, d.id)
}

spec fn lost_volume(services: Seq<ServiceView>) -> spec_fn(VolumeRecordView) -> Option<
    FindingView,
> {
    |v: VolumeRecordView|
        missing_service_spec(services, "volume_missing_service"@, v.service_id, v.id)
}

spec fn data_port(registry: RegistryView, now: i128) -> spec_fn(PortRecordView) -> Option<
    FindingView,
> {
    |p: PortRecordView|
        public_port_finding(registry.policies.public_data_port_exceptions, p, now)
}

spec fn stray_exception(registry: RegistryView) -> spec_fn(
    PublicDataPortExceptionView,
) -> Option<FindingView> {
    |e: PublicDataPortExceptionView| lost_exception(registry.ports.ports, e)
}

spec fn unsaved(registry: RegistryView) -> spec_fn(ServiceView) -> Option<FindingView> {
    |s: ServiceView| snapshot_finding(registry.snapshots.snapshots, s)
}

/// What the first checks find.
spec fn checks(registry: RegistryView, now: i128, n: int) -> Seq<FindingView>
    decreases n,
{
    if n <= 0 {
        Seq::empty()
    } else {
        checks(registry, now, n - 1) + checked(registry, now, n - 1)
    }
}

#[verifier::spinoff_prover]
proof fn lemma_checks(registry: RegistryView, now: i128)
    ensures
        registry_findings(registry, now) == checks(registry, now, 14),
{
    reveal_with_fuel(checks, 15);
    let services = registry.services.services;
    assert(chosen(registry.ports.ports, lost_port(services)) == chosen(
        registry.ports.ports,
        |p: PortRecordView|
            missing_service_spec(services, "port_missing_service"@, p.service_id, p.id),
    ));
    assert(registry_findings(registry, now) =~= checks(registry, now, 14));
}

proof fn lemma_duplicate_codes(
    values: Seq<Seq<char>>,
    code: Seq<char>,
    message: Seq<char>,
    x: FindingView,
)
    ensures
        duplicates(values, code, message).contains(x) <==> x.severity == Severity::Error && x.code
            == code && exists|i: int, j: int|
            0 <= i < j < values.len() && #[trigger] values[i] == #[trigger] values[j] && x.target
                == Some(values[j]) && x.message == message + ": "@ + values[j],
    decreases values.len(),
{
    if values.len() > 0 {
        let d = values.drop_last();
        let v = values.last();
        let last = values.len() - 1;
        lemma_duplicate_codes(d, code, message, x);
        let f = finding(Severity::Error, code, message + ": "@ + v, v);
        let more = found(d.contains(v), f);
        law_either_list(duplicates(d, code, message), more, x);
        assert(more.contains(x) <==> d.contains(v) && x == f) by {
            if d.contains(v) {
                assert(more[0] == f);
            }
        }
        assert forall|i: int| 0 <= i < d.len() implies #[trigger] d[i] == values[i] by {}
        if duplicates(d, code, message).contains(x) {
            let (i, j) = choose|i: int, j: int|
                0 <= i < j < d.len() && #[trigger] d[i] == #[trigger] d[j] && x.target == Some(
                    d[j],
                ) && x.message == message + ": "@ + d[j];
            assert(values[i] == values[j]);
        }
        if d.contains(v) && x == f {
            let i = choose|i: int| 0 <= i < d.len() && d[i] == v;
            assert(values[i] == values[last]);
        }
        if x.severity == Severity::Error && x.code == code && exists|i: int, j: int|
            0 <= i < j < values.len() && #[trigger] values[i] == #[trigger] values[j] && x.target
                == Some(values[j]) && x.message == message + ": "@ + values[j] {
            let (i, j) = choose|i: int, j: int|
                0 <= i < j < values.len() && #[trigger] values[i] == #[trigger] values[j]
                    && x.target == Some(values[j]) && x.message == message + ": "@ + values[j];
            if j < last {
                assert(d[i] == d[j]);
            } else {
                assert(d[i] == v);
                assert(d.contains(v));
                assert(x == f);
            }
        }
    }
}

proof fn lemma_clash_codes(ports: Seq<PortRecordView>)
    ensures
        forall|k: int|
            0 <= k < binding_clashes(ports).len() ==> (#[trigger] binding_clashes(ports)[k]).code
                == "duplicate_port_binding"@ && binding_clashes(ports)[k].severity
                == Severity::Error,
    decreases ports.len(),
{
    if ports.len() > 0 {
        lemma_clash_codes(ports.drop_last());
    }
}

proof fn lemma_contract_codes(service: ServiceView, x: FindingView)
    requires
        contract_findings(service).contains(x),
    ensures
        10 <= code_number(x.code) < 16,
        x.severity == Severity::Error,
        x.target == Some(service.id),
{
    lemma_code_numbers();
    lemma_contract_parts(service, x);
}

/// What of a contract gives a finding.
spec fn contract_cause(service: ServiceView, x: FindingView) -> bool {
    service.deployment matches Some(contract) && {
        ||| exists|i: int|
            0 <= i < contract.build.len() && build_findings(
                service.id,
                #[trigger] contract.build[i],
            ).contains(x)
        ||| exists|i: int|
            0 <= i < contract.migrations.len() && migration_finding(
                service.id,
                #[trigger] contract.migrations[i],
            ) == Some(x)
        ||| exists|i: int|
            0 <= i < contract.systemd.len() && unit_findings(
                service.id,
                #[trigger] contract.systemd[i],
            ).contains(x)
        ||| exists|i: int|
            0 <= i < contract.static_sites.len() && site_finding(
                service.id,
                #[trigger] contract.static_sites[i],
            ) == Some(x)
    }
}

proof fn lemma_contract_cause(service: ServiceView, x: FindingView)
    ensures
        contract_findings(service).contains(x) <==> contract_cause(service, x),
{
    if let Some(contract) = service.deployment {
        let fb = |b: ServiceBuildContractView| build_findings(service.id, b);
        let fm = |c: Seq<char>| migration_finding(service.id, c);
        let fu = |u: ServiceSystemdContractView| unit_findings(service.id, u);
        let fs = |s: ServiceStaticSiteContractView| site_finding(service.id, s);
        let a = gathered(contract.build, fb);
        let b = chosen(contract.migrations, fm);
        let c = gathered(contract.systemd, fu);
        let d = chosen(contract.static_sites, fs);
        law_gathered(contract.build, fb, x);
        law_chosen(contract.migrations, fm, x);
        law_gathered(contract.systemd, fu, x);
        law_chosen(contract.static_sites, fs, x);
        law_either_list(a, b, x);
        law_either_list(a + b, c, x);
        law_either_list(a + b + c, d, x);
        assert(contract_findings(service) == a + b + c + d);
        lemma_same_cause_of_builds(service, contract, x);
        lemma_same_cause_of_rest(service, contract, x);
    }
}

proof fn lemma_same_cause_of_builds(
    service: ServiceView,
    contract: ServiceDeploymentContractView,
    x: FindingView,
)
    ensures
        ({
            let fb = |b: ServiceBuildContractView| build_findings(service.id, b);
            let fu = |u: ServiceSystemdContractView| unit_findings(service.id, u);
            &&& (exists|i: int|
                0 <= i < contract.build.len() && fb(#[trigger] contract.build[i]).contains(x)) == (
            exists|i: int|
                0 <= i < contract.build.len() && build_findings(
                    service.id,
                    #[trigger] contract.build[i],
                ).contains(x))
            &&& (exists|i: int|
                0 <= i < contract.systemd.len() && fu(#[trigger] contract.systemd[i]).contains(x))
                == (exists|i: int|
                0 <= i < contract.systemd.len() && unit_findings(
                    service.id,
                    #[trigger] contract.systemd[i],
                ).contains(x))
        }),
{
}

proof fn lemma_same_cause_of_rest(
    service: ServiceView,
    contract: ServiceDeploymentContractView,
    x: FindingView,
)
    ensures
        ({
            let fm = |c: Seq<char>| migration_finding(service.id, c);
            let fs = |s: ServiceStaticSiteContractView| site_finding(service.id, s);
            &&& (exists|i: int|
                0 <= i < contract.migrations.len() && fm(#[trigger] contract.migrations[i]) == Some(
                    x,
                )) == (exists|i: int|
                0 <= i < contract.migrations.len() && migration_finding(
                    service.id,
                    #[trigger] contract.migrations[i],
                ) == Some(x))
            &&& (exists|i: int|
                0 <= i < contract.static_sites.len() && fs(#[trigger] contract.static_sites[i])
                    == Some(x)) == (exists|i: int|
                0 <= i < contract.static_sites.len() && site_finding(
                    service.id,
                    #[trigger] contract.static_sites[i],
                ) == Some(x))
        }),
{
}

proof fn lemma_found(b: bool, f: FindingView, x: FindingView)
    ensures
        found(b, f).contains(x) <==> b && x == f,
{
    if b {
        assert(found(b, f)[0] == f);
    }
}

proof fn lemma_build_findings(service: Seq<char>, build: ServiceBuildContractView, x: FindingView)
    ensures
        build_findings(service, build).contains(x) <==> x.severity == Severity::Error && x.target
            == Some(service) && {
            ||| x.code == "deployment_contract_unsupported_build_adapter"@ && x.message
                == "unsupported build adapter "@ + build.adapter && build.adapter != "npm"@
                && build.adapter != "pnpm"@ && build.adapter != "bun"@
            ||| x.code == "deployment_contract_unsafe_build_script"@ && exists|i: int|
                0 <= i < build.scripts.len() && !script_is_safe(#[trigger] build.scripts[i])
                    && x.message == "unsafe build script name "@ + build.scripts[i]
        },
{
    let bad = build.adapter != "npm"@ && build.adapter != "pnpm"@ && build.adapter != "bun"@;
    let f = finding(
        Severity::Error,
        "deployment_contract_unsupported_build_adapter"@,
        "unsupported build adapter "@ + build.adapter,
        service,
    );
    let g = |script: Seq<char>|
        found(
            !script_is_safe(script),
            finding(
                Severity::Error,
                "deployment_contract_unsafe_build_script"@,
                "unsafe build script name "@ + script,
                service,
            ),
        );
    let a = found(bad, f);
    let b = gathered(build.scripts, g);
    law_either_list(a, b, x);
    lemma_found(bad, f, x);
    law_gathered(build.scripts, g, x);
    assert forall|i: int| 0 <= i < build.scripts.len() implies g(
        #[trigger] build.scripts[i],
    ).contains(x) == (!script_is_safe(build.scripts[i]) && x == finding(
        Severity::Error,
        "deployment_contract_unsafe_build_script"@,
        "unsafe build script name "@ + build.scripts[i],
        service,
    )) by {
        lemma_found(
            !script_is_safe(build.scripts[i]),
            finding(
                Severity::Error,
                "deployment_contract_unsafe_build_script"@,
                "unsafe build script name "@ + build.scripts[i],
                service,
            ),
            x,
        );
    }
    assert(build_findings(service, build) == a + b);
}

proof fn lemma_unit_findings(service: Seq<char>, unit: ServiceSystemdContractView, x: FindingView)
    ensures
        unit_findings(service, unit).contains(x) <==> x.severity == Severity::Error && x.target
            == Some(service) && {
            ||| x.code == "deployment_contract_unsafe_systemd_unit"@ && x.message
                == "unsafe systemd unit "@ + unit.unit && !unit_is_safe(unit.unit)
            ||| x.code == "deployment_contract_unsupported_systemd_action"@ && exists|i: int|
                0 <= i < unit.actions.len() && #[trigger] unit.actions[i] != "reload"@
                    && unit.actions[i] != "restart"@ && x.message == "unsupported systemd action "@
                    + unit.actions[i]
        },
{
    let f = finding(
        Severity::Error,
        "deployment_contract_unsafe_systemd_unit"@,
        "unsafe systemd unit "@ + unit.unit,
        service,
    );
    let g = |action: Seq<char>|
        found(
            action != "reload"@ && action != "restart"@,
            finding(
                Severity::Error,
                "deployment_contract_unsupported_systemd_action"@,
                "unsupported systemd action "@ + action,
                service,
            ),
        );
    let a = found(!unit_is_safe(unit.unit), f);
    let b = gathered(unit.actions, g);
    law_either_list(a, b, x);
    lemma_found(!unit_is_safe(unit.unit), f, x);
    law_gathered(unit.actions, g, x);
    assert forall|i: int| 0 <= i < unit.actions.len() implies g(
        #[trigger] unit.actions[i],
    ).contains(x) == (unit.actions[i] != "reload"@ && unit.actions[i] != "restart"@ && x == finding(
        Severity::Error,
        "deployment_contract_unsupported_systemd_action"@,
        "unsupported systemd action "@ + unit.actions[i],
        service,
    )) by {
        lemma_found(
            unit.actions[i] != "reload"@ && unit.actions[i] != "restart"@,
            finding(
                Severity::Error,
                "deployment_contract_unsupported_systemd_action"@,
                "unsupported systemd action "@ + unit.actions[i],
                service,
            ),
            x,
        );
    }
    assert(unit_findings(service, unit) == a + b);
}

proof fn lemma_contract_parts(service: ServiceView, x: FindingView)
    requires
        contract_findings(service).contains(x),
    ensures
        x.severity == Severity::Error,
        x.target == Some(service.id),
        x.code == "deployment_contract_unsupported_build_adapter"@ || x.code
            == "deployment_contract_unsafe_build_script"@ || x.code
            == "deployment_contract_unsafe_migration"@ || x.code
            == "deployment_contract_unsafe_systemd_unit"@ || x.code
            == "deployment_contract_unsupported_systemd_action"@ || x.code
            == "deployment_contract_unsafe_static_site"@,
{
    lemma_contract_cause(service, x);
    let contract = service.deployment->0;
    if exists|i: int|
        0 <= i < contract.build.len() && build_findings(
            service.id,
            #[trigger] contract.build[i],
        ).contains(x) {
        let i = choose|i: int|
            0 <= i < contract.build.len() && build_findings(
                service.id,
                #[trigger] contract.build[i],
            ).contains(x);
        lemma_build_findings(service.id, contract.build[i], x);
    } else if exists|i: int|
        0 <= i < contract.systemd.len() && unit_findings(
            service.id,
            #[trigger] contract.systemd[i],
        ).contains(x) {
        let i = choose|i: int|
            0 <= i < contract.systemd.len() && unit_findings(
                service.id,
                #[trigger] contract.systemd[i],
            ).contains(x);
        lemma_unit_findings(service.id, contract.systemd[i], x);
    }
}

#[verifier::spinoff_prover]
proof fn lemma_checked_codes(registry: RegistryView, now: i128, n: int, x: FindingView)
    requires
        0 <= n < 14,
        checked(registry, now, n).contains(x),
    ensures
        source_of(code_number(x.code)) == n,
{
    lemma_code_numbers();
    let services = registry.services.services;
    let ports = registry.ports.ports;
    let domains = registry.domains.domains;
    let volumes = registry.volumes.volumes;
    if n == 0 {
        lemma_duplicate_codes(
            services.map_values(|s: ServiceView| s.id),
            "duplicate_service_id"@,
            "duplicate service id"@,
            x,
        );
    } else if n == 1 {
        lemma_duplicate_codes(
            ports.map_values(|p: PortRecordView| p.id),
            "duplicate_port_id"@,
            "duplicate port id"@,
            x,
        );
    } else if n == 2 {
        lemma_clash_codes(ports);
    } else if n == 3 {
        lemma_duplicate_codes(
            domains.map_values(|d: DomainRecordView| d.id),
            "duplicate_domain_id"@,
            "duplicate domain id"@,
            x,
        );
    } else if n == 4 {
        lemma_duplicate_codes(
            domains.map_values(|d: DomainRecordView| d.host),
            "duplicate_domain_host"@,
            "duplicate domain host"@,
            x,
        );
    } else if n == 5 {
        lemma_duplicate_codes(
            volumes.map_values(|v: VolumeRecordView| v.id),
            "duplicate_volume_id"@,
            "duplicate volume id"@,
            x,
        );
    } else if n == 6 {
        lemma_duplicate_codes(
            volumes.map_values(|v: VolumeRecordView| v.name),
            "duplicate_volume_name"@,
            "duplicate volume name"@,
            x,
        );
    } else if n == 7 {
        law_chosen(ports, lost_port(services), x);
    } else if n == 8 {
        law_chosen(domains, lost_domain(services), x);
    } else if n == 9 {
        law_chosen(volumes, lost_volume(services), x);
    } else if n == 10 {
        let f = |s: ServiceView| contract_findings(s);
        law_gathered(services, f, x);
        let i = choose|i: int| 0 <= i < services.len() && f(#[trigger] services[i]).contains(x);
        lemma_contract_codes(services[i], x);
    } else if n == 11 {
        law_chosen(ports, data_port(registry, now), x);
    } else if n == 12 {
        law_chosen(
            registry.policies.public_data_port_exceptions,
            stray_exception(registry),
            x,
        );
    } else {
        law_chosen(services, unsaved(registry), x);
        assert(snapshot_findings(registry) == chosen(services, unsaved(registry)));
    }
}

proof fn lemma_checks_hold(registry: RegistryView, now: i128, n: int, x: FindingView)
    requires
        0 <= n <= 14,
        0 <= code_number(x.code) < 21,
    ensures
        checks(registry, now, n).contains(x) <==> source_of(code_number(x.code)) < n && checked(
            registry,
            now,
            source_of(code_number(x.code)),
        ).contains(x),
    decreases n,
{
    if n > 0 {
        lemma_checks_hold(registry, now, n - 1, x);
        law_either_list(checks(registry, now, n - 1), checked(registry, now, n - 1), x);
        if checked(registry, now, n - 1).contains(x) {
            lemma_checked_codes(registry, now, n - 1, x);
        }
    }
}

/// The findings of a report with a code are those of one check.
proof fn lemma_where_found(registry: RegistryView, now: i128, x: FindingView)
    requires
        0 <= code_number(x.code) < 21,
    ensures
        doctor_report(registry, now).findings.contains(x) <==> checked(
            registry,
            now,
            source_of(code_number(x.code)),
        ).contains(x),
{
    lemma_checks(registry, now);
    lemma_checks_hold(registry, now, 14, x);
}

proof fn lemma_reports(findings: Seq<FindingView>, x: FindingView)
    requires
        findings.contains(x),
        x.target is Some,
    ensures
        reports(findings, x.severity, x.code, x.target->0),
{
    let k = choose|k: int| 0 <= k < findings.len() && findings[k] == x;
    assert(findings[k].severity == x.severity);
}

/// What is reported, as a finding.
spec fn is_about(x: FindingView, severity: Severity, code: Seq<char>, target: Seq<char>) -> bool {
    x.severity == severity && x.code == code && x.target == Some(target)
}

proof fn lemma_reported(
    registry: RegistryView,
    now: i128,
    severity: Severity,
    code: Seq<char>,
    target: Seq<char>,
)
    requires
        0 <= code_number(code) < 21,
    ensures
        reports(doctor_report(registry, now).findings, severity, code, target) <==> exists|
            x: FindingView,
        | #[trigger]
            checked(registry, now, source_of(code_number(code))).contains(x) && is_about(
                x,
                severity,
                code,
                target,
            ),
{
    let all = doctor_report(registry, now).findings;
    let some = checked(registry, now, source_of(code_number(code)));
    if reports(all, severity, code, target) {
        let k = choose|k: int|
            0 <= k < all.len() && (#[trigger] all[k]).severity == severity && all[k].code == code
                && all[k].target == Some(target);
        assert(all.contains(all[k]));
        lemma_where_found(registry, now, all[k]);
        assert(is_about(all[k], severity, code, target));
    }
    if exists|x: FindingView| #[trigger]
        some.contains(x) && is_about(x, severity, code, target) {
        let x = choose|x: FindingView| #[trigger]
            some.contains(x) && is_about(x, severity, code, target);
        lemma_where_found(registry, now, x);
        lemma_reports(all, x);
    }
}

/// Whether a port that everyone can reach is said to be for a database or a cache.
pub open spec fn exposes_data(port: PortRecordView) -> bool {
    let purpose = lowered(if port.purpose is Some {
        port.purpose->0
    } else {
        ""@
    });
    &&& port.exposure == "public"@
    &&& {
        ||| holds(purpose, "postgres"@)
        ||| holds(purpose, "mysql"@)
        ||| holds(purpose, "mariadb"@)
        ||| holds(purpose, "redis"@)
        ||| holds(purpose, "valkey"@)
        ||| holds(purpose, "database"@)
        ||| holds(purpose, "cache"@)
    }
}

/// Whether an exception is the first active one for a port.
pub open spec fn excepted_by(
    exceptions: Seq<PublicDataPortExceptionView>,
    port_id: Seq<char>,
    e: int,
) -> bool {
    &&& 0 <= e < exceptions.len()
    &&& exceptions[e].status == "active"@
    &&& exceptions[e].port_id == port_id
    &&& forall|k: int|
        0 <= k < e ==> !((#[trigger] exceptions[k]).status == "active"@ && exceptions[k].port_id
            == port_id)
}

proof fn lemma_excepted(exceptions: Seq<PublicDataPortExceptionView>, port_id: Seq<char>)
    ensures
        exception_for(exceptions, port_id) is None <==> forall|k: int|
            0 <= k < exceptions.len() ==> !((#[trigger] exceptions[k]).status == "active"@
                && exceptions[k].port_id == port_id),
        exception_for(exceptions, port_id) is Some ==> exists|e: int| #[trigger]
            excepted_by(exceptions, port_id, e) && exceptions[e] == exception_for(
                exceptions,
                port_id,
            )->0,
        forall|e: int| #[trigger]
            excepted_by(exceptions, port_id, e) ==> exception_for(exceptions, port_id) == Some(
                exceptions[e],
            ),
{
    let p = |e: PublicDataPortExceptionView| e.status == "active"@ && e.port_id == port_id;
    law_first_where(exceptions, p);
    if exception_for(exceptions, port_id) is None {
        assert forall|k: int| 0 <= k < exceptions.len() implies !((
        #[trigger] exceptions[k]).status == "active"@ && exceptions[k].port_id == port_id) by {
            assert(!p(exceptions[k]));
        }
    } else {
        let i = choose|i: int|
            0 <= i < exceptions.len() && #[trigger] exceptions[i] == first_where(
                exceptions,
                p,
            )->0 && p(exceptions[i]) && forall|j: int| 0 <= j < i ==> !p(#[trigger] exceptions[j]);
        assert forall|k: int| 0 <= k < i implies !((#[trigger] exceptions[k]).status == "active"@
            && exceptions[k].port_id == port_id) by {
            assert(!p(exceptions[k]));
        }
        assert(excepted_by(exceptions, port_id, i));
        assert(exceptions[i].status == "active"@ && exceptions[i].port_id == port_id);
        assert forall|e: int| #[trigger] excepted_by(exceptions, port_id, e) implies e == i by {
            assert(p(exceptions[e]));
            if e < i {
                assert(!p(exceptions[e]));
            }
        }
    }
    assert forall|e: int| #[trigger] excepted_by(exceptions, port_id, e) implies exception_for(
        exceptions,
        port_id,
    ) == Some(exceptions[e]) by {
        assert(p(exceptions[e]));
    }
}

/// A port that everyone can reach and that is said to be for a database or a cache is
/// warned of where no active exception is for it. No other port is warned of like that.
pub proof fn law_public_data_ports_are_reported(registry: RegistryView, now: i128, id: Seq<char>)
    ensures
        reports(
            doctor_report(registry, now).findings,
            Severity::Warn,
            "public_data_port"@,
            id,
        ) <==> {
            let ports = registry.ports.ports;
            let exceptions = registry.policies.public_data_port_exceptions;
            exists|i: int|
                0 <= i < ports.len() && (#[trigger] ports[i]).id == id && exposes_data(ports[i])
                    && forall|k: int|
                    0 <= k < exceptions.len() ==> !((#[trigger] exceptions[k]).status == "active"@
                        && exceptions[k].port_id == id)
        },
{
    let ports = registry.ports.ports;
    let exceptions = registry.policies.public_data_port_exceptions;
    let f = data_port(registry, now);
    lemma_code_numbers();
    lemma_reported(registry, now, Severity::Warn, "public_data_port"@, id);
    lemma_excepted(exceptions, id);
    let found = chosen(ports, f);
    assert(checked(registry, now, source_of(code_number("public_data_port"@))) == found);
    if exists|x: FindingView| #[trigger]
        found.contains(x) && is_about(x, Severity::Warn, "public_data_port"@, id) {
        let x = choose|x: FindingView| #[trigger]
            found.contains(x) && is_about(x, Severity::Warn, "public_data_port"@, id);
        law_chosen(ports, f, x);
        let i = choose|i: int| 0 <= i < ports.len() && f(#[trigger] ports[i]) == Some(x);
        assert(ports[i].id == id);
        assert(exposes_data(ports[i]));
    }
    if exists|i: int|
        0 <= i < ports.len() && (#[trigger] ports[i]).id == id && exposes_data(ports[i]) && forall|
            k: int,
        |
            0 <= k < exceptions.len() ==> !((#[trigger] exceptions[k]).status == "active"@
                && exceptions[k].port_id == id) {
        let i = choose|i: int|
            0 <= i < ports.len() && (#[trigger] ports[i]).id == id && exposes_data(ports[i])
                && forall|k: int|
                0 <= k < exceptions.len() ==> !((#[trigger] exceptions[k]).status == "active"@
                    && exceptions[k].port_id == id);
        let x = f(ports[i])->0;
        law_chosen(ports, f, x);
        assert(f(ports[i]) == Some(x));
        assert(found.contains(x));
        assert(is_about(x, Severity::Warn, "public_data_port"@, id));
    }
}

/// The first active exception for such a port silences the warning until it expires.
/// From then on the exception itself is warned of, and so is one whose expiry is no
/// point in time; no other exception is.
pub proof fn law_expired_exceptions_are_reported(registry: RegistryView, now: i128, id: Seq<char>)
    ensures
        reports(
            doctor_report(registry, now).findings,
            Severity::Warn,
            "public_data_port_exception_expired"@,
            id,
        ) <==> {
            let ports = registry.ports.ports;
            let exceptions = registry.policies.public_data_port_exceptions;
            exists|i: int, e: int|
                0 <= i < ports.len() && exposes_data(#[trigger] ports[i]) && #[trigger] excepted_by(
                    exceptions,
                    ports[i].id,
                    e,
                ) && exceptions[e].id == id && rfc3339_nanos(exceptions[e].expires_at) is Some
                    && rfc3339_nanos(exceptions[e].expires_at)->0 < now
        },
        reports(
            doctor_report(registry, now).findings,
            Severity::Warn,
            "public_data_port_exception_invalid_timestamp"@,
            id,
        ) <==> {
            let ports = registry.ports.ports;
            let exceptions = registry.policies.public_data_port_exceptions;
            exists|i: int, e: int|
                0 <= i < ports.len() && exposes_data(#[trigger] ports[i]) && #[trigger] excepted_by(
                    exceptions,
                    ports[i].id,
                    e,
                ) && exceptions[e].id == id && rfc3339_nanos(exceptions[e].expires_at) is None
        },
{
    lemma_code_numbers();
    lemma_exceptions_reported(registry, now, id, "public_data_port_exception_expired"@);
    lemma_exceptions_reported(registry, now, id, "public_data_port_exception_invalid_timestamp"@);
}

/// When an exception is warned of under a code.
spec fn warned(exception: PublicDataPortExceptionView, now: i128, code: Seq<char>) -> bool {
    let expiry = rfc3339_nanos(exception.expires_at);
    if code == "public_data_port_exception_expired"@ {
        expiry is Some && expiry->0 < now
    } else {
        expiry is None
    }
}

proof fn lemma_exceptions_reported(
    registry: RegistryView,
    now: i128,
    id: Seq<char>,
    code: Seq<char>,
)
    requires
        code == "public_data_port_exception_expired"@ || code
            == "public_data_port_exception_invalid_timestamp"@,
    ensures
        reports(doctor_report(registry, now).findings, Severity::Warn, code, id) <==> {
            let ports = registry.ports.ports;
            let exceptions = registry.policies.public_data_port_exceptions;
            exists|i: int, e: int|
                0 <= i < ports.len() && exposes_data(#[trigger] ports[i]) && #[trigger] excepted_by(
                    exceptions,
                    ports[i].id,
                    e,
                ) && exceptions[e].id == id && warned(exceptions[e], now, code)
        },
{
    let ports = registry.ports.ports;
    let exceptions = registry.policies.public_data_port_exceptions;
    let f = data_port(registry, now);
    lemma_code_numbers();
    lemma_reported(registry, now, Severity::Warn, code, id);
    let found = chosen(ports, f);
    assert(checked(registry, now, source_of(code_number(code))) == found);
    if exists|x: FindingView| #[trigger]
        found.contains(x) && is_about(x, Severity::Warn, code, id) {
        let x = choose|x: FindingView| #[trigger]
            found.contains(x) && is_about(x, Severity::Warn, code, id);
        law_chosen(ports, f, x);
        let i = choose|i: int| 0 <= i < ports.len() && f(#[trigger] ports[i]) == Some(x);
        lemma_excepted(exceptions, ports[i].id);
        assert(exposes_data(ports[i]));
        let e = choose|e: int| #[trigger]
            excepted_by(exceptions, ports[i].id, e) && exceptions[e] == exception_for(
                exceptions,
                ports[i].id,
            )->0;
        assert(warned(exceptions[e], now, code));
    }
    if exists|i: int, e: int|
        0 <= i < ports.len() && exposes_data(#[trigger] ports[i]) && #[trigger] excepted_by(
            exceptions,
            ports[i].id,
            e,
        ) && exceptions[e].id == id && warned(exceptions[e], now, code) {
        let (i, e) = choose|i: int, e: int|
            0 <= i < ports.len() && exposes_data(#[trigger] ports[i]) && #[trigger] excepted_by(
                exceptions,
                ports[i].id,
                e,
            ) && exceptions[e].id == id && warned(exceptions[e], now, code);
        lemma_excepted(exceptions, ports[i].id);
        let x = f(ports[i])->0;
        law_chosen(ports, f, x);
        assert(f(ports[i]) == Some(x));
        assert(found.contains(x));
        assert(is_about(x, Severity::Warn, code, id));
    }
}

/// An active exception for a port that is not in the registry is warned of, and no
/// other exception is warned of like that.
pub proof fn law_stray_exceptions_are_reported(registry: RegistryView, now: i128, id: Seq<char>)
    ensures
        reports(
            doctor_report(registry, now).findings,
            Severity::Warn,
            "public_data_port_exception_missing_port"@,
            id,
        ) <==> {
            let ports = registry.ports.ports;
            let exceptions = registry.policies.public_data_port_exceptions;
            exists|e: int|
                0 <= e < exceptions.len() && (#[trigger] exceptions[e]).id == id
                    && exceptions[e].status == "active"@ && forall|i: int|
                    0 <= i < ports.len() ==> (#[trigger] ports[i]).id != exceptions[e].port_id
        },
{
    let ports = registry.ports.ports;
    let exceptions = registry.policies.public_data_port_exceptions;
    let code = "public_data_port_exception_missing_port"@;
    let f = stray_exception(registry);
    lemma_code_numbers();
    lemma_reported(registry, now, Severity::Warn, code, id);
    let found = chosen(exceptions, f);
    assert(checked(registry, now, source_of(code_number(code))) == found);
    if exists|x: FindingView| #[trigger]
        found.contains(x) && is_about(x, Severity::Warn, code, id) {
        let x = choose|x: FindingView| #[trigger]
            found.contains(x) && is_about(x, Severity::Warn, code, id);
        law_chosen(exceptions, f, x);
        let e = choose|e: int| 0 <= e < exceptions.len() && f(#[trigger] exceptions[e]) == Some(x);
        let p = |q: PortRecordView| q.id == exceptions[e].port_id;
        lemma_any(ports, p);
        assert(exceptions[e].id == id);
        assert forall|i: int| 0 <= i < ports.len() implies (#[trigger] ports[i]).id
            != exceptions[e].port_id by {
            assert(!p(ports[i]));
        }
    }
    if exists|e: int|
        0 <= e < exceptions.len() && (#[trigger] exceptions[e]).id == id && exceptions[e].status
            == "active"@ && forall|i: int|
            0 <= i < ports.len() ==> (#[trigger] ports[i]).id != exceptions[e].port_id {
        let e = choose|e: int|
            0 <= e < exceptions.len() && (#[trigger] exceptions[e]).id == id
                && exceptions[e].status == "active"@ && forall|i: int|
                0 <= i < ports.len() ==> (#[trigger] ports[i]).id != exceptions[e].port_id;
        let p = |q: PortRecordView| q.id == exceptions[e].port_id;
        lemma_any(ports, p);
        let x = f(exceptions[e])->0;
        law_chosen(exceptions, f, x);
        assert(f(exceptions[e]) == Some(x));
        assert(found.contains(x));
        assert(is_about(x, Severity::Warn, code, id));
    }
}

/// A production service that is to be saved before each deploy is warned of where no
/// snapshot is of it, and no other service is.
pub proof fn law_services_without_snapshot_are_reported(
    registry: RegistryView,
    now: i128,
    id: Seq<char>,
)
    ensures
        reports(
            doctor_report(registry, now).findings,
            Severity::Warn,
            "production_service_without_snapshot_record"@,
            id,
        ) <==> {
            let services = registry.services.services;
            let snapshots = registry.snapshots.snapshots;
            &&& exists|i: int|
                0 <= i < services.len() && (#[trigger] services[i]).id == id
                    && services[i].environment == "production"@ && services[i].backup_policy
                    == Some("before_deploy"@)
            &&& forall|k: int|
                0 <= k < snapshots.len() ==> !(#[trigger] snapshots[k]).service_ids.contains(id)
        },
{
    let services = registry.services.services;
    let snapshots = registry.snapshots.snapshots;
    let code = "production_service_without_snapshot_record"@;
    let f = unsaved(registry);
    lemma_code_numbers();
    lemma_reported(registry, now, Severity::Warn, code, id);
    assert(snapshot_findings(registry) == chosen(services, f));
    let found = chosen(services, f);
    assert(checked(registry, now, source_of(code_number(code))) == found);
    let p = |s: SnapshotRecordView| s.service_ids.contains(id);
    lemma_any(snapshots, p);
    assert(has_snapshot(snapshots, id) == any(snapshots, p));
    if exists|x: FindingView| #[trigger]
        found.contains(x) && is_about(x, Severity::Warn, code, id) {
        let x = choose|x: FindingView| #[trigger]
            found.contains(x) && is_about(x, Severity::Warn, code, id);
        law_chosen(services, f, x);
        let i = choose|i: int| 0 <= i < services.len() && f(#[trigger] services[i]) == Some(x);
        assert(services[i].id == id);
        assert forall|k: int| 0 <= k < snapshots.len() implies !(
        #[trigger] snapshots[k]).service_ids.contains(id) by {
            assert(!p(snapshots[k]));
        }
    }
    if (exists|i: int|
        0 <= i < services.len() && (#[trigger] services[i]).id == id && services[i].environment
            == "production"@ && services[i].backup_policy == Some("before_deploy"@)) && (forall|
        k: int,
    |
        0 <= k < snapshots.len() ==> !(#[trigger] snapshots[k]).service_ids.contains(id)) {
        let i = choose|i: int|
            0 <= i < services.len() && (#[trigger] services[i]).id == id && services[i].environment
                == "production"@ && services[i].backup_policy == Some("before_deploy"@);
        let x = f(services[i])->0;
        law_chosen(services, f, x);
        assert(f(services[i]) == Some(x));
        assert(found.contains(x));
        assert(is_about(x, Severity::Warn, code, id));
    }
}

/// Two of the texts are this one.
pub open spec fn occurs_twice(values: Seq<Seq<char>>, value: Seq<char>) -> bool {
    exists|i: int, j: int|
        0 <= i < j < values.len() && #[trigger] values[i] == value && #[trigger] values[j] == value
}

/// An id of a service, port, domain or volume, a host, or a name of a volume that
/// occurs twice is an error, and no other one is.
pub proof fn law_repeats_are_reported(registry: RegistryView, now: i128, value: Seq<char>)
    ensures
        ({
            let findings = doctor_report(registry, now).findings;
            &&& reports(findings, Severity::Error, "duplicate_service_id"@, value) <==> occurs_twice(
                registry.services.services.map_values(|s: ServiceView| s.id),
                value,
            )
            &&& reports(findings, Severity::Error, "duplicate_port_id"@, value) <==> occurs_twice(
                registry.ports.ports.map_values(|p: PortRecordView| p.id),
                value,
            )
            &&& reports(findings, Severity::Error, "duplicate_domain_id"@, value) <==> occurs_twice(
                registry.domains.domains.map_values(|d: DomainRecordView| d.id),
                value,
            )
            &&& reports(findings, Severity::Error, "duplicate_domain_host"@, value)
                <==> occurs_twice(
                registry.domains.domains.map_values(|d: DomainRecordView| d.host),
                value,
            )
            &&& reports(findings, Severity::Error, "duplicate_volume_id"@, value) <==> occurs_twice(
                registry.volumes.volumes.map_values(|v: VolumeRecordView| v.id),
                value,
            )
            &&& reports(findings, Severity::Error, "duplicate_volume_name"@, value)
                <==> occurs_twice(
                registry.volumes.volumes.map_values(|v: VolumeRecordView| v.name),
                value,
            )
        }),
{
    lemma_code_numbers();
    lemma_repeats(
        registry,
        now,
        registry.services.services.map_values(|s: ServiceView| s.id),
        "duplicate_service_id"@,
        "duplicate service id"@,
        value,
    );
    lemma_repeats(
        registry,
        now,
        registry.ports.ports.map_values(|p: PortRecordView| p.id),
        "duplicate_port_id"@,
        "duplicate port id"@,
        value,
    );
    lemma_repeats(
        registry,
        now,
        registry.domains.domains.map_values(|d: DomainRecordView| d.id),
        "duplicate_domain_id"@,
        "duplicate domain id"@,
        value,
    );
    lemma_repeats(
        registry,
        now,
        registry.domains.domains.map_values(|d: DomainRecordView| d.host),
        "duplicate_domain_host"@,
        "duplicate domain host"@,
        value,
    );
    lemma_repeats(
        registry,
        now,
        registry.volumes.volumes.map_values(|v: VolumeRecordView| v.id),
        "duplicate_volume_id"@,
        "duplicate volume id"@,
        value,
    );
    lemma_repeats(
        registry,
        now,
        registry.volumes.volumes.map_values(|v: VolumeRecordView| v.name),
        "duplicate_volume_name"@,
        "duplicate volume name"@,
        value,
    );
}

proof fn lemma_repeats(
    registry: RegistryView,
    now: i128,
    values: Seq<Seq<char>>,
    code: Seq<char>,
    message: Seq<char>,
    value: Seq<char>,
)
    requires
        0 <= code_number(code) < 7,
        checked(registry, now, code_number(code)) == duplicates(values, code, message),
    ensures
        reports(doctor_report(registry, now).findings, Severity::Error, code, value)
            <==> occurs_twice(values, value),
{
    lemma_reported(registry, now, Severity::Error, code, value);
    let found = duplicates(values, code, message);
    assert(source_of(code_number(code)) == code_number(code));
    if exists|x: FindingView| #[trigger]
        found.contains(x) && is_about(x, Severity::Error, code, value) {
        let x = choose|x: FindingView| #[trigger]
            found.contains(x) && is_about(x, Severity::Error, code, value);
        lemma_duplicate_codes(values, code, message, x);
        let (i, j) = choose|i: int, j: int|
            0 <= i < j < values.len() && #[trigger] values[i] == #[trigger] values[j] && x.target
                == Some(values[j]) && x.message == message + ": "@ + values[j];
        assert(values[i] == value && values[j] == value);
    }
    if occurs_twice(values, value) {
        let (i, j) = choose|i: int, j: int|
            0 <= i < j < values.len() && #[trigger] values[i] == value && #[trigger] values[j]
                == value;
        let x = finding(Severity::Error, code, message + ": "@ + value, value);
        assert(values[i] == values[j]);
        lemma_duplicate_codes(values, code, message, x);
        assert(x.target == Some(values[j]) && x.message == message + ": "@ + values[j]);
        assert(found.contains(x));
        assert(is_about(x, Severity::Error, code, value));
    }
}

/// A port that listens where an earlier one does is an error, and no other port is one
/// like that.
pub proof fn law_clashing_ports_are_reported(registry: RegistryView, now: i128, id: Seq<char>)
    ensures
        reports(
            doctor_report(registry, now).findings,
            Severity::Error,
            "duplicate_port_binding"@,
            id,
        ) <==> {
            let ports = registry.ports.ports;
            exists|i: int, j: int|
                0 <= i < j < ports.len() && (#[trigger] ports[j]).id == id && (
                #[trigger] ports[i]).protocol == ports[j].protocol && ports[i].bind == ports[j].bind
                    && ports[i].port == ports[j].port
        },
{
    lemma_code_numbers();
    let code = "duplicate_port_binding"@;
    let ports = registry.ports.ports;
    lemma_reported(registry, now, Severity::Error, code, id);
    lemma_clashes(ports, id);
    let found = binding_clashes(ports);
    assert(checked(registry, now, source_of(code_number(code))) == found);
    if reports(found, Severity::Error, code, id) {
        let k = choose|k: int|
            0 <= k < found.len() && (#[trigger] found[k]).severity == Severity::Error
                && found[k].code == code && found[k].target == Some(id);
        assert(found.contains(found[k]));
        assert(is_about(found[k], Severity::Error, code, id));
    }
    if exists|x: FindingView| #[trigger]
        found.contains(x) && is_about(x, Severity::Error, code, id) {
        let x = choose|x: FindingView| #[trigger]
            found.contains(x) && is_about(x, Severity::Error, code, id);
        lemma_reports(found, x);
    }
}

proof fn lemma_clashes(ports: Seq<PortRecordView>, id: Seq<char>)
    ensures
        reports(binding_clashes(ports), Severity::Error, "duplicate_port_binding"@, id)
            <==> exists|i: int, j: int|
            0 <= i < j < ports.len() && (#[trigger] ports[j]).id == id && (
            #[trigger] ports[i]).protocol == ports[j].protocol && ports[i].bind == ports[j].bind
                && ports[i].port == ports[j].port,
    decreases ports.len(),
{
    let code = "duplicate_port_binding"@;
    if ports.len() > 0 {
        let d = ports.drop_last();
        let last = ports.len() - 1;
        let p = ports.last();
        let q = |e: PortRecordView| same_binding(e, p);
        lemma_clashes(d, id);
        law_last_where(d, q);
        let before = binding_clashes(d);
        let all = binding_clashes(ports);
        assert(ports[last] == p);
        assert forall|i: int| 0 <= i < d.len() implies #[trigger] d[i] == ports[i] by {}
        assert forall|k: int| 0 <= k < before.len() implies #[trigger] all[k] == before[k] by {}
        if reports(before, Severity::Error, code, id) {
            let k = choose|k: int|
                0 <= k < before.len() && (#[trigger] before[k]).severity == Severity::Error
                    && before[k].code == code && before[k].target == Some(id);
            assert(all[k].code == code);
            let (i, j) = choose|i: int, j: int|
                0 <= i < j < d.len() && (#[trigger] d[j]).id == id && (#[trigger] d[i]).protocol
                    == d[j].protocol && d[i].bind == d[j].bind && d[i].port == d[j].port;
            assert(ports[j].id == id && ports[i].protocol == ports[j].protocol);
        }
        if last_where(d, q) is Some {
            let i = choose|i: int|
                0 <= i < d.len() && #[trigger] d[i] == last_where(d, q)->0 && q(d[i]) && forall|
                    j: int,
                |
                    i < j < d.len() ==> !q(#[trigger] d[j]);
            assert(same_binding(ports[i], ports[last]));
            assert(all[before.len() as int].target == Some(p.id));
            assert(all[before.len() as int].code == code);
            assert(ports[i].protocol == ports[last].protocol);
        }
        if reports(all, Severity::Error, code, id) {
            let k = choose|k: int|
                0 <= k < all.len() && (#[trigger] all[k]).severity == Severity::Error
                    && all[k].code == code && all[k].target == Some(id);
            if k < before.len() {
                assert(before[k].code == code);
            } else {
                assert(ports[last].id == id);
            }
        }
        if exists|i: int, j: int|
            0 <= i < j < ports.len() && (#[trigger] ports[j]).id == id && (
            #[trigger] ports[i]).protocol == ports[j].protocol && ports[i].bind == ports[j].bind
                && ports[i].port == ports[j].port {
            let (i, j) = choose|i: int, j: int|
                0 <= i < j < ports.len() && (#[trigger] ports[j]).id == id && (
                #[trigger] ports[i]).protocol == ports[j].protocol && ports[i].bind == ports[j].bind
                    && ports[i].port == ports[j].port;
            if j < last {
                assert(d[j].id == id && d[i].protocol == d[j].protocol);
                assert(reports(before, Severity::Error, code, id));
            } else {
                assert(q(d[i]));
            }
        }
    }
}

/// A port, domain or volume that names a service which is not in the registry is an
/// error, and no other one is.
pub proof fn law_lost_records_are_reported(registry: RegistryView, now: i128, id: Seq<char>)
    ensures
        ({
            let findings = doctor_report(registry, now).findings;
            let services = registry.services.services;
            let ports = registry.ports.ports;
            let domains = registry.domains.domains;
            let volumes = registry.volumes.volumes;
            &&& reports(findings, Severity::Error, "port_missing_service"@, id) <==> exists|i: int|
                0 <= i < ports.len() && (#[trigger] ports[i]).id == id && is_absent(
                    services,
                    ports[i].service_id,
                )
            &&& reports(findings, Severity::Error, "domain_missing_service"@, id) <==> exists|
                i: int,
            |
                0 <= i < domains.len() && (#[trigger] domains[i]).id == id && is_absent(
                    services,
                    domains[i].service_id,
                )
            &&& reports(findings, Severity::Error, "volume_missing_service"@, id) <==> exists|
                i: int,
            |
                0 <= i < volumes.len() && (#[trigger] volumes[i]).id == id && is_absent(
                    services,
                    volumes[i].service_id,
                )
        }),
{
    let services = registry.services.services;
    let ports = registry.ports.ports;
    let domains = registry.domains.domains;
    let volumes = registry.volumes.volumes;
    lemma_code_numbers();
    assert forall|s: Seq<char>| #[trigger] service_known(services, s) == !is_absent(
        services,
        s,
    ) by {
        lemma_known(services, s);
    }
    lemma_chosen_reported(registry, now, ports, lost_port(services), "port_missing_service"@, id);
    lemma_chosen_reported(
        registry,
        now,
        domains,
        lost_domain(services),
        "domain_missing_service"@,
        id,
    );
    lemma_chosen_reported(
        registry,
        now,
        volumes,
        lost_volume(services),
        "volume_missing_service"@,
        id,
    );
    let findings = doctor_report(registry, now).findings;
    if exists|i: int|
        0 <= i < ports.len() && (#[trigger] ports[i]).id == id && is_absent(
            services,
            ports[i].service_id,
        ) {
        let i = choose|i: int|
            0 <= i < ports.len() && (#[trigger] ports[i]).id == id && is_absent(
                services,
                ports[i].service_id,
            );
        assert(!service_known(services, ports[i].service_id));
        assert(lost_port(services)(ports[i]) is Some);
    }
    if exists|i: int|
        0 <= i < domains.len() && (#[trigger] domains[i]).id == id && is_absent(
            services,
            domains[i].service_id,
        ) {
        let i = choose|i: int|
            0 <= i < domains.len() && (#[trigger] domains[i]).id == id && is_absent(
                services,
                domains[i].service_id,
            );
        assert(!service_known(services, domains[i].service_id));
        assert(lost_domain(services)(domains[i]) is Some);
    }
    if exists|i: int|
        0 <= i < volumes.len() && (#[trigger] volumes[i]).id == id && is_absent(
            services,
            volumes[i].service_id,
        ) {
        let i = choose|i: int|
            0 <= i < volumes.len() && (#[trigger] volumes[i]).id == id && is_absent(
                services,
                volumes[i].service_id,
            );
        assert(!service_known(services, volumes[i].service_id));
        assert(lost_volume(services)(volumes[i]) is Some);
    }
}

/// No service has this id.
pub open spec fn is_absent(services: Seq<ServiceView>, id: Seq<char>) -> bool {
    forall|k: int| 0 <= k < services.len() ==> (#[trigger] services[k]).id != id
}

proof fn lemma_known(services: Seq<ServiceView>, id: Seq<char>)
    ensures
        service_known(services, id) == !is_absent(services, id),
{
    let p = |s: ServiceView| s.id == id;
    lemma_any(services, p);
    if !is_absent(services, id) {
        let k = choose|k: int| 0 <= k < services.len() && (#[trigger] services[k]).id == id;
        assert(p(services[k]));
    }
}

proof fn lemma_chosen_reported<A>(
    registry: RegistryView,
    now: i128,
    s: Seq<A>,
    f: spec_fn(A) -> Option<FindingView>,
    code: Seq<char>,
    id: Seq<char>,
)
    requires
        0 <= code_number(code) < 21,
        checked(registry, now, source_of(code_number(code))) == chosen(s, f),
    ensures
        reports(doctor_report(registry, now).findings, Severity::Error, code, id) <==> exists|
            i: int,
        |
            0 <= i < s.len() && f(#[trigger] s[i]) is Some && is_about(
                f(s[i])->0,
                Severity::Error,
                code,
                id,
            ),
{
    lemma_reported(registry, now, Severity::Error, code, id);
    let found = chosen(s, f);
    if exists|x: FindingView| #[trigger]
        found.contains(x) && is_about(x, Severity::Error, code, id) {
        let x = choose|x: FindingView| #[trigger]
            found.contains(x) && is_about(x, Severity::Error, code, id);
        law_chosen(s, f, x);
        let i = choose|i: int| 0 <= i < s.len() && f(#[trigger] s[i]) == Some(x);
        assert(is_about(f(s[i])->0, Severity::Error, code, id));
    }
    if exists|i: int|
        0 <= i < s.len() && f(#[trigger] s[i]) is Some && is_about(
            f(s[i])->0,
            Severity::Error,
            code,
            id,
        ) {
        let i = choose|i: int|
            0 <= i < s.len() && f(#[trigger] s[i]) is Some && is_about(
                f(s[i])->0,
                Severity::Error,
                code,
                id,
            );
        law_chosen(s, f, f(s[i])->0);
        assert(f(s[i]) == Some(f(s[i])->0));
    }
}

/// A service whose deployment has something wrong with it is an error: a build adapter
/// that is not npm, pnpm or bun, an unsafe script, a migration that is blank or longer
/// than 256 bytes, an unsafe unit, an action that is neither reload nor restart, or a
/// site with a path that is not absolute or with an unsafe id. No other service is one
/// like that.
pub proof fn law_bad_contracts_are_reported(registry: RegistryView, now: i128, id: Seq<char>)
    ensures
        ({
            let findings = doctor_report(registry, now).findings;
            let services = registry.services.services;
            &&& reports(
                findings,
                Severity::Error,
                "deployment_contract_unsupported_build_adapter"@,
                id,
            ) <==> exists|s: int, b: int|
                #![trigger services[s].deployment->0.build[b]]
                0 <= s < services.len() && services[s].id == id && services[s].deployment is Some
                    && 0 <= b < services[s].deployment->0.build.len() && {
                    let adapter = services[s].deployment->0.build[b].adapter;
                    adapter != "npm"@ && adapter != "pnpm"@ && adapter != "bun"@
                }
            &&& reports(
                findings,
                Severity::Error,
                "deployment_contract_unsafe_build_script"@,
                id,
            ) <==> exists|s: int, b: int, k: int|
                #![trigger services[s].deployment->0.build[b].scripts[k]]
                0 <= s < services.len() && services[s].id == id && services[s].deployment is Some
                    && 0 <= b < services[s].deployment->0.build.len() && 0 <= k
                    < services[s].deployment->0.build[b].scripts.len() && !script_is_safe(
                    services[s].deployment->0.build[b].scripts[k],
                )
            &&& reports(findings, Severity::Error, "deployment_contract_unsafe_migration"@, id)
                <==> exists|s: int, m: int|
                #![trigger services[s].deployment->0.migrations[m]]
                0 <= s < services.len() && services[s].id == id && services[s].deployment is Some
                    && 0 <= m < services[s].deployment->0.migrations.len() && {
                    let command = services[s].deployment->0.migrations[m];
                    trimmed(command).len() == 0 || byte_len(command) > 256
                }
            &&& reports(findings, Severity::Error, "deployment_contract_unsafe_systemd_unit"@, id)
                <==> exists|s: int, u: int|
                #![trigger services[s].deployment->0.systemd[u]]
                0 <= s < services.len() && services[s].id == id && services[s].deployment is Some
                    && 0 <= u < services[s].deployment->0.systemd.len() && !unit_is_safe(
                    services[s].deployment->0.systemd[u].unit,
                )
            &&& reports(
                findings,
                Severity::Error,
                "deployment_contract_unsupported_systemd_action"@,
                id,
            ) <==> exists|s: int, u: int, k: int|
                #![trigger services[s].deployment->0.systemd[u].actions[k]]
                0 <= s < services.len() && services[s].id == id && services[s].deployment is Some
                    && 0 <= u < services[s].deployment->0.systemd.len() && 0 <= k
                    < services[s].deployment->0.systemd[u].actions.len()
                    && services[s].deployment->0.systemd[u].actions[k] != "reload"@
                    && services[s].deployment->0.systemd[u].actions[k] != "restart"@
            &&& reports(findings, Severity::Error, "deployment_contract_unsafe_static_site"@, id)
                <==> exists|s: int, k: int|
                #![trigger services[s].deployment->0.static_sites[k]]
                0 <= s < services.len() && services[s].id == id && services[s].deployment is Some
                    && 0 <= k < services[s].deployment->0.static_sites.len() && {
                    let site = services[s].deployment->0.static_sites[k];
                    !is_absolute_spec(site.source) || !is_absolute_spec(site.destination)
                        || !deployment_is_safe(site.deployment_id)
                }
        }),
{
    lemma_bad_builds(registry, now, id);
    lemma_bad_units(registry, now, id);
    lemma_bad_rest(registry, now, id);
}

/// A contract's finding under a code.
proof fn lemma_contract_reported(registry: RegistryView, now: i128, code: Seq<char>, id: Seq<char>)
    requires
        10 <= code_number(code) < 16,
    ensures
        reports(doctor_report(registry, now).findings, Severity::Error, code, id) <==> exists|
            s: int,
            x: FindingView,
        |
            0 <= s < registry.services.services.len() && #[trigger] contract_cause(
                registry.services.services[s],
                x,
            ) && is_about(x, Severity::Error, code, id),
{
    let services = registry.services.services;
    lemma_reported(registry, now, Severity::Error, code, id);
    let f = |s: ServiceView| contract_findings(s);
    let found = gathered(services, f);
    assert(all_contract_findings(registry) == found);
    assert(checked(registry, now, source_of(code_number(code))) == found);
    if exists|x: FindingView| #[trigger]
        found.contains(x) && is_about(x, Severity::Error, code, id) {
        let x = choose|x: FindingView| #[trigger]
            found.contains(x) && is_about(x, Severity::Error, code, id);
        law_gathered(services, f, x);
        let s = choose|s: int| 0 <= s < services.len() && f(#[trigger] services[s]).contains(x);
        lemma_contract_cause(services[s], x);
        assert(contract_cause(services[s], x));
    }
    if exists|s: int, x: FindingView|
        0 <= s < services.len() && #[trigger] contract_cause(services[s], x) && is_about(
            x,
            Severity::Error,
            code,
            id,
        ) {
        let (s, x) = choose|s: int, x: FindingView|
            0 <= s < services.len() && #[trigger] contract_cause(services[s], x) && is_about(
                x,
                Severity::Error,
                code,
                id,
            );
        lemma_contract_cause(services[s], x);
        law_gathered(services, f, x);
        assert(f(services[s]).contains(x));
        assert(found.contains(x));
    }
}

/// What a finding of a contract with a code number means.
proof fn lemma_cause_by_code(service: ServiceView, x: FindingView)
    requires
        contract_cause(service, x),
    ensures
        service.deployment is Some,
        x.target == Some(service.id),
        ({
            let contract = service.deployment->0;
            &&& x.code == "deployment_contract_unsupported_build_adapter"@ ==> exists|b: int|
                0 <= b < contract.build.len() && {
                    let adapter = (#[trigger] contract.build[b]).adapter;
                    adapter != "npm"@ && adapter != "pnpm"@ && adapter != "bun"@
                }
            &&& x.code == "deployment_contract_unsafe_build_script"@ ==> exists|b: int, k: int|
                0 <= b < contract.build.len() && 0 <= k < contract.build[b].scripts.len()
                    && !script_is_safe(#[trigger] contract.build[b].scripts[k])
            &&& x.code == "deployment_contract_unsafe_migration"@ ==> exists|m: int|
                0 <= m < contract.migrations.len() && (trimmed(
                    #[trigger] contract.migrations[m],
                ).len() == 0 || byte_len(contract.migrations[m]) > 256)
            &&& x.code == "deployment_contract_unsafe_systemd_unit"@ ==> exists|u: int|
                0 <= u < contract.systemd.len() && !unit_is_safe(
                    (#[trigger] contract.systemd[u]).unit,
                )
            &&& x.code == "deployment_contract_unsupported_systemd_action"@ ==> exists|
                u: int,
                k: int,
            |
                0 <= u < contract.systemd.len() && 0 <= k < contract.systemd[u].actions.len()
                    && #[trigger] contract.systemd[u].actions[k] != "reload"@
                    && contract.systemd[u].actions[k] != "restart"@
            &&& x.code == "deployment_contract_unsafe_static_site"@ ==> exists|k: int|
                0 <= k < contract.static_sites.len() && {
                    let site = #[trigger] contract.static_sites[k];
                    !is_absolute_spec(site.source) || !is_absolute_spec(site.destination)
                        || !deployment_is_safe(site.deployment_id)
                }
        }),
{
    lemma_code_numbers();
    let contract = service.deployment->0;
    if exists|i: int|
        0 <= i < contract.build.len() && build_findings(
            service.id,
            #[trigger] contract.build[i],
        ).contains(x) {
        let i = choose|i: int|
            0 <= i < contract.build.len() && build_findings(
                service.id,
                #[trigger] contract.build[i],
            ).contains(x);
        lemma_build_findings(service.id, contract.build[i], x);
        if x.code == "deployment_contract_unsafe_build_script"@ {
            let build = contract.build[i];
            let k = choose|k: int|
                0 <= k < build.scripts.len() && !script_is_safe(#[trigger] build.scripts[k])
                    && x.message == "unsafe build script name "@ + build.scripts[k];
            assert(!script_is_safe(contract.build[i].scripts[k]));
        }
    } else if exists|i: int|
        0 <= i < contract.systemd.len() && unit_findings(
            service.id,
            #[trigger] contract.systemd[i],
        ).contains(x) {
        let i = choose|i: int|
            0 <= i < contract.systemd.len() && unit_findings(
                service.id,
                #[trigger] contract.systemd[i],
            ).contains(x);
        lemma_unit_findings(service.id, contract.systemd[i], x);
        if x.code == "deployment_contract_unsupported_systemd_action"@ {
            let unit = contract.systemd[i];
            let k = choose|k: int|
                0 <= k < unit.actions.len() && #[trigger] unit.actions[k] != "reload"@
                    && unit.actions[k] != "restart"@ && x.message == "unsupported systemd action "@
                    + unit.actions[k];
            assert(contract.systemd[i].actions[k] != "reload"@);
        }
    }
}

#[verifier::spinoff_prover]
proof fn lemma_bad_builds(registry: RegistryView, now: i128, id: Seq<char>)
    ensures
        ({
            let findings = doctor_report(registry, now).findings;
            let services = registry.services.services;
            &&& reports(
                findings,
                Severity::Error,
                "deployment_contract_unsupported_build_adapter"@,
                id,
            ) <==> exists|s: int, b: int|
                #![trigger services[s].deployment->0.build[b]]
                0 <= s < services.len() && services[s].id == id && services[s].deployment is Some
                    && 0 <= b < services[s].deployment->0.build.len() && {
                    let adapter = services[s].deployment->0.build[b].adapter;
                    adapter != "npm"@ && adapter != "pnpm"@ && adapter != "bun"@
                }
            &&& reports(
                findings,
                Severity::Error,
                "deployment_contract_unsafe_build_script"@,
                id,
            ) <==> exists|s: int, b: int, k: int|
                #![trigger services[s].deployment->0.build[b].scripts[k]]
                0 <= s < services.len() && services[s].id == id && services[s].deployment is Some
                    && 0 <= b < services[s].deployment->0.build.len() && 0 <= k
                    < services[s].deployment->0.build[b].scripts.len() && !script_is_safe(
                    services[s].deployment->0.build[b].scripts[k],
                )
        }),
{
    let services = registry.services.services;
    lemma_code_numbers();
    let ca = "deployment_contract_unsupported_build_adapter"@;
    let cs = "deployment_contract_unsafe_build_script"@;
    lemma_contract_reported(registry, now, ca, id);
    lemma_contract_reported(registry, now, cs, id);
    assert forall|s: int, x: FindingView|
        0 <= s < services.len() && #[trigger] contract_cause(services[s], x) implies x.target
        == Some(services[s].id) && services[s].deployment is Some && (x.code == ca ==> exists|b: int|
        0 <= b < services[s].deployment->0.build.len() && {
            let adapter = (#[trigger] services[s].deployment->0.build[b]).adapter;
            adapter != "npm"@ && adapter != "pnpm"@ && adapter != "bun"@
        }) && (x.code == cs ==> exists|b: int, k: int|
        0 <= b < services[s].deployment->0.build.len() && 0 <= k
            < services[s].deployment->0.build[b].scripts.len() && !script_is_safe(
            #[trigger] services[s].deployment->0.build[b].scripts[k],
        )) by {
        lemma_cause_by_code(services[s], x);
    }
    assert forall|s: int, b: int|
        #![trigger services[s].deployment->0.build[b]]
        0 <= s < services.len() && services[s].id == id && services[s].deployment is Some && 0 <= b
            < services[s].deployment->0.build.len() && {
            let adapter = services[s].deployment->0.build[b].adapter;
            adapter != "npm"@ && adapter != "pnpm"@ && adapter != "bun"@
        } implies exists|x: FindingView| #[trigger]
        contract_cause(services[s], x) && is_about(x, Severity::Error, ca, id) by {
        let build = services[s].deployment->0.build[b];
        let x = finding(Severity::Error, ca, "unsupported build adapter "@ + build.adapter, id);
        lemma_build_findings(id, build, x);
        assert(contract_cause(services[s], x));
        assert(is_about(x, Severity::Error, ca, id));
    }
    assert forall|s: int, b: int, k: int|
        #![trigger services[s].deployment->0.build[b].scripts[k]]
        0 <= s < services.len() && services[s].id == id && services[s].deployment is Some && 0 <= b
            < services[s].deployment->0.build.len() && 0 <= k
            < services[s].deployment->0.build[b].scripts.len() && !script_is_safe(
            services[s].deployment->0.build[b].scripts[k],
        ) implies exists|x: FindingView| #[trigger]
        contract_cause(services[s], x) && is_about(x, Severity::Error, cs, id) by {
        let build = services[s].deployment->0.build[b];
        let x = finding(
            Severity::Error,
            cs,
            "unsafe build script name "@ + build.scripts[k],
            id,
        );
        lemma_build_findings(id, build, x);
        assert(contract_cause(services[s], x));
        assert(is_about(x, Severity::Error, cs, id));
    }
}

#[verifier::spinoff_prover]
proof fn lemma_bad_units(registry: RegistryView, now: i128, id: Seq<char>)
    ensures
        ({
            let findings = doctor_report(registry, now).findings;
            let services = registry.services.services;
            &&& reports(findings, Severity::Error, "deployment_contract_unsafe_systemd_unit"@, id)
                <==> exists|s: int, u: int|
                #![trigger services[s].deployment->0.systemd[u]]
                0 <= s < services.len() && services[s].id == id && services[s].deployment is Some
                    && 0 <= u < services[s].deployment->0.systemd.len() && !unit_is_safe(
                    services[s].deployment->0.systemd[u].unit,
                )
            &&& reports(
                findings,
                Severity::Error,
                "deployment_contract_unsupported_systemd_action"@,
                id,
            ) <==> exists|s: int, u: int, k: int|
                #![trigger services[s].deployment->0.systemd[u].actions[k]]
                0 <= s < services.len() && services[s].id == id && services[s].deployment is Some
                    && 0 <= u < services[s].deployment->0.systemd.len() && 0 <= k
                    < services[s].deployment->0.systemd[u].actions.len()
                    && services[s].deployment->0.systemd[u].actions[k] != "reload"@
                    && services[s].deployment->0.systemd[u].actions[k] != "restart"@
        }),
{
    let services = registry.services.services;
    lemma_code_numbers();
    let cu = "deployment_contract_unsafe_systemd_unit"@;
    let ca = "deployment_contract_unsupported_systemd_action"@;
    lemma_contract_reported(registry, now, cu, id);
    lemma_contract_reported(registry, now, ca, id);
    assert forall|s: int, x: FindingView|
        0 <= s < services.len() && #[trigger] contract_cause(services[s], x) implies x.target
        == Some(services[s].id) && services[s].deployment is Some && (x.code == cu ==> exists|u: int|
        0 <= u < services[s].deployment->0.systemd.len() && !unit_is_safe(
            (#[trigger] services[s].deployment->0.systemd[u]).unit,
        )) && (x.code == ca ==> exists|u: int, k: int|
        0 <= u < services[s].deployment->0.systemd.len() && 0 <= k
            < services[s].deployment->0.systemd[u].actions.len()
            && #[trigger] services[s].deployment->0.systemd[u].actions[k] != "reload"@
            && services[s].deployment->0.systemd[u].actions[k] != "restart"@) by {
        lemma_cause_by_code(services[s], x);
    }
    assert forall|s: int, u: int|
        #![trigger services[s].deployment->0.systemd[u]]
        0 <= s < services.len() && services[s].id == id && services[s].deployment is Some && 0 <= u
            < services[s].deployment->0.systemd.len() && !unit_is_safe(
            services[s].deployment->0.systemd[u].unit,
        ) implies exists|x: FindingView| #[trigger]
        contract_cause(services[s], x) && is_about(x, Severity::Error, cu, id) by {
        let unit = services[s].deployment->0.systemd[u];
        let x = finding(Severity::Error, cu, "unsafe systemd unit "@ + unit.unit, id);
        lemma_unit_findings(id, unit, x);
        assert(contract_cause(services[s], x));
        assert(is_about(x, Severity::Error, cu, id));
    }
    assert forall|s: int, u: int, k: int|
        #![trigger services[s].deployment->0.systemd[u].actions[k]]
        0 <= s < services.len() && services[s].id == id && services[s].deployment is Some && 0 <= u
            < services[s].deployment->0.systemd.len() && 0 <= k
            < services[s].deployment->0.systemd[u].actions.len()
            && services[s].deployment->0.systemd[u].actions[k] != "reload"@
            && services[s].deployment->0.systemd[u].actions[k] != "restart"@ implies exists|
        x: FindingView,
    | #[trigger] contract_cause(services[s], x) && is_about(x, Severity::Error, ca, id) by {
        let unit = services[s].deployment->0.systemd[u];
        let x = finding(
            Severity::Error,
            ca,
            "unsupported systemd action "@ + unit.actions[k],
            id,
        );
        lemma_unit_findings(id, unit, x);
        assert(contract_cause(services[s], x));
        assert(is_about(x, Severity::Error, ca, id));
    }
}

#[verifier::spinoff_prover]
proof fn lemma_bad_rest(registry: RegistryView, now: i128, id: Seq<char>)
    ensures
        ({
            let findings = doctor_report(registry, now).findings;
            let services = registry.services.services;
            &&& reports(findings, Severity::Error, "deployment_contract_unsafe_migration"@, id)
                <==> exists|s: int, m: int|
                #![trigger services[s].deployment->0.migrations[m]]
                0 <= s < services.len() && services[s].id == id && services[s].deployment is Some
                    && 0 <= m < services[s].deployment->0.migrations.len() && {
                    let command = services[s].deployment->0.migrations[m];
                    trimmed(command).len() == 0 || byte_len(command) > 256
                }
            &&& reports(findings, Severity::Error, "deployment_contract_unsafe_static_site"@, id)
                <==> exists|s: int, k: int|
                #![trigger services[s].deployment->0.static_sites[k]]
                0 <= s < services.len() && services[s].id == id && services[s].deployment is Some
                    && 0 <= k < services[s].deployment->0.static_sites.len() && {
                    let site = services[s].deployment->0.static_sites[k];
                    !is_absolute_spec(site.source) || !is_absolute_spec(site.destination)
                        || !deployment_is_safe(site.deployment_id)
                }
        }),
{
    let services = registry.services.services;
    lemma_code_numbers();
    let cm = "deployment_contract_unsafe_migration"@;
    let cs = "deployment_contract_unsafe_static_site"@;
    lemma_contract_reported(registry, now, cm, id);
    lemma_contract_reported(registry, now, cs, id);
    assert forall|s: int, x: FindingView|
        0 <= s < services.len() && #[trigger] contract_cause(services[s], x) implies x.target
        == Some(services[s].id) && services[s].deployment is Some && (x.code == cm ==> exists|m: int|
        0 <= m < services[s].deployment->0.migrations.len() && (trimmed(
            #[trigger] services[s].deployment->0.migrations[m],
        ).len() == 0 || byte_len(services[s].deployment->0.migrations[m]) > 256)) && (x.code == cs
        ==> exists|k: int|
        0 <= k < services[s].deployment->0.static_sites.len() && {
            let site = #[trigger] services[s].deployment->0.static_sites[k];
            !is_absolute_spec(site.source) || !is_absolute_spec(site.destination)
                || !deployment_is_safe(site.deployment_id)
        }) by {
        lemma_cause_by_code(services[s], x);
    }
    assert forall|s: int, m: int|
        #![trigger services[s].deployment->0.migrations[m]]
        0 <= s < services.len() && services[s].id == id && services[s].deployment is Some && 0 <= m
            < services[s].deployment->0.migrations.len() && {
            let command = services[s].deployment->0.migrations[m];
            trimmed(command).len() == 0 || byte_len(command) > 256
        } implies exists|x: FindingView| #[trigger]
        contract_cause(services[s], x) && is_about(x, Severity::Error, cm, id) by {
        let x = migration_finding(id, services[s].deployment->0.migrations[m])->0;
        assert(contract_cause(services[s], x));
        assert(is_about(x, Severity::Error, cm, id));
    }
    assert forall|s: int, k: int|
        #![trigger services[s].deployment->0.static_sites[k]]
        0 <= s < services.len() && services[s].id == id && services[s].deployment is Some && 0 <= k
            < services[s].deployment->0.static_sites.len() && {
            let site = services[s].deployment->0.static_sites[k];
            !is_absolute_spec(site.source) || !is_absolute_spec(site.destination)
                || !deployment_is_safe(site.deployment_id)
        } implies exists|x: FindingView| #[trigger]
        contract_cause(services[s], x) && is_about(x, Severity::Error, cs, id) by {
        let x = site_finding(id, services[s].deployment->0.static_sites[k])->0;
        assert(contract_cause(services[s], x));
        assert(is_about(x, Severity::Error, cs, id));
    }
}

/// A name of a build script is one to 64 bytes of ASCII letters, digits, colons,
/// hyphens and underscores; that of a unit is one to 128 bytes of them without colons,
/// with dots and at signs, and ends in `.service`; that of a deployment is one to 64
/// bytes of letters, digits, hyphens and underscores.
pub proof fn law_safe_names(name: Seq<char>)
    ensures
        script_is_safe(name) <==> 0 < name.len() && byte_len(name) <= 64 && forall|i: int|
            0 <= i < name.len() ==> 'a' <= #[trigger] name[i] <= 'z' || 'A' <= name[i] <= 'Z'
                || '0' <= name[i] <= '9' || name[i] == ':' || name[i] == '-' || name[i] == '_',
        unit_is_safe(name) <==> 0 < name.len() && byte_len(name) <= 128 && finishes(
            name,
            ".service"@,
        ) && forall|i: int|
            0 <= i < name.len() ==> 'a' <= #[trigger] name[i] <= 'z' || 'A' <= name[i] <= 'Z'
                || '0' <= name[i] <= '9' || name[i] == '.' || name[i] == '@' || name[i] == '-'
                || name[i] == '_',
        deployment_is_safe(name) <==> 0 < name.len() && byte_len(name) <= 64 && forall|i: int|
            0 <= i < name.len() ==> 'a' <= #[trigger] name[i] <= 'z' || 'A' <= name[i] <= 'Z'
                || '0' <= name[i] <= '9' || name[i] == '-' || name[i] == '_',
{
    reveal_strlit(":-_");
    reveal_strlit(".@-_");
    reveal_strlit("-_");
    assert forall|c: char| #[trigger] ":-_"@.contains(c) <==> c == ':' || c == '-' || c == '_' by {
        assert(":-_"@[0] == ':' && ":-_"@[1] == '-' && ":-_"@[2] == '_');
    }
    assert forall|c: char| #[trigger] ".@-_"@.contains(c) <==> c == '.' || c == '@' || c == '-' || c
        == '_' by {
        assert(".@-_"@[0] == '.' && ".@-_"@[1] == '@' && ".@-_"@[2] == '-' && ".@-_"@[3] == '_');
    }
    assert forall|c: char| #[trigger] "-_"@.contains(c) <==> c == '-' || c == '_' by {
        assert("-_"@[0] == '-' && "-_"@[1] == '_');
    }
    lemma_made_of(name, ":-_"@);
    lemma_made_of(name, ".@-_"@);
    lemma_made_of(name, "-_"@);
    if name.len() > 0 && forall|i: int|
        0 <= i < name.len() ==> 'a' <= #[trigger] name[i] <= 'z' || 'A' <= name[i] <= 'Z' || '0'
            <= name[i] <= '9' || name[i] == ':' || name[i] == '-' || name[i] == '_' {
        assert(!is_white(name[0]));
        assert(!is_white(name[name.len() - 1]));
        lemma_trimmed(name, white_space(), 0, name.len() as int);
        assert(name.subrange(0, name.len() as int) =~= name);
    }
}

proof fn lemma_made_of(name: Seq<char>, others: Seq<char>)
    ensures
        made_of(name, others) <==> forall|i: int|
            0 <= i < name.len() ==> 'a' <= #[trigger] name[i] <= 'z' || 'A' <= name[i] <= 'Z'
                || '0' <= name[i] <= '9' || others.contains(name[i]),
{
    if made_of(name, others) {
        assert forall|i: int| 0 <= i < name.len() implies 'a' <= #[trigger] name[i] <= 'z' || 'A'
            <= name[i] <= 'Z' || '0' <= name[i] <= '9' || others.contains(name[i]) by {
            assert(is_alnum(name[i]) || others.contains(name[i]));
        }
    }
}

/// A registry is fine exactly where nothing that is found is an error.
pub proof fn law_errors_decide(registry: RegistryView, now: i128)
    ensures
        ({
            let report = doctor_report(registry, now);
            report.ok <==> forall|k: int|
                0 <= k < report.findings.len() ==> (#[trigger] report.findings[k]).severity
                    != Severity::Error
        }),
{
    let findings = doctor_report(registry, now).findings;
    let p = |f: FindingView| f.severity == Severity::Error;
    law_tally(findings, Seq::empty(), p);
    if doctor_report(registry, now).ok {
        assert forall|k: int| 0 <= k < findings.len() implies (#[trigger] findings[k]).severity
            != Severity::Error by {
            if p(findings[k]) {
                assert(tally(findings, p) > 0);
            }
        }
    }
}

} // verus!
