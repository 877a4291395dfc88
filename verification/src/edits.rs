//! Changes to the registry files.

use vstd::prelude::*;
use crate::adoption::ServiceListField;
use crate::each::{any_where, find_first, index_where};
use crate::list::{
    Ranked, any, first_index, first_where, includes, law_first_index, law_first_where, lemma_any,
    less, put, rank, sort_stable, sorted_by, text_lt,
};
use crate::number::{decimal, decimal_text, signed_decimal, signed_text};
use crate::registry::{
    DomainRecord, DomainRecordView, DomainsRegistry, DriftIgnoreRule, DriftIgnoreRuleView,
    PoliciesRegistry, PoliciesRegistryView, PortRecord, PortRecordView, PortsRegistry, Service,
    ServiceDeploymentContract, ServiceDeploymentContractView, ServiceSystemdContract,
    ServiceSystemdContractView, ServiceView, ServicesRegistry, VolumeRecord, VolumeRecordView,
    VolumesRegistry,
};
use crate::text::{
    alnum, as_text, cat2, cat3, cat4, cat6, chars_of, is_alnum, is_char, is_trimmed_at,
    law_trimmed, lowered, same, same_ignoring_case, same_opt, small, text_of, to_small, trim_char,
    trimmed_by,
};

verus! {

broadcast use {vstd::seq::group_seq_axioms, vstd::string::group_string_axioms};

/// What came of writing registry files: the files that changed, whether they
/// were put back, and the error where there was one.
#[derive(Debug)]
pub struct ApplyOutcome {
    pub changed_files: Vec<String>,
    pub rollback_performed: bool,
    pub rollback_errors: Vec<String>,
    pub error: Option<String>,
}

/// View of [`ApplyOutcome`].
#[verifier::ext_equal]
pub struct ApplyOutcomeView {
    pub changed_files: Seq<Seq<char>>,
    pub rollback_performed: bool,
    pub rollback_errors: Seq<Seq<char>>,
    pub error: Option<Seq<char>>,
}

impl DeepView for ApplyOutcome {
    type V = ApplyOutcomeView;

    open spec fn deep_view(&self) -> ApplyOutcomeView {
        ApplyOutcomeView {
            changed_files: self.changed_files.deep_view(),
            rollback_performed: self.rollback_performed,
            rollback_errors: self.rollback_errors.deep_view(),
            error: self.error.deep_view(),
        }
    }
}

// ---------------------------------------------------------------------------
// Identifiers
// ---------------------------------------------------------------------------

/// A character of an identifier.
pub open spec fn id_char(c: char) -> char {
    if is_alnum(c) || c == '-' || c == '_' {
        small(c)
    } else {
        '-'
    }
}

/// A text as part of an identifier.
pub open spec fn id_part(raw: Seq<char>) -> Seq<char> {
    trimmed_by(raw.map_values(|c: char| id_char(c)), is_char('-'))
}

/// A text as part of an identifier.
pub fn sanitize_id_part(raw: &str) -> (r: String)
    ensures
        r@ == id_part(raw@),
{
    let a = chars_of(raw);
    let mut out: Vec<char> = Vec::new();
    let mut i: usize = 0;
    while i < a.len()
        invariant
            i <= a@.len(),
            a@ == raw@,
            out@.len() == i,
            forall|j: int| 0 <= j < i ==> #[trigger] out@[j] == id_char(a@[j]),
        decreases a@.len() - i,
    {
        let c = a[i];
        if alnum(c) || c == '-' || c == '_' {
            out.push(to_small(c));
        } else {
            out.push('-');
        }
        i = i + 1;
    }
    let text = text_of(&out);
    proof {
        assert(out@ =~= raw@.map_values(|c: char| id_char(c)));
    }
    trim_char(&text, '-')
}

/// The id with a number.
pub open spec fn numbered(base: Seq<char>, n: int) -> Seq<char> {
    base + "-"@ + signed_decimal(n)
}

/// The first free id with a number from `n` to 999, or the one with the time.
pub open spec fn free_id(existing: Seq<Seq<char>>, base: Seq<char>, n: nat, stamp: i64) -> Seq<char>
    decreases 1000 - n,
{
    if n >= 1000 {
        numbered(base, stamp as int)
    } else if !existing.contains(numbered(base, n as int)) {
        numbered(base, n as int)
    } else {
        free_id(existing, base, n + 1, stamp)
    }
}

/// The id itself if it is free, or one with a number.
pub open spec fn unique_id(existing: Seq<Seq<char>>, base: Seq<char>, stamp: i64) -> Seq<char> {
    if !existing.contains(base) {
        base
    } else {
        free_id(existing, base, 2, stamp)
    }
}

/// The id itself if it is free, or one with a number.
pub fn choose_free_id(existing: &Vec<String>, base: &str, stamp: i64) -> (r: String)
    ensures
        r@ == unique_id(existing.deep_view(), base@, stamp),
{
    if !includes(existing, base) {
        return base.to_string();
    }
    let mut n: i64 = 2;
    while n < 1000
        invariant
            2 <= n <= 1000,
            free_id(existing.deep_view(), base@, 2, stamp) == free_id(
                existing.deep_view(),
                base@,
                n as nat,
                stamp,
            ),
            existing.deep_view().contains(base@),
        decreases 1000 - n,
    {
        let candidate = cat3(base, "-", &signed_text(n));
        if !includes(existing, &candidate) {
            return candidate;
        }
        n = n + 1;
    }
    cat3(base, "-", &signed_text(stamp))
}

/// The base of a record's id, without hyphens at its ends; `observed` where
/// nothing is left.
pub open spec fn record_base(base: Seq<char>) -> Seq<char> {
    if trimmed_by(base, is_char('-')).len() == 0 {
        "observed"@
    } else {
        trimmed_by(base, is_char('-'))
    }
}

/// A free id for a record.
pub open spec fn record_id(existing: Seq<Seq<char>>, base: Seq<char>, stamp: i64) -> Seq<char> {
    unique_id(existing, record_base(base), stamp)
}

/// A free id for a record.
pub fn unique_record_id(existing: &Vec<String>, base: &str, stamp: i64) -> (r: String)
    ensures
        r@ == record_id(existing.deep_view(), base@, stamp),
{
    let bare = trim_char(base, '-');
    if bare.as_str().is_empty() {
        choose_free_id(existing, "observed", stamp)
    } else {
        choose_free_id(existing, &bare, stamp)
    }
}

// ---------------------------------------------------------------------------
// Adding records
// ---------------------------------------------------------------------------

/// The port that already has this protocol and number.
pub open spec fn port_holder(ports: Seq<PortRecordView>, record: PortRecordView) -> Option<
    PortRecordView,
> {
    first_where(
        ports,
        |p: PortRecordView|
            lowered(p.protocol) == lowered(record.protocol) && p.port == record.port,
    )
}

/// Why a port cannot be added.
pub open spec fn port_taken(record: PortRecordView, holder: PortRecordView) -> Seq<char> {
    "port "@ + record.protocol + " "@ + decimal(record.port as nat)
        + " is already registered to service "@ + holder.service_id
}

/// The ports with one more; an error if the protocol and number are taken.
pub fn append_port_record(registry: &PortsRegistry, record: &PortRecord) -> (r: Result<
    PortsRegistry,
    String,
>)
    ensures
        match port_holder(registry.deep_view().ports, record.deep_view()) {
            Some(holder) => r is Err && r->Err_0@ == port_taken(record.deep_view(), holder),
            None => r is Ok && r->Ok_0.deep_view().ports == registry.deep_view().ports.push(
                record.deep_view(),
            ),
        },
{
    match find_first(
        &registry.ports,
        |p: &PortRecord| -> (b: bool)
            ensures
                b == (lowered(p.deep_view().protocol) == lowered(record.deep_view().protocol)
                    && p.deep_view().port == record.deep_view().port)
            { same_ignoring_case(&p.protocol, &record.protocol) && p.port == record.port },
        Ghost(
            |p: PortRecordView|
                lowered(p.protocol) == lowered(record.deep_view().protocol) && p.port
                    == record.deep_view().port,
        ),
    ) {
        Some(holder) => Err(
            cat6(
                "port ",
                &record.protocol,
                " ",
                &decimal_text(record.port as u64),
                " is already registered to service ",
                &holder.service_id,
            ),
        ),
        None => {
            let mut ports = registry.ports.clone();
            ports.push(record.clone());
            proof {
                assert(ports.deep_view() =~= registry.deep_view().ports.push(record.deep_view()));
            }
            Ok(PortsRegistry { ports })
        },
    }
}

/// The domain that already has this host.
pub open spec fn domain_holder(domains: Seq<DomainRecordView>, record: DomainRecordView) -> Option<
    DomainRecordView,
> {
    first_where(domains, |d: DomainRecordView| lowered(d.host) == lowered(record.host))
}

/// Why a domain cannot be added.
pub open spec fn domain_taken(record: DomainRecordView, holder: DomainRecordView) -> Seq<char> {
    "domain "@ + record.host + " is already registered to service "@ + holder.service_id
}

/// The domains with one more; an error if the host is taken.
pub fn append_domain_record(registry: &DomainsRegistry, record: &DomainRecord) -> (r: Result<
    DomainsRegistry,
    String,
>)
    ensures
        match domain_holder(registry.deep_view().domains, record.deep_view()) {
            Some(holder) => r is Err && r->Err_0@ == domain_taken(record.deep_view(), holder),
            None => r is Ok && r->Ok_0.deep_view().domains == registry.deep_view().domains.push(
                record.deep_view(),
            ),
        },
{
    match find_first(
        &registry.domains,
        |d: &DomainRecord| -> (b: bool)
            ensures
                b == (lowered(d.deep_view().host) == lowered(record.deep_view().host))
            { same_ignoring_case(&d.host, &record.host) },
        Ghost(|d: DomainRecordView| lowered(d.host) == lowered(record.deep_view().host)),
    ) {
        Some(holder) => Err(
            cat4(
                "domain ",
                &record.host,
                " is already registered to service ",
                &holder.service_id,
            ),
        ),
        None => {
            let mut domains = registry.domains.clone();
            domains.push(record.clone());
            proof {
                assert(domains.deep_view() =~= registry.deep_view().domains.push(
                    record.deep_view(),
                ));
            }
            Ok(DomainsRegistry { domains })
        },
    }
}

/// The volume that already has this name or id.
pub open spec fn volume_holder(volumes: Seq<VolumeRecordView>, record: VolumeRecordView) -> Option<
    VolumeRecordView,
> {
    first_where(volumes, |v: VolumeRecordView| v.name == record.name || v.id == record.id)
}

/// Why a volume cannot be added.
pub open spec fn volume_taken(record: VolumeRecordView, holder: VolumeRecordView) -> Seq<char> {
    "volume "@ + record.name + " is already registered to service "@ + holder.service_id
}

/// The volumes with one more; an error if the name or id is taken.
pub fn append_volume_record(registry: &VolumesRegistry, record: &VolumeRecord) -> (r: Result<
    VolumesRegistry,
    String,
>)
    ensures
        match volume_holder(registry.deep_view().volumes, record.deep_view()) {
            Some(holder) => r is Err && r->Err_0@ == volume_taken(record.deep_view(), holder),
            None => r is Ok && r->Ok_0.deep_view().volumes == registry.deep_view().volumes.push(
                record.deep_view(),
            ),
        },
{
    match find_first(
        &registry.volumes,
        |v: &VolumeRecord| -> (b: bool)
            ensures
                b == (v.deep_view().name == record.deep_view().name || v.deep_view().id
                    == record.deep_view().id)
            { same(&v.name, &record.name) || same(&v.id, &record.id) },
        Ghost(
            |v: VolumeRecordView|
                v.name == record.deep_view().name || v.id == record.deep_view().id,
        ),
    ) {
        Some(holder) => Err(
            cat4(
                "volume ",
                &record.name,
                " is already registered to service ",
                &holder.service_id,
            ),
        ),
        None => {
            let mut volumes = registry.volumes.clone();
            volumes.push(record.clone());
            proof {
                assert(volumes.deep_view() =~= registry.deep_view().volumes.push(
                    record.deep_view(),
                ));
            }
            Ok(VolumesRegistry { volumes })
        },
    }
}

impl Ranked for Service {
    /// By id.
    open spec fn before(a: ServiceView, b: ServiceView) -> bool {
        text_lt(a.id, b.id)
    }

    fn ranks_before(&self, other: &Self) -> (r: bool) {
        less(&self.id, &other.id)
    }
}

/// Whether a service has this id.
pub open spec fn service_known(services: Seq<ServiceView>, id: Seq<char>) -> bool {
    any(services, |s: ServiceView| s.id == id)
}

/// Whether a service has this id.
pub fn has_service(services: &Vec<Service>, id: &str) -> (r: bool)
    ensures
        r == service_known(services.deep_view(), id@),
{
    any_where(
        services,
        |s: &Service| -> (b: bool)
            ensures
                b == (s.deep_view().id == id@)
            { same(&s.id, id) },
        Ghost(|s: ServiceView| s.id == id@),
    )
}

/// The services with one more, sorted by id; an error if the id is taken.
pub fn append_service_record(registry: &ServicesRegistry, service: &Service) -> (r: Result<
    ServicesRegistry,
    String,
>)
    ensures
        if service_known(registry.deep_view().services, service.deep_view().id) {
            r is Err && r->Err_0@ == "service id is already registered: "@ + service.deep_view().id
        } else {
            r is Ok && r->Ok_0.deep_view().services == sorted_by(
                registry.deep_view().services.push(service.deep_view()),
                rank::<Service>(),
            )
        },
{
    if has_service(&registry.services, &service.id) {
        return Err(cat2("service id is already registered: ", &service.id));
    }
    let mut services = registry.services.clone();
    services.push(service.clone());
    proof {
        assert(services.deep_view() =~= registry.deep_view().services.push(service.deep_view()));
    }
    Ok(ServicesRegistry { services: sort_stable(services) })
}

// ---------------------------------------------------------------------------
// Changing a service
// ---------------------------------------------------------------------------

/// The place of a service.
pub open spec fn service_index(services: Seq<ServiceView>, id: Seq<char>) -> int {
    first_index(services, |s: ServiceView| s.id == id)
}

/// The place of a service; the number of services where none has the id.
pub fn find_service_index(services: &Vec<Service>, id: &str) -> (r: usize)
    ensures
        r == service_index(services.deep_view(), id@),
        r <= services@.len(),
{
    index_where(
        services,
        |s: &Service| -> (b: bool)
            ensures
                b == (s.deep_view().id == id@)
            { same(&s.id, id) },
        Ghost(|s: ServiceView| s.id == id@),
    )
}

/// A list of a service.
pub open spec fn list_of(service: ServiceView, field: ServiceListField) -> Seq<Seq<char>> {
    match field {
        ServiceListField::Domains => service.domains,
        ServiceListField::Containers => service.containers,
        ServiceListField::ComposeProjects => service.compose_projects,
        ServiceListField::Volumes => service.volumes,
    }
}

/// A service with one more value in a list.
pub open spec fn service_with_value(
    service: ServiceView,
    field: ServiceListField,
    value: Seq<char>,
) -> ServiceView {
    match field {
        ServiceListField::Domains => ServiceView { domains: service.domains.push(value), ..service },
        ServiceListField::Containers => ServiceView {
            containers: service.containers.push(value),
            ..service
        },
        ServiceListField::ComposeProjects => ServiceView {
            compose_projects: service.compose_projects.push(value),
            ..service
        },
        ServiceListField::Volumes => ServiceView { volumes: service.volumes.push(value), ..service },
    }
}

/// A service with one more value in a list.
pub fn add_service_value(service: &Service, field: ServiceListField, value: &str) -> (r: Service)
    ensures
        r.deep_view() == service_with_value(service.deep_view(), field, value@),
{
    let mut s = service.clone();
    match field {
        ServiceListField::Domains => {
            let mut list = s.domains;
            put(&mut list, value);
            s.domains = list;
        },
        ServiceListField::Containers => {
            let mut list = s.containers;
            put(&mut list, value);
            s.containers = list;
        },
        ServiceListField::ComposeProjects => {
            let mut list = s.compose_projects;
            put(&mut list, value);
            s.compose_projects = list;
        },
        ServiceListField::Volumes => {
            let mut list = s.volumes;
            put(&mut list, value);
            s.volumes = list;
        },
    }
    s
}

/// The services with one of them replaced.
pub fn replace_service(registry: &ServicesRegistry, place: usize, service: Service) -> (r:
    ServicesRegistry)
    requires
        place < registry.services@.len(),
    ensures
        r.deep_view().services == registry.deep_view().services.update(
            place as int,
            service.deep_view(),
        ),
{
    let mut services = registry.services.clone();
    let ghost before = services.deep_view();
    services.set(place, service);
    proof {
        assert(services.deep_view() =~= before.update(place as int, service.deep_view()));
    }
    ServicesRegistry { services }
}

/// The services with one more value in a list of one of them: nothing to write
/// if the value is there already, and an error if no service has the id.
pub fn update_service_list(
    registry: &ServicesRegistry,
    service_id: &str,
    field: ServiceListField,
    value: &str,
) -> (r: Result<Option<ServicesRegistry>, String>)
    ensures
        ({
            let services = registry.deep_view().services;
            let i = service_index(services, service_id@);
            if i >= services.len() {
                r is Err && r->Err_0@ == "service_id is not registered: "@ + service_id@
            } else if list_of(services[i], field).contains(value@) {
                r == Ok::<Option<ServicesRegistry>, String>(None)
            } else {
                r is Ok && r->Ok_0 is Some && (r->Ok_0->0).deep_view().services == services.update(
                    i,
                    service_with_value(services[i], field, value@),
                )
            }
        }),
{
    let i = find_service_index(&registry.services, service_id);
    if i >= registry.services.len() {
        return Err(cat2("service_id is not registered: ", service_id));
    }
    let service = &registry.services[i];
    let there = match field {
        ServiceListField::Domains => includes(&service.domains, value),
        ServiceListField::Containers => includes(&service.containers, value),
        ServiceListField::ComposeProjects => includes(&service.compose_projects, value),
        ServiceListField::Volumes => includes(&service.volumes, value),
    };
    if there {
        return Ok(None);
    }
    let changed = add_service_value(service, field, value);
    Ok(Some(replace_service(registry, i, changed)))
}

/// The deployment contract of a service that was found on the server.
pub open spec fn observed_contract() -> ServiceDeploymentContractView {
    ServiceDeploymentContractView {
        build: Seq::empty(),
        laravel: None,
        migrations: Seq::empty(),
        migration_adapters: Seq::empty(),
        systemd: Seq::empty(),
        static_sites: Seq::empty(),
        notes: Some("Created by observed drift adoption; review before production use."@),
    }
}

/// The deployment contract of a service that was found on the server.
pub fn empty_observed_deployment_contract() -> (r: ServiceDeploymentContract)
    ensures
        r.deep_view() == observed_contract(),
{
    let contract = ServiceDeploymentContract {
        build: Vec::new(),
        laravel: None,
        migrations: Vec::new(),
        migration_adapters: Vec::new(),
        systemd: Vec::new(),
        static_sites: Vec::new(),
        notes: Some(
            "Created by observed drift adoption; review before production use.".to_string(),
        ),
    };
    proof {
        assert(contract.deep_view() =~= observed_contract());
    }
    contract
}

/// The contract of a service, or an empty one.
pub open spec fn contract_of(service: ServiceView) -> ServiceDeploymentContractView {
    match service.deployment {
        Some(contract) => contract,
        None => observed_contract(),
    }
}

/// Whether a contract names a unit.
pub open spec fn names_unit(contract: ServiceDeploymentContractView, unit: Seq<char>) -> bool {
    any(contract.systemd, |s: ServiceSystemdContractView| s.unit == unit)
}

/// A service with one more unit, of which no action is allowed.
pub open spec fn service_with_unit(service: ServiceView, unit: Seq<char>) -> ServiceView {
    let contract = contract_of(service);
    ServiceView {
        deployment: Some(
            ServiceDeploymentContractView {
                systemd: contract.systemd.push(
                    ServiceSystemdContractView { unit, actions: Seq::empty() },
                ),
                notes: if contract.notes is None {
                    Some(
                        "Contains observed-adopted systemd unit facts; actions must be reviewed before execution."@,
                    )
                } else {
                    contract.notes
                },
                ..contract
            },
        ),
        ..service
    }
}

/// The services with one more unit in one of them: nothing to write if the unit
/// is there already, and an error if no service has the id.
pub fn update_service_systemd_unit(registry: &ServicesRegistry, service_id: &str, unit: &str) -> (r:
    Result<Option<ServicesRegistry>, String>)
    ensures
        ({
            let services = registry.deep_view().services;
            let i = service_index(services, service_id@);
            if i >= services.len() {
                r is Err && r->Err_0@ == "service_id is not registered: "@ + service_id@
            } else if names_unit(contract_of(services[i]), unit@) {
                r == Ok::<Option<ServicesRegistry>, String>(None)
            } else {
                r is Ok && r->Ok_0 is Some && (r->Ok_0->0).deep_view().services == services.update(
                    i,
                    service_with_unit(services[i], unit@),
                )
            }
        }),
{
    let i = find_service_index(&registry.services, service_id);
    if i >= registry.services.len() {
        return Err(cat2("service_id is not registered: ", service_id));
    }
    let service = &registry.services[i];
    let mut contract = match &service.deployment {
        Some(contract) => contract.clone(),
        None => empty_observed_deployment_contract(),
    };
    let there = any_where(
        &contract.systemd,
        |s: &ServiceSystemdContract| -> (b: bool)
            ensures
                b == (s.deep_view().unit == unit@)
            { same(&s.unit, unit) },
        Ghost(|s: ServiceSystemdContractView| s.unit == unit@),
    );
    if there {
        return Ok(None);
    }
    let ghost before = contract.deep_view();
    let mut units = contract.systemd;
    units.push(ServiceSystemdContract { unit: unit.to_string(), actions: Vec::new() });
    proof {
        let added = units@.last().deep_view();
        assert(added =~= (ServiceSystemdContractView { unit: unit@, actions: Seq::empty() }));
        assert(units.deep_view() =~= before.systemd.push(added));
    }
    contract.systemd = units;
    if contract.notes.is_none() {
        contract.notes = Some(
            "Contains observed-adopted systemd unit facts; actions must be reviewed before execution.".to_string(),
        );
    }
    let mut changed = service.clone();
    changed.deployment = Some(contract);
    Ok(Some(replace_service(registry, i, changed)))
}

// ---------------------------------------------------------------------------
// Ignore rules
// ---------------------------------------------------------------------------

/// Whether an active rule already says the same.
pub open spec fn same_rule(existing: DriftIgnoreRuleView, rule: DriftIgnoreRuleView) -> bool {
    existing.status == "active"@ && existing.code == rule.code && existing.kind == rule.kind
        && existing.target == rule.target && existing.target_prefix == rule.target_prefix
        && existing.target_suffix == rule.target_suffix && existing.target_contains
        == rule.target_contains
}

/// Whether an active rule already says the same.
pub open spec fn rule_exists(rules: Seq<DriftIgnoreRuleView>, rule: DriftIgnoreRuleView) -> bool {
    any(rules, |e: DriftIgnoreRuleView| same_rule(e, rule))
}

/// Whether an active rule already says the same.
pub fn existing_ignore_rule(rules: &Vec<DriftIgnoreRule>, rule: &DriftIgnoreRule) -> (r: bool)
    ensures
        r == rule_exists(rules.deep_view(), rule.deep_view()),
{
    any_where(
        rules,
        |e: &DriftIgnoreRule| -> (b: bool)
            ensures
                b == same_rule(e.deep_view(), rule.deep_view())
            {
                same(&e.status, "active") && same_opt(as_text(&e.code), as_text(&rule.code))
                    && same_opt(as_text(&e.kind), as_text(&rule.kind)) && same_opt(
                    as_text(&e.target),
                    as_text(&rule.target),
                ) && same_opt(as_text(&e.target_prefix), as_text(&rule.target_prefix)) && same_opt(
                    as_text(&e.target_suffix),
                    as_text(&rule.target_suffix),
                ) && same_opt(as_text(&e.target_contains), as_text(&rule.target_contains))
            },
        Ghost(|e: DriftIgnoreRuleView| same_rule(e, rule.deep_view())),
    )
}

/// The policies with one more ignore rule; an error if an active rule says the
/// same.
pub fn append_ignore_rule(policies: &PoliciesRegistry, rule: &DriftIgnoreRule) -> (r: Result<
    PoliciesRegistry,
    String,
>)
    ensures
        if rule_exists(policies.deep_view().drift_ignores, rule.deep_view()) {
            r is Err && r->Err_0@ == "equivalent active drift ignore rule already exists"@
        } else {
            r is Ok && r->Ok_0.deep_view() == (PoliciesRegistryView {
                drift_ignores: policies.deep_view().drift_ignores.push(rule.deep_view()),
                ..policies.deep_view()
            })
        },
{
    if existing_ignore_rule(&policies.drift_ignores, rule) {
        return Err("equivalent active drift ignore rule already exists".to_string());
    }
    let mut changed = policies.clone();
    let mut rules = changed.drift_ignores;
    rules.push(rule.clone());
    proof {
        assert(rules.deep_view() =~= policies.deep_view().drift_ignores.push(rule.deep_view()));
    }
    changed.drift_ignores = rules;
    Ok(changed)
}

// ---------------------------------------------------------------------------
// Laws
// ---------------------------------------------------------------------------

proof fn lemma_free_id(existing: Seq<Seq<char>>, base: Seq<char>, n: nat, stamp: i64)
    requires
        !existing.contains(numbered(base, stamp as int)),
    ensures
        !existing.contains(free_id(existing, base, n, stamp)),
    decreases 1000 - n,
{
    if n < 1000 && existing.contains(numbered(base, n as int)) {
        lemma_free_id(existing, base, n + 1, stamp);
    }
}

/// A new id is not in use, unless every numbered id and the one with the time
/// are.
pub proof fn law_new_id_is_free(existing: Seq<Seq<char>>, base: Seq<char>, stamp: i64)
    requires
        !existing.contains(numbered(record_base(base), stamp as int)),
    ensures
        !existing.contains(record_id(existing, base, stamp)),
{
    lemma_free_id(existing, record_base(base), 2, stamp);
}

/// The same rule cannot be added twice.
pub proof fn law_rule_is_added_once(rules: Seq<DriftIgnoreRuleView>, rule: DriftIgnoreRuleView)
    requires
        rule.status == "active"@,
    ensures
        rule_exists(rules.push(rule), rule),
{
    assert(rules.push(rule).drop_last() =~= rules);
}

/// The character of an id: a letter as its small one, a digit, hyphen or underscore as it
/// is, and a hyphen for any other.
pub proof fn law_id_characters(c: char)
    ensures
        'a' <= c <= 'z' || '0' <= c <= '9' || c == '-' || c == '_' ==> id_char(c) == c,
        'A' <= c <= 'Z' ==> id_char(c) as u32 == c as u32 + 32,
        !('a' <= c <= 'z' || 'A' <= c <= 'Z' || '0' <= c <= '9' || c == '_') ==> id_char(c) == '-',
{
}

/// The part of an id holds only small letters, digits, hyphens and underscores, and has no
/// hyphen at its ends. A text that is such a part stays as it is.
pub proof fn law_id_parts(raw: Seq<char>)
    ensures
        forall|i: int|
            0 <= i < id_part(raw).len() ==> 'a' <= #[trigger] id_part(raw)[i] <= 'z' || '0'
                <= id_part(raw)[i] <= '9' || id_part(raw)[i] == '-' || id_part(raw)[i] == '_',
        id_part(raw).len() > 0 ==> id_part(raw)[0] != '-' && id_part(raw).last() != '-',
        id_part(raw).len() == 0 <==> forall|i: int|
            0 <= i < raw.len() ==> id_char(#[trigger] raw[i]) == '-',
        raw.len() > 0 && raw[0] != '-' && raw.last() != '-' && (forall|i: int|
            0 <= i < raw.len() ==> 'a' <= #[trigger] raw[i] <= 'z' || '0' <= raw[i] <= '9' || raw[i]
                == '-' || raw[i] == '_') ==> id_part(raw) == raw,
{
    let n = id_part(raw).len() as int;
    let from = lemma_id_part_from(raw);
    if raw.len() > 0 && raw[0] != '-' && raw.last() != '-' && (forall|i: int|
        0 <= i < raw.len() ==> 'a' <= #[trigger] raw[i] <= 'z' || '0' <= raw[i] <= '9' || raw[i]
            == '-' || raw[i] == '_') {
        if from > 0 {
            assert(id_char(raw[0]) == '-');
        }
        if from + n < raw.len() {
            assert(id_char(raw[raw.len() - 1]) == '-');
        }
        assert(id_part(raw) =~= raw);
    }
    if forall|i: int| 0 <= i < raw.len() ==> id_char(#[trigger] raw[i]) == '-' {
        if n > 0 {
            assert(id_part(raw)[0] == id_char(raw[from]));
        }
    }
}

proof fn lemma_id_part_from(raw: Seq<char>) -> (from: int)
    ensures
        0 <= from,
        from + id_part(raw).len() <= raw.len(),
        forall|i: int|
            0 <= i < id_part(raw).len() ==> #[trigger] id_part(raw)[i] == id_char(raw[from + i]),
        forall|j: int| 0 <= j < from ==> id_char(#[trigger] raw[j]) == '-',
        forall|j: int|
            from + id_part(raw).len() <= j < raw.len() ==> id_char(#[trigger] raw[j]) == '-',
        id_part(raw).len() > 0 ==> id_part(raw)[0] != '-' && id_part(raw).last() != '-',
{
    let p = is_char('-');
    let mapped = raw.map_values(|c: char| id_char(c));
    let part = trimmed_by(mapped, p);
    assert(id_part(raw) == part);
    law_trimmed(mapped, p);
    let from = choose|from: int| #[trigger] is_trimmed_at(mapped, p, from);
    assert forall|j: int| 0 <= j < from implies id_char(#[trigger] raw[j]) == '-' by {
        assert(p(mapped[j]));
    }
    assert forall|j: int| from + part.len() <= j < raw.len() implies id_char(#[trigger] raw[j])
        == '-' by {
        assert(p(mapped[j]));
    }
    from
}

/// An id that is free is kept; one that is taken gets the first free number from 2 on.
pub proof fn law_unique_ids(existing: Seq<Seq<char>>, base: Seq<char>, stamp: i64, n: nat)
    requires
        2 <= n < 1000,
    ensures
        !existing.contains(base) ==> unique_id(existing, base, stamp) == base,
        existing.contains(base) && !existing.contains(base + "-"@ + decimal(n)) && (forall|m: nat|
            2 <= m < n ==> existing.contains(base + "-"@ + #[trigger] decimal(m))) ==> unique_id(
            existing,
            base,
            stamp,
        ) == base + "-"@ + decimal(n),
{
    if existing.contains(base) && !existing.contains(base + "-"@ + decimal(n)) && (forall|m: nat|
        2 <= m < n ==> existing.contains(base + "-"@ + #[trigger] decimal(m))) {
        lemma_first_free(existing, base, 2, n, stamp);
    }
}

proof fn lemma_first_free(existing: Seq<Seq<char>>, base: Seq<char>, k: nat, n: nat, stamp: i64)
    requires
        k <= n < 1000,
        !existing.contains(base + "-"@ + decimal(n)),
        forall|m: nat| k <= m < n ==> existing.contains(base + "-"@ + #[trigger] decimal(m)),
    ensures
        free_id(existing, base, k, stamp) == base + "-"@ + decimal(n),
    decreases n - k,
{
    if k < n {
        assert(existing.contains(base + "-"@ + decimal(k)));
        lemma_first_free(existing, base, k + 1, n, stamp);
    }
}

/// A port is taken exactly where one of its number and protocol, whatever the case, is
/// registered; a host where it is registered, whatever the case; a volume where one of its
/// name or id is.
pub proof fn law_what_is_taken(
    ports: Seq<PortRecordView>,
    port: PortRecordView,
    domains: Seq<DomainRecordView>,
    domain: DomainRecordView,
    volumes: Seq<VolumeRecordView>,
    volume: VolumeRecordView,
)
    ensures
        port_holder(ports, port) is Some <==> exists|i: int|
            0 <= i < ports.len() && (#[trigger] ports[i]).port == port.port && lowered(
                ports[i].protocol,
            ) == lowered(port.protocol),
        port_holder(ports, port) matches Some(h) ==> ports.contains(h) && h.port == port.port,
        domain_holder(domains, domain) is Some <==> exists|i: int|
            0 <= i < domains.len() && lowered((#[trigger] domains[i]).host) == lowered(domain.host),
        domain_holder(domains, domain) matches Some(h) ==> domains.contains(h) && lowered(h.host)
            == lowered(domain.host),
        volume_holder(volumes, volume) is Some <==> exists|i: int|
            0 <= i < volumes.len() && ((#[trigger] volumes[i]).name == volume.name || volumes[i].id
                == volume.id),
        volume_holder(volumes, volume) matches Some(h) ==> volumes.contains(h),
{
    let p = |p: PortRecordView|
        lowered(p.protocol) == lowered(port.protocol) && p.port == port.port;
    law_first_where(ports, p);
    if port_holder(ports, port) is None {
        assert forall|i: int| 0 <= i < ports.len() implies !((#[trigger] ports[i]).port == port.port
            && lowered(ports[i].protocol) == lowered(port.protocol)) by {
            assert(!p(ports[i]));
        }
    }
    let d = |d: DomainRecordView| lowered(d.host) == lowered(domain.host);
    law_first_where(domains, d);
    if domain_holder(domains, domain) is None {
        assert forall|i: int| 0 <= i < domains.len() implies lowered((#[trigger] domains[i]).host)
            != lowered(domain.host) by {
            assert(!d(domains[i]));
        }
    }
    let v = |v: VolumeRecordView| v.name == volume.name || v.id == volume.id;
    law_first_where(volumes, v);
    if volume_holder(volumes, volume) is None {
        assert forall|i: int| 0 <= i < volumes.len() implies !((#[trigger] volumes[i]).name
            == volume.name || volumes[i].id == volume.id) by {
            assert(!v(volumes[i]));
        }
    }
}

/// Which services are known: those with the id.
pub proof fn law_known_services(services: Seq<ServiceView>, id: Seq<char>)
    ensures
        service_known(services, id) <==> exists|i: int|
            0 <= i < services.len() && (#[trigger] services[i]).id == id,
        service_index(services, id) < services.len() <==> service_known(services, id),
        service_index(services, id) < services.len() ==> services[service_index(services, id)].id
            == id,
        0 <= service_index(services, id) <= services.len(),
        forall|i: int| 0 <= i < service_index(services, id) ==> (#[trigger] services[i]).id != id,
{
    let p = |s: ServiceView| s.id == id;
    lemma_any(services, p);
    law_first_index(services, p);
    if service_known(services, id) {
        let i = choose|i: int| 0 <= i < services.len() && p(#[trigger] services[i]);
        assert(services[i].id == id);
        if service_index(services, id) == services.len() {
            assert(!p(services[i]));
        }
    }
    if exists|i: int| 0 <= i < services.len() && (#[trigger] services[i]).id == id {
        let i = choose|i: int| 0 <= i < services.len() && (#[trigger] services[i]).id == id;
        assert(p(services[i]));
    }
    if service_index(services, id) < services.len() {
        assert(p(services[service_index(services, id)]));
    }
    assert forall|i: int| 0 <= i < service_index(services, id) implies (#[trigger] services[i]).id
        != id by {
        assert(!p(services[i]));
    }
}

/// A value is added to one list of a service, at its end; nothing else changes in it.
pub proof fn law_added_values(
    service: ServiceView,
    field: ServiceListField,
    other: ServiceListField,
    value: Seq<char>,
)
    ensures
        ({
            let r = service_with_value(service, field, value);
            &&& list_of(r, field) == list_of(service, field).push(value)
            &&& other != field ==> list_of(r, other) == list_of(service, other)
            &&& r == (ServiceView {
                domains: r.domains,
                containers: r.containers,
                compose_projects: r.compose_projects,
                volumes: r.volumes,
                ..service
            })
        }),
        list_of(service, ServiceListField::Domains) == service.domains,
        list_of(service, ServiceListField::Containers) == service.containers,
        list_of(service, ServiceListField::ComposeProjects) == service.compose_projects,
        list_of(service, ServiceListField::Volumes) == service.volumes,
{
}

/// A unit is added to a service's contract without any actions; it is then named there, as
/// the others were before, and nothing but the contract changes.
pub proof fn law_added_units(service: ServiceView, unit: Seq<char>)
    ensures
        ({
            let r = service_with_unit(service, unit);
            let before = contract_of(service);
            &&& r == (ServiceView { deployment: r.deployment, ..service })
            &&& r.deployment is Some
            &&& r.deployment->0.systemd.drop_last() == before.systemd
            &&& r.deployment->0.systemd.last().unit == unit
            &&& r.deployment->0.systemd.last().actions.len() == 0
            &&& r.deployment->0.notes is Some
            &&& before.notes is Some ==> r.deployment->0.notes == before.notes
            &&& r.deployment->0.build == before.build && r.deployment->0.migrations
                == before.migrations && r.deployment->0.static_sites == before.static_sites
            &&& names_unit(r.deployment->0, unit)
            &&& service.deployment is Some ==> before == service.deployment->0
            &&& service.deployment is None ==> before.systemd.len() == 0 && before.build.len() == 0
        }),
        names_unit(contract_of(service), unit) <==> exists|i: int|
            0 <= i < contract_of(service).systemd.len() && (#[trigger] contract_of(
                service,
            ).systemd[i]).unit == unit,
{
    let r = service_with_unit(service, unit);
    let before = contract_of(service);
    let after = r.deployment->0.systemd;
    let p = |s: ServiceSystemdContractView| s.unit == unit;
    assert(after.drop_last() =~= before.systemd);
    lemma_any(after, p);
    assert(p(after[after.len() - 1]));
    lemma_any(before.systemd, p);
    if names_unit(before, unit) {
        let i = choose|i: int| 0 <= i < before.systemd.len() && p(#[trigger] before.systemd[i]);
        assert(before.systemd[i].unit == unit);
    }
    if exists|i: int|
        0 <= i < before.systemd.len() && (#[trigger] before.systemd[i]).unit == unit {
        let i = choose|i: int|
            0 <= i < before.systemd.len() && (#[trigger] before.systemd[i]).unit == unit;
        assert(p(before.systemd[i]));
    }
}

/// A rule is there already exactly where an active one says the same: of the same code and
/// kind, with the same target, prefix, suffix and part.
pub proof fn law_which_rules_are_there(rules: Seq<DriftIgnoreRuleView>, rule: DriftIgnoreRuleView)
    ensures
        rule_exists(rules, rule) <==> exists|i: int|
            0 <= i < rules.len() && (#[trigger] rules[i]).status == "active"@ && rules[i].code
                == rule.code && rules[i].kind == rule.kind && rules[i].target == rule.target
                && rules[i].target_prefix == rule.target_prefix && rules[i].target_suffix
                == rule.target_suffix && rules[i].target_contains == rule.target_contains,
{
    let p = |e: DriftIgnoreRuleView| same_rule(e, rule);
    lemma_any(rules, p);
    assert forall|i: int| 0 <= i < rules.len() implies (p(#[trigger] rules[i]) <==> rules[i].status
        == "active"@ && rules[i].code == rule.code && rules[i].kind == rule.kind && rules[i].target
        == rule.target && rules[i].target_prefix == rule.target_prefix && rules[i].target_suffix
        == rule.target_suffix && rules[i].target_contains == rule.target_contains) by {}
    if rule_exists(rules, rule) {
        let i = choose|i: int| 0 <= i < rules.len() && p(#[trigger] rules[i]);
        assert(rules[i].status == "active"@);
    }
}

} // verus!
