//! Writing what was deployed into the registry.

use vstd::prelude::*;
use crate::caddy::inspect::listed;
use crate::deploy::journal::{deploy_id_part, sanitize_deploy_id_part};
use crate::deploy::types::{CaddyRouteChange, CaddyRouteChangeView, DeployPlan, DeployPlanView};
use crate::each::{find_first, index_where, map_each};
use crate::edits::{choose_free_id, find_service_index, replace_service, service_index, unique_id};
use crate::list::{
    first_index, first_where, includes, law_first_index, law_first_where, law_one_more, put,
};
use crate::number::{decimal, decimal_text};
use crate::paths::{file_name, file_name_spec};
use crate::registry::{
    DomainRecord, DomainRecordView, DomainsRegistry, PortRecord, PortRecordView, PortsRegistry,
    Registry, RegistryView, Service, ServiceBuildContractView, ServiceDeploymentContract,
    ServiceDeploymentContractView, ServiceStaticSiteContractView, ServiceSystemdContractView,
    ServiceView, ServicesRegistry, VolumeRecord, VolumeRecordView, VolumesRegistry,
};
use crate::text::{as_text, cat2, cat3, cat4, ends, is_text, same, step};
use crate::words::{strip_prefixes, without_prefixes};

verus! {

broadcast use {vstd::seq::group_seq_axioms, vstd::string::group_string_axioms};

/// The service that a plan deploys: the one it names, or else one after its Compose
/// project, its directory or itself.
pub open spec fn plan_service(plan: DeployPlanView) -> Seq<char> {
    match plan.service_id {
        Some(id) => id,
        None => match plan.changes.docker.compose_project {
            Some(project) => deploy_id_part(project),
            None => match file_name_spec(plan.project_root) {
                Some(name) => deploy_id_part(name),
                None => deploy_id_part(without_prefixes(plan.id, "deploy_"@)),
            },
        },
    }
}

/// The service that a plan deploys.
pub fn service_id_for_plan(plan: &DeployPlan) -> (r: String)
    ensures
        r@ == plan_service(plan.deep_view()),
{
    if let Some(id) = &plan.service_id {
        return id.clone();
    }
    if let Some(project) = &plan.changes.docker.compose_project {
        return sanitize_deploy_id_part(project);
    }
    match file_name(&plan.project_root) {
        Some(name) => sanitize_deploy_id_part(&name),
        None => sanitize_deploy_id_part(&strip_prefixes(&plan.id, "deploy_")),
    }
}

/// A free id for a record of a deploy.
pub open spec fn deploy_record_id(existing: Seq<Seq<char>>, preferred: Seq<char>, stamp: i64) ->
    Seq<char> {
    unique_id(existing, deploy_id_part(preferred), stamp)
}

/// A free id for a record of a deploy.
pub fn unique_deploy_record_id(existing: &Vec<String>, preferred: &str, stamp: i64) -> (r: String)
    ensures
        r@ == deploy_record_id(existing.deep_view(), preferred@, stamp),
{
    choose_free_id(existing, &sanitize_deploy_id_part(preferred), stamp)
}

// ---------------------------------------------------------------------------
// Services
// ---------------------------------------------------------------------------

/// A list with the values that it does not have yet.
pub open spec fn with_new<A>(target: Seq<A>, values: Seq<A>) -> Seq<A>
    decreases values.len(),
{
    if values.len() == 0 {
        target
    } else {
        let rest = with_new(target, values.drop_last());
        if rest.contains(values.last()) {
            rest
        } else {
            rest.push(values.last())
        }
    }
}

/// Adding new values keeps the old ones in front, and changes nothing if nothing is
/// added.
pub proof fn lemma_with_new<A>(target: Seq<A>, values: Seq<A>)
    ensures
        target.len() <= with_new(target, values).len(),
        with_new(target, values).take(target.len() as int) == target,
        with_new(target, values).len() == target.len() ==> with_new(target, values) == target,
    decreases values.len(),
{
    ends(target);
    if values.len() > 0 {
        lemma_with_new(target, values.drop_last());
        let rest = with_new(target, values.drop_last());
        let all = with_new(target, values);
        assert(all.take(target.len() as int) =~= rest.take(target.len() as int));
        if all.len() == target.len() {
            ends(all);
        }
    } else {
        ends(with_new(target, values));
    }
}

/// Adds the texts that a list does not have yet. Says whether there were any.
pub fn push_unique_strings(target: &mut Vec<String>, values: &Vec<String>) -> (r: bool)
    ensures
        final(target).deep_view() == with_new(old(target).deep_view(), values.deep_view()),
        r == (final(target).deep_view() != old(target).deep_view()),
{
    let ghost before = target.deep_view();
    let ghost all = values.deep_view();
    let mut grown = false;
    let mut i: usize = 0;
    proof {
        ends(all);
    }
    while i < values.len()
        invariant
            i <= values@.len(),
            all == values.deep_view(),
            target.deep_view() == with_new(before, all.take(i as int)),
            grown == (target.deep_view().len() != before.len()),
            target.deep_view().len() >= before.len(),
        decreases values@.len() - i,
    {
        proof {
            step(all, i as int);
        }
        if !includes(target, &values[i]) {
            put(target, &values[i]);
            grown = true;
        }
        i = i + 1;
    }
    proof {
        ends(all);
        lemma_with_new(before, all);
    }
    grown
}

/// Whether a list has a number.
pub fn has_number(list: &Vec<u16>, n: u16) -> (r: bool)
    ensures
        r == list.deep_view().contains(n),
{
    let mut i: usize = 0;
    while i < list.len()
        invariant
            i <= list@.len(),
            forall|j: int| 0 <= j < i ==> list@[j] != n,
        decreases list@.len() - i,
    {
        if list[i] == n {
            proof {
                assert(list.deep_view()[i as int] == n);
            }
            return true;
        }
        i = i + 1;
    }
    proof {
        assert forall|j: int| 0 <= j < list.deep_view().len() implies list.deep_view()[j] != n by {
            assert(list@[j] != n);
        }
    }
    false
}

/// Adds the numbers that a list does not have yet. Says whether there were any.
pub fn push_unique_numbers(target: &mut Vec<u16>, values: &Vec<u16>) -> (r: bool)
    ensures
        final(target).deep_view() == with_new(old(target).deep_view(), values.deep_view()),
        r == (final(target).deep_view() != old(target).deep_view()),
{
    let ghost before = target.deep_view();
    let ghost all = values.deep_view();
    let mut grown = false;
    let mut i: usize = 0;
    proof {
        ends(all);
    }
    while i < values.len()
        invariant
            i <= values@.len(),
            all == values.deep_view(),
            target.deep_view() == with_new(before, all.take(i as int)),
            grown == (target.deep_view().len() != before.len()),
            target.deep_view().len() >= before.len(),
        decreases values@.len() - i,
    {
        proof {
            step(all, i as int);
            assert(all[i as int] == values@[i as int]);
        }
        if !has_number(target, values[i]) {
            let ghost now = target.deep_view();
            target.push(values[i]);
            grown = true;
            proof {
                assert(target.deep_view() =~= now.push(values@[i as int]));
            }
        }
        i = i + 1;
    }
    proof {
        ends(all);
        lemma_with_new(before, all);
    }
    grown
}

/// The hosts of a plan's routes.
pub open spec fn plan_hosts(plan: DeployPlanView) -> Seq<Seq<char>> {
    plan.changes.caddy.routes.map_values(|r: CaddyRouteChangeView| r.host)
}

/// The hosts of a plan's routes.
fn list_plan_hosts(plan: &DeployPlan) -> (r: Vec<String>)
    ensures
        r.deep_view() == plan_hosts(plan.deep_view()),
{
    map_each(
        &plan.changes.caddy.routes,
        |r: &CaddyRouteChange| -> (t: String)
            ensures
                t.deep_view() == r.deep_view().host
            { r.host.clone() },
        Ghost(|r: CaddyRouteChangeView| r.host),
    )
}

/// The Compose projects of a plan.
pub open spec fn plan_projects(plan: DeployPlanView) -> Seq<Seq<char>> {
    listed(plan.changes.docker.compose_project)
}

/// The Compose projects of a plan.
fn list_plan_projects(plan: &DeployPlan) -> (r: Vec<String>)
    ensures
        r.deep_view() == plan_projects(plan.deep_view()),
{
    let mut projects: Vec<String> = Vec::new();
    if let Some(project) = &plan.changes.docker.compose_project {
        projects.push(project.clone());
    }
    proof {
        assert(projects.deep_view() =~= plan_projects(plan.deep_view()));
    }
    projects
}

/// A service after a deploy.
pub open spec fn deployed_service(service: ServiceView, plan: DeployPlanView) -> ServiceView {
    ServiceView {
        ports: with_new(service.ports, plan.changes.ports.reserve),
        domains: with_new(service.domains, plan_hosts(plan)),
        compose_projects: with_new(service.compose_projects, plan_projects(plan)),
        containers: with_new(service.containers, plan.changes.docker.containers),
        volumes: with_new(service.volumes, plan.changes.docker.volumes),
        root: if service.root is None {
            Some(plan.project_root)
        } else {
            service.root
        },
        status: "active"@,
        ..service
    }
}

/// A service after a deploy, and whether the deploy changed it.
pub fn apply_deploy_to_service(service: &Service, plan: &DeployPlan) -> (r: (Service, bool))
    ensures
        r.0.deep_view() == deployed_service(service.deep_view(), plan.deep_view()),
        r.1 == (r.0.deep_view() != service.deep_view()),
{
    let mut updated = service.clone();
    let mut changed = push_unique_numbers(&mut updated.ports, &plan.changes.ports.reserve);
    if push_unique_strings(&mut updated.domains, &list_plan_hosts(plan)) {
        changed = true;
    }
    if push_unique_strings(&mut updated.compose_projects, &list_plan_projects(plan)) {
        changed = true;
    }
    if push_unique_strings(&mut updated.containers, &plan.changes.docker.containers) {
        changed = true;
    }
    if push_unique_strings(&mut updated.volumes, &plan.changes.docker.volumes) {
        changed = true;
    }
    if updated.root.is_none() {
        updated.root = Some(plan.project_root.clone());
        changed = true;
    }
    if !same(&updated.status, "active") {
        updated.status = "active".to_string();
        changed = true;
    }
    proof {
        assert(updated.deep_view() == deployed_service(service.deep_view(), plan.deep_view()));
    }
    (updated, changed)
}

/// The contract of a service that a deploy creates.
pub open spec fn fresh_contract() -> ServiceDeploymentContractView {
    ServiceDeploymentContractView {
        build: Seq::empty(),
        laravel: None,
        migrations: Seq::empty(),
        migration_adapters: Seq::empty(),
        systemd: Seq::empty(),
        static_sites: Seq::empty(),
        notes: Some(
            "Created by deploy write-back; refine this contract before future production updates."@,
        ),
    }
}

/// The backup policy of what a deploy creates.
pub open spec fn backup_policy_for(environment: Seq<char>) -> Option<Seq<char>> {
    if environment == "production"@ {
        Some("before_deploy"@)
    } else {
        None
    }
}

/// The backup policy of what a deploy creates.
fn choose_backup_policy(environment: &str) -> (r: Option<String>)
    ensures
        r.deep_view() == backup_policy_for(environment@),
{
    if same(environment, "production") {
        Some("before_deploy".to_string())
    } else {
        None
    }
}

/// The service that a deploy creates.
pub open spec fn fresh_service(plan: DeployPlanView, id: Seq<char>) -> ServiceView {
    ServiceView {
        id,
        name: id,
        root: Some(plan.project_root),
        kind: "unknown"@,
        environment: plan.environment,
        deploy_method: match plan.changes.docker.compose_project {
            Some(_) => Some("docker-compose"@),
            None => None,
        },
        owner: None,
        status: "active"@,
        ports: plan.changes.ports.reserve,
        domains: plan_hosts(plan),
        compose_projects: plan_projects(plan),
        containers: plan.changes.docker.containers,
        volumes: plan.changes.docker.volumes,
        data_paths: Seq::empty(),
        env_files: Seq::empty(),
        database: None,
        deployment: Some(fresh_contract()),
        backup_policy: backup_policy_for(plan.environment),
        notes: Some("Created by opsctl deploy "@ + plan.id + "."@),
    }
}

/// The service that a deploy creates.
pub fn create_service(plan: &DeployPlan, id: &str) -> (r: Service)
    ensures
        r.deep_view() == fresh_service(plan.deep_view(), id@),
{
    let contract = ServiceDeploymentContract {
        build: Vec::new(),
        laravel: None,
        migrations: Vec::new(),
        migration_adapters: Vec::new(),
        systemd: Vec::new(),
        static_sites: Vec::new(),
        notes: Some(
            "Created by deploy write-back; refine this contract before future production updates.".to_string(),
        ),
    };
    proof {
        assert(contract.build.deep_view() =~= Seq::<ServiceBuildContractView>::empty());
        assert(contract.migrations.deep_view() =~= Seq::<Seq<char>>::empty());
        assert(contract.migration_adapters.deep_view() =~= Seq::<Seq<char>>::empty());
        assert(contract.systemd.deep_view() =~= Seq::<ServiceSystemdContractView>::empty());
        assert(contract.static_sites.deep_view() =~= Seq::<ServiceStaticSiteContractView>::empty());
    }
    let deploy_method = match plan.changes.docker.compose_project {
        Some(_) => Some("docker-compose".to_string()),
        None => None,
    };
    let service = Service {
        id: id.to_string(),
        name: id.to_string(),
        root: Some(plan.project_root.clone()),
        kind: "unknown".to_string(),
        environment: plan.environment.clone(),
        deploy_method,
        owner: None,
        status: "active".to_string(),
        ports: plan.changes.ports.reserve.clone(),
        domains: list_plan_hosts(plan),
        compose_projects: list_plan_projects(plan),
        containers: plan.changes.docker.containers.clone(),
        volumes: plan.changes.docker.volumes.clone(),
        data_paths: Vec::new(),
        env_files: Vec::new(),
        database: None,
        deployment: Some(contract),
        backup_policy: choose_backup_policy(&plan.environment),
        notes: Some(cat3("Created by opsctl deploy ", &plan.id, ".")),
    };
    proof {
        assert(service.data_paths.deep_view() =~= Seq::<Seq<char>>::empty());
        assert(service.env_files.deep_view() =~= Seq::<Seq<char>>::empty());
        assert(service.ports.deep_view() =~= plan.deep_view().changes.ports.reserve);
    }
    service
}

/// The services after a deploy; nothing where nothing changes.
pub open spec fn services_after(
    services: Seq<ServiceView>,
    plan: DeployPlanView,
    id: Seq<char>,
) -> Option<Seq<ServiceView>> {
    let i = service_index(services, id);
    if i < services.len() {
        let updated = deployed_service(services[i], plan);
        if updated == services[i] {
            None
        } else {
            Some(services.update(i, updated))
        }
    } else {
        Some(services.push(fresh_service(plan, id)))
    }
}

/// The services after a deploy; nothing where nothing changes.
pub fn update_services_registry(registry: &ServicesRegistry, plan: &DeployPlan, service_id: &str)
    -> (r: Option<ServicesRegistry>)
    ensures
        match services_after(registry.deep_view().services, plan.deep_view(), service_id@) {
            Some(services) => r is Some && r->0.deep_view().services == services,
            None => r is None,
        },
{
    let i = find_service_index(&registry.services, service_id);
    proof {
        assert(registry.services.deep_view().len() == registry.services@.len());
    }
    if i < registry.services.len() {
        proof {
            assert(registry.services.deep_view()[i as int]
                == registry.services@[i as int].deep_view());
        }
        let (updated, changed) = apply_deploy_to_service(&registry.services[i], plan);
        if !changed {
            return None;
        }
        return Some(replace_service(registry, i, updated));
    }
    let mut services = registry.services.clone();
    let ghost before = services.deep_view();
    let service = create_service(plan, service_id);
    services.push(service);
    proof {
        assert(services.deep_view() =~= before.push(service.deep_view()));
    }
    Some(ServicesRegistry { services })
}

// ---------------------------------------------------------------------------
// Ports
// ---------------------------------------------------------------------------

/// The port record with this number.
pub open spec fn port_entry(ports: Seq<PortRecordView>, port: u16) -> Option<PortRecordView> {
    first_where(ports, |p: PortRecordView| p.port == port)
}

/// The record for a port that a deploy reserves.
pub open spec fn fresh_port(
    ports: Seq<PortRecordView>,
    port: u16,
    service: Seq<char>,
    plan_id: Seq<char>,
    stamp: i64,
) -> PortRecordView {
    PortRecordView {
        id: deploy_record_id(
            ports.map_values(|p: PortRecordView| p.id),
            service + "-"@ + decimal(port as nat),
            stamp,
        ),
        port,
        protocol: "tcp"@,
        bind: "127.0.0.1"@,
        service_id: service,
        purpose: Some("reserved by deploy "@ + plan_id),
        exposure: "localhost"@,
        source: "reserved"@,
        notes: Some("Created by opsctl deploy."@),
    }
}

/// The ports after reserving some; an error if one belongs to another service.
pub open spec fn ports_after(
    ports: Seq<PortRecordView>,
    reserve: Seq<u16>,
    service: Seq<char>,
    plan_id: Seq<char>,
    stamp: i64,
) -> Result<Seq<PortRecordView>, Seq<char>>
    decreases reserve.len(),
{
    if reserve.len() == 0 {
        Ok(ports)
    } else {
        match ports_after(ports, reserve.drop_last(), service, plan_id, stamp) {
            Err(error) => Err(error),
            Ok(now) => {
                let port = reserve.last();
                match port_entry(now, port) {
                    Some(existing) => if existing.service_id != service {
                        Err(
                            "port "@ + decimal(port as nat)
                                + " is already registered to service "@ + existing.service_id,
                        )
                    } else {
                        Ok(now)
                    },
                    None => Ok(now.push(fresh_port(now, port, service, plan_id, stamp))),
                }
            },
        }
    }
}

/// The ports in a registry.
fn port_ids(ports: &Vec<PortRecord>) -> (r: Vec<String>)
    ensures
        r.deep_view() == ports.deep_view().map_values(|p: PortRecordView| p.id),
{
    map_each(
        ports,
        |p: &PortRecord| -> (t: String)
            ensures
                t.deep_view() == p.deep_view().id
            { p.id.clone() },
        Ghost(|p: PortRecordView| p.id),
    )
}

/// Reserves a port. Says whether a record was added; an error if the port belongs to
/// another service.
fn reserve_port(
    ports: &mut Vec<PortRecord>,
    port: u16,
    service_id: &str,
    plan: &DeployPlan,
    stamp: i64,
) -> (r: Result<bool, String>)
    ensures
        match port_entry(old(ports).deep_view(), port) {
            Some(existing) => final(ports).deep_view() == old(ports).deep_view() && (
            if existing.service_id != service_id@ {
                r is Err && r->Err_0@ == "port "@ + decimal(port as nat)
                    + " is already registered to service "@ + existing.service_id
            } else {
                r == Ok::<bool, String>(false)
            }),
            None => r == Ok::<bool, String>(true) && final(ports).deep_view() == old(
                ports,
            ).deep_view().push(
                fresh_port(
                    old(ports).deep_view(),
                    port,
                    service_id@,
                    plan.deep_view().id,
                    stamp,
                ),
            ),
        },
{
    let ghost before = ports.deep_view();
    if let Some(existing) = find_first(
        ports,
        |p: &PortRecord| -> (b: bool)
            ensures
                b == (p.deep_view().port == port)
            { p.port == port },
        Ghost(|p: PortRecordView| p.port == port),
    ) {
        if !same(&existing.service_id, service_id) {
            return Err(
                cat4(
                    "port ",
                    &decimal_text(port as u64),
                    " is already registered to service ",
                    &existing.service_id,
                ),
            );
        }
        return Ok(false);
    }
    let id = unique_deploy_record_id(
        &port_ids(ports),
        &cat3(service_id, "-", &decimal_text(port as u64)),
        stamp,
    );
    let record = PortRecord {
        id,
        port,
        protocol: "tcp".to_string(),
        bind: "127.0.0.1".to_string(),
        service_id: service_id.to_string(),
        purpose: Some(cat2("reserved by deploy ", &plan.id)),
        exposure: "localhost".to_string(),
        source: "reserved".to_string(),
        notes: Some("Created by opsctl deploy.".to_string()),
    };
    ports.push(record);
    proof {
        assert(ports.deep_view() =~= before.push(record.deep_view()));
    }
    Ok(true)
}

/// The ports after a deploy; nothing where nothing changes. An error if a port
/// belongs to another service.
pub fn update_ports_registry(
    registry: &PortsRegistry,
    plan: &DeployPlan,
    service_id: &str,
    stamp: i64,
) -> (r: Result<Option<PortsRegistry>, String>)
    ensures
        match ports_after(
            registry.deep_view().ports,
            plan.deep_view().changes.ports.reserve,
            service_id@,
            plan.deep_view().id,
            stamp,
        ) {
            Ok(ports) => r is Ok && (if ports.len() == registry.deep_view().ports.len() {
                r->Ok_0 is None
            } else {
                r->Ok_0 is Some && r->Ok_0->0.deep_view().ports == ports
            }),
            Err(error) => r is Err && r->Err_0@ == error,
        },
{
    let ghost start = registry.deep_view().ports;
    let reserve = &plan.changes.ports.reserve;
    let ghost all = reserve.deep_view();
    let mut ports = registry.ports.clone();
    let mut changed = false;
    let mut i: usize = 0;
    proof {
        ends(all);
    }
    while i < reserve.len()
        invariant
            i <= reserve@.len(),
            all == reserve.deep_view(),
            all == plan.deep_view().changes.ports.reserve,
            start == registry.deep_view().ports,
            ports_after(start, all.take(i as int), service_id@, plan.deep_view().id, stamp) == Ok::<
                Seq<PortRecordView>,
                Seq<char>,
            >(ports.deep_view()),
            changed == (ports.deep_view().len() != start.len()),
            ports.deep_view().len() >= start.len(),
        decreases reserve@.len() - i,
    {
        proof {
            step(all, i as int);
            assert(all[i as int] == reserve@[i as int]);
        }
        match reserve_port(&mut ports, reserve[i], service_id, plan, stamp) {
            Ok(added) => {
                if added {
                    changed = true;
                }
            },
            Err(error) => {
                proof {
                    lemma_port_error(
                        start,
                        all,
                        i as int,
                        service_id@,
                        plan.deep_view().id,
                        stamp,
                    );
                }
                return Err(error);
            },
        }
        i = i + 1;
    }
    proof {
        ends(all);
    }
    if changed {
        Ok(Some(PortsRegistry { ports }))
    } else {
        Ok(None)
    }
}

/// An error at one port is an error for all of them.
proof fn lemma_port_error(
    ports: Seq<PortRecordView>,
    reserve: Seq<u16>,
    i: int,
    service: Seq<char>,
    plan_id: Seq<char>,
    stamp: i64,
)
    requires
        0 <= i < reserve.len(),
        ports_after(ports, reserve.take(i + 1), service, plan_id, stamp) is Err,
    ensures
        ports_after(ports, reserve, service, plan_id, stamp) == ports_after(
            ports,
            reserve.take(i + 1),
            service,
            plan_id,
            stamp,
        ),
    decreases reserve.len() - i,
{
    if i + 1 == reserve.len() {
        ends(reserve);
    } else {
        step(reserve, i + 1);
        lemma_port_error(ports, reserve, i + 1, service, plan_id, stamp);
    }
}

// ---------------------------------------------------------------------------
// Domains
// ---------------------------------------------------------------------------

/// Where the record of a host is.
pub open spec fn domain_index(domains: Seq<DomainRecordView>, host: Seq<char>) -> int {
    first_index(domains, |d: DomainRecordView| d.host == host)
}

/// The record for a host that a deploy adds.
pub open spec fn fresh_domain(
    domains: Seq<DomainRecordView>,
    route: CaddyRouteChangeView,
    service: Seq<char>,
    stamp: i64,
) -> DomainRecordView {
    DomainRecordView {
        id: deploy_record_id(
            domains.map_values(|d: DomainRecordView| d.id),
            service + "-"@ + deploy_id_part(route.host),
            stamp,
        ),
        host: route.host,
        service_id: service,
        upstream: Some(route.upstream),
        caddy_managed: Some(true),
        tls: Some("automatic"@),
        status: "active"@,
        notes: Some("Created by opsctl deploy."@),
    }
}

/// Whether a record already leads where a route does.
pub open spec fn domain_is_current(record: DomainRecordView, route: CaddyRouteChangeView) -> bool {
    record.upstream == Some(route.upstream) && record.status == "active"@
}

/// A record that leads where a route does.
pub open spec fn redirected(record: DomainRecordView, route: CaddyRouteChangeView) ->
    DomainRecordView {
    DomainRecordView {
        upstream: Some(route.upstream),
        status: "active"@,
        caddy_managed: Some(true),
        ..record
    }
}

/// The domains after one route, and whether it changed them; an error if the host
/// belongs to another service.
pub open spec fn with_domain(
    domains: Seq<DomainRecordView>,
    route: CaddyRouteChangeView,
    service: Seq<char>,
    stamp: i64,
) -> Result<(Seq<DomainRecordView>, bool), Seq<char>> {
    let i = domain_index(domains, route.host);
    if i < domains.len() {
        let existing = domains[i];
        if existing.service_id != service {
            Err(
                "domain "@ + route.host + " is already registered to service "@
                    + existing.service_id,
            )
        } else if domain_is_current(existing, route) {
            Ok((domains, false))
        } else {
            Ok((domains.update(i, redirected(existing, route)), true))
        }
    } else {
        Ok((domains.push(fresh_domain(domains, route, service, stamp)), true))
    }
}

/// The domains after the routes, and whether they changed them.
pub open spec fn domains_after(
    domains: Seq<DomainRecordView>,
    routes: Seq<CaddyRouteChangeView>,
    service: Seq<char>,
    stamp: i64,
) -> Result<(Seq<DomainRecordView>, bool), Seq<char>>
    decreases routes.len(),
{
    if routes.len() == 0 {
        Ok((domains, false))
    } else {
        match domains_after(domains, routes.drop_last(), service, stamp) {
            Err(error) => Err(error),
            Ok(now) => match with_domain(now.0, routes.last(), service, stamp) {
                Err(error) => Err(error),
                Ok(then_now) => Ok((then_now.0, now.1 || then_now.1)),
            },
        }
    }
}

/// Adds or updates the record of a host. Says whether anything changed; an error if
/// the host belongs to another service.
fn place_domain(
    domains: &mut Vec<DomainRecord>,
    route: &CaddyRouteChange,
    service_id: &str,
    stamp: i64,
) -> (r: Result<bool, String>)
    ensures
        match with_domain(old(domains).deep_view(), route.deep_view(), service_id@, stamp) {
            Ok(now) => r == Ok::<bool, String>(now.1) && final(domains).deep_view() == now.0,
            Err(error) => r is Err && r->Err_0@ == error && final(domains).deep_view() == old(
                domains,
            ).deep_view(),
        },
{
    let ghost before = domains.deep_view();
    let host = &route.host;
    let i = index_where(
        domains,
        |d: &DomainRecord| -> (b: bool)
            ensures
                b == (d.deep_view().host == host@)
            { same(&d.host, host) },
        Ghost(|d: DomainRecordView| d.host == host@),
    );
    proof {
        assert(domains.deep_view().len() == domains@.len());
    }
    if i < domains.len() {
        let mut existing = domains[i].clone();
        proof {
            assert(before[i as int] == domains@[i as int].deep_view());
        }
        if !same(&existing.service_id, service_id) {
            return Err(
                cat4(
                    "domain ",
                    &route.host,
                    " is already registered to service ",
                    &existing.service_id,
                ),
            );
        }
        if is_text(as_text(&existing.upstream), &route.upstream) && same(
            &existing.status,
            "active",
        ) {
            return Ok(false);
        }
        existing.upstream = Some(route.upstream.clone());
        existing.status = "active".to_string();
        existing.caddy_managed = Some(true);
        domains.set(i, existing);
        proof {
            assert(domains.deep_view() =~= before.update(i as int, existing.deep_view()));
        }
        return Ok(true);
    }
    let ids = map_each(
        domains,
        |d: &DomainRecord| -> (t: String)
            ensures
                t.deep_view() == d.deep_view().id
            { d.id.clone() },
        Ghost(|d: DomainRecordView| d.id),
    );
    let id = unique_deploy_record_id(
        &ids,
        &cat3(service_id, "-", &sanitize_deploy_id_part(&route.host)),
        stamp,
    );
    let record = DomainRecord {
        id,
        host: route.host.clone(),
        service_id: service_id.to_string(),
        upstream: Some(route.upstream.clone()),
        caddy_managed: Some(true),
        tls: Some("automatic".to_string()),
        status: "active".to_string(),
        notes: Some("Created by opsctl deploy.".to_string()),
    };
    domains.push(record);
    proof {
        assert(domains.deep_view() =~= before.push(record.deep_view()));
    }
    Ok(true)
}

/// The domains after a deploy; nothing where nothing changes. An error if a host
/// belongs to another service.
pub fn update_domains_registry(
    registry: &DomainsRegistry,
    plan: &DeployPlan,
    service_id: &str,
    stamp: i64,
) -> (r: Result<Option<DomainsRegistry>, String>)
    ensures
        match domains_after(
            registry.deep_view().domains,
            plan.deep_view().changes.caddy.routes,
            service_id@,
            stamp,
        ) {
            Ok(now) => r is Ok && (if now.1 {
                r->Ok_0 is Some && r->Ok_0->0.deep_view().domains == now.0
            } else {
                r->Ok_0 is None
            }),
            Err(error) => r is Err && r->Err_0@ == error,
        },
{
    let ghost start = registry.deep_view().domains;
    let routes = &plan.changes.caddy.routes;
    let ghost all = routes.deep_view();
    let mut domains = registry.domains.clone();
    let mut changed = false;
    let mut i: usize = 0;
    proof {
        ends(all);
    }
    while i < routes.len()
        invariant
            i <= routes@.len(),
            all == routes.deep_view(),
            all == plan.deep_view().changes.caddy.routes,
            start == registry.deep_view().domains,
            domains_after(start, all.take(i as int), service_id@, stamp) == Ok::<
                (Seq<DomainRecordView>, bool),
                Seq<char>,
            >((domains.deep_view(), changed)),
        decreases routes@.len() - i,
    {
        proof {
            step(all, i as int);
            assert(all[i as int] == routes@[i as int].deep_view());
        }
        match place_domain(&mut domains, &routes[i], service_id, stamp) {
            Ok(touched) => {
                if touched {
                    changed = true;
                }
            },
            Err(error) => {
                proof {
                    lemma_domain_error(start, all, i as int, service_id@, stamp);
                }
                return Err(error);
            },
        }
        i = i + 1;
    }
    proof {
        ends(all);
    }
    if changed {
        Ok(Some(DomainsRegistry { domains }))
    } else {
        Ok(None)
    }
}

/// An error at one route is an error for all of them.
proof fn lemma_domain_error(
    domains: Seq<DomainRecordView>,
    routes: Seq<CaddyRouteChangeView>,
    i: int,
    service: Seq<char>,
    stamp: i64,
)
    requires
        0 <= i < routes.len(),
        domains_after(domains, routes.take(i + 1), service, stamp) is Err,
    ensures
        domains_after(domains, routes, service, stamp) == domains_after(
            domains,
            routes.take(i + 1),
            service,
            stamp,
        ),
    decreases routes.len() - i,
{
    if i + 1 == routes.len() {
        ends(routes);
    } else {
        step(routes, i + 1);
        lemma_domain_error(domains, routes, i + 1, service, stamp);
    }
}

// ---------------------------------------------------------------------------
// Volumes
// ---------------------------------------------------------------------------

/// The record of a volume.
pub open spec fn volume_record_for(volumes: Seq<VolumeRecordView>, volume: Seq<char>) -> Option<
    VolumeRecordView,
> {
    first_where(volumes, |v: VolumeRecordView| v.name == volume || v.id == volume)
}

/// The record for a volume that a deploy adds.
pub open spec fn fresh_volume(
    volumes: Seq<VolumeRecordView>,
    volume: Seq<char>,
    service: Seq<char>,
    environment: Seq<char>,
    stamp: i64,
) -> VolumeRecordView {
    VolumeRecordView {
        id: deploy_record_id(
            volumes.map_values(|v: VolumeRecordView| v.id),
            service + "-"@ + deploy_id_part(volume),
            stamp,
        ),
        name: volume,
        service_id: service,
        kind: "docker"@,
        mountpoint: None,
        contains: Seq::empty(),
        backup_policy: backup_policy_for(environment),
        protected: true,
        notes: Some("Created by opsctl deploy."@),
    }
}

/// The volumes after adding some; an error if one belongs to another service.
pub open spec fn volumes_after(
    volumes: Seq<VolumeRecordView>,
    names: Seq<Seq<char>>,
    service: Seq<char>,
    environment: Seq<char>,
    stamp: i64,
) -> Result<Seq<VolumeRecordView>, Seq<char>>
    decreases names.len(),
{
    if names.len() == 0 {
        Ok(volumes)
    } else {
        match volumes_after(volumes, names.drop_last(), service, environment, stamp) {
            Err(error) => Err(error),
            Ok(now) => match volume_record_for(now, names.last()) {
                Some(existing) => if existing.service_id != service {
                    Err(
                        "volume "@ + names.last() + " is already registered to service "@
                            + existing.service_id,
                    )
                } else {
                    Ok(now)
                },
                None => Ok(
                    now.push(fresh_volume(now, names.last(), service, environment, stamp)),
                ),
            },
        }
    }
}

/// Adds a volume. Says whether a record was added; an error if the volume belongs to
/// another service.
fn place_volume(
    volumes: &mut Vec<VolumeRecord>,
    volume: &String,
    service_id: &str,
    environment: &str,
    stamp: i64,
) -> (r: Result<bool, String>)
    ensures
        match volume_record_for(old(volumes).deep_view(), volume@) {
            Some(existing) => final(volumes).deep_view() == old(volumes).deep_view() && (
            if existing.service_id != service_id@ {
                r is Err && r->Err_0@ == "volume "@ + volume@
                    + " is already registered to service "@ + existing.service_id
            } else {
                r == Ok::<bool, String>(false)
            }),
            None => r == Ok::<bool, String>(true) && final(volumes).deep_view() == old(
                volumes,
            ).deep_view().push(
                fresh_volume(
                    old(volumes).deep_view(),
                    volume@,
                    service_id@,
                    environment@,
                    stamp,
                ),
            ),
        },
{
    let ghost before = volumes.deep_view();
    if let Some(existing) = find_first(
        volumes,
        |v: &VolumeRecord| -> (b: bool)
            ensures
                b == (v.deep_view().name == volume@ || v.deep_view().id == volume@)
            { same(&v.name, volume) || same(&v.id, volume) },
        Ghost(|v: VolumeRecordView| v.name == volume@ || v.id == volume@),
    ) {
        if !same(&existing.service_id, service_id) {
            return Err(
                cat4(
                    "volume ",
                    volume,
                    " is already registered to service ",
                    &existing.service_id,
                ),
            );
        }
        return Ok(false);
    }
    let ids = map_each(
        volumes,
        |v: &VolumeRecord| -> (t: String)
            ensures
                t.deep_view() == v.deep_view().id
            { v.id.clone() },
        Ghost(|v: VolumeRecordView| v.id),
    );
    let id = unique_deploy_record_id(
        &ids,
        &cat3(service_id, "-", &sanitize_deploy_id_part(volume)),
        stamp,
    );
    let record = VolumeRecord {
        id,
        name: volume.clone(),
        service_id: service_id.to_string(),
        kind: "docker".to_string(),
        mountpoint: None,
        contains: Vec::new(),
        backup_policy: choose_backup_policy(environment),
        protected: true,
        notes: Some("Created by opsctl deploy.".to_string()),
    };
    proof {
        assert(record.contains.deep_view() =~= Seq::<Seq<char>>::empty());
    }
    volumes.push(record);
    proof {
        assert(volumes.deep_view() =~= before.push(record.deep_view()));
    }
    Ok(true)
}

/// The volumes after a deploy; nothing where nothing changes. An error if a volume
/// belongs to another service.
pub fn update_volumes_registry(
    registry: &VolumesRegistry,
    plan: &DeployPlan,
    service_id: &str,
    stamp: i64,
) -> (r: Result<Option<VolumesRegistry>, String>)
    ensures
        match volumes_after(
            registry.deep_view().volumes,
            plan.deep_view().changes.docker.volumes,
            service_id@,
            plan.deep_view().environment,
            stamp,
        ) {
            Ok(volumes) => r is Ok && (if volumes.len() == registry.deep_view().volumes.len() {
                r->Ok_0 is None
            } else {
                r->Ok_0 is Some && r->Ok_0->0.deep_view().volumes == volumes
            }),
            Err(error) => r is Err && r->Err_0@ == error,
        },
{
    let ghost start = registry.deep_view().volumes;
    let names = &plan.changes.docker.volumes;
    let ghost all = names.deep_view();
    let mut volumes = registry.volumes.clone();
    let mut changed = false;
    let mut i: usize = 0;
    proof {
        ends(all);
    }
    while i < names.len()
        invariant
            i <= names@.len(),
            all == names.deep_view(),
            all == plan.deep_view().changes.docker.volumes,
            start == registry.deep_view().volumes,
            volumes_after(
                start,
                all.take(i as int),
                service_id@,
                plan.deep_view().environment,
                stamp,
            ) == Ok::<Seq<VolumeRecordView>, Seq<char>>(volumes.deep_view()),
            changed == (volumes.deep_view().len() != start.len()),
            volumes.deep_view().len() >= start.len(),
        decreases names@.len() - i,
    {
        proof {
            step(all, i as int);
        }
        match place_volume(&mut volumes, &names[i], service_id, &plan.environment, stamp) {
            Ok(added) => {
                if added {
                    changed = true;
                }
            },
            Err(error) => {
                proof {
                    lemma_volume_error(
                        start,
                        all,
                        i as int,
                        service_id@,
                        plan.deep_view().environment,
                        stamp,
                    );
                }
                return Err(error);
            },
        }
        i = i + 1;
    }
    proof {
        ends(all);
    }
    if changed {
        Ok(Some(VolumesRegistry { volumes }))
    } else {
        Ok(None)
    }
}

/// An error at one volume is an error for all of them.
proof fn lemma_volume_error(
    volumes: Seq<VolumeRecordView>,
    names: Seq<Seq<char>>,
    i: int,
    service: Seq<char>,
    environment: Seq<char>,
    stamp: i64,
)
    requires
        0 <= i < names.len(),
        volumes_after(volumes, names.take(i + 1), service, environment, stamp) is Err,
    ensures
        volumes_after(volumes, names, service, environment, stamp) == volumes_after(
            volumes,
            names.take(i + 1),
            service,
            environment,
            stamp,
        ),
    decreases names.len() - i,
{
    if i + 1 == names.len() {
        ends(names);
    } else {
        step(names, i + 1);
        lemma_volume_error(volumes, names, i + 1, service, environment, stamp);
    }
}

// ---------------------------------------------------------------------------
// The whole registry
// ---------------------------------------------------------------------------

/// The files of the registry that a deploy changes. They are written in this order;
/// an error says why the rest is not.
#[derive(Debug)]
pub struct RegistryWriteback {
    pub services: Option<ServicesRegistry>,
    pub ports: Option<PortsRegistry>,
    pub domains: Option<DomainsRegistry>,
    pub volumes: Option<VolumesRegistry>,
    pub error: Option<String>,
}

/// The files of the registry that a deploy changes, as lists of records.
pub struct RegistryWritebackView {
    pub services: Option<Seq<ServiceView>>,
    pub ports: Option<Seq<PortRecordView>>,
    pub domains: Option<Seq<DomainRecordView>>,
    pub volumes: Option<Seq<VolumeRecordView>>,
    pub error: Option<Seq<char>>,
}

impl DeepView for RegistryWriteback {
    type V = RegistryWritebackView;

    open spec fn deep_view(&self) -> RegistryWritebackView {
        RegistryWritebackView {
            services: match self.services {
                Some(file) => Some(file.services.deep_view()),
                None => None,
            },
            ports: match self.ports {
                Some(file) => Some(file.ports.deep_view()),
                None => None,
            },
            domains: match self.domains {
                Some(file) => Some(file.domains.deep_view()),
                None => None,
            },
            volumes: match self.volumes {
                Some(file) => Some(file.volumes.deep_view()),
                None => None,
            },
            error: self.error.deep_view(),
        }
    }
}

/// A list, unless it is as long as before.
pub open spec fn if_longer<A>(before: Seq<A>, now: Seq<A>) -> Option<Seq<A>> {
    if now.len() == before.len() {
        None
    } else {
        Some(now)
    }
}

/// The files of the registry that a deploy changes.
pub open spec fn writeback(registry: RegistryView, plan: DeployPlanView, stamp: i64) ->
    RegistryWritebackView {
    let id = plan_service(plan);
    let services = services_after(registry.services.services, plan, id);
    match ports_after(
        registry.ports.ports,
        plan.changes.ports.reserve,
        id,
        plan.id,
        stamp,
    ) {
        Err(error) => RegistryWritebackView {
            services,
            ports: None,
            domains: None,
            volumes: None,
            error: Some(error),
        },
        Ok(p) => {
            let ports = if_longer(registry.ports.ports, p);
            match domains_after(
                registry.domains.domains,
                plan.changes.caddy.routes,
                id,
                stamp,
            ) {
                Err(error) => RegistryWritebackView {
                    services,
                    ports,
                    domains: None,
                    volumes: None,
                    error: Some(error),
                },
                Ok(d) => {
                    let domains = if d.1 {
                        Some(d.0)
                    } else {
                        None
                    };
                    match volumes_after(
                        registry.volumes.volumes,
                        plan.changes.docker.volumes,
                        id,
                        plan.environment,
                        stamp,
                    ) {
                        Err(error) => RegistryWritebackView {
                            services,
                            ports,
                            domains,
                            volumes: None,
                            error: Some(error),
                        },
                        Ok(v) => RegistryWritebackView {
                            services,
                            ports,
                            domains,
                            volumes: if_longer(registry.volumes.volumes, v),
                            error: None,
                        },
                    }
                },
            }
        },
    }
}

/// The files of the registry that a deploy changes.
pub fn apply_registry_writeback(registry: &Registry, plan: &DeployPlan, stamp: i64) -> (r:
    RegistryWriteback)
    ensures
        r.deep_view() == writeback(registry.deep_view(), plan.deep_view(), stamp),
{
    let id = service_id_for_plan(plan);
    let services = update_services_registry(&registry.services, plan, &id);
    let ports = match update_ports_registry(&registry.ports, plan, &id, stamp) {
        Ok(ports) => ports,
        Err(error) => {
            return RegistryWriteback {
                services,
                ports: None,
                domains: None,
                volumes: None,
                error: Some(error),
            };
        },
    };
    let domains = match update_domains_registry(&registry.domains, plan, &id, stamp) {
        Ok(domains) => domains,
        Err(error) => {
            return RegistryWriteback {
                services,
                ports,
                domains: None,
                volumes: None,
                error: Some(error),
            };
        },
    };
    match update_volumes_registry(&registry.volumes, plan, &id, stamp) {
        Ok(volumes) => RegistryWriteback { services, ports, domains, volumes, error: None },
        Err(error) => RegistryWriteback {
            services,
            ports,
            domains,
            volumes: None,
            error: Some(error),
        },
    }
}

// ---------------------------------------------------------------------------
// Laws
// ---------------------------------------------------------------------------

/// Reserving ports keeps every record that was there, and afterwards every port of
/// the plan belongs to the service. Reserving them again changes nothing.
pub proof fn law_ports_are_reserved_once(
    ports: Seq<PortRecordView>,
    reserve: Seq<u16>,
    service: Seq<char>,
    plan_id: Seq<char>,
    stamp: i64,
)
    requires
        ports_after(ports, reserve, service, plan_id, stamp) is Ok,
    ensures
        ({
            let now = ports_after(ports, reserve, service, plan_id, stamp)->Ok_0;
            &&& ports.len() <= now.len()
            &&& now.take(ports.len() as int) == ports
            &&& forall|i: int|
                0 <= i < reserve.len() ==> port_entry(now, #[trigger] reserve[i]) is Some
                    && port_entry(now, reserve[i])->0.service_id == service
            &&& ports_after(now, reserve, service, plan_id, stamp) == Ok::<
                Seq<PortRecordView>,
                Seq<char>,
            >(now)
        }),
{
    lemma_ports_reserved(ports, reserve, service, plan_id, stamp);
    let now = ports_after(ports, reserve, service, plan_id, stamp)->Ok_0;
    lemma_nothing_to_reserve(now, reserve, service, plan_id, stamp);
}

proof fn lemma_entry_stays(ports: Seq<PortRecordView>, x: PortRecordView, port: u16)
    ensures
        port_entry(ports, port) is Some ==> port_entry(ports.push(x), port) == port_entry(
            ports,
            port,
        ),
        port_entry(ports, port) is None && x.port == port ==> port_entry(ports.push(x), port)
            == Some(x),
{
    assert(ports.push(x).drop_last() =~= ports);
}

proof fn lemma_ports_reserved(
    ports: Seq<PortRecordView>,
    reserve: Seq<u16>,
    service: Seq<char>,
    plan_id: Seq<char>,
    stamp: i64,
)
    requires
        ports_after(ports, reserve, service, plan_id, stamp) is Ok,
    ensures
        ({
            let now = ports_after(ports, reserve, service, plan_id, stamp)->Ok_0;
            &&& ports.len() <= now.len()
            &&& now.take(ports.len() as int) == ports
            &&& forall|i: int|
                0 <= i < reserve.len() ==> port_entry(now, #[trigger] reserve[i]) is Some
                    && port_entry(now, reserve[i])->0.service_id == service
        }),
    decreases reserve.len(),
{
    ends(ports);
    if reserve.len() > 0 {
        let d = reserve.drop_last();
        lemma_ports_reserved(ports, d, service, plan_id, stamp);
        let before = ports_after(ports, d, service, plan_id, stamp)->Ok_0;
        let now = ports_after(ports, reserve, service, plan_id, stamp)->Ok_0;
        let port = reserve.last();
        let x = fresh_port(before, port, service, plan_id, stamp);
        assert(now.take(ports.len() as int) =~= before.take(ports.len() as int));
        assert forall|i: int| 0 <= i < reserve.len() implies port_entry(
            now,
            #[trigger] reserve[i],
        ) is Some && port_entry(now, reserve[i])->0.service_id == service by {
            lemma_entry_stays(before, x, reserve[i]);
            if i < d.len() {
                assert(d[i] == reserve[i]);
            }
        }
    }
}

proof fn lemma_nothing_to_reserve(
    ports: Seq<PortRecordView>,
    reserve: Seq<u16>,
    service: Seq<char>,
    plan_id: Seq<char>,
    stamp: i64,
)
    requires
        forall|i: int|
            0 <= i < reserve.len() ==> port_entry(ports, #[trigger] reserve[i]) is Some
                && port_entry(ports, reserve[i])->0.service_id == service,
    ensures
        ports_after(ports, reserve, service, plan_id, stamp) == Ok::<
            Seq<PortRecordView>,
            Seq<char>,
        >(ports),
    decreases reserve.len(),
{
    if reserve.len() > 0 {
        let d = reserve.drop_last();
        assert forall|i: int| 0 <= i < d.len() implies port_entry(ports, #[trigger] d[i]) is Some
            && port_entry(ports, d[i])->0.service_id == service by {
            assert(reserve[i] == d[i]);
        }
        lemma_nothing_to_reserve(ports, d, service, plan_id, stamp);
        assert(reserve[reserve.len() - 1] == reserve.last());
    }
}

/// A deploy keeps everything that a service had, and makes it active.
pub proof fn law_deploys_only_add_to_services(service: ServiceView, plan: DeployPlanView)
    ensures
        ({
            let now = deployed_service(service, plan);
            &&& now.id == service.id
            &&& now.status == "active"@
            &&& service.ports.len() <= now.ports.len()
            &&& now.ports.take(service.ports.len() as int) == service.ports
            &&& now.domains.take(service.domains.len() as int) == service.domains
            &&& now.volumes.take(service.volumes.len() as int) == service.volumes
            &&& service.root is Some ==> now.root == service.root
        }),
{
    lemma_with_new(service.ports, plan.changes.ports.reserve);
    lemma_with_new(service.domains, plan_hosts(plan));
    lemma_with_new(service.volumes, plan.changes.docker.volumes);
}

/// What is added to a list is there afterwards, with all that was there, and nothing
/// else is; what was there keeps its place, and nothing comes twice that did not.
pub proof fn law_only_new_values_are_added<A>(target: Seq<A>, values: Seq<A>, x: A)
    ensures
        with_new(target, values).contains(x) <==> target.contains(x) || values.contains(x),
        target.len() <= with_new(target, values).len(),
        with_new(target, values).take(target.len() as int) == target,
        target.no_duplicates() ==> with_new(target, values).no_duplicates(),
    decreases values.len(),
{
    if values.len() == 0 {
        assert(target.take(target.len() as int) =~= target);
    } else {
        let d = values.drop_last();
        let rest = with_new(target, d);
        law_only_new_values_are_added(target, d, x);
        law_only_new_values_are_added(target, d, values.last());
        assert(values =~= d.push(values.last()));
        law_one_more(d, values.last(), x);
        law_one_more(rest, values.last(), x);
        if !rest.contains(values.last()) {
            let now = rest.push(values.last());
            assert(now.take(target.len() as int) =~= rest.take(target.len() as int));
            if target.no_duplicates() {
                assert forall|i: int, j: int| 0 <= i < now.len() && 0 <= j < now.len() && i
                    != j implies now[i] != now[j] by {
                    if i < rest.len() && j < rest.len() {
                        assert(rest[i] != rest[j]);
                    } else if i < rest.len() {
                        assert(rest.contains(rest[i]));
                    } else {
                        assert(rest.contains(rest[j]));
                    }
                }
            }
        }
    }
}

/// A service that is deployed to is active, has the ports, hosts, projects, containers
/// and volumes of the plan besides its own, and keeps all else; a root that it lacked is
/// that of the plan.
pub proof fn law_what_a_deploy_adds(
    service: ServiceView,
    plan: DeployPlanView,
    port: u16,
    text: Seq<char>,
)
    ensures
        ({
            let now = deployed_service(service, plan);
            &&& now.ports.contains(port) <==> service.ports.contains(port)
                || plan.changes.ports.reserve.contains(port)
            &&& now.domains.contains(text) <==> service.domains.contains(text) || exists|i: int|
                0 <= i < plan.changes.caddy.routes.len() && (
                #[trigger] plan.changes.caddy.routes[i]).host == text
            &&& now.compose_projects.contains(text) <==> service.compose_projects.contains(text)
                || plan.changes.docker.compose_project == Some(text)
            &&& now.containers.contains(text) <==> service.containers.contains(text)
                || plan.changes.docker.containers.contains(text)
            &&& now.volumes.contains(text) <==> service.volumes.contains(text)
                || plan.changes.docker.volumes.contains(text)
            &&& now.root == (if service.root is Some {
                service.root
            } else {
                Some(plan.project_root)
            })
            &&& now.status == "active"@
            &&& now.id == service.id
            &&& now.name == service.name
            &&& now.kind == service.kind
            &&& now.environment == service.environment
            &&& now.deploy_method == service.deploy_method
            &&& now.owner == service.owner
            &&& now.data_paths == service.data_paths
            &&& now.env_files == service.env_files
            &&& now.database == service.database
            &&& now.deployment == service.deployment
            &&& now.backup_policy == service.backup_policy
            &&& now.notes == service.notes
        }),
{
    law_only_new_values_are_added(service.ports, plan.changes.ports.reserve, port);
    law_only_new_values_are_added(service.domains, plan_hosts(plan), text);
    law_only_new_values_are_added(service.compose_projects, plan_projects(plan), text);
    law_only_new_values_are_added(service.containers, plan.changes.docker.containers, text);
    law_only_new_values_are_added(service.volumes, plan.changes.docker.volumes, text);
    lemma_plan_lists(plan, text);
}

proof fn lemma_plan_lists(plan: DeployPlanView, text: Seq<char>)
    ensures
        plan_hosts(plan).contains(text) <==> exists|i: int|
            0 <= i < plan.changes.caddy.routes.len() && (
            #[trigger] plan.changes.caddy.routes[i]).host == text,
        plan_projects(plan).contains(text) <==> plan.changes.docker.compose_project == Some(text),
{
    let routes = plan.changes.caddy.routes;
    let hosts = plan_hosts(plan);
    if hosts.contains(text) {
        let i = choose|i: int| 0 <= i < hosts.len() && hosts[i] == text;
        assert(routes[i].host == text);
    }
    if exists|i: int| 0 <= i < routes.len() && (#[trigger] routes[i]).host == text {
        let i = choose|i: int| 0 <= i < routes.len() && (#[trigger] routes[i]).host == text;
        assert(hosts[i] == text);
    }
    if plan.changes.docker.compose_project == Some(text) {
        assert(plan_projects(plan)[0] == text);
    }
}

/// A service that a deploy creates is active, has what the plan brings, is saved before
/// each deploy where it is for production, and is run by Docker Compose where the plan
/// names a project.
pub proof fn law_new_services(plan: DeployPlanView, id: Seq<char>, text: Seq<char>)
    ensures
        ({
            let now = fresh_service(plan, id);
            &&& now.id == id
            &&& now.name == id
            &&& now.status == "active"@
            &&& now.environment == plan.environment
            &&& now.root == Some(plan.project_root)
            &&& now.ports == plan.changes.ports.reserve
            &&& now.containers == plan.changes.docker.containers
            &&& now.volumes == plan.changes.docker.volumes
            &&& now.domains.contains(text) <==> exists|i: int|
                0 <= i < plan.changes.caddy.routes.len() && (
                #[trigger] plan.changes.caddy.routes[i]).host == text
            &&& now.compose_projects.contains(text) <==> plan.changes.docker.compose_project == Some(
                text,
            )
            &&& now.backup_policy == Some("before_deploy"@) <==> plan.environment == "production"@
            &&& now.backup_policy is Some <==> plan.environment == "production"@
            &&& now.deploy_method == Some("docker-compose"@)
                <==> plan.changes.docker.compose_project is Some
            &&& now.deploy_method is Some <==> plan.changes.docker.compose_project is Some
        }),
{
    lemma_plan_lists(plan, text);
}

/// A deploy changes the first service with its id, or adds one where there is none;
/// every other service stays. Nothing is written where nothing changes.
pub proof fn law_which_service_changes(
    services: Seq<ServiceView>,
    plan: DeployPlanView,
    id: Seq<char>,
    k: int,
)
    requires
        0 <= k < services.len(),
        services[k].id == id,
        forall|j: int| 0 <= j < k ==> (#[trigger] services[j]).id != id,
    ensures
        match services_after(services, plan, id) {
            None => deployed_service(services[k], plan) == services[k],
            Some(now) => {
                &&& now.len() == services.len()
                &&& now[k] == deployed_service(services[k], plan)
                &&& forall|j: int|
                    0 <= j < services.len() && j != k ==> #[trigger] now[j] == services[j]
                &&& now[k] != services[k]
            },
        },
{
    let p = |s: ServiceView| s.id == id;
    law_first_index(services, p);
    let i = first_index(services, p);
    assert(i == k) by {
        assert(p(services[k]));
        if i < k {
            assert(p(services[i]));
        }
        if k < i {
            assert(!p(services[k]));
        }
    }
}

/// A service is added where none has the id.
pub proof fn law_when_a_service_is_added(
    services: Seq<ServiceView>,
    plan: DeployPlanView,
    id: Seq<char>,
)
    requires
        forall|j: int| 0 <= j < services.len() ==> (#[trigger] services[j]).id != id,
    ensures
        services_after(services, plan, id) == Some(services.push(fresh_service(plan, id))),
{
    let p = |s: ServiceView| s.id == id;
    law_first_index(services, p);
    if first_index(services, p) < services.len() {
        assert(p(services[first_index(services, p)]));
    }
}

/// Whether the first record of a port is that of another service.
pub open spec fn port_is_taken(
    ports: Seq<PortRecordView>,
    port: u16,
    service: Seq<char>,
) -> bool {
    exists|k: int|
        0 <= k < ports.len() && (#[trigger] ports[k]).port == port && ports[k].service_id != service
            && forall|j: int| 0 <= j < k ==> (#[trigger] ports[j]).port != port
}

proof fn lemma_port_entry(ports: Seq<PortRecordView>, port: u16, service: Seq<char>)
    ensures
        port_is_taken(ports, port, service) <==> port_entry(ports, port) is Some && port_entry(
            ports,
            port,
        )->0.service_id != service,
        port_entry(ports, port) is None <==> forall|j: int|
            0 <= j < ports.len() ==> (#[trigger] ports[j]).port != port,
{
    let p = |r: PortRecordView| r.port == port;
    law_first_where(ports, p);
    if port_entry(ports, port) is Some {
        let i = choose|i: int|
            0 <= i < ports.len() && #[trigger] ports[i] == first_where(ports, p)->0 && p(ports[i])
                && forall|j: int| 0 <= j < i ==> !p(#[trigger] ports[j]);
        assert forall|j: int| 0 <= j < i implies (#[trigger] ports[j]).port != port by {
            assert(!p(ports[j]));
        }
        assert(ports[i].port == port);
        if port_is_taken(ports, port, service) {
            let k = choose|k: int|
                0 <= k < ports.len() && (#[trigger] ports[k]).port == port && ports[k].service_id
                    != service && forall|j: int|
                    0 <= j < k ==> (#[trigger] ports[j]).port != port;
            assert(p(ports[k]));
            assert(k == i) by {
                if k < i {
                    assert(!p(ports[k]));
                }
                if i < k {
                    assert(ports[i].port != port);
                }
            }
        }
    } else {
        assert forall|j: int| 0 <= j < ports.len() implies (#[trigger] ports[j]).port != port by {
            assert(!p(ports[j]));
        }
    }
}

proof fn lemma_pushed_port(ports: Seq<PortRecordView>, record: PortRecordView, port: u16)
    ensures
        port_entry(ports.push(record), port) == (match port_entry(ports, port) {
            Some(e) => Some(e),
            None => if record.port == port {
                Some(record)
            } else {
                None
            },
        }),
{
    assert(ports.push(record).drop_last() =~= ports);
}

/// Reserving ports fails exactly where one of them is registered to another service.
/// Otherwise each is registered to the service afterwards, all records stay where they
/// are, and what comes behind them are records of those ports that had none, for TCP on
/// the local address only.
pub proof fn law_reserving_ports(
    ports: Seq<PortRecordView>,
    reserve: Seq<u16>,
    service: Seq<char>,
    plan_id: Seq<char>,
    stamp: i64,
)
    ensures
        ports_after(ports, reserve, service, plan_id, stamp) is Err <==> exists|i: int|
            0 <= i < reserve.len() && port_is_taken(ports, #[trigger] reserve[i], service),
        ports_after(ports, reserve, service, plan_id, stamp) matches Ok(now) ==> {
            &&& ports.len() <= now.len()
            &&& now.take(ports.len() as int) == ports
            &&& forall|k: int|
                ports.len() <= k < now.len() ==> {
                    &&& reserve.contains((#[trigger] now[k]).port)
                    &&& port_entry(ports, now[k].port) is None
                    &&& now[k].service_id == service
                    &&& now[k].protocol == "tcp"@
                    &&& now[k].bind == "127.0.0.1"@
                    &&& now[k].exposure == "localhost"@
                    &&& now[k].source == "reserved"@
                }
            &&& forall|port: u16|
                port_entry(ports, port) is Some ==> #[trigger] port_entry(now, port) == port_entry(
                    ports,
                    port,
                )
            &&& forall|port: u16|
                port_entry(ports, port) is None && (#[trigger] port_entry(now, port)) is Some
                    ==> port_entry(now, port)->0.service_id == service
            &&& forall|i: int|
                0 <= i < reserve.len() ==> port_entry(now, #[trigger] reserve[i]) is Some
        },
    decreases reserve.len(),
{
    if reserve.len() == 0 {
        assert(ports.take(ports.len() as int) =~= ports);
    } else {
        let d = reserve.drop_last();
        let last = reserve.len() - 1;
        let port = reserve.last();
        assert(reserve[last] == port);
        assert forall|i: int| 0 <= i < d.len() implies #[trigger] d[i] == reserve[i] by {}
        law_reserving_ports(ports, d, service, plan_id, stamp);
        lemma_port_entry(ports, port, service);
        match ports_after(ports, d, service, plan_id, stamp) {
            Err(_) => {
                let i = choose|i: int|
                    0 <= i < d.len() && port_is_taken(ports, #[trigger] d[i], service);
                assert(port_is_taken(ports, reserve[i], service));
            },
            Ok(now) => {
                assert(port_entry(now, port) == port_entry(now, port));
                if exists|i: int|
                    0 <= i < reserve.len() && port_is_taken(ports, #[trigger] reserve[i], service) {
                    let i = choose|i: int|
                        0 <= i < reserve.len() && port_is_taken(
                            ports,
                            #[trigger] reserve[i],
                            service,
                        );
                    if i < last {
                        assert(port_is_taken(ports, d[i], service));
                    }
                    assert(i == last);
                }
                if ports_after(ports, reserve, service, plan_id, stamp) is Err {
                    assert(port_is_taken(ports, reserve[last], service));
                }
                if port_entry(now, port) is None {
                    let record = fresh_port(now, port, service, plan_id, stamp);
                    let then_now = now.push(record);
                    assert(then_now.take(ports.len() as int) =~= now.take(ports.len() as int));
                    assert forall|q: u16| #[trigger] port_entry(then_now, q) == (match port_entry(
                        now,
                        q,
                    ) {
                        Some(e) => Some(e),
                        None => if record.port == q {
                            Some(record)
                        } else {
                            None
                        },
                    }) by {
                        lemma_pushed_port(now, record, q);
                    }
                    assert forall|k: int| ports.len() <= k < then_now.len() implies {
                        &&& reserve.contains((#[trigger] then_now[k]).port)
                        &&& port_entry(ports, then_now[k].port) is None
                    } by {
                        if k < now.len() {
                            assert(then_now[k] == now[k]);
                            let m = choose|m: int| 0 <= m < d.len() && d[m] == now[k].port;
                            assert(reserve[m] == now[k].port);
                        } else {
                            assert(reserve[last] == then_now[k].port);
                        }
                    }
                    assert forall|i: int| 0 <= i < reserve.len() implies port_entry(
                        then_now,
                        #[trigger] reserve[i],
                    ) is Some by {
                        if i < last {
                            assert(port_entry(now, d[i]) is Some);
                        }
                    }
                } else {
                    assert forall|k: int| ports.len() <= k < now.len() implies reserve.contains(
                        (#[trigger] now[k]).port,
                    ) by {
                        let m = choose|m: int| 0 <= m < d.len() && d[m] == now[k].port;
                        assert(reserve[m] == now[k].port);
                    }
                    assert forall|i: int| 0 <= i < reserve.len() implies port_entry(
                        now,
                        #[trigger] reserve[i],
                    ) is Some by {
                        if i < last {
                            assert(port_entry(now, d[i]) is Some);
                        }
                    }
                }
            },
        }
    }
}

/// A route changes nothing where its host has a record of another service. Otherwise the
/// host's first record, or a new one, leads to the route's upstream, is active, and is
/// that service's; every other record stays.
pub proof fn law_recording_a_route(
    domains: Seq<DomainRecordView>,
    route: CaddyRouteChangeView,
    service: Seq<char>,
    stamp: i64,
)
    ensures
        ({
            let k = domain_index(domains, route.host);
            &&& 0 <= k <= domains.len()
            &&& k < domains.len() ==> domains[k].host == route.host
            &&& forall|j: int| 0 <= j < k ==> (#[trigger] domains[j]).host != route.host
            &&& with_domain(domains, route, service, stamp) is Err <==> k < domains.len()
                && domains[k].service_id != service
            &&& match with_domain(domains, route, service, stamp) {
                Err(_) => true,
                Ok((now, changed)) => {
                    &&& now.len() == (if k < domains.len() {
                        domains.len()
                    } else {
                        domains.len() + 1
                    })
                    &&& now[k].host == route.host
                    &&& now[k].service_id == service
                    &&& now[k].upstream == Some(route.upstream)
                    &&& now[k].status == "active"@
                    &&& changed ==> now[k].caddy_managed == Some(true)
                    &&& changed <==> now != domains || k < domains.len() && !(domains[k].upstream
                        == Some(route.upstream) && domains[k].status == "active"@)
                    &&& forall|j: int|
                        0 <= j < domains.len() && j != k ==> #[trigger] now[j] == domains[j]
                    &&& k < domains.len() ==> now[k].id == domains[k].id
                }
            }
        }),
{
    let p = |d: DomainRecordView| d.host == route.host;
    law_first_index(domains, p);
    let k = domain_index(domains, route.host);
    assert forall|j: int| 0 <= j < k implies (#[trigger] domains[j]).host != route.host by {
        assert(!p(domains[j]));
    }
    match with_domain(domains, route, service, stamp) {
        Err(_) => {},
        Ok((now, changed)) => {
            if k == domains.len() {
                assert(now.len() != domains.len());
            }
        },
    }
}

/// The service of a plan is the one that it names; else it is named after the project
/// of its containers, else after its directory, else after the plan itself.
pub proof fn law_which_service_a_plan_is_for(plan: DeployPlanView)
    ensures
        plan.service_id is Some ==> plan_service(plan) == plan.service_id->0,
        plan.service_id is None && plan.changes.docker.compose_project is Some ==> plan_service(
            plan,
        ) == deploy_id_part(plan.changes.docker.compose_project->0),
        plan.service_id is None && plan.changes.docker.compose_project is None && file_name_spec(
            plan.project_root,
        ) is Some ==> plan_service(plan) == deploy_id_part(file_name_spec(plan.project_root)->0),
{
}

/// What is written back is written only where it changed, and nothing behind an error
/// is. There is no error exactly where no port, host or volume is that of another
/// service.
pub proof fn law_what_is_written_back(registry: RegistryView, plan: DeployPlanView, stamp: i64)
    ensures
        ({
            let id = plan_service(plan);
            let now = writeback(registry, plan, stamp);
            let ports = ports_after(
                registry.ports.ports,
                plan.changes.ports.reserve,
                id,
                plan.id,
                stamp,
            );
            let domains = domains_after(
                registry.domains.domains,
                plan.changes.caddy.routes,
                id,
                stamp,
            );
            let volumes = volumes_after(
                registry.volumes.volumes,
                plan.changes.docker.volumes,
                id,
                plan.environment,
                stamp,
            );
            &&& now.services == services_after(registry.services.services, plan, id)
            &&& now.error is None <==> ports is Ok && domains is Ok && volumes is Ok
            &&& ports is Err ==> now.error == Some(ports->Err_0) && now.ports is None && now.domains
                is None && now.volumes is None
            &&& now.error is None ==> {
                &&& now.ports is Some ==> now.ports->0 == ports->Ok_0
                &&& now.ports is None ==> ports->Ok_0 == registry.ports.ports
                &&& now.volumes is Some ==> now.volumes->0 == volumes->Ok_0
                &&& now.volumes is None ==> volumes->Ok_0 == registry.volumes.volumes
                &&& match domains->Ok_0 {
                    (list, changed) => now.domains == (if changed {
                        Some(list)
                    } else {
                        None
                    }),
                }
            }
        }),
{
    let id = plan_service(plan);
    let ports = registry.ports.ports;
    law_reserving_ports(ports, plan.changes.ports.reserve, id, plan.id, stamp);
    law_recording_volumes(
        registry.volumes.volumes,
        plan.changes.docker.volumes,
        id,
        plan.environment,
        stamp,
    );
    if let Ok(p) = ports_after(ports, plan.changes.ports.reserve, id, plan.id, stamp) {
        if p.len() == ports.len() {
            assert(p.take(ports.len() as int) =~= p);
        }
    }
    let volumes = registry.volumes.volumes;
    if let Ok(v) = volumes_after(
        volumes,
        plan.changes.docker.volumes,
        id,
        plan.environment,
        stamp,
    ) {
        if v.len() == volumes.len() {
            assert(v.take(volumes.len() as int) =~= v);
        }
    }
}

/// Recording volumes keeps every record; a new one is protected, is that of the service,
/// and has the name of a volume of the plan. Each volume of the plan has a record of the
/// service afterwards.
pub proof fn law_recording_volumes(
    volumes: Seq<VolumeRecordView>,
    names: Seq<Seq<char>>,
    service: Seq<char>,
    environment: Seq<char>,
    stamp: i64,
)
    ensures
        volumes_after(volumes, names, service, environment, stamp) matches Ok(now) ==> {
            &&& volumes.len() <= now.len()
            &&& now.take(volumes.len() as int) == volumes
            &&& forall|k: int|
                volumes.len() <= k < now.len() ==> {
                    &&& names.contains((#[trigger] now[k]).name)
                    &&& now[k].service_id == service
                    &&& now[k].protected
                    &&& now[k].kind == "docker"@
                    &&& now[k].backup_policy == (if environment == "production"@ {
                        Some("before_deploy"@)
                    } else {
                        None
                    })
                }
            &&& forall|i: int|
                0 <= i < names.len() ==> volume_record_for(now, #[trigger] names[i]) is Some
                    && volume_record_for(now, names[i])->0.service_id == service
        },
    decreases names.len(),
{
    if names.len() == 0 {
        assert(volumes.take(volumes.len() as int) =~= volumes);
    } else {
        let d = names.drop_last();
        let last = names.len() - 1;
        let name = names.last();
        assert(names[last] == name);
        assert forall|i: int| 0 <= i < d.len() implies #[trigger] d[i] == names[i] by {}
        law_recording_volumes(volumes, d, service, environment, stamp);
        if let Ok(now) = volumes_after(volumes, d, service, environment, stamp) {
            if volumes_after(volumes, names, service, environment, stamp) is Ok {
                let then_now = volumes_after(volumes, names, service, environment, stamp)->Ok_0;
                assert(then_now.take(volumes.len() as int) =~= now.take(volumes.len() as int));
                assert forall|k: int| volumes.len() <= k < then_now.len() implies names.contains(
                    (#[trigger] then_now[k]).name,
                ) by {
                    if k < now.len() {
                        assert(then_now[k] == now[k]);
                        let m = choose|m: int| 0 <= m < d.len() && d[m] == now[k].name;
                        assert(names[m] == now[k].name);
                    } else {
                        assert(names[last] == then_now[k].name);
                    }
                }
                if then_now.len() > now.len() {
                    assert(then_now.drop_last() =~= now);
                }
                assert forall|i: int| 0 <= i < names.len() implies volume_record_for(
                    then_now,
                    #[trigger] names[i],
                ) is Some && volume_record_for(then_now, names[i])->0.service_id == service by {
                    if i < last {
                        assert(volume_record_for(now, d[i]) is Some);
                    }
                }
            }
        }
    }
}

} // verus!
