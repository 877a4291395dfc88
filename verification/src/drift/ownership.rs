//! Evidence on who owns the resources behind active drift.

use vstd::prelude::*;
use crate::drift::findings::{
    drift_explain, drift_report_spec, finding_adopt_kind, finding_adopt_kind_spec,
    lemma_finding_codes, observed_port_at, port_at,
};
use crate::drift::types::{
    DriftFilter, DriftFilterView, DriftFinding, DriftFindingView, DriftOwnershipFinding,
    DriftOwnershipFindingView, DriftOwnershipReport, DriftOwnershipReportView,
};
use crate::list::{
    Ranked, all_labelled, any, chosen, extend, first_some, first_where, front, includes, labelled,
    law_chosen, law_first_some, law_ranked, law_share, law_sorted_set, lemma_any, less, note_all,
    note_some, overlap, pair_lt, rank, share, sort_stable, sorted_by, sorted_set, take_texts,
    tally, unique_sorted,
};
use crate::number::{bool_text, bool_word, decimal, decimal_text};
use crate::paths::{file_name, file_name_spec};
use crate::registry::{
    PortRecordView, Registry, RegistryView, Service, ServiceView, VolumeRecord, VolumeRecordView,
};
use crate::scan::{
    ComposeProject, ComposeProjectView, DockerContainer, DockerContainerView, DockerVolume,
    DockerVolumeView, Observation, ObservationView, ObservedPort, ObservedPortView, ScanReport,
    ScanReportView, VolumeObservation, VolumeObservationView,
};
use crate::text::{
    as_text, begins, cat2, cat3, cat8, chars_of, contains, ends, found_at, holds, is_char, is_text,
    law_found_parts_are_there, law_parted, law_parts_are_found, lowered, parted, pieces, same,
    split, split_once, starts_with, step, to_lower, trim, trimmed,
};

verus! {

broadcast use {vstd::seq::group_seq_axioms, vstd::string::group_string_axioms};

// ---------------------------------------------------------------------------
// Reading what Docker reports
// ---------------------------------------------------------------------------

/// The container names in a comma-separated list.
pub open spec fn docker_names(raw: Seq<char>) -> Seq<Seq<char>> {
    chosen(
        pieces(raw, is_char(',')),
        |p: Seq<char>|
            if trimmed(p).len() > 0 {
                Some(trimmed(p))
            } else {
                None
            },
    )
}

/// The container names in a comma-separated list.
pub fn split_observed_docker_names(raw: &str) -> (r: Vec<String>)
    ensures
        r.deep_view() == docker_names(raw@),
{
    let parts = split(raw, ',');
    let ghost all = parts.deep_view();
    let mut out: Vec<String> = Vec::new();
    let mut i: usize = 0;
    proof {
        ends(all);
        assert(out.deep_view() =~= Seq::<Seq<char>>::empty());
    }
    while i < parts.len()
        invariant
            i <= parts@.len(),
            all == parts.deep_view(),
            out.deep_view() == chosen(
                all.take(i as int),
                |p: Seq<char>|
                    if trimmed(p).len() > 0 {
                        Some(trimmed(p))
                    } else {
                        None
                    },
            ),
        decreases parts@.len() - i,
    {
        proof {
            step(all, i as int);
        }
        let name = trim(&parts[i]);
        if !name.as_str().is_empty() {
            out.push(name);
        }
        i = i + 1;
    }
    proof {
        ends(all);
    }
    out
}

/// The value of a label in one `key=value` part.
pub open spec fn label_in(part: Seq<char>, key: Seq<char>) -> Option<Seq<char>> {
    match parted(part, '=') {
        Some((label, value)) => if trimmed(label) == key && trimmed(value).len() > 0 {
            Some(trimmed(value))
        } else {
            None
        },
        None => None,
    }
}

/// The first nonempty value of a label in a comma-separated list.
pub open spec fn label_value_spec(labels: Seq<char>, key: Seq<char>) -> Option<Seq<char>> {
    first_some(pieces(labels, is_char(',')), |part: Seq<char>| label_in(part, key))
}

/// The first nonempty value of a label in a comma-separated list.
pub fn label_value(labels: &str, key: &str) -> (r: Option<String>)
    ensures
        r.deep_view() == label_value_spec(labels@, key@),
{
    let parts = split(labels, ',');
    let ghost all = parts.deep_view();
    let mut hit: Option<String> = None;
    let mut i: usize = 0;
    proof {
        ends(all);
    }
    while i < parts.len()
        invariant
            i <= parts@.len(),
            all == parts.deep_view(),
            hit.deep_view() == first_some(
                all.take(i as int),
                |part: Seq<char>| label_in(part, key@),
            ),
        decreases parts@.len() - i,
    {
        proof {
            step(all, i as int);
        }
        if hit.is_none() {
            if let Some((label, value)) = split_once(&parts[i], '=') {
                let value = trim(&value);
                if same(&trim(&label), key) && !value.as_str().is_empty() {
                    hit = Some(value);
                }
            }
        }
        i = i + 1;
    }
    proof {
        ends(all);
    }
    hit
}

/// Whether the text of published ports mentions a port.
pub open spec fn mentions_port(ports: Seq<char>, port: u16) -> bool {
    let p = decimal(port as nat);
    ||| holds(ports, ":"@ + p + "->"@)
    ||| holds(ports, ":"@ + p + "/"@)
    ||| holds(ports, "0.0.0.0:"@ + p)
    ||| holds(ports, "[::]:"@ + p)
}

/// Whether the text of published ports mentions a port.
pub fn docker_ports_text_mentions_port(ports: &str, port: u16) -> (r: bool)
    ensures
        r == mentions_port(ports@, port),
{
    let p = decimal_text(port as u64);
    contains(ports, &cat3(":", &p, "->")) || contains(ports, &cat3(":", &p, "/")) || contains(
        ports,
        &cat2("0.0.0.0:", &p),
    ) || contains(ports, &cat2("[::]:", &p))
}

/// Whether a listener accepts connections from everywhere.
pub open spec fn is_public_target_spec(target: Seq<char>) -> bool {
    ||| begins(target, "0.0.0.0:"@)
    ||| begins(target, "*:"@)
    ||| begins(target, "[::]:"@)
    ||| begins(target, "::"@)
}

/// Whether a listener accepts connections from everywhere.
pub fn is_public_target(target: &str) -> (r: bool)
    ensures
        r == is_public_target_spec(target@),
{
    starts_with(target, "0.0.0.0:") || starts_with(target, "*:") || starts_with(target, "[::]:")
        || starts_with(target, "::")
}

// ---------------------------------------------------------------------------
// Services that may own a resource
// ---------------------------------------------------------------------------

/// The services that a port is registered to.
pub open spec fn port_owners(ports: Seq<PortRecordView>, port: u16) -> Seq<Seq<char>> {
    chosen(
        ports,
        |r: PortRecordView|
            if r.port == port {
                Some(r.service_id)
            } else {
                None
            },
    )
}

/// The services that a port is registered to, in order and each once.
pub fn service_candidates_for_port(registry: &Registry, port: u16) -> (r: Vec<String>)
    ensures
        r.deep_view() == sorted_set(port_owners(registry.deep_view().ports.ports, port)),
{
    let ports = &registry.ports.ports;
    let ghost all = ports.deep_view();
    let mut out: Vec<String> = Vec::new();
    let mut i: usize = 0;
    proof {
        ends(all);
        assert(out.deep_view() =~= Seq::<Seq<char>>::empty());
    }
    while i < ports.len()
        invariant
            i <= ports@.len(),
            all == ports.deep_view(),
            out.deep_view() == port_owners(all.take(i as int), port),
        decreases ports@.len() - i,
    {
        proof {
            step(all, i as int);
        }
        if ports[i].port == port {
            out.push(ports[i].service_id.clone());
        }
        i = i + 1;
    }
    proof {
        ends(all);
    }
    unique_sorted(out)
}

/// Whether a resource is named after a project: the project itself, or the
/// project followed by `-` or `_`.
pub open spec fn has_project_prefix(resource: Seq<char>, project: Seq<char>) -> bool {
    &&& project.len() > 0
    &&& resource == project || (begins(resource, project) && resource.len() > project.len() && (
    resource[project.len() as int] == '-' || resource[project.len() as int] == '_'))
}

/// Whether a resource is named after a project.
pub fn resource_has_project_prefix(resource: &str, project: &str) -> (r: bool)
    ensures
        r == has_project_prefix(resource@, project@),
{
    if project.is_empty() {
        return false;
    }
    if same(resource, project) {
        return true;
    }
    let a = chars_of(resource);
    let b = chars_of(project);
    found_at(&a, &b, 0) && a.len() > b.len() && (a[b.len()] == '-' || a[b.len()] == '_')
}

/// Whether one of two volumes is named after the other.
pub open spec fn related_by_prefix(volume: Seq<char>, registered: Seq<char>) -> bool {
    has_project_prefix(volume, registered) || has_project_prefix(registered, volume)
}

/// Whether one of two volumes is named after the other.
pub fn volume_related_by_prefix(volume: &str, registered: &str) -> (r: bool)
    ensures
        r == related_by_prefix(volume@, registered@),
{
    resource_has_project_prefix(volume, registered) || resource_has_project_prefix(
        registered,
        volume,
    )
}

/// The directory name of a service root.
pub open spec fn root_basename(service: ServiceView) -> Option<Seq<char>> {
    match service.root {
        Some(root) => file_name_spec(root),
        None => None,
    }
}

/// The directory name of a service root.
pub fn service_root_basename(service: &Service) -> (r: Option<String>)
    ensures
        r.deep_view() == root_basename(service.deep_view()),
{
    match &service.root {
        Some(root) => file_name(root),
        None => None,
    }
}

/// Whether some project is a prefix of the resource.
pub open spec fn some_project_prefix(projects: Seq<Seq<char>>, resource: Seq<char>) -> bool {
    any(projects, |p: Seq<char>| has_project_prefix(resource, p))
}

/// Whether some project is a prefix of the resource.
pub fn any_project_prefix(projects: &Vec<String>, resource: &str) -> (r: bool)
    ensures
        r == some_project_prefix(projects.deep_view(), resource@),
{
    let ghost all = projects.deep_view();
    let mut found = false;
    let mut i: usize = 0;
    proof {
        ends(all);
    }
    while i < projects.len()
        invariant
            i <= projects@.len(),
            all == projects.deep_view(),
            found == some_project_prefix(all.take(i as int), resource@),
        decreases projects@.len() - i,
    {
        proof {
            step(all, i as int);
        }
        if resource_has_project_prefix(resource, &projects[i]) {
            found = true;
        }
        i = i + 1;
    }
    proof {
        ends(all);
    }
    found
}

/// Whether some project is a prefix of one of the users.
pub open spec fn some_user_prefix(users: Seq<Seq<char>>, projects: Seq<Seq<char>>) -> bool {
    any(users, |u: Seq<char>| some_project_prefix(projects, u))
}

/// Whether some project is a prefix of one of the users.
pub fn any_user_prefix(users: &Vec<String>, projects: &Vec<String>) -> (r: bool)
    ensures
        r == some_user_prefix(users.deep_view(), projects.deep_view()),
{
    let ghost all = users.deep_view();
    let mut found = false;
    let mut i: usize = 0;
    proof {
        ends(all);
    }
    while i < users.len()
        invariant
            i <= users@.len(),
            all == users.deep_view(),
            found == some_user_prefix(all.take(i as int), projects.deep_view()),
        decreases users@.len() - i,
    {
        proof {
            step(all, i as int);
        }
        if any_project_prefix(projects, &users[i]) {
            found = true;
        }
        i = i + 1;
    }
    proof {
        ends(all);
    }
    found
}

/// Whether some registered volume is related to the volume by name.
pub open spec fn some_related_volume(registered: Seq<Seq<char>>, volume: Seq<char>) -> bool {
    any(registered, |v: Seq<char>| related_by_prefix(volume, v))
}

/// Whether some registered volume is related to the volume by name.
pub fn any_related_volume(registered: &Vec<String>, volume: &str) -> (r: bool)
    ensures
        r == some_related_volume(registered.deep_view(), volume@),
{
    let ghost all = registered.deep_view();
    let mut found = false;
    let mut i: usize = 0;
    proof {
        ends(all);
    }
    while i < registered.len()
        invariant
            i <= registered@.len(),
            all == registered.deep_view(),
            found == some_related_volume(all.take(i as int), volume@),
        decreases registered@.len() - i,
    {
        proof {
            step(all, i as int);
        }
        if volume_related_by_prefix(volume, &registered[i]) {
            found = true;
        }
        i = i + 1;
    }
    proof {
        ends(all);
    }
    found
}

/// Whether the volume is registered to the service.
pub open spec fn volume_recorded(
    records: Seq<VolumeRecordView>,
    volume: Seq<char>,
    service_id: Seq<char>,
) -> bool {
    any(records, |r: VolumeRecordView| r.name == volume && r.service_id == service_id)
}

/// Whether the volume is registered to the service.
pub fn volume_is_recorded(records: &Vec<VolumeRecord>, volume: &str, service_id: &str) -> (r: bool)
    ensures
        r == volume_recorded(records.deep_view(), volume@, service_id@),
{
    let ghost all = records.deep_view();
    let mut found = false;
    let mut i: usize = 0;
    proof {
        ends(all);
    }
    while i < records.len()
        invariant
            i <= records@.len(),
            all == records.deep_view(),
            found == volume_recorded(all.take(i as int), volume@, service_id@),
        decreases records@.len() - i,
    {
        proof {
            step(all, i as int);
        }
        if same(&records[i].name, volume) && same(&records[i].service_id, service_id) {
            found = true;
        }
        i = i + 1;
    }
    proof {
        ends(all);
    }
    found
}

/// Whether a service claims the volume or one of the containers that mount it.
pub open spec fn claims_volume(
    service: ServiceView,
    records: Seq<VolumeRecordView>,
    volume: Seq<char>,
    users: Seq<Seq<char>>,
) -> bool {
    ||| service.volumes.contains(volume)
    ||| volume_recorded(records, volume, service.id)
    ||| share(users, service.containers)
}

/// Whether a service and the volume go together by name.
pub open spec fn resembles_volume(
    service: ServiceView,
    volume: Seq<char>,
    users: Seq<Seq<char>>,
) -> bool {
    ||| some_user_prefix(users, service.compose_projects)
    ||| some_project_prefix(service.compose_projects, volume)
    ||| some_related_volume(service.volumes, volume)
    ||| root_basename(service) is Some && has_project_prefix(volume, root_basename(service)->0)
}

/// The services that claim the volume.
pub open spec fn volume_claimants(
    services: Seq<ServiceView>,
    records: Seq<VolumeRecordView>,
    volume: Seq<char>,
    users: Seq<Seq<char>>,
) -> Seq<Seq<char>> {
    chosen(
        services,
        |s: ServiceView|
            if claims_volume(s, records, volume, users) {
                Some(s.id)
            } else {
                None
            },
    )
}

/// The services that go together with the volume by name.
pub open spec fn volume_lookalikes(
    services: Seq<ServiceView>,
    volume: Seq<char>,
    users: Seq<Seq<char>>,
) -> Seq<Seq<char>> {
    chosen(
        services,
        |s: ServiceView|
            if resembles_volume(s, volume, users) {
                Some(s.id)
            } else {
                None
            },
    )
}

/// The services that claim the volume; where none does, those whose names fit.
pub open spec fn volume_candidates(
    registry: RegistryView,
    volume: Seq<char>,
    users: Seq<Seq<char>>,
) -> Seq<Seq<char>> {
    let exact = sorted_set(
        volume_claimants(registry.services.services, registry.volumes.volumes, volume, users),
    );
    if exact.len() > 0 {
        exact
    } else {
        sorted_set(volume_lookalikes(registry.services.services, volume, users))
    }
}

/// The services that claim the volume; where none does, those whose names fit.
pub fn service_candidates_for_volume(registry: &Registry, volume: &str, users: &Vec<String>) -> (r:
    Vec<String>)
    ensures
        r.deep_view() == volume_candidates(registry.deep_view(), volume@, users.deep_view()),
{
    let services = &registry.services.services;
    let records = &registry.volumes.volumes;
    let ghost all = services.deep_view();
    let ghost recs = records.deep_view();
    let ghost us = users.deep_view();
    let mut exact: Vec<String> = Vec::new();
    let mut similar: Vec<String> = Vec::new();
    let mut i: usize = 0;
    proof {
        ends(all);
        assert(exact.deep_view() =~= Seq::<Seq<char>>::empty());
        assert(similar.deep_view() =~= Seq::<Seq<char>>::empty());
    }
    while i < services.len()
        invariant
            i <= services@.len(),
            all == services.deep_view(),
            recs == records.deep_view(),
            us == users.deep_view(),
            exact.deep_view() == volume_claimants(all.take(i as int), recs, volume@, us),
            similar.deep_view() == volume_lookalikes(all.take(i as int), volume@, us),
        decreases services@.len() - i,
    {
        let service = &services[i];
        proof {
            step(all, i as int);
        }
        if includes(&service.volumes, volume) || volume_is_recorded(records, volume, &service.id)
            || overlap(users, &service.containers) {
            exact.push(service.id.clone());
        }
        let by_root = match service_root_basename(service) {
            Some(name) => resource_has_project_prefix(volume, &name),
            None => false,
        };
        if any_user_prefix(users, &service.compose_projects) || any_project_prefix(
            &service.compose_projects,
            volume,
        ) || any_related_volume(&service.volumes, volume) || by_root {
            similar.push(service.id.clone());
        }
        i = i + 1;
    }
    proof {
        ends(all);
    }
    let exact = unique_sorted(exact);
    if exact.len() > 0 {
        exact
    } else {
        unique_sorted(similar)
    }
}

/// Whether a service name and a value contain one another, ignoring case.
pub open spec fn fuzzy_match(service: ServiceView, value: Seq<char>) -> bool {
    let v = lowered(value);
    let id = lowered(service.id);
    let name = lowered(service.name);
    v.len() > 0 && (holds(v, id) || holds(id, v) || holds(v, name) || holds(name, v))
}

/// Whether a service name and a value contain one another, ignoring case.
pub fn fuzzy_service_name_match(service: &Service, value: &str) -> (r: bool)
    ensures
        r == fuzzy_match(service.deep_view(), value@),
{
    let v = to_lower(value);
    if v.as_str().is_empty() {
        return false;
    }
    let id = to_lower(&service.id);
    let name = to_lower(&service.name);
    contains(&v, &id) || contains(&id, &v) || contains(&v, &name) || contains(&name, &v)
}

/// Whether some volume of a service and the target are prefixes of one another.
pub open spec fn some_volume_prefix(volumes: Seq<Seq<char>>, target: Seq<char>) -> bool {
    any(volumes, |v: Seq<char>| begins(target, v) || begins(v, target))
}

/// Whether some volume of a service and the target are prefixes of one another.
pub fn any_volume_prefix(volumes: &Vec<String>, target: &str) -> (r: bool)
    ensures
        r == some_volume_prefix(volumes.deep_view(), target@),
{
    let ghost all = volumes.deep_view();
    let mut found = false;
    let mut i: usize = 0;
    proof {
        ends(all);
    }
    while i < volumes.len()
        invariant
            i <= volumes@.len(),
            all == volumes.deep_view(),
            found == some_volume_prefix(all.take(i as int), target@),
        decreases volumes@.len() - i,
    {
        proof {
            step(all, i as int);
        }
        if starts_with(target, &volumes[i]) || starts_with(&volumes[i], target) {
            found = true;
        }
        i = i + 1;
    }
    proof {
        ends(all);
    }
    found
}

/// Whether a service may own a resource of this name.
pub open spec fn may_own(
    service: ServiceView,
    target: Seq<char>,
    compose_project: Option<Seq<char>>,
    image: Option<Seq<char>>,
) -> bool {
    ||| service.containers.contains(target)
    ||| compose_project is Some && service.compose_projects.contains(compose_project->0)
    ||| some_volume_prefix(service.volumes, target)
    ||| fuzzy_match(service, target)
    ||| image is Some && fuzzy_match(service, image->0)
}

/// The services that may own a resource of this name.
pub open spec fn named_owners(
    services: Seq<ServiceView>,
    target: Seq<char>,
    compose_project: Option<Seq<char>>,
    image: Option<Seq<char>>,
) -> Seq<Seq<char>> {
    chosen(
        services,
        |s: ServiceView|
            if may_own(s, target, compose_project, image) {
                Some(s.id)
            } else {
                None
            },
    )
}

/// The services that may own a resource of this name, in order and each once.
pub fn service_candidates_for_named_resource(
    registry: &Registry,
    target: &str,
    compose_project: Option<&str>,
    image: Option<&str>,
) -> (r: Vec<String>)
    ensures
        r.deep_view() == sorted_set(
            named_owners(
                registry.deep_view().services.services,
                target@,
                compose_project.deep_view(),
                image.deep_view(),
            ),
        ),
{
    let services = &registry.services.services;
    let ghost all = services.deep_view();
    let ghost project = compose_project.deep_view();
    let ghost im = image.deep_view();
    let mut out: Vec<String> = Vec::new();
    let mut i: usize = 0;
    proof {
        ends(all);
        assert(out.deep_view() =~= Seq::<Seq<char>>::empty());
    }
    while i < services.len()
        invariant
            i <= services@.len(),
            all == services.deep_view(),
            project == compose_project.deep_view(),
            im == image.deep_view(),
            out.deep_view() == named_owners(all.take(i as int), target@, project, im),
        decreases services@.len() - i,
    {
        let service = &services[i];
        proof {
            step(all, i as int);
        }
        let by_project = match compose_project {
            Some(project) => includes(&service.compose_projects, project),
            None => false,
        };
        let by_image = match image {
            Some(image) => fuzzy_service_name_match(service, image),
            None => false,
        };
        if includes(&service.containers, target) || by_project || any_volume_prefix(
            &service.volumes,
            target,
        ) || fuzzy_service_name_match(service, target) || by_image {
            out.push(service.id.clone());
        }
        i = i + 1;
    }
    proof {
        ends(all);
    }
    unique_sorted(out)
}

// ---------------------------------------------------------------------------
// Ownership findings
// ---------------------------------------------------------------------------

/// The names of containers that publish a port, as evidence.
pub open spec fn port_container_evidence(containers: Seq<DockerContainerView>, port: u16) -> Seq<
    Seq<char>,
> {
    chosen(
        containers,
        |c: DockerContainerView|
            if c.ports is Some && mentions_port(c.ports->0, port) && c.names is Some {
                Some("docker_port_candidate="@ + c.names->0)
            } else {
                None
            },
    )
}

/// The evidence on a listener.
pub open spec fn port_evidence(
    observed: ObservedPortView,
    containers: Seq<DockerContainerView>,
    target: Seq<char>,
) -> Seq<Seq<char>> {
    seq![
        "listener="@ + target + " protocol="@ + observed.protocol + " bind="@ + observed.bind
            + " port="@ + decimal(observed.port as nat),
        match observed.process {
            Some(process) => "process_hint="@ + process,
            None => "process_hint=unavailable"@,
        },
    ] + port_container_evidence(containers, observed.port)
}

/// Who may own a listener.
pub open spec fn port_ownership_spec(
    registry: RegistryView,
    scan: ScanReportView,
    finding: DriftFindingView,
    target: Seq<char>,
) -> DriftOwnershipFindingView {
    let observed = port_at(scan.detected.ports, target);
    let evidence = match observed {
        Some(port) => port_evidence(port, scan.detected.docker.containers, target),
        None => Seq::empty(),
    };
    let public = is_public_target_spec(target);
    DriftOwnershipFindingView {
        kind: "port"@,
        code: finding.code,
        target,
        confidence: if any(evidence, |e: Seq<char>| holds(e, "docker_port_candidate"@)) {
            "medium"@
        } else {
            "low"@
        },
        review_action: if public {
            "review_public_listener_owner"@
        } else {
            "review_local_listener_owner"@
        },
        suggested_action: if public {
            "confirm process/container owner, then adopt to service or move behind localhost/firewall before cleanup review"@
        } else {
            "confirm listener owner, then adopt application ports or add an expiring ignore for intentional local/system listeners"@
        },
        service_candidates: match observed {
            Some(port) => sorted_set(port_owners(registry.ports.ports, port.port)),
            None => Seq::empty(),
        },
        evidence: sorted_set(evidence),
        resource_fingerprint: match observed {
            Some(port) => seq![
                "kind=port"@,
                "protocol="@ + port.protocol,
                "bind="@ + port.bind,
                "port="@ + decimal(port.port as nat),
                "public="@ + bool_word(public),
            ],
            None => seq!["kind=port"@, "target="@ + target],
        },
        exact_match_required: true,
        cleanup_risk: if public {
            "high_public_listener"@
        } else {
            "medium_listener"@
        },
    }
}

/// Whether some text contains `part`.
pub fn any_contains(list: &Vec<String>, part: &str) -> (r: bool)
    ensures
        r == any(list.deep_view(), |e: Seq<char>| holds(e, part@)),
{
    let ghost all = list.deep_view();
    let mut found = false;
    let mut i: usize = 0;
    proof {
        ends(all);
    }
    while i < list.len()
        invariant
            i <= list@.len(),
            all == list.deep_view(),
            found == any(all.take(i as int), |e: Seq<char>| holds(e, part@)),
        decreases list@.len() - i,
    {
        proof {
            step(all, i as int);
        }
        if contains(&list[i], part) {
            found = true;
        }
        i = i + 1;
    }
    proof {
        ends(all);
    }
    found
}

/// The evidence on a listener.
pub fn collect_port_evidence(
    observed: &ObservedPort,
    containers: &Vec<DockerContainer>,
    target: &str,
) -> (r: Vec<String>)
    ensures
        r.deep_view() == port_evidence(observed.deep_view(), containers.deep_view(), target@),
{
    let mut evidence: Vec<String> = Vec::new();
    evidence.push(
        cat8(
            "listener=",
            target,
            " protocol=",
            &observed.protocol,
            " bind=",
            &observed.bind,
            " port=",
            &decimal_text(observed.port as u64),
        ),
    );
    match &observed.process {
        Some(process) => {
            evidence.push(cat2("process_hint=", process));
        },
        None => {
            evidence.push("process_hint=unavailable".to_string());
        },
    }
    let ghost start = evidence.deep_view();
    let ghost all = containers.deep_view();
    let mut i: usize = 0;
    proof {
        ends(all);
        assert(evidence.deep_view() =~= start + Seq::<Seq<char>>::empty());
    }
    while i < containers.len()
        invariant
            i <= containers@.len(),
            all == containers.deep_view(),
            evidence.deep_view() == start + port_container_evidence(
                all.take(i as int),
                observed.port,
            ),
        decreases containers@.len() - i,
    {
        let container = &containers[i];
        let ghost held = evidence.deep_view();
        proof {
            step(all, i as int);
        }
        if let Some(ports) = &container.ports {
            if docker_ports_text_mentions_port(ports, observed.port) {
                if let Some(names) = &container.names {
                    evidence.push(cat2("docker_port_candidate=", names));
                    proof {
                        assert(evidence.deep_view() =~= held.push(
                            "docker_port_candidate="@ + names@,
                        ));
                        assert(evidence.deep_view() =~= start + port_container_evidence(
                            all.take(i + 1),
                            observed.port,
                        ));
                    }
                }
            }
        }
        i = i + 1;
    }
    proof {
        ends(all);
        assert(evidence.deep_view() =~= port_evidence(
            observed.deep_view(),
            containers.deep_view(),
            target@,
        ));
    }
    evidence
}

/// Who may own a listener.
pub fn port_ownership_finding(
    registry: &Registry,
    scan: &ScanReport,
    finding: &DriftFinding,
    target: &str,
) -> (r: DriftOwnershipFinding)
    ensures
        r.deep_view() == port_ownership_spec(
            registry.deep_view(),
            scan.deep_view(),
            finding.deep_view(),
            target@,
        ),
{
    let public = is_public_target(target);
    let (evidence, service_candidates, resource_fingerprint) = match observed_port_at(
        &scan.detected.ports,
        target,
    ) {
        Some(port) => (
            collect_port_evidence(port, &scan.detected.docker.containers, target),
            service_candidates_for_port(registry, port.port),
            vec![
                "kind=port".to_string(),
                cat2("protocol=", &port.protocol),
                cat2("bind=", &port.bind),
                cat2("port=", &decimal_text(port.port as u64)),
                cat2("public=", bool_text(public)),
            ],
        ),
        None => (
            Vec::new(),
            Vec::new(),
            vec!["kind=port".to_string(), cat2("target=", target)],
        ),
    };
    let confidence = if any_contains(&evidence, "docker_port_candidate") {
        "medium"
    } else {
        "low"
    };
    proof {
        let spec = port_ownership_spec(
            registry.deep_view(),
            scan.deep_view(),
            finding.deep_view(),
            target@,
        );
        assert(resource_fingerprint.deep_view() =~= spec.resource_fingerprint);
        assert(service_candidates.deep_view() =~= spec.service_candidates);
    }
    DriftOwnershipFinding {
        kind: "port".to_string(),
        code: finding.code.clone(),
        target: target.to_string(),
        confidence: confidence.to_string(),
        review_action: (if public {
            "review_public_listener_owner"
        } else {
            "review_local_listener_owner"
        }).to_string(),
        suggested_action: (if public {
            "confirm process/container owner, then adopt to service or move behind localhost/firewall before cleanup review"
        } else {
            "confirm listener owner, then adopt application ports or add an expiring ignore for intentional local/system listeners"
        }).to_string(),
        service_candidates,
        evidence: unique_sorted(evidence),
        resource_fingerprint,
        exact_match_required: true,
        cleanup_risk: (if public {
            "high_public_listener"
        } else {
            "medium_listener"
        }).to_string(),
    }
}

/// Whether a container has this name.
pub open spec fn container_named(container: DockerContainerView, target: Seq<char>) -> bool {
    container.names is Some && docker_names(container.names->0).contains(target)
}

/// The first container of this name.
pub open spec fn container_at(containers: Seq<DockerContainerView>, target: Seq<char>) -> Option<
    DockerContainerView,
> {
    first_where(containers, |c: DockerContainerView| container_named(c, target))
}

/// The first container of this name.
pub fn observed_container<'a>(containers: &'a Vec<DockerContainer>, target: &str) -> (r: Option<
    &'a DockerContainer,
>)
    ensures
        r.deep_view() == container_at(containers.deep_view(), target@),
{
    let ghost all = containers.deep_view();
    let mut hit: Option<&'a DockerContainer> = None;
    let mut i: usize = 0;
    proof {
        ends(all);
    }
    while i < containers.len()
        invariant
            i <= containers@.len(),
            all == containers.deep_view(),
            hit.deep_view() == container_at(all.take(i as int), target@),
        decreases containers@.len() - i,
    {
        proof {
            step(all, i as int);
        }
        if hit.is_none() {
            if let Some(names) = &containers[i].names {
                if includes(&split_observed_docker_names(names), target) {
                    hit = Some(&containers[i]);
                }
            }
        }
        i = i + 1;
    }
    proof {
        ends(all);
    }
    hit
}

/// The first volume of this name.
pub open spec fn volume_at(volumes: Seq<DockerVolumeView>, target: Seq<char>) -> Option<
    DockerVolumeView,
> {
    first_where(volumes, |v: DockerVolumeView| v.name == Some(target))
}

/// The first volume of this name.
pub fn observed_volume<'a>(volumes: &'a Vec<DockerVolume>, target: &str) -> (r: Option<
    &'a DockerVolume,
>)
    ensures
        r.deep_view() == volume_at(volumes.deep_view(), target@),
{
    let ghost all = volumes.deep_view();
    let mut hit: Option<&'a DockerVolume> = None;
    let mut i: usize = 0;
    proof {
        ends(all);
    }
    while i < volumes.len()
        invariant
            i <= volumes@.len(),
            all == volumes.deep_view(),
            hit.deep_view() == volume_at(all.take(i as int), target@),
        decreases volumes@.len() - i,
    {
        proof {
            step(all, i as int);
        }
        if hit.is_none() && is_text(as_text(&volumes[i].name), target) {
            hit = Some(&volumes[i]);
        }
        i = i + 1;
    }
    proof {
        ends(all);
    }
    hit
}

/// The first Compose project of this name.
pub open spec fn project_at(projects: Seq<ComposeProjectView>, target: Seq<char>) -> Option<
    ComposeProjectView,
> {
    first_where(projects, |p: ComposeProjectView| p.name == Some(target))
}

/// The first Compose project of this name.
pub fn observed_project<'a>(projects: &'a Vec<ComposeProject>, target: &str) -> (r: Option<
    &'a ComposeProject,
>)
    ensures
        r.deep_view() == project_at(projects.deep_view(), target@),
{
    let ghost all = projects.deep_view();
    let mut hit: Option<&'a ComposeProject> = None;
    let mut i: usize = 0;
    proof {
        ends(all);
    }
    while i < projects.len()
        invariant
            i <= projects@.len(),
            all == projects.deep_view(),
            hit.deep_view() == project_at(all.take(i as int), target@),
        decreases projects@.len() - i,
    {
        proof {
            step(all, i as int);
        }
        if hit.is_none() && is_text(as_text(&projects[i].name), target) {
            hit = Some(&projects[i]);
        }
        i = i + 1;
    }
    proof {
        ends(all);
    }
    hit
}

/// What was read about a volume beyond the scan.
pub open spec fn volume_observation_at(
    volumes: Seq<VolumeObservationView>,
    target: Seq<char>,
) -> Option<VolumeObservationView> {
    first_where(volumes, |v: VolumeObservationView| v.name == target)
}

/// What was read about a volume beyond the scan.
pub fn volume_observation<'a>(volumes: &'a Vec<VolumeObservation>, target: &str) -> (r: Option<
    &'a VolumeObservation,
>)
    ensures
        r.deep_view() == volume_observation_at(volumes.deep_view(), target@),
{
    let ghost all = volumes.deep_view();
    let mut hit: Option<&'a VolumeObservation> = None;
    let mut i: usize = 0;
    proof {
        ends(all);
    }
    while i < volumes.len()
        invariant
            i <= volumes@.len(),
            all == volumes.deep_view(),
            hit.deep_view() == volume_observation_at(all.take(i as int), target@),
        decreases volumes@.len() - i,
    {
        proof {
            step(all, i as int);
        }
        if hit.is_none() && same(&volumes[i].name, target) {
            hit = Some(&volumes[i]);
        }
        i = i + 1;
    }
    proof {
        ends(all);
    }
    hit
}

/// A label of a container.
pub open spec fn container_label(container: DockerContainerView, key: Seq<char>) -> Option<
    Seq<char>,
> {
    match container.labels {
        Some(labels) => label_value_spec(labels, key),
        None => None,
    }
}

/// A label of a container.
pub fn read_container_label(container: &DockerContainer, key: &str) -> (r: Option<String>)
    ensures
        r.deep_view() == container_label(container.deep_view(), key@),
{
    match &container.labels {
        Some(labels) => label_value(labels, key),
        None => None,
    }
}

/// The evidence on a container.
pub open spec fn container_evidence(container: DockerContainerView) -> Seq<Seq<char>> {
    Seq::empty() + labelled("image="@, container.image) + labelled("status="@, container.status)
        + labelled("ports="@, container.ports) + labelled(
        "compose_project="@,
        container_label(container, "com.docker.compose.project"@),
    ) + labelled(
        "compose_service="@,
        container_label(container, "com.docker.compose.service"@),
    )
}

/// What identifies a container.
pub open spec fn container_fingerprint(
    observed: Option<DockerContainerView>,
    target: Seq<char>,
) -> Seq<Seq<char>> {
    let base = seq!["kind=docker-container"@, "name="@ + target];
    match observed {
        Some(container) => base + labelled("image="@, container.image) + labelled(
            "compose_project="@,
            container_label(container, "com.docker.compose.project"@),
        ),
        None => base,
    }
}

/// Who may own a container.
pub open spec fn container_ownership_spec(
    registry: RegistryView,
    scan: ScanReportView,
    finding: DriftFindingView,
    target: Seq<char>,
) -> DriftOwnershipFindingView {
    let observed = container_at(scan.detected.docker.containers, target);
    let project = match observed {
        Some(container) => container_label(container, "com.docker.compose.project"@),
        None => None,
    };
    let image = match observed {
        Some(container) => container.image,
        None => None,
    };
    let candidates = sorted_set(named_owners(registry.services.services, target, project, image));
    DriftOwnershipFindingView {
        kind: "docker-container"@,
        code: finding.code,
        target,
        confidence: if candidates.len() > 0 {
            "medium"@
        } else {
            "low"@
        },
        review_action: if candidates.len() == 0 {
            "identify_container_owner"@
        } else {
            "confirm_candidate_service_owner"@
        },
        suggested_action: "adopt only after the candidate service owner confirms this running container; otherwise move it to cleanup request review"@,
        service_candidates: candidates,
        evidence: sorted_set(
            match observed {
                Some(container) => container_evidence(container),
                None => Seq::empty(),
            },
        ),
        resource_fingerprint: container_fingerprint(observed, target),
        exact_match_required: true,
        cleanup_risk: "high_running_workload"@,
    }
}

/// Who may own a container.
pub fn container_ownership_finding(
    registry: &Registry,
    scan: &ScanReport,
    finding: &DriftFinding,
    target: &str,
) -> (r: DriftOwnershipFinding)
    ensures
        r.deep_view() == container_ownership_spec(
            registry.deep_view(),
            scan.deep_view(),
            finding.deep_view(),
            target@,
        ),
{
    let mut evidence: Vec<String> = Vec::new();
    let mut fingerprint: Vec<String> = vec![
        "kind=docker-container".to_string(),
        cat2("name=", target),
    ];
    let mut project: Option<String> = None;
    let mut image: Option<&str> = None;
    proof {
        assert(evidence.deep_view() =~= Seq::<Seq<char>>::empty());
        assert(fingerprint.deep_view() =~= seq!["kind=docker-container"@, "name="@ + target@]);
    }
    if let Some(container) = observed_container(&scan.detected.docker.containers, target) {
        project = read_container_label(container, "com.docker.compose.project");
        let service = read_container_label(container, "com.docker.compose.service");
        image = as_text(&container.image);
        note_some(&mut evidence, "image=", as_text(&container.image));
        note_some(&mut evidence, "status=", as_text(&container.status));
        note_some(&mut evidence, "ports=", as_text(&container.ports));
        note_some(&mut evidence, "compose_project=", as_text(&project));
        note_some(&mut evidence, "compose_service=", as_text(&service));
        note_some(&mut fingerprint, "image=", as_text(&container.image));
        note_some(&mut fingerprint, "compose_project=", as_text(&project));
    }
    let candidates = service_candidates_for_named_resource(
        registry,
        target,
        as_text(&project),
        image,
    );
    let known = candidates.len() > 0;
    DriftOwnershipFinding {
        kind: "docker-container".to_string(),
        code: finding.code.clone(),
        target: target.to_string(),
        confidence: (if known {
            "medium"
        } else {
            "low"
        }).to_string(),
        review_action: (if known {
            "confirm_candidate_service_owner"
        } else {
            "identify_container_owner"
        }).to_string(),
        suggested_action: "adopt only after the candidate service owner confirms this running container; otherwise move it to cleanup request review".to_string(),
        service_candidates: candidates,
        evidence: unique_sorted(evidence),
        resource_fingerprint: fingerprint,
        exact_match_required: true,
        cleanup_risk: "high_running_workload".to_string(),
    }
}

/// What identifies a volume: its name, driver and scope, and up to eight of
/// the containers that mount it.
pub open spec fn volume_fingerprint(
    target: Seq<char>,
    observed: Option<DockerVolumeView>,
    users: Seq<Seq<char>>,
) -> Seq<Seq<char>> {
    let driver = match observed {
        Some(volume) => volume.driver,
        None => None,
    };
    let scope = match observed {
        Some(volume) => volume.scope,
        None => None,
    };
    seq!["kind=docker-volume"@, "name="@ + target] + labelled("driver="@, driver) + labelled(
        "scope="@,
        scope,
    ) + all_labelled("mounted_by="@, front(users, 8))
}

/// What identifies a volume.
pub fn volume_resource_fingerprint(
    target: &str,
    observed: Option<&DockerVolume>,
    users: &Vec<String>,
) -> (r: Vec<String>)
    ensures
        r.deep_view() == volume_fingerprint(target@, observed.deep_view(), users.deep_view()),
{
    let mut fingerprint: Vec<String> = vec![
        "kind=docker-volume".to_string(),
        cat2("name=", target),
    ];
    let (driver, scope) = match observed {
        Some(volume) => (as_text(&volume.driver), as_text(&volume.scope)),
        None => (None, None),
    };
    proof {
        assert(fingerprint.deep_view() =~= seq!["kind=docker-volume"@, "name="@ + target@]);
    }
    note_some(&mut fingerprint, "driver=", driver);
    note_some(&mut fingerprint, "scope=", scope);
    note_all(&mut fingerprint, "mounted_by=", &take_texts(users, 8));
    fingerprint
}

/// Who may own a volume.
pub open spec fn volume_ownership_spec(
    registry: RegistryView,
    observation: ObservationView,
    finding: DriftFindingView,
    target: Seq<char>,
) -> DriftOwnershipFindingView {
    let observed = volume_at(observation.scan.detected.docker.volumes, target);
    let read = volume_observation_at(observation.volumes, target);
    let users = match read {
        Some(volume) => volume.users,
        None => Seq::empty(),
    };
    let inspected = match read {
        Some(volume) => volume.evidence,
        None => Seq::empty(),
    };
    let driver = match observed {
        Some(volume) => volume.driver,
        None => None,
    };
    let scope = match observed {
        Some(volume) => volume.scope,
        None => None,
    };
    let candidates = volume_candidates(registry, target, users);
    DriftOwnershipFindingView {
        kind: "docker-volume"@,
        code: finding.code,
        target,
        confidence: if users.len() > 0 || candidates.len() > 0 {
            "medium"@
        } else {
            "low"@
        },
        review_action: if users.len() == 0 {
            "inspect_volume_contents_and_backup_need"@
        } else {
            "confirm_attached_container_owner"@
        },
        suggested_action: "inspect contents and backup need; adopt if owned, otherwise require backup/restore proof before cleanup approval"@,
        service_candidates: candidates,
        evidence: sorted_set(
            Seq::empty() + labelled("driver="@, driver) + labelled("scope="@, scope) + inspected
                + all_labelled("mounted_by_container="@, users),
        ),
        resource_fingerprint: volume_fingerprint(target, observed, users),
        exact_match_required: true,
        cleanup_risk: "high_data_may_exist"@,
    }
}

/// Who may own a volume.
pub fn volume_ownership_finding(
    registry: &Registry,
    observation: &Observation,
    finding: &DriftFinding,
    target: &str,
) -> (r: DriftOwnershipFinding)
    ensures
        r.deep_view() == volume_ownership_spec(
            registry.deep_view(),
            observation.deep_view(),
            finding.deep_view(),
            target@,
        ),
{
    let observed = observed_volume(&observation.scan.detected.docker.volumes, target);
    let (driver, scope) = match observed {
        Some(volume) => (as_text(&volume.driver), as_text(&volume.scope)),
        None => (None, None),
    };
    let (inspected, users) = match volume_observation(&observation.volumes, target) {
        Some(volume) => (volume.evidence.clone(), volume.users.clone()),
        None => (Vec::new(), Vec::new()),
    };
    let mut evidence: Vec<String> = Vec::new();
    let ghost users_view = match volume_observation_at(
        observation.deep_view().volumes,
        target@,
    ) {
        Some(volume) => volume.users,
        None => Seq::empty(),
    };
    let ghost inspected_view = match volume_observation_at(
        observation.deep_view().volumes,
        target@,
    ) {
        Some(volume) => volume.evidence,
        None => Seq::empty(),
    };
    proof {
        assert(users.deep_view() =~= users_view);
        assert(inspected.deep_view() =~= inspected_view);
        assert(evidence.deep_view() =~= Seq::<Seq<char>>::empty());
    }
    note_some(&mut evidence, "driver=", driver);
    note_some(&mut evidence, "scope=", scope);
    extend(&mut evidence, &inspected);
    note_all(&mut evidence, "mounted_by_container=", &users);
    let candidates = service_candidates_for_volume(registry, target, &users);
    let fingerprint = volume_resource_fingerprint(target, observed, &users);
    let attached = users.len() > 0;
    let known = candidates.len() > 0;
    DriftOwnershipFinding {
        kind: "docker-volume".to_string(),
        code: finding.code.clone(),
        target: target.to_string(),
        confidence: (if attached || known {
            "medium"
        } else {
            "low"
        }).to_string(),
        review_action: (if attached {
            "confirm_attached_container_owner"
        } else {
            "inspect_volume_contents_and_backup_need"
        }).to_string(),
        suggested_action: "inspect contents and backup need; adopt if owned, otherwise require backup/restore proof before cleanup approval".to_string(),
        service_candidates: candidates,
        evidence: unique_sorted(evidence),
        resource_fingerprint: fingerprint,
        exact_match_required: true,
        cleanup_risk: "high_data_may_exist".to_string(),
    }
}

/// Who may own a Compose project.
pub open spec fn compose_ownership_spec(
    registry: RegistryView,
    scan: ScanReportView,
    finding: DriftFindingView,
    target: Seq<char>,
) -> DriftOwnershipFindingView {
    let observed = project_at(scan.detected.docker.compose_projects, target);
    let status = match observed {
        Some(project) => project.status,
        None => None,
    };
    let config_files = match observed {
        Some(project) => project.config_files,
        None => None,
    };
    let candidates = sorted_set(
        named_owners(registry.services.services, target, Some(target), None),
    );
    DriftOwnershipFindingView {
        kind: "compose-project"@,
        code: finding.code,
        target,
        confidence: if candidates.len() > 0 {
            "medium"@
        } else {
            "low"@
        },
        review_action: if candidates.len() == 0 {
            "identify_compose_project_owner"@
        } else {
            "confirm_candidate_service_owner"@
        },
        suggested_action: "confirm compose config files and service owner; adopt expected projects or classify as cleanup review"@,
        service_candidates: candidates,
        evidence: sorted_set(
            Seq::empty() + labelled("status="@, status) + labelled("config_files="@, config_files),
        ),
        resource_fingerprint: seq!["kind=compose-project"@, "name="@ + target] + labelled(
            "config_files="@,
            config_files,
        ),
        exact_match_required: true,
        cleanup_risk: "high_project_may_own_containers_and_volumes"@,
    }
}

/// Who may own a Compose project.
pub fn compose_ownership_finding(
    registry: &Registry,
    scan: &ScanReport,
    finding: &DriftFinding,
    target: &str,
) -> (r: DriftOwnershipFinding)
    ensures
        r.deep_view() == compose_ownership_spec(
            registry.deep_view(),
            scan.deep_view(),
            finding.deep_view(),
            target@,
        ),
{
    let (status, config_files) = match observed_project(
        &scan.detected.docker.compose_projects,
        target,
    ) {
        Some(project) => (as_text(&project.status), as_text(&project.config_files)),
        None => (None, None),
    };
    let mut evidence: Vec<String> = Vec::new();
    let mut fingerprint: Vec<String> = vec![
        "kind=compose-project".to_string(),
        cat2("name=", target),
    ];
    proof {
        assert(evidence.deep_view() =~= Seq::<Seq<char>>::empty());
        assert(fingerprint.deep_view() =~= seq!["kind=compose-project"@, "name="@ + target@]);
    }
    note_some(&mut evidence, "status=", status);
    note_some(&mut evidence, "config_files=", config_files);
    note_some(&mut fingerprint, "config_files=", config_files);
    let candidates = service_candidates_for_named_resource(registry, target, Some(target), None);
    let known = candidates.len() > 0;
    DriftOwnershipFinding {
        kind: "compose-project".to_string(),
        code: finding.code.clone(),
        target: target.to_string(),
        confidence: (if known {
            "medium"
        } else {
            "low"
        }).to_string(),
        review_action: (if known {
            "confirm_candidate_service_owner"
        } else {
            "identify_compose_project_owner"
        }).to_string(),
        suggested_action: "confirm compose config files and service owner; adopt expected projects or classify as cleanup review".to_string(),
        service_candidates: candidates,
        evidence: unique_sorted(evidence),
        resource_fingerprint: fingerprint,
        exact_match_required: true,
        cleanup_risk: "high_project_may_own_containers_and_volumes".to_string(),
    }
}

/// Who may own a resource that is known by its name alone.
pub open spec fn named_ownership_spec(
    registry: RegistryView,
    finding: DriftFindingView,
    target: Seq<char>,
    systemd: bool,
) -> DriftOwnershipFindingView {
    DriftOwnershipFindingView {
        kind: if systemd {
            "systemd-unit"@
        } else {
            "caddy-domain"@
        },
        code: finding.code,
        target,
        confidence: "low"@,
        review_action: if systemd {
            "review_systemd_unit_owner"@
        } else {
            "confirm_caddy_route_owner"@
        },
        suggested_action: if systemd {
            "adopt app-owned units; add expiring ignore for base operating-system units"@
        } else {
            "confirm Caddy route upstream and service owner before domain adoption"@
        },
        service_candidates: sorted_set(
            named_owners(registry.services.services, target, None, None),
        ),
        evidence: seq![
            (if systemd {
                "running_unit="@
            } else {
                "caddy_site="@
            }) + target,
        ],
        resource_fingerprint: if systemd {
            seq!["kind=systemd-unit"@, "unit="@ + target]
        } else {
            seq!["kind=caddy-domain"@, "domain="@ + target]
        },
        exact_match_required: true,
        cleanup_risk: if systemd {
            "medium_system_service"@
        } else {
            "medium_route_ownership_unknown"@
        },
    }
}

/// Who may own a systemd unit.
pub fn systemd_ownership_finding(registry: &Registry, finding: &DriftFinding, target: &str) -> (r:
    DriftOwnershipFinding)
    ensures
        r.deep_view() == named_ownership_spec(
            registry.deep_view(),
            finding.deep_view(),
            target@,
            true,
        ),
{
    DriftOwnershipFinding {
        kind: "systemd-unit".to_string(),
        code: finding.code.clone(),
        target: target.to_string(),
        confidence: "low".to_string(),
        review_action: "review_systemd_unit_owner".to_string(),
        suggested_action: "adopt app-owned units; add expiring ignore for base operating-system units".to_string(),
        service_candidates: service_candidates_for_named_resource(registry, target, None, None),
        evidence: vec![cat2("running_unit=", target)],
        resource_fingerprint: vec!["kind=systemd-unit".to_string(), cat2("unit=", target)],
        exact_match_required: true,
        cleanup_risk: "medium_system_service".to_string(),
    }
}

/// Who may own a domain.
pub fn domain_ownership_finding(registry: &Registry, finding: &DriftFinding, target: &str) -> (r:
    DriftOwnershipFinding)
    ensures
        r.deep_view() == named_ownership_spec(
            registry.deep_view(),
            finding.deep_view(),
            target@,
            false,
        ),
{
    DriftOwnershipFinding {
        kind: "caddy-domain".to_string(),
        code: finding.code.clone(),
        target: target.to_string(),
        confidence: "low".to_string(),
        review_action: "confirm_caddy_route_owner".to_string(),
        suggested_action: "confirm Caddy route upstream and service owner before domain adoption".to_string(),
        service_candidates: service_candidates_for_named_resource(registry, target, None, None),
        evidence: vec![cat2("caddy_site=", target)],
        resource_fingerprint: vec!["kind=caddy-domain".to_string(), cat2("domain=", target)],
        exact_match_required: true,
        cleanup_risk: "medium_route_ownership_unknown".to_string(),
    }
}

/// Who may own the resource of a finding; `None` where the finding has no
/// target or cannot be adopted.
pub open spec fn ownership_finding_spec(
    registry: RegistryView,
    observation: ObservationView,
    finding: DriftFindingView,
) -> Option<DriftOwnershipFindingView> {
    match (finding.target, finding_adopt_kind_spec(finding.code)) {
        (Some(target), Some(kind)) => if kind == "port"@ {
            Some(port_ownership_spec(registry, observation.scan, finding, target))
        } else if kind == "docker-container"@ {
            Some(container_ownership_spec(registry, observation.scan, finding, target))
        } else if kind == "docker-volume"@ {
            Some(volume_ownership_spec(registry, observation, finding, target))
        } else if kind == "compose-project"@ {
            Some(compose_ownership_spec(registry, observation.scan, finding, target))
        } else if kind == "systemd-unit"@ {
            Some(named_ownership_spec(registry, finding, target, true))
        } else if kind == "caddy-domain"@ {
            Some(named_ownership_spec(registry, finding, target, false))
        } else {
            None
        },
        _ => None,
    }
}

/// Who may own the resource of a finding.
pub fn ownership_finding(registry: &Registry, observation: &Observation, finding: &DriftFinding) -> (
r: Option<DriftOwnershipFinding>)
    ensures
        r.deep_view() == ownership_finding_spec(
            registry.deep_view(),
            observation.deep_view(),
            finding.deep_view(),
        ),
{
    let target = match &finding.target {
        Some(target) => target.as_str(),
        None => {
            return None;
        },
    };
    let kind = match finding_adopt_kind(&finding.code) {
        Some(kind) => kind,
        None => {
            return None;
        },
    };
    let scan = &observation.scan;
    if same(kind, "port") {
        Some(port_ownership_finding(registry, scan, finding, target))
    } else if same(kind, "docker-container") {
        Some(container_ownership_finding(registry, scan, finding, target))
    } else if same(kind, "docker-volume") {
        Some(volume_ownership_finding(registry, observation, finding, target))
    } else if same(kind, "compose-project") {
        Some(compose_ownership_finding(registry, scan, finding, target))
    } else if same(kind, "systemd-unit") {
        Some(systemd_ownership_finding(registry, finding, target))
    } else if same(kind, "caddy-domain") {
        Some(domain_ownership_finding(registry, finding, target))
    } else {
        None
    }
}

// ---------------------------------------------------------------------------
// The ownership report
// ---------------------------------------------------------------------------

/// Where a finding stands in the review order.
#[derive(Debug)]
pub struct ReviewRank {
    pub weight: u8,
    pub kind: String,
    pub target: String,
}

/// View of [`ReviewRank`].
#[verifier::ext_equal]
pub struct ReviewRankView {
    pub weight: u8,
    pub kind: Seq<char>,
    pub target: Seq<char>,
}

impl DeepView for ReviewRank {
    type V = ReviewRankView;

    open spec fn deep_view(&self) -> ReviewRankView {
        ReviewRankView {
            weight: self.weight,
            kind: self.kind.deep_view(),
            target: self.target.deep_view(),
        }
    }
}

impl Clone for ReviewRank {
    fn clone(&self) -> (r: Self)
        ensures
            r.deep_view() == self.deep_view(),
    {
        ReviewRank {
            weight: self.weight,
            kind: self.kind.clone(),
            target: self.target.clone(),
        }
    }
}

/// How urgent a cleanup risk is; lower is more urgent.
pub open spec fn risk_weight(risk: Seq<char>) -> u8 {
    if risk == "high_public_listener"@ || risk == "high_running_workload"@ || risk
        == "high_data_may_exist"@ || risk == "high_project_may_own_containers_and_volumes"@ {
        0
    } else {
        1
    }
}

impl Ranked for ReviewRank {
    /// By weight, then by kind, then by target.
    open spec fn before(a: ReviewRankView, b: ReviewRankView) -> bool {
        a.weight < b.weight || a.weight == b.weight && pair_lt(
            (a.kind, a.target),
            (b.kind, b.target),
        )
    }

    fn ranks_before(&self, other: &Self) -> (r: bool) {
        self.weight < other.weight || (self.weight == other.weight && (less(
            &self.kind,
            &other.kind,
        ) || (same(&self.kind, &other.kind) && less(&self.target, &other.target))))
    }
}

/// The ranks of the findings.
pub open spec fn review_ranks(findings: Seq<DriftOwnershipFindingView>) -> Seq<ReviewRankView> {
    findings.map_values(
        |f: DriftOwnershipFindingView|
            ReviewRankView {
                weight: risk_weight(f.cleanup_risk),
                kind: f.kind,
                target: f.target,
            },
    )
}

/// Up to 25 findings in the order in which to review them.
pub open spec fn review_order(findings: Seq<DriftOwnershipFindingView>) -> Seq<Seq<char>> {
    front(sorted_by(review_ranks(findings), rank::<ReviewRank>()), 25).map_values(
        |k: ReviewRankView| k.kind + ":"@ + k.target,
    )
}

/// Up to 25 findings in the order in which to review them.
pub fn ownership_review_order(findings: &Vec<DriftOwnershipFinding>) -> (r: Vec<String>)
    ensures
        r.deep_view() == review_order(findings.deep_view()),
{
    let ghost all = findings.deep_view();
    let mut ranks: Vec<ReviewRank> = Vec::new();
    let mut i: usize = 0;
    while i < findings.len()
        invariant
            i <= findings@.len(),
            ranks@.len() == i,
            all == findings.deep_view(),
            forall|j: int|
                0 <= j < i ==> (#[trigger] ranks@[j]).deep_view() == review_ranks(all)[j],
        decreases findings@.len() - i,
    {
        let f = &findings[i];
        let urgent = same(&f.cleanup_risk, "high_public_listener") || same(
            &f.cleanup_risk,
            "high_running_workload",
        ) || same(&f.cleanup_risk, "high_data_may_exist") || same(
            &f.cleanup_risk,
            "high_project_may_own_containers_and_volumes",
        );
        ranks.push(
            ReviewRank {
                weight: if urgent {
                    0
                } else {
                    1
                },
                kind: f.kind.clone(),
                target: f.target.clone(),
            },
        );
        i = i + 1;
    }
    proof {
        assert(ranks.deep_view() =~= review_ranks(all));
    }
    let sorted = sort_stable(ranks);
    let ghost order = sorted.deep_view();
    let mut out: Vec<String> = Vec::new();
    let mut k: usize = 0;
    while k < sorted.len() && k < 25
        invariant
            k <= sorted@.len(),
            k <= 25,
            out@.len() == k,
            order == sorted.deep_view(),
            forall|j: int|
                0 <= j < k ==> (#[trigger] out@[j])@ == order[j].kind + ":"@ + order[j].target,
        decreases sorted@.len() - k,
    {
        out.push(cat3(&sorted[k].kind, ":", &sorted[k].target));
        k = k + 1;
    }
    proof {
        assert(out.deep_view() =~= review_order(all));
    }
    out
}

/// How many findings have this confidence.
pub open spec fn with_confidence(
    findings: Seq<DriftOwnershipFindingView>,
    confidence: Seq<char>,
) -> nat {
    tally(findings, |f: DriftOwnershipFindingView| f.confidence == confidence)
}

/// How many findings need their owner confirmed.
pub open spec fn needing_owner(findings: Seq<DriftOwnershipFindingView>) -> nat {
    tally(findings, |f: DriftOwnershipFindingView| f.review_action != "ignore_base_system"@)
}

/// Counts the findings of this confidence.
pub fn count_confidence(findings: &Vec<DriftOwnershipFinding>, confidence: &str) -> (r: usize)
    ensures
        r == with_confidence(findings.deep_view(), confidence@),
{
    let ghost all = findings.deep_view();
    let mut n: usize = 0;
    let mut i: usize = 0;
    proof {
        ends(all);
    }
    while i < findings.len()
        invariant
            i <= findings@.len(),
            n <= i,
            all == findings.deep_view(),
            n == with_confidence(all.take(i as int), confidence@),
        decreases findings@.len() - i,
    {
        proof {
            step(all, i as int);
        }
        if same(&findings[i].confidence, confidence) {
            n = n + 1;
        }
        i = i + 1;
    }
    proof {
        ends(all);
    }
    n
}

/// Counts the findings that need their owner confirmed.
pub fn count_needing_owner(findings: &Vec<DriftOwnershipFinding>) -> (r: usize)
    ensures
        r == needing_owner(findings.deep_view()),
{
    let ghost all = findings.deep_view();
    let mut n: usize = 0;
    let mut i: usize = 0;
    proof {
        ends(all);
    }
    while i < findings.len()
        invariant
            i <= findings@.len(),
            n <= i,
            all == findings.deep_view(),
            n == needing_owner(all.take(i as int)),
        decreases findings@.len() - i,
    {
        proof {
            step(all, i as int);
        }
        if !same(&findings[i].review_action, "ignore_base_system") {
            n = n + 1;
        }
        i = i + 1;
    }
    proof {
        ends(all);
    }
    n
}

/// The ownership findings of a drift report.
pub open spec fn ownership_findings(
    registry: RegistryView,
    observation: ObservationView,
    findings: Seq<DriftFindingView>,
) -> Seq<DriftOwnershipFindingView> {
    chosen(findings, |f: DriftFindingView| ownership_finding_spec(registry, observation, f))
}

/// Who may own the resources behind active drift.
pub open spec fn drift_ownership_spec(
    registry: RegistryView,
    observation: ObservationView,
    filter: DriftFilterView,
) -> DriftOwnershipReportView {
    let drift = drift_report_spec(registry, observation, filter);
    let findings = ownership_findings(registry, observation, drift.findings);
    DriftOwnershipReportView {
        ok: drift.active_findings == 0,
        read_only: true,
        status: if drift.active_findings == 0 {
            "clean"@
        } else {
            "review_required"@
        },
        active_findings: drift.active_findings,
        high_confidence: with_confidence(findings, "high"@),
        medium_confidence: with_confidence(findings, "medium"@),
        low_confidence: with_confidence(findings, "low"@),
        needs_owner_review: needing_owner(findings),
        suggested_review_order: review_order(findings),
        findings,
        limitations: drift.limitations,
    }
}

/// Who may own the resources behind active drift.
pub fn drift_ownership(
    registry: &Registry,
    observation: &Observation,
    filter: &DriftFilter<'_>,
) -> (r: DriftOwnershipReport)
    ensures
        r.deep_view() == drift_ownership_spec(
            registry.deep_view(),
            observation.deep_view(),
            filter.deep_view(),
        ),
{
    let drift = drift_explain(registry, observation, filter);
    let ghost all = drift.findings.deep_view();
    let mut findings: Vec<DriftOwnershipFinding> = Vec::new();
    let mut i: usize = 0;
    proof {
        ends(all);
        assert(findings.deep_view() =~= Seq::<DriftOwnershipFindingView>::empty());
    }
    while i < drift.findings.len()
        invariant
            i <= drift.findings@.len(),
            all == drift.findings.deep_view(),
            findings.deep_view() == ownership_findings(
                registry.deep_view(),
                observation.deep_view(),
                all.take(i as int),
            ),
        decreases drift.findings@.len() - i,
    {
        proof {
            step(all, i as int);
        }
        if let Some(finding) = ownership_finding(registry, observation, &drift.findings[i]) {
            findings.push(finding);
        }
        i = i + 1;
    }
    proof {
        ends(all);
    }
    DriftOwnershipReport {
        ok: drift.active_findings == 0,
        read_only: true,
        status: (if drift.active_findings == 0 {
            "clean"
        } else {
            "review_required"
        }).to_string(),
        active_findings: drift.active_findings,
        high_confidence: count_confidence(&findings, "high"),
        medium_confidence: count_confidence(&findings, "medium"),
        low_confidence: count_confidence(&findings, "low"),
        needs_owner_review: count_needing_owner(&findings),
        suggested_review_order: ownership_review_order(&findings),
        findings,
        limitations: drift.limitations,
    }
}

// ---------------------------------------------------------------------------
// Laws
// ---------------------------------------------------------------------------

proof fn lemma_confidence_is_known(
    registry: RegistryView,
    observation: ObservationView,
    finding: DriftFindingView,
)
    ensures
        ownership_finding_spec(registry, observation, finding) matches Some(f) ==> f.confidence
            == "medium"@ || f.confidence == "low"@,
{
}

proof fn lemma_confidences_add_up(
    registry: RegistryView,
    observation: ObservationView,
    findings: Seq<DriftFindingView>,
)
    ensures
        ({
            let all = ownership_findings(registry, observation, findings);
            with_confidence(all, "high"@) + with_confidence(all, "medium"@) + with_confidence(
                all,
                "low"@,
            ) == all.len()
        }),
    decreases findings.len(),
{
    reveal_strlit("high");
    reveal_strlit("medium");
    reveal_strlit("low");
    assert("high"@.len() == 4 && "medium"@.len() == 6 && "low"@.len() == 3);
    if findings.len() > 0 {
        lemma_confidences_add_up(registry, observation, findings.drop_last());
        lemma_confidence_is_known(registry, observation, findings.last());
        let all = ownership_findings(registry, observation, findings);
        let rest = ownership_findings(registry, observation, findings.drop_last());
        if ownership_finding_spec(registry, observation, findings.last()) is Some {
            assert(all.drop_last() =~= rest);
        } else {
            assert(all =~= rest);
        }
    }
}

/// Each finding on an owner is held with one of the three confidences.
pub proof fn law_confidences_add_up(
    registry: RegistryView,
    observation: ObservationView,
    filter: DriftFilterView,
)
    ensures
        ({
            let r = drift_ownership_spec(registry, observation, filter);
            r.high_confidence + r.medium_confidence + r.low_confidence == r.findings.len()
        }),
{
    lemma_confidences_add_up(
        registry,
        observation,
        drift_report_spec(registry, observation, filter).findings,
    );
}

/// The names in a list of names: what stands between commas, trimmed, unless nothing is
/// left of it.
pub proof fn law_docker_names(raw: Seq<char>, name: Seq<char>)
    ensures
        docker_names(raw).contains(name) <==> name.len() > 0 && exists|i: int|
            0 <= i < pieces(raw, is_char(',')).len() && trimmed(
                #[trigger] pieces(raw, is_char(','))[i],
            ) == name,
{
    let f = |p: Seq<char>|
        if trimmed(p).len() > 0 {
            Some(trimmed(p))
        } else {
            None
        };
    let all = pieces(raw, is_char(','));
    law_chosen(all, f, name);
    if name.len() > 0 && exists|i: int| 0 <= i < all.len() && trimmed(#[trigger] all[i]) == name {
        let i = choose|i: int| 0 <= i < all.len() && trimmed(#[trigger] all[i]) == name;
        assert(f(all[i]) == Some(name));
    }
    if docker_names(raw).contains(name) {
        let i = choose|i: int| 0 <= i < all.len() && f(#[trigger] all[i]) == Some(name);
        assert(trimmed(all[i]) == name);
    }
}

/// A label has a value where, up to blanks, it stands before the first equals sign of a
/// part and the value, which is not blank, behind it.
pub proof fn law_labels(label: Seq<char>, value: Seq<char>, key: Seq<char>)
    requires
        !label.contains('='),
    ensures
        label_in(label.push('=') + value, key) == (if trimmed(label) == key && trimmed(value).len()
            > 0 {
            Some(trimmed(value))
        } else {
            None
        }),
        label_in(label, key) is None,
{
    let part = label.push('=') + value;
    law_parted(part, '=');
    law_parted(label, '=');
    assert(part[label.len() as int] == '=');
    assert(part.contains('='));
    let (before, after) = parted(part, '=')->0;
    assert(part == before.push('=') + after);
    if before.len() < label.len() {
        assert(part[before.len() as int] == '=');
        assert(label[before.len() as int] == '=');
    }
    if before.len() > label.len() {
        assert(before[label.len() as int] == part[label.len() as int]);
        assert(before.contains('='));
    }
    assert(before =~= part.take(before.len() as int));
    assert(label =~= part.take(label.len() as int));
    assert(after =~= part.skip((before.len() + 1) as int));
    assert(value =~= part.skip((label.len() + 1) as int));
}

/// The value of a label is that of the first part that has one.
pub proof fn law_label_values(labels: Seq<char>, key: Seq<char>)
    ensures
        ({
            let parts = pieces(labels, is_char(','));
            match label_value_spec(labels, key) {
                None => forall|i: int|
                    0 <= i < parts.len() ==> label_in(#[trigger] parts[i], key) is None,
                Some(v) => exists|i: int|
                    0 <= i < parts.len() && label_in(#[trigger] parts[i], key) == Some(v) && forall|
                        j: int,
                    |
                        0 <= j < i ==> label_in(#[trigger] parts[j], key) is None,
            }
        }),
{
    let parts = pieces(labels, is_char(','));
    let f = |part: Seq<char>| label_in(part, key);
    law_first_some(parts, f);
    if first_some(parts, f) is Some {
        let i = choose|i: int|
            0 <= i < parts.len() && f(#[trigger] parts[i]) == first_some(parts, f) && forall|
                j: int,
            |
                0 <= j < i ==> f(#[trigger] parts[j]) is None;
        assert(label_in(parts[i], key) == label_value_spec(labels, key));
        assert forall|j: int| 0 <= j < i implies label_in(#[trigger] parts[j], key) is None by {
            assert(f(parts[j]) is None);
        }
    } else {
        assert forall|i: int| 0 <= i < parts.len() implies label_in(
            #[trigger] parts[i],
            key,
        ) is None by {
            assert(f(parts[i]) is None);
        }
    }
}

/// Ports that are published at a port mention it, wherever it stands; ports that mention
/// no text of it do not.
pub proof fn law_published_ports(front: Seq<char>, port: u16, back: Seq<char>)
    ensures
        mentions_port(front + (":"@ + decimal(port as nat) + "->"@) + back, port),
        mentions_port(front + (":"@ + decimal(port as nat) + "/"@) + back, port),
        mentions_port(front + ("0.0.0.0:"@ + decimal(port as nat)) + back, port),
        mentions_port(front + ("[::]:"@ + decimal(port as nat)) + back, port),
        !holds(front, decimal(port as nat)) ==> !mentions_port(front, port),
{
    let p = decimal(port as nat);
    law_parts_are_found(front, ":"@ + p + "->"@, back);
    law_parts_are_found(front, ":"@ + p + "/"@, back);
    law_parts_are_found(front, "0.0.0.0:"@ + p, back);
    law_parts_are_found(front, "[::]:"@ + p, back);
    lemma_held_part(front, ":"@, p, "->"@);
    lemma_held_part(front, ":"@, p, "/"@);
    lemma_held_part(front, "0.0.0.0:"@, p, Seq::empty());
    lemma_held_part(front, "[::]:"@, p, Seq::empty());
    assert("0.0.0.0:"@ + p + Seq::empty() =~= "0.0.0.0:"@ + p);
    assert("[::]:"@ + p + Seq::empty() =~= "[::]:"@ + p);
}

proof fn lemma_held_part(s: Seq<char>, before: Seq<char>, part: Seq<char>, after: Seq<char>)
    ensures
        holds(s, before + part + after) ==> holds(s, part),
{
    let whole = before + part + after;
    if holds(s, whole) {
        law_found_parts_are_there(s, whole);
        let (front, back) = choose|front: Seq<char>, back: Seq<char>|
            s == #[trigger] (front + whole + back);
        law_parts_are_found(front + before, part, after + back);
        assert(s =~= (front + before) + part + (after + back));
    }
}

/// A target is public exactly where it begins with an address of all interfaces.
pub proof fn law_public_targets(target: Seq<char>)
    ensures
        is_public_target_spec(target) <==> {
            ||| exists|rest: Seq<char>| target == #[trigger] ("0.0.0.0:"@ + rest)
            ||| exists|rest: Seq<char>| target == #[trigger] ("*:"@ + rest)
            ||| exists|rest: Seq<char>| target == #[trigger] ("[::]:"@ + rest)
            ||| exists|rest: Seq<char>| target == #[trigger] ("::"@ + rest)
        },
{
    law_found_parts_are_there(target, "0.0.0.0:"@);
    law_found_parts_are_there(target, "*:"@);
    law_found_parts_are_there(target, "[::]:"@);
    law_found_parts_are_there(target, "::"@);
}

/// A resource belongs to a project by name where it has the project's name, or that name
/// goes on with a hyphen or an underscore.
pub proof fn law_project_names(resource: Seq<char>, project: Seq<char>)
    ensures
        has_project_prefix(resource, project) <==> project.len() > 0 && (resource == project
            || exists|rest: Seq<char>|
            resource == #[trigger] (project.push('-') + rest)) || project.len() > 0 && exists|
            rest: Seq<char>,
        |
            resource == #[trigger] (project.push('_') + rest),
{
    let n = project.len() as int;
    law_found_parts_are_there(resource, project);
    if has_project_prefix(resource, project) && resource != project {
        let back = choose|back: Seq<char>| resource == #[trigger] (project + back);
        let rest = resource.skip(n + 1);
        assert(resource =~= project.push(resource[n]) + rest);
    }
    if exists|rest: Seq<char>| resource == #[trigger] (project.push('-') + rest) {
        let rest = choose|rest: Seq<char>| resource == #[trigger] (project.push('-') + rest);
        assert(resource =~= project + (seq!['-'] + rest));
        assert(resource[n] == '-');
    }
    if exists|rest: Seq<char>| resource == #[trigger] (project.push('_') + rest) {
        let rest = choose|rest: Seq<char>| resource == #[trigger] (project.push('_') + rest);
        assert(resource =~= project + (seq!['_'] + rest));
        assert(resource[n] == '_');
    }
}

/// A port's owners are the services that it is recorded for.
pub proof fn law_port_owners(ports: Seq<PortRecordView>, port: u16, id: Seq<char>)
    ensures
        port_owners(ports, port).contains(id) <==> exists|i: int|
            0 <= i < ports.len() && (#[trigger] ports[i]).port == port && ports[i].service_id == id,
{
    let f = |r: PortRecordView|
        if r.port == port {
            Some(r.service_id)
        } else {
            None
        };
    law_chosen(ports, f, id);
    if exists|i: int|
        0 <= i < ports.len() && (#[trigger] ports[i]).port == port && ports[i].service_id == id {
        let i = choose|i: int|
            0 <= i < ports.len() && (#[trigger] ports[i]).port == port && ports[i].service_id == id;
        assert(f(ports[i]) == Some(id));
    }
    if port_owners(ports, port).contains(id) {
        let i = choose|i: int| 0 <= i < ports.len() && f(#[trigger] ports[i]) == Some(id);
        assert(ports[i].port == port);
    }
}

/// Whether a service has a volume: it names it, a record says so, or one of its
/// containers uses it.
pub open spec fn has_volume(
    service: ServiceView,
    records: Seq<VolumeRecordView>,
    volume: Seq<char>,
    users: Seq<Seq<char>>,
) -> bool {
    ||| service.volumes.contains(volume)
    ||| exists|r: int|
        0 <= r < records.len() && (#[trigger] records[r]).name == volume && records[r].service_id
            == service.id
    ||| exists|u: Seq<char>| #[trigger] users.contains(u) && service.containers.contains(u)
}

/// Whether a volume looks like one of a service: a container that uses it, or the volume
/// itself, is named after one of its projects, it is named like one of its volumes, or
/// after its root directory.
pub open spec fn looks_like_volume(
    service: ServiceView,
    volume: Seq<char>,
    users: Seq<Seq<char>>,
) -> bool {
    ||| exists|u: int, p: int|
        0 <= u < users.len() && 0 <= p < service.compose_projects.len() && has_project_prefix(
            #[trigger] users[u],
            #[trigger] service.compose_projects[p],
        )
    ||| exists|p: int|
        0 <= p < service.compose_projects.len() && has_project_prefix(
            volume,
            #[trigger] service.compose_projects[p],
        )
    ||| exists|v: int|
        0 <= v < service.volumes.len() && (has_project_prefix(
            volume,
            #[trigger] service.volumes[v],
        ) || has_project_prefix(service.volumes[v], volume))
    ||| service.root is Some && file_name_spec(service.root->0) is Some && has_project_prefix(
        volume,
        file_name_spec(service.root->0)->0,
    )
}

proof fn lemma_project_prefix(projects: Seq<Seq<char>>, resource: Seq<char>)
    ensures
        some_project_prefix(projects, resource) <==> exists|p: int|
            0 <= p < projects.len() && has_project_prefix(resource, #[trigger] projects[p]),
{
    let q = |p: Seq<char>| has_project_prefix(resource, p);
    lemma_any(projects, q);
    if some_project_prefix(projects, resource) {
        let p = choose|p: int| 0 <= p < projects.len() && q(#[trigger] projects[p]);
        assert(has_project_prefix(resource, projects[p]));
    }
    if exists|p: int|
        0 <= p < projects.len() && has_project_prefix(resource, #[trigger] projects[p]) {
        let p = choose|p: int|
            0 <= p < projects.len() && has_project_prefix(resource, #[trigger] projects[p]);
        assert(q(projects[p]));
    }
}

/// Which services have a volume, and which it looks like.
#[verifier::spinoff_prover]
#[verifier::rlimit(40)]
pub proof fn law_whose_volume(
    service: ServiceView,
    records: Seq<VolumeRecordView>,
    volume: Seq<char>,
    users: Seq<Seq<char>>,
)
    ensures
        claims_volume(service, records, volume, users) <==> has_volume(
            service,
            records,
            volume,
            users,
        ),
        resembles_volume(service, volume, users) <==> looks_like_volume(service, volume, users),
{
    law_share(users, service.containers);
    let q = |r: VolumeRecordView| r.name == volume && r.service_id == service.id;
    lemma_any(records, q);
    if volume_recorded(records, volume, service.id) {
        let r = choose|r: int| 0 <= r < records.len() && q(#[trigger] records[r]);
        assert(records[r].name == volume);
    }
    if exists|r: int|
        0 <= r < records.len() && (#[trigger] records[r]).name == volume && records[r].service_id
            == service.id {
        let r = choose|r: int|
            0 <= r < records.len() && (#[trigger] records[r]).name == volume
                && records[r].service_id == service.id;
        assert(q(records[r]));
    }
    let projects = service.compose_projects;
    lemma_project_prefix(projects, volume);
    let w = |u: Seq<char>| some_project_prefix(projects, u);
    lemma_any(users, w);
    if some_user_prefix(users, projects) {
        let u = choose|u: int| 0 <= u < users.len() && w(#[trigger] users[u]);
        lemma_project_prefix(projects, users[u]);
        let p = choose|p: int|
            0 <= p < projects.len() && has_project_prefix(users[u], #[trigger] projects[p]);
        assert(has_project_prefix(users[u], projects[p]));
    }
    if exists|u: int, p: int|
        0 <= u < users.len() && 0 <= p < projects.len() && has_project_prefix(
            #[trigger] users[u],
            #[trigger] projects[p],
        ) {
        let (u, p) = choose|u: int, p: int|
            0 <= u < users.len() && 0 <= p < projects.len() && has_project_prefix(
                #[trigger] users[u],
                #[trigger] projects[p],
            );
        lemma_project_prefix(projects, users[u]);
        assert(w(users[u]));
    }
    let z = |v: Seq<char>| related_by_prefix(volume, v);
    lemma_any(service.volumes, z);
    if some_related_volume(service.volumes, volume) {
        let v = choose|v: int| 0 <= v < service.volumes.len() && z(#[trigger] service.volumes[v]);
        assert(related_by_prefix(volume, service.volumes[v]));
    }
    if exists|v: int|
        0 <= v < service.volumes.len() && (has_project_prefix(
            volume,
            #[trigger] service.volumes[v],
        ) || has_project_prefix(service.volumes[v], volume)) {
        let v = choose|v: int|
            0 <= v < service.volumes.len() && (has_project_prefix(
                volume,
                #[trigger] service.volumes[v],
            ) || has_project_prefix(service.volumes[v], volume));
        assert(z(service.volumes[v]));
    }
}

/// The candidates for a volume are the services that have it; only where none has it, they
/// are those that it looks like.
pub proof fn law_volume_candidates(
    registry: RegistryView,
    volume: Seq<char>,
    users: Seq<Seq<char>>,
    id: Seq<char>,
)
    ensures
        ({
            let services = registry.services.services;
            let records = registry.volumes.volumes;
            let had = exists|s: int|
                0 <= s < services.len() && has_volume(
                    #[trigger] services[s],
                    records,
                    volume,
                    users,
                );
            volume_candidates(registry, volume, users).contains(id) <==> if had {
                exists|s: int|
                    0 <= s < services.len() && has_volume(
                        #[trigger] services[s],
                        records,
                        volume,
                        users,
                    ) && services[s].id == id
            } else {
                exists|s: int|
                    0 <= s < services.len() && looks_like_volume(
                        #[trigger] services[s],
                        volume,
                        users,
                    ) && services[s].id == id
            }
        }),
{
    let services = registry.services.services;
    let records = registry.volumes.volumes;
    let had = exists|s: int|
        0 <= s < services.len() && has_volume(#[trigger] services[s], records, volume, users);
    let claimants = volume_claimants(services, records, volume, users);
    let likes = volume_lookalikes(services, volume, users);
    law_sorted_set(claimants);
    law_sorted_set(likes);
    lemma_claimants(services, records, volume, users, id);
    if had {
        let s = choose|s: int|
            0 <= s < services.len() && has_volume(#[trigger] services[s], records, volume, users);
        lemma_claimants(services, records, volume, users, services[s].id);
        assert(claimants.contains(services[s].id));
        assert(sorted_set(claimants).contains(services[s].id));
        assert(sorted_set(claimants).len() > 0);
    } else if sorted_set(claimants).len() > 0 {
        let x = sorted_set(claimants)[0];
        assert(sorted_set(claimants).contains(x));
        lemma_claimants(services, records, volume, users, x);
    }
}

proof fn lemma_claimants(
    services: Seq<ServiceView>,
    records: Seq<VolumeRecordView>,
    volume: Seq<char>,
    users: Seq<Seq<char>>,
    id: Seq<char>,
)
    ensures
        volume_claimants(services, records, volume, users).contains(id) <==> exists|s: int|
            0 <= s < services.len() && has_volume(#[trigger] services[s], records, volume, users)
                && services[s].id == id,
        volume_lookalikes(services, volume, users).contains(id) <==> exists|s: int|
            0 <= s < services.len() && looks_like_volume(#[trigger] services[s], volume, users)
                && services[s].id == id,
{
    let f = |s: ServiceView|
        if claims_volume(s, records, volume, users) {
            Some(s.id)
        } else {
            None
        };
    let g = |s: ServiceView|
        if resembles_volume(s, volume, users) {
            Some(s.id)
        } else {
            None
        };
    law_chosen(services, f, id);
    law_chosen(services, g, id);
    assert forall|s: int| 0 <= s < services.len() implies (f(#[trigger] services[s]) == Some(id)
        <==> has_volume(services[s], records, volume, users) && services[s].id == id) && (g(
        services[s],
    ) == Some(id) <==> looks_like_volume(services[s], volume, users) && services[s].id == id) by {
        law_whose_volume(services[s], records, volume, users);
    }
}

/// A service may own a resource exactly where it names the container or the project, where
/// one of its volumes and the resource begin alike, or where the resource or its image and
/// the service's id or name hold one another, whatever the case.
pub proof fn law_who_may_own(
    service: ServiceView,
    target: Seq<char>,
    compose_project: Option<Seq<char>>,
    image: Option<Seq<char>>,
)
    ensures
        may_own(service, target, compose_project, image) <==> {
            ||| service.containers.contains(target)
            ||| compose_project is Some && service.compose_projects.contains(compose_project->0)
            ||| exists|v: int|
                0 <= v < service.volumes.len() && (begins(target, #[trigger] service.volumes[v])
                    || begins(service.volumes[v], target))
            ||| target.len() > 0 && (holds(lowered(target), lowered(service.id)) || holds(
                lowered(service.id),
                lowered(target),
            ) || holds(lowered(target), lowered(service.name)) || holds(
                lowered(service.name),
                lowered(target),
            ))
            ||| image is Some && image->0.len() > 0 && (holds(
                lowered(image->0),
                lowered(service.id),
            ) || holds(lowered(service.id), lowered(image->0)) || holds(
                lowered(image->0),
                lowered(service.name),
            ) || holds(lowered(service.name), lowered(image->0)))
        },
{
    let q = |v: Seq<char>| begins(target, v) || begins(v, target);
    lemma_any(service.volumes, q);
    if some_volume_prefix(service.volumes, target) {
        let v = choose|v: int| 0 <= v < service.volumes.len() && q(#[trigger] service.volumes[v]);
        assert(begins(target, service.volumes[v]) || begins(service.volumes[v], target));
    }
    if exists|v: int|
        0 <= v < service.volumes.len() && (begins(target, #[trigger] service.volumes[v]) || begins(
            service.volumes[v],
            target,
        )) {
        let v = choose|v: int|
            0 <= v < service.volumes.len() && (begins(target, #[trigger] service.volumes[v])
                || begins(service.volumes[v], target));
        assert(q(service.volumes[v]));
    }
}

/// The owners that something may have are the ids of the services that may own it.
pub proof fn law_possible_owners(
    services: Seq<ServiceView>,
    target: Seq<char>,
    compose_project: Option<Seq<char>>,
    image: Option<Seq<char>>,
    id: Seq<char>,
)
    ensures
        named_owners(services, target, compose_project, image).contains(id) <==> exists|s: int|
            0 <= s < services.len() && may_own(
                #[trigger] services[s],
                target,
                compose_project,
                image,
            ) && services[s].id == id,
{
    let f = |s: ServiceView|
        if may_own(s, target, compose_project, image) {
            Some(s.id)
        } else {
            None
        };
    law_chosen(services, f, id);
    assert forall|s: int| 0 <= s < services.len() implies (f(#[trigger] services[s]) == Some(id)
        <==> may_own(services[s], target, compose_project, image) && services[s].id == id) by {}
}

/// Who may own what was found: something without a target or of an unknown kind is left
/// out; else the finding keeps its code and target, and names its candidates. One with
/// candidates, or whose volume is in use, is of medium confidence.
pub proof fn law_what_is_known_of_owners(
    registry: RegistryView,
    observation: ObservationView,
    finding: DriftFindingView,
)
    ensures
        ({
            let found = ownership_finding_spec(registry, observation, finding);
            let kind = finding_adopt_kind_spec(finding.code);
            let services = registry.services.services;
            &&& found is None <==> finding.target is None || kind is None
            &&& found matches Some(o) ==> {
                &&& o.target == finding.target->0
                &&& o.code == finding.code
                &&& o.kind == kind->0
                &&& o.exact_match_required
                &&& o.kind == "docker-volume"@ ==> o.cleanup_risk == "high_data_may_exist"@
                &&& o.kind == "docker-container"@ ==> o.cleanup_risk == "high_running_workload"@
                &&& o.kind == "compose-project"@ ==> o.cleanup_risk
                    == "high_project_may_own_containers_and_volumes"@
                &&& o.kind == "port"@ ==> (o.cleanup_risk == "high_public_listener"@
                    <==> is_public_target_spec(o.target)) && (o.review_action
                    == "review_public_listener_owner"@ <==> is_public_target_spec(o.target))
                &&& o.kind == "port"@ && port_at(observation.scan.detected.ports, o.target) is Some
                    ==> forall|id: Seq<char>|
                    #![trigger o.service_candidates.contains(id)]
                    o.service_candidates.contains(id) <==> port_owners(
                        registry.ports.ports,
                        port_at(observation.scan.detected.ports, o.target)->0.port,
                    ).contains(id)
                &&& o.kind == "docker-container"@ || o.kind == "compose-project"@ ==> (
                o.confidence == "medium"@ <==> o.service_candidates.len() > 0)
                &&& o.kind == "compose-project"@ ==> forall|id: Seq<char>|
                    #![trigger o.service_candidates.contains(id)]
                    o.service_candidates.contains(id) <==> named_owners(
                        services,
                        o.target,
                        Some(o.target),
                        None,
                    ).contains(id)
                &&& o.kind == "systemd-unit"@ || o.kind == "caddy-domain"@ ==> o.confidence
                    == "low"@ && forall|id: Seq<char>|
                    #![trigger o.service_candidates.contains(id)]
                    o.service_candidates.contains(id) <==> named_owners(
                        services,
                        o.target,
                        None,
                        None,
                    ).contains(id)
            }
        }),
{
    lemma_finding_codes();
    lemma_ownership_words();
    let services = registry.services.services;
    if finding.target is Some {
        let target = finding.target->0;
        law_sorted_set(named_owners(services, target, None, None));
        law_sorted_set(named_owners(services, target, Some(target), None));
        if port_at(observation.scan.detected.ports, target) is Some {
            law_sorted_set(
                port_owners(
                    registry.ports.ports,
                    port_at(observation.scan.detected.ports, target)->0.port,
                ),
            );
        }
    }
}

proof fn lemma_ownership_words()
    ensures
        "medium"@ != "low"@,
        "high_public_listener"@ != "medium_listener"@,
        "review_public_listener_owner"@ != "review_local_listener_owner"@,
        "high_public_listener"@ != "medium_system_service"@,
        "high_public_listener"@ != "medium_route_ownership_unknown"@,
{
    reveal_strlit("medium");
    reveal_strlit("low");
    reveal_strlit("high_public_listener");
    reveal_strlit("medium_listener");
    reveal_strlit("medium_system_service");
    reveal_strlit("medium_route_ownership_unknown");
    reveal_strlit("review_public_listener_owner");
    reveal_strlit("review_local_listener_owner");
    assert("medium"@.len() == 6 && "low"@.len() == 3);
    assert("high_public_listener"@[0] == 'h' && "medium_listener"@[0] == 'm'
        && "medium_system_service"@[0] == 'm' && "medium_route_ownership_unknown"@[0] == 'm');
    assert("review_public_listener_owner"@[7] == 'p' && "review_local_listener_owner"@[7] == 'l');
}

/// A report on owners is about each drift finding that has an owner to find, and is clean
/// exactly where nothing drifted.
pub proof fn law_which_owners_are_reported(
    registry: RegistryView,
    observation: ObservationView,
    filter: DriftFilterView,
    x: DriftOwnershipFindingView,
)
    ensures
        ({
            let drift = drift_report_spec(registry, observation, filter);
            let r = drift_ownership_spec(registry, observation, filter);
            &&& r.findings.contains(x) <==> exists|i: int|
                0 <= i < drift.findings.len() && ownership_finding_spec(
                    registry,
                    observation,
                    #[trigger] drift.findings[i],
                ) == Some(x)
            &&& r.ok <==> drift.active_findings == 0
            &&& r.status == "clean"@ <==> r.ok
            &&& r.status == "review_required"@ <==> !r.ok
            &&& r.read_only
        }),
{
    let drift = drift_report_spec(registry, observation, filter);
    let f = |f: DriftFindingView| ownership_finding_spec(registry, observation, f);
    law_chosen(drift.findings, f, x);
    assert forall|i: int| 0 <= i < drift.findings.len() implies (f(#[trigger] drift.findings[i])
        == ownership_finding_spec(registry, observation, drift.findings[i])) by {}
    reveal_strlit("clean");
    reveal_strlit("review_required");
    assert("clean"@.len() == 5 && "review_required"@.len() == 15);
}

/// The review begins with what is at high risk: public listeners, running workloads,
/// projects, and what may hold data.
pub proof fn law_what_is_reviewed_first(findings: Seq<DriftOwnershipFindingView>, i: int, j: int)
    requires
        0 <= i < j < findings.len(),
    ensures
        ({
            let order = sorted_by(review_ranks(findings), rank::<ReviewRank>());
            &&& order.len() == findings.len()
            &&& order[i].weight <= order[j].weight
            &&& j < 25 ==> review_order(findings)[i] == order[i].kind + ":"@ + order[i].target
        }),
        review_order(findings).len() <= 25,
        risk_weight(findings[i].cleanup_risk) == 0 <==> findings[i].cleanup_risk
            == "high_public_listener"@ || findings[i].cleanup_risk == "high_running_workload"@
            || findings[i].cleanup_risk == "high_data_may_exist"@ || findings[i].cleanup_risk
            == "high_project_may_own_containers_and_volumes"@,
{
    let s = review_ranks(findings);
    let before = rank::<ReviewRank>();
    law_ranked(
        s,
        before,
        |x: ReviewRankView| x.weight as int,
        |x: ReviewRankView| (x.kind, x.target),
        i,
        j,
    );
}

} // verus!
