//! Writing an adopted resource into the registry, all of it or nothing.

use vstd::prelude::*;
use crate::adoption::{AdoptionRecord, AdoptionRecordView, ServiceListField};
use crate::edits::{
    ApplyOutcome, ApplyOutcomeView, append_domain_record, append_port_record, append_volume_record,
    contract_of, domain_holder, domain_taken, law_added_units, law_added_values,
    law_known_services, list_of, names_unit, port_holder, port_taken, service_index,
    service_with_unit, service_with_value, update_service_list, update_service_systemd_unit,
    volume_holder, volume_taken,
};
use crate::list::{law_either_list, note, noted};
use crate::paths::{path_join, path_joined};
use crate::registry::{
    DomainRecordView, DomainsRegistry, DomainsRegistryView, PortsRegistry, PortsRegistryView,
    Registry, RegistryView, ServiceView, ServicesRegistry, ServicesRegistryView, VolumesRegistry,
    VolumesRegistryView,
};
use crate::text::cat2;

verus! {

broadcast use {vstd::seq::group_seq_axioms, vstd::string::group_string_axioms};

/// The files of the registry that an adoption changes, up to the step that fails, if
/// one does.
#[derive(Debug)]
pub struct AdoptionEdit {
    pub ports: Option<PortsRegistry>,
    pub domains: Option<DomainsRegistry>,
    pub volumes: Option<VolumesRegistry>,
    pub services: Option<ServicesRegistry>,
    pub error: Option<String>,
}

/// View of [`AdoptionEdit`].
#[verifier::ext_equal]
pub struct AdoptionEditView {
    pub ports: Option<PortsRegistryView>,
    pub domains: Option<DomainsRegistryView>,
    pub volumes: Option<VolumesRegistryView>,
    pub services: Option<ServicesRegistryView>,
    pub error: Option<Seq<char>>,
}

impl DeepView for AdoptionEdit {
    type V = AdoptionEditView;

    open spec fn deep_view(&self) -> AdoptionEditView {
        AdoptionEditView {
            ports: self.ports.deep_view(),
            domains: self.domains.deep_view(),
            volumes: self.volumes.deep_view(),
            services: self.services.deep_view(),
            error: self.error.deep_view(),
        }
    }
}

/// An edit that changes nothing.
pub open spec fn no_edit() -> AdoptionEditView {
    AdoptionEditView { ports: None, domains: None, volumes: None, services: None, error: None }
}

fn empty_edit() -> (r: AdoptionEdit)
    ensures
        r.deep_view() == no_edit(),
{
    AdoptionEdit { ports: None, domains: None, volumes: None, services: None, error: None }
}

/// An edit, with a value added to a list of a service.
pub open spec fn with_list_value(
    edit: AdoptionEditView,
    services: Seq<ServiceView>,
    service_id: Seq<char>,
    field: ServiceListField,
    value: Seq<char>,
) -> AdoptionEditView {
    let i = service_index(services, service_id);
    if i >= services.len() {
        AdoptionEditView {
            error: Some("service_id is not registered: "@ + service_id),
            ..edit
        }
    } else if list_of(services[i], field).contains(value) {
        edit
    } else {
        AdoptionEditView {
            services: Some(
                ServicesRegistryView {
                    services: services.update(i, service_with_value(services[i], field, value)),
                },
            ),
            ..edit
        }
    }
}

fn add_list_value(
    edit: &mut AdoptionEdit,
    registry: &Registry,
    service_id: &str,
    field: ServiceListField,
    value: &str,
)
    requires
        old(edit).deep_view().services is None,
        old(edit).deep_view().error is None,
    ensures
        final(edit).deep_view() == with_list_value(
            old(edit).deep_view(),
            registry.deep_view().services.services,
            service_id@,
            field,
            value@,
        ),
{
    match update_service_list(&registry.services, service_id, field, value) {
        Ok(Some(services)) => {
            edit.services = Some(services);
        },
        Ok(None) => {},
        Err(words) => {
            edit.error = Some(words);
        },
    }
}

/// What an adoption changes.
pub open spec fn adoption_edit(
    registry: RegistryView,
    record: AdoptionRecordView,
    service_id: Seq<char>,
) -> AdoptionEditView {
    let services = registry.services.services;
    match record {
        AdoptionRecordView::Port(port) => match port_holder(registry.ports.ports, port) {
            Some(holder) => AdoptionEditView {
                error: Some(port_taken(port, holder)),
                ..no_edit()
            },
            None => AdoptionEditView {
                ports: Some(PortsRegistryView { ports: registry.ports.ports.push(port) }),
                ..no_edit()
            },
        },
        AdoptionRecordView::Domain(domain) => match domain_holder(
            registry.domains.domains,
            domain,
        ) {
            Some(holder) => AdoptionEditView {
                error: Some(domain_taken(domain, holder)),
                ..no_edit()
            },
            None => with_list_value(
                AdoptionEditView {
                    domains: Some(
                        DomainsRegistryView { domains: registry.domains.domains.push(domain) },
                    ),
                    ..no_edit()
                },
                services,
                service_id,
                ServiceListField::Domains,
                domain.host,
            ),
        },
        AdoptionRecordView::Volume(volume) => match volume_holder(
            registry.volumes.volumes,
            volume,
        ) {
            Some(holder) => AdoptionEditView {
                error: Some(volume_taken(volume, holder)),
                ..no_edit()
            },
            None => with_list_value(
                AdoptionEditView {
                    volumes: Some(
                        VolumesRegistryView { volumes: registry.volumes.volumes.push(volume) },
                    ),
                    ..no_edit()
                },
                services,
                service_id,
                ServiceListField::Volumes,
                volume.name,
            ),
        },
        AdoptionRecordView::ServiceList { field, value } => with_list_value(
            no_edit(),
            services,
            service_id,
            field,
            value,
        ),
        AdoptionRecordView::SystemdUnit(unit) => {
            let i = service_index(services, service_id);
            if i >= services.len() {
                AdoptionEditView {
                    error: Some("service_id is not registered: "@ + service_id),
                    ..no_edit()
                }
            } else if names_unit(contract_of(services[i]), unit) {
                no_edit()
            } else {
                AdoptionEditView {
                    services: Some(
                        ServicesRegistryView {
                            services: services.update(i, service_with_unit(services[i], unit)),
                        },
                    ),
                    ..no_edit()
                }
            }
        },
    }
}

/// What an adoption changes.
pub fn edit_for_adoption(registry: &Registry, record: &AdoptionRecord, service_id: &str) -> (r:
    AdoptionEdit)
    ensures
        r.deep_view() == adoption_edit(registry.deep_view(), record.deep_view(), service_id@),
{
    let mut edit = empty_edit();
    match record {
        AdoptionRecord::Port(port) => match append_port_record(&registry.ports, port) {
            Ok(ports) => {
                edit.ports = Some(ports);
            },
            Err(words) => {
                edit.error = Some(words);
            },
        },
        AdoptionRecord::Domain(domain) => match append_domain_record(&registry.domains, domain) {
            Ok(domains) => {
                edit.domains = Some(domains);
                add_list_value(
                    &mut edit,
                    registry,
                    service_id,
                    ServiceListField::Domains,
                    &domain.host,
                );
            },
            Err(words) => {
                edit.error = Some(words);
            },
        },
        AdoptionRecord::Volume(volume) => match append_volume_record(&registry.volumes, volume) {
            Ok(volumes) => {
                edit.volumes = Some(volumes);
                add_list_value(
                    &mut edit,
                    registry,
                    service_id,
                    ServiceListField::Volumes,
                    &volume.name,
                );
            },
            Err(words) => {
                edit.error = Some(words);
            },
        },
        AdoptionRecord::ServiceList { field, value } => {
            add_list_value(&mut edit, registry, service_id, *field, value);
        },
        AdoptionRecord::SystemdUnit(unit) => match update_service_systemd_unit(
            &registry.services,
            service_id,
            unit,
        ) {
            Ok(Some(services)) => {
                edit.services = Some(services);
            },
            Ok(None) => {},
            Err(words) => {
                edit.error = Some(words);
            },
        },
    }
    edit
}

/// The files of the registry that belong to a record, in the order in which they are
/// written.
pub open spec fn record_files(record: AdoptionRecordView) -> Seq<Seq<char>> {
    match record {
        AdoptionRecordView::Port(_) => seq!["ports.yml"@],
        AdoptionRecordView::Domain(_) => seq!["domains.yml"@, "services.yml"@],
        AdoptionRecordView::Volume(_) => seq!["volumes.yml"@, "services.yml"@],
        _ => seq!["services.yml"@],
    }
}

/// The files of the registry that belong to a record.
pub fn adoption_file_names(record: &AdoptionRecord) -> (r: Vec<String>)
    ensures
        r.deep_view() == record_files(record.deep_view()),
{
    let list: Vec<String> = match record {
        AdoptionRecord::Port(_) => vec!["ports.yml".to_string()],
        AdoptionRecord::Domain(_) => vec!["domains.yml".to_string(), "services.yml".to_string()],
        AdoptionRecord::Volume(_) => vec!["volumes.yml".to_string(), "services.yml".to_string()],
        AdoptionRecord::ServiceList { field: _, value: _ } => vec!["services.yml".to_string()],
        AdoptionRecord::SystemdUnit(_) => vec!["services.yml".to_string()],
    };
    proof {
        assert(list.deep_view() =~= record_files(record.deep_view()));
    }
    list
}

/// The files that an edit changes.
pub open spec fn edited_files(dir: Seq<char>, edit: AdoptionEditView) -> Seq<Seq<char>> {
    noted(edit.ports is Some, path_joined(dir, "ports.yml"@)) + noted(
        edit.domains is Some,
        path_joined(dir, "domains.yml"@),
    ) + noted(edit.volumes is Some, path_joined(dir, "volumes.yml"@)) + noted(
        edit.services is Some,
        path_joined(dir, "services.yml"@),
    )
}

/// What came of an edit: where a step fails, all that was changed before it is put
/// back.
pub open spec fn edit_outcome(dir: Seq<char>, edit: AdoptionEditView) -> ApplyOutcomeView {
    ApplyOutcomeView {
        changed_files: edited_files(dir, edit),
        rollback_performed: edit.error is Some,
        rollback_errors: Seq::empty(),
        error: match edit.error {
            Some(words) => Some(words + "; registry file changes were rolled back"@),
            None => None,
        },
    }
}

/// What came of an edit whose files could all be written and put back.
pub fn report_edit(dir: &str, edit: &AdoptionEdit) -> (r: ApplyOutcome)
    ensures
        r.deep_view() == edit_outcome(dir@, edit.deep_view()),
{
    let mut changed_files: Vec<String> = Vec::new();
    let rollback_errors: Vec<String> = Vec::new();
    proof {
        assert(changed_files.deep_view() =~= Seq::<Seq<char>>::empty());
        assert(rollback_errors.deep_view() =~= Seq::<Seq<char>>::empty());
    }
    note(&mut changed_files, edit.ports.is_some(), &path_join(dir, "ports.yml"));
    note(&mut changed_files, edit.domains.is_some(), &path_join(dir, "domains.yml"));
    note(&mut changed_files, edit.volumes.is_some(), &path_join(dir, "volumes.yml"));
    note(&mut changed_files, edit.services.is_some(), &path_join(dir, "services.yml"));
    proof {
        assert(changed_files.deep_view() =~= edited_files(dir@, edit.deep_view()));
    }
    ApplyOutcome {
        changed_files,
        rollback_performed: edit.error.is_some(),
        rollback_errors,
        error: match &edit.error {
            Some(words) => Some(cat2(words, "; registry file changes were rolled back")),
            None => None,
        },
    }
}

/// What came of an edit after a file could not be written.
pub fn report_failed_write(words: &str, changed_files: Vec<String>, rollback_errors: Vec<String>) -> (r:
    ApplyOutcome)
    ensures
        r.deep_view() == (ApplyOutcomeView {
            changed_files: changed_files.deep_view(),
            rollback_performed: true,
            rollback_errors: rollback_errors.deep_view(),
            error: Some(words@ + "; registry file changes were rolled back"@),
        }),
{
    ApplyOutcome {
        changed_files,
        rollback_performed: true,
        rollback_errors,
        error: Some(cat2(words, "; registry file changes were rolled back")),
    }
}

/// The registry after an edit.
pub open spec fn edited(registry: RegistryView, edit: AdoptionEditView) -> RegistryView {
    if edit.error is Some {
        registry
    } else {
        RegistryView {
            ports: match edit.ports {
                Some(part) => part,
                None => registry.ports,
            },
            domains: match edit.domains {
                Some(part) => part,
                None => registry.domains,
            },
            volumes: match edit.volumes {
                Some(part) => part,
                None => registry.volumes,
            },
            services: match edit.services {
                Some(part) => part,
                None => registry.services,
            },
            ..registry
        }
    }
}

/// The registry after an edit. One that fails leaves it as it was.
pub fn apply_adoption(registry: Registry, edit: AdoptionEdit) -> (r: Registry)
    ensures
        r.deep_view() == edited(registry.deep_view(), edit.deep_view()),
{
    if edit.error.is_some() {
        return registry;
    }
    Registry {
        ports: match edit.ports {
            Some(part) => part,
            None => registry.ports,
        },
        domains: match edit.domains {
            Some(part) => part,
            None => registry.domains,
        },
        volumes: match edit.volumes {
            Some(part) => part,
            None => registry.volumes,
        },
        services: match edit.services {
            Some(part) => part,
            None => registry.services,
        },
        snapshots: registry.snapshots,
        policies: registry.policies,
        backups: registry.backups,
    }
}

// ---------------------------------------------------------------------------
// Laws
// ---------------------------------------------------------------------------

/// An adoption is all or nothing: if one of its steps fails, the registry stays as it
/// was, and what was changed on the way is reported as put back.
pub proof fn law_failed_adoptions_change_nothing(
    registry: RegistryView,
    record: AdoptionRecordView,
    service_id: Seq<char>,
    dir: Seq<char>,
)
    ensures
        ({
            let edit = adoption_edit(registry, record, service_id);
            &&& edit.error is Some ==> edited(registry, edit) == registry
            &&& edit.error is Some <==> edit_outcome(dir, edit).rollback_performed
            &&& edit.error is Some <==> edit_outcome(dir, edit).error is Some
        }),
{
}

/// An adopted domain is registered, and its service lists it.
pub proof fn law_adopted_domains_are_listed(
    registry: RegistryView,
    domain: DomainRecordView,
    service_id: Seq<char>,
)
    requires
        adoption_edit(registry, AdoptionRecordView::Domain(domain), service_id).error is None,
    ensures
        ({
            let after = edited(
                registry,
                adoption_edit(registry, AdoptionRecordView::Domain(domain), service_id),
            );
            let i = service_index(registry.services.services, service_id);
            &&& after.domains.domains == registry.domains.domains.push(domain)
            &&& i < after.services.services.len()
            &&& list_of(after.services.services[i], ServiceListField::Domains).contains(domain.host)
        }),
{
    let services = registry.services.services;
    let i = service_index(services, service_id);
    lemma_service_index(services, service_id);
    let edit = adoption_edit(registry, AdoptionRecordView::Domain(domain), service_id);
    if edit.services is Some {
        let list = services[i].domains;
        assert(list.push(domain.host)[list.len() as int] == domain.host);
    }
}

proof fn lemma_service_index(services: Seq<ServiceView>, id: Seq<char>)
    ensures
        0 <= service_index(services, id) <= services.len(),
    decreases services.len(),
{
    if services.len() > 0 {
        lemma_service_index(services.drop_last(), id);
    }
}

/// What can be adopted: a port, host or volume that nobody has, for the last two with a
/// service that is registered; a value or a unit for a service that is.
pub proof fn law_what_can_be_recorded(
    registry: RegistryView,
    record: AdoptionRecordView,
    service_id: Seq<char>,
)
    ensures
        ({
            let services = registry.services.services;
            let known = exists|i: int|
                0 <= i < services.len() && (#[trigger] services[i]).id == service_id;
            adoption_edit(registry, record, service_id).error is None <==> match record {
                AdoptionRecordView::Port(port) => port_holder(registry.ports.ports, port) is None,
                AdoptionRecordView::Domain(domain) => known && domain_holder(
                    registry.domains.domains,
                    domain,
                ) is None,
                AdoptionRecordView::Volume(volume) => known && volume_holder(
                    registry.volumes.volumes,
                    volume,
                ) is None,
                _ => known,
            }
        }),
{
    law_known_services(registry.services.services, service_id);
}

/// What an adoption changes: a port, host or volume is added at the end of its list, a host,
/// volume or value is then in the service's list, a unit in its contract. No other service
/// changes, and no other list.
#[verifier::spinoff_prover]
#[verifier::rlimit(40)]
pub proof fn law_what_an_adoption_changes(
    registry: RegistryView,
    record: AdoptionRecordView,
    service_id: Seq<char>,
)
    requires
        adoption_edit(registry, record, service_id).error is None,
    ensures
        ({
            let after = edited(registry, adoption_edit(registry, record, service_id));
            let old_services = registry.services.services;
            let new_services = after.services.services;
            let k = service_index(old_services, service_id);
            &&& after.ports.ports == (match record {
                AdoptionRecordView::Port(port) => registry.ports.ports.push(port),
                _ => registry.ports.ports,
            })
            &&& after.domains.domains == (match record {
                AdoptionRecordView::Domain(domain) => registry.domains.domains.push(domain),
                _ => registry.domains.domains,
            })
            &&& after.volumes.volumes == (match record {
                AdoptionRecordView::Volume(volume) => registry.volumes.volumes.push(volume),
                _ => registry.volumes.volumes,
            })
            &&& new_services.len() == old_services.len()
            &&& forall|j: int|
                0 <= j < old_services.len() && j != k ==> #[trigger] new_services[j]
                    == old_services[j]
            &&& match record {
                AdoptionRecordView::Port(_) => new_services == old_services,
                AdoptionRecordView::Domain(domain) => new_services[k].domains.contains(domain.host),
                AdoptionRecordView::Volume(volume) => new_services[k].volumes.contains(volume.name),
                AdoptionRecordView::ServiceList { field, value } => list_of(
                    new_services[k],
                    field,
                ).contains(value),
                AdoptionRecordView::SystemdUnit(unit) => names_unit(
                    contract_of(new_services[k]),
                    unit,
                ),
            }
            &&& after == (RegistryView {
                ports: after.ports,
                domains: after.domains,
                volumes: after.volumes,
                services: after.services,
                ..registry
            })
        }),
{
    let services = registry.services.services;
    let k = service_index(services, service_id);
    law_known_services(services, service_id);
    match record {
        AdoptionRecordView::Port(_) => {},
        AdoptionRecordView::Domain(domain) => {
            lemma_listed(services[k], ServiceListField::Domains, domain.host);
        },
        AdoptionRecordView::Volume(volume) => {
            lemma_listed(services[k], ServiceListField::Volumes, volume.name);
        },
        AdoptionRecordView::ServiceList { field, value } => {
            lemma_listed(services[k], field, value);
        },
        AdoptionRecordView::SystemdUnit(unit) => {
            law_added_units(services[k], unit);
        },
    }
}

proof fn lemma_listed(service: ServiceView, field: ServiceListField, value: Seq<char>)
    ensures
        list_of(service_with_value(service, field, value), field).contains(value),
{
    let list = list_of(service, field).push(value);
    law_added_values(service, field, field, value);
    assert(list[list.len() - 1] == value);
}

/// The files that an edit writes are those of the parts that it changes.
pub proof fn law_which_files_are_written(dir: Seq<char>, edit: AdoptionEditView)
    ensures
        edited_files(dir, edit).contains(path_joined(dir, "ports.yml"@)) <== edit.ports is Some,
        edited_files(dir, edit).contains(path_joined(dir, "domains.yml"@)) <== edit.domains is Some,
        edited_files(dir, edit).contains(path_joined(dir, "volumes.yml"@)) <== edit.volumes is Some,
        edited_files(dir, edit).contains(path_joined(dir, "services.yml"@)) <== edit.services
            is Some,
        edited_files(dir, edit).len() == (if edit.ports is Some {
            1int
        } else {
            0
        }) + (if edit.domains is Some {
            1int
        } else {
            0
        }) + (if edit.volumes is Some {
            1int
        } else {
            0
        }) + (if edit.services is Some {
            1int
        } else {
            0
        }),
        edit_outcome(dir, edit).changed_files == edited_files(dir, edit),
        edit_outcome(dir, edit).rollback_errors.len() == 0,
{
    let n1 = noted(edit.ports is Some, path_joined(dir, "ports.yml"@));
    let n2 = noted(edit.domains is Some, path_joined(dir, "domains.yml"@));
    let n3 = noted(edit.volumes is Some, path_joined(dir, "volumes.yml"@));
    let n4 = noted(edit.services is Some, path_joined(dir, "services.yml"@));
    assert(equal(edited_files(dir, edit), n1 + n2 + n3 + n4));
    assert forall|x: Seq<char>|
        n1.contains(x) || n2.contains(x) || n3.contains(x) || n4.contains(x) implies
        #[trigger] edited_files(dir, edit).contains(x) by {
        law_either_list(n1, n2, x);
        law_either_list(n1 + n2, n3, x);
        law_either_list(n1 + n2 + n3, n4, x);
    }
    if edit.ports is Some {
        assert(n1[0] == path_joined(dir, "ports.yml"@));
    }
    if edit.domains is Some {
        assert(n2[0] == path_joined(dir, "domains.yml"@));
    }
    if edit.volumes is Some {
        assert(n3[0] == path_joined(dir, "volumes.yml"@));
    }
    if edit.services is Some {
        assert(n4[0] == path_joined(dir, "services.yml"@));
    }
}

/// The files that a record is written to.
pub proof fn law_files_of_records(record: AdoptionRecordView)
    ensures
        record_files(record).contains("services.yml"@) <==> !(record is Port),
        record_files(record).contains("ports.yml"@) <==> record is Port,
        record_files(record).contains("domains.yml"@) <==> record is Domain,
        record_files(record).contains("volumes.yml"@) <==> record is Volume,
{
    reveal_strlit("services.yml");
    reveal_strlit("ports.yml");
    reveal_strlit("domains.yml");
    reveal_strlit("volumes.yml");
    assert("services.yml"@[0] == 's' && "ports.yml"@[0] == 'p' && "domains.yml"@[0] == 'd'
        && "volumes.yml"@[0] == 'v');
    let files = record_files(record);
    assert(files.contains(files[0]));
    assert(files.contains(files.last()));
}

} // verus!
