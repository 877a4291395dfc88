//! Records that an adoption writes into the registry.

use vstd::prelude::*;
use crate::json::{
    json_flag, json_flag_spec, json_member, json_member_spec, json_object, json_object_spec,
    json_optional, json_optional_spec, json_quoted, json_texts, json_texts_spec,
};
use crate::list::put;
use crate::number::{bool_text, bool_word, decimal, decimal_text};
use crate::outside::json_quote;
use crate::registry::{
    DomainRecord, DomainRecordView, PortRecord, PortRecordView, VolumeRecord, VolumeRecordView,
};
use crate::text::as_text;

verus! {

/// A list of a service that names resources.
#[derive(Debug, Clone, Copy, PartialEq, Eq, Structural)]
pub enum ServiceListField {
    Domains,
    Containers,
    ComposeProjects,
    Volumes,
}

impl ServiceListField {
    /// The name of the list in the services file.
    pub open spec fn label(self) -> Seq<char> {
        match self {
            ServiceListField::Domains => "domains"@,
            ServiceListField::Containers => "containers"@,
            ServiceListField::ComposeProjects => "compose_projects"@,
            ServiceListField::Volumes => "volumes"@,
        }
    }

    /// The name of the list in the services file.
    pub fn name(self) -> (r: &'static str)
        ensures
            r@ == self.label(),
    {
        match self {
            ServiceListField::Domains => "domains",
            ServiceListField::Containers => "containers",
            ServiceListField::ComposeProjects => "compose_projects",
            ServiceListField::Volumes => "volumes",
        }
    }
}

/// What an adoption adds to the registry.
#[derive(Debug)]
pub enum AdoptionRecord {
    Port(PortRecord),
    Domain(DomainRecord),
    ServiceList { field: ServiceListField, value: String },
    Volume(VolumeRecord),
    SystemdUnit(String),
}

/// View of [`AdoptionRecord`].
#[verifier::ext_equal]
pub enum AdoptionRecordView {
    Port(PortRecordView),
    Domain(DomainRecordView),
    ServiceList { field: ServiceListField, value: Seq<char> },
    Volume(VolumeRecordView),
    SystemdUnit(Seq<char>),
}

impl DeepView for AdoptionRecord {
    type V = AdoptionRecordView;

    open spec fn deep_view(&self) -> AdoptionRecordView {
        match self {
            AdoptionRecord::Port(record) => AdoptionRecordView::Port(record.deep_view()),
            AdoptionRecord::Domain(record) => AdoptionRecordView::Domain(record.deep_view()),
            AdoptionRecord::ServiceList { field, value } => AdoptionRecordView::ServiceList {
                field: *field,
                value: value@,
            },
            AdoptionRecord::Volume(record) => AdoptionRecordView::Volume(record.deep_view()),
            AdoptionRecord::SystemdUnit(unit) => AdoptionRecordView::SystemdUnit(unit@),
        }
    }
}

impl Clone for AdoptionRecord {
    fn clone(&self) -> (r: Self)
        ensures
            r.deep_view() == self.deep_view(),
    {
        match self {
            AdoptionRecord::Port(record) => AdoptionRecord::Port(record.clone()),
            AdoptionRecord::Domain(record) => AdoptionRecord::Domain(record.clone()),
            AdoptionRecord::ServiceList { field, value } => AdoptionRecord::ServiceList {
                field: *field,
                value: value.clone(),
            },
            AdoptionRecord::Volume(record) => AdoptionRecord::Volume(record.clone()),
            AdoptionRecord::SystemdUnit(unit) => AdoptionRecord::SystemdUnit(unit.clone()),
        }
    }
}

impl AdoptionRecord {
    /// The registry files that the adoption changes.
    pub open spec fn files_spec(record: AdoptionRecordView) -> Seq<Seq<char>> {
        match record {
            AdoptionRecordView::Port(_) => seq!["ports.yml"@],
            AdoptionRecordView::Domain(_) => seq!["domains.yml"@, "services.yml"@],
            AdoptionRecordView::ServiceList { .. } => seq!["services.yml"@],
            AdoptionRecordView::SystemdUnit(_) => seq!["services.yml"@],
            AdoptionRecordView::Volume(_) => seq!["volumes.yml"@, "services.yml"@],
        }
    }

    /// The registry files that the adoption changes.
    pub fn file_names(&self) -> (r: Vec<String>)
        ensures
            r.deep_view() == AdoptionRecord::files_spec(self.deep_view()),
    {
        let files: Vec<String> = match self {
            AdoptionRecord::Port(_) => vec!["ports.yml".to_string()],
            AdoptionRecord::Domain(_) => vec!["domains.yml".to_string(), "services.yml".to_string()],
            AdoptionRecord::Volume(_) => vec!["volumes.yml".to_string(), "services.yml".to_string()],
            AdoptionRecord::ServiceList { .. } => vec!["services.yml".to_string()],
            AdoptionRecord::SystemdUnit(_) => vec!["services.yml".to_string()],
        };
        proof {
            assert(files.deep_view() =~= AdoptionRecord::files_spec(self.deep_view()));
        }
        files
    }
}

/// A port record as members of a JSON object, by name.
pub open spec fn port_members(p: PortRecordView) -> Seq<Seq<char>> {
    Seq::<Seq<char>>::empty().push(
        json_member_spec("bind"@, json_quoted(p.bind)),
    ).push(
        json_member_spec("exposure"@, json_quoted(p.exposure)),
    ).push(
        json_member_spec("id"@, json_quoted(p.id)),
    ).push(
        json_member_spec("notes"@, json_optional_spec(p.notes)),
    ).push(
        json_member_spec("port"@, decimal(p.port as nat)),
    ).push(
        json_member_spec("protocol"@, json_quoted(p.protocol)),
    ).push(
        json_member_spec("purpose"@, json_optional_spec(p.purpose)),
    ).push(
        json_member_spec("service_id"@, json_quoted(p.service_id)),
    ).push(
        json_member_spec("source"@, json_quoted(p.source)),
    )
}

/// A port record as members of a JSON object, by name.
pub fn list_port_members(p: &PortRecord) -> (r: Vec<String>)
    ensures
        r.deep_view() == port_members(p.deep_view()),
{
    let mut list: Vec<String> = Vec::new();
    proof {
        assert(list.deep_view() =~= Seq::<Seq<char>>::empty());
    }
    put(&mut list, &json_member("bind", &json_quote(&p.bind)));
    put(&mut list, &json_member("exposure", &json_quote(&p.exposure)));
    put(&mut list, &json_member("id", &json_quote(&p.id)));
    put(&mut list, &json_member("notes", &json_optional(as_text(&p.notes))));
    put(&mut list, &json_member("port", &decimal_text(p.port as u64)));
    put(&mut list, &json_member("protocol", &json_quote(&p.protocol)));
    put(&mut list, &json_member("purpose", &json_optional(as_text(&p.purpose))));
    put(&mut list, &json_member("service_id", &json_quote(&p.service_id)));
    put(&mut list, &json_member("source", &json_quote(&p.source)));
    list
}

/// A domain record as members of a JSON object, by name.
pub open spec fn domain_members(d: DomainRecordView) -> Seq<Seq<char>> {
    Seq::<Seq<char>>::empty().push(
        json_member_spec("caddy_managed"@, json_flag_spec(d.caddy_managed)),
    ).push(
        json_member_spec("host"@, json_quoted(d.host)),
    ).push(
        json_member_spec("id"@, json_quoted(d.id)),
    ).push(
        json_member_spec("notes"@, json_optional_spec(d.notes)),
    ).push(
        json_member_spec("service_id"@, json_quoted(d.service_id)),
    ).push(
        json_member_spec("status"@, json_quoted(d.status)),
    ).push(
        json_member_spec("tls"@, json_optional_spec(d.tls)),
    ).push(
        json_member_spec("upstream"@, json_optional_spec(d.upstream)),
    )
}

/// A domain record as members of a JSON object, by name.
pub fn list_domain_members(d: &DomainRecord) -> (r: Vec<String>)
    ensures
        r.deep_view() == domain_members(d.deep_view()),
{
    let mut list: Vec<String> = Vec::new();
    proof {
        assert(list.deep_view() =~= Seq::<Seq<char>>::empty());
    }
    put(&mut list, &json_member("caddy_managed", json_flag(d.caddy_managed)));
    put(&mut list, &json_member("host", &json_quote(&d.host)));
    put(&mut list, &json_member("id", &json_quote(&d.id)));
    put(&mut list, &json_member("notes", &json_optional(as_text(&d.notes))));
    put(&mut list, &json_member("service_id", &json_quote(&d.service_id)));
    put(&mut list, &json_member("status", &json_quote(&d.status)));
    put(&mut list, &json_member("tls", &json_optional(as_text(&d.tls))));
    put(&mut list, &json_member("upstream", &json_optional(as_text(&d.upstream))));
    list
}

/// A volume record as members of a JSON object, by name.
pub open spec fn volume_members(v: VolumeRecordView) -> Seq<Seq<char>> {
    Seq::<Seq<char>>::empty().push(
        json_member_spec("backup_policy"@, json_optional_spec(v.backup_policy)),
    ).push(
        json_member_spec("contains"@, json_texts_spec(v.contains)),
    ).push(
        json_member_spec("id"@, json_quoted(v.id)),
    ).push(
        json_member_spec("kind"@, json_quoted(v.kind)),
    ).push(
        json_member_spec("mountpoint"@, json_optional_spec(v.mountpoint)),
    ).push(
        json_member_spec("name"@, json_quoted(v.name)),
    ).push(
        json_member_spec("notes"@, json_optional_spec(v.notes)),
    ).push(
        json_member_spec("protected"@, bool_word(v.protected)),
    ).push(
        json_member_spec("service_id"@, json_quoted(v.service_id)),
    )
}

/// A volume record as members of a JSON object, by name.
pub fn list_volume_members(v: &VolumeRecord) -> (r: Vec<String>)
    ensures
        r.deep_view() == volume_members(v.deep_view()),
{
    let mut list: Vec<String> = Vec::new();
    proof {
        assert(list.deep_view() =~= Seq::<Seq<char>>::empty());
    }
    put(&mut list, &json_member("backup_policy", &json_optional(as_text(&v.backup_policy))));
    put(&mut list, &json_member("contains", &json_texts(&v.contains)));
    put(&mut list, &json_member("id", &json_quote(&v.id)));
    put(&mut list, &json_member("kind", &json_quote(&v.kind)));
    put(&mut list, &json_member("mountpoint", &json_optional(as_text(&v.mountpoint))));
    put(&mut list, &json_member("name", &json_quote(&v.name)));
    put(&mut list, &json_member("notes", &json_optional(as_text(&v.notes))));
    put(&mut list, &json_member("protected", bool_text(v.protected)));
    put(&mut list, &json_member("service_id", &json_quote(&v.service_id)));
    list
}

/// A value of a service's list as members of a JSON object, by name.
pub open spec fn value_members(service_id: Seq<char>, field: ServiceListField, value: Seq<char>) -> Seq<Seq<char>> {
    Seq::<Seq<char>>::empty().push(
        json_member_spec("field"@, json_quoted(field.label())),
    ).push(
        json_member_spec("service_id"@, json_quoted(service_id)),
    ).push(
        json_member_spec("source"@, json_quoted("observed_adopted"@)),
    ).push(
        json_member_spec("value"@, json_quoted(value)),
    )
}

/// A value of a service's list as members of a JSON object, by name.
pub fn list_value_members(service_id: &str, field: ServiceListField, value: &str) -> (r: Vec<String>)
    ensures
        r.deep_view() == value_members(service_id@, field, value@),
{
    let mut list: Vec<String> = Vec::new();
    proof {
        assert(list.deep_view() =~= Seq::<Seq<char>>::empty());
    }
    put(&mut list, &json_member("field", &json_quote(field.name())));
    put(&mut list, &json_member("service_id", &json_quote(service_id)));
    put(&mut list, &json_member("source", &json_quote("observed_adopted")));
    put(&mut list, &json_member("value", &json_quote(value)));
    list
}

/// A unit of a service as members of a JSON object, by name.
pub open spec fn unit_members(service_id: Seq<char>, unit: Seq<char>) -> Seq<Seq<char>> {
    Seq::<Seq<char>>::empty().push(
        json_member_spec("service_id"@, json_quoted(service_id)),
    ).push(
        json_member_spec("source"@, json_quoted("observed_adopted"@)),
    ).push(
        json_member_spec("unit"@, json_quoted(unit)),
    )
}

/// A unit of a service as members of a JSON object, by name.
pub fn list_unit_members(service_id: &str, unit: &str) -> (r: Vec<String>)
    ensures
        r.deep_view() == unit_members(service_id@, unit@),
{
    let mut list: Vec<String> = Vec::new();
    proof {
        assert(list.deep_view() =~= Seq::<Seq<char>>::empty());
    }
    put(&mut list, &json_member("service_id", &json_quote(service_id)));
    put(&mut list, &json_member("source", &json_quote("observed_adopted")));
    put(&mut list, &json_member("unit", &json_quote(unit)));
    list
}

/// What an adoption adds, as JSON.
pub open spec fn record_json(record: AdoptionRecordView, service_id: Seq<char>) -> Seq<char> {
    json_object_spec(
        match record {
            AdoptionRecordView::Port(p) => port_members(p),
            AdoptionRecordView::Domain(d) => domain_members(d),
            AdoptionRecordView::Volume(v) => volume_members(v),
            AdoptionRecordView::ServiceList { field, value } => value_members(
                service_id,
                field,
                value,
            ),
            AdoptionRecordView::SystemdUnit(unit) => unit_members(service_id, unit),
        },
    )
}

/// What an adoption adds, as JSON.
pub fn adoption_record_json(record: &AdoptionRecord, service_id: &str) -> (r: String)
    ensures
        r@ == record_json(record.deep_view(), service_id@),
{
    let members = match record {
        AdoptionRecord::Port(p) => list_port_members(p),
        AdoptionRecord::Domain(d) => list_domain_members(d),
        AdoptionRecord::Volume(v) => list_volume_members(v),
        AdoptionRecord::ServiceList { field, value } => list_value_members(
            service_id,
            *field,
            value,
        ),
        AdoptionRecord::SystemdUnit(unit) => list_unit_members(service_id, unit),
    };
    json_object(&members)
}



// Laws

/// A port's record tells each of its fields under its name.
pub proof fn law_port_records_tell_all(p: PortRecordView)
    ensures
        port_members(p) == seq![
            "\"bind\":"@ + json_quoted(p.bind),
            "\"exposure\":"@ + json_quoted(p.exposure),
            "\"id\":"@ + json_quoted(p.id),
            "\"notes\":"@ + json_optional_spec(p.notes),
            "\"port\":"@ + decimal(p.port as nat),
            "\"protocol\":"@ + json_quoted(p.protocol),
            "\"purpose\":"@ + json_optional_spec(p.purpose),
            "\"service_id\":"@ + json_quoted(p.service_id),
            "\"source\":"@ + json_quoted(p.source),
        ],
{
    reveal_strlit("bind");
    reveal_strlit("\"bind\":");
    reveal_strlit("exposure");
    reveal_strlit("\"exposure\":");
    reveal_strlit("id");
    reveal_strlit("\"id\":");
    reveal_strlit("notes");
    reveal_strlit("\"notes\":");
    reveal_strlit("port");
    reveal_strlit("\"port\":");
    reveal_strlit("protocol");
    reveal_strlit("\"protocol\":");
    reveal_strlit("purpose");
    reveal_strlit("\"purpose\":");
    reveal_strlit("service_id");
    reveal_strlit("\"service_id\":");
    reveal_strlit("source");
    reveal_strlit("\"source\":");
    reveal_strlit("\"");
    reveal_strlit("\":");
    assert("\""@ + "bind"@ + "\":"@ =~= "\"bind\":"@);
    assert("\""@ + "exposure"@ + "\":"@ =~= "\"exposure\":"@);
    assert("\""@ + "id"@ + "\":"@ =~= "\"id\":"@);
    assert("\""@ + "notes"@ + "\":"@ =~= "\"notes\":"@);
    assert("\""@ + "port"@ + "\":"@ =~= "\"port\":"@);
    assert("\""@ + "protocol"@ + "\":"@ =~= "\"protocol\":"@);
    assert("\""@ + "purpose"@ + "\":"@ =~= "\"purpose\":"@);
    assert("\""@ + "service_id"@ + "\":"@ =~= "\"service_id\":"@);
    assert("\""@ + "source"@ + "\":"@ =~= "\"source\":"@);
    assert(port_members(p) =~= seq![
            "\"bind\":"@ + json_quoted(p.bind),
            "\"exposure\":"@ + json_quoted(p.exposure),
            "\"id\":"@ + json_quoted(p.id),
            "\"notes\":"@ + json_optional_spec(p.notes),
            "\"port\":"@ + decimal(p.port as nat),
            "\"protocol\":"@ + json_quoted(p.protocol),
            "\"purpose\":"@ + json_optional_spec(p.purpose),
            "\"service_id\":"@ + json_quoted(p.service_id),
            "\"source\":"@ + json_quoted(p.source),
    ]);
}

/// A host's record tells each of its fields under its name.
pub proof fn law_domain_records_tell_all(d: DomainRecordView)
    ensures
        domain_members(d) == seq![
            "\"caddy_managed\":"@ + json_flag_spec(d.caddy_managed),
            "\"host\":"@ + json_quoted(d.host),
            "\"id\":"@ + json_quoted(d.id),
            "\"notes\":"@ + json_optional_spec(d.notes),
            "\"service_id\":"@ + json_quoted(d.service_id),
            "\"status\":"@ + json_quoted(d.status),
            "\"tls\":"@ + json_optional_spec(d.tls),
            "\"upstream\":"@ + json_optional_spec(d.upstream),
        ],
{
    reveal_strlit("caddy_managed");
    reveal_strlit("\"caddy_managed\":");
    reveal_strlit("host");
    reveal_strlit("\"host\":");
    reveal_strlit("id");
    reveal_strlit("\"id\":");
    reveal_strlit("notes");
    reveal_strlit("\"notes\":");
    reveal_strlit("service_id");
    reveal_strlit("\"service_id\":");
    reveal_strlit("status");
    reveal_strlit("\"status\":");
    reveal_strlit("tls");
    reveal_strlit("\"tls\":");
    reveal_strlit("upstream");
    reveal_strlit("\"upstream\":");
    reveal_strlit("\"");
    reveal_strlit("\":");
    assert("\""@ + "caddy_managed"@ + "\":"@ =~= "\"caddy_managed\":"@);
    assert("\""@ + "host"@ + "\":"@ =~= "\"host\":"@);
    assert("\""@ + "id"@ + "\":"@ =~= "\"id\":"@);
    assert("\""@ + "notes"@ + "\":"@ =~= "\"notes\":"@);
    assert("\""@ + "service_id"@ + "\":"@ =~= "\"service_id\":"@);
    assert("\""@ + "status"@ + "\":"@ =~= "\"status\":"@);
    assert("\""@ + "tls"@ + "\":"@ =~= "\"tls\":"@);
    assert("\""@ + "upstream"@ + "\":"@ =~= "\"upstream\":"@);
    assert(domain_members(d) =~= seq![
            "\"caddy_managed\":"@ + json_flag_spec(d.caddy_managed),
            "\"host\":"@ + json_quoted(d.host),
            "\"id\":"@ + json_quoted(d.id),
            "\"notes\":"@ + json_optional_spec(d.notes),
            "\"service_id\":"@ + json_quoted(d.service_id),
            "\"status\":"@ + json_quoted(d.status),
            "\"tls\":"@ + json_optional_spec(d.tls),
            "\"upstream\":"@ + json_optional_spec(d.upstream),
    ]);
}

/// A volume's record tells each of its fields under its name.
pub proof fn law_volume_records_tell_all(v: VolumeRecordView)
    ensures
        volume_members(v) == seq![
            "\"backup_policy\":"@ + json_optional_spec(v.backup_policy),
            "\"contains\":"@ + json_texts_spec(v.contains),
            "\"id\":"@ + json_quoted(v.id),
            "\"kind\":"@ + json_quoted(v.kind),
            "\"mountpoint\":"@ + json_optional_spec(v.mountpoint),
            "\"name\":"@ + json_quoted(v.name),
            "\"notes\":"@ + json_optional_spec(v.notes),
            "\"protected\":"@ + bool_word(v.protected),
            "\"service_id\":"@ + json_quoted(v.service_id),
        ],
{
    reveal_strlit("backup_policy");
    reveal_strlit("\"backup_policy\":");
    reveal_strlit("contains");
    reveal_strlit("\"contains\":");
    reveal_strlit("id");
    reveal_strlit("\"id\":");
    reveal_strlit("kind");
    reveal_strlit("\"kind\":");
    reveal_strlit("mountpoint");
    reveal_strlit("\"mountpoint\":");
    reveal_strlit("name");
    reveal_strlit("\"name\":");
    reveal_strlit("notes");
    reveal_strlit("\"notes\":");
    reveal_strlit("protected");
    reveal_strlit("\"protected\":");
    reveal_strlit("service_id");
    reveal_strlit("\"service_id\":");
    reveal_strlit("\"");
    reveal_strlit("\":");
    assert("\""@ + "backup_policy"@ + "\":"@ =~= "\"backup_policy\":"@);
    assert("\""@ + "contains"@ + "\":"@ =~= "\"contains\":"@);
    assert("\""@ + "id"@ + "\":"@ =~= "\"id\":"@);
    assert("\""@ + "kind"@ + "\":"@ =~= "\"kind\":"@);
    assert("\""@ + "mountpoint"@ + "\":"@ =~= "\"mountpoint\":"@);
    assert("\""@ + "name"@ + "\":"@ =~= "\"name\":"@);
    assert("\""@ + "notes"@ + "\":"@ =~= "\"notes\":"@);
    assert("\""@ + "protected"@ + "\":"@ =~= "\"protected\":"@);
    assert("\""@ + "service_id"@ + "\":"@ =~= "\"service_id\":"@);
    assert(volume_members(v) =~= seq![
            "\"backup_policy\":"@ + json_optional_spec(v.backup_policy),
            "\"contains\":"@ + json_texts_spec(v.contains),
            "\"id\":"@ + json_quoted(v.id),
            "\"kind\":"@ + json_quoted(v.kind),
            "\"mountpoint\":"@ + json_optional_spec(v.mountpoint),
            "\"name\":"@ + json_quoted(v.name),
            "\"notes\":"@ + json_optional_spec(v.notes),
            "\"protected\":"@ + bool_word(v.protected),
            "\"service_id\":"@ + json_quoted(v.service_id),
    ]);
}

} // verus!
