//! The registry's own checks.

use opsctl::doctor::{
    safe_deployment_id, safe_script_name, safe_systemd_unit, DoctorReport, Severity,
};
use opsctl::registry::{
    BackupsRegistry, DomainRecord, DomainsRegistry, PoliciesRegistry, PortRecord, PortsRegistry,
    PublicDataPortException, Registry, Service, ServiceBuildContract, ServiceDeploymentContract,
    ServiceStaticSiteContract, ServiceSystemdContract, ServicesRegistry, SnapshotRecord,
    SnapshotsRegistry, VolumeRecord, VolumesRegistry,
};

/// 2026-01-01T00:00:00Z, in nanoseconds.
const NOW: i128 = 1_767_225_600_000_000_000;

fn text(s: &str) -> String {
    s.to_string()
}

fn service(id: &str) -> Service {
    Service {
        id: text(id),
        name: text(id),
        root: Some(format!("/srv/{id}")),
        kind: text("web"),
        environment: text("production"),
        deploy_method: Some(text("compose")),
        owner: Some(text("ops")),
        status: text("active"),
        ports: vec![8080],
        domains: vec![format!("{id}.example.com")],
        compose_projects: vec![text(id)],
        containers: vec![format!("{id}-web-1")],
        volumes: vec![format!("{id}_data")],
        data_paths: Vec::new(),
        env_files: Vec::new(),
        database: None,
        deployment: None,
        backup_policy: Some(text("before_deploy")),
        notes: None,
    }
}

fn port(id: &str, number: u16, service_id: &str, purpose: &str, exposure: &str) -> PortRecord {
    PortRecord {
        id: text(id),
        port: number,
        protocol: text("tcp"),
        bind: text("0.0.0.0"),
        service_id: text(service_id),
        purpose: Some(text(purpose)),
        exposure: text(exposure),
        source: text("manual"),
        notes: None,
    }
}

fn server_registry() -> Registry {
    Registry {
        services: ServicesRegistry { services: vec![service("shop"), service("blog")] },
        ports: PortsRegistry {
            ports: vec![
                port("port-shop-web", 8080, "shop", "http", "private"),
                port("port-shop-db", 5432, "shop", "postgres", "public"),
            ],
        },
        domains: DomainsRegistry {
            domains: vec![DomainRecord {
                id: text("domain-shop"),
                host: text("shop.example.com"),
                service_id: text("shop"),
                upstream: Some(text("127.0.0.1:8080")),
                caddy_managed: Some(true),
                tls: Some(text("auto")),
                status: text("active"),
                notes: None,
            }],
        },
        volumes: VolumesRegistry {
            volumes: vec![VolumeRecord {
                id: text("volume-shop"),
                name: text("shop_data"),
                service_id: text("shop"),
                kind: text("docker"),
                mountpoint: None,
                contains: vec![text("uploads")],
                backup_policy: None,
                protected: true,
                notes: None,
            }],
        },
        snapshots: SnapshotsRegistry {
            snapshots: vec![SnapshotRecord {
                id: text("snap-1"),
                service_ids: vec![text("shop"), text("blog")],
            }],
        },
        policies: PoliciesRegistry {
            drift_ignores: Vec::new(),
            public_data_port_exceptions: vec![PublicDataPortException {
                id: text("exception-shop-db"),
                port_id: text("port-shop-db"),
                expires_at: text("2099-01-01T00:00:00Z"),
                status: text("active"),
            }],
        },
        backups: BackupsRegistry { repositories: Vec::new(), recovery_profiles: Vec::new() },
    }
}

fn codes(report: &DoctorReport) -> Vec<&str> {
    report.findings.iter().map(|finding| finding.code.as_str()).collect()
}

#[test]
fn example_registry_has_no_errors() {
    let registry = server_registry();
    let report = DoctorReport::from_registry(&registry, NOW);

    assert_eq!(report.errors, 0, "{:#?}", report.findings);
}

#[test]
fn public_data_port_exception_suppresses_temporary_warning() {
    let mut registry = server_registry();
    let with_exceptions = DoctorReport::from_registry(&registry, NOW);
    assert!(
        !with_exceptions.findings.iter().any(|finding| finding.code == "public_data_port"),
        "{:#?}",
        with_exceptions.findings
    );

    registry.policies.public_data_port_exceptions.clear();
    let without_exceptions = DoctorReport::from_registry(&registry, NOW);
    assert!(
        without_exceptions.findings.iter().any(|finding| finding.code == "public_data_port"),
        "{:#?}",
        without_exceptions.findings
    );
}

#[test]
fn expired_exception_is_reported() {
    let mut registry = server_registry();
    registry.policies.public_data_port_exceptions[0].expires_at = text("2025-12-31T23:59:59Z");
    let report = DoctorReport::from_registry(&registry, NOW);
    assert_eq!(codes(&report), vec!["public_data_port_exception_expired"]);
    assert!(report.ok);
    assert_eq!(report.warnings, 1);
}

#[test]
fn exception_holds_until_the_last_nanosecond() {
    let mut registry = server_registry();
    registry.policies.public_data_port_exceptions[0].expires_at = text("2026-01-01T00:00:00Z");
    assert!(DoctorReport::from_registry(&registry, NOW).findings.is_empty());
    assert_eq!(
        codes(&DoctorReport::from_registry(&registry, NOW + 1)),
        vec!["public_data_port_exception_expired"]
    );
}

#[test]
fn unreadable_exception_time_is_reported() {
    let mut registry = server_registry();
    registry.policies.public_data_port_exceptions[0].expires_at = text("next year");
    let report = DoctorReport::from_registry(&registry, NOW);
    assert_eq!(codes(&report), vec!["public_data_port_exception_invalid_timestamp"]);
}

#[test]
fn public_data_port_warning_names_the_port() {
    let mut registry = server_registry();
    registry.policies.public_data_port_exceptions.clear();
    let report = DoctorReport::from_registry(&registry, NOW);
    assert_eq!(report.findings.len(), 1);
    assert_eq!(
        report.findings[0].message,
        "data service port 5432 is marked public; prefer 127.0.0.1 or private network"
    );
    assert_eq!(report.findings[0].severity, Severity::Warn);
    assert_eq!(report.findings[0].target.as_deref(), Some("port-shop-db"));
}

#[test]
fn duplicate_service_ids_are_errors() {
    let mut registry = server_registry();
    registry.services.services.push(service("shop"));
    let report = DoctorReport::from_registry(&registry, NOW);
    assert!(!report.ok);
    assert_eq!(report.errors, 1);
    assert_eq!(report.findings[0].severity, Severity::Error);
    assert_eq!(report.findings[0].target.as_deref(), Some("shop"));
}

#[test]
fn registries_are_fine_until_a_name_repeats() {
    let ok = |change: &dyn Fn(&mut Registry)| {
        let mut registry = server_registry();
        change(&mut registry);
        DoctorReport::from_registry(&registry, NOW).ok
    };
    assert!(ok(&|_| ()));
    assert!(!ok(&|registry| registry.ports.ports[1].id = text("port-shop-web")));
    assert!(!ok(&|registry| registry.ports.ports[1].port = 8080));
    assert!(ok(&|registry| {
        registry.ports.ports[1].port = 8080;
        registry.ports.ports[1].protocol = text("udp");
    }));
    let domain = |id: &str, host: &str| DomainRecord {
        id: text(id),
        host: text(host),
        service_id: text("blog"),
        upstream: None,
        caddy_managed: None,
        tls: None,
        status: text("active"),
        notes: None,
    };
    let with = |id: &str, host: &str| {
        ok(&|registry| registry.domains.domains.push(domain(id, host)))
    };
    assert!(with("domain-blog", "blog.example.com"));
    assert!(!with("domain-shop", "blog.example.com"));
    assert!(!with("domain-blog", "shop.example.com"));
}

#[test]
fn records_of_unknown_services_are_errors() {
    let mut registry = server_registry();
    registry.ports.ports[0].service_id = text("gone");
    registry.domains.domains[0].service_id = text("gone");
    registry.volumes.volumes[0].service_id = text("gone");
    let report = DoctorReport::from_registry(&registry, NOW);
    assert_eq!(
        codes(&report),
        vec!["port_missing_service", "domain_missing_service", "volume_missing_service"]
    );
    assert_eq!(report.errors, 3);
}

#[test]
fn production_service_needs_a_snapshot() {
    let mut registry = server_registry();
    registry.snapshots.snapshots.clear();
    let report = DoctorReport::from_registry(&registry, NOW);
    assert_eq!(
        codes(&report),
        vec![
            "production_service_without_snapshot_record",
            "production_service_without_snapshot_record"
        ]
    );
    registry.services.services[0].environment = text("staging");
    registry.services.services[1].backup_policy = None;
    assert!(DoctorReport::from_registry(&registry, NOW).findings.is_empty());
}

#[test]
fn unsafe_deployment_contracts_are_reported() {
    let mut registry = server_registry();
    registry.services.services[0].deployment = Some(ServiceDeploymentContract {
        build: vec![ServiceBuildContract {
            adapter: text("npm"),
            scripts: vec![text("build; rm -rf /")],
        }],
        laravel: None,
        migrations: vec![text("rm -rf /")],
        migration_adapters: Vec::new(),
        systemd: vec![ServiceSystemdContract {
            unit: text("shop.service; reboot"),
            actions: vec![text("explode")],
        }],
        static_sites: vec![ServiceStaticSiteContract {
            source: text("dist"),
            destination: text("/var/www/shop"),
            deployment_id: text("not safe"),
        }],
        notes: None,
    });
    let report = DoctorReport::from_registry(&registry, NOW);
    assert!(report.findings.len() >= 4, "{:#?}", report.findings);
    assert_eq!(report.errors + report.warnings, report.findings.len());
}

#[test]
fn names_are_checked_character_by_character() {
    assert!(safe_script_name("build:prod"));
    assert!(!safe_script_name("build prod"));
    assert!(safe_systemd_unit("shop@1.service"));
    assert!(!safe_systemd_unit("shop.service;"));
    assert!(safe_deployment_id("Release_2026-01"));
    assert!(!safe_deployment_id(""));
    assert!(!safe_deployment_id(&"x".repeat(65)));
}
