//! The registry of a server: services, ports, domains, volumes and policies.

use vstd::prelude::*;

verus! {

/// A managed service and the resources it claims.
#[derive(Debug)]
pub struct Service {
    pub id: String,
    pub name: String,
    pub root: Option<String>,
    pub kind: String,
    pub environment: String,
    pub deploy_method: Option<String>,
    pub owner: Option<String>,
    pub status: String,
    pub ports: Vec<u16>,
    pub domains: Vec<String>,
    pub compose_projects: Vec<String>,
    pub containers: Vec<String>,
    pub volumes: Vec<String>,
    pub data_paths: Vec<String>,
    pub env_files: Vec<String>,
    pub database: Option<String>,
    pub deployment: Option<ServiceDeploymentContract>,
    pub backup_policy: Option<String>,
    pub notes: Option<String>,
}

/// View of [`Service`].
#[verifier::ext_equal]
pub struct ServiceView {
    pub id: Seq<char>,
    pub name: Seq<char>,
    pub root: Option<Seq<char>>,
    pub kind: Seq<char>,
    pub environment: Seq<char>,
    pub deploy_method: Option<Seq<char>>,
    pub owner: Option<Seq<char>>,
    pub status: Seq<char>,
    pub ports: Seq<u16>,
    pub domains: Seq<Seq<char>>,
    pub compose_projects: Seq<Seq<char>>,
    pub containers: Seq<Seq<char>>,
    pub volumes: Seq<Seq<char>>,
    pub data_paths: Seq<Seq<char>>,
    pub env_files: Seq<Seq<char>>,
    pub database: Option<Seq<char>>,
    pub deployment: Option<ServiceDeploymentContractView>,
    pub backup_policy: Option<Seq<char>>,
    pub notes: Option<Seq<char>>,
}

impl DeepView for Service {
    type V = ServiceView;

    open spec fn deep_view(&self) -> ServiceView {
        ServiceView {
            id: self.id.deep_view(),
            name: self.name.deep_view(),
            root: self.root.deep_view(),
            kind: self.kind.deep_view(),
            environment: self.environment.deep_view(),
            deploy_method: self.deploy_method.deep_view(),
            owner: self.owner.deep_view(),
            status: self.status.deep_view(),
            ports: self.ports.deep_view(),
            domains: self.domains.deep_view(),
            compose_projects: self.compose_projects.deep_view(),
            containers: self.containers.deep_view(),
            volumes: self.volumes.deep_view(),
            data_paths: self.data_paths.deep_view(),
            env_files: self.env_files.deep_view(),
            database: self.database.deep_view(),
            deployment: self.deployment.deep_view(),
            backup_policy: self.backup_policy.deep_view(),
            notes: self.notes.deep_view(),
        }
    }
}

impl Clone for Service {
    fn clone(&self) -> (r: Self)
        ensures
            r.deep_view() == self.deep_view(),
    {
        Service {
            id: self.id.clone(),
            name: self.name.clone(),
            root: self.root.clone(),
            kind: self.kind.clone(),
            environment: self.environment.clone(),
            deploy_method: self.deploy_method.clone(),
            owner: self.owner.clone(),
            status: self.status.clone(),
            ports: self.ports.clone(),
            domains: self.domains.clone(),
            compose_projects: self.compose_projects.clone(),
            containers: self.containers.clone(),
            volumes: self.volumes.clone(),
            data_paths: self.data_paths.clone(),
            env_files: self.env_files.clone(),
            database: self.database.clone(),
            deployment: self.deployment.clone(),
            backup_policy: self.backup_policy.clone(),
            notes: self.notes.clone(),
        }
    }
}

/// What a deployment of a service may do.
#[derive(Debug)]
pub struct ServiceDeploymentContract {
    pub build: Vec<ServiceBuildContract>,
    pub laravel: Option<String>,
    pub migrations: Vec<String>,
    pub migration_adapters: Vec<String>,
    pub systemd: Vec<ServiceSystemdContract>,
    pub static_sites: Vec<ServiceStaticSiteContract>,
    pub notes: Option<String>,
}

/// View of [`ServiceDeploymentContract`].
#[verifier::ext_equal]
pub struct ServiceDeploymentContractView {
    pub build: Seq<ServiceBuildContractView>,
    pub laravel: Option<Seq<char>>,
    pub migrations: Seq<Seq<char>>,
    pub migration_adapters: Seq<Seq<char>>,
    pub systemd: Seq<ServiceSystemdContractView>,
    pub static_sites: Seq<ServiceStaticSiteContractView>,
    pub notes: Option<Seq<char>>,
}

impl DeepView for ServiceDeploymentContract {
    type V = ServiceDeploymentContractView;

    open spec fn deep_view(&self) -> ServiceDeploymentContractView {
        ServiceDeploymentContractView {
            build: self.build.deep_view(),
            laravel: self.laravel.deep_view(),
            migrations: self.migrations.deep_view(),
            migration_adapters: self.migration_adapters.deep_view(),
            systemd: self.systemd.deep_view(),
            static_sites: self.static_sites.deep_view(),
            notes: self.notes.deep_view(),
        }
    }
}

impl Clone for ServiceDeploymentContract {
    fn clone(&self) -> (r: Self)
        ensures
            r.deep_view() == self.deep_view(),
    {
        ServiceDeploymentContract {
            build: self.build.clone(),
            laravel: self.laravel.clone(),
            migrations: self.migrations.clone(),
            migration_adapters: self.migration_adapters.clone(),
            systemd: self.systemd.clone(),
            static_sites: self.static_sites.clone(),
            notes: self.notes.clone(),
        }
    }
}

/// A build tool and the scripts that may run with it.
#[derive(Debug)]
pub struct ServiceBuildContract {
    pub adapter: String,
    pub scripts: Vec<String>,
}

/// View of [`ServiceBuildContract`].
#[verifier::ext_equal]
pub struct ServiceBuildContractView {
    pub adapter: Seq<char>,
    pub scripts: Seq<Seq<char>>,
}

impl DeepView for ServiceBuildContract {
    type V = ServiceBuildContractView;

    open spec fn deep_view(&self) -> ServiceBuildContractView {
        ServiceBuildContractView {
            adapter: self.adapter.deep_view(),
            scripts: self.scripts.deep_view(),
        }
    }
}

impl Clone for ServiceBuildContract {
    fn clone(&self) -> (r: Self)
        ensures
            r.deep_view() == self.deep_view(),
    {
        ServiceBuildContract {
            adapter: self.adapter.clone(),
            scripts: self.scripts.clone(),
        }
    }
}

/// A systemd unit and the actions that are allowed on it.
#[derive(Debug)]
pub struct ServiceSystemdContract {
    pub unit: String,
    pub actions: Vec<String>,
}

/// View of [`ServiceSystemdContract`].
#[verifier::ext_equal]
pub struct ServiceSystemdContractView {
    pub unit: Seq<char>,
    pub actions: Seq<Seq<char>>,
}

impl DeepView for ServiceSystemdContract {
    type V = ServiceSystemdContractView;

    open spec fn deep_view(&self) -> ServiceSystemdContractView {
        ServiceSystemdContractView {
            unit: self.unit.deep_view(),
            actions: self.actions.deep_view(),
        }
    }
}

impl Clone for ServiceSystemdContract {
    fn clone(&self) -> (r: Self)
        ensures
            r.deep_view() == self.deep_view(),
    {
        ServiceSystemdContract {
            unit: self.unit.clone(),
            actions: self.actions.clone(),
        }
    }
}

/// A static site that is copied from a source to a destination directory.
#[derive(Debug)]
pub struct ServiceStaticSiteContract {
    pub source: String,
    pub destination: String,
    pub deployment_id: String,
}

/// View of [`ServiceStaticSiteContract`].
#[verifier::ext_equal]
pub struct ServiceStaticSiteContractView {
    pub source: Seq<char>,
    pub destination: Seq<char>,
    pub deployment_id: Seq<char>,
}

impl DeepView for ServiceStaticSiteContract {
    type V = ServiceStaticSiteContractView;

    open spec fn deep_view(&self) -> ServiceStaticSiteContractView {
        ServiceStaticSiteContractView {
            source: self.source.deep_view(),
            destination: self.destination.deep_view(),
            deployment_id: self.deployment_id.deep_view(),
        }
    }
}

impl Clone for ServiceStaticSiteContract {
    fn clone(&self) -> (r: Self)
        ensures
            r.deep_view() == self.deep_view(),
    {
        ServiceStaticSiteContract {
            source: self.source.clone(),
            destination: self.destination.clone(),
            deployment_id: self.deployment_id.clone(),
        }
    }
}

/// A registered listening port.
#[derive(Debug)]
pub struct PortRecord {
    pub id: String,
    pub port: u16,
    pub protocol: String,
    pub bind: String,
    pub service_id: String,
    pub purpose: Option<String>,
    pub exposure: String,
    pub source: String,
    pub notes: Option<String>,
}

/// View of [`PortRecord`].
#[verifier::ext_equal]
pub struct PortRecordView {
    pub id: Seq<char>,
    pub port: u16,
    pub protocol: Seq<char>,
    pub bind: Seq<char>,
    pub service_id: Seq<char>,
    pub purpose: Option<Seq<char>>,
    pub exposure: Seq<char>,
    pub source: Seq<char>,
    pub notes: Option<Seq<char>>,
}

impl DeepView for PortRecord {
    type V = PortRecordView;

    open spec fn deep_view(&self) -> PortRecordView {
        PortRecordView {
            id: self.id.deep_view(),
            port: self.port,
            protocol: self.protocol.deep_view(),
            bind: self.bind.deep_view(),
            service_id: self.service_id.deep_view(),
            purpose: self.purpose.deep_view(),
            exposure: self.exposure.deep_view(),
            source: self.source.deep_view(),
            notes: self.notes.deep_view(),
        }
    }
}

impl Clone for PortRecord {
    fn clone(&self) -> (r: Self)
        ensures
            r.deep_view() == self.deep_view(),
    {
        PortRecord {
            id: self.id.clone(),
            port: self.port,
            protocol: self.protocol.clone(),
            bind: self.bind.clone(),
            service_id: self.service_id.clone(),
            purpose: self.purpose.clone(),
            exposure: self.exposure.clone(),
            source: self.source.clone(),
            notes: self.notes.clone(),
        }
    }
}

/// A registered domain.
#[derive(Debug)]
pub struct DomainRecord {
    pub id: String,
    pub host: String,
    pub service_id: String,
    pub upstream: Option<String>,
    pub caddy_managed: Option<bool>,
    pub tls: Option<String>,
    pub status: String,
    pub notes: Option<String>,
}

/// View of [`DomainRecord`].
#[verifier::ext_equal]
pub struct DomainRecordView {
    pub id: Seq<char>,
    pub host: Seq<char>,
    pub service_id: Seq<char>,
    pub upstream: Option<Seq<char>>,
    pub caddy_managed: Option<bool>,
    pub tls: Option<Seq<char>>,
    pub status: Seq<char>,
    pub notes: Option<Seq<char>>,
}

impl DeepView for DomainRecord {
    type V = DomainRecordView;

    open spec fn deep_view(&self) -> DomainRecordView {
        DomainRecordView {
            id: self.id.deep_view(),
            host: self.host.deep_view(),
            service_id: self.service_id.deep_view(),
            upstream: self.upstream.deep_view(),
            caddy_managed: self.caddy_managed.deep_view(),
            tls: self.tls.deep_view(),
            status: self.status.deep_view(),
            notes: self.notes.deep_view(),
        }
    }
}

impl Clone for DomainRecord {
    fn clone(&self) -> (r: Self)
        ensures
            r.deep_view() == self.deep_view(),
    {
        DomainRecord {
            id: self.id.clone(),
            host: self.host.clone(),
            service_id: self.service_id.clone(),
            upstream: self.upstream.clone(),
            caddy_managed: self.caddy_managed.clone(),
            tls: self.tls.clone(),
            status: self.status.clone(),
            notes: self.notes.clone(),
        }
    }
}

/// A registered data volume.
#[derive(Debug)]
pub struct VolumeRecord {
    pub id: String,
    pub name: String,
    pub service_id: String,
    pub kind: String,
    pub mountpoint: Option<String>,
    pub contains: Vec<String>,
    pub backup_policy: Option<String>,
    pub protected: bool,
    pub notes: Option<String>,
}

/// View of [`VolumeRecord`].
#[verifier::ext_equal]
pub struct VolumeRecordView {
    pub id: Seq<char>,
    pub name: Seq<char>,
    pub service_id: Seq<char>,
    pub kind: Seq<char>,
    pub mountpoint: Option<Seq<char>>,
    pub contains: Seq<Seq<char>>,
    pub backup_policy: Option<Seq<char>>,
    pub protected: bool,
    pub notes: Option<Seq<char>>,
}

impl DeepView for VolumeRecord {
    type V = VolumeRecordView;

    open spec fn deep_view(&self) -> VolumeRecordView {
        VolumeRecordView {
            id: self.id.deep_view(),
            name: self.name.deep_view(),
            service_id: self.service_id.deep_view(),
            kind: self.kind.deep_view(),
            mountpoint: self.mountpoint.deep_view(),
            contains: self.contains.deep_view(),
            backup_policy: self.backup_policy.deep_view(),
            protected: self.protected,
            notes: self.notes.deep_view(),
        }
    }
}

impl Clone for VolumeRecord {
    fn clone(&self) -> (r: Self)
        ensures
            r.deep_view() == self.deep_view(),
    {
        VolumeRecord {
            id: self.id.clone(),
            name: self.name.clone(),
            service_id: self.service_id.clone(),
            kind: self.kind.clone(),
            mountpoint: self.mountpoint.clone(),
            contains: self.contains.clone(),
            backup_policy: self.backup_policy.clone(),
            protected: self.protected,
            notes: self.notes.clone(),
        }
    }
}

/// A rule that hides matching drift until it expires.
#[derive(Debug)]
pub struct DriftIgnoreRule {
    pub id: String,
    pub code: Option<String>,
    pub kind: Option<String>,
    pub target: Option<String>,
    pub target_prefix: Option<String>,
    pub target_suffix: Option<String>,
    pub target_contains: Option<String>,
    pub owner: String,
    pub reason: String,
    pub expires_at: Option<String>,
    pub status: String,
}

/// View of [`DriftIgnoreRule`].
#[verifier::ext_equal]
pub struct DriftIgnoreRuleView {
    pub id: Seq<char>,
    pub code: Option<Seq<char>>,
    pub kind: Option<Seq<char>>,
    pub target: Option<Seq<char>>,
    pub target_prefix: Option<Seq<char>>,
    pub target_suffix: Option<Seq<char>>,
    pub target_contains: Option<Seq<char>>,
    pub owner: Seq<char>,
    pub reason: Seq<char>,
    pub expires_at: Option<Seq<char>>,
    pub status: Seq<char>,
}

impl DeepView for DriftIgnoreRule {
    type V = DriftIgnoreRuleView;

    open spec fn deep_view(&self) -> DriftIgnoreRuleView {
        DriftIgnoreRuleView {
            id: self.id.deep_view(),
            code: self.code.deep_view(),
            kind: self.kind.deep_view(),
            target: self.target.deep_view(),
            target_prefix: self.target_prefix.deep_view(),
            target_suffix: self.target_suffix.deep_view(),
            target_contains: self.target_contains.deep_view(),
            owner: self.owner.deep_view(),
            reason: self.reason.deep_view(),
            expires_at: self.expires_at.deep_view(),
            status: self.status.deep_view(),
        }
    }
}

impl Clone for DriftIgnoreRule {
    fn clone(&self) -> (r: Self)
        ensures
            r.deep_view() == self.deep_view(),
    {
        DriftIgnoreRule {
            id: self.id.clone(),
            code: self.code.clone(),
            kind: self.kind.clone(),
            target: self.target.clone(),
            target_prefix: self.target_prefix.clone(),
            target_suffix: self.target_suffix.clone(),
            target_contains: self.target_contains.clone(),
            owner: self.owner.clone(),
            reason: self.reason.clone(),
            expires_at: self.expires_at.clone(),
            status: self.status.clone(),
        }
    }
}

/// A temporary permission for a data port to be public.
#[derive(Debug)]
pub struct PublicDataPortException {
    pub id: String,
    pub port_id: String,
    pub expires_at: String,
    pub status: String,
}

/// View of [`PublicDataPortException`].
#[verifier::ext_equal]
pub struct PublicDataPortExceptionView {
    pub id: Seq<char>,
    pub port_id: Seq<char>,
    pub expires_at: Seq<char>,
    pub status: Seq<char>,
}

impl DeepView for PublicDataPortException {
    type V = PublicDataPortExceptionView;

    open spec fn deep_view(&self) -> PublicDataPortExceptionView {
        PublicDataPortExceptionView {
            id: self.id.deep_view(),
            port_id: self.port_id.deep_view(),
            expires_at: self.expires_at.deep_view(),
            status: self.status.deep_view(),
        }
    }
}

impl Clone for PublicDataPortException {
    fn clone(&self) -> (r: Self)
        ensures
            r.deep_view() == self.deep_view(),
    {
        PublicDataPortException {
            id: self.id.clone(),
            port_id: self.port_id.clone(),
            expires_at: self.expires_at.clone(),
            status: self.status.clone(),
        }
    }
}

/// A recorded snapshot and the services it covers.
#[derive(Debug)]
pub struct SnapshotRecord {
    pub id: String,
    pub service_ids: Vec<String>,
}

/// View of [`SnapshotRecord`].
#[verifier::ext_equal]
pub struct SnapshotRecordView {
    pub id: Seq<char>,
    pub service_ids: Seq<Seq<char>>,
}

impl DeepView for SnapshotRecord {
    type V = SnapshotRecordView;

    open spec fn deep_view(&self) -> SnapshotRecordView {
        SnapshotRecordView {
            id: self.id.deep_view(),
            service_ids: self.service_ids.deep_view(),
        }
    }
}

impl Clone for SnapshotRecord {
    fn clone(&self) -> (r: Self)
        ensures
            r.deep_view() == self.deep_view(),
    {
        SnapshotRecord {
            id: self.id.clone(),
            service_ids: self.service_ids.clone(),
        }
    }
}

/// The registered services.
#[derive(Debug)]
pub struct ServicesRegistry {
    pub services: Vec<Service>,
}

/// View of [`ServicesRegistry`].
#[verifier::ext_equal]
pub struct ServicesRegistryView {
    pub services: Seq<ServiceView>,
}

impl DeepView for ServicesRegistry {
    type V = ServicesRegistryView;

    open spec fn deep_view(&self) -> ServicesRegistryView {
        ServicesRegistryView {
            services: self.services.deep_view(),
        }
    }
}

impl Clone for ServicesRegistry {
    fn clone(&self) -> (r: Self)
        ensures
            r.deep_view() == self.deep_view(),
    {
        ServicesRegistry {
            services: self.services.clone(),
        }
    }
}

/// The registered ports.
#[derive(Debug)]
pub struct PortsRegistry {
    pub ports: Vec<PortRecord>,
}

/// View of [`PortsRegistry`].
#[verifier::ext_equal]
pub struct PortsRegistryView {
    pub ports: Seq<PortRecordView>,
}

impl DeepView for PortsRegistry {
    type V = PortsRegistryView;

    open spec fn deep_view(&self) -> PortsRegistryView {
        PortsRegistryView {
            ports: self.ports.deep_view(),
        }
    }
}

impl Clone for PortsRegistry {
    fn clone(&self) -> (r: Self)
        ensures
            r.deep_view() == self.deep_view(),
    {
        PortsRegistry {
            ports: self.ports.clone(),
        }
    }
}

/// The registered domains.
#[derive(Debug)]
pub struct DomainsRegistry {
    pub domains: Vec<DomainRecord>,
}

/// View of [`DomainsRegistry`].
#[verifier::ext_equal]
pub struct DomainsRegistryView {
    pub domains: Seq<DomainRecordView>,
}

impl DeepView for DomainsRegistry {
    type V = DomainsRegistryView;

    open spec fn deep_view(&self) -> DomainsRegistryView {
        DomainsRegistryView {
            domains: self.domains.deep_view(),
        }
    }
}

impl Clone for DomainsRegistry {
    fn clone(&self) -> (r: Self)
        ensures
            r.deep_view() == self.deep_view(),
    {
        DomainsRegistry {
            domains: self.domains.clone(),
        }
    }
}

/// The registered volumes.
#[derive(Debug)]
pub struct VolumesRegistry {
    pub volumes: Vec<VolumeRecord>,
}

/// View of [`VolumesRegistry`].
#[verifier::ext_equal]
pub struct VolumesRegistryView {
    pub volumes: Seq<VolumeRecordView>,
}

impl DeepView for VolumesRegistry {
    type V = VolumesRegistryView;

    open spec fn deep_view(&self) -> VolumesRegistryView {
        VolumesRegistryView {
            volumes: self.volumes.deep_view(),
        }
    }
}

impl Clone for VolumesRegistry {
    fn clone(&self) -> (r: Self)
        ensures
            r.deep_view() == self.deep_view(),
    {
        VolumesRegistry {
            volumes: self.volumes.clone(),
        }
    }
}

/// The recorded snapshots.
#[derive(Debug)]
pub struct SnapshotsRegistry {
    pub snapshots: Vec<SnapshotRecord>,
}

/// View of [`SnapshotsRegistry`].
#[verifier::ext_equal]
pub struct SnapshotsRegistryView {
    pub snapshots: Seq<SnapshotRecordView>,
}

impl DeepView for SnapshotsRegistry {
    type V = SnapshotsRegistryView;

    open spec fn deep_view(&self) -> SnapshotsRegistryView {
        SnapshotsRegistryView {
            snapshots: self.snapshots.deep_view(),
        }
    }
}

impl Clone for SnapshotsRegistry {
    fn clone(&self) -> (r: Self)
        ensures
            r.deep_view() == self.deep_view(),
    {
        SnapshotsRegistry {
            snapshots: self.snapshots.clone(),
        }
    }
}

/// The policies of the server.
#[derive(Debug)]
pub struct PoliciesRegistry {
    pub drift_ignores: Vec<DriftIgnoreRule>,
    pub public_data_port_exceptions: Vec<PublicDataPortException>,
}

/// View of [`PoliciesRegistry`].
#[verifier::ext_equal]
pub struct PoliciesRegistryView {
    pub drift_ignores: Seq<DriftIgnoreRuleView>,
    pub public_data_port_exceptions: Seq<PublicDataPortExceptionView>,
}

impl DeepView for PoliciesRegistry {
    type V = PoliciesRegistryView;

    open spec fn deep_view(&self) -> PoliciesRegistryView {
        PoliciesRegistryView {
            drift_ignores: self.drift_ignores.deep_view(),
            public_data_port_exceptions: self.public_data_port_exceptions.deep_view(),
        }
    }
}

impl Clone for PoliciesRegistry {
    fn clone(&self) -> (r: Self)
        ensures
            r.deep_view() == self.deep_view(),
    {
        PoliciesRegistry {
            drift_ignores: self.drift_ignores.clone(),
            public_data_port_exceptions: self.public_data_port_exceptions.clone(),
        }
    }
}

/// A repository for backups.
#[derive(Debug)]
pub struct BackupRepository {
    pub id: String,
    pub status: String,
    pub provider: String,
    /// The place of the repository, if it is written down here.
    pub repository: Option<String>,
    /// The variable that holds the place of the repository.
    pub repository_env: Option<String>,
    /// The variable that holds the password.
    pub password_env: Option<String>,
    /// Other variables that the repository needs.
    pub env: Vec<String>,
}

/// View of [`BackupRepository`].
#[verifier::ext_equal]
pub struct BackupRepositoryView {
    pub id: Seq<char>,
    pub status: Seq<char>,
    pub provider: Seq<char>,
    pub repository: Option<Seq<char>>,
    pub repository_env: Option<Seq<char>>,
    pub password_env: Option<Seq<char>>,
    pub env: Seq<Seq<char>>,
}

impl DeepView for BackupRepository {
    type V = BackupRepositoryView;

    open spec fn deep_view(&self) -> BackupRepositoryView {
        BackupRepositoryView {
            id: self.id.deep_view(),
            status: self.status.deep_view(),
            provider: self.provider.deep_view(),
            repository: self.repository.deep_view(),
            repository_env: self.repository_env.deep_view(),
            password_env: self.password_env.deep_view(),
            env: self.env.deep_view(),
        }
    }
}

impl Clone for BackupRepository {
    fn clone(&self) -> (r: Self)
        ensures
            r.deep_view() == self.deep_view(),
    {
        BackupRepository {
            id: self.id.clone(),
            status: self.status.clone(),
            provider: self.provider.clone(),
            repository: self.repository.clone(),
            repository_env: self.repository_env.clone(),
            password_env: self.password_env.clone(),
            env: self.env.clone(),
        }
    }
}

/// How a volume is backed up and restored.
#[derive(Debug)]
pub struct RecoveryProfile {
    pub volume: String,
}

/// View of [`RecoveryProfile`].
#[verifier::ext_equal]
pub struct RecoveryProfileView {
    pub volume: Seq<char>,
}

impl DeepView for RecoveryProfile {
    type V = RecoveryProfileView;

    open spec fn deep_view(&self) -> RecoveryProfileView {
        RecoveryProfileView {
            volume: self.volume.deep_view(),
        }
    }
}

impl Clone for RecoveryProfile {
    fn clone(&self) -> (r: Self)
        ensures
            r.deep_view() == self.deep_view(),
    {
        RecoveryProfile {
            volume: self.volume.clone(),
        }
    }
}

/// The registered backups.
#[derive(Debug)]
pub struct BackupsRegistry {
    pub repositories: Vec<BackupRepository>,
    pub recovery_profiles: Vec<RecoveryProfile>,
}

/// View of [`BackupsRegistry`].
#[verifier::ext_equal]
pub struct BackupsRegistryView {
    pub repositories: Seq<BackupRepositoryView>,
    pub recovery_profiles: Seq<RecoveryProfileView>,
}

impl DeepView for BackupsRegistry {
    type V = BackupsRegistryView;

    open spec fn deep_view(&self) -> BackupsRegistryView {
        BackupsRegistryView {
            repositories: self.repositories.deep_view(),
            recovery_profiles: self.recovery_profiles.deep_view(),
        }
    }
}

impl Clone for BackupsRegistry {
    fn clone(&self) -> (r: Self)
        ensures
            r.deep_view() == self.deep_view(),
    {
        BackupsRegistry {
            repositories: self.repositories.clone(),
            recovery_profiles: self.recovery_profiles.clone(),
        }
    }
}
/// Everything that is registered for one server.
#[derive(Debug)]
pub struct Registry {
    pub services: ServicesRegistry,
    pub ports: PortsRegistry,
    pub domains: DomainsRegistry,
    pub volumes: VolumesRegistry,
    pub snapshots: SnapshotsRegistry,
    pub policies: PoliciesRegistry,
    pub backups: BackupsRegistry,
}

/// View of [`Registry`].
#[verifier::ext_equal]
pub struct RegistryView {
    pub services: ServicesRegistryView,
    pub ports: PortsRegistryView,
    pub domains: DomainsRegistryView,
    pub volumes: VolumesRegistryView,
    pub snapshots: SnapshotsRegistryView,
    pub policies: PoliciesRegistryView,
    pub backups: BackupsRegistryView,
}

impl DeepView for Registry {
    type V = RegistryView;

    open spec fn deep_view(&self) -> RegistryView {
        RegistryView {
            services: self.services.deep_view(),
            ports: self.ports.deep_view(),
            domains: self.domains.deep_view(),
            volumes: self.volumes.deep_view(),
            snapshots: self.snapshots.deep_view(),
            policies: self.policies.deep_view(),
            backups: self.backups.deep_view(),
        }
    }
}

impl Clone for Registry {
    fn clone(&self) -> (r: Self)
        ensures
            r.deep_view() == self.deep_view(),
    {
        Registry {
            services: self.services.clone(),
            ports: self.ports.clone(),
            domains: self.domains.clone(),
            volumes: self.volumes.clone(),
            snapshots: self.snapshots.clone(),
            policies: self.policies.clone(),
            backups: self.backups.clone(),
        }
    }
}

} // verus!
