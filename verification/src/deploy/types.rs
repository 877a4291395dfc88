//! Deploy plans and reports.

use vstd::prelude::*;
use crate::pairs::clone_pairs;

verus! {

broadcast use {vstd::seq::group_seq_axioms, vstd::string::group_string_axioms};

/// Whether a deploy can go ahead.
#[derive(Debug, Clone, Copy, PartialEq, Eq, Structural)]
pub enum DeployStatus {
    Ready,
    NeedsApproval,
    Blocked,
}

/// What checking a plan against the registry says of it.
#[derive(Debug, Clone, Copy, PartialEq, Eq, Structural)]
pub enum PreflightStatus {
    Passed,
    NeedsApproval,
    Blocked,
}

/// What a plan says about an earlier check of it.
#[derive(Debug)]
pub struct PlanPreflight {
    pub status: Option<String>,
}

/// View of [`PlanPreflight`].
#[verifier::ext_equal]
pub struct PlanPreflightView {
    pub status: Option<Seq<char>>,
}

impl DeepView for PlanPreflight {
    type V = PlanPreflightView;

    open spec fn deep_view(&self) -> PlanPreflightView {
        PlanPreflightView {
            status: self.status.deep_view(),
        }
    }
}

/// The ports that a plan reserves.
#[derive(Debug)]
pub struct PortChanges {
    pub reserve: Vec<u16>,
}

/// View of [`PortChanges`].
#[verifier::ext_equal]
pub struct PortChangesView {
    pub reserve: Seq<u16>,
}

impl DeepView for PortChanges {
    type V = PortChangesView;

    open spec fn deep_view(&self) -> PortChangesView {
        PortChangesView {
            reserve: self.reserve.deep_view(),
        }
    }
}

/// A route that a plan adds to Caddy.
#[derive(Debug)]
pub struct CaddyRouteChange {
    pub host: String,
    pub upstream: String,
}

/// View of [`CaddyRouteChange`].
#[verifier::ext_equal]
pub struct CaddyRouteChangeView {
    pub host: Seq<char>,
    pub upstream: Seq<char>,
}

impl DeepView for CaddyRouteChange {
    type V = CaddyRouteChangeView;

    open spec fn deep_view(&self) -> CaddyRouteChangeView {
        CaddyRouteChangeView {
            host: self.host.deep_view(),
            upstream: self.upstream.deep_view(),
        }
    }
}

/// What a plan changes in Caddy.
#[derive(Debug)]
pub struct CaddyChanges {
    pub routes: Vec<CaddyRouteChange>,
}

/// View of [`CaddyChanges`].
#[verifier::ext_equal]
pub struct CaddyChangesView {
    pub routes: Seq<CaddyRouteChangeView>,
}

impl DeepView for CaddyChanges {
    type V = CaddyChangesView;

    open spec fn deep_view(&self) -> CaddyChangesView {
        CaddyChangesView {
            routes: self.routes.deep_view(),
        }
    }
}

/// What a plan changes in Docker.
#[derive(Debug)]
pub struct DockerChanges {
    pub compose_project: Option<String>,
    pub containers: Vec<String>,
    pub volumes: Vec<String>,
}

/// View of [`DockerChanges`].
#[verifier::ext_equal]
pub struct DockerChangesView {
    pub compose_project: Option<Seq<char>>,
    pub containers: Seq<Seq<char>>,
    pub volumes: Seq<Seq<char>>,
}

impl DeepView for DockerChanges {
    type V = DockerChangesView;

    open spec fn deep_view(&self) -> DockerChangesView {
        DockerChangesView {
            compose_project: self.compose_project.deep_view(),
            containers: self.containers.deep_view(),
            volumes: self.volumes.deep_view(),
        }
    }
}

/// A directory that a plan publishes.
#[derive(Debug)]
pub struct StaticSiteSync {
    pub source: String,
    pub destination: String,
    pub deployment_id: String,
}

/// View of [`StaticSiteSync`].
#[verifier::ext_equal]
pub struct StaticSiteSyncView {
    pub source: Seq<char>,
    pub destination: Seq<char>,
    pub deployment_id: Seq<char>,
}

impl DeepView for StaticSiteSync {
    type V = StaticSiteSyncView;

    open spec fn deep_view(&self) -> StaticSiteSyncView {
        StaticSiteSyncView {
            source: self.source.deep_view(),
            destination: self.destination.deep_view(),
            deployment_id: self.deployment_id.deep_view(),
        }
    }
}

/// The directories that a plan publishes.
#[derive(Debug)]
pub struct StaticSiteChanges {
    pub sync: Vec<StaticSiteSync>,
}

/// View of [`StaticSiteChanges`].
#[verifier::ext_equal]
pub struct StaticSiteChangesView {
    pub sync: Seq<StaticSiteSyncView>,
}

impl DeepView for StaticSiteChanges {
    type V = StaticSiteChangesView;

    open spec fn deep_view(&self) -> StaticSiteChangesView {
        StaticSiteChangesView {
            sync: self.sync.deep_view(),
        }
    }
}

/// A build step of a plan.
#[derive(Debug)]
pub struct BuildStep {
    pub adapter: String,
    pub script: Option<String>,
}

/// View of [`BuildStep`].
#[verifier::ext_equal]
pub struct BuildStepView {
    pub adapter: Seq<char>,
    pub script: Option<Seq<char>>,
}

impl DeepView for BuildStep {
    type V = BuildStepView;

    open spec fn deep_view(&self) -> BuildStepView {
        BuildStepView {
            adapter: self.adapter.deep_view(),
            script: self.script.deep_view(),
        }
    }
}

/// The build steps of a plan.
#[derive(Debug)]
pub struct BuildChanges {
    pub steps: Vec<BuildStep>,
}

/// View of [`BuildChanges`].
#[verifier::ext_equal]
pub struct BuildChangesView {
    pub steps: Seq<BuildStepView>,
}

impl DeepView for BuildChanges {
    type V = BuildChangesView;

    open spec fn deep_view(&self) -> BuildChangesView {
        BuildChangesView {
            steps: self.steps.deep_view(),
        }
    }
}

/// The Laravel commands of a plan.
#[derive(Debug)]
pub struct LaravelChanges {
    pub optimize: bool,
    pub config_cache: bool,
    pub route_cache: bool,
    pub view_cache: bool,
}

/// View of [`LaravelChanges`].
#[verifier::ext_equal]
pub struct LaravelChangesView {
    pub optimize: bool,
    pub config_cache: bool,
    pub route_cache: bool,
    pub view_cache: bool,
}

impl DeepView for LaravelChanges {
    type V = LaravelChangesView;

    open spec fn deep_view(&self) -> LaravelChangesView {
        LaravelChangesView {
            optimize: self.optimize,
            config_cache: self.config_cache,
            route_cache: self.route_cache,
            view_cache: self.view_cache,
        }
    }
}

/// A unit that a plan reloads or restarts.
#[derive(Debug)]
pub struct SystemdUnitChange {
    pub unit: String,
    pub action: String,
}

/// View of [`SystemdUnitChange`].
#[verifier::ext_equal]
pub struct SystemdUnitChangeView {
    pub unit: Seq<char>,
    pub action: Seq<char>,
}

impl DeepView for SystemdUnitChange {
    type V = SystemdUnitChangeView;

    open spec fn deep_view(&self) -> SystemdUnitChangeView {
        SystemdUnitChangeView {
            unit: self.unit.deep_view(),
            action: self.action.deep_view(),
        }
    }
}

/// The units that a plan reloads or restarts.
#[derive(Debug)]
pub struct SystemdChanges {
    pub units: Vec<SystemdUnitChange>,
}

/// View of [`SystemdChanges`].
#[verifier::ext_equal]
pub struct SystemdChangesView {
    pub units: Seq<SystemdUnitChangeView>,
}

impl DeepView for SystemdChanges {
    type V = SystemdChangesView;

    open spec fn deep_view(&self) -> SystemdChangesView {
        SystemdChangesView {
            units: self.units.deep_view(),
        }
    }
}

/// The migration of a plan.
#[derive(Debug)]
pub struct MigrationChanges {
    pub required: bool,
    pub command: Option<String>,
}

/// View of [`MigrationChanges`].
#[verifier::ext_equal]
pub struct MigrationChangesView {
    pub required: bool,
    pub command: Option<Seq<char>>,
}

impl DeepView for MigrationChanges {
    type V = MigrationChangesView;

    open spec fn deep_view(&self) -> MigrationChangesView {
        MigrationChangesView {
            required: self.required,
            command: self.command.deep_view(),
        }
    }
}

/// A file that a plan writes from a template.
#[derive(Debug)]
pub struct TypedFileWrite {
    pub path: String,
    pub kind: String,
    pub mode: Option<u32>,
    /// In the order of the keys.
    pub params: Vec<(String, String)>,
}

/// View of [`TypedFileWrite`].
#[verifier::ext_equal]
pub struct TypedFileWriteView {
    pub path: Seq<char>,
    pub kind: Seq<char>,
    pub mode: Option<u32>,
    pub params: Seq<(Seq<char>, Seq<char>)>,
}

impl DeepView for TypedFileWrite {
    type V = TypedFileWriteView;

    open spec fn deep_view(&self) -> TypedFileWriteView {
        TypedFileWriteView {
            path: self.path.deep_view(),
            kind: self.kind.deep_view(),
            mode: self.mode.deep_view(),
            params: self.params.deep_view(),
        }
    }
}

/// The files that a plan writes.
#[derive(Debug)]
pub struct FileChanges {
    pub write: Vec<String>,
    pub typed: Vec<TypedFileWrite>,
}

/// View of [`FileChanges`].
#[verifier::ext_equal]
pub struct FileChangesView {
    pub write: Seq<Seq<char>>,
    pub typed: Seq<TypedFileWriteView>,
}

impl DeepView for FileChanges {
    type V = FileChangesView;

    open spec fn deep_view(&self) -> FileChangesView {
        FileChangesView {
            write: self.write.deep_view(),
            typed: self.typed.deep_view(),
        }
    }
}

/// What a plan checks after it is done.
#[derive(Debug)]
pub struct HealthChanges {
    pub enabled: bool,
    pub docker: Option<bool>,
    pub ports: Option<bool>,
    pub caddy: Option<bool>,
    pub static_site: Option<bool>,
}

/// View of [`HealthChanges`].
#[verifier::ext_equal]
pub struct HealthChangesView {
    pub enabled: bool,
    pub docker: Option<bool>,
    pub ports: Option<bool>,
    pub caddy: Option<bool>,
    pub static_site: Option<bool>,
}

impl DeepView for HealthChanges {
    type V = HealthChangesView;

    open spec fn deep_view(&self) -> HealthChangesView {
        HealthChangesView {
            enabled: self.enabled,
            docker: self.docker.deep_view(),
            ports: self.ports.deep_view(),
            caddy: self.caddy.deep_view(),
            static_site: self.static_site.deep_view(),
        }
    }
}

/// Everything that a plan changes.
#[derive(Debug)]
pub struct PlanChanges {
    pub ports: PortChanges,
    pub caddy: CaddyChanges,
    pub docker: DockerChanges,
    pub static_site: StaticSiteChanges,
    pub build: BuildChanges,
    pub laravel: LaravelChanges,
    pub systemd: SystemdChanges,
    pub migrations: MigrationChanges,
    pub files: FileChanges,
    pub health: HealthChanges,
}

/// View of [`PlanChanges`].
#[verifier::ext_equal]
pub struct PlanChangesView {
    pub ports: PortChangesView,
    pub caddy: CaddyChangesView,
    pub docker: DockerChangesView,
    pub static_site: StaticSiteChangesView,
    pub build: BuildChangesView,
    pub laravel: LaravelChangesView,
    pub systemd: SystemdChangesView,
    pub migrations: MigrationChangesView,
    pub files: FileChangesView,
    pub health: HealthChangesView,
}

impl DeepView for PlanChanges {
    type V = PlanChangesView;

    open spec fn deep_view(&self) -> PlanChangesView {
        PlanChangesView {
            ports: self.ports.deep_view(),
            caddy: self.caddy.deep_view(),
            docker: self.docker.deep_view(),
            static_site: self.static_site.deep_view(),
            build: self.build.deep_view(),
            laravel: self.laravel.deep_view(),
            systemd: self.systemd.deep_view(),
            migrations: self.migrations.deep_view(),
            files: self.files.deep_view(),
            health: self.health.deep_view(),
        }
    }
}

/// A deploy plan.
#[derive(Debug)]
pub struct DeployPlan {
    pub id: String,
    pub environment: String,
    pub project_root: String,
    pub service_id: Option<String>,
    pub snapshot_required: Option<bool>,
    pub preflight: Option<PlanPreflight>,
    pub changes: PlanChanges,
}

/// View of [`DeployPlan`].
#[verifier::ext_equal]
pub struct DeployPlanView {
    pub id: Seq<char>,
    pub environment: Seq<char>,
    pub project_root: Seq<char>,
    pub service_id: Option<Seq<char>>,
    pub snapshot_required: Option<bool>,
    pub preflight: Option<PlanPreflightView>,
    pub changes: PlanChangesView,
}

impl DeepView for DeployPlan {
    type V = DeployPlanView;

    open spec fn deep_view(&self) -> DeployPlanView {
        DeployPlanView {
            id: self.id.deep_view(),
            environment: self.environment.deep_view(),
            project_root: self.project_root.deep_view(),
            service_id: self.service_id.deep_view(),
            snapshot_required: self.snapshot_required.deep_view(),
            preflight: self.preflight.deep_view(),
            changes: self.changes.deep_view(),
        }
    }
}

/// What a deploy is asked for.
#[derive(Debug)]
pub struct DeployOptions<'a> {
    pub plan: &'a DeployPlan,
    pub dry_run: bool,
    pub snapshot_id: Option<&'a str>,
    /// The scopes that are approved for the plan.
    pub approved: &'a Vec<String>,
}

/// View of [`DeployOptions`].
#[verifier::ext_equal]
pub struct DeployOptionsView {
    pub plan: DeployPlanView,
    pub dry_run: bool,
    pub snapshot_id: Option<Seq<char>>,
    pub approved: Seq<Seq<char>>,
}

impl<'a> DeepView for DeployOptions<'a> {
    type V = DeployOptionsView;

    open spec fn deep_view(&self) -> DeployOptionsView {
        DeployOptionsView {
            plan: self.plan.deep_view(),
            dry_run: self.dry_run,
            snapshot_id: self.snapshot_id.deep_view(),
            approved: self.approved.deep_view(),
        }
    }
}

/// What checking a plan against the registry says of it.
#[derive(Debug)]
pub struct PreflightReport {
    pub status: PreflightStatus,
    pub approvals_required: Vec<String>,
}

/// View of [`PreflightReport`].
#[verifier::ext_equal]
pub struct PreflightReportView {
    pub status: PreflightStatus,
    pub approvals_required: Seq<Seq<char>>,
}

impl DeepView for PreflightReport {
    type V = PreflightReportView;

    open spec fn deep_view(&self) -> PreflightReportView {
        PreflightReportView {
            status: self.status,
            approvals_required: self.approvals_required.deep_view(),
        }
    }
}

impl Clone for PreflightReport {
    fn clone(&self) -> (r: Self)
        ensures
            r.deep_view() == self.deep_view(),
    {
        PreflightReport {
            status: self.status.clone(),
            approvals_required: self.approvals_required.clone(),
        }
    }
}

/// What was found out about a snapshot and its archive.
#[derive(Debug)]
pub struct SnapshotCheck {
    /// Why the snapshot could not be verified.
    pub verification_error: Option<String>,
    pub ok: bool,
    pub artifacts_failed: usize,
    pub plan_id: String,
    pub status: String,
    pub preflight_status: String,
    /// Why the archive could not be inspected.
    pub archive_error: Option<String>,
    pub archive_ok: bool,
    pub archive_findings: usize,
}

/// View of [`SnapshotCheck`].
#[verifier::ext_equal]
pub struct SnapshotCheckView {
    pub verification_error: Option<Seq<char>>,
    pub ok: bool,
    pub artifacts_failed: nat,
    pub plan_id: Seq<char>,
    pub status: Seq<char>,
    pub preflight_status: Seq<char>,
    pub archive_error: Option<Seq<char>>,
    pub archive_ok: bool,
    pub archive_findings: nat,
}

impl DeepView for SnapshotCheck {
    type V = SnapshotCheckView;

    open spec fn deep_view(&self) -> SnapshotCheckView {
        SnapshotCheckView {
            verification_error: self.verification_error.deep_view(),
            ok: self.ok,
            artifacts_failed: self.artifacts_failed as nat,
            plan_id: self.plan_id.deep_view(),
            status: self.status.deep_view(),
            preflight_status: self.preflight_status.deep_view(),
            archive_error: self.archive_error.deep_view(),
            archive_ok: self.archive_ok,
            archive_findings: self.archive_findings as nat,
        }
    }
}

/// The fresh check of a plan, and what the plan says of an earlier one.
#[derive(Debug)]
pub struct DeployPreflightGate {
    pub fresh_status: PreflightStatus,
    pub embedded_status: Option<String>,
    pub stale_embedded_result: bool,
    pub report: PreflightReport,
}

/// View of [`DeployPreflightGate`].
#[verifier::ext_equal]
pub struct DeployPreflightGateView {
    pub fresh_status: PreflightStatus,
    pub embedded_status: Option<Seq<char>>,
    pub stale_embedded_result: bool,
    pub report: PreflightReportView,
}

impl DeepView for DeployPreflightGate {
    type V = DeployPreflightGateView;

    open spec fn deep_view(&self) -> DeployPreflightGateView {
        DeployPreflightGateView {
            fresh_status: self.fresh_status,
            embedded_status: self.embedded_status.deep_view(),
            stale_embedded_result: self.stale_embedded_result,
            report: self.report.deep_view(),
        }
    }
}

/// Whether a plan has the snapshot that it needs.
#[derive(Debug)]
pub struct DeploySnapshotGate {
    pub required: bool,
    pub provided_id: Option<String>,
    pub status: String,
    pub reason: Option<String>,
}

/// View of [`DeploySnapshotGate`].
#[verifier::ext_equal]
pub struct DeploySnapshotGateView {
    pub required: bool,
    pub provided_id: Option<Seq<char>>,
    pub status: Seq<char>,
    pub reason: Option<Seq<char>>,
}

impl DeepView for DeploySnapshotGate {
    type V = DeploySnapshotGateView;

    open spec fn deep_view(&self) -> DeploySnapshotGateView {
        DeploySnapshotGateView {
            required: self.required,
            provided_id: self.provided_id.deep_view(),
            status: self.status.deep_view(),
            reason: self.reason.deep_view(),
        }
    }
}

/// Whether a plan has the approvals that it needs.
#[derive(Debug)]
pub struct DeployApprovalGate {
    pub required: Vec<String>,
    pub approved: Vec<String>,
    pub missing: Vec<String>,
    pub satisfied: bool,
}

/// View of [`DeployApprovalGate`].
#[verifier::ext_equal]
pub struct DeployApprovalGateView {
    pub required: Seq<Seq<char>>,
    pub approved: Seq<Seq<char>>,
    pub missing: Seq<Seq<char>>,
    pub satisfied: bool,
}

impl DeepView for DeployApprovalGate {
    type V = DeployApprovalGateView;

    open spec fn deep_view(&self) -> DeployApprovalGateView {
        DeployApprovalGateView {
            required: self.required.deep_view(),
            approved: self.approved.deep_view(),
            missing: self.missing.deep_view(),
            satisfied: self.satisfied,
        }
    }
}

/// A step of a deploy.
#[derive(Debug)]
pub struct DeployOperation {
    pub order: u32,
    pub kind: String,
    pub target: String,
    pub requires_privilege: bool,
    pub destructive: bool,
    pub argv: Vec<String>,
    pub working_dir: Option<String>,
    /// In the order of the keys.
    pub params: Vec<(String, String)>,
    pub reason: String,
}

/// View of [`DeployOperation`].
#[verifier::ext_equal]
pub struct DeployOperationView {
    pub order: u32,
    pub kind: Seq<char>,
    pub target: Seq<char>,
    pub requires_privilege: bool,
    pub destructive: bool,
    pub argv: Seq<Seq<char>>,
    pub working_dir: Option<Seq<char>>,
    pub params: Seq<(Seq<char>, Seq<char>)>,
    pub reason: Seq<char>,
}

impl DeepView for DeployOperation {
    type V = DeployOperationView;

    open spec fn deep_view(&self) -> DeployOperationView {
        DeployOperationView {
            order: self.order,
            kind: self.kind.deep_view(),
            target: self.target.deep_view(),
            requires_privilege: self.requires_privilege,
            destructive: self.destructive,
            argv: self.argv.deep_view(),
            working_dir: self.working_dir.deep_view(),
            params: self.params.deep_view(),
            reason: self.reason.deep_view(),
        }
    }
}

impl Clone for DeployOperation {
    fn clone(&self) -> (r: Self)
        ensures
            r.deep_view() == self.deep_view(),
    {
        DeployOperation {
            order: self.order,
            kind: self.kind.clone(),
            target: self.target.clone(),
            requires_privilege: self.requires_privilege,
            destructive: self.destructive,
            argv: self.argv.clone(),
            working_dir: self.working_dir.clone(),
            params: clone_pairs(&self.params),
            reason: self.reason.clone(),
        }
    }
}

/// What came of a check after a deploy.
#[derive(Debug)]
pub struct DeployHealthCheckResult {
    pub kind: String,
    pub target: String,
    pub status: String,
    pub detail: String,
}

/// View of [`DeployHealthCheckResult`].
#[verifier::ext_equal]
pub struct DeployHealthCheckResultView {
    pub kind: Seq<char>,
    pub target: Seq<char>,
    pub status: Seq<char>,
    pub detail: Seq<char>,
}

impl DeepView for DeployHealthCheckResult {
    type V = DeployHealthCheckResultView;

    open spec fn deep_view(&self) -> DeployHealthCheckResultView {
        DeployHealthCheckResultView {
            kind: self.kind.deep_view(),
            target: self.target.deep_view(),
            status: self.status.deep_view(),
            detail: self.detail.deep_view(),
        }
    }
}

impl Clone for DeployHealthCheckResult {
    fn clone(&self) -> (r: Self)
        ensures
            r.deep_view() == self.deep_view(),
    {
        DeployHealthCheckResult {
            kind: self.kind.clone(),
            target: self.target.clone(),
            status: self.status.clone(),
            detail: self.detail.clone(),
        }
    }
}

/// What came of a step of a deploy.
#[derive(Debug)]
pub struct DeployOperationResult {
    pub order: u32,
    pub kind: String,
    pub target: String,
    pub status: String,
    pub status_code: Option<i32>,
    pub stdout_preview: Option<String>,
    pub stderr_preview: Option<String>,
    pub message: Option<String>,
    pub health_checks: Vec<DeployHealthCheckResult>,
    pub rollback_suggestion: Option<String>,
}

/// View of [`DeployOperationResult`].
#[verifier::ext_equal]
pub struct DeployOperationResultView {
    pub order: u32,
    pub kind: Seq<char>,
    pub target: Seq<char>,
    pub status: Seq<char>,
    pub status_code: Option<i32>,
    pub stdout_preview: Option<Seq<char>>,
    pub stderr_preview: Option<Seq<char>>,
    pub message: Option<Seq<char>>,
    pub health_checks: Seq<DeployHealthCheckResultView>,
    pub rollback_suggestion: Option<Seq<char>>,
}

impl DeepView for DeployOperationResult {
    type V = DeployOperationResultView;

    open spec fn deep_view(&self) -> DeployOperationResultView {
        DeployOperationResultView {
            order: self.order,
            kind: self.kind.deep_view(),
            target: self.target.deep_view(),
            status: self.status.deep_view(),
            status_code: self.status_code.deep_view(),
            stdout_preview: self.stdout_preview.deep_view(),
            stderr_preview: self.stderr_preview.deep_view(),
            message: self.message.deep_view(),
            health_checks: self.health_checks.deep_view(),
            rollback_suggestion: self.rollback_suggestion.deep_view(),
        }
    }
}

impl Clone for DeployOperationResult {
    fn clone(&self) -> (r: Self)
        ensures
            r.deep_view() == self.deep_view(),
    {
        DeployOperationResult {
            order: self.order,
            kind: self.kind.clone(),
            target: self.target.clone(),
            status: self.status.clone(),
            status_code: self.status_code.clone(),
            stdout_preview: self.stdout_preview.clone(),
            stderr_preview: self.stderr_preview.clone(),
            message: self.message.clone(),
            health_checks: self.health_checks.clone(),
            rollback_suggestion: self.rollback_suggestion.clone(),
        }
    }
}

/// What came of a deploy.
#[derive(Debug)]
pub struct DeployExecutionReport {
    pub schema_version: String,
    pub journal_id: String,
    pub journal_path: String,
    pub plan_id: String,
    pub snapshot_id: Option<String>,
    pub status: String,
    pub started_at: String,
    pub completed_at: Option<String>,
    pub operations_total: usize,
    pub operations_executed: usize,
    pub operations_succeeded: usize,
    pub operations_failed: usize,
    pub operations_skipped: usize,
    pub registry_updated: bool,
    pub results: Vec<DeployOperationResult>,
    pub limitations: Vec<String>,
    pub rollback_suggestions: Vec<String>,
}

/// View of [`DeployExecutionReport`].
#[verifier::ext_equal]
pub struct DeployExecutionReportView {
    pub schema_version: Seq<char>,
    pub journal_id: Seq<char>,
    pub journal_path: Seq<char>,
    pub plan_id: Seq<char>,
    pub snapshot_id: Option<Seq<char>>,
    pub status: Seq<char>,
    pub started_at: Seq<char>,
    pub completed_at: Option<Seq<char>>,
    pub operations_total: nat,
    pub operations_executed: nat,
    pub operations_succeeded: nat,
    pub operations_failed: nat,
    pub operations_skipped: nat,
    pub registry_updated: bool,
    pub results: Seq<DeployOperationResultView>,
    pub limitations: Seq<Seq<char>>,
    pub rollback_suggestions: Seq<Seq<char>>,
}

impl DeepView for DeployExecutionReport {
    type V = DeployExecutionReportView;

    open spec fn deep_view(&self) -> DeployExecutionReportView {
        DeployExecutionReportView {
            schema_version: self.schema_version.deep_view(),
            journal_id: self.journal_id.deep_view(),
            journal_path: self.journal_path.deep_view(),
            plan_id: self.plan_id.deep_view(),
            snapshot_id: self.snapshot_id.deep_view(),
            status: self.status.deep_view(),
            started_at: self.started_at.deep_view(),
            completed_at: self.completed_at.deep_view(),
            operations_total: self.operations_total as nat,
            operations_executed: self.operations_executed as nat,
            operations_succeeded: self.operations_succeeded as nat,
            operations_failed: self.operations_failed as nat,
            operations_skipped: self.operations_skipped as nat,
            registry_updated: self.registry_updated,
            results: self.results.deep_view(),
            limitations: self.limitations.deep_view(),
            rollback_suggestions: self.rollback_suggestions.deep_view(),
        }
    }
}

impl Clone for DeployExecutionReport {
    fn clone(&self) -> (r: Self)
        ensures
            r.deep_view() == self.deep_view(),
    {
        DeployExecutionReport {
            schema_version: self.schema_version.clone(),
            journal_id: self.journal_id.clone(),
            journal_path: self.journal_path.clone(),
            plan_id: self.plan_id.clone(),
            snapshot_id: self.snapshot_id.clone(),
            status: self.status.clone(),
            started_at: self.started_at.clone(),
            completed_at: self.completed_at.clone(),
            operations_total: self.operations_total,
            operations_executed: self.operations_executed,
            operations_succeeded: self.operations_succeeded,
            operations_failed: self.operations_failed,
            operations_skipped: self.operations_skipped,
            registry_updated: self.registry_updated,
            results: self.results.clone(),
            limitations: self.limitations.clone(),
            rollback_suggestions: self.rollback_suggestions.clone(),
        }
    }
}

/// A deploy: whether it can go ahead, its steps, and what came of it.
#[derive(Debug)]
pub struct DeployReport {
    pub plan_id: String,
    pub dry_run: bool,
    pub status: DeployStatus,
    pub execution_approval_token: Option<String>,
    pub execution_approval_scope: Option<String>,
    pub preflight: DeployPreflightGate,
    pub approval: Option<DeployApprovalGate>,
    pub snapshot: Option<DeploySnapshotGate>,
    pub operations: Vec<DeployOperation>,
    pub execution: Option<DeployExecutionReport>,
    pub approvals_required: Vec<String>,
    pub refusals: Vec<String>,
}

/// View of [`DeployReport`].
#[verifier::ext_equal]
pub struct DeployReportView {
    pub plan_id: Seq<char>,
    pub dry_run: bool,
    pub status: DeployStatus,
    pub execution_approval_token: Option<Seq<char>>,
    pub execution_approval_scope: Option<Seq<char>>,
    pub preflight: DeployPreflightGateView,
    pub approval: Option<DeployApprovalGateView>,
    pub snapshot: Option<DeploySnapshotGateView>,
    pub operations: Seq<DeployOperationView>,
    pub execution: Option<DeployExecutionReportView>,
    pub approvals_required: Seq<Seq<char>>,
    pub refusals: Seq<Seq<char>>,
}

impl DeepView for DeployReport {
    type V = DeployReportView;

    open spec fn deep_view(&self) -> DeployReportView {
        DeployReportView {
            plan_id: self.plan_id.deep_view(),
            dry_run: self.dry_run,
            status: self.status,
            execution_approval_token: self.execution_approval_token.deep_view(),
            execution_approval_scope: self.execution_approval_scope.deep_view(),
            preflight: self.preflight.deep_view(),
            approval: self.approval.deep_view(),
            snapshot: self.snapshot.deep_view(),
            operations: self.operations.deep_view(),
            execution: self.execution.deep_view(),
            approvals_required: self.approvals_required.deep_view(),
            refusals: self.refusals.deep_view(),
        }
    }
}

/// A deploy journal in a list.
#[derive(Debug)]
pub struct DeployJournalListItem {
    pub journal_id: String,
    pub plan_id: String,
    pub snapshot_id: Option<String>,
    pub status: String,
    pub started_at: String,
    pub completed_at: Option<String>,
    pub operations_total: usize,
    pub operations_succeeded: usize,
    pub operations_failed: usize,
    pub registry_updated: bool,
    pub path: String,
}

/// View of [`DeployJournalListItem`].
#[verifier::ext_equal]
pub struct DeployJournalListItemView {
    pub journal_id: Seq<char>,
    pub plan_id: Seq<char>,
    pub snapshot_id: Option<Seq<char>>,
    pub status: Seq<char>,
    pub started_at: Seq<char>,
    pub completed_at: Option<Seq<char>>,
    pub operations_total: nat,
    pub operations_succeeded: nat,
    pub operations_failed: nat,
    pub registry_updated: bool,
    pub path: Seq<char>,
}

impl DeepView for DeployJournalListItem {
    type V = DeployJournalListItemView;

    open spec fn deep_view(&self) -> DeployJournalListItemView {
        DeployJournalListItemView {
            journal_id: self.journal_id.deep_view(),
            plan_id: self.plan_id.deep_view(),
            snapshot_id: self.snapshot_id.deep_view(),
            status: self.status.deep_view(),
            started_at: self.started_at.deep_view(),
            completed_at: self.completed_at.deep_view(),
            operations_total: self.operations_total as nat,
            operations_succeeded: self.operations_succeeded as nat,
            operations_failed: self.operations_failed as nat,
            registry_updated: self.registry_updated,
            path: self.path.deep_view(),
        }
    }
}

/// The deploy journals.
#[derive(Debug)]
pub struct DeployJournalListReport {
    pub read_only: bool,
    pub journals_dir: String,
    pub journals: Vec<DeployJournalListItem>,
}

/// View of [`DeployJournalListReport`].
#[verifier::ext_equal]
pub struct DeployJournalListReportView {
    pub read_only: bool,
    pub journals_dir: Seq<char>,
    pub journals: Seq<DeployJournalListItemView>,
}

impl DeepView for DeployJournalListReport {
    type V = DeployJournalListReportView;

    open spec fn deep_view(&self) -> DeployJournalListReportView {
        DeployJournalListReportView {
            read_only: self.read_only,
            journals_dir: self.journals_dir.deep_view(),
            journals: self.journals.deep_view(),
        }
    }
}

/// A deploy journal.
#[derive(Debug)]
pub struct DeployJournalInspectReport {
    pub read_only: bool,
    pub journal_id: String,
    pub path: String,
    pub journal: DeployExecutionReport,
}

/// View of [`DeployJournalInspectReport`].
#[verifier::ext_equal]
pub struct DeployJournalInspectReportView {
    pub read_only: bool,
    pub journal_id: Seq<char>,
    pub path: Seq<char>,
    pub journal: DeployExecutionReportView,
}

impl DeepView for DeployJournalInspectReport {
    type V = DeployJournalInspectReportView;

    open spec fn deep_view(&self) -> DeployJournalInspectReportView {
        DeployJournalInspectReportView {
            read_only: self.read_only,
            journal_id: self.journal_id.deep_view(),
            path: self.path.deep_view(),
            journal: self.journal.deep_view(),
        }
    }
}

/// Whether a deploy that failed can go on, and with which steps.
#[derive(Debug)]
pub struct DeployResumeReport {
    pub read_only: bool,
    pub dry_run: bool,
    pub journal_id: String,
    pub plan_id: String,
    pub original_snapshot_id: Option<String>,
    pub journal_status: String,
    pub can_resume: bool,
    pub resume_approval_token: Option<String>,
    pub resume_approval_scope: Option<String>,
    pub blockers: Vec<String>,
    pub executed_orders: Vec<u32>,
    pub failed_operation: Option<DeployOperationResult>,
    pub next_operations: Vec<DeployOperation>,
    pub execution: Option<DeployExecutionReport>,
}

/// View of [`DeployResumeReport`].
#[verifier::ext_equal]
pub struct DeployResumeReportView {
    pub read_only: bool,
    pub dry_run: bool,
    pub journal_id: Seq<char>,
    pub plan_id: Seq<char>,
    pub original_snapshot_id: Option<Seq<char>>,
    pub journal_status: Seq<char>,
    pub can_resume: bool,
    pub resume_approval_token: Option<Seq<char>>,
    pub resume_approval_scope: Option<Seq<char>>,
    pub blockers: Seq<Seq<char>>,
    pub executed_orders: Seq<u32>,
    pub failed_operation: Option<DeployOperationResultView>,
    pub next_operations: Seq<DeployOperationView>,
    pub execution: Option<DeployExecutionReportView>,
}

impl DeepView for DeployResumeReport {
    type V = DeployResumeReportView;

    open spec fn deep_view(&self) -> DeployResumeReportView {
        DeployResumeReportView {
            read_only: self.read_only,
            dry_run: self.dry_run,
            journal_id: self.journal_id.deep_view(),
            plan_id: self.plan_id.deep_view(),
            original_snapshot_id: self.original_snapshot_id.deep_view(),
            journal_status: self.journal_status.deep_view(),
            can_resume: self.can_resume,
            resume_approval_token: self.resume_approval_token.deep_view(),
            resume_approval_scope: self.resume_approval_scope.deep_view(),
            blockers: self.blockers.deep_view(),
            executed_orders: self.executed_orders.deep_view(),
            failed_operation: self.failed_operation.deep_view(),
            next_operations: self.next_operations.deep_view(),
            execution: self.execution.deep_view(),
        }
    }
}

} // verus!
