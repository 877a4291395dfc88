//! The types of drift review and cleanup.

use vstd::prelude::*;
use crate::adoption::{AdoptionRecord, AdoptionRecordView};
use crate::registry::{
    DriftIgnoreRule, DriftIgnoreRuleView, Registry, RegistryView, Service, ServiceView,
};

verus! {

/// Which findings to explain: an exact code, an exact target, or both.
#[derive(Debug)]
pub struct DriftFilter<'a> {
    pub code: Option<&'a str>,
    pub target: Option<&'a str>,
}

/// View of [`DriftFilter`].
#[verifier::ext_equal]
pub struct DriftFilterView {
    pub code: Option<Seq<char>>,
    pub target: Option<Seq<char>>,
}

impl<'a> DeepView for DriftFilter<'a> {
    type V = DriftFilterView;

    open spec fn deep_view(&self) -> DriftFilterView {
        DriftFilterView {
            code: self.code.deep_view(),
            target: self.target.deep_view(),
        }
    }
}

/// A request to adopt an observed resource into the registry.
#[derive(Debug)]
pub struct DriftAdoptOptions<'a> {
    pub registry: &'a Registry,
    pub registry_dir: &'a str,
    pub state_dir: &'a str,
    pub actor: &'a str,
    pub kind: &'a str,
    pub target: &'a str,
    pub service_id: &'a str,
    pub exposure: &'a str,
    pub purpose: Option<&'a str>,
    pub reason: Option<&'a str>,
    pub operator_note: Option<&'a str>,
    pub review_status: &'a str,
    pub execute: bool,
}

/// View of [`DriftAdoptOptions`].
#[verifier::ext_equal]
pub struct DriftAdoptOptionsView {
    pub registry: RegistryView,
    pub registry_dir: Seq<char>,
    pub state_dir: Seq<char>,
    pub actor: Seq<char>,
    pub kind: Seq<char>,
    pub target: Seq<char>,
    pub service_id: Seq<char>,
    pub exposure: Seq<char>,
    pub purpose: Option<Seq<char>>,
    pub reason: Option<Seq<char>>,
    pub operator_note: Option<Seq<char>>,
    pub review_status: Seq<char>,
    pub execute: bool,
}

impl<'a> DeepView for DriftAdoptOptions<'a> {
    type V = DriftAdoptOptionsView;

    open spec fn deep_view(&self) -> DriftAdoptOptionsView {
        DriftAdoptOptionsView {
            registry: self.registry.deep_view(),
            registry_dir: self.registry_dir.deep_view(),
            state_dir: self.state_dir.deep_view(),
            actor: self.actor.deep_view(),
            kind: self.kind.deep_view(),
            target: self.target.deep_view(),
            service_id: self.service_id.deep_view(),
            exposure: self.exposure.deep_view(),
            purpose: self.purpose.deep_view(),
            reason: self.reason.deep_view(),
            operator_note: self.operator_note.deep_view(),
            review_status: self.review_status.deep_view(),
            execute: self.execute,
        }
    }
}

/// A request to register a service that was found on the server.
#[derive(Debug)]
pub struct DriftServiceAddOptions<'a> {
    pub registry: &'a Registry,
    pub registry_dir: &'a str,
    pub id: &'a str,
    pub name: Option<&'a str>,
    pub root: Option<&'a str>,
    pub kind: &'a str,
    pub environment: &'a str,
    pub deploy_method: Option<&'a str>,
    pub owner: Option<&'a str>,
    pub status: &'a str,
    pub backup_policy: Option<&'a str>,
    pub reason: Option<&'a str>,
    pub notes: Option<&'a str>,
    pub execute: bool,
}

/// View of [`DriftServiceAddOptions`].
#[verifier::ext_equal]
pub struct DriftServiceAddOptionsView {
    pub registry: RegistryView,
    pub registry_dir: Seq<char>,
    pub id: Seq<char>,
    pub name: Option<Seq<char>>,
    pub root: Option<Seq<char>>,
    pub kind: Seq<char>,
    pub environment: Seq<char>,
    pub deploy_method: Option<Seq<char>>,
    pub owner: Option<Seq<char>>,
    pub status: Seq<char>,
    pub backup_policy: Option<Seq<char>>,
    pub reason: Option<Seq<char>>,
    pub notes: Option<Seq<char>>,
    pub execute: bool,
}

impl<'a> DeepView for DriftServiceAddOptions<'a> {
    type V = DriftServiceAddOptionsView;

    open spec fn deep_view(&self) -> DriftServiceAddOptionsView {
        DriftServiceAddOptionsView {
            registry: self.registry.deep_view(),
            registry_dir: self.registry_dir.deep_view(),
            id: self.id.deep_view(),
            name: self.name.deep_view(),
            root: self.root.deep_view(),
            kind: self.kind.deep_view(),
            environment: self.environment.deep_view(),
            deploy_method: self.deploy_method.deep_view(),
            owner: self.owner.deep_view(),
            status: self.status.deep_view(),
            backup_policy: self.backup_policy.deep_view(),
            reason: self.reason.deep_view(),
            notes: self.notes.deep_view(),
            execute: self.execute,
        }
    }
}

/// A review verdict on an adopted record.
#[derive(Debug)]
pub struct DriftAdoptReviewOptions<'a> {
    pub registry: &'a Registry,
    pub state_dir: &'a str,
    pub actor: &'a str,
    pub target: &'a str,
    pub service_id: Option<&'a str>,
    pub status: &'a str,
    pub reason: Option<&'a str>,
    pub execute: bool,
}

/// View of [`DriftAdoptReviewOptions`].
#[verifier::ext_equal]
pub struct DriftAdoptReviewOptionsView {
    pub registry: RegistryView,
    pub state_dir: Seq<char>,
    pub actor: Seq<char>,
    pub target: Seq<char>,
    pub service_id: Option<Seq<char>>,
    pub status: Seq<char>,
    pub reason: Option<Seq<char>>,
    pub execute: bool,
}

impl<'a> DeepView for DriftAdoptReviewOptions<'a> {
    type V = DriftAdoptReviewOptionsView;

    open spec fn deep_view(&self) -> DriftAdoptReviewOptionsView {
        DriftAdoptReviewOptionsView {
            registry: self.registry.deep_view(),
            state_dir: self.state_dir.deep_view(),
            actor: self.actor.deep_view(),
            target: self.target.deep_view(),
            service_id: self.service_id.deep_view(),
            status: self.status.deep_view(),
            reason: self.reason.deep_view(),
            execute: self.execute,
        }
    }
}

/// A request for a rule that hides matching drift until it expires.
#[derive(Debug)]
pub struct DriftIgnoreOptions<'a> {
    pub registry: &'a Registry,
    pub registry_dir: &'a str,
    pub state_dir: &'a str,
    pub actor: &'a str,
    pub kind: &'a str,
    pub code: Option<&'a str>,
    pub target: Option<&'a str>,
    pub target_prefix: Option<&'a str>,
    pub target_suffix: Option<&'a str>,
    pub target_contains: Option<&'a str>,
    pub owner: Option<&'a str>,
    pub reason: Option<&'a str>,
    pub expires_at: Option<&'a str>,
    pub execute: bool,
}

/// View of [`DriftIgnoreOptions`].
#[verifier::ext_equal]
pub struct DriftIgnoreOptionsView {
    pub registry: RegistryView,
    pub registry_dir: Seq<char>,
    pub state_dir: Seq<char>,
    pub actor: Seq<char>,
    pub kind: Seq<char>,
    pub code: Option<Seq<char>>,
    pub target: Option<Seq<char>>,
    pub target_prefix: Option<Seq<char>>,
    pub target_suffix: Option<Seq<char>>,
    pub target_contains: Option<Seq<char>>,
    pub owner: Option<Seq<char>>,
    pub reason: Option<Seq<char>>,
    pub expires_at: Option<Seq<char>>,
    pub execute: bool,
}

impl<'a> DeepView for DriftIgnoreOptions<'a> {
    type V = DriftIgnoreOptionsView;

    open spec fn deep_view(&self) -> DriftIgnoreOptionsView {
        DriftIgnoreOptionsView {
            registry: self.registry.deep_view(),
            registry_dir: self.registry_dir.deep_view(),
            state_dir: self.state_dir.deep_view(),
            actor: self.actor.deep_view(),
            kind: self.kind.deep_view(),
            code: self.code.deep_view(),
            target: self.target.deep_view(),
            target_prefix: self.target_prefix.deep_view(),
            target_suffix: self.target_suffix.deep_view(),
            target_contains: self.target_contains.deep_view(),
            owner: self.owner.deep_view(),
            reason: self.reason.deep_view(),
            expires_at: self.expires_at.deep_view(),
            execute: self.execute,
        }
    }
}

/// A request to apply a reviewed document.
#[derive(Debug)]
pub struct DriftReviewApplyOptions<'a> {
    pub registry_dir: &'a str,
    pub state_dir: &'a str,
    pub review_file: &'a str,
    pub actor: &'a str,
    pub execute: bool,
}

/// View of [`DriftReviewApplyOptions`].
#[verifier::ext_equal]
pub struct DriftReviewApplyOptionsView {
    pub registry_dir: Seq<char>,
    pub state_dir: Seq<char>,
    pub review_file: Seq<char>,
    pub actor: Seq<char>,
    pub execute: bool,
}

impl<'a> DeepView for DriftReviewApplyOptions<'a> {
    type V = DriftReviewApplyOptionsView;

    open spec fn deep_view(&self) -> DriftReviewApplyOptionsView {
        DriftReviewApplyOptionsView {
            registry_dir: self.registry_dir.deep_view(),
            state_dir: self.state_dir.deep_view(),
            review_file: self.review_file.deep_view(),
            actor: self.actor.deep_view(),
            execute: self.execute,
        }
    }
}

/// The recorded outcome of one cleanup item.
#[derive(Debug)]
pub struct DriftCleanupFinalizeOptions<'a> {
    pub request_file: &'a str,
    pub state_dir: &'a str,
    pub actor: &'a str,
    pub request_id: &'a str,
    pub outcome: &'a str,
    pub reason: Option<&'a str>,
    pub evidence: Vec<String>,
    pub execute: bool,
}

/// View of [`DriftCleanupFinalizeOptions`].
#[verifier::ext_equal]
pub struct DriftCleanupFinalizeOptionsView {
    pub request_file: Seq<char>,
    pub state_dir: Seq<char>,
    pub actor: Seq<char>,
    pub request_id: Seq<char>,
    pub outcome: Seq<char>,
    pub reason: Option<Seq<char>>,
    pub evidence: Seq<Seq<char>>,
    pub execute: bool,
}

impl<'a> DeepView for DriftCleanupFinalizeOptions<'a> {
    type V = DriftCleanupFinalizeOptionsView;

    open spec fn deep_view(&self) -> DriftCleanupFinalizeOptionsView {
        DriftCleanupFinalizeOptionsView {
            request_file: self.request_file.deep_view(),
            state_dir: self.state_dir.deep_view(),
            actor: self.actor.deep_view(),
            request_id: self.request_id.deep_view(),
            outcome: self.outcome.deep_view(),
            reason: self.reason.deep_view(),
            evidence: self.evidence.deep_view(),
            execute: self.execute,
        }
    }
}

/// A request to hand an approved cleanup over to an operator.
#[derive(Debug)]
pub struct DriftCleanupExecuteOptions<'a> {
    pub registry: &'a Registry,
    pub request_file: &'a str,
    pub state_dir: &'a str,
    pub actor: &'a str,
    pub reason: Option<&'a str>,
    pub approval_satisfied: bool,
    pub approval_token: Option<&'a str>,
    pub execute: bool,
}

/// View of [`DriftCleanupExecuteOptions`].
#[verifier::ext_equal]
pub struct DriftCleanupExecuteOptionsView {
    pub registry: RegistryView,
    pub request_file: Seq<char>,
    pub state_dir: Seq<char>,
    pub actor: Seq<char>,
    pub reason: Option<Seq<char>>,
    pub approval_satisfied: bool,
    pub approval_token: Option<Seq<char>>,
    pub execute: bool,
}

impl<'a> DeepView for DriftCleanupExecuteOptions<'a> {
    type V = DriftCleanupExecuteOptionsView;

    open spec fn deep_view(&self) -> DriftCleanupExecuteOptionsView {
        DriftCleanupExecuteOptionsView {
            registry: self.registry.deep_view(),
            request_file: self.request_file.deep_view(),
            state_dir: self.state_dir.deep_view(),
            actor: self.actor.deep_view(),
            reason: self.reason.deep_view(),
            approval_satisfied: self.approval_satisfied,
            approval_token: self.approval_token.deep_view(),
            execute: self.execute,
        }
    }
}

/// Which items of a cleanup request to mark, and with what.
#[derive(Debug)]
pub struct DriftCleanupMarkOptions<'a> {
    pub request_file: &'a str,
    pub request_ids: &'a [String],
    pub targets: &'a [String],
    pub kind: Option<&'a str>,
    pub target_prefix: Option<&'a str>,
    pub target_contains: Option<&'a str>,
    pub target_suffix: Option<&'a str>,
    pub approval_status: &'a str,
    pub owner: Option<&'a str>,
    pub reason: Option<&'a str>,
    pub operator_note: Option<&'a str>,
    pub cleanup_strategy: Option<&'a str>,
    pub exact_resource_id: Option<&'a str>,
    pub backup_snapshot_id: Option<&'a str>,
    pub restore_drill_id: Option<&'a str>,
    pub maintenance_window: Option<&'a str>,
    pub rollback_plan: Option<&'a str>,
    pub approval_expires_at: Option<&'a str>,
    pub execute: bool,
}

/// View of [`DriftCleanupMarkOptions`].
#[verifier::ext_equal]
pub struct DriftCleanupMarkOptionsView {
    pub request_file: Seq<char>,
    pub request_ids: Seq<Seq<char>>,
    pub targets: Seq<Seq<char>>,
    pub kind: Option<Seq<char>>,
    pub target_prefix: Option<Seq<char>>,
    pub target_contains: Option<Seq<char>>,
    pub target_suffix: Option<Seq<char>>,
    pub approval_status: Seq<char>,
    pub owner: Option<Seq<char>>,
    pub reason: Option<Seq<char>>,
    pub operator_note: Option<Seq<char>>,
    pub cleanup_strategy: Option<Seq<char>>,
    pub exact_resource_id: Option<Seq<char>>,
    pub backup_snapshot_id: Option<Seq<char>>,
    pub restore_drill_id: Option<Seq<char>>,
    pub maintenance_window: Option<Seq<char>>,
    pub rollback_plan: Option<Seq<char>>,
    pub approval_expires_at: Option<Seq<char>>,
    pub execute: bool,
}

impl<'a> DeepView for DriftCleanupMarkOptions<'a> {
    type V = DriftCleanupMarkOptionsView;

    open spec fn deep_view(&self) -> DriftCleanupMarkOptionsView {
        DriftCleanupMarkOptionsView {
            request_file: self.request_file.deep_view(),
            request_ids: self.request_ids.deep_view(),
            targets: self.targets.deep_view(),
            kind: self.kind.deep_view(),
            target_prefix: self.target_prefix.deep_view(),
            target_contains: self.target_contains.deep_view(),
            target_suffix: self.target_suffix.deep_view(),
            approval_status: self.approval_status.deep_view(),
            owner: self.owner.deep_view(),
            reason: self.reason.deep_view(),
            operator_note: self.operator_note.deep_view(),
            cleanup_strategy: self.cleanup_strategy.deep_view(),
            exact_resource_id: self.exact_resource_id.deep_view(),
            backup_snapshot_id: self.backup_snapshot_id.deep_view(),
            restore_drill_id: self.restore_drill_id.deep_view(),
            maintenance_window: self.maintenance_window.deep_view(),
            rollback_plan: self.rollback_plan.deep_view(),
            approval_expires_at: self.approval_expires_at.deep_view(),
            execute: self.execute,
        }
    }
}

/// Which items of a cleanup request to collect evidence for.
#[derive(Debug)]
pub struct DriftCleanupEvidenceOptions<'a> {
    pub registry: &'a Registry,
    pub request_file: &'a str,
    pub request_ids: &'a [String],
    pub targets: &'a [String],
    pub kind: Option<&'a str>,
    pub target_prefix: Option<&'a str>,
    pub target_contains: Option<&'a str>,
    pub target_suffix: Option<&'a str>,
    pub all: bool,
    pub execute: bool,
}

/// View of [`DriftCleanupEvidenceOptions`].
#[verifier::ext_equal]
pub struct DriftCleanupEvidenceOptionsView {
    pub registry: RegistryView,
    pub request_file: Seq<char>,
    pub request_ids: Seq<Seq<char>>,
    pub targets: Seq<Seq<char>>,
    pub kind: Option<Seq<char>>,
    pub target_prefix: Option<Seq<char>>,
    pub target_contains: Option<Seq<char>>,
    pub target_suffix: Option<Seq<char>>,
    pub all: bool,
    pub execute: bool,
}

impl<'a> DeepView for DriftCleanupEvidenceOptions<'a> {
    type V = DriftCleanupEvidenceOptionsView;

    open spec fn deep_view(&self) -> DriftCleanupEvidenceOptionsView {
        DriftCleanupEvidenceOptionsView {
            registry: self.registry.deep_view(),
            request_file: self.request_file.deep_view(),
            request_ids: self.request_ids.deep_view(),
            targets: self.targets.deep_view(),
            kind: self.kind.deep_view(),
            target_prefix: self.target_prefix.deep_view(),
            target_contains: self.target_contains.deep_view(),
            target_suffix: self.target_suffix.deep_view(),
            all: self.all,
            execute: self.execute,
        }
    }
}

/// A request to bring a cleanup request up to date with the server.
#[derive(Debug)]
pub struct DriftCleanupSyncOptions<'a> {
    pub registry: &'a Registry,
    pub request_file: &'a str,
    pub execute: bool,
}

/// View of [`DriftCleanupSyncOptions`].
#[verifier::ext_equal]
pub struct DriftCleanupSyncOptionsView {
    pub registry: RegistryView,
    pub request_file: Seq<char>,
    pub execute: bool,
}

impl<'a> DeepView for DriftCleanupSyncOptions<'a> {
    type V = DriftCleanupSyncOptionsView;

    open spec fn deep_view(&self) -> DriftCleanupSyncOptionsView {
        DriftCleanupSyncOptionsView {
            registry: self.registry.deep_view(),
            request_file: self.request_file.deep_view(),
            execute: self.execute,
        }
    }
}

/// Active and ignored drift with a summary by code.
#[derive(Debug)]
pub struct DriftReport {
    pub ok: bool,
    pub read_only: bool,
    pub active_findings: usize,
    pub ignored_findings: usize,
    pub findings: Vec<DriftFinding>,
    pub ignored: Vec<IgnoredDriftFinding>,
    pub summary: Vec<DriftSummaryEntry>,
    pub adoption_candidates: Vec<DriftAdoptionCandidate>,
    pub limitations: Vec<String>,
}

/// View of [`DriftReport`].
#[verifier::ext_equal]
pub struct DriftReportView {
    pub ok: bool,
    pub read_only: bool,
    pub active_findings: nat,
    pub ignored_findings: nat,
    pub findings: Seq<DriftFindingView>,
    pub ignored: Seq<IgnoredDriftFindingView>,
    pub summary: Seq<DriftSummaryEntryView>,
    pub adoption_candidates: Seq<DriftAdoptionCandidateView>,
    pub limitations: Seq<Seq<char>>,
}

impl DeepView for DriftReport {
    type V = DriftReportView;

    open spec fn deep_view(&self) -> DriftReportView {
        DriftReportView {
            ok: self.ok,
            read_only: self.read_only,
            active_findings: self.active_findings as nat,
            ignored_findings: self.ignored_findings as nat,
            findings: self.findings.deep_view(),
            ignored: self.ignored.deep_view(),
            summary: self.summary.deep_view(),
            adoption_candidates: self.adoption_candidates.deep_view(),
            limitations: self.limitations.deep_view(),
        }
    }
}

/// One difference between the server and the registry.
#[derive(Debug)]
pub struct DriftFinding {
    pub severity: String,
    pub code: String,
    pub target: Option<String>,
    pub message: String,
    pub explanation: String,
    pub adoptable: bool,
}

/// View of [`DriftFinding`].
#[verifier::ext_equal]
pub struct DriftFindingView {
    pub severity: Seq<char>,
    pub code: Seq<char>,
    pub target: Option<Seq<char>>,
    pub message: Seq<char>,
    pub explanation: Seq<char>,
    pub adoptable: bool,
}

impl DeepView for DriftFinding {
    type V = DriftFindingView;

    open spec fn deep_view(&self) -> DriftFindingView {
        DriftFindingView {
            severity: self.severity.deep_view(),
            code: self.code.deep_view(),
            target: self.target.deep_view(),
            message: self.message.deep_view(),
            explanation: self.explanation.deep_view(),
            adoptable: self.adoptable,
        }
    }
}

impl Clone for DriftFinding {
    fn clone(&self) -> (r: Self)
        ensures
            r.deep_view() == self.deep_view(),
    {
        DriftFinding {
            severity: self.severity.clone(),
            code: self.code.clone(),
            target: self.target.clone(),
            message: self.message.clone(),
            explanation: self.explanation.clone(),
            adoptable: self.adoptable,
        }
    }
}

/// A finding that an ignore rule hides.
#[derive(Debug)]
pub struct IgnoredDriftFinding {
    pub severity: String,
    pub code: String,
    pub target: Option<String>,
    pub message: String,
    pub ignore_id: String,
    pub owner: String,
    pub reason: String,
    pub expires_at: Option<String>,
}

/// View of [`IgnoredDriftFinding`].
#[verifier::ext_equal]
pub struct IgnoredDriftFindingView {
    pub severity: Seq<char>,
    pub code: Seq<char>,
    pub target: Option<Seq<char>>,
    pub message: Seq<char>,
    pub ignore_id: Seq<char>,
    pub owner: Seq<char>,
    pub reason: Seq<char>,
    pub expires_at: Option<Seq<char>>,
}

impl DeepView for IgnoredDriftFinding {
    type V = IgnoredDriftFindingView;

    open spec fn deep_view(&self) -> IgnoredDriftFindingView {
        IgnoredDriftFindingView {
            severity: self.severity.deep_view(),
            code: self.code.deep_view(),
            target: self.target.deep_view(),
            message: self.message.deep_view(),
            ignore_id: self.ignore_id.deep_view(),
            owner: self.owner.deep_view(),
            reason: self.reason.deep_view(),
            expires_at: self.expires_at.deep_view(),
        }
    }
}

impl Clone for IgnoredDriftFinding {
    fn clone(&self) -> (r: Self)
        ensures
            r.deep_view() == self.deep_view(),
    {
        IgnoredDriftFinding {
            severity: self.severity.clone(),
            code: self.code.clone(),
            target: self.target.clone(),
            message: self.message.clone(),
            ignore_id: self.ignore_id.clone(),
            owner: self.owner.clone(),
            reason: self.reason.clone(),
            expires_at: self.expires_at.clone(),
        }
    }
}

/// How often one code occurs.
#[derive(Debug)]
pub struct DriftSummaryEntry {
    pub code: String,
    pub kind: Option<String>,
    pub active: usize,
    pub ignored: usize,
    pub adoptable: bool,
}

/// View of [`DriftSummaryEntry`].
#[verifier::ext_equal]
pub struct DriftSummaryEntryView {
    pub code: Seq<char>,
    pub kind: Option<Seq<char>>,
    pub active: nat,
    pub ignored: nat,
    pub adoptable: bool,
}

impl DeepView for DriftSummaryEntry {
    type V = DriftSummaryEntryView;

    open spec fn deep_view(&self) -> DriftSummaryEntryView {
        DriftSummaryEntryView {
            code: self.code.deep_view(),
            kind: self.kind.deep_view(),
            active: self.active as nat,
            ignored: self.ignored as nat,
            adoptable: self.adoptable,
        }
    }
}

impl Clone for DriftSummaryEntry {
    fn clone(&self) -> (r: Self)
        ensures
            r.deep_view() == self.deep_view(),
    {
        DriftSummaryEntry {
            code: self.code.clone(),
            kind: self.kind.clone(),
            active: self.active,
            ignored: self.ignored,
            adoptable: self.adoptable,
        }
    }
}

/// A finding that can be adopted into the registry.
#[derive(Debug)]
pub struct DriftAdoptionCandidate {
    pub kind: String,
    pub code: String,
    pub target: String,
    pub protocol: Option<String>,
    pub bind: Option<String>,
    pub port: Option<u16>,
    pub suggested_action: String,
}

/// View of [`DriftAdoptionCandidate`].
#[verifier::ext_equal]
pub struct DriftAdoptionCandidateView {
    pub kind: Seq<char>,
    pub code: Seq<char>,
    pub target: Seq<char>,
    pub protocol: Option<Seq<char>>,
    pub bind: Option<Seq<char>>,
    pub port: Option<u16>,
    pub suggested_action: Seq<char>,
}

impl DeepView for DriftAdoptionCandidate {
    type V = DriftAdoptionCandidateView;

    open spec fn deep_view(&self) -> DriftAdoptionCandidateView {
        DriftAdoptionCandidateView {
            kind: self.kind.deep_view(),
            code: self.code.deep_view(),
            target: self.target.deep_view(),
            protocol: self.protocol.deep_view(),
            bind: self.bind.deep_view(),
            port: self.port.deep_view(),
            suggested_action: self.suggested_action.deep_view(),
        }
    }
}

impl Clone for DriftAdoptionCandidate {
    fn clone(&self) -> (r: Self)
        ensures
            r.deep_view() == self.deep_view(),
    {
        DriftAdoptionCandidate {
            kind: self.kind.clone(),
            code: self.code.clone(),
            target: self.target.clone(),
            protocol: self.protocol.clone(),
            bind: self.bind.clone(),
            port: self.port.clone(),
            suggested_action: self.suggested_action.clone(),
        }
    }
}

/// Drift grouped by kind and owner hint.
#[derive(Debug)]
pub struct DriftGroupsReport {
    pub ok: bool,
    pub read_only: bool,
    pub groups: Vec<DriftGroup>,
    pub active_findings: usize,
    pub ignored_findings: usize,
    pub limitations: Vec<String>,
}

/// View of [`DriftGroupsReport`].
#[verifier::ext_equal]
pub struct DriftGroupsReportView {
    pub ok: bool,
    pub read_only: bool,
    pub groups: Seq<DriftGroupView>,
    pub active_findings: nat,
    pub ignored_findings: nat,
    pub limitations: Seq<Seq<char>>,
}

impl DeepView for DriftGroupsReport {
    type V = DriftGroupsReportView;

    open spec fn deep_view(&self) -> DriftGroupsReportView {
        DriftGroupsReportView {
            ok: self.ok,
            read_only: self.read_only,
            groups: self.groups.deep_view(),
            active_findings: self.active_findings as nat,
            ignored_findings: self.ignored_findings as nat,
            limitations: self.limitations.deep_view(),
        }
    }
}

/// Findings of one kind that look as if they belong together.
#[derive(Debug)]
pub struct DriftGroup {
    pub kind: String,
    pub group: String,
    pub active: usize,
    pub ignored: usize,
    pub sample_targets: Vec<String>,
    pub codes: Vec<String>,
    pub suggested_next_step: String,
}

/// View of [`DriftGroup`].
#[verifier::ext_equal]
pub struct DriftGroupView {
    pub kind: Seq<char>,
    pub group: Seq<char>,
    pub active: nat,
    pub ignored: nat,
    pub sample_targets: Seq<Seq<char>>,
    pub codes: Seq<Seq<char>>,
    pub suggested_next_step: Seq<char>,
}

impl DeepView for DriftGroup {
    type V = DriftGroupView;

    open spec fn deep_view(&self) -> DriftGroupView {
        DriftGroupView {
            kind: self.kind.deep_view(),
            group: self.group.deep_view(),
            active: self.active as nat,
            ignored: self.ignored as nat,
            sample_targets: self.sample_targets.deep_view(),
            codes: self.codes.deep_view(),
            suggested_next_step: self.suggested_next_step.deep_view(),
        }
    }
}

impl Clone for DriftGroup {
    fn clone(&self) -> (r: Self)
        ensures
            r.deep_view() == self.deep_view(),
    {
        DriftGroup {
            kind: self.kind.clone(),
            group: self.group.clone(),
            active: self.active,
            ignored: self.ignored,
            sample_targets: self.sample_targets.clone(),
            codes: self.codes.clone(),
            suggested_next_step: self.suggested_next_step.clone(),
        }
    }
}

/// Suggested next steps for active drift.
#[derive(Debug)]
pub struct DriftSuggestReport {
    pub ok: bool,
    pub read_only: bool,
    pub suggestions: Vec<DriftSuggestion>,
    pub limitations: Vec<String>,
}

/// View of [`DriftSuggestReport`].
#[verifier::ext_equal]
pub struct DriftSuggestReportView {
    pub ok: bool,
    pub read_only: bool,
    pub suggestions: Seq<DriftSuggestionView>,
    pub limitations: Seq<Seq<char>>,
}

impl DeepView for DriftSuggestReport {
    type V = DriftSuggestReportView;

    open spec fn deep_view(&self) -> DriftSuggestReportView {
        DriftSuggestReportView {
            ok: self.ok,
            read_only: self.read_only,
            suggestions: self.suggestions.deep_view(),
            limitations: self.limitations.deep_view(),
        }
    }
}

/// A suggested next step for one finding.
#[derive(Debug)]
pub struct DriftSuggestion {
    pub kind: String,
    pub target: String,
    pub code: String,
    pub action: String,
    pub confidence: String,
    pub reason: String,
    pub command: Option<String>,
}

/// View of [`DriftSuggestion`].
#[verifier::ext_equal]
pub struct DriftSuggestionView {
    pub kind: Seq<char>,
    pub target: Seq<char>,
    pub code: Seq<char>,
    pub action: Seq<char>,
    pub confidence: Seq<char>,
    pub reason: Seq<char>,
    pub command: Option<Seq<char>>,
}

impl DeepView for DriftSuggestion {
    type V = DriftSuggestionView;

    open spec fn deep_view(&self) -> DriftSuggestionView {
        DriftSuggestionView {
            kind: self.kind.deep_view(),
            target: self.target.deep_view(),
            code: self.code.deep_view(),
            action: self.action.deep_view(),
            confidence: self.confidence.deep_view(),
            reason: self.reason.deep_view(),
            command: self.command.deep_view(),
        }
    }
}

impl Clone for DriftSuggestion {
    fn clone(&self) -> (r: Self)
        ensures
            r.deep_view() == self.deep_view(),
    {
        DriftSuggestion {
            kind: self.kind.clone(),
            target: self.target.clone(),
            code: self.code.clone(),
            action: self.action.clone(),
            confidence: self.confidence.clone(),
            reason: self.reason.clone(),
            command: self.command.clone(),
        }
    }
}

/// Who may own the resources behind active drift.
#[derive(Debug)]
pub struct DriftOwnershipReport {
    pub ok: bool,
    pub read_only: bool,
    pub status: String,
    pub active_findings: usize,
    pub high_confidence: usize,
    pub medium_confidence: usize,
    pub low_confidence: usize,
    pub needs_owner_review: usize,
    pub suggested_review_order: Vec<String>,
    pub findings: Vec<DriftOwnershipFinding>,
    pub limitations: Vec<String>,
}

/// View of [`DriftOwnershipReport`].
#[verifier::ext_equal]
pub struct DriftOwnershipReportView {
    pub ok: bool,
    pub read_only: bool,
    pub status: Seq<char>,
    pub active_findings: nat,
    pub high_confidence: nat,
    pub medium_confidence: nat,
    pub low_confidence: nat,
    pub needs_owner_review: nat,
    pub suggested_review_order: Seq<Seq<char>>,
    pub findings: Seq<DriftOwnershipFindingView>,
    pub limitations: Seq<Seq<char>>,
}

impl DeepView for DriftOwnershipReport {
    type V = DriftOwnershipReportView;

    open spec fn deep_view(&self) -> DriftOwnershipReportView {
        DriftOwnershipReportView {
            ok: self.ok,
            read_only: self.read_only,
            status: self.status.deep_view(),
            active_findings: self.active_findings as nat,
            high_confidence: self.high_confidence as nat,
            medium_confidence: self.medium_confidence as nat,
            low_confidence: self.low_confidence as nat,
            needs_owner_review: self.needs_owner_review as nat,
            suggested_review_order: self.suggested_review_order.deep_view(),
            findings: self.findings.deep_view(),
            limitations: self.limitations.deep_view(),
        }
    }
}

/// Evidence on who owns one resource.
#[derive(Debug)]
pub struct DriftOwnershipFinding {
    pub kind: String,
    pub code: String,
    pub target: String,
    pub confidence: String,
    pub review_action: String,
    pub suggested_action: String,
    pub service_candidates: Vec<String>,
    pub evidence: Vec<String>,
    pub resource_fingerprint: Vec<String>,
    pub exact_match_required: bool,
    pub cleanup_risk: String,
}

/// View of [`DriftOwnershipFinding`].
#[verifier::ext_equal]
pub struct DriftOwnershipFindingView {
    pub kind: Seq<char>,
    pub code: Seq<char>,
    pub target: Seq<char>,
    pub confidence: Seq<char>,
    pub review_action: Seq<char>,
    pub suggested_action: Seq<char>,
    pub service_candidates: Seq<Seq<char>>,
    pub evidence: Seq<Seq<char>>,
    pub resource_fingerprint: Seq<Seq<char>>,
    pub exact_match_required: bool,
    pub cleanup_risk: Seq<char>,
}

impl DeepView for DriftOwnershipFinding {
    type V = DriftOwnershipFindingView;

    open spec fn deep_view(&self) -> DriftOwnershipFindingView {
        DriftOwnershipFindingView {
            kind: self.kind.deep_view(),
            code: self.code.deep_view(),
            target: self.target.deep_view(),
            confidence: self.confidence.deep_view(),
            review_action: self.review_action.deep_view(),
            suggested_action: self.suggested_action.deep_view(),
            service_candidates: self.service_candidates.deep_view(),
            evidence: self.evidence.deep_view(),
            resource_fingerprint: self.resource_fingerprint.deep_view(),
            exact_match_required: self.exact_match_required,
            cleanup_risk: self.cleanup_risk.deep_view(),
        }
    }
}

impl Clone for DriftOwnershipFinding {
    fn clone(&self) -> (r: Self)
        ensures
            r.deep_view() == self.deep_view(),
    {
        DriftOwnershipFinding {
            kind: self.kind.clone(),
            code: self.code.clone(),
            target: self.target.clone(),
            confidence: self.confidence.clone(),
            review_action: self.review_action.clone(),
            suggested_action: self.suggested_action.clone(),
            service_candidates: self.service_candidates.clone(),
            evidence: self.evidence.clone(),
            resource_fingerprint: self.resource_fingerprint.clone(),
            exact_match_required: self.exact_match_required,
            cleanup_risk: self.cleanup_risk.clone(),
        }
    }
}

/// The outcome of an adoption.
#[derive(Debug)]
pub struct DriftAdoptReport {
    pub ok: bool,
    pub execute: bool,
    pub kind: String,
    pub target: String,
    pub service_id: String,
    pub status: String,
    pub reason: Option<String>,
    pub operator_note: Option<String>,
    pub review_status: String,
    pub record: Option<AdoptionRecord>,
    pub warnings: Vec<String>,
    pub limitations: Vec<String>,
    pub changed_files: Vec<String>,
    pub rollback_performed: bool,
    pub rollback_errors: Vec<String>,
    pub journal_path: Option<String>,
    pub journal_written: bool,
}

/// View of [`DriftAdoptReport`].
#[verifier::ext_equal]
pub struct DriftAdoptReportView {
    pub ok: bool,
    pub execute: bool,
    pub kind: Seq<char>,
    pub target: Seq<char>,
    pub service_id: Seq<char>,
    pub status: Seq<char>,
    pub reason: Option<Seq<char>>,
    pub operator_note: Option<Seq<char>>,
    pub review_status: Seq<char>,
    pub record: Option<AdoptionRecordView>,
    pub warnings: Seq<Seq<char>>,
    pub limitations: Seq<Seq<char>>,
    pub changed_files: Seq<Seq<char>>,
    pub rollback_performed: bool,
    pub rollback_errors: Seq<Seq<char>>,
    pub journal_path: Option<Seq<char>>,
    pub journal_written: bool,
}

impl DeepView for DriftAdoptReport {
    type V = DriftAdoptReportView;

    open spec fn deep_view(&self) -> DriftAdoptReportView {
        DriftAdoptReportView {
            ok: self.ok,
            execute: self.execute,
            kind: self.kind.deep_view(),
            target: self.target.deep_view(),
            service_id: self.service_id.deep_view(),
            status: self.status.deep_view(),
            reason: self.reason.deep_view(),
            operator_note: self.operator_note.deep_view(),
            review_status: self.review_status.deep_view(),
            record: self.record.deep_view(),
            warnings: self.warnings.deep_view(),
            limitations: self.limitations.deep_view(),
            changed_files: self.changed_files.deep_view(),
            rollback_performed: self.rollback_performed,
            rollback_errors: self.rollback_errors.deep_view(),
            journal_path: self.journal_path.deep_view(),
            journal_written: self.journal_written,
        }
    }
}

/// The outcome of a review verdict on an adopted record.
#[derive(Debug)]
pub struct DriftAdoptReviewReport {
    pub ok: bool,
    pub execute: bool,
    pub status: String,
    pub target: String,
    pub service_id: Option<String>,
    pub review_status: String,
    pub reason: Option<String>,
    pub matched_registry_records: Vec<String>,
    pub warnings: Vec<String>,
    pub limitations: Vec<String>,
    pub journal_path: Option<String>,
    pub journal_written: bool,
}

/// View of [`DriftAdoptReviewReport`].
#[verifier::ext_equal]
pub struct DriftAdoptReviewReportView {
    pub ok: bool,
    pub execute: bool,
    pub status: Seq<char>,
    pub target: Seq<char>,
    pub service_id: Option<Seq<char>>,
    pub review_status: Seq<char>,
    pub reason: Option<Seq<char>>,
    pub matched_registry_records: Seq<Seq<char>>,
    pub warnings: Seq<Seq<char>>,
    pub limitations: Seq<Seq<char>>,
    pub journal_path: Option<Seq<char>>,
    pub journal_written: bool,
}

impl DeepView for DriftAdoptReviewReport {
    type V = DriftAdoptReviewReportView;

    open spec fn deep_view(&self) -> DriftAdoptReviewReportView {
        DriftAdoptReviewReportView {
            ok: self.ok,
            execute: self.execute,
            status: self.status.deep_view(),
            target: self.target.deep_view(),
            service_id: self.service_id.deep_view(),
            review_status: self.review_status.deep_view(),
            reason: self.reason.deep_view(),
            matched_registry_records: self.matched_registry_records.deep_view(),
            warnings: self.warnings.deep_view(),
            limitations: self.limitations.deep_view(),
            journal_path: self.journal_path.deep_view(),
            journal_written: self.journal_written,
        }
    }
}

/// The outcome of registering a service.
#[derive(Debug)]
pub struct DriftServiceAddReport {
    pub ok: bool,
    pub execute: bool,
    pub status: String,
    pub service_id: String,
    pub reason: Option<String>,
    pub service: Option<Service>,
    pub warnings: Vec<String>,
    pub limitations: Vec<String>,
    pub changed_files: Vec<String>,
    pub rollback_performed: bool,
    pub rollback_errors: Vec<String>,
}

/// View of [`DriftServiceAddReport`].
#[verifier::ext_equal]
pub struct DriftServiceAddReportView {
    pub ok: bool,
    pub execute: bool,
    pub status: Seq<char>,
    pub service_id: Seq<char>,
    pub reason: Option<Seq<char>>,
    pub service: Option<ServiceView>,
    pub warnings: Seq<Seq<char>>,
    pub limitations: Seq<Seq<char>>,
    pub changed_files: Seq<Seq<char>>,
    pub rollback_performed: bool,
    pub rollback_errors: Seq<Seq<char>>,
}

impl DeepView for DriftServiceAddReport {
    type V = DriftServiceAddReportView;

    open spec fn deep_view(&self) -> DriftServiceAddReportView {
        DriftServiceAddReportView {
            ok: self.ok,
            execute: self.execute,
            status: self.status.deep_view(),
            service_id: self.service_id.deep_view(),
            reason: self.reason.deep_view(),
            service: self.service.deep_view(),
            warnings: self.warnings.deep_view(),
            limitations: self.limitations.deep_view(),
            changed_files: self.changed_files.deep_view(),
            rollback_performed: self.rollback_performed,
            rollback_errors: self.rollback_errors.deep_view(),
        }
    }
}

/// The outcome of adding an ignore rule.
#[derive(Debug)]
pub struct DriftIgnoreReport {
    pub ok: bool,
    pub execute: bool,
    pub status: String,
    pub rule: Option<DriftIgnoreRule>,
    pub matched_findings: Vec<DriftFinding>,
    pub warnings: Vec<String>,
    pub limitations: Vec<String>,
    pub changed_files: Vec<String>,
    pub rollback_performed: bool,
    pub rollback_errors: Vec<String>,
    pub journal_path: Option<String>,
    pub journal_written: bool,
}

/// View of [`DriftIgnoreReport`].
#[verifier::ext_equal]
pub struct DriftIgnoreReportView {
    pub ok: bool,
    pub execute: bool,
    pub status: Seq<char>,
    pub rule: Option<DriftIgnoreRuleView>,
    pub matched_findings: Seq<DriftFindingView>,
    pub warnings: Seq<Seq<char>>,
    pub limitations: Seq<Seq<char>>,
    pub changed_files: Seq<Seq<char>>,
    pub rollback_performed: bool,
    pub rollback_errors: Seq<Seq<char>>,
    pub journal_path: Option<Seq<char>>,
    pub journal_written: bool,
}

impl DeepView for DriftIgnoreReport {
    type V = DriftIgnoreReportView;

    open spec fn deep_view(&self) -> DriftIgnoreReportView {
        DriftIgnoreReportView {
            ok: self.ok,
            execute: self.execute,
            status: self.status.deep_view(),
            rule: self.rule.deep_view(),
            matched_findings: self.matched_findings.deep_view(),
            warnings: self.warnings.deep_view(),
            limitations: self.limitations.deep_view(),
            changed_files: self.changed_files.deep_view(),
            rollback_performed: self.rollback_performed,
            rollback_errors: self.rollback_errors.deep_view(),
            journal_path: self.journal_path.deep_view(),
            journal_written: self.journal_written,
        }
    }
}

/// A review document that an operator edits.
#[derive(Debug)]
pub struct DriftReviewDocument {
    pub schema_version: String,
    pub generated_at: Option<String>,
    pub groups: Vec<DriftReviewGroupDocument>,
}

/// View of [`DriftReviewDocument`].
#[verifier::ext_equal]
pub struct DriftReviewDocumentView {
    pub schema_version: Seq<char>,
    pub generated_at: Option<Seq<char>>,
    pub groups: Seq<DriftReviewGroupDocumentView>,
}

impl DeepView for DriftReviewDocument {
    type V = DriftReviewDocumentView;

    open spec fn deep_view(&self) -> DriftReviewDocumentView {
        DriftReviewDocumentView {
            schema_version: self.schema_version.deep_view(),
            generated_at: self.generated_at.deep_view(),
            groups: self.groups.deep_view(),
        }
    }
}

impl Clone for DriftReviewDocument {
    fn clone(&self) -> (r: Self)
        ensures
            r.deep_view() == self.deep_view(),
    {
        DriftReviewDocument {
            schema_version: self.schema_version.clone(),
            generated_at: self.generated_at.clone(),
            groups: self.groups.clone(),
        }
    }
}

/// A group of a review document.
#[derive(Debug)]
pub struct DriftReviewGroupDocument {
    pub kind: String,
    pub group: String,
    pub active: usize,
    pub ignored: usize,
    pub suggested_next_step: String,
    pub items: Vec<DriftReviewItemDocument>,
}

/// View of [`DriftReviewGroupDocument`].
#[verifier::ext_equal]
pub struct DriftReviewGroupDocumentView {
    pub kind: Seq<char>,
    pub group: Seq<char>,
    pub active: nat,
    pub ignored: nat,
    pub suggested_next_step: Seq<char>,
    pub items: Seq<DriftReviewItemDocumentView>,
}

impl DeepView for DriftReviewGroupDocument {
    type V = DriftReviewGroupDocumentView;

    open spec fn deep_view(&self) -> DriftReviewGroupDocumentView {
        DriftReviewGroupDocumentView {
            kind: self.kind.deep_view(),
            group: self.group.deep_view(),
            active: self.active as nat,
            ignored: self.ignored as nat,
            suggested_next_step: self.suggested_next_step.deep_view(),
            items: self.items.deep_view(),
        }
    }
}

impl Clone for DriftReviewGroupDocument {
    fn clone(&self) -> (r: Self)
        ensures
            r.deep_view() == self.deep_view(),
    {
        DriftReviewGroupDocument {
            kind: self.kind.clone(),
            group: self.group.clone(),
            active: self.active,
            ignored: self.ignored,
            suggested_next_step: self.suggested_next_step.clone(),
            items: self.items.clone(),
        }
    }
}

/// One item of a review document.
#[derive(Debug)]
pub struct DriftReviewItemDocument {
    pub code: String,
    pub kind: String,
    pub target: String,
    pub action: String,
    pub confidence: Option<String>,
    pub review_action: Option<String>,
    pub reason: Option<String>,
    pub service_id: Option<String>,
    pub service_candidates: Vec<String>,
    pub exposure: Option<String>,
    pub purpose: Option<String>,
    pub owner: Option<String>,
    pub expires_at: Option<String>,
    pub review_status: Option<String>,
    pub operator_note: Option<String>,
    pub cleanup_note: Option<String>,
    pub cleanup_risk: Option<String>,
    pub exact_match_required: Option<bool>,
    pub resource_fingerprint: Vec<String>,
    pub ownership_evidence: Vec<String>,
}

/// View of [`DriftReviewItemDocument`].
#[verifier::ext_equal]
pub struct DriftReviewItemDocumentView {
    pub code: Seq<char>,
    pub kind: Seq<char>,
    pub target: Seq<char>,
    pub action: Seq<char>,
    pub confidence: Option<Seq<char>>,
    pub review_action: Option<Seq<char>>,
    pub reason: Option<Seq<char>>,
    pub service_id: Option<Seq<char>>,
    pub service_candidates: Seq<Seq<char>>,
    pub exposure: Option<Seq<char>>,
    pub purpose: Option<Seq<char>>,
    pub owner: Option<Seq<char>>,
    pub expires_at: Option<Seq<char>>,
    pub review_status: Option<Seq<char>>,
    pub operator_note: Option<Seq<char>>,
    pub cleanup_note: Option<Seq<char>>,
    pub cleanup_risk: Option<Seq<char>>,
    pub exact_match_required: Option<bool>,
    pub resource_fingerprint: Seq<Seq<char>>,
    pub ownership_evidence: Seq<Seq<char>>,
}

impl DeepView for DriftReviewItemDocument {
    type V = DriftReviewItemDocumentView;

    open spec fn deep_view(&self) -> DriftReviewItemDocumentView {
        DriftReviewItemDocumentView {
            code: self.code.deep_view(),
            kind: self.kind.deep_view(),
            target: self.target.deep_view(),
            action: self.action.deep_view(),
            confidence: self.confidence.deep_view(),
            review_action: self.review_action.deep_view(),
            reason: self.reason.deep_view(),
            service_id: self.service_id.deep_view(),
            service_candidates: self.service_candidates.deep_view(),
            exposure: self.exposure.deep_view(),
            purpose: self.purpose.deep_view(),
            owner: self.owner.deep_view(),
            expires_at: self.expires_at.deep_view(),
            review_status: self.review_status.deep_view(),
            operator_note: self.operator_note.deep_view(),
            cleanup_note: self.cleanup_note.deep_view(),
            cleanup_risk: self.cleanup_risk.deep_view(),
            exact_match_required: self.exact_match_required.deep_view(),
            resource_fingerprint: self.resource_fingerprint.deep_view(),
            ownership_evidence: self.ownership_evidence.deep_view(),
        }
    }
}

impl Clone for DriftReviewItemDocument {
    fn clone(&self) -> (r: Self)
        ensures
            r.deep_view() == self.deep_view(),
    {
        DriftReviewItemDocument {
            code: self.code.clone(),
            kind: self.kind.clone(),
            target: self.target.clone(),
            action: self.action.clone(),
            confidence: self.confidence.clone(),
            review_action: self.review_action.clone(),
            reason: self.reason.clone(),
            service_id: self.service_id.clone(),
            service_candidates: self.service_candidates.clone(),
            exposure: self.exposure.clone(),
            purpose: self.purpose.clone(),
            owner: self.owner.clone(),
            expires_at: self.expires_at.clone(),
            review_status: self.review_status.clone(),
            operator_note: self.operator_note.clone(),
            cleanup_note: self.cleanup_note.clone(),
            cleanup_risk: self.cleanup_risk.clone(),
            exact_match_required: self.exact_match_required.clone(),
            resource_fingerprint: self.resource_fingerprint.clone(),
            ownership_evidence: self.ownership_evidence.clone(),
        }
    }
}

/// An exported review document with its counts.
#[derive(Debug)]
pub struct DriftReviewExportReport {
    pub ok: bool,
    pub read_only: bool,
    pub review: DriftReviewDocument,
    pub active_findings: usize,
    pub ignored_findings: usize,
    pub groups: usize,
    pub items: usize,
    pub limitations: Vec<String>,
}

/// View of [`DriftReviewExportReport`].
#[verifier::ext_equal]
pub struct DriftReviewExportReportView {
    pub ok: bool,
    pub read_only: bool,
    pub review: DriftReviewDocumentView,
    pub active_findings: nat,
    pub ignored_findings: nat,
    pub groups: nat,
    pub items: nat,
    pub limitations: Seq<Seq<char>>,
}

impl DeepView for DriftReviewExportReport {
    type V = DriftReviewExportReportView;

    open spec fn deep_view(&self) -> DriftReviewExportReportView {
        DriftReviewExportReportView {
            ok: self.ok,
            read_only: self.read_only,
            review: self.review.deep_view(),
            active_findings: self.active_findings as nat,
            ignored_findings: self.ignored_findings as nat,
            groups: self.groups as nat,
            items: self.items as nat,
            limitations: self.limitations.deep_view(),
        }
    }
}

/// The outcome of applying a review document.
#[derive(Debug)]
pub struct DriftReviewApplyReport {
    pub ok: bool,
    pub execute: bool,
    pub status: String,
    pub review_file: String,
    pub total_items: usize,
    pub planned: usize,
    pub applied: usize,
    pub skipped: usize,
    pub blocked: usize,
    pub cleanup_candidates: usize,
    pub entries: Vec<DriftReviewApplyEntry>,
    pub changed_files: Vec<String>,
    pub journal_paths: Vec<String>,
    pub limitations: Vec<String>,
}

/// View of [`DriftReviewApplyReport`].
#[verifier::ext_equal]
pub struct DriftReviewApplyReportView {
    pub ok: bool,
    pub execute: bool,
    pub status: Seq<char>,
    pub review_file: Seq<char>,
    pub total_items: nat,
    pub planned: nat,
    pub applied: nat,
    pub skipped: nat,
    pub blocked: nat,
    pub cleanup_candidates: nat,
    pub entries: Seq<DriftReviewApplyEntryView>,
    pub changed_files: Seq<Seq<char>>,
    pub journal_paths: Seq<Seq<char>>,
    pub limitations: Seq<Seq<char>>,
}

impl DeepView for DriftReviewApplyReport {
    type V = DriftReviewApplyReportView;

    open spec fn deep_view(&self) -> DriftReviewApplyReportView {
        DriftReviewApplyReportView {
            ok: self.ok,
            execute: self.execute,
            status: self.status.deep_view(),
            review_file: self.review_file.deep_view(),
            total_items: self.total_items as nat,
            planned: self.planned as nat,
            applied: self.applied as nat,
            skipped: self.skipped as nat,
            blocked: self.blocked as nat,
            cleanup_candidates: self.cleanup_candidates as nat,
            entries: self.entries.deep_view(),
            changed_files: self.changed_files.deep_view(),
            journal_paths: self.journal_paths.deep_view(),
            limitations: self.limitations.deep_view(),
        }
    }
}

/// The outcome of applying one reviewed item.
#[derive(Debug)]
pub struct DriftReviewApplyEntry {
    pub group: String,
    pub kind: String,
    pub target: String,
    pub action: String,
    pub status: String,
    pub command: Option<String>,
    pub diff: Vec<String>,
    pub changed_files: Vec<String>,
    pub journal_path: Option<String>,
    pub warnings: Vec<String>,
    pub limitations: Vec<String>,
}

/// View of [`DriftReviewApplyEntry`].
#[verifier::ext_equal]
pub struct DriftReviewApplyEntryView {
    pub group: Seq<char>,
    pub kind: Seq<char>,
    pub target: Seq<char>,
    pub action: Seq<char>,
    pub status: Seq<char>,
    pub command: Option<Seq<char>>,
    pub diff: Seq<Seq<char>>,
    pub changed_files: Seq<Seq<char>>,
    pub journal_path: Option<Seq<char>>,
    pub warnings: Seq<Seq<char>>,
    pub limitations: Seq<Seq<char>>,
}

impl DeepView for DriftReviewApplyEntry {
    type V = DriftReviewApplyEntryView;

    open spec fn deep_view(&self) -> DriftReviewApplyEntryView {
        DriftReviewApplyEntryView {
            group: self.group.deep_view(),
            kind: self.kind.deep_view(),
            target: self.target.deep_view(),
            action: self.action.deep_view(),
            status: self.status.deep_view(),
            command: self.command.deep_view(),
            diff: self.diff.deep_view(),
            changed_files: self.changed_files.deep_view(),
            journal_path: self.journal_path.deep_view(),
            warnings: self.warnings.deep_view(),
            limitations: self.limitations.deep_view(),
        }
    }
}

impl Clone for DriftReviewApplyEntry {
    fn clone(&self) -> (r: Self)
        ensures
            r.deep_view() == self.deep_view(),
    {
        DriftReviewApplyEntry {
            group: self.group.clone(),
            kind: self.kind.clone(),
            target: self.target.clone(),
            action: self.action.clone(),
            status: self.status.clone(),
            command: self.command.clone(),
            diff: self.diff.clone(),
            changed_files: self.changed_files.clone(),
            journal_path: self.journal_path.clone(),
            warnings: self.warnings.clone(),
            limitations: self.limitations.clone(),
        }
    }
}

/// The resources that may be cleaned up.
#[derive(Debug)]
pub struct DriftCleanupPlanReport {
    pub ok: bool,
    pub read_only: bool,
    pub status: String,
    pub candidates: Vec<DriftCleanupCandidate>,
    pub limitations: Vec<String>,
}

/// View of [`DriftCleanupPlanReport`].
#[verifier::ext_equal]
pub struct DriftCleanupPlanReportView {
    pub ok: bool,
    pub read_only: bool,
    pub status: Seq<char>,
    pub candidates: Seq<DriftCleanupCandidateView>,
    pub limitations: Seq<Seq<char>>,
}

impl DeepView for DriftCleanupPlanReport {
    type V = DriftCleanupPlanReportView;

    open spec fn deep_view(&self) -> DriftCleanupPlanReportView {
        DriftCleanupPlanReportView {
            ok: self.ok,
            read_only: self.read_only,
            status: self.status.deep_view(),
            candidates: self.candidates.deep_view(),
            limitations: self.limitations.deep_view(),
        }
    }
}

/// A resource that may be cleaned up.
#[derive(Debug)]
pub struct DriftCleanupCandidate {
    pub kind: String,
    pub target: String,
    pub code: String,
    pub risk: String,
    pub running: Option<bool>,
    pub public_bind: Option<bool>,
    pub data_risk: Option<String>,
    pub observed_status: Option<String>,
    pub suggested_action: String,
    pub destructive_command_generated: bool,
    pub rationale: String,
}

/// View of [`DriftCleanupCandidate`].
#[verifier::ext_equal]
pub struct DriftCleanupCandidateView {
    pub kind: Seq<char>,
    pub target: Seq<char>,
    pub code: Seq<char>,
    pub risk: Seq<char>,
    pub running: Option<bool>,
    pub public_bind: Option<bool>,
    pub data_risk: Option<Seq<char>>,
    pub observed_status: Option<Seq<char>>,
    pub suggested_action: Seq<char>,
    pub destructive_command_generated: bool,
    pub rationale: Seq<char>,
}

impl DeepView for DriftCleanupCandidate {
    type V = DriftCleanupCandidateView;

    open spec fn deep_view(&self) -> DriftCleanupCandidateView {
        DriftCleanupCandidateView {
            kind: self.kind.deep_view(),
            target: self.target.deep_view(),
            code: self.code.deep_view(),
            risk: self.risk.deep_view(),
            running: self.running.deep_view(),
            public_bind: self.public_bind.deep_view(),
            data_risk: self.data_risk.deep_view(),
            observed_status: self.observed_status.deep_view(),
            suggested_action: self.suggested_action.deep_view(),
            destructive_command_generated: self.destructive_command_generated,
            rationale: self.rationale.deep_view(),
        }
    }
}

impl Clone for DriftCleanupCandidate {
    fn clone(&self) -> (r: Self)
        ensures
            r.deep_view() == self.deep_view(),
    {
        DriftCleanupCandidate {
            kind: self.kind.clone(),
            target: self.target.clone(),
            code: self.code.clone(),
            risk: self.risk.clone(),
            running: self.running.clone(),
            public_bind: self.public_bind.clone(),
            data_risk: self.data_risk.clone(),
            observed_status: self.observed_status.clone(),
            suggested_action: self.suggested_action.clone(),
            destructive_command_generated: self.destructive_command_generated,
            rationale: self.rationale.clone(),
        }
    }
}

/// A cleanup request that an operator reviews.
#[derive(Debug)]
pub struct DriftCleanupRequestDocument {
    pub schema_version: String,
    pub generated_at: Option<String>,
    pub source_active_findings: usize,
    pub source_candidates: usize,
    pub items: Vec<DriftCleanupRequestItem>,
}

/// View of [`DriftCleanupRequestDocument`].
#[verifier::ext_equal]
pub struct DriftCleanupRequestDocumentView {
    pub schema_version: Seq<char>,
    pub generated_at: Option<Seq<char>>,
    pub source_active_findings: nat,
    pub source_candidates: nat,
    pub items: Seq<DriftCleanupRequestItemView>,
}

impl DeepView for DriftCleanupRequestDocument {
    type V = DriftCleanupRequestDocumentView;

    open spec fn deep_view(&self) -> DriftCleanupRequestDocumentView {
        DriftCleanupRequestDocumentView {
            schema_version: self.schema_version.deep_view(),
            generated_at: self.generated_at.deep_view(),
            source_active_findings: self.source_active_findings as nat,
            source_candidates: self.source_candidates as nat,
            items: self.items.deep_view(),
        }
    }
}

impl Clone for DriftCleanupRequestDocument {
    fn clone(&self) -> (r: Self)
        ensures
            r.deep_view() == self.deep_view(),
    {
        DriftCleanupRequestDocument {
            schema_version: self.schema_version.clone(),
            generated_at: self.generated_at.clone(),
            source_active_findings: self.source_active_findings,
            source_candidates: self.source_candidates,
            items: self.items.clone(),
        }
    }
}

/// One resource of a cleanup request with its review fields.
#[derive(Debug)]
pub struct DriftCleanupRequestItem {
    pub request_id: String,
    pub kind: String,
    pub target: String,
    pub code: String,
    pub risk: String,
    pub running: Option<bool>,
    pub public_bind: Option<bool>,
    pub data_risk: Option<String>,
    pub observed_status: Option<String>,
    pub planned_action: String,
    pub approval_status: String,
    pub owner: Option<String>,
    pub reason: Option<String>,
    pub operator_note: Option<String>,
    pub cleanup_strategy: Option<String>,
    pub exact_resource_id: Option<String>,
    pub backup_snapshot_id: Option<String>,
    pub restore_drill_id: Option<String>,
    pub maintenance_window: Option<String>,
    pub rollback_plan: Option<String>,
    pub approval_expires_at: Option<String>,
    pub collected_evidence: Vec<String>,
    pub evidence_collected_at: Option<String>,
    pub destructive_command_generated: bool,
    pub rationale: String,
}

/// View of [`DriftCleanupRequestItem`].
#[verifier::ext_equal]
pub struct DriftCleanupRequestItemView {
    pub request_id: Seq<char>,
    pub kind: Seq<char>,
    pub target: Seq<char>,
    pub code: Seq<char>,
    pub risk: Seq<char>,
    pub running: Option<bool>,
    pub public_bind: Option<bool>,
    pub data_risk: Option<Seq<char>>,
    pub observed_status: Option<Seq<char>>,
    pub planned_action: Seq<char>,
    pub approval_status: Seq<char>,
    pub owner: Option<Seq<char>>,
    pub reason: Option<Seq<char>>,
    pub operator_note: Option<Seq<char>>,
    pub cleanup_strategy: Option<Seq<char>>,
    pub exact_resource_id: Option<Seq<char>>,
    pub backup_snapshot_id: Option<Seq<char>>,
    pub restore_drill_id: Option<Seq<char>>,
    pub maintenance_window: Option<Seq<char>>,
    pub rollback_plan: Option<Seq<char>>,
    pub approval_expires_at: Option<Seq<char>>,
    pub collected_evidence: Seq<Seq<char>>,
    pub evidence_collected_at: Option<Seq<char>>,
    pub destructive_command_generated: bool,
    pub rationale: Seq<char>,
}

impl DeepView for DriftCleanupRequestItem {
    type V = DriftCleanupRequestItemView;

    open spec fn deep_view(&self) -> DriftCleanupRequestItemView {
        DriftCleanupRequestItemView {
            request_id: self.request_id.deep_view(),
            kind: self.kind.deep_view(),
            target: self.target.deep_view(),
            code: self.code.deep_view(),
            risk: self.risk.deep_view(),
            running: self.running.deep_view(),
            public_bind: self.public_bind.deep_view(),
            data_risk: self.data_risk.deep_view(),
            observed_status: self.observed_status.deep_view(),
            planned_action: self.planned_action.deep_view(),
            approval_status: self.approval_status.deep_view(),
            owner: self.owner.deep_view(),
            reason: self.reason.deep_view(),
            operator_note: self.operator_note.deep_view(),
            cleanup_strategy: self.cleanup_strategy.deep_view(),
            exact_resource_id: self.exact_resource_id.deep_view(),
            backup_snapshot_id: self.backup_snapshot_id.deep_view(),
            restore_drill_id: self.restore_drill_id.deep_view(),
            maintenance_window: self.maintenance_window.deep_view(),
            rollback_plan: self.rollback_plan.deep_view(),
            approval_expires_at: self.approval_expires_at.deep_view(),
            collected_evidence: self.collected_evidence.deep_view(),
            evidence_collected_at: self.evidence_collected_at.deep_view(),
            destructive_command_generated: self.destructive_command_generated,
            rationale: self.rationale.deep_view(),
        }
    }
}

impl Clone for DriftCleanupRequestItem {
    fn clone(&self) -> (r: Self)
        ensures
            r.deep_view() == self.deep_view(),
    {
        DriftCleanupRequestItem {
            request_id: self.request_id.clone(),
            kind: self.kind.clone(),
            target: self.target.clone(),
            code: self.code.clone(),
            risk: self.risk.clone(),
            running: self.running.clone(),
            public_bind: self.public_bind.clone(),
            data_risk: self.data_risk.clone(),
            observed_status: self.observed_status.clone(),
            planned_action: self.planned_action.clone(),
            approval_status: self.approval_status.clone(),
            owner: self.owner.clone(),
            reason: self.reason.clone(),
            operator_note: self.operator_note.clone(),
            cleanup_strategy: self.cleanup_strategy.clone(),
            exact_resource_id: self.exact_resource_id.clone(),
            backup_snapshot_id: self.backup_snapshot_id.clone(),
            restore_drill_id: self.restore_drill_id.clone(),
            maintenance_window: self.maintenance_window.clone(),
            rollback_plan: self.rollback_plan.clone(),
            approval_expires_at: self.approval_expires_at.clone(),
            collected_evidence: self.collected_evidence.clone(),
            evidence_collected_at: self.evidence_collected_at.clone(),
            destructive_command_generated: self.destructive_command_generated,
            rationale: self.rationale.clone(),
        }
    }
}

/// An exported cleanup request.
#[derive(Debug)]
pub struct DriftCleanupRequestExportReport {
    pub ok: bool,
    pub read_only: bool,
    pub request: DriftCleanupRequestDocument,
    pub candidates: usize,
    pub limitations: Vec<String>,
}

/// View of [`DriftCleanupRequestExportReport`].
#[verifier::ext_equal]
pub struct DriftCleanupRequestExportReportView {
    pub ok: bool,
    pub read_only: bool,
    pub request: DriftCleanupRequestDocumentView,
    pub candidates: nat,
    pub limitations: Seq<Seq<char>>,
}

impl DeepView for DriftCleanupRequestExportReport {
    type V = DriftCleanupRequestExportReportView;

    open spec fn deep_view(&self) -> DriftCleanupRequestExportReportView {
        DriftCleanupRequestExportReportView {
            ok: self.ok,
            read_only: self.read_only,
            request: self.request.deep_view(),
            candidates: self.candidates as nat,
            limitations: self.limitations.deep_view(),
        }
    }
}

/// Whether a cleanup request is well formed.
#[derive(Debug)]
pub struct DriftCleanupRequestVerifyReport {
    pub ok: bool,
    pub read_only: bool,
    pub status: String,
    pub request_file: String,
    pub total_items: usize,
    pub approved: usize,
    pub rejected: usize,
    pub needs_cleanup: usize,
    pub unknown: usize,
    pub high_risk: usize,
    pub public_bind: usize,
    pub data_risk: usize,
    pub destructive_command_generated: bool,
    pub entries: Vec<DriftCleanupRequestVerifyEntry>,
    pub limitations: Vec<String>,
}

/// View of [`DriftCleanupRequestVerifyReport`].
#[verifier::ext_equal]
pub struct DriftCleanupRequestVerifyReportView {
    pub ok: bool,
    pub read_only: bool,
    pub status: Seq<char>,
    pub request_file: Seq<char>,
    pub total_items: nat,
    pub approved: nat,
    pub rejected: nat,
    pub needs_cleanup: nat,
    pub unknown: nat,
    pub high_risk: nat,
    pub public_bind: nat,
    pub data_risk: nat,
    pub destructive_command_generated: bool,
    pub entries: Seq<DriftCleanupRequestVerifyEntryView>,
    pub limitations: Seq<Seq<char>>,
}

impl DeepView for DriftCleanupRequestVerifyReport {
    type V = DriftCleanupRequestVerifyReportView;

    open spec fn deep_view(&self) -> DriftCleanupRequestVerifyReportView {
        DriftCleanupRequestVerifyReportView {
            ok: self.ok,
            read_only: self.read_only,
            status: self.status.deep_view(),
            request_file: self.request_file.deep_view(),
            total_items: self.total_items as nat,
            approved: self.approved as nat,
            rejected: self.rejected as nat,
            needs_cleanup: self.needs_cleanup as nat,
            unknown: self.unknown as nat,
            high_risk: self.high_risk as nat,
            public_bind: self.public_bind as nat,
            data_risk: self.data_risk as nat,
            destructive_command_generated: self.destructive_command_generated,
            entries: self.entries.deep_view(),
            limitations: self.limitations.deep_view(),
        }
    }
}

/// Whether one item of a cleanup request is well formed.
#[derive(Debug)]
pub struct DriftCleanupRequestVerifyEntry {
    pub request_id: String,
    pub kind: String,
    pub target: String,
    pub approval_status: String,
    pub risk: String,
    pub status: String,
    pub warnings: Vec<String>,
    pub limitations: Vec<String>,
}

/// View of [`DriftCleanupRequestVerifyEntry`].
#[verifier::ext_equal]
pub struct DriftCleanupRequestVerifyEntryView {
    pub request_id: Seq<char>,
    pub kind: Seq<char>,
    pub target: Seq<char>,
    pub approval_status: Seq<char>,
    pub risk: Seq<char>,
    pub status: Seq<char>,
    pub warnings: Seq<Seq<char>>,
    pub limitations: Seq<Seq<char>>,
}

impl DeepView for DriftCleanupRequestVerifyEntry {
    type V = DriftCleanupRequestVerifyEntryView;

    open spec fn deep_view(&self) -> DriftCleanupRequestVerifyEntryView {
        DriftCleanupRequestVerifyEntryView {
            request_id: self.request_id.deep_view(),
            kind: self.kind.deep_view(),
            target: self.target.deep_view(),
            approval_status: self.approval_status.deep_view(),
            risk: self.risk.deep_view(),
            status: self.status.deep_view(),
            warnings: self.warnings.deep_view(),
            limitations: self.limitations.deep_view(),
        }
    }
}

impl Clone for DriftCleanupRequestVerifyEntry {
    fn clone(&self) -> (r: Self)
        ensures
            r.deep_view() == self.deep_view(),
    {
        DriftCleanupRequestVerifyEntry {
            request_id: self.request_id.clone(),
            kind: self.kind.clone(),
            target: self.target.clone(),
            approval_status: self.approval_status.clone(),
            risk: self.risk.clone(),
            status: self.status.clone(),
            warnings: self.warnings.clone(),
            limitations: self.limitations.clone(),
        }
    }
}

/// The state of drift governance and what to do next.
#[derive(Debug)]
pub struct DriftGovernanceReport {
    pub ok: bool,
    pub read_only: bool,
    pub status: String,
    pub human_decision_required: bool,
    pub active_findings: usize,
    pub ignored_findings: usize,
    pub groups: usize,
    pub cleanup_candidates: usize,
    pub adopt_suggestions: usize,
    pub ignore_suggestions: usize,
    pub cleanup_suggestions: usize,
    pub unknown_suggestions: usize,
    pub public_cleanup_candidates: usize,
    pub data_risk_cleanup_candidates: usize,
    pub high_risk_cleanup_candidates: usize,
    pub priority_groups: Vec<DriftGovernancePriorityGroup>,
    pub review_workflow: Vec<DriftGovernanceWorkflowStep>,
    pub safe_commands: Vec<String>,
    pub suggested_next_actions: Vec<String>,
    pub limitations: Vec<String>,
}

/// View of [`DriftGovernanceReport`].
#[verifier::ext_equal]
pub struct DriftGovernanceReportView {
    pub ok: bool,
    pub read_only: bool,
    pub status: Seq<char>,
    pub human_decision_required: bool,
    pub active_findings: nat,
    pub ignored_findings: nat,
    pub groups: nat,
    pub cleanup_candidates: nat,
    pub adopt_suggestions: nat,
    pub ignore_suggestions: nat,
    pub cleanup_suggestions: nat,
    pub unknown_suggestions: nat,
    pub public_cleanup_candidates: nat,
    pub data_risk_cleanup_candidates: nat,
    pub high_risk_cleanup_candidates: nat,
    pub priority_groups: Seq<DriftGovernancePriorityGroupView>,
    pub review_workflow: Seq<DriftGovernanceWorkflowStepView>,
    pub safe_commands: Seq<Seq<char>>,
    pub suggested_next_actions: Seq<Seq<char>>,
    pub limitations: Seq<Seq<char>>,
}

impl DeepView for DriftGovernanceReport {
    type V = DriftGovernanceReportView;

    open spec fn deep_view(&self) -> DriftGovernanceReportView {
        DriftGovernanceReportView {
            ok: self.ok,
            read_only: self.read_only,
            status: self.status.deep_view(),
            human_decision_required: self.human_decision_required,
            active_findings: self.active_findings as nat,
            ignored_findings: self.ignored_findings as nat,
            groups: self.groups as nat,
            cleanup_candidates: self.cleanup_candidates as nat,
            adopt_suggestions: self.adopt_suggestions as nat,
            ignore_suggestions: self.ignore_suggestions as nat,
            cleanup_suggestions: self.cleanup_suggestions as nat,
            unknown_suggestions: self.unknown_suggestions as nat,
            public_cleanup_candidates: self.public_cleanup_candidates as nat,
            data_risk_cleanup_candidates: self.data_risk_cleanup_candidates as nat,
            high_risk_cleanup_candidates: self.high_risk_cleanup_candidates as nat,
            priority_groups: self.priority_groups.deep_view(),
            review_workflow: self.review_workflow.deep_view(),
            safe_commands: self.safe_commands.deep_view(),
            suggested_next_actions: self.suggested_next_actions.deep_view(),
            limitations: self.limitations.deep_view(),
        }
    }
}

/// A group that deserves attention first.
#[derive(Debug)]
pub struct DriftGovernancePriorityGroup {
    pub kind: String,
    pub group: String,
    pub active: usize,
    pub ignored: usize,
    pub suggested_next_step: String,
    pub risk_hint: String,
    pub sample_targets: Vec<String>,
}

/// View of [`DriftGovernancePriorityGroup`].
#[verifier::ext_equal]
pub struct DriftGovernancePriorityGroupView {
    pub kind: Seq<char>,
    pub group: Seq<char>,
    pub active: nat,
    pub ignored: nat,
    pub suggested_next_step: Seq<char>,
    pub risk_hint: Seq<char>,
    pub sample_targets: Seq<Seq<char>>,
}

impl DeepView for DriftGovernancePriorityGroup {
    type V = DriftGovernancePriorityGroupView;

    open spec fn deep_view(&self) -> DriftGovernancePriorityGroupView {
        DriftGovernancePriorityGroupView {
            kind: self.kind.deep_view(),
            group: self.group.deep_view(),
            active: self.active as nat,
            ignored: self.ignored as nat,
            suggested_next_step: self.suggested_next_step.deep_view(),
            risk_hint: self.risk_hint.deep_view(),
            sample_targets: self.sample_targets.deep_view(),
        }
    }
}

impl Clone for DriftGovernancePriorityGroup {
    fn clone(&self) -> (r: Self)
        ensures
            r.deep_view() == self.deep_view(),
    {
        DriftGovernancePriorityGroup {
            kind: self.kind.clone(),
            group: self.group.clone(),
            active: self.active,
            ignored: self.ignored,
            suggested_next_step: self.suggested_next_step.clone(),
            risk_hint: self.risk_hint.clone(),
            sample_targets: self.sample_targets.clone(),
        }
    }
}

/// One step of the review workflow.
#[derive(Debug)]
pub struct DriftGovernanceWorkflowStep {
    pub order: u32,
    pub name: String,
    pub command: String,
    pub writes_registry: bool,
    pub requires_execute: bool,
    pub human_decision_required: bool,
    pub detail: String,
}

/// View of [`DriftGovernanceWorkflowStep`].
#[verifier::ext_equal]
pub struct DriftGovernanceWorkflowStepView {
    pub order: u32,
    pub name: Seq<char>,
    pub command: Seq<char>,
    pub writes_registry: bool,
    pub requires_execute: bool,
    pub human_decision_required: bool,
    pub detail: Seq<char>,
}

impl DeepView for DriftGovernanceWorkflowStep {
    type V = DriftGovernanceWorkflowStepView;

    open spec fn deep_view(&self) -> DriftGovernanceWorkflowStepView {
        DriftGovernanceWorkflowStepView {
            order: self.order,
            name: self.name.deep_view(),
            command: self.command.deep_view(),
            writes_registry: self.writes_registry,
            requires_execute: self.requires_execute,
            human_decision_required: self.human_decision_required,
            detail: self.detail.deep_view(),
        }
    }
}

impl Clone for DriftGovernanceWorkflowStep {
    fn clone(&self) -> (r: Self)
        ensures
            r.deep_view() == self.deep_view(),
    {
        DriftGovernanceWorkflowStep {
            order: self.order,
            name: self.name.clone(),
            command: self.command.clone(),
            writes_registry: self.writes_registry,
            requires_execute: self.requires_execute,
            human_decision_required: self.human_decision_required,
            detail: self.detail.clone(),
        }
    }
}

/// Progress, approvals and execution plan of a cleanup request.
#[derive(Debug)]
pub struct DriftCleanupDashboardReport {
    pub ok: bool,
    pub read_only: bool,
    pub status: String,
    pub request_file: String,
    pub progress: DriftCleanupProgressReport,
    pub approval_summary: DriftCleanupApprovalSummaryReport,
    pub execution_plan: DriftCleanupExecutionPlanReport,
    pub runbook_status: String,
    pub runbook_ready_steps: usize,
    pub next_actions: Vec<String>,
    pub limitations: Vec<String>,
}

/// View of [`DriftCleanupDashboardReport`].
#[verifier::ext_equal]
pub struct DriftCleanupDashboardReportView {
    pub ok: bool,
    pub read_only: bool,
    pub status: Seq<char>,
    pub request_file: Seq<char>,
    pub progress: DriftCleanupProgressReportView,
    pub approval_summary: DriftCleanupApprovalSummaryReportView,
    pub execution_plan: DriftCleanupExecutionPlanReportView,
    pub runbook_status: Seq<char>,
    pub runbook_ready_steps: nat,
    pub next_actions: Seq<Seq<char>>,
    pub limitations: Seq<Seq<char>>,
}

impl DeepView for DriftCleanupDashboardReport {
    type V = DriftCleanupDashboardReportView;

    open spec fn deep_view(&self) -> DriftCleanupDashboardReportView {
        DriftCleanupDashboardReportView {
            ok: self.ok,
            read_only: self.read_only,
            status: self.status.deep_view(),
            request_file: self.request_file.deep_view(),
            progress: self.progress.deep_view(),
            approval_summary: self.approval_summary.deep_view(),
            execution_plan: self.execution_plan.deep_view(),
            runbook_status: self.runbook_status.deep_view(),
            runbook_ready_steps: self.runbook_ready_steps as nat,
            next_actions: self.next_actions.deep_view(),
            limitations: self.limitations.deep_view(),
        }
    }
}

/// The items of a cleanup request to work on next.
#[derive(Debug)]
pub struct DriftCleanupWorklistReport {
    pub ok: bool,
    pub read_only: bool,
    pub status: String,
    pub request_file: String,
    pub filter_kind: Option<String>,
    pub filter_status: String,
    pub limit: usize,
    pub total_matching_items: usize,
    pub returned_items: usize,
    pub items: Vec<DriftCleanupWorklistItem>,
    pub next_actions: Vec<String>,
    pub limitations: Vec<String>,
}

/// View of [`DriftCleanupWorklistReport`].
#[verifier::ext_equal]
pub struct DriftCleanupWorklistReportView {
    pub ok: bool,
    pub read_only: bool,
    pub status: Seq<char>,
    pub request_file: Seq<char>,
    pub filter_kind: Option<Seq<char>>,
    pub filter_status: Seq<char>,
    pub limit: nat,
    pub total_matching_items: nat,
    pub returned_items: nat,
    pub items: Seq<DriftCleanupWorklistItemView>,
    pub next_actions: Seq<Seq<char>>,
    pub limitations: Seq<Seq<char>>,
}

impl DeepView for DriftCleanupWorklistReport {
    type V = DriftCleanupWorklistReportView;

    open spec fn deep_view(&self) -> DriftCleanupWorklistReportView {
        DriftCleanupWorklistReportView {
            ok: self.ok,
            read_only: self.read_only,
            status: self.status.deep_view(),
            request_file: self.request_file.deep_view(),
            filter_kind: self.filter_kind.deep_view(),
            filter_status: self.filter_status.deep_view(),
            limit: self.limit as nat,
            total_matching_items: self.total_matching_items as nat,
            returned_items: self.returned_items as nat,
            items: self.items.deep_view(),
            next_actions: self.next_actions.deep_view(),
            limitations: self.limitations.deep_view(),
        }
    }
}

/// One item to work on, with the decisions it offers.
#[derive(Debug)]
pub struct DriftCleanupWorklistItem {
    pub request_id: String,
    pub kind: String,
    pub target: String,
    pub approval_status: String,
    pub risk: String,
    pub current_candidate: bool,
    pub data_risk: Option<String>,
    pub public_bind: Option<bool>,
    pub running: Option<bool>,
    pub suggested_next_step: String,
    pub evidence: Vec<String>,
    pub required_evidence: Vec<String>,
    pub blockers: Vec<String>,
    pub decision_options: Vec<DriftCleanupDecisionOption>,
}

/// View of [`DriftCleanupWorklistItem`].
#[verifier::ext_equal]
pub struct DriftCleanupWorklistItemView {
    pub request_id: Seq<char>,
    pub kind: Seq<char>,
    pub target: Seq<char>,
    pub approval_status: Seq<char>,
    pub risk: Seq<char>,
    pub current_candidate: bool,
    pub data_risk: Option<Seq<char>>,
    pub public_bind: Option<bool>,
    pub running: Option<bool>,
    pub suggested_next_step: Seq<char>,
    pub evidence: Seq<Seq<char>>,
    pub required_evidence: Seq<Seq<char>>,
    pub blockers: Seq<Seq<char>>,
    pub decision_options: Seq<DriftCleanupDecisionOptionView>,
}

impl DeepView for DriftCleanupWorklistItem {
    type V = DriftCleanupWorklistItemView;

    open spec fn deep_view(&self) -> DriftCleanupWorklistItemView {
        DriftCleanupWorklistItemView {
            request_id: self.request_id.deep_view(),
            kind: self.kind.deep_view(),
            target: self.target.deep_view(),
            approval_status: self.approval_status.deep_view(),
            risk: self.risk.deep_view(),
            current_candidate: self.current_candidate,
            data_risk: self.data_risk.deep_view(),
            public_bind: self.public_bind.deep_view(),
            running: self.running.deep_view(),
            suggested_next_step: self.suggested_next_step.deep_view(),
            evidence: self.evidence.deep_view(),
            required_evidence: self.required_evidence.deep_view(),
            blockers: self.blockers.deep_view(),
            decision_options: self.decision_options.deep_view(),
        }
    }
}

impl Clone for DriftCleanupWorklistItem {
    fn clone(&self) -> (r: Self)
        ensures
            r.deep_view() == self.deep_view(),
    {
        DriftCleanupWorklistItem {
            request_id: self.request_id.clone(),
            kind: self.kind.clone(),
            target: self.target.clone(),
            approval_status: self.approval_status.clone(),
            risk: self.risk.clone(),
            current_candidate: self.current_candidate,
            data_risk: self.data_risk.clone(),
            public_bind: self.public_bind.clone(),
            running: self.running.clone(),
            suggested_next_step: self.suggested_next_step.clone(),
            evidence: self.evidence.clone(),
            required_evidence: self.required_evidence.clone(),
            blockers: self.blockers.clone(),
            decision_options: self.decision_options.clone(),
        }
    }
}

/// A decision that an operator may take on an item.
#[derive(Debug)]
pub struct DriftCleanupDecisionOption {
    pub action: String,
    pub command: String,
    pub writes_registry: bool,
    pub requires_execute: bool,
    pub required_fields: Vec<String>,
    pub detail: String,
}

/// View of [`DriftCleanupDecisionOption`].
#[verifier::ext_equal]
pub struct DriftCleanupDecisionOptionView {
    pub action: Seq<char>,
    pub command: Seq<char>,
    pub writes_registry: bool,
    pub requires_execute: bool,
    pub required_fields: Seq<Seq<char>>,
    pub detail: Seq<char>,
}

impl DeepView for DriftCleanupDecisionOption {
    type V = DriftCleanupDecisionOptionView;

    open spec fn deep_view(&self) -> DriftCleanupDecisionOptionView {
        DriftCleanupDecisionOptionView {
            action: self.action.deep_view(),
            command: self.command.deep_view(),
            writes_registry: self.writes_registry,
            requires_execute: self.requires_execute,
            required_fields: self.required_fields.deep_view(),
            detail: self.detail.deep_view(),
        }
    }
}

impl Clone for DriftCleanupDecisionOption {
    fn clone(&self) -> (r: Self)
        ensures
            r.deep_view() == self.deep_view(),
    {
        DriftCleanupDecisionOption {
            action: self.action.clone(),
            command: self.command.clone(),
            writes_registry: self.writes_registry,
            requires_execute: self.requires_execute,
            required_fields: self.required_fields.clone(),
            detail: self.detail.clone(),
        }
    }
}

/// Whether a cleanup request may proceed to a manual handoff.
#[derive(Debug)]
pub struct DriftCleanupExecutionGateReport {
    pub ok: bool,
    pub read_only: bool,
    pub status: String,
    pub request_file: String,
    pub auto_cleanup_supported: bool,
    pub destructive_executor_status: String,
    pub destructive_execution_supported: bool,
    pub destructive_execution_reason: String,
    pub manual_handoff_status: String,
    pub unknown: usize,
    pub needs_cleanup: usize,
    pub approved: usize,
    pub ready: usize,
    pub blocked: usize,
    pub stale_items: usize,
    pub missing_current: usize,
    pub required_steps: Vec<String>,
    pub commands: Vec<String>,
    pub limitations: Vec<String>,
}

/// View of [`DriftCleanupExecutionGateReport`].
#[verifier::ext_equal]
pub struct DriftCleanupExecutionGateReportView {
    pub ok: bool,
    pub read_only: bool,
    pub status: Seq<char>,
    pub request_file: Seq<char>,
    pub auto_cleanup_supported: bool,
    pub destructive_executor_status: Seq<char>,
    pub destructive_execution_supported: bool,
    pub destructive_execution_reason: Seq<char>,
    pub manual_handoff_status: Seq<char>,
    pub unknown: nat,
    pub needs_cleanup: nat,
    pub approved: nat,
    pub ready: nat,
    pub blocked: nat,
    pub stale_items: nat,
    pub missing_current: nat,
    pub required_steps: Seq<Seq<char>>,
    pub commands: Seq<Seq<char>>,
    pub limitations: Seq<Seq<char>>,
}

impl DeepView for DriftCleanupExecutionGateReport {
    type V = DriftCleanupExecutionGateReportView;

    open spec fn deep_view(&self) -> DriftCleanupExecutionGateReportView {
        DriftCleanupExecutionGateReportView {
            ok: self.ok,
            read_only: self.read_only,
            status: self.status.deep_view(),
            request_file: self.request_file.deep_view(),
            auto_cleanup_supported: self.auto_cleanup_supported,
            destructive_executor_status: self.destructive_executor_status.deep_view(),
            destructive_execution_supported: self.destructive_execution_supported,
            destructive_execution_reason: self.destructive_execution_reason.deep_view(),
            manual_handoff_status: self.manual_handoff_status.deep_view(),
            unknown: self.unknown as nat,
            needs_cleanup: self.needs_cleanup as nat,
            approved: self.approved as nat,
            ready: self.ready as nat,
            blocked: self.blocked as nat,
            stale_items: self.stale_items as nat,
            missing_current: self.missing_current as nat,
            required_steps: self.required_steps.deep_view(),
            commands: self.commands.deep_view(),
            limitations: self.limitations.deep_view(),
        }
    }
}

/// Which items of a cleanup request are ready.
#[derive(Debug)]
pub struct DriftCleanupExecutionPlanReport {
    pub ok: bool,
    pub read_only: bool,
    pub status: String,
    pub request_file: String,
    pub total_items: usize,
    pub approved: usize,
    pub ready: usize,
    pub needs_approval: usize,
    pub blocked: usize,
    pub skipped: usize,
    pub entries: Vec<DriftCleanupExecutionPlanEntry>,
    pub limitations: Vec<String>,
}

/// View of [`DriftCleanupExecutionPlanReport`].
#[verifier::ext_equal]
pub struct DriftCleanupExecutionPlanReportView {
    pub ok: bool,
    pub read_only: bool,
    pub status: Seq<char>,
    pub request_file: Seq<char>,
    pub total_items: nat,
    pub approved: nat,
    pub ready: nat,
    pub needs_approval: nat,
    pub blocked: nat,
    pub skipped: nat,
    pub entries: Seq<DriftCleanupExecutionPlanEntryView>,
    pub limitations: Seq<Seq<char>>,
}

impl DeepView for DriftCleanupExecutionPlanReport {
    type V = DriftCleanupExecutionPlanReportView;

    open spec fn deep_view(&self) -> DriftCleanupExecutionPlanReportView {
        DriftCleanupExecutionPlanReportView {
            ok: self.ok,
            read_only: self.read_only,
            status: self.status.deep_view(),
            request_file: self.request_file.deep_view(),
            total_items: self.total_items as nat,
            approved: self.approved as nat,
            ready: self.ready as nat,
            needs_approval: self.needs_approval as nat,
            blocked: self.blocked as nat,
            skipped: self.skipped as nat,
            entries: self.entries.deep_view(),
            limitations: self.limitations.deep_view(),
        }
    }
}

/// What a cleanup request still needs before approval.
#[derive(Debug)]
pub struct DriftCleanupApprovalSummaryReport {
    pub ok: bool,
    pub read_only: bool,
    pub status: String,
    pub request_file: String,
    pub total_items: usize,
    pub unknown: usize,
    pub needs_cleanup: usize,
    pub approved: usize,
    pub ready: usize,
    pub needs_approval: usize,
    pub blocked: usize,
    pub skipped: usize,
    pub by_status_kind: Vec<DriftCleanupApprovalBucket>,
    pub missing_evidence: Vec<DriftCleanupApprovalMissingEvidence>,
    pub next_actions: Vec<String>,
    pub limitations: Vec<String>,
}

/// View of [`DriftCleanupApprovalSummaryReport`].
#[verifier::ext_equal]
pub struct DriftCleanupApprovalSummaryReportView {
    pub ok: bool,
    pub read_only: bool,
    pub status: Seq<char>,
    pub request_file: Seq<char>,
    pub total_items: nat,
    pub unknown: nat,
    pub needs_cleanup: nat,
    pub approved: nat,
    pub ready: nat,
    pub needs_approval: nat,
    pub blocked: nat,
    pub skipped: nat,
    pub by_status_kind: Seq<DriftCleanupApprovalBucketView>,
    pub missing_evidence: Seq<DriftCleanupApprovalMissingEvidenceView>,
    pub next_actions: Seq<Seq<char>>,
    pub limitations: Seq<Seq<char>>,
}

impl DeepView for DriftCleanupApprovalSummaryReport {
    type V = DriftCleanupApprovalSummaryReportView;

    open spec fn deep_view(&self) -> DriftCleanupApprovalSummaryReportView {
        DriftCleanupApprovalSummaryReportView {
            ok: self.ok,
            read_only: self.read_only,
            status: self.status.deep_view(),
            request_file: self.request_file.deep_view(),
            total_items: self.total_items as nat,
            unknown: self.unknown as nat,
            needs_cleanup: self.needs_cleanup as nat,
            approved: self.approved as nat,
            ready: self.ready as nat,
            needs_approval: self.needs_approval as nat,
            blocked: self.blocked as nat,
            skipped: self.skipped as nat,
            by_status_kind: self.by_status_kind.deep_view(),
            missing_evidence: self.missing_evidence.deep_view(),
            next_actions: self.next_actions.deep_view(),
            limitations: self.limitations.deep_view(),
        }
    }
}

/// The material an operator needs to approve items.
#[derive(Debug)]
pub struct DriftCleanupApprovalPackReport {
    pub ok: bool,
    pub read_only: bool,
    pub status: String,
    pub request_file: String,
    pub filter_kind: Option<String>,
    pub filter_status: String,
    pub limit: usize,
    pub total_matching_items: usize,
    pub returned_items: usize,
    pub human_approval_required: bool,
    pub destructive_execution_supported: bool,
    pub destructive_execution_reason: String,
    pub missing_current: usize,
    pub stale_items: usize,
    pub needs_approval: usize,
    pub ready: usize,
    pub data_bearing_items: usize,
    pub running_items: usize,
    pub public_bind_items: usize,
    pub entries: Vec<DriftCleanupApprovalPackEntry>,
    pub checklist: Vec<String>,
    pub safe_next_commands: Vec<String>,
    pub limitations: Vec<String>,
}

/// View of [`DriftCleanupApprovalPackReport`].
#[verifier::ext_equal]
pub struct DriftCleanupApprovalPackReportView {
    pub ok: bool,
    pub read_only: bool,
    pub status: Seq<char>,
    pub request_file: Seq<char>,
    pub filter_kind: Option<Seq<char>>,
    pub filter_status: Seq<char>,
    pub limit: nat,
    pub total_matching_items: nat,
    pub returned_items: nat,
    pub human_approval_required: bool,
    pub destructive_execution_supported: bool,
    pub destructive_execution_reason: Seq<char>,
    pub missing_current: nat,
    pub stale_items: nat,
    pub needs_approval: nat,
    pub ready: nat,
    pub data_bearing_items: nat,
    pub running_items: nat,
    pub public_bind_items: nat,
    pub entries: Seq<DriftCleanupApprovalPackEntryView>,
    pub checklist: Seq<Seq<char>>,
    pub safe_next_commands: Seq<Seq<char>>,
    pub limitations: Seq<Seq<char>>,
}

impl DeepView for DriftCleanupApprovalPackReport {
    type V = DriftCleanupApprovalPackReportView;

    open spec fn deep_view(&self) -> DriftCleanupApprovalPackReportView {
        DriftCleanupApprovalPackReportView {
            ok: self.ok,
            read_only: self.read_only,
            status: self.status.deep_view(),
            request_file: self.request_file.deep_view(),
            filter_kind: self.filter_kind.deep_view(),
            filter_status: self.filter_status.deep_view(),
            limit: self.limit as nat,
            total_matching_items: self.total_matching_items as nat,
            returned_items: self.returned_items as nat,
            human_approval_required: self.human_approval_required,
            destructive_execution_supported: self.destructive_execution_supported,
            destructive_execution_reason: self.destructive_execution_reason.deep_view(),
            missing_current: self.missing_current as nat,
            stale_items: self.stale_items as nat,
            needs_approval: self.needs_approval as nat,
            ready: self.ready as nat,
            data_bearing_items: self.data_bearing_items as nat,
            running_items: self.running_items as nat,
            public_bind_items: self.public_bind_items as nat,
            entries: self.entries.deep_view(),
            checklist: self.checklist.deep_view(),
            safe_next_commands: self.safe_next_commands.deep_view(),
            limitations: self.limitations.deep_view(),
        }
    }
}

/// The material for one item.
#[derive(Debug)]
pub struct DriftCleanupApprovalPackEntry {
    pub request_id: String,
    pub kind: String,
    pub target: String,
    pub risk: String,
    pub approval_status: String,
    pub current_candidate: bool,
    pub running: Option<bool>,
    pub public_bind: Option<bool>,
    pub data_risk: Option<String>,
    pub owner: Option<String>,
    pub reason: Option<String>,
    pub cleanup_strategy: Option<String>,
    pub exact_resource_id: Option<String>,
    pub backup_snapshot_id: Option<String>,
    pub restore_drill_id: Option<String>,
    pub maintenance_window: Option<String>,
    pub rollback_plan: Option<String>,
    pub approval_expires_at: Option<String>,
    pub evidence_collected_at: Option<String>,
    pub collected_evidence: Vec<String>,
    pub required_evidence: Vec<String>,
    pub safeguards: Vec<String>,
    pub blockers: Vec<String>,
    pub volume_mountpoint_readable: Option<bool>,
    pub volume_sampled_size_bytes: Option<u64>,
    pub volume_sample_truncated: Option<bool>,
    pub volume_mounted_by_containers: Vec<String>,
    pub volume_service_candidates: Vec<String>,
    pub volume_top_level_entries: Vec<String>,
    pub volume_content_hints: Vec<String>,
    pub volume_cleanup_evidence_checklist: Vec<String>,
    pub review_notes: Vec<String>,
    pub approval_command_template: String,
}

/// View of [`DriftCleanupApprovalPackEntry`].
#[verifier::ext_equal]
pub struct DriftCleanupApprovalPackEntryView {
    pub request_id: Seq<char>,
    pub kind: Seq<char>,
    pub target: Seq<char>,
    pub risk: Seq<char>,
    pub approval_status: Seq<char>,
    pub current_candidate: bool,
    pub running: Option<bool>,
    pub public_bind: Option<bool>,
    pub data_risk: Option<Seq<char>>,
    pub owner: Option<Seq<char>>,
    pub reason: Option<Seq<char>>,
    pub cleanup_strategy: Option<Seq<char>>,
    pub exact_resource_id: Option<Seq<char>>,
    pub backup_snapshot_id: Option<Seq<char>>,
    pub restore_drill_id: Option<Seq<char>>,
    pub maintenance_window: Option<Seq<char>>,
    pub rollback_plan: Option<Seq<char>>,
    pub approval_expires_at: Option<Seq<char>>,
    pub evidence_collected_at: Option<Seq<char>>,
    pub collected_evidence: Seq<Seq<char>>,
    pub required_evidence: Seq<Seq<char>>,
    pub safeguards: Seq<Seq<char>>,
    pub blockers: Seq<Seq<char>>,
    pub volume_mountpoint_readable: Option<bool>,
    pub volume_sampled_size_bytes: Option<u64>,
    pub volume_sample_truncated: Option<bool>,
    pub volume_mounted_by_containers: Seq<Seq<char>>,
    pub volume_service_candidates: Seq<Seq<char>>,
    pub volume_top_level_entries: Seq<Seq<char>>,
    pub volume_content_hints: Seq<Seq<char>>,
    pub volume_cleanup_evidence_checklist: Seq<Seq<char>>,
    pub review_notes: Seq<Seq<char>>,
    pub approval_command_template: Seq<char>,
}

impl DeepView for DriftCleanupApprovalPackEntry {
    type V = DriftCleanupApprovalPackEntryView;

    open spec fn deep_view(&self) -> DriftCleanupApprovalPackEntryView {
        DriftCleanupApprovalPackEntryView {
            request_id: self.request_id.deep_view(),
            kind: self.kind.deep_view(),
            target: self.target.deep_view(),
            risk: self.risk.deep_view(),
            approval_status: self.approval_status.deep_view(),
            current_candidate: self.current_candidate,
            running: self.running.deep_view(),
            public_bind: self.public_bind.deep_view(),
            data_risk: self.data_risk.deep_view(),
            owner: self.owner.deep_view(),
            reason: self.reason.deep_view(),
            cleanup_strategy: self.cleanup_strategy.deep_view(),
            exact_resource_id: self.exact_resource_id.deep_view(),
            backup_snapshot_id: self.backup_snapshot_id.deep_view(),
            restore_drill_id: self.restore_drill_id.deep_view(),
            maintenance_window: self.maintenance_window.deep_view(),
            rollback_plan: self.rollback_plan.deep_view(),
            approval_expires_at: self.approval_expires_at.deep_view(),
            evidence_collected_at: self.evidence_collected_at.deep_view(),
            collected_evidence: self.collected_evidence.deep_view(),
            required_evidence: self.required_evidence.deep_view(),
            safeguards: self.safeguards.deep_view(),
            blockers: self.blockers.deep_view(),
            volume_mountpoint_readable: self.volume_mountpoint_readable.deep_view(),
            volume_sampled_size_bytes: self.volume_sampled_size_bytes.deep_view(),
            volume_sample_truncated: self.volume_sample_truncated.deep_view(),
            volume_mounted_by_containers: self.volume_mounted_by_containers.deep_view(),
            volume_service_candidates: self.volume_service_candidates.deep_view(),
            volume_top_level_entries: self.volume_top_level_entries.deep_view(),
            volume_content_hints: self.volume_content_hints.deep_view(),
            volume_cleanup_evidence_checklist: self.volume_cleanup_evidence_checklist.deep_view(),
            review_notes: self.review_notes.deep_view(),
            approval_command_template: self.approval_command_template.deep_view(),
        }
    }
}

impl Clone for DriftCleanupApprovalPackEntry {
    fn clone(&self) -> (r: Self)
        ensures
            r.deep_view() == self.deep_view(),
    {
        DriftCleanupApprovalPackEntry {
            request_id: self.request_id.clone(),
            kind: self.kind.clone(),
            target: self.target.clone(),
            risk: self.risk.clone(),
            approval_status: self.approval_status.clone(),
            current_candidate: self.current_candidate,
            running: self.running.clone(),
            public_bind: self.public_bind.clone(),
            data_risk: self.data_risk.clone(),
            owner: self.owner.clone(),
            reason: self.reason.clone(),
            cleanup_strategy: self.cleanup_strategy.clone(),
            exact_resource_id: self.exact_resource_id.clone(),
            backup_snapshot_id: self.backup_snapshot_id.clone(),
            restore_drill_id: self.restore_drill_id.clone(),
            maintenance_window: self.maintenance_window.clone(),
            rollback_plan: self.rollback_plan.clone(),
            approval_expires_at: self.approval_expires_at.clone(),
            evidence_collected_at: self.evidence_collected_at.clone(),
            collected_evidence: self.collected_evidence.clone(),
            required_evidence: self.required_evidence.clone(),
            safeguards: self.safeguards.clone(),
            blockers: self.blockers.clone(),
            volume_mountpoint_readable: self.volume_mountpoint_readable.clone(),
            volume_sampled_size_bytes: self.volume_sampled_size_bytes.clone(),
            volume_sample_truncated: self.volume_sample_truncated.clone(),
            volume_mounted_by_containers: self.volume_mounted_by_containers.clone(),
            volume_service_candidates: self.volume_service_candidates.clone(),
            volume_top_level_entries: self.volume_top_level_entries.clone(),
            volume_content_hints: self.volume_content_hints.clone(),
            volume_cleanup_evidence_checklist: self.volume_cleanup_evidence_checklist.clone(),
            review_notes: self.review_notes.clone(),
            approval_command_template: self.approval_command_template.clone(),
        }
    }
}

/// How the missing evidence of a cleanup request can be collected.
#[derive(Debug)]
pub struct DriftCleanupEvidencePlanReport {
    pub ok: bool,
    pub read_only: bool,
    pub status: String,
    pub request_file: String,
    pub filter_kind: Option<String>,
    pub filter_status: String,
    pub limit: usize,
    pub total_items: usize,
    pub returned_items: usize,
    pub docker_volume_items: usize,
    pub database_like_volume_items: usize,
    pub attached_or_running_items: usize,
    pub truncated_volume_items: usize,
    pub missing_backup_snapshot: usize,
    pub missing_restore_drill: usize,
    pub volume_groups: Vec<DriftCleanupEvidencePlanVolumeGroup>,
    pub batch_plan: Vec<DriftCleanupEvidencePlanBatchStep>,
    pub entries: Vec<DriftCleanupEvidencePlanEntry>,
    pub safe_next_commands: Vec<String>,
    pub limitations: Vec<String>,
}

/// View of [`DriftCleanupEvidencePlanReport`].
#[verifier::ext_equal]
pub struct DriftCleanupEvidencePlanReportView {
    pub ok: bool,
    pub read_only: bool,
    pub status: Seq<char>,
    pub request_file: Seq<char>,
    pub filter_kind: Option<Seq<char>>,
    pub filter_status: Seq<char>,
    pub limit: nat,
    pub total_items: nat,
    pub returned_items: nat,
    pub docker_volume_items: nat,
    pub database_like_volume_items: nat,
    pub attached_or_running_items: nat,
    pub truncated_volume_items: nat,
    pub missing_backup_snapshot: nat,
    pub missing_restore_drill: nat,
    pub volume_groups: Seq<DriftCleanupEvidencePlanVolumeGroupView>,
    pub batch_plan: Seq<DriftCleanupEvidencePlanBatchStepView>,
    pub entries: Seq<DriftCleanupEvidencePlanEntryView>,
    pub safe_next_commands: Seq<Seq<char>>,
    pub limitations: Seq<Seq<char>>,
}

impl DeepView for DriftCleanupEvidencePlanReport {
    type V = DriftCleanupEvidencePlanReportView;

    open spec fn deep_view(&self) -> DriftCleanupEvidencePlanReportView {
        DriftCleanupEvidencePlanReportView {
            ok: self.ok,
            read_only: self.read_only,
            status: self.status.deep_view(),
            request_file: self.request_file.deep_view(),
            filter_kind: self.filter_kind.deep_view(),
            filter_status: self.filter_status.deep_view(),
            limit: self.limit as nat,
            total_items: self.total_items as nat,
            returned_items: self.returned_items as nat,
            docker_volume_items: self.docker_volume_items as nat,
            database_like_volume_items: self.database_like_volume_items as nat,
            attached_or_running_items: self.attached_or_running_items as nat,
            truncated_volume_items: self.truncated_volume_items as nat,
            missing_backup_snapshot: self.missing_backup_snapshot as nat,
            missing_restore_drill: self.missing_restore_drill as nat,
            volume_groups: self.volume_groups.deep_view(),
            batch_plan: self.batch_plan.deep_view(),
            entries: self.entries.deep_view(),
            safe_next_commands: self.safe_next_commands.deep_view(),
            limitations: self.limitations.deep_view(),
        }
    }
}

impl Clone for DriftCleanupEvidencePlanReport {
    fn clone(&self) -> (r: Self)
        ensures
            r.deep_view() == self.deep_view(),
    {
        DriftCleanupEvidencePlanReport {
            ok: self.ok,
            read_only: self.read_only,
            status: self.status.clone(),
            request_file: self.request_file.clone(),
            filter_kind: self.filter_kind.clone(),
            filter_status: self.filter_status.clone(),
            limit: self.limit,
            total_items: self.total_items,
            returned_items: self.returned_items,
            docker_volume_items: self.docker_volume_items,
            database_like_volume_items: self.database_like_volume_items,
            attached_or_running_items: self.attached_or_running_items,
            truncated_volume_items: self.truncated_volume_items,
            missing_backup_snapshot: self.missing_backup_snapshot,
            missing_restore_drill: self.missing_restore_drill,
            volume_groups: self.volume_groups.clone(),
            batch_plan: self.batch_plan.clone(),
            entries: self.entries.clone(),
            safe_next_commands: self.safe_next_commands.clone(),
            limitations: self.limitations.clone(),
        }
    }
}

/// Volumes that need the same kind of evidence.
#[derive(Debug)]
pub struct DriftCleanupEvidencePlanVolumeGroup {
    pub group: String,
    pub items: usize,
    pub database_like: bool,
    pub attached_or_running_items: usize,
    pub truncated_items: usize,
    pub missing_backup_snapshot: usize,
    pub missing_restore_drill: usize,
    pub sample_targets: Vec<String>,
    pub required_actions: Vec<String>,
    pub command_templates: Vec<String>,
}

/// View of [`DriftCleanupEvidencePlanVolumeGroup`].
#[verifier::ext_equal]
pub struct DriftCleanupEvidencePlanVolumeGroupView {
    pub group: Seq<char>,
    pub items: nat,
    pub database_like: bool,
    pub attached_or_running_items: nat,
    pub truncated_items: nat,
    pub missing_backup_snapshot: nat,
    pub missing_restore_drill: nat,
    pub sample_targets: Seq<Seq<char>>,
    pub required_actions: Seq<Seq<char>>,
    pub command_templates: Seq<Seq<char>>,
}

impl DeepView for DriftCleanupEvidencePlanVolumeGroup {
    type V = DriftCleanupEvidencePlanVolumeGroupView;

    open spec fn deep_view(&self) -> DriftCleanupEvidencePlanVolumeGroupView {
        DriftCleanupEvidencePlanVolumeGroupView {
            group: self.group.deep_view(),
            items: self.items as nat,
            database_like: self.database_like,
            attached_or_running_items: self.attached_or_running_items as nat,
            truncated_items: self.truncated_items as nat,
            missing_backup_snapshot: self.missing_backup_snapshot as nat,
            missing_restore_drill: self.missing_restore_drill as nat,
            sample_targets: self.sample_targets.deep_view(),
            required_actions: self.required_actions.deep_view(),
            command_templates: self.command_templates.deep_view(),
        }
    }
}

impl Clone for DriftCleanupEvidencePlanVolumeGroup {
    fn clone(&self) -> (r: Self)
        ensures
            r.deep_view() == self.deep_view(),
    {
        DriftCleanupEvidencePlanVolumeGroup {
            group: self.group.clone(),
            items: self.items,
            database_like: self.database_like,
            attached_or_running_items: self.attached_or_running_items,
            truncated_items: self.truncated_items,
            missing_backup_snapshot: self.missing_backup_snapshot,
            missing_restore_drill: self.missing_restore_drill,
            sample_targets: self.sample_targets.clone(),
            required_actions: self.required_actions.clone(),
            command_templates: self.command_templates.clone(),
        }
    }
}

/// One step of collecting evidence in batches.
#[derive(Debug)]
pub struct DriftCleanupEvidencePlanBatchStep {
    pub stage: String,
    pub item_count: usize,
    pub command_template: String,
    pub writes_review_file: bool,
    pub destructive: bool,
    pub requires_human_input: bool,
    pub notes: Vec<String>,
}

/// View of [`DriftCleanupEvidencePlanBatchStep`].
#[verifier::ext_equal]
pub struct DriftCleanupEvidencePlanBatchStepView {
    pub stage: Seq<char>,
    pub item_count: nat,
    pub command_template: Seq<char>,
    pub writes_review_file: bool,
    pub destructive: bool,
    pub requires_human_input: bool,
    pub notes: Seq<Seq<char>>,
}

impl DeepView for DriftCleanupEvidencePlanBatchStep {
    type V = DriftCleanupEvidencePlanBatchStepView;

    open spec fn deep_view(&self) -> DriftCleanupEvidencePlanBatchStepView {
        DriftCleanupEvidencePlanBatchStepView {
            stage: self.stage.deep_view(),
            item_count: self.item_count as nat,
            command_template: self.command_template.deep_view(),
            writes_review_file: self.writes_review_file,
            destructive: self.destructive,
            requires_human_input: self.requires_human_input,
            notes: self.notes.deep_view(),
        }
    }
}

impl Clone for DriftCleanupEvidencePlanBatchStep {
    fn clone(&self) -> (r: Self)
        ensures
            r.deep_view() == self.deep_view(),
    {
        DriftCleanupEvidencePlanBatchStep {
            stage: self.stage.clone(),
            item_count: self.item_count,
            command_template: self.command_template.clone(),
            writes_review_file: self.writes_review_file,
            destructive: self.destructive,
            requires_human_input: self.requires_human_input,
            notes: self.notes.clone(),
        }
    }
}

/// The evidence one item needs.
#[derive(Debug)]
pub struct DriftCleanupEvidencePlanEntry {
    pub request_id: String,
    pub kind: String,
    pub target: String,
    pub risk: String,
    pub approval_status: String,
    pub current_candidate: bool,
    pub evidence_stage: String,
    pub required_evidence: Vec<String>,
    pub blockers: Vec<String>,
    pub review_notes: Vec<String>,
    pub volume_content_hints: Vec<String>,
    pub volume_mounted_by_containers: Vec<String>,
    pub volume_service_candidates: Vec<String>,
    pub volume_top_level_entries: Vec<String>,
    pub volume_sampled_size_bytes: Option<u64>,
    pub volume_sample_truncated: Option<bool>,
    pub evidence_commands: Vec<String>,
    pub backup_restore_commands: Vec<String>,
    pub approval_commands: Vec<String>,
}

/// View of [`DriftCleanupEvidencePlanEntry`].
#[verifier::ext_equal]
pub struct DriftCleanupEvidencePlanEntryView {
    pub request_id: Seq<char>,
    pub kind: Seq<char>,
    pub target: Seq<char>,
    pub risk: Seq<char>,
    pub approval_status: Seq<char>,
    pub current_candidate: bool,
    pub evidence_stage: Seq<char>,
    pub required_evidence: Seq<Seq<char>>,
    pub blockers: Seq<Seq<char>>,
    pub review_notes: Seq<Seq<char>>,
    pub volume_content_hints: Seq<Seq<char>>,
    pub volume_mounted_by_containers: Seq<Seq<char>>,
    pub volume_service_candidates: Seq<Seq<char>>,
    pub volume_top_level_entries: Seq<Seq<char>>,
    pub volume_sampled_size_bytes: Option<u64>,
    pub volume_sample_truncated: Option<bool>,
    pub evidence_commands: Seq<Seq<char>>,
    pub backup_restore_commands: Seq<Seq<char>>,
    pub approval_commands: Seq<Seq<char>>,
}

impl DeepView for DriftCleanupEvidencePlanEntry {
    type V = DriftCleanupEvidencePlanEntryView;

    open spec fn deep_view(&self) -> DriftCleanupEvidencePlanEntryView {
        DriftCleanupEvidencePlanEntryView {
            request_id: self.request_id.deep_view(),
            kind: self.kind.deep_view(),
            target: self.target.deep_view(),
            risk: self.risk.deep_view(),
            approval_status: self.approval_status.deep_view(),
            current_candidate: self.current_candidate,
            evidence_stage: self.evidence_stage.deep_view(),
            required_evidence: self.required_evidence.deep_view(),
            blockers: self.blockers.deep_view(),
            review_notes: self.review_notes.deep_view(),
            volume_content_hints: self.volume_content_hints.deep_view(),
            volume_mounted_by_containers: self.volume_mounted_by_containers.deep_view(),
            volume_service_candidates: self.volume_service_candidates.deep_view(),
            volume_top_level_entries: self.volume_top_level_entries.deep_view(),
            volume_sampled_size_bytes: self.volume_sampled_size_bytes.deep_view(),
            volume_sample_truncated: self.volume_sample_truncated.deep_view(),
            evidence_commands: self.evidence_commands.deep_view(),
            backup_restore_commands: self.backup_restore_commands.deep_view(),
            approval_commands: self.approval_commands.deep_view(),
        }
    }
}

impl Clone for DriftCleanupEvidencePlanEntry {
    fn clone(&self) -> (r: Self)
        ensures
            r.deep_view() == self.deep_view(),
    {
        DriftCleanupEvidencePlanEntry {
            request_id: self.request_id.clone(),
            kind: self.kind.clone(),
            target: self.target.clone(),
            risk: self.risk.clone(),
            approval_status: self.approval_status.clone(),
            current_candidate: self.current_candidate,
            evidence_stage: self.evidence_stage.clone(),
            required_evidence: self.required_evidence.clone(),
            blockers: self.blockers.clone(),
            review_notes: self.review_notes.clone(),
            volume_content_hints: self.volume_content_hints.clone(),
            volume_mounted_by_containers: self.volume_mounted_by_containers.clone(),
            volume_service_candidates: self.volume_service_candidates.clone(),
            volume_top_level_entries: self.volume_top_level_entries.clone(),
            volume_sampled_size_bytes: self.volume_sampled_size_bytes.clone(),
            volume_sample_truncated: self.volume_sample_truncated.clone(),
            evidence_commands: self.evidence_commands.clone(),
            backup_restore_commands: self.backup_restore_commands.clone(),
            approval_commands: self.approval_commands.clone(),
        }
    }
}

/// Who may own the volumes of a cleanup request.
#[derive(Debug)]
pub struct DriftCleanupVolumeOwnershipReport {
    pub ok: bool,
    pub read_only: bool,
    pub status: String,
    pub request_file: String,
    pub filter_status: String,
    pub limit: usize,
    pub total_volume_items: usize,
    pub returned_items: usize,
    pub current_candidates: usize,
    pub anonymous_hash_volumes: usize,
    pub named_volumes: usize,
    pub attached_volumes: usize,
    pub unattached_volumes: usize,
    pub service_candidate_volumes: usize,
    pub backup_evidence_missing: usize,
    pub restore_drill_missing: usize,
    pub buckets: Vec<DriftCleanupVolumeOwnershipBucket>,
    pub entries: Vec<DriftCleanupVolumeOwnershipEntry>,
    pub safe_next_commands: Vec<String>,
    pub limitations: Vec<String>,
}

/// View of [`DriftCleanupVolumeOwnershipReport`].
#[verifier::ext_equal]
pub struct DriftCleanupVolumeOwnershipReportView {
    pub ok: bool,
    pub read_only: bool,
    pub status: Seq<char>,
    pub request_file: Seq<char>,
    pub filter_status: Seq<char>,
    pub limit: nat,
    pub total_volume_items: nat,
    pub returned_items: nat,
    pub current_candidates: nat,
    pub anonymous_hash_volumes: nat,
    pub named_volumes: nat,
    pub attached_volumes: nat,
    pub unattached_volumes: nat,
    pub service_candidate_volumes: nat,
    pub backup_evidence_missing: nat,
    pub restore_drill_missing: nat,
    pub buckets: Seq<DriftCleanupVolumeOwnershipBucketView>,
    pub entries: Seq<DriftCleanupVolumeOwnershipEntryView>,
    pub safe_next_commands: Seq<Seq<char>>,
    pub limitations: Seq<Seq<char>>,
}

impl DeepView for DriftCleanupVolumeOwnershipReport {
    type V = DriftCleanupVolumeOwnershipReportView;

    open spec fn deep_view(&self) -> DriftCleanupVolumeOwnershipReportView {
        DriftCleanupVolumeOwnershipReportView {
            ok: self.ok,
            read_only: self.read_only,
            status: self.status.deep_view(),
            request_file: self.request_file.deep_view(),
            filter_status: self.filter_status.deep_view(),
            limit: self.limit as nat,
            total_volume_items: self.total_volume_items as nat,
            returned_items: self.returned_items as nat,
            current_candidates: self.current_candidates as nat,
            anonymous_hash_volumes: self.anonymous_hash_volumes as nat,
            named_volumes: self.named_volumes as nat,
            attached_volumes: self.attached_volumes as nat,
            unattached_volumes: self.unattached_volumes as nat,
            service_candidate_volumes: self.service_candidate_volumes as nat,
            backup_evidence_missing: self.backup_evidence_missing as nat,
            restore_drill_missing: self.restore_drill_missing as nat,
            buckets: self.buckets.deep_view(),
            entries: self.entries.deep_view(),
            safe_next_commands: self.safe_next_commands.deep_view(),
            limitations: self.limitations.deep_view(),
        }
    }
}

/// Volumes of one ownership category.
#[derive(Debug)]
pub struct DriftCleanupVolumeOwnershipBucket {
    pub category: String,
    pub items: usize,
    pub sample_targets: Vec<String>,
    pub recommended_next_step: String,
}

/// View of [`DriftCleanupVolumeOwnershipBucket`].
#[verifier::ext_equal]
pub struct DriftCleanupVolumeOwnershipBucketView {
    pub category: Seq<char>,
    pub items: nat,
    pub sample_targets: Seq<Seq<char>>,
    pub recommended_next_step: Seq<char>,
}

impl DeepView for DriftCleanupVolumeOwnershipBucket {
    type V = DriftCleanupVolumeOwnershipBucketView;

    open spec fn deep_view(&self) -> DriftCleanupVolumeOwnershipBucketView {
        DriftCleanupVolumeOwnershipBucketView {
            category: self.category.deep_view(),
            items: self.items as nat,
            sample_targets: self.sample_targets.deep_view(),
            recommended_next_step: self.recommended_next_step.deep_view(),
        }
    }
}

impl Clone for DriftCleanupVolumeOwnershipBucket {
    fn clone(&self) -> (r: Self)
        ensures
            r.deep_view() == self.deep_view(),
    {
        DriftCleanupVolumeOwnershipBucket {
            category: self.category.clone(),
            items: self.items,
            sample_targets: self.sample_targets.clone(),
            recommended_next_step: self.recommended_next_step.clone(),
        }
    }
}

/// Who may own one volume.
#[derive(Debug)]
pub struct DriftCleanupVolumeOwnershipEntry {
    pub request_id: String,
    pub target: String,
    pub approval_status: String,
    pub current_candidate: bool,
    pub name_class: String,
    pub category: String,
    pub confidence: String,
    pub service_candidates: Vec<String>,
    pub mounted_by_containers: Vec<String>,
    pub created_at: Option<String>,
    pub driver: Option<String>,
    pub scope: Option<String>,
    pub mountpoint: Option<String>,
    pub mountpoint_exists: Option<bool>,
    pub mountpoint_readable: Option<bool>,
    pub sampled_size_bytes: Option<u64>,
    pub sampled_file_count: Option<usize>,
    pub sampled_dir_count: Option<usize>,
    pub sampled_symlink_count: Option<usize>,
    pub sample_truncated: bool,
    pub latest_mtime_unix: Option<u64>,
    pub top_level_entries: Vec<String>,
    pub content_hints: Vec<String>,
    pub label_summary: Option<String>,
    pub backup_snapshot_id: Option<String>,
    pub restore_drill_id: Option<String>,
    pub missing_evidence: Vec<String>,
    pub cleanup_evidence_checklist: Vec<String>,
    pub recommended_next_step: String,
    pub safe_commands: Vec<String>,
    pub evidence: Vec<String>,
}

/// View of [`DriftCleanupVolumeOwnershipEntry`].
#[verifier::ext_equal]
pub struct DriftCleanupVolumeOwnershipEntryView {
    pub request_id: Seq<char>,
    pub target: Seq<char>,
    pub approval_status: Seq<char>,
    pub current_candidate: bool,
    pub name_class: Seq<char>,
    pub category: Seq<char>,
    pub confidence: Seq<char>,
    pub service_candidates: Seq<Seq<char>>,
    pub mounted_by_containers: Seq<Seq<char>>,
    pub created_at: Option<Seq<char>>,
    pub driver: Option<Seq<char>>,
    pub scope: Option<Seq<char>>,
    pub mountpoint: Option<Seq<char>>,
    pub mountpoint_exists: Option<bool>,
    pub mountpoint_readable: Option<bool>,
    pub sampled_size_bytes: Option<u64>,
    pub sampled_file_count: Option<usize>,
    pub sampled_dir_count: Option<usize>,
    pub sampled_symlink_count: Option<usize>,
    pub sample_truncated: bool,
    pub latest_mtime_unix: Option<u64>,
    pub top_level_entries: Seq<Seq<char>>,
    pub content_hints: Seq<Seq<char>>,
    pub label_summary: Option<Seq<char>>,
    pub backup_snapshot_id: Option<Seq<char>>,
    pub restore_drill_id: Option<Seq<char>>,
    pub missing_evidence: Seq<Seq<char>>,
    pub cleanup_evidence_checklist: Seq<Seq<char>>,
    pub recommended_next_step: Seq<char>,
    pub safe_commands: Seq<Seq<char>>,
    pub evidence: Seq<Seq<char>>,
}

impl DeepView for DriftCleanupVolumeOwnershipEntry {
    type V = DriftCleanupVolumeOwnershipEntryView;

    open spec fn deep_view(&self) -> DriftCleanupVolumeOwnershipEntryView {
        DriftCleanupVolumeOwnershipEntryView {
            request_id: self.request_id.deep_view(),
            target: self.target.deep_view(),
            approval_status: self.approval_status.deep_view(),
            current_candidate: self.current_candidate,
            name_class: self.name_class.deep_view(),
            category: self.category.deep_view(),
            confidence: self.confidence.deep_view(),
            service_candidates: self.service_candidates.deep_view(),
            mounted_by_containers: self.mounted_by_containers.deep_view(),
            created_at: self.created_at.deep_view(),
            driver: self.driver.deep_view(),
            scope: self.scope.deep_view(),
            mountpoint: self.mountpoint.deep_view(),
            mountpoint_exists: self.mountpoint_exists.deep_view(),
            mountpoint_readable: self.mountpoint_readable.deep_view(),
            sampled_size_bytes: self.sampled_size_bytes.deep_view(),
            sampled_file_count: self.sampled_file_count.deep_view(),
            sampled_dir_count: self.sampled_dir_count.deep_view(),
            sampled_symlink_count: self.sampled_symlink_count.deep_view(),
            sample_truncated: self.sample_truncated,
            latest_mtime_unix: self.latest_mtime_unix.deep_view(),
            top_level_entries: self.top_level_entries.deep_view(),
            content_hints: self.content_hints.deep_view(),
            label_summary: self.label_summary.deep_view(),
            backup_snapshot_id: self.backup_snapshot_id.deep_view(),
            restore_drill_id: self.restore_drill_id.deep_view(),
            missing_evidence: self.missing_evidence.deep_view(),
            cleanup_evidence_checklist: self.cleanup_evidence_checklist.deep_view(),
            recommended_next_step: self.recommended_next_step.deep_view(),
            safe_commands: self.safe_commands.deep_view(),
            evidence: self.evidence.deep_view(),
        }
    }
}

impl Clone for DriftCleanupVolumeOwnershipEntry {
    fn clone(&self) -> (r: Self)
        ensures
            r.deep_view() == self.deep_view(),
    {
        DriftCleanupVolumeOwnershipEntry {
            request_id: self.request_id.clone(),
            target: self.target.clone(),
            approval_status: self.approval_status.clone(),
            current_candidate: self.current_candidate,
            name_class: self.name_class.clone(),
            category: self.category.clone(),
            confidence: self.confidence.clone(),
            service_candidates: self.service_candidates.clone(),
            mounted_by_containers: self.mounted_by_containers.clone(),
            created_at: self.created_at.clone(),
            driver: self.driver.clone(),
            scope: self.scope.clone(),
            mountpoint: self.mountpoint.clone(),
            mountpoint_exists: self.mountpoint_exists.clone(),
            mountpoint_readable: self.mountpoint_readable.clone(),
            sampled_size_bytes: self.sampled_size_bytes.clone(),
            sampled_file_count: self.sampled_file_count.clone(),
            sampled_dir_count: self.sampled_dir_count.clone(),
            sampled_symlink_count: self.sampled_symlink_count.clone(),
            sample_truncated: self.sample_truncated,
            latest_mtime_unix: self.latest_mtime_unix.clone(),
            top_level_entries: self.top_level_entries.clone(),
            content_hints: self.content_hints.clone(),
            label_summary: self.label_summary.clone(),
            backup_snapshot_id: self.backup_snapshot_id.clone(),
            restore_drill_id: self.restore_drill_id.clone(),
            missing_evidence: self.missing_evidence.clone(),
            cleanup_evidence_checklist: self.cleanup_evidence_checklist.clone(),
            recommended_next_step: self.recommended_next_step.clone(),
            safe_commands: self.safe_commands.clone(),
            evidence: self.evidence.clone(),
        }
    }
}

/// Items with one approval status and kind.
#[derive(Debug)]
pub struct DriftCleanupApprovalBucket {
    pub approval_status: String,
    pub kind: String,
    pub items: usize,
}

/// View of [`DriftCleanupApprovalBucket`].
#[verifier::ext_equal]
pub struct DriftCleanupApprovalBucketView {
    pub approval_status: Seq<char>,
    pub kind: Seq<char>,
    pub items: nat,
}

impl DeepView for DriftCleanupApprovalBucket {
    type V = DriftCleanupApprovalBucketView;

    open spec fn deep_view(&self) -> DriftCleanupApprovalBucketView {
        DriftCleanupApprovalBucketView {
            approval_status: self.approval_status.deep_view(),
            kind: self.kind.deep_view(),
            items: self.items as nat,
        }
    }
}

impl Clone for DriftCleanupApprovalBucket {
    fn clone(&self) -> (r: Self)
        ensures
            r.deep_view() == self.deep_view(),
    {
        DriftCleanupApprovalBucket {
            approval_status: self.approval_status.clone(),
            kind: self.kind.clone(),
            items: self.items,
        }
    }
}

/// A piece of evidence and the items that lack it.
#[derive(Debug)]
pub struct DriftCleanupApprovalMissingEvidence {
    pub evidence: String,
    pub items: usize,
    pub kinds: Vec<String>,
    pub sample_request_ids: Vec<String>,
}

/// View of [`DriftCleanupApprovalMissingEvidence`].
#[verifier::ext_equal]
pub struct DriftCleanupApprovalMissingEvidenceView {
    pub evidence: Seq<char>,
    pub items: nat,
    pub kinds: Seq<Seq<char>>,
    pub sample_request_ids: Seq<Seq<char>>,
}

impl DeepView for DriftCleanupApprovalMissingEvidence {
    type V = DriftCleanupApprovalMissingEvidenceView;

    open spec fn deep_view(&self) -> DriftCleanupApprovalMissingEvidenceView {
        DriftCleanupApprovalMissingEvidenceView {
            evidence: self.evidence.deep_view(),
            items: self.items as nat,
            kinds: self.kinds.deep_view(),
            sample_request_ids: self.sample_request_ids.deep_view(),
        }
    }
}

impl Clone for DriftCleanupApprovalMissingEvidence {
    fn clone(&self) -> (r: Self)
        ensures
            r.deep_view() == self.deep_view(),
    {
        DriftCleanupApprovalMissingEvidence {
            evidence: self.evidence.clone(),
            items: self.items,
            kinds: self.kinds.clone(),
            sample_request_ids: self.sample_request_ids.clone(),
        }
    }
}

/// Whether one item is ready.
#[derive(Debug)]
pub struct DriftCleanupExecutionPlanEntry {
    pub request_id: String,
    pub kind: String,
    pub target: String,
    pub approval_status: String,
    pub risk: String,
    pub status: String,
    pub cleanup_strategy: Option<String>,
    pub required_evidence: Vec<String>,
    pub safeguards: Vec<String>,
    pub blockers: Vec<String>,
    pub destructive_command_generated: bool,
}

/// View of [`DriftCleanupExecutionPlanEntry`].
#[verifier::ext_equal]
pub struct DriftCleanupExecutionPlanEntryView {
    pub request_id: Seq<char>,
    pub kind: Seq<char>,
    pub target: Seq<char>,
    pub approval_status: Seq<char>,
    pub risk: Seq<char>,
    pub status: Seq<char>,
    pub cleanup_strategy: Option<Seq<char>>,
    pub required_evidence: Seq<Seq<char>>,
    pub safeguards: Seq<Seq<char>>,
    pub blockers: Seq<Seq<char>>,
    pub destructive_command_generated: bool,
}

impl DeepView for DriftCleanupExecutionPlanEntry {
    type V = DriftCleanupExecutionPlanEntryView;

    open spec fn deep_view(&self) -> DriftCleanupExecutionPlanEntryView {
        DriftCleanupExecutionPlanEntryView {
            request_id: self.request_id.deep_view(),
            kind: self.kind.deep_view(),
            target: self.target.deep_view(),
            approval_status: self.approval_status.deep_view(),
            risk: self.risk.deep_view(),
            status: self.status.deep_view(),
            cleanup_strategy: self.cleanup_strategy.deep_view(),
            required_evidence: self.required_evidence.deep_view(),
            safeguards: self.safeguards.deep_view(),
            blockers: self.blockers.deep_view(),
            destructive_command_generated: self.destructive_command_generated,
        }
    }
}

impl Clone for DriftCleanupExecutionPlanEntry {
    fn clone(&self) -> (r: Self)
        ensures
            r.deep_view() == self.deep_view(),
    {
        DriftCleanupExecutionPlanEntry {
            request_id: self.request_id.clone(),
            kind: self.kind.clone(),
            target: self.target.clone(),
            approval_status: self.approval_status.clone(),
            risk: self.risk.clone(),
            status: self.status.clone(),
            cleanup_strategy: self.cleanup_strategy.clone(),
            required_evidence: self.required_evidence.clone(),
            safeguards: self.safeguards.clone(),
            blockers: self.blockers.clone(),
            destructive_command_generated: self.destructive_command_generated,
        }
    }
}

/// Manual steps for the ready items.
#[derive(Debug)]
pub struct DriftCleanupRunbookReport {
    pub ok: bool,
    pub read_only: bool,
    pub status: String,
    pub request_file: String,
    pub total_items: usize,
    pub ready: usize,
    pub blocked: usize,
    pub steps: Vec<DriftCleanupRunbookStep>,
    pub global_safeguards: Vec<String>,
    pub limitations: Vec<String>,
}

/// View of [`DriftCleanupRunbookReport`].
#[verifier::ext_equal]
pub struct DriftCleanupRunbookReportView {
    pub ok: bool,
    pub read_only: bool,
    pub status: Seq<char>,
    pub request_file: Seq<char>,
    pub total_items: nat,
    pub ready: nat,
    pub blocked: nat,
    pub steps: Seq<DriftCleanupRunbookStepView>,
    pub global_safeguards: Seq<Seq<char>>,
    pub limitations: Seq<Seq<char>>,
}

impl DeepView for DriftCleanupRunbookReport {
    type V = DriftCleanupRunbookReportView;

    open spec fn deep_view(&self) -> DriftCleanupRunbookReportView {
        DriftCleanupRunbookReportView {
            ok: self.ok,
            read_only: self.read_only,
            status: self.status.deep_view(),
            request_file: self.request_file.deep_view(),
            total_items: self.total_items as nat,
            ready: self.ready as nat,
            blocked: self.blocked as nat,
            steps: self.steps.deep_view(),
            global_safeguards: self.global_safeguards.deep_view(),
            limitations: self.limitations.deep_view(),
        }
    }
}

/// The manual step for one item.
#[derive(Debug)]
pub struct DriftCleanupRunbookStep {
    pub step_id: String,
    pub request_id: String,
    pub kind: String,
    pub target: String,
    pub owner: Option<String>,
    pub reason: Option<String>,
    pub cleanup_strategy: Option<String>,
    pub exact_resource_id: Option<String>,
    pub approval_expires_at: Option<String>,
    pub backup_snapshot_id: Option<String>,
    pub restore_drill_id: Option<String>,
    pub safe_to_automate: bool,
    pub requires_separate_destructive_approval: bool,
    pub verify_before: Vec<String>,
    pub execute_manually: Vec<String>,
    pub verify_after: Vec<String>,
    pub rollback_plan: Option<String>,
    pub forbidden_actions: Vec<String>,
}

/// View of [`DriftCleanupRunbookStep`].
#[verifier::ext_equal]
pub struct DriftCleanupRunbookStepView {
    pub step_id: Seq<char>,
    pub request_id: Seq<char>,
    pub kind: Seq<char>,
    pub target: Seq<char>,
    pub owner: Option<Seq<char>>,
    pub reason: Option<Seq<char>>,
    pub cleanup_strategy: Option<Seq<char>>,
    pub exact_resource_id: Option<Seq<char>>,
    pub approval_expires_at: Option<Seq<char>>,
    pub backup_snapshot_id: Option<Seq<char>>,
    pub restore_drill_id: Option<Seq<char>>,
    pub safe_to_automate: bool,
    pub requires_separate_destructive_approval: bool,
    pub verify_before: Seq<Seq<char>>,
    pub execute_manually: Seq<Seq<char>>,
    pub verify_after: Seq<Seq<char>>,
    pub rollback_plan: Option<Seq<char>>,
    pub forbidden_actions: Seq<Seq<char>>,
}

impl DeepView for DriftCleanupRunbookStep {
    type V = DriftCleanupRunbookStepView;

    open spec fn deep_view(&self) -> DriftCleanupRunbookStepView {
        DriftCleanupRunbookStepView {
            step_id: self.step_id.deep_view(),
            request_id: self.request_id.deep_view(),
            kind: self.kind.deep_view(),
            target: self.target.deep_view(),
            owner: self.owner.deep_view(),
            reason: self.reason.deep_view(),
            cleanup_strategy: self.cleanup_strategy.deep_view(),
            exact_resource_id: self.exact_resource_id.deep_view(),
            approval_expires_at: self.approval_expires_at.deep_view(),
            backup_snapshot_id: self.backup_snapshot_id.deep_view(),
            restore_drill_id: self.restore_drill_id.deep_view(),
            safe_to_automate: self.safe_to_automate,
            requires_separate_destructive_approval: self.requires_separate_destructive_approval,
            verify_before: self.verify_before.deep_view(),
            execute_manually: self.execute_manually.deep_view(),
            verify_after: self.verify_after.deep_view(),
            rollback_plan: self.rollback_plan.deep_view(),
            forbidden_actions: self.forbidden_actions.deep_view(),
        }
    }
}

impl Clone for DriftCleanupRunbookStep {
    fn clone(&self) -> (r: Self)
        ensures
            r.deep_view() == self.deep_view(),
    {
        DriftCleanupRunbookStep {
            step_id: self.step_id.clone(),
            request_id: self.request_id.clone(),
            kind: self.kind.clone(),
            target: self.target.clone(),
            owner: self.owner.clone(),
            reason: self.reason.clone(),
            cleanup_strategy: self.cleanup_strategy.clone(),
            exact_resource_id: self.exact_resource_id.clone(),
            approval_expires_at: self.approval_expires_at.clone(),
            backup_snapshot_id: self.backup_snapshot_id.clone(),
            restore_drill_id: self.restore_drill_id.clone(),
            safe_to_automate: self.safe_to_automate,
            requires_separate_destructive_approval: self.requires_separate_destructive_approval,
            verify_before: self.verify_before.clone(),
            execute_manually: self.execute_manually.clone(),
            verify_after: self.verify_after.clone(),
            rollback_plan: self.rollback_plan.clone(),
            forbidden_actions: self.forbidden_actions.clone(),
        }
    }
}

/// The recorded outcome of one item.
#[derive(Debug)]
pub struct DriftCleanupFinalizeReport {
    pub ok: bool,
    pub execute: bool,
    pub status: String,
    pub request_file: String,
    pub request_id: String,
    pub outcome: String,
    pub reason: Option<String>,
    pub evidence: Vec<String>,
    pub item: Option<DriftCleanupRequestItem>,
    pub limitations: Vec<String>,
    pub journal_path: Option<String>,
    pub journal_written: bool,
}

/// View of [`DriftCleanupFinalizeReport`].
#[verifier::ext_equal]
pub struct DriftCleanupFinalizeReportView {
    pub ok: bool,
    pub execute: bool,
    pub status: Seq<char>,
    pub request_file: Seq<char>,
    pub request_id: Seq<char>,
    pub outcome: Seq<char>,
    pub reason: Option<Seq<char>>,
    pub evidence: Seq<Seq<char>>,
    pub item: Option<DriftCleanupRequestItemView>,
    pub limitations: Seq<Seq<char>>,
    pub journal_path: Option<Seq<char>>,
    pub journal_written: bool,
}

impl DeepView for DriftCleanupFinalizeReport {
    type V = DriftCleanupFinalizeReportView;

    open spec fn deep_view(&self) -> DriftCleanupFinalizeReportView {
        DriftCleanupFinalizeReportView {
            ok: self.ok,
            execute: self.execute,
            status: self.status.deep_view(),
            request_file: self.request_file.deep_view(),
            request_id: self.request_id.deep_view(),
            outcome: self.outcome.deep_view(),
            reason: self.reason.deep_view(),
            evidence: self.evidence.deep_view(),
            item: self.item.deep_view(),
            limitations: self.limitations.deep_view(),
            journal_path: self.journal_path.deep_view(),
            journal_written: self.journal_written,
        }
    }
}

/// The outcome of a handoff.
#[derive(Debug)]
pub struct DriftCleanupExecuteReport {
    pub ok: bool,
    pub execute: bool,
    pub status: String,
    pub decision: String,
    pub request_file: String,
    pub request_sha256: Option<String>,
    pub ready: usize,
    pub total_items: usize,
    pub approval_token: Option<String>,
    pub expected_approval_token: Option<String>,
    pub manual_execution_only: bool,
    pub pre_execution_check: DriftCleanupPreExecutionCheck,
    pub limitations: Vec<String>,
    pub journal_path: Option<String>,
    pub journal_written: bool,
}

/// View of [`DriftCleanupExecuteReport`].
#[verifier::ext_equal]
pub struct DriftCleanupExecuteReportView {
    pub ok: bool,
    pub execute: bool,
    pub status: Seq<char>,
    pub decision: Seq<char>,
    pub request_file: Seq<char>,
    pub request_sha256: Option<Seq<char>>,
    pub ready: nat,
    pub total_items: nat,
    pub approval_token: Option<Seq<char>>,
    pub expected_approval_token: Option<Seq<char>>,
    pub manual_execution_only: bool,
    pub pre_execution_check: DriftCleanupPreExecutionCheckView,
    pub limitations: Seq<Seq<char>>,
    pub journal_path: Option<Seq<char>>,
    pub journal_written: bool,
}

impl DeepView for DriftCleanupExecuteReport {
    type V = DriftCleanupExecuteReportView;

    open spec fn deep_view(&self) -> DriftCleanupExecuteReportView {
        DriftCleanupExecuteReportView {
            ok: self.ok,
            execute: self.execute,
            status: self.status.deep_view(),
            decision: self.decision.deep_view(),
            request_file: self.request_file.deep_view(),
            request_sha256: self.request_sha256.deep_view(),
            ready: self.ready as nat,
            total_items: self.total_items as nat,
            approval_token: self.approval_token.deep_view(),
            expected_approval_token: self.expected_approval_token.deep_view(),
            manual_execution_only: self.manual_execution_only,
            pre_execution_check: self.pre_execution_check.deep_view(),
            limitations: self.limitations.deep_view(),
            journal_path: self.journal_path.deep_view(),
            journal_written: self.journal_written,
        }
    }
}

/// Whether the ready items still match the server.
#[derive(Debug)]
pub struct DriftCleanupPreExecutionCheck {
    pub ok: bool,
    pub read_only: bool,
    pub current_candidates: usize,
    pub ready_items: usize,
    pub matched_current: usize,
    pub missing_current: usize,
    pub exact_mismatch: usize,
    pub blockers: Vec<String>,
}

/// View of [`DriftCleanupPreExecutionCheck`].
#[verifier::ext_equal]
pub struct DriftCleanupPreExecutionCheckView {
    pub ok: bool,
    pub read_only: bool,
    pub current_candidates: nat,
    pub ready_items: nat,
    pub matched_current: nat,
    pub missing_current: nat,
    pub exact_mismatch: nat,
    pub blockers: Seq<Seq<char>>,
}

impl DeepView for DriftCleanupPreExecutionCheck {
    type V = DriftCleanupPreExecutionCheckView;

    open spec fn deep_view(&self) -> DriftCleanupPreExecutionCheckView {
        DriftCleanupPreExecutionCheckView {
            ok: self.ok,
            read_only: self.read_only,
            current_candidates: self.current_candidates as nat,
            ready_items: self.ready_items as nat,
            matched_current: self.matched_current as nat,
            missing_current: self.missing_current as nat,
            exact_mismatch: self.exact_mismatch as nat,
            blockers: self.blockers.deep_view(),
        }
    }
}

impl Clone for DriftCleanupPreExecutionCheck {
    fn clone(&self) -> (r: Self)
        ensures
            r.deep_view() == self.deep_view(),
    {
        DriftCleanupPreExecutionCheck {
            ok: self.ok,
            read_only: self.read_only,
            current_candidates: self.current_candidates,
            ready_items: self.ready_items,
            matched_current: self.matched_current,
            missing_current: self.missing_current,
            exact_mismatch: self.exact_mismatch,
            blockers: self.blockers.clone(),
        }
    }
}

/// The outcome of marking items.
#[derive(Debug)]
pub struct DriftCleanupMarkReport {
    pub ok: bool,
    pub execute: bool,
    pub status: String,
    pub request_file: String,
    pub backup_file: Option<String>,
    pub matched: usize,
    pub updated: usize,
    pub unchanged: usize,
    pub entries: Vec<DriftCleanupMarkEntry>,
    pub limitations: Vec<String>,
}

/// View of [`DriftCleanupMarkReport`].
#[verifier::ext_equal]
pub struct DriftCleanupMarkReportView {
    pub ok: bool,
    pub execute: bool,
    pub status: Seq<char>,
    pub request_file: Seq<char>,
    pub backup_file: Option<Seq<char>>,
    pub matched: nat,
    pub updated: nat,
    pub unchanged: nat,
    pub entries: Seq<DriftCleanupMarkEntryView>,
    pub limitations: Seq<Seq<char>>,
}

impl DeepView for DriftCleanupMarkReport {
    type V = DriftCleanupMarkReportView;

    open spec fn deep_view(&self) -> DriftCleanupMarkReportView {
        DriftCleanupMarkReportView {
            ok: self.ok,
            execute: self.execute,
            status: self.status.deep_view(),
            request_file: self.request_file.deep_view(),
            backup_file: self.backup_file.deep_view(),
            matched: self.matched as nat,
            updated: self.updated as nat,
            unchanged: self.unchanged as nat,
            entries: self.entries.deep_view(),
            limitations: self.limitations.deep_view(),
        }
    }
}

impl Clone for DriftCleanupMarkReport {
    fn clone(&self) -> (r: Self)
        ensures
            r.deep_view() == self.deep_view(),
    {
        DriftCleanupMarkReport {
            ok: self.ok,
            execute: self.execute,
            status: self.status.clone(),
            request_file: self.request_file.clone(),
            backup_file: self.backup_file.clone(),
            matched: self.matched,
            updated: self.updated,
            unchanged: self.unchanged,
            entries: self.entries.clone(),
            limitations: self.limitations.clone(),
        }
    }
}

/// What marking changes in one item.
#[derive(Debug)]
pub struct DriftCleanupMarkEntry {
    pub request_id: String,
    pub kind: String,
    pub target: String,
    pub previous_approval_status: String,
    pub new_approval_status: String,
    pub changed: bool,
    pub diff: Vec<String>,
    pub limitations: Vec<String>,
}

/// View of [`DriftCleanupMarkEntry`].
#[verifier::ext_equal]
pub struct DriftCleanupMarkEntryView {
    pub request_id: Seq<char>,
    pub kind: Seq<char>,
    pub target: Seq<char>,
    pub previous_approval_status: Seq<char>,
    pub new_approval_status: Seq<char>,
    pub changed: bool,
    pub diff: Seq<Seq<char>>,
    pub limitations: Seq<Seq<char>>,
}

impl DeepView for DriftCleanupMarkEntry {
    type V = DriftCleanupMarkEntryView;

    open spec fn deep_view(&self) -> DriftCleanupMarkEntryView {
        DriftCleanupMarkEntryView {
            request_id: self.request_id.deep_view(),
            kind: self.kind.deep_view(),
            target: self.target.deep_view(),
            previous_approval_status: self.previous_approval_status.deep_view(),
            new_approval_status: self.new_approval_status.deep_view(),
            changed: self.changed,
            diff: self.diff.deep_view(),
            limitations: self.limitations.deep_view(),
        }
    }
}

impl Clone for DriftCleanupMarkEntry {
    fn clone(&self) -> (r: Self)
        ensures
            r.deep_view() == self.deep_view(),
    {
        DriftCleanupMarkEntry {
            request_id: self.request_id.clone(),
            kind: self.kind.clone(),
            target: self.target.clone(),
            previous_approval_status: self.previous_approval_status.clone(),
            new_approval_status: self.new_approval_status.clone(),
            changed: self.changed,
            diff: self.diff.clone(),
            limitations: self.limitations.clone(),
        }
    }
}

/// The outcome of collecting evidence.
#[derive(Debug)]
pub struct DriftCleanupEvidenceReport {
    pub ok: bool,
    pub execute: bool,
    pub read_only: bool,
    pub status: String,
    pub request_file: String,
    pub matched: usize,
    pub updated: usize,
    pub unchanged: usize,
    pub backup_file: Option<String>,
    pub entries: Vec<DriftCleanupEvidenceEntry>,
    pub limitations: Vec<String>,
}

/// View of [`DriftCleanupEvidenceReport`].
#[verifier::ext_equal]
pub struct DriftCleanupEvidenceReportView {
    pub ok: bool,
    pub execute: bool,
    pub read_only: bool,
    pub status: Seq<char>,
    pub request_file: Seq<char>,
    pub matched: nat,
    pub updated: nat,
    pub unchanged: nat,
    pub backup_file: Option<Seq<char>>,
    pub entries: Seq<DriftCleanupEvidenceEntryView>,
    pub limitations: Seq<Seq<char>>,
}

impl DeepView for DriftCleanupEvidenceReport {
    type V = DriftCleanupEvidenceReportView;

    open spec fn deep_view(&self) -> DriftCleanupEvidenceReportView {
        DriftCleanupEvidenceReportView {
            ok: self.ok,
            execute: self.execute,
            read_only: self.read_only,
            status: self.status.deep_view(),
            request_file: self.request_file.deep_view(),
            matched: self.matched as nat,
            updated: self.updated as nat,
            unchanged: self.unchanged as nat,
            backup_file: self.backup_file.deep_view(),
            entries: self.entries.deep_view(),
            limitations: self.limitations.deep_view(),
        }
    }
}

impl Clone for DriftCleanupEvidenceReport {
    fn clone(&self) -> (r: Self)
        ensures
            r.deep_view() == self.deep_view(),
    {
        DriftCleanupEvidenceReport {
            ok: self.ok,
            execute: self.execute,
            read_only: self.read_only,
            status: self.status.clone(),
            request_file: self.request_file.clone(),
            matched: self.matched,
            updated: self.updated,
            unchanged: self.unchanged,
            backup_file: self.backup_file.clone(),
            entries: self.entries.clone(),
            limitations: self.limitations.clone(),
        }
    }
}

/// The evidence of one item.
#[derive(Debug)]
pub struct DriftCleanupEvidenceEntry {
    pub request_id: String,
    pub kind: String,
    pub target: String,
    pub current_candidate: bool,
    pub confidence: Option<String>,
    pub service_candidates: Vec<String>,
    pub evidence: Vec<String>,
    pub resource_fingerprint: Vec<String>,
    pub required_evidence: Vec<String>,
    pub changed: bool,
    pub limitations: Vec<String>,
}

/// View of [`DriftCleanupEvidenceEntry`].
#[verifier::ext_equal]
pub struct DriftCleanupEvidenceEntryView {
    pub request_id: Seq<char>,
    pub kind: Seq<char>,
    pub target: Seq<char>,
    pub current_candidate: bool,
    pub confidence: Option<Seq<char>>,
    pub service_candidates: Seq<Seq<char>>,
    pub evidence: Seq<Seq<char>>,
    pub resource_fingerprint: Seq<Seq<char>>,
    pub required_evidence: Seq<Seq<char>>,
    pub changed: bool,
    pub limitations: Seq<Seq<char>>,
}

impl DeepView for DriftCleanupEvidenceEntry {
    type V = DriftCleanupEvidenceEntryView;

    open spec fn deep_view(&self) -> DriftCleanupEvidenceEntryView {
        DriftCleanupEvidenceEntryView {
            request_id: self.request_id.deep_view(),
            kind: self.kind.deep_view(),
            target: self.target.deep_view(),
            current_candidate: self.current_candidate,
            confidence: self.confidence.deep_view(),
            service_candidates: self.service_candidates.deep_view(),
            evidence: self.evidence.deep_view(),
            resource_fingerprint: self.resource_fingerprint.deep_view(),
            required_evidence: self.required_evidence.deep_view(),
            changed: self.changed,
            limitations: self.limitations.deep_view(),
        }
    }
}

impl Clone for DriftCleanupEvidenceEntry {
    fn clone(&self) -> (r: Self)
        ensures
            r.deep_view() == self.deep_view(),
    {
        DriftCleanupEvidenceEntry {
            request_id: self.request_id.clone(),
            kind: self.kind.clone(),
            target: self.target.clone(),
            current_candidate: self.current_candidate,
            confidence: self.confidence.clone(),
            service_candidates: self.service_candidates.clone(),
            evidence: self.evidence.clone(),
            resource_fingerprint: self.resource_fingerprint.clone(),
            required_evidence: self.required_evidence.clone(),
            changed: self.changed,
            limitations: self.limitations.clone(),
        }
    }
}

/// How far a cleanup request has come.
#[derive(Debug)]
pub struct DriftCleanupProgressReport {
    pub ok: bool,
    pub read_only: bool,
    pub status: String,
    pub request_file: String,
    pub current_candidates: usize,
    pub request_items: usize,
    pub matched_current: usize,
    pub missing_current: usize,
    pub stale_items: usize,
    pub approved: usize,
    pub needs_cleanup: usize,
    pub rejected: usize,
    pub unknown: usize,
    pub by_kind: Vec<DriftCleanupProgressKind>,
    pub missing: Vec<DriftCleanupProgressItem>,
    pub stale: Vec<DriftCleanupProgressItem>,
    pub limitations: Vec<String>,
}

/// View of [`DriftCleanupProgressReport`].
#[verifier::ext_equal]
pub struct DriftCleanupProgressReportView {
    pub ok: bool,
    pub read_only: bool,
    pub status: Seq<char>,
    pub request_file: Seq<char>,
    pub current_candidates: nat,
    pub request_items: nat,
    pub matched_current: nat,
    pub missing_current: nat,
    pub stale_items: nat,
    pub approved: nat,
    pub needs_cleanup: nat,
    pub rejected: nat,
    pub unknown: nat,
    pub by_kind: Seq<DriftCleanupProgressKindView>,
    pub missing: Seq<DriftCleanupProgressItemView>,
    pub stale: Seq<DriftCleanupProgressItemView>,
    pub limitations: Seq<Seq<char>>,
}

impl DeepView for DriftCleanupProgressReport {
    type V = DriftCleanupProgressReportView;

    open spec fn deep_view(&self) -> DriftCleanupProgressReportView {
        DriftCleanupProgressReportView {
            ok: self.ok,
            read_only: self.read_only,
            status: self.status.deep_view(),
            request_file: self.request_file.deep_view(),
            current_candidates: self.current_candidates as nat,
            request_items: self.request_items as nat,
            matched_current: self.matched_current as nat,
            missing_current: self.missing_current as nat,
            stale_items: self.stale_items as nat,
            approved: self.approved as nat,
            needs_cleanup: self.needs_cleanup as nat,
            rejected: self.rejected as nat,
            unknown: self.unknown as nat,
            by_kind: self.by_kind.deep_view(),
            missing: self.missing.deep_view(),
            stale: self.stale.deep_view(),
            limitations: self.limitations.deep_view(),
        }
    }
}

/// Progress for one kind of resource.
#[derive(Debug)]
pub struct DriftCleanupProgressKind {
    pub kind: String,
    pub current_candidates: usize,
    pub request_items: usize,
    pub matched_current: usize,
    pub missing_current: usize,
    pub stale_items: usize,
    pub approved: usize,
    pub needs_cleanup: usize,
    pub rejected: usize,
    pub unknown: usize,
}

/// View of [`DriftCleanupProgressKind`].
#[verifier::ext_equal]
pub struct DriftCleanupProgressKindView {
    pub kind: Seq<char>,
    pub current_candidates: nat,
    pub request_items: nat,
    pub matched_current: nat,
    pub missing_current: nat,
    pub stale_items: nat,
    pub approved: nat,
    pub needs_cleanup: nat,
    pub rejected: nat,
    pub unknown: nat,
}

impl DeepView for DriftCleanupProgressKind {
    type V = DriftCleanupProgressKindView;

    open spec fn deep_view(&self) -> DriftCleanupProgressKindView {
        DriftCleanupProgressKindView {
            kind: self.kind.deep_view(),
            current_candidates: self.current_candidates as nat,
            request_items: self.request_items as nat,
            matched_current: self.matched_current as nat,
            missing_current: self.missing_current as nat,
            stale_items: self.stale_items as nat,
            approved: self.approved as nat,
            needs_cleanup: self.needs_cleanup as nat,
            rejected: self.rejected as nat,
            unknown: self.unknown as nat,
        }
    }
}

impl Clone for DriftCleanupProgressKind {
    fn clone(&self) -> (r: Self)
        ensures
            r.deep_view() == self.deep_view(),
    {
        DriftCleanupProgressKind {
            kind: self.kind.clone(),
            current_candidates: self.current_candidates,
            request_items: self.request_items,
            matched_current: self.matched_current,
            missing_current: self.missing_current,
            stale_items: self.stale_items,
            approved: self.approved,
            needs_cleanup: self.needs_cleanup,
            rejected: self.rejected,
            unknown: self.unknown,
        }
    }
}

/// A resource that the request lacks, or that the server no longer has.
#[derive(Debug)]
pub struct DriftCleanupProgressItem {
    pub kind: String,
    pub target: String,
    pub request_id: Option<String>,
    pub approval_status: Option<String>,
    pub risk: String,
}

/// View of [`DriftCleanupProgressItem`].
#[verifier::ext_equal]
pub struct DriftCleanupProgressItemView {
    pub kind: Seq<char>,
    pub target: Seq<char>,
    pub request_id: Option<Seq<char>>,
    pub approval_status: Option<Seq<char>>,
    pub risk: Seq<char>,
}

impl DeepView for DriftCleanupProgressItem {
    type V = DriftCleanupProgressItemView;

    open spec fn deep_view(&self) -> DriftCleanupProgressItemView {
        DriftCleanupProgressItemView {
            kind: self.kind.deep_view(),
            target: self.target.deep_view(),
            request_id: self.request_id.deep_view(),
            approval_status: self.approval_status.deep_view(),
            risk: self.risk.deep_view(),
        }
    }
}

impl Clone for DriftCleanupProgressItem {
    fn clone(&self) -> (r: Self)
        ensures
            r.deep_view() == self.deep_view(),
    {
        DriftCleanupProgressItem {
            kind: self.kind.clone(),
            target: self.target.clone(),
            request_id: self.request_id.clone(),
            approval_status: self.approval_status.clone(),
            risk: self.risk.clone(),
        }
    }
}

/// A cleanup request sorted for triage.
#[derive(Debug)]
pub struct DriftCleanupTriageReport {
    pub ok: bool,
    pub read_only: bool,
    pub status: String,
    pub request_file: String,
    pub current_candidates: usize,
    pub request_items: usize,
    pub matched_current: usize,
    pub missing_current: usize,
    pub stale_items: usize,
    pub approved: usize,
    pub needs_cleanup: usize,
    pub rejected: usize,
    pub unknown: usize,
    pub ready: usize,
    pub needs_approval: usize,
    pub blocked: usize,
    pub skipped: usize,
    pub by_status_kind: Vec<DriftCleanupTriageBucket>,
    pub unknown_items: Vec<DriftCleanupTriageItem>,
    pub needs_cleanup_items: Vec<DriftCleanupTriageItem>,
    pub next_actions: Vec<String>,
    pub limitations: Vec<String>,
}

/// View of [`DriftCleanupTriageReport`].
#[verifier::ext_equal]
pub struct DriftCleanupTriageReportView {
    pub ok: bool,
    pub read_only: bool,
    pub status: Seq<char>,
    pub request_file: Seq<char>,
    pub current_candidates: nat,
    pub request_items: nat,
    pub matched_current: nat,
    pub missing_current: nat,
    pub stale_items: nat,
    pub approved: nat,
    pub needs_cleanup: nat,
    pub rejected: nat,
    pub unknown: nat,
    pub ready: nat,
    pub needs_approval: nat,
    pub blocked: nat,
    pub skipped: nat,
    pub by_status_kind: Seq<DriftCleanupTriageBucketView>,
    pub unknown_items: Seq<DriftCleanupTriageItemView>,
    pub needs_cleanup_items: Seq<DriftCleanupTriageItemView>,
    pub next_actions: Seq<Seq<char>>,
    pub limitations: Seq<Seq<char>>,
}

impl DeepView for DriftCleanupTriageReport {
    type V = DriftCleanupTriageReportView;

    open spec fn deep_view(&self) -> DriftCleanupTriageReportView {
        DriftCleanupTriageReportView {
            ok: self.ok,
            read_only: self.read_only,
            status: self.status.deep_view(),
            request_file: self.request_file.deep_view(),
            current_candidates: self.current_candidates as nat,
            request_items: self.request_items as nat,
            matched_current: self.matched_current as nat,
            missing_current: self.missing_current as nat,
            stale_items: self.stale_items as nat,
            approved: self.approved as nat,
            needs_cleanup: self.needs_cleanup as nat,
            rejected: self.rejected as nat,
            unknown: self.unknown as nat,
            ready: self.ready as nat,
            needs_approval: self.needs_approval as nat,
            blocked: self.blocked as nat,
            skipped: self.skipped as nat,
            by_status_kind: self.by_status_kind.deep_view(),
            unknown_items: self.unknown_items.deep_view(),
            needs_cleanup_items: self.needs_cleanup_items.deep_view(),
            next_actions: self.next_actions.deep_view(),
            limitations: self.limitations.deep_view(),
        }
    }
}

/// Items with one approval status and kind.
#[derive(Debug)]
pub struct DriftCleanupTriageBucket {
    pub approval_status: String,
    pub kind: String,
    pub items: usize,
}

/// View of [`DriftCleanupTriageBucket`].
#[verifier::ext_equal]
pub struct DriftCleanupTriageBucketView {
    pub approval_status: Seq<char>,
    pub kind: Seq<char>,
    pub items: nat,
}

impl DeepView for DriftCleanupTriageBucket {
    type V = DriftCleanupTriageBucketView;

    open spec fn deep_view(&self) -> DriftCleanupTriageBucketView {
        DriftCleanupTriageBucketView {
            approval_status: self.approval_status.deep_view(),
            kind: self.kind.deep_view(),
            items: self.items as nat,
        }
    }
}

impl Clone for DriftCleanupTriageBucket {
    fn clone(&self) -> (r: Self)
        ensures
            r.deep_view() == self.deep_view(),
    {
        DriftCleanupTriageBucket {
            approval_status: self.approval_status.clone(),
            kind: self.kind.clone(),
            items: self.items,
        }
    }
}

/// One item with its evidence and next step.
#[derive(Debug)]
pub struct DriftCleanupTriageItem {
    pub request_id: String,
    pub kind: String,
    pub target: String,
    pub approval_status: String,
    pub risk: String,
    pub running: Option<bool>,
    pub public_bind: Option<bool>,
    pub data_risk: Option<String>,
    pub observed_status: Option<String>,
    pub current_candidate: bool,
    pub evidence: Vec<String>,
    pub required_evidence: Vec<String>,
    pub blockers: Vec<String>,
    pub suggested_next_step: String,
}

/// View of [`DriftCleanupTriageItem`].
#[verifier::ext_equal]
pub struct DriftCleanupTriageItemView {
    pub request_id: Seq<char>,
    pub kind: Seq<char>,
    pub target: Seq<char>,
    pub approval_status: Seq<char>,
    pub risk: Seq<char>,
    pub running: Option<bool>,
    pub public_bind: Option<bool>,
    pub data_risk: Option<Seq<char>>,
    pub observed_status: Option<Seq<char>>,
    pub current_candidate: bool,
    pub evidence: Seq<Seq<char>>,
    pub required_evidence: Seq<Seq<char>>,
    pub blockers: Seq<Seq<char>>,
    pub suggested_next_step: Seq<char>,
}

impl DeepView for DriftCleanupTriageItem {
    type V = DriftCleanupTriageItemView;

    open spec fn deep_view(&self) -> DriftCleanupTriageItemView {
        DriftCleanupTriageItemView {
            request_id: self.request_id.deep_view(),
            kind: self.kind.deep_view(),
            target: self.target.deep_view(),
            approval_status: self.approval_status.deep_view(),
            risk: self.risk.deep_view(),
            running: self.running.deep_view(),
            public_bind: self.public_bind.deep_view(),
            data_risk: self.data_risk.deep_view(),
            observed_status: self.observed_status.deep_view(),
            current_candidate: self.current_candidate,
            evidence: self.evidence.deep_view(),
            required_evidence: self.required_evidence.deep_view(),
            blockers: self.blockers.deep_view(),
            suggested_next_step: self.suggested_next_step.deep_view(),
        }
    }
}

impl Clone for DriftCleanupTriageItem {
    fn clone(&self) -> (r: Self)
        ensures
            r.deep_view() == self.deep_view(),
    {
        DriftCleanupTriageItem {
            request_id: self.request_id.clone(),
            kind: self.kind.clone(),
            target: self.target.clone(),
            approval_status: self.approval_status.clone(),
            risk: self.risk.clone(),
            running: self.running.clone(),
            public_bind: self.public_bind.clone(),
            data_risk: self.data_risk.clone(),
            observed_status: self.observed_status.clone(),
            current_candidate: self.current_candidate,
            evidence: self.evidence.clone(),
            required_evidence: self.required_evidence.clone(),
            blockers: self.blockers.clone(),
            suggested_next_step: self.suggested_next_step.clone(),
        }
    }
}

/// What a sync changes in a cleanup request.
#[derive(Debug)]
pub struct DriftCleanupSyncReport {
    pub ok: bool,
    pub execute: bool,
    pub status: String,
    pub request_file: String,
    pub backup_file: Option<String>,
    pub current_candidates: usize,
    pub previous_items: usize,
    pub written_items: usize,
    pub matched_current: usize,
    pub added: usize,
    pub removed_stale: usize,
    pub preserved_reviewed: usize,
    pub changed: bool,
    pub diff_summary: Vec<DriftCleanupSyncDiffKind>,
    pub added_items: Vec<DriftCleanupSyncDiffItem>,
    pub removed_stale_items: Vec<DriftCleanupSyncDiffItem>,
    pub entries: Vec<DriftCleanupSyncEntry>,
    pub next_actions: Vec<String>,
    pub limitations: Vec<String>,
}

/// View of [`DriftCleanupSyncReport`].
#[verifier::ext_equal]
pub struct DriftCleanupSyncReportView {
    pub ok: bool,
    pub execute: bool,
    pub status: Seq<char>,
    pub request_file: Seq<char>,
    pub backup_file: Option<Seq<char>>,
    pub current_candidates: nat,
    pub previous_items: nat,
    pub written_items: nat,
    pub matched_current: nat,
    pub added: nat,
    pub removed_stale: nat,
    pub preserved_reviewed: nat,
    pub changed: bool,
    pub diff_summary: Seq<DriftCleanupSyncDiffKindView>,
    pub added_items: Seq<DriftCleanupSyncDiffItemView>,
    pub removed_stale_items: Seq<DriftCleanupSyncDiffItemView>,
    pub entries: Seq<DriftCleanupSyncEntryView>,
    pub next_actions: Seq<Seq<char>>,
    pub limitations: Seq<Seq<char>>,
}

impl DeepView for DriftCleanupSyncReport {
    type V = DriftCleanupSyncReportView;

    open spec fn deep_view(&self) -> DriftCleanupSyncReportView {
        DriftCleanupSyncReportView {
            ok: self.ok,
            execute: self.execute,
            status: self.status.deep_view(),
            request_file: self.request_file.deep_view(),
            backup_file: self.backup_file.deep_view(),
            current_candidates: self.current_candidates as nat,
            previous_items: self.previous_items as nat,
            written_items: self.written_items as nat,
            matched_current: self.matched_current as nat,
            added: self.added as nat,
            removed_stale: self.removed_stale as nat,
            preserved_reviewed: self.preserved_reviewed as nat,
            changed: self.changed,
            diff_summary: self.diff_summary.deep_view(),
            added_items: self.added_items.deep_view(),
            removed_stale_items: self.removed_stale_items.deep_view(),
            entries: self.entries.deep_view(),
            next_actions: self.next_actions.deep_view(),
            limitations: self.limitations.deep_view(),
        }
    }
}

impl Clone for DriftCleanupSyncReport {
    fn clone(&self) -> (r: Self)
        ensures
            r.deep_view() == self.deep_view(),
    {
        DriftCleanupSyncReport {
            ok: self.ok,
            execute: self.execute,
            status: self.status.clone(),
            request_file: self.request_file.clone(),
            backup_file: self.backup_file.clone(),
            current_candidates: self.current_candidates,
            previous_items: self.previous_items,
            written_items: self.written_items,
            matched_current: self.matched_current,
            added: self.added,
            removed_stale: self.removed_stale,
            preserved_reviewed: self.preserved_reviewed,
            changed: self.changed,
            diff_summary: self.diff_summary.clone(),
            added_items: self.added_items.clone(),
            removed_stale_items: self.removed_stale_items.clone(),
            entries: self.entries.clone(),
            next_actions: self.next_actions.clone(),
            limitations: self.limitations.clone(),
        }
    }
}

/// What a sync changes for one kind of resource.
#[derive(Debug)]
pub struct DriftCleanupSyncDiffKind {
    pub kind: String,
    pub added: usize,
    pub removed_stale: usize,
    pub preserved_current: usize,
}

/// View of [`DriftCleanupSyncDiffKind`].
#[verifier::ext_equal]
pub struct DriftCleanupSyncDiffKindView {
    pub kind: Seq<char>,
    pub added: nat,
    pub removed_stale: nat,
    pub preserved_current: nat,
}

impl DeepView for DriftCleanupSyncDiffKind {
    type V = DriftCleanupSyncDiffKindView;

    open spec fn deep_view(&self) -> DriftCleanupSyncDiffKindView {
        DriftCleanupSyncDiffKindView {
            kind: self.kind.deep_view(),
            added: self.added as nat,
            removed_stale: self.removed_stale as nat,
            preserved_current: self.preserved_current as nat,
        }
    }
}

impl Clone for DriftCleanupSyncDiffKind {
    fn clone(&self) -> (r: Self)
        ensures
            r.deep_view() == self.deep_view(),
    {
        DriftCleanupSyncDiffKind {
            kind: self.kind.clone(),
            added: self.added,
            removed_stale: self.removed_stale,
            preserved_current: self.preserved_current,
        }
    }
}

/// A resource that a sync adds or removes.
#[derive(Debug)]
pub struct DriftCleanupSyncDiffItem {
    pub kind: String,
    pub target: String,
    pub action: String,
    pub request_id: Option<String>,
    pub approval_status: Option<String>,
    pub risk: String,
}

/// View of [`DriftCleanupSyncDiffItem`].
#[verifier::ext_equal]
pub struct DriftCleanupSyncDiffItemView {
    pub kind: Seq<char>,
    pub target: Seq<char>,
    pub action: Seq<char>,
    pub request_id: Option<Seq<char>>,
    pub approval_status: Option<Seq<char>>,
    pub risk: Seq<char>,
}

impl DeepView for DriftCleanupSyncDiffItem {
    type V = DriftCleanupSyncDiffItemView;

    open spec fn deep_view(&self) -> DriftCleanupSyncDiffItemView {
        DriftCleanupSyncDiffItemView {
            kind: self.kind.deep_view(),
            target: self.target.deep_view(),
            action: self.action.deep_view(),
            request_id: self.request_id.deep_view(),
            approval_status: self.approval_status.deep_view(),
            risk: self.risk.deep_view(),
        }
    }
}

impl Clone for DriftCleanupSyncDiffItem {
    fn clone(&self) -> (r: Self)
        ensures
            r.deep_view() == self.deep_view(),
    {
        DriftCleanupSyncDiffItem {
            kind: self.kind.clone(),
            target: self.target.clone(),
            action: self.action.clone(),
            request_id: self.request_id.clone(),
            approval_status: self.approval_status.clone(),
            risk: self.risk.clone(),
        }
    }
}

/// What a sync does with one resource.
#[derive(Debug)]
pub struct DriftCleanupSyncEntry {
    pub kind: String,
    pub target: String,
    pub action: String,
    pub previous_request_id: Option<String>,
    pub new_request_id: Option<String>,
    pub approval_status: String,
}

/// View of [`DriftCleanupSyncEntry`].
#[verifier::ext_equal]
pub struct DriftCleanupSyncEntryView {
    pub kind: Seq<char>,
    pub target: Seq<char>,
    pub action: Seq<char>,
    pub previous_request_id: Option<Seq<char>>,
    pub new_request_id: Option<Seq<char>>,
    pub approval_status: Seq<char>,
}

impl DeepView for DriftCleanupSyncEntry {
    type V = DriftCleanupSyncEntryView;

    open spec fn deep_view(&self) -> DriftCleanupSyncEntryView {
        DriftCleanupSyncEntryView {
            kind: self.kind.deep_view(),
            target: self.target.deep_view(),
            action: self.action.deep_view(),
            previous_request_id: self.previous_request_id.deep_view(),
            new_request_id: self.new_request_id.deep_view(),
            approval_status: self.approval_status.deep_view(),
        }
    }
}

impl Clone for DriftCleanupSyncEntry {
    fn clone(&self) -> (r: Self)
        ensures
            r.deep_view() == self.deep_view(),
    {
        DriftCleanupSyncEntry {
            kind: self.kind.clone(),
            target: self.target.clone(),
            action: self.action.clone(),
            previous_request_id: self.previous_request_id.clone(),
            new_request_id: self.new_request_id.clone(),
            approval_status: self.approval_status.clone(),
        }
    }
}

} // verus!
