//! Drift between a server and its registry: findings, review and cleanup.

pub mod adopt;
pub mod approval;
pub mod candidates;
pub mod dashboard;
pub mod documents;
pub mod evidence;
pub mod evidence_plan;
pub mod findings;
pub mod governance;
pub mod groups;
pub mod handoff;
pub mod ignore;
pub mod journal;
pub mod mark;
pub mod ownership;
pub mod plan;
pub mod progress;
pub mod review;
pub mod runbook;
pub mod sync;
pub mod triage;
pub mod types;
pub mod verify;
pub mod volume_scan;
pub mod volumes;
