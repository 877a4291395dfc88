//! Deploys: plans, gates, steps, journals and Caddy.

pub mod files;
pub mod gates;
pub mod journal;
pub mod health;
pub mod operations;
pub mod run;
pub mod types;
pub mod writeback;
