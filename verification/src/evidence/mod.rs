//! Signed evidence: keys, signatures, and the audit chain.

pub mod archive;
pub mod backfill;
pub mod bundle;
pub mod chain;
pub mod files;
pub mod keys;
pub mod lines;
pub mod sign;
pub mod types;
