//! Caddy: its configuration file and its adapted configuration.

pub mod adapt;
pub mod admin;
pub mod conflicts;
pub mod inspect;
pub mod routes;
pub mod types;
