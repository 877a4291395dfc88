//! Careful operations on a single server.
//!
//! A registry declares what a server runs. The library compares it with what is
//! observed, plans deploys and reviews, and keeps signed evidence of what was done.
//! It decides and computes; it reads no file, runs no command and asks no clock.
//! What it needs from outside is handed to it, and what is to be done it says.

pub mod adoption;
pub mod caddy;
pub mod command;
pub mod deploy;
pub mod doctor;
pub mod drift;
pub mod each;
pub mod edits;
pub mod entries;
pub mod env_source;
pub mod evidence;
pub mod hex;
pub mod json;
pub mod list;
pub mod number;
pub mod outside;
pub mod pairs;
pub mod paths;
pub mod registry;
pub mod scan;
pub mod text;
pub mod transaction;
pub mod words;
