//! A private cargo registry: the permission model, the Git pkt-line
//! protocol spoken to cargo, the layout of the crate index, and the rules
//! the web API applies to the requests it receives.

pub mod permissions;
pub mod text;
pub mod git;
pub mod uuid;
pub mod fs;
pub mod db;
pub mod status;
pub mod types;
pub mod web;
