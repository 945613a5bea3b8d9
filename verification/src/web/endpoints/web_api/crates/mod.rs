//! The crates of the registry as the web interface shows them.
pub mod info;
pub mod members;
pub mod search;
