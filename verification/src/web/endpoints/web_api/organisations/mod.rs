//! Organisations, which own crates, and their members.
pub mod crud;
pub mod info;
pub mod list;
pub mod members;
