//! A user's sessions.
pub mod delete;
