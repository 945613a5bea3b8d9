//! Users as the web interface shows them.
pub mod search;
