//! The API the web interface speaks to.
pub mod crates;
pub mod login;
pub mod organisations;
pub mod search_users;
pub mod sessions;
pub mod ssh_key;
pub mod users;
