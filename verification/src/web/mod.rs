//! The rules of the web API: who may log in, what a published crate must
//! look like, and what each refusal is answered with.
pub mod auth;
pub mod endpoints;
pub mod config;
pub mod middleware;
pub mod models;
