//! The API cargo speaks to: publishing, yanking, downloading and listing the
//! owners of crates.
pub mod download;
pub mod owners;
pub mod publish;
pub mod yank;
