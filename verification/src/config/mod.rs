//! Configuration: per-repository settings and per-user directories.
pub mod global;
pub mod repository;

pub use repository::RepoConfig;
