//! Git's machine-readable output and the commands Smoothee builds for it.
pub mod branches;
pub mod command;
pub mod commit;
pub mod conflicts;
pub mod repository;
pub mod restore;
pub mod state;
pub mod status;

pub use repository::Repository;
