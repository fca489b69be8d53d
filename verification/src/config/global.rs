//! Global configuration paths.
//!
//! Only *where* global config and state live is known today; the richer global
//! settings document arrives later. Centralising path resolution here keeps
//! platform-specific directory logic out of the rest of the codebase.
use vstd::prelude::*;

use crate::text::owned;

verus! {

/// Resolved per-user directories for Smoothee.
#[derive(Debug, Clone)]
pub struct GlobalPaths {
    pub config_dir: String,
    pub data_dir: String,
}

/// The platform's per-user config and data directories for Smoothee
/// (`directories::ProjectDirs::from("dev", "smoothee", "smoothee")`), or
/// `None` when no home directory can be determined. They depend on the
/// environment (the home directory, `XDG_*` variables), so nothing is stated
/// of them.
#[verifier::external_body]
fn project_dirs() -> Option<(String, String)> {
    match directories::ProjectDirs::from("dev", "smoothee", "smoothee") {
        Some(dirs) => Some(
            (
                dirs.config_dir().to_string_lossy().into_owned(),
                dirs.data_dir().to_string_lossy().into_owned(),
            ),
        ),
        None => None,
    }
}

impl GlobalPaths {
    /// Paths made of a config directory and a data directory.
    pub fn from_dirs(config_dir: &str, data_dir: &str) -> (p: Self)
        ensures
            p.config_dir@ == config_dir@,
            p.data_dir@ == data_dir@,
    {
        GlobalPaths { config_dir: owned(config_dir), data_dir: owned(data_dir) }
    }

    /// Resolve the platform-appropriate config and data directories.
    ///
    /// Returns `None` if no home directory can be determined (rare, but
    /// possible in minimal sandboxes); callers should degrade gracefully.
    pub fn resolve() -> Option<Self> {
        match project_dirs() {
            Some((config, data)) => Some(GlobalPaths::from_dirs(config.as_str(), data.as_str())),
            None => None,
        }
    }

    /// Directory for the global config file.
    pub fn config_dir(&self) -> (r: &str)
        ensures
            r@ == self.config_dir@,
    {
        self.config_dir.as_str()
    }

    /// Directory for global state (operation history index, etc.).
    pub fn data_dir(&self) -> (r: &str)
        ensures
            r@ == self.data_dir@,
    {
        self.data_dir.as_str()
    }
}

} // verus!
