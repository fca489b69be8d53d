//! Per-repository configuration, read from `.smoothee.toml` at the repo root.
//!
//! Every field is optional, so a repository with no
//! `.smoothee.toml` still yields a usable default configuration. Reading and
//! parsing the TOML document is the binary's job; these are the values it
//! produces.
use vstd::prelude::*;

verus! {

/// The synchronization strategy Smoothee should prefer.
#[derive(Debug, Clone, Copy, PartialEq, Eq, Structural)]
pub enum SyncStrategy {
    /// Recommend merge or rebase based on whether the branch is shared.
    Auto,
    /// Always rebase.
    Rebase,
    /// Always merge.
    Merge,
}

impl Default for SyncStrategy {
    fn default() -> (s: Self)
        ensures
            s == SyncStrategy::Auto,
    {
        SyncStrategy::Auto
    }
}

/// Project-defined verification commands. Smoothee never hardcodes toolchain
/// commands; it runs exactly what the repository configures.
#[derive(Debug, Clone, PartialEq, Eq)]
pub struct VerificationConfig {
    pub format: Option<String>,
    pub lint: Option<String>,
    pub types: Option<String>,
    pub test: Option<String>,
}

impl Default for VerificationConfig {
    fn default() -> (c: Self)
        ensures
            c.format.is_none(),
            c.lint.is_none(),
            c.types.is_none(),
            c.test.is_none(),
    {
        VerificationConfig { format: None, lint: None, types: None, test: None }
    }
}

/// AI-related settings for a repository.
#[derive(Debug, Clone, PartialEq, Eq)]
pub struct AiConfig {
    pub enabled: bool,
    pub send_surrounding_lines: u32,
    pub confirm_before_send: bool,
}

impl Default for AiConfig {
    /// Safe defaults: AI on, but always confirm before any data leaves.
    fn default() -> (c: Self)
        ensures
            c.enabled,
            c.send_surrounding_lines == 40,
            c.confirm_before_send,
    {
        AiConfig { enabled: true, send_surrounding_lines: 40, confirm_before_send: true }
    }
}

/// Privacy controls: globs that must never be sent to an AI provider.
#[derive(Debug, Clone, PartialEq, Eq)]
pub struct PrivacyConfig {
    pub exclude: Vec<String>,
}

impl Default for PrivacyConfig {
    fn default() -> (c: Self)
        ensures
            c.exclude@.len() == 0,
    {
        PrivacyConfig { exclude: Vec::new() }
    }
}

/// The full `.smoothee.toml` document.
#[derive(Debug, Clone, PartialEq, Eq)]
pub struct RepoConfig {
    pub base_branch: Option<String>,
    pub sync_strategy: SyncStrategy,
    pub verification: VerificationConfig,
    pub ai: AiConfig,
    pub privacy: PrivacyConfig,
}

impl RepoConfig {
    /// The conventional config file name at the repository root.
    pub const FILE_NAME: &'static str = ".smoothee.toml";
}

impl Default for RepoConfig {
    /// The configuration of a repository without a `.smoothee.toml`.
    fn default() -> (c: Self)
        ensures
            c.base_branch.is_none(),
            c.sync_strategy == SyncStrategy::Auto,
            c.verification.format.is_none(),
            c.verification.lint.is_none(),
            c.verification.types.is_none(),
            c.verification.test.is_none(),
            c.ai.enabled,
            c.ai.send_surrounding_lines == 40,
            c.ai.confirm_before_send,
            c.privacy.exclude@.len() == 0,
    {
        RepoConfig {
            base_branch: None,
            sync_strategy: SyncStrategy::default(),
            verification: VerificationConfig::default(),
            ai: AiConfig::default(),
            privacy: PrivacyConfig::default(),
        }
    }
}

} // verus!
