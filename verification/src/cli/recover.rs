//! `smoothee recover` — explicitly restore an earlier Smoothee state.
use vstd::prelude::*;

use crate::text::{byte_prefix, byte_prefix_of};

verus! {

/// Flags parsed for `smoothee recover`.
#[derive(Debug, Clone)]
pub struct RecoverArgs {
    /// The operation id (or a unique prefix of it) to recover to.
    pub operation: String,
    /// Show the plan without changing anything.
    pub dry_run: bool,
    /// Skip the confirmation prompt.
    pub yes: bool,
}

/// A commit id cut to its first 8 bytes for display.
pub fn short_sha(value: &str) -> (r: String)
    ensures
        r@ == byte_prefix(value@, 8),
{
    byte_prefix_of(value, 8)
}

} // verus!
