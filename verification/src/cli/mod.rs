//! The decisions and wording behind each subcommand. Parsing arguments,
//! printing and prompting are the binary's job.
pub mod commit;
pub mod doctor;
pub mod explain;
pub mod history;
pub mod pr;
pub mod recover;
pub mod resolve;
pub mod status;
pub mod sync;
pub mod undo;

use vstd::prelude::*;

use crate::cli::commit::CommitArgs;
use crate::cli::sync::SyncArgs;
use crate::cli::undo::UndoArgs;

verus! {

/// Smoothee — make Git smooth: the parsed command line.
#[derive(Debug)]
pub struct Cli {
    pub command: Command,
}

/// The subcommands.
#[derive(Debug)]
pub enum Command {
    /// Explain repository state in plain language.
    Status,
    /// Safely update the current branch (fetch, restore point, merge/rebase).
    Sync { rebase: bool, merge: bool, dry_run: bool, skip_checks: bool, yes: bool },
    /// Guided merge-conflict resolution.
    Resolve,
    /// Create an intentional commit from staged changes or one logical change group.
    Commit { message: Option<String>, all: bool, group: Option<usize>, dry_run: bool, yes: bool },
    /// Reverse the last Smoothee-managed operation.
    Undo { yes: bool },
    /// Check Git, GitHub CLI, repository, and Smoothee configuration.
    Doctor,
    /// Create a GitHub pull request from the current branch.
    Pr,
}

/// What running a command line does.
#[derive(Debug)]
pub enum Invocation {
    Status,
    Sync(SyncArgs),
    Resolve,
    Commit(CommitArgs),
    Undo(UndoArgs),
    Doctor,
    /// A planned command, announced with the phase it arrives in.
    NotYetImplemented { command: &'static str, phase: &'static str },
}

impl Cli {
    /// The subcommand to run, with its flags gathered into its arguments;
    /// `pr` is announced as not yet implemented.
    pub fn run(self) -> (r: Invocation)
        ensures
            match self.command {
                Command::Status => r is Status,
                Command::Sync { rebase, merge, dry_run, skip_checks, yes } => r matches Invocation::Sync(a)
                    && a == (SyncArgs { rebase, merge, dry_run, skip_checks, yes }),
                Command::Resolve => r is Resolve,
                Command::Commit { message, all, group, dry_run, yes } => r matches Invocation::Commit(a)
                    && a.message == message && a.all == all && a.group == group && a.dry_run == dry_run
                    && a.yes == yes,
                Command::Undo { yes } => r matches Invocation::Undo(a) && a.yes == yes,
                Command::Doctor => r is Doctor,
                Command::Pr => r matches Invocation::NotYetImplemented { command, phase }
                    && command@ == "pr"@ && phase@ == "Phase 4: GitHub workflow"@,
            },
    {
        match self.command {
            Command::Status => Invocation::Status,
            Command::Sync { rebase, merge, dry_run, skip_checks, yes } => Invocation::Sync(
                SyncArgs { rebase, merge, dry_run, skip_checks, yes },
            ),
            Command::Resolve => Invocation::Resolve,
            Command::Commit { message, all, group, dry_run, yes } => Invocation::Commit(
                CommitArgs { message, all, group, dry_run, yes },
            ),
            Command::Undo { yes } => Invocation::Undo(UndoArgs { yes }),
            Command::Doctor => Invocation::Doctor,
            Command::Pr => Invocation::NotYetImplemented {
                command: "pr",
                phase: "Phase 4: GitHub workflow",
            },
        }
    }
}

} // verus!
