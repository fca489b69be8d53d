//! `smoothee sync` — safely update the current branch against its base.
//!
//! This is the first *mutating* command, so it is where Smoothee's safety
//! principles become concrete:
//!
//! * **Explain before acting.** Planning performs only non-destructive
//!   inspection (fetch + divergence analysis) and yields a [`SyncPlan`] the
//!   caller renders for approval. Nothing in the working tree changes until the
//!   plan is executed.
//! * **Safe by default.** Execution creates a restore point *before* the
//!   rebase/merge and journals the operation before it runs, so a crash or a
//!   bad outcome is always recoverable through `smoothee undo`.
//! * **Refuse ambiguity gracefully.** When the operation stops on conflicts,
//!   Smoothee leaves the repository exactly as Git left it and hands the user
//!   clear, reversible options rather than guessing.
use vstd::prelude::*;

use crate::config::repository::{RepoConfig, SyncStrategy};
use crate::exchange::{
    git_error_text,
    git_reply, output_of, output_outcome, output_view, run_outcome, succeeds_of,
    succeeds_outcome, GitErrorView, OutputView, Reply, ReplyView, Request, RequestView, Step,
};
use crate::git::branches::{
    detect_first, detect_next, detect_question, merge_base_view, BaseDetection, DetectNext,
    DetectStage, DetectStageView, DivergeNext, DivergeStage, Divergence, diverge_next,
};
use crate::git::command::{GitCommand, GitCommandView, GitError, GitOutput};
use crate::git::repository::Repository;
use crate::exchange::append_reply;
use crate::git::restore::{
    operation_stamp, restore_ref_name, stamp_now, stamp_shaped, update_ref_view, RestorePoint,
};
use crate::git::state::{
    branch_command, branch_view, conflicted_command, conflicted_of, conflicted_outcome,
    current_branch_of, head_command, head_view, merge_head_path, merge_marker,
    paths_result_view, rebase_apply_marker, rebase_apply_path, rebase_merge_marker,
    keep_reset_command, keep_reset_view, rebase_merge_path, verify_command, verify_view,
};
use crate::operations::journal::{
    utc_now, BeforeState, Journal, JournalError, OperationRecord, OperationStatus, RecordView,
    Timestamp,
};
use crate::git::conflicts::string_views;
use crate::text::{owned, push_str};

verus! {

/// A concrete synchronization strategy, after `auto` has been resolved.
#[derive(Debug, Clone, Copy, PartialEq, Eq, Structural)]
pub enum ResolvedStrategy {
    /// Replay local commits on top of the base (`git rebase`).
    Rebase,
    /// Join the histories with a merge commit (`git merge`).
    Merge,
}

pub open spec fn strategy_verb(s: ResolvedStrategy) -> Seq<char> {
    match s {
        ResolvedStrategy::Rebase => "rebase"@,
        ResolvedStrategy::Merge => "merge"@,
    }
}

pub open spec fn strategy_label(s: ResolvedStrategy) -> Seq<char> {
    match s {
        ResolvedStrategy::Rebase => "Rebase"@,
        ResolvedStrategy::Merge => "Merge"@,
    }
}

pub open spec fn strategy_journal_kind(s: ResolvedStrategy) -> Seq<char> {
    match s {
        ResolvedStrategy::Rebase => "sync_rebase"@,
        ResolvedStrategy::Merge => "sync_merge"@,
    }
}

impl ResolvedStrategy {
    /// The lowercase verb, for prose ("Rebasing…", "…using merge").
    pub fn verb(self) -> (r: &'static str)
        ensures
            r@ == strategy_verb(self),
    {
        match self {
            ResolvedStrategy::Rebase => "rebase",
            ResolvedStrategy::Merge => "merge",
        }
    }

    /// The capitalised label, for headings ("Rebase onto…").
    pub fn label(self) -> (r: &'static str)
        ensures
            r@ == strategy_label(self),
    {
        match self {
            ResolvedStrategy::Rebase => "Rebase",
            ResolvedStrategy::Merge => "Merge",
        }
    }

    /// The journal `type` recorded for this strategy.
    pub fn journal_kind(self) -> (r: &'static str)
        ensures
            r@ == strategy_journal_kind(self),
    {
        match self {
            ResolvedStrategy::Rebase => "sync_rebase",
            ResolvedStrategy::Merge => "sync_merge",
        }
    }
}

/// The strategy chosen: an explicit override wins; then a configured
/// strategy; then `auto`, which merges shared branches and rebases private
/// ones.
pub open spec fn chosen_strategy(
    configured: SyncStrategy,
    cli_override: Option<ResolvedStrategy>,
    shared: bool,
) -> ResolvedStrategy {
    match cli_override {
        Some(s) => s,
        None => match configured {
            SyncStrategy::Rebase => ResolvedStrategy::Rebase,
            SyncStrategy::Merge => ResolvedStrategy::Merge,
            SyncStrategy::Auto => if shared {
                ResolvedStrategy::Merge
            } else {
                ResolvedStrategy::Rebase
            },
        },
    }
}

/// The explanation given for the chosen strategy.
pub open spec fn strategy_reason(
    configured: SyncStrategy,
    cli_override: Option<ResolvedStrategy>,
    shared: bool,
) -> Seq<char> {
    match cli_override {
        Some(ResolvedStrategy::Rebase) => "You asked for a rebase with --rebase."@,
        Some(ResolvedStrategy::Merge) => "You asked for a merge with --merge."@,
        None => match configured {
            SyncStrategy::Rebase => "Your .smoothee.toml sets sync_strategy = \"rebase\"."@,
            SyncStrategy::Merge => "Your .smoothee.toml sets sync_strategy = \"merge\"."@,
            SyncStrategy::Auto => if shared {
                "Your branch has been pushed, so others may have it. Merging avoids rewriting history they might already share."@
            } else {
                "Your branch has not been shared, so rebasing keeps its history clean without an unnecessary merge commit."@
            },
        },
    }
}

/// Choose merge vs. rebase and explain why — the deterministic recommendation
/// at the heart of `sync`.
///
/// Precedence: an explicit CLI override wins; then a configured strategy; then
/// `auto`, which rebases private branches (clean history) and merges shared
/// ones (never rewrite published commits).
pub fn choose_strategy(
    configured: SyncStrategy,
    cli_override: Option<ResolvedStrategy>,
    shared: bool,
) -> (r: (ResolvedStrategy, String))
    ensures
        r.0 == chosen_strategy(configured, cli_override, shared),
        r.1@ == strategy_reason(configured, cli_override, shared),
{
    if let Some(strategy) = cli_override {
        let reason = match strategy {
            ResolvedStrategy::Rebase => "You asked for a rebase with --rebase.",
            ResolvedStrategy::Merge => "You asked for a merge with --merge.",
        };
        return (strategy, owned(reason));
    }
    match configured {
        SyncStrategy::Rebase => (
            ResolvedStrategy::Rebase,
            owned("Your .smoothee.toml sets sync_strategy = \"rebase\"."),
        ),
        SyncStrategy::Merge => (
            ResolvedStrategy::Merge,
            owned("Your .smoothee.toml sets sync_strategy = \"merge\"."),
        ),
        SyncStrategy::Auto => if shared {
            (
                ResolvedStrategy::Merge,
                owned(
                    "Your branch has been pushed, so others may have it. Merging avoids rewriting history they might already share.",
                ),
            )
        } else {
            (
                ResolvedStrategy::Rebase,
                owned(
                    "Your branch has not been shared, so rebasing keeps its history clean without an unnecessary merge commit.",
                ),
            )
        },
    }
}

/// Without an override, a configured strategy is followed as configured,
/// whether or not the branch is shared, and the reason names the setting;
/// only `auto` looks at sharing, rebasing a branch nobody else has.
pub proof fn configured_strategy_is_followed(shared: bool)
    ensures
        chosen_strategy(SyncStrategy::Merge, None, shared) == ResolvedStrategy::Merge,
        chosen_strategy(SyncStrategy::Rebase, None, shared) == ResolvedStrategy::Rebase,
        chosen_strategy(SyncStrategy::Auto, None, false) == ResolvedStrategy::Rebase,
        strategy_reason(SyncStrategy::Merge, None, shared)
            == "Your .smoothee.toml sets sync_strategy = \"merge\"."@,
        strategy_reason(SyncStrategy::Rebase, None, shared)
            == "Your .smoothee.toml sets sync_strategy = \"rebase\"."@,
{
}

/// Published history is never rewritten unasked: with no override and no
/// configured strategy, a shared branch is always merged, never rebased.
pub proof fn auto_never_rebases_shared(cli_override: Option<ResolvedStrategy>)
    ensures
        chosen_strategy(SyncStrategy::Auto, None, true) == ResolvedStrategy::Merge,
        cli_override matches Some(s) ==> forall|c: SyncStrategy, sh: bool|
            chosen_strategy(c, cli_override, sh) == s,
{
}


// ---------------------------------------------------------------------------
// Planning
// ---------------------------------------------------------------------------

/// A ready-to-approve synchronization plan: what Smoothee found and what it
/// intends to do. Produced by inspection only; holds no side effects.
#[derive(Debug, Clone)]
pub struct SyncPlan {
    /// The branch being synchronized.
    pub branch: String,
    /// The base branch name (e.g. `main`).
    pub base_name: String,
    /// The remote-tracking ref the operation targets (e.g. `origin/main`).
    pub remote_ref: String,
    /// Commits the branch is ahead of the base.
    pub ahead: u32,
    /// Commits the branch is behind the base.
    pub behind: u32,
    /// The resolved strategy.
    pub strategy: ResolvedStrategy,
    /// Why that strategy was chosen.
    pub reason: String,
}

/// The mathematical content of a [`SyncPlan`].
pub struct SyncPlanView {
    pub branch: Seq<char>,
    pub base_name: Seq<char>,
    pub remote_ref: Seq<char>,
    pub ahead: u32,
    pub behind: u32,
    pub strategy: ResolvedStrategy,
    pub reason: Seq<char>,
}

impl View for SyncPlan {
    type V = SyncPlanView;

    open spec fn view(&self) -> SyncPlanView {
        SyncPlanView {
            branch: self.branch@,
            base_name: self.base_name@,
            remote_ref: self.remote_ref@,
            ahead: self.ahead,
            behind: self.behind,
            strategy: self.strategy,
            reason: self.reason@,
        }
    }
}

/// `git rebase <ref>` or `git merge --no-edit <ref>`.
pub open spec fn mutation_view(dir: Seq<char>, strategy: ResolvedStrategy, remote_ref: Seq<char>) -> GitCommandView {
    match strategy {
        ResolvedStrategy::Rebase => GitCommandView {
            args: seq!["rebase"@, remote_ref],
            cwd: Some(dir),
            env: seq![],
        },
        ResolvedStrategy::Merge => GitCommandView {
            args: seq!["merge"@, "--no-edit"@, remote_ref],
            cwd: Some(dir),
            env: seq![],
        },
    }
}

impl SyncPlan {
    /// The Git command that performs the synchronization, rendered for the
    /// "Running:" transparency block before it runs.
    pub fn mutation_command(&self, repo: &Repository) -> (c: GitCommand)
        ensures
            c@ == mutation_view(repo.workdir@, self.strategy, self.remote_ref@),
    {
        match self.strategy {
            ResolvedStrategy::Rebase => {
                let c = repo.git("rebase").arg(self.remote_ref.as_str());
                assert(c@.args =~= seq!["rebase"@, self.remote_ref@]);
                c
            },
            ResolvedStrategy::Merge => {
                let c = repo.git("merge").arg("--no-edit").arg(self.remote_ref.as_str());
                assert(c@.args =~= seq!["merge"@, "--no-edit"@, self.remote_ref@]);
                c
            },
        }
    }
}

/// The result of planning: either there is nothing to do, or a plan awaits
/// approval.
#[derive(Debug, Clone)]
pub enum SyncPlanOutcome {
    /// The branch is not behind its base; no synchronization is needed.
    AlreadyUpToDate { ahead: u32, base_name: String },
    /// A plan is ready for the user to approve.
    Planned(SyncPlan),
}

pub enum PlanOutcomeView {
    AlreadyUpToDate { ahead: u32, base_name: Seq<char> },
    Planned(SyncPlanView),
}

impl View for SyncPlanOutcome {
    type V = PlanOutcomeView;

    open spec fn view(&self) -> PlanOutcomeView {
        match self {
            SyncPlanOutcome::AlreadyUpToDate { ahead, base_name } => PlanOutcomeView::AlreadyUpToDate {
                ahead: *ahead,
                base_name: base_name@,
            },
            SyncPlanOutcome::Planned(p) => PlanOutcomeView::Planned(p@),
        }
    }
}

/// Errors specific to synchronization, kept distinct so the CLI can phrase them
/// helpfully rather than surfacing raw Git failures.
#[derive(Debug)]
pub enum SyncError {
    /// Not on a branch.
    DetachedHead,
    /// The repository has no commits yet.
    NoCommits,
    /// No base branch could be determined.
    NoBaseBranch,
    /// The remote-tracking ref of the base was not found after fetching.
    MissingRemoteRef(String),
    /// The branch and the base share no history.
    UnrelatedHistories(String),
    /// The operation failed and the branch was restored.
    OperationFailed { strategy: &'static str, stderr: String },
    Git(GitError),
    Journal(JournalError),
}

pub enum SyncErrorView {
    DetachedHead,
    NoCommits,
    NoBaseBranch,
    MissingRemoteRef(Seq<char>),
    UnrelatedHistories(Seq<char>),
    OperationFailed { strategy: Seq<char>, stderr: Seq<char> },
    Git(GitErrorView),
    Journal(Seq<char>),
}

impl View for SyncError {
    type V = SyncErrorView;

    open spec fn view(&self) -> SyncErrorView {
        match self {
            SyncError::DetachedHead => SyncErrorView::DetachedHead,
            SyncError::NoCommits => SyncErrorView::NoCommits,
            SyncError::NoBaseBranch => SyncErrorView::NoBaseBranch,
            SyncError::MissingRemoteRef(r) => SyncErrorView::MissingRemoteRef(r@),
            SyncError::UnrelatedHistories(r) => SyncErrorView::UnrelatedHistories(r@),
            SyncError::OperationFailed { strategy, stderr } => SyncErrorView::OperationFailed {
                strategy: strategy@,
                stderr: stderr@,
            },
            SyncError::Git(e) => SyncErrorView::Git(e@),
            SyncError::Journal(e) => SyncErrorView::Journal(e.message@),
        }
    }
}

/// How a synchronization error reads.
pub open spec fn sync_error_text(e: SyncErrorView) -> Seq<char> {
    match e {
        SyncErrorView::DetachedHead => "you are not on a branch (detached HEAD); check out a branch before syncing"@,
        SyncErrorView::NoCommits => "this repository has no commits yet; make a commit before syncing"@,
        SyncErrorView::NoBaseBranch => "could not determine a base branch to sync against (set base_branch in .smoothee.toml)"@,
        SyncErrorView::MissingRemoteRef(r) => "no remote branch "@ + r
            + " was found after fetching (has the base been pushed?)"@,
        SyncErrorView::UnrelatedHistories(b) => "your branch and "@ + b
            + " share no history, so they cannot be synchronized"@,
        SyncErrorView::OperationFailed { strategy, stderr } => "the `"@ + strategy
            + "` failed and Smoothee restored your branch to where it was.\n"@ + stderr,
        SyncErrorView::Git(g) => git_error_text(g),
        SyncErrorView::Journal(m) => m,
    }
}

impl SyncError {
    /// The message shown for the error.
    pub fn message(&self) -> (r: String)
        ensures
            r@ == sync_error_text(self@),
    {
        match self {
            SyncError::DetachedHead => owned(
                "you are not on a branch (detached HEAD); check out a branch before syncing",
            ),
            SyncError::NoCommits => owned("this repository has no commits yet; make a commit before syncing"),
            SyncError::NoBaseBranch => owned(
                "could not determine a base branch to sync against (set base_branch in .smoothee.toml)",
            ),
            SyncError::MissingRemoteRef(r) => {
                let mut s = owned("no remote branch ");
                push_str(&mut s, r.as_str());
                push_str(&mut s, " was found after fetching (has the base been pushed?)");
                s
            },
            SyncError::UnrelatedHistories(b) => {
                let mut s = owned("your branch and ");
                push_str(&mut s, b.as_str());
                push_str(&mut s, " share no history, so they cannot be synchronized");
                s
            },
            SyncError::OperationFailed { strategy, stderr } => {
                let mut s = owned("the `");
                push_str(&mut s, strategy);
                push_str(&mut s, "` failed and Smoothee restored your branch to where it was.\n");
                push_str(&mut s, stderr.as_str());
                s
            },
            SyncError::Git(g) => g.message(),
            SyncError::Journal(j) => j.message.clone(),
        }
    }
}

/// Where planning stands: which question it is waiting on, and what it has
/// learnt so far (the branch, then the base, then the divergence).
#[derive(Debug)]
pub enum PlanStage {
    Branch,
    HasCommits(String),
    Detect(String, BaseDetection),
    Fetch(String, String),
    RemoteExists(String, String),
    Diverge(String, String, Divergence),
    Shared(String, String, u32, u32),
    Finished,
}

pub enum PlanStageView {
    Branch,
    HasCommits(Seq<char>),
    Detect(Seq<char>, DetectStageView),
    Fetch(Seq<char>, Seq<char>),
    RemoteExists(Seq<char>, Seq<char>),
    Diverge(Seq<char>, Seq<char>, DivergeStage),
    Shared(Seq<char>, Seq<char>, u32, u32),
    Finished,
}

impl View for PlanStage {
    type V = PlanStageView;

    open spec fn view(&self) -> PlanStageView {
        match self {
            PlanStage::Branch => PlanStageView::Branch,
            PlanStage::HasCommits(b) => PlanStageView::HasCommits(b@),
            PlanStage::Detect(b, d) => PlanStageView::Detect(b@, d.stage@),
            PlanStage::Fetch(b, base) => PlanStageView::Fetch(b@, base@),
            PlanStage::RemoteExists(b, base) => PlanStageView::RemoteExists(b@, base@),
            PlanStage::Diverge(b, base, d) => PlanStageView::Diverge(b@, base@, d.stage),
            PlanStage::Shared(b, base, a, bh) => PlanStageView::Shared(b@, base@, *a, *bh),
            PlanStage::Finished => PlanStageView::Finished,
        }
    }
}

/// What the engine knows before it starts: the repository, its
/// configuration and the remote it syncs against.
pub struct EngineView {
    pub dir: Seq<char>,
    pub git_dir: Seq<char>,
    pub configured_base: Option<Seq<char>>,
    pub strategy: SyncStrategy,
    pub journal: Seq<char>,
    pub remote: Seq<char>,
}

/// `git fetch <remote> <base>`.
pub open spec fn fetch_view(dir: Seq<char>, remote: Seq<char>, base: Seq<char>) -> GitCommandView {
    GitCommandView { args: seq!["fetch"@, remote, base], cwd: Some(dir), env: seq![] }
}

/// The remote-tracking ref of `base` (e.g. `origin/main`).
pub open spec fn remote_ref_of(remote: Seq<char>, base: Seq<char>) -> Seq<char> {
    remote + "/"@ + base
}

/// The ref that exists once `branch` has been pushed to `remote`.
pub open spec fn published_ref(remote: Seq<char>, branch: Seq<char>) -> Seq<char> {
    "refs/remotes/"@ + remote + "/"@ + branch
}

/// What planning does next: ask a `git` question, or report its result.
pub enum PlanNext {
    Ask(GitCommandView),
    Done(Result<PlanOutcomeView, SyncErrorView>),
}

/// One step of planning, given the reply to the stage's question.
///
/// Planning asks, in order: the current branch (a detached HEAD is refused);
/// whether HEAD has a commit (an unborn branch is refused); the base branch
/// (see [`detect_next`]; none found is refused); it then fetches the base
/// from the remote, checks the remote-tracking ref exists, and measures the
/// divergence of HEAD from it (no shared history is refused). Not being
/// behind means there is nothing to do; otherwise it asks whether the
/// branch was published and chooses the strategy with [`chosen_strategy`].
/// A `git` failure ends planning with that error.
pub open spec fn plan_next(e: EngineView, cli: Option<ResolvedStrategy>, stage: PlanStageView, reply: ReplyView) -> (PlanStageView, PlanNext) {
    let fail = |x: GitErrorView| (PlanStageView::Finished, PlanNext::Done(Err(SyncErrorView::Git(x))));
    let refuse = |x: SyncErrorView| (PlanStageView::Finished, PlanNext::Done(Err(x)));
    match stage {
        PlanStageView::Branch => match run_outcome(branch_view(e.dir), reply) {
            Err(x) => fail(x),
            Ok(o) => if !o.success {
                refuse(SyncErrorView::DetachedHead)
            } else {
                (PlanStageView::HasCommits(o.stdout), PlanNext::Ask(verify_view(e.dir, "HEAD"@)))
            },
        },
        PlanStageView::HasCommits(b) => match succeeds_outcome(verify_view(e.dir, "HEAD"@), reply) {
            Err(x) => fail(x),
            Ok(false) => refuse(SyncErrorView::NoCommits),
            Ok(true) => (
                PlanStageView::Detect(b, detect_first(e.configured_base)),
                PlanNext::Ask(detect_question(e.dir, detect_first(e.configured_base))),
            ),
        },
        PlanStageView::Detect(b, d) => match detect_next(d, e.dir, reply) {
            (d2, DetectNext::Ask(c)) => (PlanStageView::Detect(b, d2), PlanNext::Ask(c)),
            (_, DetectNext::Done(Err(x))) => fail(x),
            (_, DetectNext::Done(Ok(None))) => refuse(SyncErrorView::NoBaseBranch),
            (_, DetectNext::Done(Ok(Some((base, _))))) => (
                PlanStageView::Fetch(b, base),
                PlanNext::Ask(fetch_view(e.dir, e.remote, base)),
            ),
        },
        PlanStageView::Fetch(b, base) => match output_outcome(fetch_view(e.dir, e.remote, base), reply) {
            Err(x) => fail(x),
            Ok(_) => (
                PlanStageView::RemoteExists(b, base),
                PlanNext::Ask(verify_view(e.dir, remote_ref_of(e.remote, base) + "^{commit}"@)),
            ),
        },
        PlanStageView::RemoteExists(b, base) => match succeeds_outcome(
            verify_view(e.dir, remote_ref_of(e.remote, base) + "^{commit}"@),
            reply,
        ) {
            Err(x) => fail(x),
            Ok(false) => refuse(SyncErrorView::MissingRemoteRef(remote_ref_of(e.remote, base))),
            Ok(true) => (
                PlanStageView::Diverge(b, base, DivergeStage::MergeBase),
                PlanNext::Ask(merge_base_view(e.dir, "HEAD"@, remote_ref_of(e.remote, base))),
            ),
        },
        PlanStageView::Diverge(b, base, d) => match diverge_next(
            d,
            e.dir,
            "HEAD"@,
            remote_ref_of(e.remote, base),
            reply,
        ) {
            (d2, DivergeNext::Ask(c)) => (PlanStageView::Diverge(b, base, d2), PlanNext::Ask(c)),
            (_, DivergeNext::Done(Err(x))) => fail(x),
            (_, DivergeNext::Done(Ok(None))) => refuse(
                SyncErrorView::UnrelatedHistories(remote_ref_of(e.remote, base)),
            ),
            (_, DivergeNext::Done(Ok(Some((ahead, behind))))) => if behind == 0 {
                (
                    PlanStageView::Finished,
                    PlanNext::Done(
                        Ok(PlanOutcomeView::AlreadyUpToDate { ahead, base_name: base }),
                    ),
                )
            } else {
                (
                    PlanStageView::Shared(b, base, ahead, behind),
                    PlanNext::Ask(verify_view(e.dir, published_ref(e.remote, b))),
                )
            },
        },
        PlanStageView::Shared(b, base, ahead, behind) => match succeeds_outcome(
            verify_view(e.dir, published_ref(e.remote, b)),
            reply,
        ) {
            Err(x) => fail(x),
            Ok(shared) => (
                PlanStageView::Finished,
                PlanNext::Done(
                    Ok(
                        PlanOutcomeView::Planned(
                            SyncPlanView {
                                branch: b,
                                base_name: base,
                                remote_ref: remote_ref_of(e.remote, base),
                                ahead,
                                behind,
                                strategy: chosen_strategy(e.strategy, cli, shared),
                                reason: strategy_reason(e.strategy, cli, shared),
                            },
                        ),
                    ),
                ),
            ),
        },
        PlanStageView::Finished => refuse(SyncErrorView::NoBaseBranch),
    }
}

pub open spec fn plan_result_view(r: Result<SyncPlanOutcome, SyncError>) -> Result<PlanOutcomeView, SyncErrorView> {
    match r {
        Ok(o) => Ok(o@),
        Err(e) => Err(e@),
    }
}

pub open spec fn plan_step_is(step: Step<Result<SyncPlanOutcome, SyncError>>, next: PlanNext) -> bool {
    match next {
        PlanNext::Ask(c) => step matches Step::Ask(q) && q@ == RequestView::Git(c),
        PlanNext::Done(res) => step matches Step::Done(x) && plan_result_view(x) == res,
    }
}

/// Drives synchronization for one repository.
#[derive(Debug)]
pub struct SyncEngine {
    pub repo: Repository,
    pub base_branch: Option<String>,
    pub strategy: SyncStrategy,
    pub journal: Journal,
    pub remote: String,
}

/// Planning a synchronization, one `git` question at a time.
#[derive(Debug)]
pub struct SyncPlanning {
    pub engine: SyncEngine,
    pub cli_override: Option<ResolvedStrategy>,
    pub stage: PlanStage,
}

impl SyncEngine {
    /// An engine for `repo` under `config`, journaling to `journal`, that
    /// targets the remote `origin`.
    pub fn new(repo: &Repository, config: &RepoConfig, journal: &Journal) -> (r: Self)
        ensures
            r.repo.workdir@ == repo.workdir@,
            r.repo.git_dir@ == repo.git_dir@,
            crate::text::opt_view(r.base_branch) == crate::text::opt_view(config.base_branch),
            r.strategy == config.sync_strategy,
            r.journal.path@ == journal.path@,
            r.remote@ == "origin"@,
    {
        SyncEngine {
            repo: Repository::new(repo.workdir(), repo.git_dir()),
            base_branch: match &config.base_branch {
                Some(b) => Some(b.clone()),
                None => None,
            },
            strategy: config.sync_strategy,
            journal: Journal { path: journal.path.clone() },
            remote: owned("origin"),
        }
    }

    /// A copy of the engine.
    pub fn copy(&self) -> (r: Self)
        ensures
            r.view() == self.view(),
            r.repo.workdir@ == self.repo.workdir@,
            r.repo.git_dir@ == self.repo.git_dir@,
    {
        SyncEngine {
            repo: Repository::new(self.repo.workdir(), self.repo.git_dir()),
            base_branch: match &self.base_branch {
                Some(b) => Some(b.clone()),
                None => None,
            },
            strategy: self.strategy,
            journal: Journal { path: self.journal.path.clone() },
            remote: self.remote.clone(),
        }
    }

    pub open spec fn view(&self) -> EngineView {
        EngineView {
            dir: self.repo.workdir@,
            git_dir: self.repo.git_dir@,
            configured_base: crate::text::opt_view(self.base_branch),
            strategy: self.strategy,
            journal: self.journal.path@,
            remote: self.remote@,
        }
    }

    /// Inspect the repository and build a plan. Non-destructive: it fetches the
    /// base branch (updating remote-tracking refs only) and computes divergence,
    /// but touches neither the working tree nor local branch pointers. Starts
    /// by asking for the current branch.
    pub fn plan(&self, cli_override: Option<ResolvedStrategy>) -> (r: (
        SyncPlanning,
        Step<Result<SyncPlanOutcome, SyncError>>,
    ))
        ensures
            r.0.engine.view() == self.view(),
            r.0.cli_override == cli_override,
            r.0.stage@ == PlanStageView::Branch,
            r.0.wf(),
            plan_step_is(r.1, PlanNext::Ask(branch_view(self.repo.workdir@))),
    {
        let c = branch_command(&self.repo);
        (
            SyncPlanning { engine: self.copy(), cli_override, stage: PlanStage::Branch },
            Step::Ask(Request::Git(c)),
        )
    }
}

fn remote_ref(remote: &str, base: &str) -> (r: String)
    ensures
        r@ == remote_ref_of(remote@, base@),
{
    let mut r = owned(remote);
    push_str(&mut r, "/");
    push_str(&mut r, base);
    r
}

impl SyncPlanning {
    /// The sub-computations in progress work on the engine's repository:
    /// detection within it, divergence of `HEAD` from the base's
    /// remote-tracking ref.
    pub open spec fn wf(&self) -> bool {
        match self.stage {
            PlanStage::Detect(_, d) => d.wf() && d.repo.workdir@ == self.engine.repo.workdir@
                && !(d.stage is Finished),
            PlanStage::Diverge(_, base, d) => d.repo.workdir@ == self.engine.repo.workdir@
                && d.branch@ == "HEAD"@ && d.base@ == remote_ref_of(self.engine.remote@, base@)
                && !(d.stage is Finished),
            _ => true,
        }
    }

    /// Go on with the reply to the last question.
    #[verifier::rlimit(80)]
    pub fn resume(&mut self, reply: Reply) -> (r: Step<Result<SyncPlanOutcome, SyncError>>)
        requires
            old(self).wf(),
            !(old(self).stage is Finished),
            git_reply(reply@),
        ensures
            final(self).wf(),
            final(self).engine.view() == old(self).engine.view(),
            final(self).cli_override == old(self).cli_override,
            final(self).stage@ == plan_next(
                old(self).engine.view(),
                old(self).cli_override,
                old(self).stage@,
                reply@,
            ).0,
            plan_step_is(
                r,
                plan_next(old(self).engine.view(), old(self).cli_override, old(self).stage@, reply@).1,
            ),
    {
        let mut stage = PlanStage::Finished;
        std::mem::swap(&mut stage, &mut self.stage);
        let repo = &self.engine.repo;
        match stage {
            PlanStage::Branch => match current_branch_of(repo, reply) {
                Err(x) => Step::Done(Err(SyncError::Git(x))),
                Ok(None) => Step::Done(Err(SyncError::DetachedHead)),
                Ok(Some(b)) => {
                    self.stage = PlanStage::HasCommits(b);
                    Step::Ask(Request::Git(verify_command(repo, "HEAD")))
                },
            },
            PlanStage::HasCommits(b) => {
                let asked = verify_command(repo, "HEAD");
                match succeeds_of(&asked, reply) {
                    Err(x) => Step::Done(Err(SyncError::Git(x))),
                    Ok(false) => Step::Done(Err(SyncError::NoCommits)),
                    Ok(true) => {
                        let configured = match &self.engine.base_branch {
                            Some(c) => Some(c.as_str()),
                            None => None,
                        };
                        let (d, step) = BaseDetection::begin(repo, configured);
                        self.stage = PlanStage::Detect(b, d);
                        match step {
                            Step::Ask(q) => Step::Ask(q),
                            Step::Done(_) => Step::Done(Err(SyncError::NoBaseBranch)),
                        }
                    },
                }
            },
            PlanStage::Detect(b, mut d) => {
                let step = d.resume(reply);
                match step {
                    Step::Ask(q) => {
                        self.stage = PlanStage::Detect(b, d);
                        Step::Ask(q)
                    },
                    Step::Done(Err(x)) => Step::Done(Err(SyncError::Git(x))),
                    Step::Done(Ok(None)) => Step::Done(Err(SyncError::NoBaseBranch)),
                    Step::Done(Ok(Some(base))) => {
                        let c = repo.git("fetch").arg(self.engine.remote.as_str()).arg(
                            base.name.as_str(),
                        );
                        assert(c@.args =~= fetch_view(
                            repo.workdir@,
                            self.engine.remote@,
                            base.name@,
                        ).args);
                        self.stage = PlanStage::Fetch(b, base.name);
                        Step::Ask(Request::Git(c))
                    },
                }
            },
            PlanStage::Fetch(b, base) => {
                let asked = repo.git("fetch").arg(self.engine.remote.as_str()).arg(base.as_str());
                assert(asked@.args =~= fetch_view(repo.workdir@, self.engine.remote@, base@).args);
                match output_of(&asked, reply) {
                    Err(x) => Step::Done(Err(SyncError::Git(x))),
                    Ok(_) => {
                        let mut target = remote_ref(self.engine.remote.as_str(), base.as_str());
                        push_str(&mut target, "^{commit}");
                        let c = verify_command(repo, target.as_str());
                        self.stage = PlanStage::RemoteExists(b, base);
                        Step::Ask(Request::Git(c))
                    },
                }
            },
            PlanStage::RemoteExists(b, base) => {
                let rref = remote_ref(self.engine.remote.as_str(), base.as_str());
                let mut target = rref.clone();
                push_str(&mut target, "^{commit}");
                let asked = verify_command(repo, target.as_str());
                match succeeds_of(&asked, reply) {
                    Err(x) => Step::Done(Err(SyncError::Git(x))),
                    Ok(false) => Step::Done(Err(SyncError::MissingRemoteRef(rref))),
                    Ok(true) => {
                        let (d, step) = Divergence::begin(repo, "HEAD", rref.as_str());
                        self.stage = PlanStage::Diverge(b, base, d);
                        match step {
                            Step::Ask(q) => Step::Ask(q),
                            Step::Done(_) => Step::Done(Err(SyncError::NoBaseBranch)),
                        }
                    },
                }
            },
            PlanStage::Diverge(b, base, mut d) => {
                let step = d.resume(reply);
                match step {
                    Step::Ask(q) => {
                        self.stage = PlanStage::Diverge(b, base, d);
                        Step::Ask(q)
                    },
                    Step::Done(Err(x)) => Step::Done(Err(SyncError::Git(x))),
                    Step::Done(Ok(None)) => Step::Done(
                        Err(SyncError::UnrelatedHistories(remote_ref(self.engine.remote.as_str(), base.as_str()))),
                    ),
                    Step::Done(Ok(Some((ahead, behind)))) => if behind == 0 {
                        Step::Done(Ok(SyncPlanOutcome::AlreadyUpToDate { ahead, base_name: base }))
                    } else {
                        let mut published = owned("refs/remotes/");
                        push_str(&mut published, self.engine.remote.as_str());
                        push_str(&mut published, "/");
                        push_str(&mut published, b.as_str());
                        let c = verify_command(repo, published.as_str());
                        self.stage = PlanStage::Shared(b, base, ahead, behind);
                        Step::Ask(Request::Git(c))
                    },
                }
            },
            PlanStage::Shared(b, base, ahead, behind) => {
                let mut published = owned("refs/remotes/");
                push_str(&mut published, self.engine.remote.as_str());
                push_str(&mut published, "/");
                push_str(&mut published, b.as_str());
                let asked = verify_command(repo, published.as_str());
                match succeeds_of(&asked, reply) {
                    Err(x) => Step::Done(Err(SyncError::Git(x))),
                    Ok(shared) => {
                        let (strategy, reason) = choose_strategy(
                            self.engine.strategy,
                            self.cli_override,
                            shared,
                        );
                        let rref = remote_ref(self.engine.remote.as_str(), base.as_str());
                        Step::Done(
                            Ok(
                                SyncPlanOutcome::Planned(
                                    SyncPlan {
                                        branch: b,
                                        base_name: base,
                                        remote_ref: rref,
                                        ahead,
                                        behind,
                                        strategy,
                                        reason,
                                    },
                                ),
                            ),
                        )
                    },
                }
            },
            PlanStage::Finished => Step::Done(Err(SyncError::NoBaseBranch)),
        }
    }
}


// ---------------------------------------------------------------------------
// Execution
// ---------------------------------------------------------------------------

/// The result of executing an approved plan.
#[derive(Debug)]
pub enum SyncResult {
    /// The synchronization completed and the working tree is clean.
    Completed { restore: RestorePoint, strategy: ResolvedStrategy },
    /// The operation stopped on conflicts. The repository is left mid-operation
    /// (as Git leaves it) and the restore point is the way back.
    Conflicted { restore: RestorePoint, files: Vec<String>, strategy: ResolvedStrategy },
}

pub enum SyncResultView {
    Completed { restore: (Seq<char>, Seq<char>), strategy: ResolvedStrategy },
    Conflicted { restore: (Seq<char>, Seq<char>), files: Seq<Seq<char>>, strategy: ResolvedStrategy },
}

impl View for SyncResult {
    type V = SyncResultView;

    open spec fn view(&self) -> SyncResultView {
        match self {
            SyncResult::Completed { restore, strategy } => SyncResultView::Completed {
                restore: (restore.ref_name@, restore.head@),
                strategy: *strategy,
            },
            SyncResult::Conflicted { restore, files, strategy } => SyncResultView::Conflicted {
                restore: (restore.ref_name@, restore.head@),
                files: string_views(files@),
                strategy: *strategy,
            },
        }
    }
}

/// Where execution stands. Each stage but the first carries the HEAD the
/// branch was at before the operation.
#[derive(Debug)]
pub enum ExecStage {
    /// Waiting for the current HEAD.
    Head,
    /// Waiting for the restore point to be pinned.
    Pin(String),
    /// Waiting for the started record to be journaled.
    Journal(String),
    /// Waiting for the rebase or merge.
    Mutate(String),
    /// Waiting for the conflicted paths; the mutation's output.
    Conflicts(String, GitOutput),
    /// Waiting to learn whether a merge-backed rebase is in progress.
    RebaseMerge(String, GitOutput, Vec<String>),
    /// Waiting to learn whether an apply-backed rebase is in progress.
    RebaseApply(String, GitOutput, Vec<String>),
    /// Waiting to learn whether a merge is in progress.
    MergeHead(String, GitOutput, Vec<String>),
    /// Waiting for the branch to be reset after a failure; its stderr.
    Reset(String, String),
    /// Waiting for the failure to be journaled.
    Fail(String, String),
    /// Waiting for the HEAD after a clean completion.
    After(String),
    /// Waiting for the completion to be journaled.
    Complete(String, String),
    Finished,
}

pub enum ExecStageView {
    Head,
    Pin(Seq<char>),
    Journal(Seq<char>),
    Mutate(Seq<char>),
    Conflicts(Seq<char>, OutputView),
    RebaseMerge(Seq<char>, OutputView, Seq<Seq<char>>),
    RebaseApply(Seq<char>, OutputView, Seq<Seq<char>>),
    MergeHead(Seq<char>, OutputView, Seq<Seq<char>>),
    Reset(Seq<char>, Seq<char>),
    Fail(Seq<char>, Seq<char>),
    After(Seq<char>),
    Complete(Seq<char>, Seq<char>),
    Finished,
}

impl View for ExecStage {
    type V = ExecStageView;

    open spec fn view(&self) -> ExecStageView {
        match self {
            ExecStage::Head => ExecStageView::Head,
            ExecStage::Pin(h) => ExecStageView::Pin(h@),
            ExecStage::Journal(h) => ExecStageView::Journal(h@),
            ExecStage::Mutate(h) => ExecStageView::Mutate(h@),
            ExecStage::Conflicts(h, o) => ExecStageView::Conflicts(h@, output_view(*o)),
            ExecStage::RebaseMerge(h, o, f) => ExecStageView::RebaseMerge(
                h@,
                output_view(*o),
                string_views(f@),
            ),
            ExecStage::RebaseApply(h, o, f) => ExecStageView::RebaseApply(
                h@,
                output_view(*o),
                string_views(f@),
            ),
            ExecStage::MergeHead(h, o, f) => ExecStageView::MergeHead(
                h@,
                output_view(*o),
                string_views(f@),
            ),
            ExecStage::Reset(h, e) => ExecStageView::Reset(h@, e@),
            ExecStage::Fail(h, e) => ExecStageView::Fail(h@, e@),
            ExecStage::After(h) => ExecStageView::After(h@),
            ExecStage::Complete(h, a) => ExecStageView::Complete(h@, a@),
            ExecStage::Finished => ExecStageView::Finished,
        }
    }
}

/// Everything execution is fixed by: the engine, the approved plan, the id
/// of the journal record, the local time naming the restore point, and the
/// time the record is stamped with.
pub struct ExecView {
    pub e: EngineView,
    pub plan: SyncPlanView,
    pub id: Seq<char>,
    pub stamp: Seq<char>,
    pub started_at: Timestamp,
}

/// The restore point's ref.
pub open spec fn exec_restore_ref(x: ExecView) -> Seq<char> {
    restore_ref_name(x.plan.branch, x.stamp)
}

/// The record journaled before the mutation: started, naming the strategy's
/// kind, the branch, its HEAD before the operation and the restore point.
pub open spec fn started_record(x: ExecView, head: Seq<char>) -> RecordView {
    RecordView {
        id: x.id,
        kind: strategy_journal_kind(x.plan.strategy),
        repository: x.e.dir,
        branch: x.plan.branch,
        started_at: x.started_at,
        before_head: head,
        restore_ref: Some(exec_restore_ref(x)),
        after_head: None,
        status: OperationStatus::Started,
        undoes: None,
    }
}

/// What execution does next: make a request, or report its result.
pub enum ExecNext {
    Ask(RequestView),
    Done(Result<SyncResultView, SyncErrorView>),
}

pub open spec fn exists_answer(reply: ReplyView) -> bool {
    match reply {
        ReplyView::Exists(b) => b,
        _ => false,
    }
}

/// Once the mutation ran and the conflicts and in-progress state are known:
/// stopped on conflicts (or mid-operation) leaves the repository as Git left
/// it and the record started; a failure resets the branch to where it was;
/// a success reads the new HEAD.
pub open spec fn exec_settle(
    x: ExecView,
    head: Seq<char>,
    o: OutputView,
    files: Seq<Seq<char>>,
    in_progress: bool,
) -> (ExecStageView, ExecNext) {
    if files.len() > 0 || in_progress {
        (
            ExecStageView::Finished,
            ExecNext::Done(
                Ok(
                    SyncResultView::Conflicted {
                        restore: (exec_restore_ref(x), head),
                        files,
                        strategy: x.plan.strategy,
                    },
                ),
            ),
        )
    } else if !o.success {
        (ExecStageView::Reset(head, o.stderr), ExecNext::Ask(RequestView::Git(keep_reset_view(x.e.dir, head))))
    } else {
        (ExecStageView::After(head), ExecNext::Ask(RequestView::Git(head_view(x.e.dir))))
    }
}

/// One step of execution, given the reply to the stage's request.
///
/// The order is what makes the operation reversible: read HEAD, pin it as
/// the restore point, journal the started operation, and only then run the
/// rebase or merge. Afterwards the conflicted paths and the in-progress
/// markers decide between a conflicted stop, a failure (the branch is moved
/// back to the old HEAD with `git reset --keep`, which keeps local changes,
/// and the failure journaled before it is reported) and a completion
/// (journaled with the new HEAD).
pub open spec fn exec_next(x: ExecView, stage: ExecStageView, reply: ReplyView) -> (ExecStageView, ExecNext) {
    let fail = |g: GitErrorView| (ExecStageView::Finished, ExecNext::Done(Err(SyncErrorView::Git(g))));
    let journal_failed = (
        ExecStageView::Finished,
        ExecNext::Done(
            Err(
                SyncErrorView::Journal(
                    match reply {
                        ReplyView::JournalFailed(m) => m,
                        _ => seq![],
                    },
                ),
            ),
        ),
    );
    match stage {
        ExecStageView::Head => match output_outcome(head_view(x.e.dir), reply) {
            Err(g) => fail(g),
            Ok(h) => (
                ExecStageView::Pin(h),
                ExecNext::Ask(RequestView::Git(update_ref_view(x.e.dir, exec_restore_ref(x), h))),
            ),
        },
        ExecStageView::Pin(h) => match output_outcome(
            update_ref_view(x.e.dir, exec_restore_ref(x), h),
            reply,
        ) {
            Err(g) => fail(g),
            Ok(_) => (
                ExecStageView::Journal(h),
                ExecNext::Ask(RequestView::Append(x.e.journal, started_record(x, h))),
            ),
        },
        ExecStageView::Journal(h) => if reply is Appended {
            (
                ExecStageView::Mutate(h),
                ExecNext::Ask(
                    RequestView::Git(mutation_view(x.e.dir, x.plan.strategy, x.plan.remote_ref)),
                ),
            )
        } else {
            journal_failed
        },
        ExecStageView::Mutate(h) => match run_outcome(
            mutation_view(x.e.dir, x.plan.strategy, x.plan.remote_ref),
            reply,
        ) {
            Err(g) => fail(g),
            Ok(o) => (
                ExecStageView::Conflicts(h, o),
                ExecNext::Ask(RequestView::Git(crate::git::state::conflicted_view(x.e.dir))),
            ),
        },
        ExecStageView::Conflicts(h, o) => match conflicted_outcome(x.e.dir, reply) {
            Err(g) => fail(g),
            Ok(files) => (
                ExecStageView::RebaseMerge(h, o, files),
                ExecNext::Ask(RequestView::Exists(rebase_merge_path(x.e.git_dir))),
            ),
        },
        ExecStageView::RebaseMerge(h, o, files) => if exists_answer(reply) {
            exec_settle(x, h, o, files, true)
        } else {
            (
                ExecStageView::RebaseApply(h, o, files),
                ExecNext::Ask(RequestView::Exists(rebase_apply_path(x.e.git_dir))),
            )
        },
        ExecStageView::RebaseApply(h, o, files) => if exists_answer(reply) {
            exec_settle(x, h, o, files, true)
        } else {
            (
                ExecStageView::MergeHead(h, o, files),
                ExecNext::Ask(RequestView::Exists(merge_head_path(x.e.git_dir))),
            )
        },
        ExecStageView::MergeHead(h, o, files) => exec_settle(x, h, o, files, exists_answer(reply)),
        ExecStageView::Reset(h, err) => match output_outcome(keep_reset_view(x.e.dir, h), reply) {
            Err(g) => fail(g),
            Ok(_) => (
                ExecStageView::Fail(h, err),
                ExecNext::Ask(
                    RequestView::Append(
                        x.e.journal,
                        RecordView { status: OperationStatus::Failed, ..started_record(x, h) },
                    ),
                ),
            ),
        },
        ExecStageView::Fail(h, err) => if reply is Appended {
            (
                ExecStageView::Finished,
                ExecNext::Done(
                    Err(
                        SyncErrorView::OperationFailed {
                            strategy: strategy_verb(x.plan.strategy),
                            stderr: err,
                        },
                    ),
                ),
            )
        } else {
            journal_failed
        },
        ExecStageView::After(h) => match output_outcome(head_view(x.e.dir), reply) {
            Err(g) => fail(g),
            Ok(a) => (
                ExecStageView::Complete(h, a),
                ExecNext::Ask(
                    RequestView::Append(
                        x.e.journal,
                        RecordView {
                            after_head: Some(a),
                            status: OperationStatus::Completed,
                            ..started_record(x, h)
                        },
                    ),
                ),
            ),
        },
        ExecStageView::Complete(h, _) => if reply is Appended {
            (
                ExecStageView::Finished,
                ExecNext::Done(
                    Ok(
                        SyncResultView::Completed {
                            restore: (exec_restore_ref(x), h),
                            strategy: x.plan.strategy,
                        },
                    ),
                ),
            )
        } else {
            journal_failed
        },
        ExecStageView::Finished => (ExecStageView::Finished, ExecNext::Done(Err(SyncErrorView::NoBaseBranch))),
    }
}

/// The kind of reply each stage waits for.
pub open spec fn exec_expects(stage: ExecStageView, reply: ReplyView) -> bool {
    match stage {
        ExecStageView::Journal(_) | ExecStageView::Fail(_, _) | ExecStageView::Complete(_, _) => append_reply(reply),
        ExecStageView::RebaseMerge(_, _, _) | ExecStageView::RebaseApply(_, _, _) | ExecStageView::MergeHead(_, _, _) => reply is Exists,
        ExecStageView::Finished => false,
        _ => git_reply(reply),
    }
}

pub open spec fn exec_result_view(r: Result<SyncResult, SyncError>) -> Result<SyncResultView, SyncErrorView> {
    match r {
        Ok(o) => Ok(o@),
        Err(e) => Err(e@),
    }
}

pub open spec fn exec_step_is(step: Step<Result<SyncResult, SyncError>>, next: ExecNext) -> bool {
    match next {
        ExecNext::Ask(q) => step matches Step::Ask(x) && x@ == q,
        ExecNext::Done(res) => step matches Step::Done(x) && exec_result_view(x) == res,
    }
}

/// Executing an approved plan, one request at a time.
#[derive(Debug)]
pub struct SyncExecution {
    pub engine: SyncEngine,
    pub plan: SyncPlan,
    pub id: String,
    pub stamp: String,
    pub started_at: Timestamp,
    pub stage: ExecStage,
}

impl SyncExecution {
    pub open spec fn view(&self) -> ExecView {
        ExecView {
            e: self.engine.view(),
            plan: self.plan@,
            id: self.id@,
            stamp: self.stamp@,
            started_at: self.started_at,
        }
    }

    fn restore_ref(&self) -> (r: String)
        ensures
            r@ == exec_restore_ref(self.view()),
    {
        let (rp, _) = RestorePoint::create_at(
            &self.engine.repo,
            self.plan.branch.as_str(),
            "",
            self.stamp.as_str(),
        );
        rp.ref_name
    }

    fn record(&self, head: &str) -> (r: OperationRecord)
        ensures
            r@ == started_record(self.view(), head@),
    {
        let rr = self.restore_ref();
        OperationRecord::begin_at(
            self.id.as_str(),
            self.plan.strategy.journal_kind(),
            self.engine.repo.workdir(),
            self.plan.branch.as_str(),
            BeforeState { head: owned(head), restore_ref: Some(rr) },
            self.started_at,
        )
    }

    fn restore_point(&self, head: &str) -> (r: RestorePoint)
        ensures
            r.ref_name@ == exec_restore_ref(self.view()),
            r.head@ == head@,
    {
        let (rp, _) = RestorePoint::create_at(
            &self.engine.repo,
            self.plan.branch.as_str(),
            head,
            self.stamp.as_str(),
        );
        rp
    }

    fn settle(&mut self, head: String, o: GitOutput, files: Vec<String>, in_progress: bool) -> (r: Step<
        Result<SyncResult, SyncError>,
    >)
        ensures
            final(self).view() == old(self).view(),
            final(self).stage@ == exec_settle(
                old(self).view(),
                head@,
                output_view(o),
                string_views(files@),
                in_progress,
            ).0,
            exec_step_is(
                r,
                exec_settle(old(self).view(), head@, output_view(o), string_views(files@), in_progress).1,
            ),
    {
        if files.len() > 0 || in_progress {
            let restore = self.restore_point(head.as_str());
            self.stage = ExecStage::Finished;
            Step::Done(Ok(SyncResult::Conflicted { restore, files, strategy: self.plan.strategy }))
        } else if !o.success {
            let c = keep_reset_command(&self.engine.repo, head.as_str());
            self.stage = ExecStage::Reset(head, o.stderr);
            Step::Ask(Request::Git(c))
        } else {
            let c = head_command(&self.engine.repo);
            self.stage = ExecStage::After(head);
            Step::Ask(Request::Git(c))
        }
    }

    /// Go on with the reply to the last request.
    #[verifier::rlimit(100)]
    pub fn resume(&mut self, reply: Reply) -> (r: Step<Result<SyncResult, SyncError>>)
        requires
            exec_expects(old(self).stage@, reply@),
        ensures
            final(self).view() == old(self).view(),
            final(self).stage@ == exec_next(old(self).view(), old(self).stage@, reply@).0,
            exec_step_is(r, exec_next(old(self).view(), old(self).stage@, reply@).1),
    {
        let mut stage = ExecStage::Finished;
        std::mem::swap(&mut stage, &mut self.stage);
        let ghost x = self.view();
        match stage {
            ExecStage::Head => {
                let asked = head_command(&self.engine.repo);
                match output_of(&asked, reply) {
                    Err(g) => Step::Done(Err(SyncError::Git(g))),
                    Ok(h) => {
                        let (_, c) = RestorePoint::create_at(
                            &self.engine.repo,
                            self.plan.branch.as_str(),
                            h.as_str(),
                            self.stamp.as_str(),
                        );
                        self.stage = ExecStage::Pin(h);
                        Step::Ask(Request::Git(c))
                    },
                }
            },
            ExecStage::Pin(h) => {
                let (_, asked) = RestorePoint::create_at(
                    &self.engine.repo,
                    self.plan.branch.as_str(),
                    h.as_str(),
                    self.stamp.as_str(),
                );
                match output_of(&asked, reply) {
                    Err(g) => Step::Done(Err(SyncError::Git(g))),
                    Ok(_) => {
                        let record = self.record(h.as_str());
                        self.stage = ExecStage::Journal(h);
                        Step::Ask(Request::Append(self.engine.journal.path.clone(), record))
                    },
                }
            },
            ExecStage::Journal(h) => match reply {
                Reply::Appended => {
                    let c = self.plan.mutation_command(&self.engine.repo);
                    self.stage = ExecStage::Mutate(h);
                    Step::Ask(Request::Git(c))
                },
                Reply::JournalFailed(m) => Step::Done(Err(SyncError::Journal(JournalError { message: m }))),
                _ => Step::Done(Err(SyncError::Journal(JournalError { message: String::new() }))),
            },
            ExecStage::Mutate(h) => {
                let asked = self.plan.mutation_command(&self.engine.repo);
                match crate::exchange::run_of(&asked, reply) {
                    Err(g) => Step::Done(Err(SyncError::Git(g))),
                    Ok(o) => {
                        self.stage = ExecStage::Conflicts(h, o);
                        Step::Ask(Request::Git(conflicted_command(&self.engine.repo)))
                    },
                }
            },
            ExecStage::Conflicts(h, o) => match conflicted_of(&self.engine.repo, reply) {
                Err(g) => Step::Done(Err(SyncError::Git(g))),
                Ok(files) => {
                    self.stage = ExecStage::RebaseMerge(h, o, files);
                    Step::Ask(Request::Exists(rebase_merge_marker(&self.engine.repo)))
                },
            },
            ExecStage::RebaseMerge(h, o, files) => {
                if let Reply::Exists(true) = reply {
                    self.settle(h, o, files, true)
                } else {
                    self.stage = ExecStage::RebaseApply(h, o, files);
                    Step::Ask(Request::Exists(rebase_apply_marker(&self.engine.repo)))
                }
            },
            ExecStage::RebaseApply(h, o, files) => {
                if let Reply::Exists(true) = reply {
                    self.settle(h, o, files, true)
                } else {
                    self.stage = ExecStage::MergeHead(h, o, files);
                    Step::Ask(Request::Exists(merge_marker(&self.engine.repo)))
                }
            },
            ExecStage::MergeHead(h, o, files) => {
                let in_progress = match reply {
                    Reply::Exists(b) => b,
                    _ => false,
                };
                self.settle(h, o, files, in_progress)
            },
            ExecStage::Reset(h, err) => {
                let asked = keep_reset_command(&self.engine.repo, h.as_str());
                match output_of(&asked, reply) {
                    Err(g) => Step::Done(Err(SyncError::Git(g))),
                    Ok(_) => {
                        let record = self.record(h.as_str()).fail();
                        self.stage = ExecStage::Fail(h, err);
                        Step::Ask(Request::Append(self.engine.journal.path.clone(), record))
                    },
                }
            },
            ExecStage::Fail(_, err) => match reply {
                Reply::Appended => Step::Done(
                    Err(SyncError::OperationFailed { strategy: self.plan.strategy.verb(), stderr: err }),
                ),
                Reply::JournalFailed(m) => Step::Done(Err(SyncError::Journal(JournalError { message: m }))),
                _ => Step::Done(Err(SyncError::Journal(JournalError { message: String::new() }))),
            },
            ExecStage::After(h) => {
                let asked = head_command(&self.engine.repo);
                match output_of(&asked, reply) {
                    Err(g) => Step::Done(Err(SyncError::Git(g))),
                    Ok(a) => {
                        let record = self.record(h.as_str()).complete(a.as_str());
                        self.stage = ExecStage::Complete(h, a);
                        Step::Ask(Request::Append(self.engine.journal.path.clone(), record))
                    },
                }
            },
            ExecStage::Complete(h, _) => match reply {
                Reply::Appended => {
                    let restore = self.restore_point(h.as_str());
                    Step::Done(Ok(SyncResult::Completed { restore, strategy: self.plan.strategy }))
                },
                Reply::JournalFailed(m) => Step::Done(Err(SyncError::Journal(JournalError { message: m }))),
                _ => Step::Done(Err(SyncError::Journal(JournalError { message: String::new() }))),
            },
            ExecStage::Finished => Step::Done(Err(SyncError::NoBaseBranch)),
        }
    }
}

impl SyncEngine {
    /// Execute an approved plan, journaling it under `record_id`.
    ///
    /// Ordering matters for safety: capture HEAD, create the restore point,
    /// journal the (started) operation, *then* mutate (see [`exec_next`]).
    /// Starts by asking for HEAD; the restore point is named with the
    /// current local time and the operation id, and the record stamped with
    /// the current time.
    pub fn execute(&self, plan: SyncPlan, record_id: &str) -> (r: (
        SyncExecution,
        Step<Result<SyncResult, SyncError>>,
    ))
        ensures
            r.0.engine.view() == self.view(),
            r.0.plan@ == plan@,
            r.0.id@ == record_id@,
            exists|t: Seq<char>| #[trigger] stamp_shaped(t) && r.0.stamp@ == operation_stamp(t, record_id@),
            r.0.stage@ == ExecStageView::Head,
            exec_step_is(r.1, ExecNext::Ask(RequestView::Git(head_view(self.repo.workdir@)))),
    {
        let c = head_command(&self.repo);
        let (stamp, Ghost(t)) = stamp_now(record_id);
        assert(stamp_shaped(t));
        (
            SyncExecution {
                engine: self.copy(),
                plan,
                id: owned(record_id),
                stamp,
                started_at: utc_now(),
                stage: ExecStage::Head,
            },
            Step::Ask(Request::Git(c)),
        )
    }
}

/// The change a sync makes is the plan's strategy applied to the plan's
/// target: a rebase onto the remote-tracking ref for `Rebase`, a merge of
/// it (without an editor) for `Merge`, run in the repository.
pub proof fn mutation_applies_the_chosen_strategy(dir: Seq<char>, strategy: ResolvedStrategy, target: Seq<char>)
    ensures
        mutation_view(dir, strategy, target).cwd == Some(dir),
        mutation_view(dir, strategy, target).args.last() == target,
        (mutation_view(dir, strategy, target).args[0] == "rebase"@) <==> (strategy == ResolvedStrategy::Rebase),
        (mutation_view(dir, strategy, target).args[0] == "merge"@) <==> (strategy == ResolvedStrategy::Merge),
        strategy == ResolvedStrategy::Merge ==> mutation_view(dir, strategy, target).args == seq![
            "merge"@,
            "--no-edit"@,
            target,
        ],
        strategy == ResolvedStrategy::Rebase ==> mutation_view(dir, strategy, target).args == seq![
            "rebase"@,
            target,
        ],
{
    reveal_strlit("rebase");
    reveal_strlit("merge");
    assert("rebase"@.len() != "merge"@.len());
}

/// The rebase or merge is requested only right after the started operation
/// was journaled, and that journal entry only right after the restore point
/// was pinned at the HEAD just read: whatever Git and the disk reply, no
/// mutation happens before the way back exists and is on record.
pub proof fn mutation_follows_restore_point_and_journal(x: ExecView, s: ExecStageView, r: ReplyView)
    ensures
        exec_next(x, s, r).1 == ExecNext::Ask(
            RequestView::Git(mutation_view(x.e.dir, x.plan.strategy, x.plan.remote_ref)),
        ) ==> s is Journal && r is Appended && exec_next(x, s, r).0 is Mutate,
        exec_next(x, s, r).0 is Mutate ==> s is Journal && r is Appended,
        exec_next(x, s, r).0 is Journal ==> s is Pin && output_outcome(
            update_ref_view(x.e.dir, exec_restore_ref(x), s->Pin_0),
            r,
        ) is Ok && exec_next(x, s, r).1 == ExecNext::Ask(
            RequestView::Append(x.e.journal, started_record(x, s->Pin_0)),
        ),
        exec_next(x, s, r).0 is Pin ==> s is Head && exec_next(x, s, r).1 == ExecNext::Ask(
            RequestView::Git(update_ref_view(x.e.dir, exec_restore_ref(x), exec_next(x, s, r).0->Pin_0)),
        ),
{
    reveal_strlit("rebase");
    reveal_strlit("merge");
    reveal_strlit("rev-parse");
    reveal_strlit("update-ref");
    reveal_strlit("diff");
    reveal_strlit("reset");
    let m = mutation_view(x.e.dir, x.plan.strategy, x.plan.remote_ref);
    let first = m.args[0];
    assert(first == "rebase"@ || first == "merge"@);
    assert(first != "rev-parse"@ && first != "update-ref"@ && first != "diff"@ && first
        != "reset"@) by {
        if first == "rebase"@ {
            assert(first.len() == 6);
        } else {
            assert(first[0] == 'm');
        }
    }
    let g = x.e.git_dir;
    let d = x.e.dir;
    assert(head_view(d).args[0] == "rev-parse"@);
    assert(crate::git::state::conflicted_view(d).args[0] == "diff"@);
    assert(forall|h: Seq<char>| #[trigger] keep_reset_view(d, h).args[0] == "reset"@);
    assert(forall|rf: Seq<char>, h: Seq<char>| #[trigger] update_ref_view(d, rf, h).args[0] == "update-ref"@);
}

/// A failed rebase or merge is reported only after the branch was moved
/// back to the HEAD it started from (keeping local changes) and the failure
/// was journaled; a conflicted stop
/// journals nothing more, leaving the record started for `undo` to find.
pub proof fn failure_is_restored_before_it_is_reported(x: ExecView, s: ExecStageView, r: ReplyView)
    ensures
        exec_next(x, s, r).1 matches ExecNext::Done(Err(SyncErrorView::OperationFailed { .. }))
            ==> s is Fail && r is Appended,
        exec_next(x, s, r).0 is Fail ==> s is Reset && output_outcome(
            keep_reset_view(x.e.dir, s->Reset_0),
            r,
        ) is Ok,
        exec_next(x, s, r).0 is Reset ==> exec_next(x, s, r).1 == ExecNext::Ask(
            RequestView::Git(keep_reset_view(x.e.dir, exec_next(x, s, r).0->Reset_0)),
        ),
        exec_next(x, s, r).1 matches ExecNext::Done(Ok(SyncResultView::Conflicted { .. })) ==> (
        s is RebaseMerge || s is RebaseApply || s is MergeHead),
{
}

/// Whether `c` would throw away local changes: `git reset --hard`,
/// `git checkout -f`/`--force`, or `git clean`.
pub open spec fn discards_local_changes(c: GitCommandView) -> bool {
    c.args.len() > 0 && (c.args[0] == "clean"@ || (c.args.len() > 1 && ((c.args[0] == "reset"@
        && c.args[1] == "--hard"@) || (c.args[0] == "checkout"@ && (c.args[1] == "-f"@
        || c.args[1] == "--force"@)))))
}

/// Synchronizing never loses uncommitted work: no step of an execution,
/// whatever Git and the disk reply (a rebase or merge that refuses to start
/// over local edits among them), asks for a command that throws away local
/// changes. A failure moves the branch back with `git reset --keep`.
pub proof fn sync_never_discards_local_changes(x: ExecView, s: ExecStageView, r: ReplyView)
    ensures
        exec_next(x, s, r).1 matches ExecNext::Ask(RequestView::Git(c)) ==> !discards_local_changes(c),
{
    reveal_strlit("clean");
    reveal_strlit("reset");
    reveal_strlit("--hard");
    reveal_strlit("--keep");
    reveal_strlit("checkout");
    reveal_strlit("rev-parse");
    reveal_strlit("update-ref");
    reveal_strlit("diff");
    reveal_strlit("rebase");
    reveal_strlit("merge");
    reveal_strlit("--no-edit");
    reveal_strlit("-f");
    reveal_strlit("--force");
    let d = x.e.dir;
    assert("merge"@[0] != "clean"@[0] && "merge"@[0] != "reset"@[0]);
    assert("merge"@ != "clean"@ && "merge"@ != "reset"@);
    assert("rebase"@.len() != "clean"@.len() && "rebase"@.len() != "reset"@.len()
        && "rebase"@.len() != "checkout"@.len());
    assert("rev-parse"@.len() != "clean"@.len() && "rev-parse"@.len() != "reset"@.len()
        && "rev-parse"@.len() != "checkout"@.len());
    assert("update-ref"@.len() != "clean"@.len() && "update-ref"@.len() != "reset"@.len()
        && "update-ref"@.len() != "checkout"@.len());
    assert("diff"@.len() != "clean"@.len() && "diff"@.len() != "reset"@.len() && "diff"@.len()
        != "checkout"@.len());
    assert("merge"@.len() != "checkout"@.len());
    assert("--keep"@ != "--hard"@) by {
        assert("--keep"@[2] != "--hard"@[2]);
    }
    let m = mutation_view(d, x.plan.strategy, x.plan.remote_ref);
    assert(m.args[0] == "rebase"@ || m.args[0] == "merge"@);
    assert(head_view(d).args[0] == "rev-parse"@);
    assert(crate::git::state::conflicted_view(d).args[0] == "diff"@);
    assert(forall|h: Seq<char>| #[trigger] keep_reset_view(d, h).args[1] == "--keep"@);
    assert(forall|h: Seq<char>| #[trigger] keep_reset_view(d, h).args[0] == "reset"@);
    assert(forall|rf: Seq<char>, h: Seq<char>| #[trigger] update_ref_view(d, rf, h).args[0] == "update-ref"@);
}

/// Whether `c` only reads the repository (or, for `fetch`, updates
/// remote-tracking refs): it touches neither the working tree, the index nor
/// a local branch.
pub open spec fn reads_only(c: GitCommandView) -> bool {
    c.args.len() > 0 && {
        let sub = c.args[0];
        sub == "symbolic-ref"@ || sub == "rev-parse"@ || sub == "show-ref"@ || sub == "fetch"@
            || sub == "merge-base"@ || sub == "rev-list"@
    }
}

/// Planning only reads: every request it makes is a `git` command that
/// changes neither the working tree, the index nor a local branch. Its
/// refusals come in order, each from its own question: a detached HEAD from
/// the branch question, no commits from the HEAD question, no base from base
/// detection. A plan is made only for a branch that is behind its base, and
/// it targets the remote-tracking ref of the base with the strategy
/// [`chosen_strategy`] picks; a branch that is not behind is up to date.
pub proof fn planning_only_reads_and_refuses_in_order(
    e: EngineView,
    cli: Option<ResolvedStrategy>,
    s: PlanStageView,
    r: ReplyView,
)
    requires
        !(s is Finished),
    ensures
        plan_next(e, cli, s, r).1 matches PlanNext::Ask(c) ==> reads_only(c),
        plan_next(e, cli, s, r).1 == PlanNext::Done(Err(SyncErrorView::DetachedHead)) ==> s is Branch,
        plan_next(e, cli, s, r).1 == PlanNext::Done(Err(SyncErrorView::NoCommits)) ==> s is HasCommits,
        plan_next(e, cli, s, r).1 == PlanNext::Done(Err(SyncErrorView::NoBaseBranch)) ==> s is Detect,
        plan_next(e, cli, s, r).0 matches PlanStageView::Shared(_, _, _, behind) ==> behind > 0,
        plan_next(e, cli, s, r).1 matches PlanNext::Done(Ok(PlanOutcomeView::Planned(p))) ==> {
            &&& s matches PlanStageView::Shared(b, base, ahead, behind)
            &&& p.branch == b && p.base_name == base && p.ahead == ahead && p.behind == behind
            &&& p.remote_ref == remote_ref_of(e.remote, base)
            &&& p.strategy == chosen_strategy(
                e.strategy,
                cli,
                succeeds_outcome(verify_view(e.dir, published_ref(e.remote, b)), r)->Ok_0,
            )
        },
        plan_next(e, cli, s, r).1 matches PlanNext::Done(Ok(PlanOutcomeView::AlreadyUpToDate { .. }))
            ==> s is Diverge,
{
    reveal_strlit("symbolic-ref");
    reveal_strlit("rev-parse");
    reveal_strlit("show-ref");
    reveal_strlit("fetch");
    reveal_strlit("merge-base");
    reveal_strlit("rev-list");
}


/// The planning stage reached from `s` once the replies `rs` have been
/// answered, one after the other.
pub open spec fn plan_after(
    e: EngineView,
    cli: Option<ResolvedStrategy>,
    s: PlanStageView,
    rs: Seq<ReplyView>,
) -> PlanStageView
    decreases rs.len(),
{
    if rs.len() == 0 {
        s
    } else {
        plan_next(e, cli, plan_after(e, cli, s, rs.drop_last()), rs.last()).0
    }
}

proof fn lemma_shared_only_when_behind(e: EngineView, cli: Option<ResolvedStrategy>, rs: Seq<ReplyView>)
    ensures
        plan_after(e, cli, PlanStageView::Branch, rs) matches PlanStageView::Shared(_, _, _, behind)
            ==> behind > 0,
    decreases rs.len(),
{
    if rs.len() > 0 {
        lemma_shared_only_when_behind(e, cli, rs.drop_last());
        let prev = plan_after(e, cli, PlanStageView::Branch, rs.drop_last());
        if !(prev is Finished) {
            planning_only_reads_and_refuses_in_order(e, cli, prev, rs.last());
        }
    }
}

/// Over a whole planning, whatever replies come back: every question it
/// asks only reads (see [`reads_only`]), and a plan it ends with is for a
/// branch that is behind its base, towards the base's remote-tracking ref.
pub proof fn planning_reads_only_and_plans_only_when_behind(
    e: EngineView,
    cli: Option<ResolvedStrategy>,
    rs: Seq<ReplyView>,
    r: ReplyView,
)
    requires
        !(plan_after(e, cli, PlanStageView::Branch, rs) is Finished),
    ensures
        plan_next(e, cli, plan_after(e, cli, PlanStageView::Branch, rs), r).1 matches PlanNext::Ask(c)
            ==> reads_only(c),
        plan_next(e, cli, plan_after(e, cli, PlanStageView::Branch, rs), r).1 matches PlanNext::Done(
            Ok(PlanOutcomeView::Planned(p)),
        ) ==> p.behind > 0 && p.remote_ref == remote_ref_of(e.remote, p.base_name),
{
    lemma_shared_only_when_behind(e, cli, rs);
    planning_only_reads_and_refuses_in_order(e, cli, plan_after(e, cli, PlanStageView::Branch, rs), r);
}

} // verus!
