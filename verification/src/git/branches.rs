//! Branch metadata: base-branch detection and divergence analysis.
//!
//! "Base branch" is the branch a feature branch is intended to merge back into
//! (typically `main`). It is distinct from the *upstream*, which is the remote
//! tracking counterpart of the current branch. Smoothee needs both: the
//! upstream answers "is it safe to push?", the base answers "am I behind what
//! I'll merge into, and should I sync?".
use vstd::prelude::*;

use crate::exchange::{
    bool_result_view, git_reply, output_of, output_outcome, succeeds_of, succeeds_outcome,
    GitErrorView, Reply, ReplyView, Request, RequestView, Step,
};
use crate::git::command::{GitCommand, GitCommandView, GitError};
use crate::git::repository::Repository;
use crate::text::{
    begins_with, chars_of, has_prefix, owned, parse_u32, parse_u32_chars, push_str,
    decimal, split_whitespace, string_of, views, words,
};

verus! {

/// How Smoothee arrived at the base branch, surfaced so `status` can be honest
/// about whether the base was configured or merely guessed.
#[derive(Debug, Clone, Copy, PartialEq, Eq, Structural)]
pub enum BaseBranchSource {
    /// Read from `.smoothee.toml`.
    Configured,
    /// Derived from the remote's default branch (`origin/HEAD`).
    RemoteHead,
    /// Fell back to a conventional name that exists locally.
    Conventional,
}

/// The resolved base branch and how it was determined.
#[derive(Debug, Clone)]
pub struct BaseBranch {
    /// Local branch name (e.g. `main`).
    pub name: String,
    pub source: BaseBranchSource,
}

/// Conventional default branch names, in order of preference.
pub open spec fn conventional_names() -> Seq<Seq<char>> {
    seq!["main"@, "master"@, "trunk"@, "develop"@]
}

/// The `i`-th conventional default branch name.
pub fn conventional_name(i: usize) -> (r: &'static str)
    requires
        i < 4,
    ensures
        r@ == conventional_names()[i as int],
{
    if i == 0 {
        "main"
    } else if i == 1 {
        "master"
    } else if i == 2 {
        "trunk"
    } else {
        "develop"
    }
}

/// The count in the `i`-th field of `git rev-list --count` output, or 0.
pub open spec fn count_field(f: Seq<Seq<char>>, i: int) -> u32 {
    if i < f.len() {
        match parse_u32(f[i]) {
            Some(n) => n,
            None => 0,
        }
    } else {
        0
    }
}

/// `(ahead, behind)` from `git rev-list --left-right --count base...branch`
/// output, which is `<behind>\t<ahead>`: the left side counts base-only
/// commits, the right side branch-only commits. A missing or malformed count
/// reads as 0.
pub open spec fn divergence_counts(out: Seq<char>) -> (u32, u32) {
    (count_field(words(out), 1), count_field(words(out), 0))
}

fn read_count(fields: &Vec<Vec<char>>, i: usize) -> (n: u32)
    ensures
        n == count_field(views(fields@), i as int),
{
    if i < fields.len() {
        match parse_u32_chars(fields[i].as_slice()) {
            Some(n) => n,
            None => 0,
        }
    } else {
        0
    }
}

/// Both counts are read whole: for output `<behind>\t<ahead>` holding the
/// decimal digits of two `u32` values, the divergence is exactly
/// `(ahead, behind)`.
pub proof fn divergence_reads_both_counts(ahead: u32, behind: u32)
    ensures
        divergence_counts(decimal(behind as nat) + "\t"@ + decimal(ahead as nat)) == (ahead, behind),
{
    reveal_strlit("\t");
    crate::text::lemma_decimal_reads_back(behind as nat);
    crate::text::lemma_decimal_reads_back(ahead as nat);
    assert("\t"@ =~= seq!['\t']);
    crate::text::lemma_two_words(decimal(behind as nat), '\t', decimal(ahead as nat));
    crate::text::decimal_parses_back(behind);
    crate::text::decimal_parses_back(ahead);
}

/// Read `(ahead, behind)` from `git rev-list --left-right --count` output.
pub fn parse_divergence(out: &str) -> (r: (u32, u32))
    ensures
        r == divergence_counts(out@),
{
    let chars = chars_of(out);
    let fields = split_whitespace(chars.as_slice());
    let behind = read_count(&fields, 0);
    let ahead = read_count(&fields, 1);
    (ahead, behind)
}

/// `git merge-base <base> <branch>`: succeeds exactly when the two share history.
pub open spec fn merge_base_view(dir: Seq<char>, branch: Seq<char>, base: Seq<char>) -> GitCommandView {
    GitCommandView { args: seq!["merge-base"@, base, branch], cwd: Some(dir), env: seq![] }
}

/// `git rev-list --left-right --count <base>...<branch>`.
pub open spec fn rev_list_view(dir: Seq<char>, branch: Seq<char>, base: Seq<char>) -> GitCommandView {
    GitCommandView {
        args: seq!["rev-list"@, "--left-right"@, "--count"@, base + "..."@ + branch],
        cwd: Some(dir),
        env: seq![],
    }
}

/// The command that asks whether `branch` and `base` share history.
pub fn merge_base_command(repo: &Repository, branch: &str, base: &str) -> (c: GitCommand)
    ensures
        c@ == merge_base_view(repo.workdir@, branch@, base@),
{
    let c = repo.git("merge-base").arg(base).arg(branch);
    assert(c@.args =~= merge_base_view(repo.workdir@, branch@, base@).args);
    c
}

/// The command that counts the commits on each side of `base...branch`.
pub fn rev_list_command(repo: &Repository, branch: &str, base: &str) -> (c: GitCommand)
    ensures
        c@ == rev_list_view(repo.workdir@, branch@, base@),
{
    let mut range = owned(base);
    push_str(&mut range, "...");
    push_str(&mut range, branch);
    let c = repo.git("rev-list").arg("--left-right").arg("--count").arg(range.as_str());
    assert(c@.args =~= rev_list_view(repo.workdir@, branch@, base@).args);
    c
}

/// `git show-ref --verify --quiet <ref>`: succeeds exactly when the ref exists.
pub open spec fn show_ref_view(dir: Seq<char>, ref_name: Seq<char>) -> GitCommandView {
    GitCommandView {
        args: seq!["show-ref"@, "--verify"@, "--quiet"@, ref_name],
        cwd: Some(dir),
        env: seq![],
    }
}

/// The command that checks whether the local branch `name` exists
/// (`refs/heads/<name>`).
pub fn branch_exists(repo: &Repository, name: &str) -> (c: GitCommand)
    ensures
        c@ == show_ref_view(repo.workdir@, "refs/heads/"@ + name@),
{
    let mut r = owned("refs/heads/");
    push_str(&mut r, name);
    let c = repo.git("show-ref").arg("--verify").arg("--quiet").arg(r.as_str());
    assert(c@.args =~= show_ref_view(repo.workdir@, "refs/heads/"@ + name@).args);
    c
}

/// `git symbolic-ref --quiet refs/remotes/origin/HEAD`: succeeds when the
/// remote's default branch is known.
pub open spec fn remote_head_exists_view(dir: Seq<char>) -> GitCommandView {
    GitCommandView {
        args: seq!["symbolic-ref"@, "--quiet"@, "refs/remotes/origin/HEAD"@],
        cwd: Some(dir),
        env: seq![],
    }
}

/// `git symbolic-ref --short refs/remotes/origin/HEAD`: prints e.g. `origin/main`.
pub open spec fn remote_head_name_view(dir: Seq<char>) -> GitCommandView {
    GitCommandView {
        args: seq!["symbolic-ref"@, "--short"@, "refs/remotes/origin/HEAD"@],
        cwd: Some(dir),
        env: seq![],
    }
}

pub fn remote_head_exists_command(repo: &Repository) -> (c: GitCommand)
    ensures
        c@ == remote_head_exists_view(repo.workdir@),
{
    let c = repo.git("symbolic-ref").arg("--quiet").arg("refs/remotes/origin/HEAD");
    assert(c@.args =~= remote_head_exists_view(repo.workdir@).args);
    c
}

pub fn remote_head_name_command(repo: &Repository) -> (c: GitCommand)
    ensures
        c@ == remote_head_name_view(repo.workdir@),
{
    let c = repo.git("symbolic-ref").arg("--short").arg("refs/remotes/origin/HEAD");
    assert(c@.args =~= remote_head_name_view(repo.workdir@).args);
    c
}

/// The local name of the remote default branch: `origin/main` gives `main`;
/// a name outside `origin/` gives none.
pub open spec fn remote_branch_name(full: Seq<char>) -> Option<Seq<char>> {
    if has_prefix(full, "origin/"@) {
        Some(full.skip(7))
    } else {
        None
    }
}

/// `origin/<name>` names the local branch `<name>`; a name not under
/// `origin/` names none.
pub proof fn remote_name_drops_origin(name: Seq<char>, other: Seq<char>)
    requires
        !has_prefix(other, "origin/"@),
    ensures
        remote_branch_name("origin/"@ + name) == Some(name),
        remote_branch_name(other) is None,
{
    reveal_strlit("origin/");
    let full = "origin/"@ + name;
    assert(full.subrange(0, 7) =~= "origin/"@);
    assert(full.skip(7) =~= name);
}

/// The bare local name of the remote default branch (e.g. `origin/HEAD`
/// pointing at `origin/main` yields `main`).
pub fn strip_origin(full: &str) -> (r: Option<String>)
    ensures
        opt_string_view(r) == remote_branch_name(full@),
{
    proof {
        reveal_strlit("origin/");
    }
    let chars = chars_of(full);
    if begins_with(chars.as_slice(), "origin/") {
        Some(string_of(chars.as_slice(), 7, chars.len()))
    } else {
        None
    }
}

pub open spec fn opt_string_view(o: Option<String>) -> Option<Seq<char>> {
    match o {
        Some(s) => Some(s@),
        None => None,
    }
}


// ---------------------------------------------------------------------------
// Detecting the base branch
// ---------------------------------------------------------------------------

/// Where base-branch detection stands: which question it is waiting on.
#[derive(Debug)]
pub enum DetectStage {
    /// Whether the configured branch exists.
    Configured(String),
    /// Whether the remote's default branch is known.
    RemoteKnown,
    /// The name of the remote's default branch.
    RemoteName,
    /// Whether the `i`-th conventional name exists.
    Conventional(usize),
    /// Detection is over.
    Finished,
}

pub enum DetectStageView {
    Configured(Seq<char>),
    RemoteKnown,
    RemoteName,
    Conventional(nat),
    Finished,
}

impl View for DetectStage {
    type V = DetectStageView;

    open spec fn view(&self) -> DetectStageView {
        match self {
            DetectStage::Configured(n) => DetectStageView::Configured(n@),
            DetectStage::RemoteKnown => DetectStageView::RemoteKnown,
            DetectStage::RemoteName => DetectStageView::RemoteName,
            DetectStage::Conventional(i) => DetectStageView::Conventional(*i as nat),
            DetectStage::Finished => DetectStageView::Finished,
        }
    }
}

/// A detected base branch by its name and how it was found.
pub type BaseView = Option<(Seq<char>, BaseBranchSource)>;

pub open spec fn base_view(b: Option<BaseBranch>) -> BaseView {
    match b {
        Some(x) => Some((x.name@, x.source)),
        None => None,
    }
}

pub open spec fn detect_result_view(r: Result<Option<BaseBranch>, GitError>) -> Result<BaseView, GitErrorView> {
    match r {
        Ok(b) => Ok(base_view(b)),
        Err(e) => Err(e@),
    }
}

/// What detection does next: ask a `git` question, or report its result.
pub enum DetectNext {
    Ask(GitCommandView),
    Done(Result<BaseView, GitErrorView>),
}

/// The question asked at a stage.
pub open spec fn detect_question(dir: Seq<char>, stage: DetectStageView) -> GitCommandView {
    match stage {
        DetectStageView::Configured(n) => show_ref_view(dir, "refs/heads/"@ + n),
        DetectStageView::RemoteKnown => remote_head_exists_view(dir),
        DetectStageView::RemoteName => remote_head_name_view(dir),
        DetectStageView::Conventional(i) => show_ref_view(dir, "refs/heads/"@ + conventional_names()[i as int]),
        DetectStageView::Finished => show_ref_view(dir, seq![]),
    }
}

/// Where detection starts: with the configured name when there is one,
/// else with the remote's default branch.
pub open spec fn detect_first(configured: Option<Seq<char>>) -> DetectStageView {
    match configured {
        Some(n) => DetectStageView::Configured(n),
        None => DetectStageView::RemoteKnown,
    }
}

/// One step of detection, given the reply to the stage's question. The
/// order is: an existing configured branch; the remote's default branch
/// (`origin/HEAD`, when it names a branch of `origin`); the first of `main`,
/// `master`, `trunk`, `develop` that exists; otherwise none. A `git` failure
/// ends detection with that error.
pub open spec fn detect_next(stage: DetectStageView, dir: Seq<char>, reply: ReplyView) -> (DetectStageView, DetectNext) {
    let asked = detect_question(dir, stage);
    let first_conventional = (
        DetectStageView::Conventional(0),
        DetectNext::Ask(detect_question(dir, DetectStageView::Conventional(0))),
    );
    match stage {
        DetectStageView::Configured(n) => match succeeds_outcome(asked, reply) {
            Err(e) => (DetectStageView::Finished, DetectNext::Done(Err(e))),
            Ok(true) => (
                DetectStageView::Finished,
                DetectNext::Done(Ok(Some((n, BaseBranchSource::Configured)))),
            ),
            Ok(false) => (DetectStageView::RemoteKnown, DetectNext::Ask(remote_head_exists_view(dir))),
        },
        DetectStageView::RemoteKnown => match succeeds_outcome(asked, reply) {
            Err(e) => (DetectStageView::Finished, DetectNext::Done(Err(e))),
            Ok(true) => (DetectStageView::RemoteName, DetectNext::Ask(remote_head_name_view(dir))),
            Ok(false) => first_conventional,
        },
        DetectStageView::RemoteName => match output_outcome(asked, reply) {
            Err(e) => (DetectStageView::Finished, DetectNext::Done(Err(e))),
            Ok(full) => match remote_branch_name(full) {
                Some(n) => (
                    DetectStageView::Finished,
                    DetectNext::Done(Ok(Some((n, BaseBranchSource::RemoteHead)))),
                ),
                None => first_conventional,
            },
        },
        DetectStageView::Conventional(i) => match succeeds_outcome(asked, reply) {
            Err(e) => (DetectStageView::Finished, DetectNext::Done(Err(e))),
            Ok(true) => (
                DetectStageView::Finished,
                DetectNext::Done(
                    Ok(Some((conventional_names()[i as int], BaseBranchSource::Conventional))),
                ),
            ),
            Ok(false) => if i + 1 < 4 {
                (
                    DetectStageView::Conventional(i + 1),
                    DetectNext::Ask(detect_question(dir, DetectStageView::Conventional(i + 1))),
                )
            } else {
                (DetectStageView::Finished, DetectNext::Done(Ok(None)))
            },
        },
        DetectStageView::Finished => (DetectStageView::Finished, DetectNext::Done(Ok(None))),
    }
}

/// Whether an engine's step is what a spec step describes.
pub open spec fn detect_step_is(step: Step<Result<Option<BaseBranch>, GitError>>, next: DetectNext) -> bool {
    match next {
        DetectNext::Ask(c) => step matches Step::Ask(q) && q@ == RequestView::Git(c),
        DetectNext::Done(res) => step matches Step::Done(x) && detect_result_view(x) == res,
    }
}

/// Base-branch detection, one `git` question at a time.
#[derive(Debug)]
pub struct BaseDetection {
    pub repo: Repository,
    pub stage: DetectStage,
}

impl BaseDetection {
    /// The stage is valid: a conventional index names one of the four names.
    pub open spec fn wf(&self) -> bool {
        match self.stage {
            DetectStage::Conventional(i) => i < 4,
            _ => true,
        }
    }

    fn question(&self) -> (c: GitCommand)
        requires
            self.wf(),
            !(self.stage is Finished),
        ensures
            c@ == detect_question(self.repo.workdir@, self.stage@),
    {
        match &self.stage {
            DetectStage::Configured(n) => branch_exists(&self.repo, n.as_str()),
            DetectStage::RemoteKnown => remote_head_exists_command(&self.repo),
            DetectStage::RemoteName => remote_head_name_command(&self.repo),
            DetectStage::Conventional(i) => branch_exists(&self.repo, conventional_name(*i)),
            DetectStage::Finished => branch_exists(&self.repo, ""),
        }
    }

    /// Start detecting the base branch of `repo`, preferring the branch
    /// `configured` in `.smoothee.toml`.
    pub fn begin(repo: &Repository, configured: Option<&str>) -> (r: (
        Self,
        Step<Result<Option<BaseBranch>, GitError>>,
    ))
        ensures
            r.0.wf(),
            r.0.repo.workdir@ == repo.workdir@,
            r.0.repo.git_dir@ == repo.git_dir@,
            r.0.stage@ == detect_first(
                match configured {
                    Some(c) => Some(c@),
                    None => None,
                },
            ),
            detect_step_is(r.1, DetectNext::Ask(detect_question(repo.workdir@, r.0.stage@))),
    {
        let stage = match configured {
            Some(c) => DetectStage::Configured(owned(c)),
            None => DetectStage::RemoteKnown,
        };
        let d = BaseDetection { repo: Repository::new(repo.workdir(), repo.git_dir()), stage };
        let q = d.question();
        (d, Step::Ask(Request::Git(q)))
    }

    /// Go on with the reply to the last question.
    pub fn resume(&mut self, reply: Reply) -> (r: Step<Result<Option<BaseBranch>, GitError>>)
        requires
            old(self).wf(),
            !(old(self).stage is Finished),
            git_reply(reply@),
        ensures
            final(self).wf(),
            final(self).repo == old(self).repo,
            (final(self).stage@, r) matches (s, step) && detect_next(
                old(self).stage@,
                old(self).repo.workdir@,
                reply@,
            ).0 == s && detect_step_is(
                step,
                detect_next(old(self).stage@, old(self).repo.workdir@, reply@).1,
            ),
    {
        let asked = self.question();
        let ghost dir = self.repo.workdir@;
        match &self.stage {
            DetectStage::Configured(n) => {
                let name = n.clone();
                match succeeds_of(&asked, reply) {
                    Err(e) => {
                        self.stage = DetectStage::Finished;
                        Step::Done(Err(e))
                    },
                    Ok(true) => {
                        self.stage = DetectStage::Finished;
                        Step::Done(
                            Ok(Some(BaseBranch { name, source: BaseBranchSource::Configured })),
                        )
                    },
                    Ok(false) => {
                        self.stage = DetectStage::RemoteKnown;
                        Step::Ask(Request::Git(remote_head_exists_command(&self.repo)))
                    },
                }
            },
            DetectStage::RemoteKnown => match succeeds_of(&asked, reply) {
                Err(e) => {
                    self.stage = DetectStage::Finished;
                    Step::Done(Err(e))
                },
                Ok(true) => {
                    self.stage = DetectStage::RemoteName;
                    Step::Ask(Request::Git(remote_head_name_command(&self.repo)))
                },
                Ok(false) => {
                    self.stage = DetectStage::Conventional(0);
                    Step::Ask(Request::Git(self.question()))
                },
            },
            DetectStage::RemoteName => match output_of(&asked, reply) {
                Err(e) => {
                    self.stage = DetectStage::Finished;
                    Step::Done(Err(e))
                },
                Ok(full) => match strip_origin(full.as_str()) {
                    Some(name) => {
                        self.stage = DetectStage::Finished;
                        Step::Done(
                            Ok(Some(BaseBranch { name, source: BaseBranchSource::RemoteHead })),
                        )
                    },
                    None => {
                        self.stage = DetectStage::Conventional(0);
                        Step::Ask(Request::Git(self.question()))
                    },
                },
            },
            DetectStage::Conventional(i) => {
                let i = *i;
                match succeeds_of(&asked, reply) {
                    Err(e) => {
                        self.stage = DetectStage::Finished;
                        Step::Done(Err(e))
                    },
                    Ok(true) => {
                        self.stage = DetectStage::Finished;
                        Step::Done(
                            Ok(
                                Some(
                                    BaseBranch {
                                        name: owned(conventional_name(i)),
                                        source: BaseBranchSource::Conventional,
                                    },
                                ),
                            ),
                        )
                    },
                    Ok(false) => if i + 1 < 4 {
                        self.stage = DetectStage::Conventional(i + 1);
                        Step::Ask(Request::Git(self.question()))
                    } else {
                        self.stage = DetectStage::Finished;
                        Step::Done(Ok(None))
                    },
                }
            },
            DetectStage::Finished => {
                self.stage = DetectStage::Finished;
                Step::Done(Ok(None))
            },
        }
    }
}

impl BaseBranch {
    /// Detect the base branch for `repo`: start the detection, which asks
    /// its first `git` question.
    ///
    /// Resolution order (safe, deterministic — no network):
    /// 1. an explicit `configured` name (from `.smoothee.toml`), if it exists;
    /// 2. the remote default branch via `origin/HEAD`;
    /// 3. the first conventional name (`main`, `master`, …) that exists.
    pub fn detect(repo: &Repository, configured: Option<&str>) -> (r: (
        BaseDetection,
        Step<Result<Option<BaseBranch>, GitError>>,
    ))
        ensures
            r.0.wf(),
            r.0.repo.workdir@ == repo.workdir@,
            r.0.repo.git_dir@ == repo.git_dir@,
            r.0.stage@ == detect_first(
                match configured {
                    Some(c) => Some(c@),
                    None => None,
                },
            ),
            detect_step_is(r.1, DetectNext::Ask(detect_question(repo.workdir@, r.0.stage@))),
    {
        BaseDetection::begin(repo, configured)
    }
}

// ---------------------------------------------------------------------------
// Divergence from the base
// ---------------------------------------------------------------------------

/// Where the divergence computation stands.
#[derive(Debug, Clone, Copy, PartialEq, Eq, Structural)]
pub enum DivergeStage {
    /// Whether the two share history (`git merge-base`).
    MergeBase,
    /// The counts on each side (`git rev-list --left-right --count`).
    Counts,
    Finished,
}

/// What the divergence computation does next.
pub enum DivergeNext {
    Ask(GitCommandView),
    Done(Result<Option<(u32, u32)>, GitErrorView>),
}

pub open spec fn counts_result_view(r: Result<Option<(u32, u32)>, GitError>) -> Result<Option<(u32, u32)>, GitErrorView> {
    match r {
        Ok(c) => Ok(c),
        Err(e) => Err(e@),
    }
}

/// One step of the divergence computation. Without a merge base the range
/// is meaningless, so the answer is none; otherwise it is `(ahead, behind)`
/// read from the counts (see [`divergence_counts`]). A `git` failure ends it
/// with that error.
pub open spec fn diverge_next(
    stage: DivergeStage,
    dir: Seq<char>,
    branch: Seq<char>,
    base: Seq<char>,
    reply: ReplyView,
) -> (DivergeStage, DivergeNext) {
    match stage {
        DivergeStage::MergeBase => match succeeds_outcome(merge_base_view(dir, branch, base), reply) {
            Err(e) => (DivergeStage::Finished, DivergeNext::Done(Err(e))),
            Ok(false) => (DivergeStage::Finished, DivergeNext::Done(Ok(None))),
            Ok(true) => (DivergeStage::Counts, DivergeNext::Ask(rev_list_view(dir, branch, base))),
        },
        DivergeStage::Counts => match output_outcome(rev_list_view(dir, branch, base), reply) {
            Err(e) => (DivergeStage::Finished, DivergeNext::Done(Err(e))),
            Ok(out) => (DivergeStage::Finished, DivergeNext::Done(Ok(Some(divergence_counts(out))))),
        },
        DivergeStage::Finished => (DivergeStage::Finished, DivergeNext::Done(Ok(None))),
    }
}

pub open spec fn diverge_step_is(step: Step<Result<Option<(u32, u32)>, GitError>>, next: DivergeNext) -> bool {
    match next {
        DivergeNext::Ask(c) => step matches Step::Ask(q) && q@ == RequestView::Git(c),
        DivergeNext::Done(res) => step matches Step::Done(x) && counts_result_view(x) == res,
    }
}

/// Ahead/behind divergence of `branch` relative to `base`, one `git`
/// question at a time.
#[derive(Debug)]
pub struct Divergence {
    pub repo: Repository,
    pub branch: String,
    pub base: String,
    pub stage: DivergeStage,
}

impl Divergence {
    /// Begin computing how far `branch` has diverged from `base`: first ask
    /// whether they share history.
    pub fn begin(repo: &Repository, branch: &str, base: &str) -> (r: (
        Self,
        Step<Result<Option<(u32, u32)>, GitError>>,
    ))
        ensures
            r.0.repo.workdir@ == repo.workdir@,
            r.0.repo.git_dir@ == repo.git_dir@,
            r.0.branch@ == branch@,
            r.0.base@ == base@,
            r.0.stage == DivergeStage::MergeBase,
            diverge_step_is(r.1, DivergeNext::Ask(merge_base_view(repo.workdir@, branch@, base@))),
    {
        let c = merge_base_command(repo, branch, base);
        (
            Divergence {
                repo: Repository::new(repo.workdir(), repo.git_dir()),
                branch: owned(branch),
                base: owned(base),
                stage: DivergeStage::MergeBase,
            },
            Step::Ask(Request::Git(c)),
        )
    }

    /// Go on with the reply to the last question.
    pub fn resume(&mut self, reply: Reply) -> (r: Step<Result<Option<(u32, u32)>, GitError>>)
        requires
            !(old(self).stage is Finished),
            git_reply(reply@),
        ensures
            final(self).repo == old(self).repo,
            final(self).branch == old(self).branch,
            final(self).base == old(self).base,
            final(self).stage == diverge_next(
                old(self).stage,
                old(self).repo.workdir@,
                old(self).branch@,
                old(self).base@,
                reply@,
            ).0,
            diverge_step_is(
                r,
                diverge_next(
                    old(self).stage,
                    old(self).repo.workdir@,
                    old(self).branch@,
                    old(self).base@,
                    reply@,
                ).1,
            ),
    {
        match self.stage {
            DivergeStage::MergeBase => {
                let asked = merge_base_command(&self.repo, self.branch.as_str(), self.base.as_str());
                match succeeds_of(&asked, reply) {
                    Err(e) => {
                        self.stage = DivergeStage::Finished;
                        Step::Done(Err(e))
                    },
                    Ok(false) => {
                        self.stage = DivergeStage::Finished;
                        Step::Done(Ok(None))
                    },
                    Ok(true) => {
                        self.stage = DivergeStage::Counts;
                        Step::Ask(
                            Request::Git(
                                rev_list_command(&self.repo, self.branch.as_str(), self.base.as_str()),
                            ),
                        )
                    },
                }
            },
            DivergeStage::Counts => {
                let asked = rev_list_command(&self.repo, self.branch.as_str(), self.base.as_str());
                self.stage = DivergeStage::Finished;
                match output_of(&asked, reply) {
                    Err(e) => Step::Done(Err(e)),
                    Ok(out) => Step::Done(Ok(Some(parse_divergence(out.as_str())))),
                }
            },
            DivergeStage::Finished => Step::Done(Ok(None)),
        }
    }
}

/// Ahead/behind divergence of `branch` relative to `base`, computed with
/// `git rev-list --left-right --count base...branch`: start it.
pub fn divergence_from_base(repo: &Repository, branch: &str, base: &str) -> (r: (
    Divergence,
    Step<Result<Option<(u32, u32)>, GitError>>,
))
    ensures
        r.0.repo.workdir@ == repo.workdir@,
        r.0.branch@ == branch@,
        r.0.base@ == base@,
        r.0.stage == DivergeStage::MergeBase,
        diverge_step_is(r.1, DivergeNext::Ask(merge_base_view(repo.workdir@, branch@, base@))),
{
    Divergence::begin(repo, branch, base)
}

} // verus!
