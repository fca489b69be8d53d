//! Guided, reversible conflict resolution.
//!
//! The engine inspects an in-progress merge or rebase, pins a restore point
//! and journals the resolution before any file changes, resolves files one
//! at a time (a whole side, or an edit with no markers left), and finishes
//! the operation only once no conflict remains.
use vstd::prelude::*;

use crate::exchange::{
    git_error_text,
    append_reply, git_reply, output_of, output_outcome, run_of, run_outcome, GitErrorView,
    OutputView, Reply, ReplyView, Request, RequestView, Step,
};
use crate::git::command::{GitCommand, GitCommandView, GitError, GitOutput};
use crate::git::conflicts::{
    checkout_side_view, context_journal_kind, context_verb, hunk_views, parse_conflicts, stage,
    stage_view, string_views, take_side, ConflictContext, ConflictFile, HunkView, Side,
};
use crate::git::repository::Repository;
use crate::git::restore::{
    operation_stamp, restore_ref_name, stamp_now, stamp_shaped, update_ref_view, RestorePoint,
};
use crate::git::state::{
    conflicted_command, conflicted_of, conflicted_outcome, conflicted_view, head_command,
    head_view, joined_path, merge_head_path, merge_marker, rebase_apply_marker,
    rebase_apply_path, rebase_merge_marker, rebase_merge_path, verify_command, verify_view,
};
use crate::operations::journal::{
    join_path, utc_now, BeforeState, Journal, JournalError, OperationRecord, OperationStatus,
    RecordView, Timestamp,
};
use crate::text::{owned, push_str};
use crate::verification::conflict_markers::{has_conflict_markers, has_markers};

verus! {

/// What `inspect` found.
#[derive(Debug, Clone)]
pub enum ResolveState {
    /// No merge or rebase is in progress and nothing is conflicted.
    Clean,
    /// An operation is in progress (or files conflict): which, and the
    /// conflicted paths.
    InProgress { context: ConflictContext, files: Vec<String> },
}

pub enum ResolveStateView {
    Clean,
    InProgress { context: ConflictContext, files: Seq<Seq<char>> },
}

impl View for ResolveState {
    type V = ResolveStateView;

    open spec fn view(&self) -> ResolveStateView {
        match self {
            ResolveState::Clean => ResolveStateView::Clean,
            ResolveState::InProgress { context, files } => ResolveStateView::InProgress {
                context: *context,
                files: string_views(files@),
            },
        }
    }
}

/// How finishing went.
#[derive(Debug, Clone)]
pub enum FinishOutcome {
    /// The operation finished; the resulting HEAD.
    Completed { head: String },
    /// Continuing a rebase stopped on the next commit's conflicts.
    MoreConflicts { files: Vec<String> },
    /// Conflicts remain, so nothing was run.
    Blocked { files: Vec<String> },
}

pub enum FinishOutcomeView {
    Completed { head: Seq<char> },
    MoreConflicts { files: Seq<Seq<char>> },
    Blocked { files: Seq<Seq<char>> },
}

impl View for FinishOutcome {
    type V = FinishOutcomeView;

    open spec fn view(&self) -> FinishOutcomeView {
        match self {
            FinishOutcome::Completed { head } => FinishOutcomeView::Completed { head: head@ },
            FinishOutcome::MoreConflicts { files } => FinishOutcomeView::MoreConflicts {
                files: string_views(files@),
            },
            FinishOutcome::Blocked { files } => FinishOutcomeView::Blocked { files: string_views(files@) },
        }
    }
}

/// Why a resolution step failed.
#[derive(Debug)]
pub enum ResolveError {
    /// The edited file still holds conflict markers.
    MarkersRemain { path: String },
    /// The edited file could not be read.
    Read { path: String, message: String },
    /// Finishing the operation failed; the repository is untouched.
    FinishFailed { verb: &'static str, stderr: String },
    Git(GitError),
    Journal(JournalError),
}

pub enum ResolveErrorView {
    MarkersRemain { path: Seq<char> },
    Read { path: Seq<char>, message: Seq<char> },
    FinishFailed { verb: Seq<char>, stderr: Seq<char> },
    Git(GitErrorView),
    Journal(Seq<char>),
}

impl View for ResolveError {
    type V = ResolveErrorView;

    open spec fn view(&self) -> ResolveErrorView {
        match self {
            ResolveError::MarkersRemain { path } => ResolveErrorView::MarkersRemain { path: path@ },
            ResolveError::Read { path, message } => ResolveErrorView::Read {
                path: path@,
                message: message@,
            },
            ResolveError::FinishFailed { verb, stderr } => ResolveErrorView::FinishFailed {
                verb: verb@,
                stderr: stderr@,
            },
            ResolveError::Git(e) => ResolveErrorView::Git(e@),
            ResolveError::Journal(e) => ResolveErrorView::Journal(e.message@),
        }
    }
}

/// How a resolution error reads.
pub open spec fn resolve_error_text(e: ResolveErrorView) -> Seq<char> {
    match e {
        ResolveErrorView::MarkersRemain { path } => path
            + " still contains conflict markers; finish editing it first"@,
        ResolveErrorView::Read { path, message } => "could not read "@ + path + ": "@ + message,
        ResolveErrorView::FinishFailed { verb, stderr } => "finishing the "@ + verb
            + " failed and your work is untouched.\n"@ + stderr,
        ResolveErrorView::Git(g) => git_error_text(g),
        ResolveErrorView::Journal(m) => m,
    }
}

impl ResolveError {
    /// The message shown for the error.
    pub fn message(&self) -> (r: String)
        ensures
            r@ == resolve_error_text(self@),
    {
        match self {
            ResolveError::MarkersRemain { path } => {
                let mut s = owned(path.as_str());
                push_str(&mut s, " still contains conflict markers; finish editing it first");
                s
            },
            ResolveError::Read { path, message } => {
                let mut s = owned("could not read ");
                push_str(&mut s, path.as_str());
                push_str(&mut s, ": ");
                push_str(&mut s, message.as_str());
                s
            },
            ResolveError::FinishFailed { verb, stderr } => {
                let mut s = owned("finishing the ");
                push_str(&mut s, verb);
                push_str(&mut s, " failed and your work is untouched.\n");
                push_str(&mut s, stderr.as_str());
                s
            },
            ResolveError::Git(g) => g.message(),
            ResolveError::Journal(j) => j.message.clone(),
        }
    }
}

pub open spec fn present(reply: ReplyView) -> bool {
    match reply {
        ReplyView::Exists(b) => b,
        _ => false,
    }
}

/// The context of an in-progress operation: a rebase wins, then a merge.
pub open spec fn context_of(rebase: bool, merge: bool) -> ConflictContext {
    if rebase {
        ConflictContext::Rebase
    } else if merge {
        ConflictContext::Merge
    } else {
        ConflictContext::Other
    }
}

/// Resolution for one repository, journaling to one journal.
#[derive(Debug)]
pub struct ResolveEngine {
    pub repo: Repository,
    pub journal: Journal,
}

impl ResolveEngine {
    /// An engine for `repo` that journals to `journal`.
    pub fn new(repo: &Repository, journal: &Journal) -> (r: Self)
        ensures
            r.repo.workdir@ == repo.workdir@,
            r.repo.git_dir@ == repo.git_dir@,
            r.journal.path@ == journal.path@,
    {
        ResolveEngine {
            repo: Repository::new(repo.workdir(), repo.git_dir()),
            journal: Journal { path: journal.path.clone() },
        }
    }

    /// The repository's working directory.
    pub fn workdir(&self) -> (r: &str)
        ensures
            r@ == self.repo.workdir@,
    {
        self.repo.workdir()
    }

    fn copy(&self) -> (r: Self)
        ensures
            r.repo.workdir@ == self.repo.workdir@,
            r.repo.git_dir@ == self.repo.git_dir@,
            r.journal.path@ == self.journal.path@,
    {
        Self::new(&self.repo, &self.journal)
    }
}

// ---------------------------------------------------------------------------
// Inspecting
// ---------------------------------------------------------------------------

/// Where inspection stands.
#[derive(Debug)]
pub enum InspectStage {
    /// The conflicted paths.
    Conflicts,
    /// Whether a merge-backed rebase is in progress.
    RebaseMerge(Vec<String>),
    /// Whether an apply-backed rebase is in progress; whether the other is.
    RebaseApply(Vec<String>, bool),
    /// Whether a merge is in progress; whether a rebase is.
    MergeHead(Vec<String>, bool),
    Finished,
}

pub enum InspectStageView {
    Conflicts,
    RebaseMerge(Seq<Seq<char>>),
    RebaseApply(Seq<Seq<char>>, bool),
    MergeHead(Seq<Seq<char>>, bool),
    Finished,
}

impl View for InspectStage {
    type V = InspectStageView;

    open spec fn view(&self) -> InspectStageView {
        match self {
            InspectStage::Conflicts => InspectStageView::Conflicts,
            InspectStage::RebaseMerge(f) => InspectStageView::RebaseMerge(string_views(f@)),
            InspectStage::RebaseApply(f, b) => InspectStageView::RebaseApply(string_views(f@), *b),
            InspectStage::MergeHead(f, b) => InspectStageView::MergeHead(string_views(f@), *b),
            InspectStage::Finished => InspectStageView::Finished,
        }
    }
}

pub enum InspectNext {
    Ask(RequestView),
    Done(Result<ResolveStateView, ResolveErrorView>),
}

/// One step of inspection: the conflicted paths, then whether a rebase
/// (either backend) or a merge is in progress. Nothing conflicted and
/// nothing in progress is clean; otherwise the operation in progress and the
/// conflicted paths.
pub open spec fn inspect_next(dir: Seq<char>, git_dir: Seq<char>, stage: InspectStageView, reply: ReplyView) -> (InspectStageView, InspectNext) {
    match stage {
        InspectStageView::Conflicts => match conflicted_outcome(dir, reply) {
            Err(g) => (InspectStageView::Finished, InspectNext::Done(Err(ResolveErrorView::Git(g)))),
            Ok(files) => (
                InspectStageView::RebaseMerge(files),
                InspectNext::Ask(RequestView::Exists(rebase_merge_path(git_dir))),
            ),
        },
        InspectStageView::RebaseMerge(files) => (
            InspectStageView::RebaseApply(files, present(reply)),
            InspectNext::Ask(RequestView::Exists(rebase_apply_path(git_dir))),
        ),
        InspectStageView::RebaseApply(files, b) => (
            InspectStageView::MergeHead(files, b || present(reply)),
            InspectNext::Ask(RequestView::Exists(merge_head_path(git_dir))),
        ),
        InspectStageView::MergeHead(files, rebase) => {
            let merge = present(reply);
            (
                InspectStageView::Finished,
                InspectNext::Done(
                    Ok(
                        if files.len() == 0 && !(rebase || merge) {
                            ResolveStateView::Clean
                        } else {
                            ResolveStateView::InProgress { context: context_of(rebase, merge), files }
                        },
                    ),
                ),
            )
        },
        InspectStageView::Finished => (InspectStageView::Finished, InspectNext::Done(Ok(ResolveStateView::Clean))),
    }
}

pub open spec fn inspect_expects(stage: InspectStageView, reply: ReplyView) -> bool {
    match stage {
        InspectStageView::Conflicts => git_reply(reply),
        InspectStageView::Finished => false,
        _ => reply is Exists,
    }
}

pub open spec fn inspect_step_is(step: Step<Result<ResolveState, ResolveError>>, next: InspectNext) -> bool {
    match next {
        InspectNext::Ask(q) => step matches Step::Ask(x) && x@ == q,
        InspectNext::Done(Ok(v)) => step matches Step::Done(Ok(x)) && x@ == v,
        InspectNext::Done(Err(v)) => step matches Step::Done(Err(x)) && x@ == v,
    }
}

/// Inspecting the repository for an operation in progress.
#[derive(Debug)]
pub struct Inspection {
    pub repo: Repository,
    pub stage: InspectStage,
}

impl Inspection {
    /// Go on with the reply to the last request.
    pub fn resume(&mut self, reply: Reply) -> (r: Step<Result<ResolveState, ResolveError>>)
        requires
            inspect_expects(old(self).stage@, reply@),
        ensures
            final(self).repo == old(self).repo,
            final(self).stage@ == inspect_next(old(self).repo.workdir@, old(self).repo.git_dir@, old(self).stage@, reply@).0,
            inspect_step_is(r, inspect_next(old(self).repo.workdir@, old(self).repo.git_dir@, old(self).stage@, reply@).1),
    {
        let mut stage = InspectStage::Finished;
        std::mem::swap(&mut stage, &mut self.stage);
        let found = match reply {
            Reply::Exists(b) => b,
            _ => false,
        };
        match stage {
            InspectStage::Conflicts => match conflicted_of(&self.repo, reply) {
                Err(g) => Step::Done(Err(ResolveError::Git(g))),
                Ok(files) => {
                    self.stage = InspectStage::RebaseMerge(files);
                    Step::Ask(Request::Exists(rebase_merge_marker(&self.repo)))
                },
            },
            InspectStage::RebaseMerge(files) => {
                self.stage = InspectStage::RebaseApply(files, found);
                Step::Ask(Request::Exists(rebase_apply_marker(&self.repo)))
            },
            InspectStage::RebaseApply(files, b) => {
                self.stage = InspectStage::MergeHead(files, b || found);
                Step::Ask(Request::Exists(merge_marker(&self.repo)))
            },
            InspectStage::MergeHead(files, rebase) => {
                if files.len() == 0 && !(rebase || found) {
                    Step::Done(Ok(ResolveState::Clean))
                } else {
                    let context = ConflictContext::detect(rebase, found);
                    Step::Done(Ok(ResolveState::InProgress { context, files }))
                }
            },
            InspectStage::Finished => Step::Done(Ok(ResolveState::Clean)),
        }
    }
}

impl ResolveEngine {
    /// Inspect the repository: start by asking for the conflicted paths.
    pub fn inspect(&self) -> (r: (Inspection, Step<Result<ResolveState, ResolveError>>))
        ensures
            r.0.repo.workdir@ == self.repo.workdir@,
            r.0.repo.git_dir@ == self.repo.git_dir@,
            r.0.stage@ == InspectStageView::Conflicts,
            inspect_step_is(r.1, InspectNext::Ask(RequestView::Git(conflicted_view(self.repo.workdir@)))),
    {
        let c = conflicted_command(&self.repo);
        (
            Inspection {
                repo: Repository::new(self.repo.workdir(), self.repo.git_dir()),
                stage: InspectStage::Conflicts,
            },
            Step::Ask(Request::Git(c)),
        )
    }

    /// The command listing the conflicts that remain.
    pub fn remaining(&self) -> (c: GitCommand)
        ensures
            c@ == conflicted_view(self.repo.workdir@),
    {
        conflicted_command(&self.repo)
    }

    /// The conflicts that remain, as the reply to [`ResolveEngine::remaining`]
    /// lists them.
    pub fn remaining_of(&self, reply: Reply) -> (r: Result<Vec<String>, ResolveError>)
        requires
            git_reply(reply@),
        ensures
            match conflicted_outcome(self.repo.workdir@, reply@) {
                Ok(files) => r matches Ok(v) && string_views(v@) == files,
                Err(g) => r matches Err(ResolveError::Git(e)) && e@ == g,
            },
    {
        match conflicted_of(&self.repo, reply) {
            Ok(v) => {
                assert(string_views(v@) == v@.map_values(|s: String| s@));
                Ok(v)
            },
            Err(g) => Err(ResolveError::Git(g)),
        }
    }
}

// ---------------------------------------------------------------------------
// Reading the conflicted files
// ---------------------------------------------------------------------------

/// Where reading the conflicted files stands.
#[derive(Debug)]
pub enum LoadStage {
    /// The conflicted paths.
    Paths,
    /// Reading the `i`-th of the paths; the files read so far.
    Reading(Vec<String>, usize, Vec<ConflictFile>),
    Finished,
}

/// The file a read gives: its hunks when it read as text, else a file that
/// must be resolved by choosing a side.
pub open spec fn loaded(path: Seq<char>, reply: ReplyView) -> (Seq<char>, bool, Seq<HunkView>) {
    match reply {
        ReplyView::Text(Ok(c)) => (path, true, parse_conflicts(c)),
        _ => (path, false, seq![]),
    }
}

pub open spec fn file_view(f: ConflictFile) -> (Seq<char>, bool, Seq<HunkView>) {
    (f.path@, f.readable, hunk_views(f.hunks@))
}

pub open spec fn file_views(v: Seq<ConflictFile>) -> Seq<(Seq<char>, bool, Seq<HunkView>)> {
    v.map_values(|f: ConflictFile| file_view(f))
}

/// Loading every conflicted file, one request at a time.
pub struct Loading {
    pub repo: Repository,
    pub stage: LoadStage,
    /// Each conflicted path, and what reading it gave, so far.
    pub read: Ghost<Seq<(Seq<char>, ReplyView)>>,
}

impl Loading {
    /// The files loaded so far are the reads so far, file by file; the next
    /// read is of the next path.
    pub open spec fn wf(&self) -> bool {
        match self.stage {
            LoadStage::Reading(paths, i, files) => i < paths@.len() && files@.len() == i
                && self.read@.len() == i && forall|k: int|
                0 <= k < i ==> #[trigger] file_views(files@)[k] == loaded(
                    self.read@[k].0,
                    self.read@[k].1,
                ) && self.read@[k].0 == paths@[k]@,
            _ => true,
        }
    }

    /// Go on with the reply to the last request. Once every path has been
    /// read, the result holds, in order, one file per conflicted path, as
    /// reading it gave.
    pub fn resume(&mut self, reply: Reply) -> (r: Step<Result<Vec<ConflictFile>, ResolveError>>)
        requires
            old(self).wf(),
            match old(self).stage {
                LoadStage::Paths => git_reply(reply@),
                LoadStage::Reading(_, _, _) => reply@ is Text,
                LoadStage::Finished => false,
            },
        ensures
            final(self).wf(),
            final(self).repo == old(self).repo,
            match old(self).stage {
                LoadStage::Paths => match conflicted_outcome(old(self).repo.workdir@, reply@) {
                    Err(g) => r matches Step::Done(Err(ResolveError::Git(e))) && e@ == g,
                    Ok(paths) => if paths.len() == 0 {
                        r matches Step::Done(Ok(v)) && v@.len() == 0
                    } else {
                        &&& final(self).stage matches LoadStage::Reading(p, i, _) && string_views(p@)
                            == paths && i == 0
                        &&& r matches Step::Ask(q) && q@ == RequestView::Read(
                            join_path(old(self).repo.workdir@, paths[0]),
                        )
                    },
                },
                LoadStage::Reading(paths, i, _) => {
                    let read = old(self).read@.push((paths@[i as int]@, reply@));
                    if i + 1 < paths@.len() {
                        &&& final(self).read@ == read
                        &&& r matches Step::Ask(q) && q@ == RequestView::Read(
                            join_path(old(self).repo.workdir@, paths@[i + 1]@),
                        )
                    } else {
                        r matches Step::Done(Ok(v)) && v@.len() == read.len() && forall|k: int|
                            0 <= k < read.len() ==> #[trigger] file_views(v@)[k] == loaded(
                                read[k].0,
                                read[k].1,
                            )
                    }
                },
                LoadStage::Finished => true,
            },
    {
        let mut stage = LoadStage::Finished;
        std::mem::swap(&mut stage, &mut self.stage);
        match stage {
            LoadStage::Paths => match conflicted_of(&self.repo, reply) {
                Err(g) => Step::Done(Err(ResolveError::Git(g))),
                Ok(paths) => {
                    assert(string_views(paths@) == paths@.map_values(|s: String| s@));
                    if paths.len() == 0 {
                        Step::Done(Ok(Vec::new()))
                    } else {
                        let p = joined_path(self.repo.workdir(), paths[0].as_str());
                        self.read = Ghost(Seq::empty());
                        self.stage = LoadStage::Reading(paths, 0, Vec::new());
                        Step::Ask(Request::Read(p))
                    }
                },
            },
            LoadStage::Reading(paths, i, mut files) => {
                let n = paths.len();
                assert(i < n);
                let next = i + 1;
                let ghost before = file_views(files@);
                let ghost rv = reply@;
                let file = match &reply {
                    Reply::Text(Ok(content)) => ConflictFile::from_content(
                        paths[i].as_str(),
                        Some(content.as_str()),
                    ),
                    _ => ConflictFile::from_content(paths[i].as_str(), None),
                };
                assert(file_view(file) == loaded(paths@[i as int]@, rv));
                files.push(file);
                assert(file_views(files@) =~= before.push(loaded(paths@[i as int]@, rv)));
                self.read = Ghost(self.read@.push((paths@[i as int]@, rv)));
                if next < paths.len() {
                    let p = joined_path(self.repo.workdir(), paths[next].as_str());
                    self.stage = LoadStage::Reading(paths, next, files);
                    Step::Ask(Request::Read(p))
                } else {
                    Step::Done(Ok(files))
                }
            },
            LoadStage::Finished => Step::Done(Ok(Vec::new())),
        }
    }
}

impl ResolveEngine {
    /// Read every conflicted file and parse its conflict blocks: start by
    /// asking for the conflicted paths.
    pub fn conflict_files(&self) -> (r: (Loading, Step<Result<Vec<ConflictFile>, ResolveError>>))
        ensures
            r.0.wf(),
            r.0.repo.workdir@ == self.repo.workdir@,
            r.0.stage is Paths,
            r.1 matches Step::Ask(q) && q@ == RequestView::Git(conflicted_view(self.repo.workdir@)),
    {
        let c = conflicted_command(&self.repo);
        (
            Loading {
                repo: Repository::new(self.repo.workdir(), self.repo.git_dir()),
                stage: LoadStage::Paths,
                read: Ghost(Seq::empty()),
            },
            Step::Ask(Request::Git(c)),
        )
    }
}

// ---------------------------------------------------------------------------
// Starting a resolution
// ---------------------------------------------------------------------------

/// Where starting stands.
#[derive(Debug)]
pub enum StartStage {
    /// During a rebase: the commit the branch was at before it (`ORIG_HEAD`).
    OrigHead,
    /// The current HEAD.
    Head,
    /// Pinning the restore point at the pre-operation HEAD.
    Pin(String),
    /// Journaling the started resolution.
    Journal(String),
    Finished,
}

pub enum StartStageView {
    OrigHead,
    Head,
    Pin(Seq<char>),
    Journal(Seq<char>),
    Finished,
}

impl View for StartStage {
    type V = StartStageView;

    open spec fn view(&self) -> StartStageView {
        match self {
            StartStage::OrigHead => StartStageView::OrigHead,
            StartStage::Head => StartStageView::Head,
            StartStage::Pin(h) => StartStageView::Pin(h@),
            StartStage::Journal(h) => StartStageView::Journal(h@),
            StartStage::Finished => StartStageView::Finished,
        }
    }
}

/// What starting is fixed by.
pub struct StartView {
    pub dir: Seq<char>,
    pub journal: Seq<char>,
    pub branch: Seq<char>,
    pub context: ConflictContext,
    pub id: Seq<char>,
    pub stamp: Seq<char>,
    pub started_at: Timestamp,
}

pub open spec fn start_ref(x: StartView) -> Seq<char> {
    restore_ref_name(x.branch, x.stamp)
}

/// The record journaled when a resolution starts: the pre-operation HEAD
/// and the restore point pinning it.
pub open spec fn resolve_record(x: StartView, before: Seq<char>) -> RecordView {
    RecordView {
        id: x.id,
        kind: context_journal_kind(x.context),
        repository: x.dir,
        branch: x.branch,
        started_at: x.started_at,
        before_head: before,
        restore_ref: Some(start_ref(x)),
        after_head: None,
        status: OperationStatus::Started,
        undoes: None,
    }
}

pub enum StartNext {
    Ask(RequestView),
    Done(Result<(RecordView, (Seq<char>, Seq<char>)), ResolveErrorView>),
}

/// Where starting begins: a rebase first asks for `ORIG_HEAD`.
pub open spec fn start_first(context: ConflictContext) -> StartStageView {
    match context {
        ConflictContext::Rebase => StartStageView::OrigHead,
        _ => StartStageView::Head,
    }
}

/// One step of starting. The HEAD to return to is, during a rebase,
/// `ORIG_HEAD` when Git knows it (HEAD then points into the rebase), else
/// HEAD. It is pinned as a restore point, then the started resolution is
/// journaled; the result is that record and the restore point.
pub open spec fn start_next(x: StartView, stage: StartStageView, reply: ReplyView) -> (StartStageView, StartNext) {
    let fail = |g: GitErrorView| (StartStageView::Finished, StartNext::Done(Err(ResolveErrorView::Git(g))));
    let pin = |h: Seq<char>| (
        StartStageView::Pin(h),
        StartNext::Ask(RequestView::Git(update_ref_view(x.dir, start_ref(x), h))),
    );
    match stage {
        StartStageView::OrigHead => match run_outcome(verify_view(x.dir, "ORIG_HEAD"@), reply) {
            Err(g) => fail(g),
            Ok(o) => if o.success {
                pin(o.stdout)
            } else {
                (StartStageView::Head, StartNext::Ask(RequestView::Git(head_view(x.dir))))
            },
        },
        StartStageView::Head => match output_outcome(head_view(x.dir), reply) {
            Err(g) => fail(g),
            Ok(h) => pin(h),
        },
        StartStageView::Pin(h) => match output_outcome(update_ref_view(x.dir, start_ref(x), h), reply) {
            Err(g) => fail(g),
            Ok(_) => (
                StartStageView::Journal(h),
                StartNext::Ask(RequestView::Append(x.journal, resolve_record(x, h))),
            ),
        },
        StartStageView::Journal(h) => match reply {
            ReplyView::Appended => (
                StartStageView::Finished,
                StartNext::Done(Ok((resolve_record(x, h), (start_ref(x), h)))),
            ),
            ReplyView::JournalFailed(m) => (StartStageView::Finished, StartNext::Done(Err(ResolveErrorView::Journal(m)))),
            _ => (StartStageView::Finished, StartNext::Done(Err(ResolveErrorView::Journal(seq![])))),
        },
        StartStageView::Finished => (StartStageView::Finished, StartNext::Done(Err(ResolveErrorView::Journal(seq![])))),
    }
}

pub open spec fn start_expects(stage: StartStageView, reply: ReplyView) -> bool {
    match stage {
        StartStageView::Journal(_) => append_reply(reply),
        StartStageView::Finished => false,
        _ => git_reply(reply),
    }
}

pub open spec fn start_step_is(step: Step<Result<(OperationRecord, RestorePoint), ResolveError>>, next: StartNext) -> bool {
    match next {
        StartNext::Ask(q) => step matches Step::Ask(x) && x@ == q,
        StartNext::Done(Ok((rec, (rr, h)))) => step matches Step::Done(Ok((a, b))) && a@ == rec
            && b.ref_name@ == rr && b.head@ == h,
        StartNext::Done(Err(e)) => step matches Step::Done(Err(a)) && a@ == e,
    }
}

/// Starting a reversible resolution, one request at a time.
#[derive(Debug)]
pub struct Starting {
    pub engine: ResolveEngine,
    pub branch: String,
    pub context: ConflictContext,
    pub id: String,
    pub stamp: String,
    pub started_at: Timestamp,
    pub stage: StartStage,
}

impl Starting {
    pub open spec fn view(&self) -> StartView {
        StartView {
            dir: self.engine.repo.workdir@,
            journal: self.engine.journal.path@,
            branch: self.branch@,
            context: self.context,
            id: self.id@,
            stamp: self.stamp@,
            started_at: self.started_at,
        }
    }

    fn restore(&self, head: &str) -> (r: (RestorePoint, GitCommand))
        ensures
            r.0.ref_name@ == start_ref(self.view()),
            r.0.head@ == head@,
            r.1@ == update_ref_view(self.engine.repo.workdir@, start_ref(self.view()), head@),
    {
        RestorePoint::create_at(&self.engine.repo, self.branch.as_str(), head, self.stamp.as_str())
    }

    fn pin(&mut self, head: String) -> (r: Step<Result<(OperationRecord, RestorePoint), ResolveError>>)
        ensures
            final(self).view() == old(self).view(),
            final(self).stage@ == StartStageView::Pin(head@),
            start_step_is(
                r,
                StartNext::Ask(
                    RequestView::Git(update_ref_view(old(self).engine.repo.workdir@, start_ref(old(self).view()), head@)),
                ),
            ),
    {
        let (_, c) = self.restore(head.as_str());
        self.stage = StartStage::Pin(head);
        Step::Ask(Request::Git(c))
    }

    /// Go on with the reply to the last request.
    #[verifier::rlimit(50)]
    pub fn resume(&mut self, reply: Reply) -> (r: Step<Result<(OperationRecord, RestorePoint), ResolveError>>)
        requires
            start_expects(old(self).stage@, reply@),
        ensures
            final(self).view() == old(self).view(),
            final(self).stage@ == start_next(old(self).view(), old(self).stage@, reply@).0,
            start_step_is(r, start_next(old(self).view(), old(self).stage@, reply@).1),
    {
        let mut stage = StartStage::Finished;
        std::mem::swap(&mut stage, &mut self.stage);
        match stage {
            StartStage::OrigHead => {
                let asked = verify_command(&self.engine.repo, "ORIG_HEAD");
                match run_of(&asked, reply) {
                    Err(g) => Step::Done(Err(ResolveError::Git(g))),
                    Ok(o) => if o.success {
                        self.pin(o.stdout)
                    } else {
                        self.stage = StartStage::Head;
                        Step::Ask(Request::Git(head_command(&self.engine.repo)))
                    },
                }
            },
            StartStage::Head => {
                let asked = head_command(&self.engine.repo);
                match output_of(&asked, reply) {
                    Err(g) => Step::Done(Err(ResolveError::Git(g))),
                    Ok(h) => self.pin(h),
                }
            },
            StartStage::Pin(h) => {
                let (rp, asked) = self.restore(h.as_str());
                match output_of(&asked, reply) {
                    Err(g) => Step::Done(Err(ResolveError::Git(g))),
                    Ok(_) => {
                        let record = OperationRecord::begin_at(
                            self.id.as_str(),
                            self.context.journal_kind(),
                            self.engine.repo.workdir(),
                            self.branch.as_str(),
                            BeforeState { head: h.clone(), restore_ref: Some(rp.ref_name) },
                            self.started_at,
                        );
                        self.stage = StartStage::Journal(h);
                        Step::Ask(Request::Append(self.engine.journal.path.clone(), record))
                    },
                }
            },
            StartStage::Journal(h) => match reply {
                Reply::Appended => {
                    let (rp, _) = self.restore(h.as_str());
                    let record = OperationRecord::begin_at(
                        self.id.as_str(),
                        self.context.journal_kind(),
                        self.engine.repo.workdir(),
                        self.branch.as_str(),
                        BeforeState { head: h, restore_ref: Some(rp.ref_name.clone()) },
                        self.started_at,
                    );
                    Step::Done(Ok((record, rp)))
                },
                Reply::JournalFailed(m) => Step::Done(Err(ResolveError::Journal(JournalError { message: m }))),
                _ => Step::Done(Err(ResolveError::Journal(JournalError { message: String::new() }))),
            },
            StartStage::Finished => Step::Done(Err(ResolveError::Journal(JournalError { message: String::new() }))),
        }
    }
}

impl ResolveEngine {
    /// Start a reversible resolution of the `context` operation on `branch`,
    /// journaled under `record_id`: pin the pre-operation HEAD as a restore
    /// point (named with the current local time) and journal it before any
    /// file changes.
    pub fn start(&self, branch: &str, context: ConflictContext, record_id: &str) -> (r: (
        Starting,
        Step<Result<(OperationRecord, RestorePoint), ResolveError>>,
    ))
        ensures
            r.0.view().dir == self.repo.workdir@,
            r.0.view().journal == self.journal.path@,
            r.0.view().branch == branch@,
            r.0.view().context == context,
            r.0.view().id == record_id@,
            exists|t: Seq<char>| #[trigger] stamp_shaped(t) && r.0.view().stamp == operation_stamp(t, record_id@),
            r.0.stage@ == start_first(context),
            start_step_is(
                r.1,
                StartNext::Ask(
                    RequestView::Git(
                        match context {
                            ConflictContext::Rebase => verify_view(self.repo.workdir@, "ORIG_HEAD"@),
                            _ => head_view(self.repo.workdir@),
                        },
                    ),
                ),
            ),
    {
        let (stage, c) = match context {
            ConflictContext::Rebase => (
                StartStage::OrigHead,
                verify_command(&self.repo, "ORIG_HEAD"),
            ),
            _ => (StartStage::Head, head_command(&self.repo)),
        };
        let (stamp, Ghost(t)) = stamp_now(record_id);
        assert(stamp_shaped(t));
        (
            Starting {
                engine: self.copy(),
                branch: owned(branch),
                context,
                id: owned(record_id),
                stamp,
                started_at: utc_now(),
                stage,
            },
            Step::Ask(Request::Git(c)),
        )
    }
}

// ---------------------------------------------------------------------------
// Resolving one file
// ---------------------------------------------------------------------------

/// Where resolving one file stands.
#[derive(Debug, Clone, Copy, PartialEq, Eq, Structural)]
pub enum FileStage {
    /// Replacing the file with one whole side.
    Checkout(Side),
    /// Reading the edited file.
    ReadEdited,
    /// Staging the file.
    Add,
    Finished,
}

/// Resolving one conflicted file, one request at a time.
#[derive(Debug)]
pub struct FileResolution {
    pub repo: Repository,
    pub path: String,
    pub stage: FileStage,
}

pub open spec fn unit_result_is(step: Step<Result<(), ResolveError>>, r: Result<(), ResolveErrorView>) -> bool {
    match r {
        Ok(_) => step matches Step::Done(Ok(_)),
        Err(e) => step matches Step::Done(Err(x)) && x@ == e,
    }
}

impl FileResolution {
    /// Go on with the reply to the last request. A `git` failure ends it with
    /// that error; a checked-out side or an edit without conflict markers is
    /// staged; an edit that still has markers, or cannot be read, is refused
    /// and nothing is staged.
    pub fn resume(&mut self, reply: Reply) -> (r: Step<Result<(), ResolveError>>)
        requires
            match old(self).stage {
                FileStage::ReadEdited => reply@ is Text,
                FileStage::Finished => false,
                _ => git_reply(reply@),
            },
        ensures
            final(self).repo == old(self).repo,
            final(self).path == old(self).path,
            match old(self).stage {
                FileStage::ReadEdited => match reply@ {
                    ReplyView::Text(Err(m)) => unit_result_is(
                        r,
                        Err(ResolveErrorView::Read { path: old(self).path@, message: m }),
                    ),
                    ReplyView::Text(Ok(c)) => if has_markers(c) {
                        unit_result_is(r, Err(ResolveErrorView::MarkersRemain { path: old(self).path@ }))
                    } else {
                        &&& final(self).stage is Add
                        &&& r matches Step::Ask(q) && q@ == RequestView::Git(
                            stage_view(old(self).repo.workdir@, old(self).path@),
                        )
                    },
                    _ => true,
                },
                FileStage::Add => match output_outcome(stage_view(old(self).repo.workdir@, old(self).path@), reply@) {
                    Ok(_) => unit_result_is(r, Ok(())),
                    Err(g) => unit_result_is(r, Err(ResolveErrorView::Git(g))),
                },
                FileStage::Checkout(side) => match output_outcome(
                    checkout_side_view(old(self).repo.workdir@, old(self).path@, side),
                    reply@,
                ) {
                    Ok(_) => {
                        &&& final(self).stage is Add
                        &&& r matches Step::Ask(q) && q@ == RequestView::Git(
                            stage_view(old(self).repo.workdir@, old(self).path@),
                        )
                    },
                    Err(g) => unit_result_is(r, Err(ResolveErrorView::Git(g))),
                },
                FileStage::Finished => true,
            },
    {
        let current = self.stage;
        self.stage = FileStage::Finished;
        match current {
            FileStage::Checkout(side) => {
                let (asked, add) = take_side(&self.repo, self.path.as_str(), side);
                match output_of(&asked, reply) {
                    Err(g) => Step::Done(Err(ResolveError::Git(g))),
                    Ok(_) => {
                        self.stage = FileStage::Add;
                        Step::Ask(Request::Git(add))
                    },
                }
            },
            FileStage::ReadEdited => match reply {
                Reply::Text(Err(m)) => Step::Done(Err(ResolveError::Read { path: self.path.clone(), message: m })),
                Reply::Text(Ok(content)) => if has_conflict_markers(content.as_str()) {
                    Step::Done(Err(ResolveError::MarkersRemain { path: self.path.clone() }))
                } else {
                    self.stage = FileStage::Add;
                    Step::Ask(Request::Git(stage(&self.repo, self.path.as_str())))
                },
                _ => Step::Done(Err(ResolveError::Journal(JournalError { message: String::new() }))),
            },
            FileStage::Add => {
                let asked = stage(&self.repo, self.path.as_str());
                match output_of(&asked, reply) {
                    Err(g) => Step::Done(Err(ResolveError::Git(g))),
                    Ok(_) => Step::Done(Ok(())),
                }
            },
            FileStage::Finished => Step::Done(Ok(())),
        }
    }
}

impl ResolveEngine {
    /// Resolve `path` by keeping one whole `side`: check that side out, then
    /// stage the file.
    pub fn take_side(&self, path: &str, side: Side) -> (r: (FileResolution, Step<Result<(), ResolveError>>))
        ensures
            r.0.repo.workdir@ == self.repo.workdir@,
            r.0.path@ == path@,
            r.0.stage == FileStage::Checkout(side),
            r.1 matches Step::Ask(q) && q@ == RequestView::Git(
                checkout_side_view(self.repo.workdir@, path@, side),
            ),
    {
        let (c, _) = take_side(&self.repo, path, side);
        (
            FileResolution {
                repo: Repository::new(self.repo.workdir(), self.repo.git_dir()),
                path: owned(path),
                stage: FileStage::Checkout(side),
            },
            Step::Ask(Request::Git(c)),
        )
    }

    /// Stage `path` after the user edited it, refusing while conflict
    /// markers remain: read the file first.
    pub fn stage_edited(&self, path: &str) -> (r: (FileResolution, Step<Result<(), ResolveError>>))
        ensures
            r.0.repo.workdir@ == self.repo.workdir@,
            r.0.path@ == path@,
            r.0.stage == FileStage::ReadEdited,
            r.1 matches Step::Ask(q) && q@ == RequestView::Read(join_path(self.repo.workdir@, path@)),
    {
        let p = joined_path(self.repo.workdir(), path);
        (
            FileResolution {
                repo: Repository::new(self.repo.workdir(), self.repo.git_dir()),
                path: owned(path),
                stage: FileStage::ReadEdited,
            },
            Step::Ask(Request::Read(p)),
        )
    }
}

// ---------------------------------------------------------------------------
// Finishing
// ---------------------------------------------------------------------------

/// `git rebase --continue` or `git commit --no-edit`, with Git's editor
/// replaced by `true` so no editor opens.
pub open spec fn continue_view(dir: Seq<char>, context: ConflictContext) -> GitCommandView {
    GitCommandView {
        args: match context {
            ConflictContext::Rebase => seq!["rebase"@, "--continue"@],
            _ => seq!["commit"@, "--no-edit"@],
        },
        cwd: Some(dir),
        env: seq![("GIT_EDITOR"@, "true"@)],
    }
}

/// The command that finishes the operation.
pub fn continue_command(repo: &Repository, context: ConflictContext) -> (c: GitCommand)
    ensures
        c@ == continue_view(repo.workdir@, context),
{
    let c = match context {
        ConflictContext::Rebase => repo.git("rebase").arg("--continue"),
        _ => repo.git("commit").arg("--no-edit"),
    };
    let c = c.env("GIT_EDITOR", "true");
    assert(c@.args =~= continue_view(repo.workdir@, context).args);
    assert(c@.env =~= continue_view(repo.workdir@, context).env);
    c
}

/// Where finishing stands.
#[derive(Debug)]
pub enum FinishStage {
    /// The conflicts that remain.
    Check,
    /// Continuing the operation.
    Run,
    /// Whether a merge-backed rebase is still in progress; the run's output.
    RebaseMerge(GitOutput),
    RebaseApply(GitOutput),
    MergeHead(GitOutput),
    /// The new conflicts of a continued rebase.
    Files,
    /// The resulting HEAD.
    Head,
    /// Journaling the completion; the resulting HEAD.
    Journal(String),
    Finished,
}

pub enum FinishStageView {
    Check,
    Run,
    RebaseMerge(OutputView),
    RebaseApply(OutputView),
    MergeHead(OutputView),
    Files,
    Head,
    Journal(Seq<char>),
    Finished,
}

impl View for FinishStage {
    type V = FinishStageView;

    open spec fn view(&self) -> FinishStageView {
        match self {
            FinishStage::Check => FinishStageView::Check,
            FinishStage::Run => FinishStageView::Run,
            FinishStage::RebaseMerge(o) => FinishStageView::RebaseMerge(crate::exchange::output_view(*o)),
            FinishStage::RebaseApply(o) => FinishStageView::RebaseApply(crate::exchange::output_view(*o)),
            FinishStage::MergeHead(o) => FinishStageView::MergeHead(crate::exchange::output_view(*o)),
            FinishStage::Files => FinishStageView::Files,
            FinishStage::Head => FinishStageView::Head,
            FinishStage::Journal(h) => FinishStageView::Journal(h@),
            FinishStage::Finished => FinishStageView::Finished,
        }
    }
}

/// What finishing is fixed by: the repository, the journal, the record the
/// resolution started, and the operation being resolved.
pub struct FinishView {
    pub dir: Seq<char>,
    pub git_dir: Seq<char>,
    pub journal: Seq<char>,
    pub record: RecordView,
    pub context: ConflictContext,
}

pub enum FinishNext {
    Ask(RequestView),
    Done(Result<FinishOutcomeView, ResolveErrorView>),
}

/// One step of finishing. While any conflict remains nothing is run and the
/// remaining files are reported. Otherwise the operation is continued; if a
/// rebase is still in progress afterwards (it stopped on its next commit) its
/// new conflicts are reported; a merge commit that failed (a rejecting hook,
/// say) is reported with Git's message, with nothing journaled, as is any
/// other failure; a success is journaled as completed with the new HEAD.
pub open spec fn finish_next(x: FinishView, stage: FinishStageView, reply: ReplyView) -> (FinishStageView, FinishNext) {
    let fail = |g: GitErrorView| (FinishStageView::Finished, FinishNext::Done(Err(ResolveErrorView::Git(g))));
    let files = (FinishStageView::Files, FinishNext::Ask(RequestView::Git(conflicted_view(x.dir))));
    match stage {
        FinishStageView::Check => match conflicted_outcome(x.dir, reply) {
            Err(g) => fail(g),
            Ok(remaining) => if remaining.len() > 0 {
                (FinishStageView::Finished, FinishNext::Done(Ok(FinishOutcomeView::Blocked { files: remaining })))
            } else {
                (FinishStageView::Run, FinishNext::Ask(RequestView::Git(continue_view(x.dir, x.context))))
            },
        },
        FinishStageView::Run => match run_outcome(continue_view(x.dir, x.context), reply) {
            Err(g) => fail(g),
            Ok(o) => (
                FinishStageView::RebaseMerge(o),
                FinishNext::Ask(RequestView::Exists(rebase_merge_path(x.git_dir))),
            ),
        },
        FinishStageView::RebaseMerge(o) => if present(reply) {
            files
        } else {
            (FinishStageView::RebaseApply(o), FinishNext::Ask(RequestView::Exists(rebase_apply_path(x.git_dir))))
        },
        FinishStageView::RebaseApply(o) => if present(reply) {
            files
        } else {
            (FinishStageView::MergeHead(o), FinishNext::Ask(RequestView::Exists(merge_head_path(x.git_dir))))
        },
        FinishStageView::MergeHead(o) => if present(reply) && (x.context is Rebase || o.success) {
            files
        } else if !o.success {
            (
                FinishStageView::Finished,
                FinishNext::Done(
                    Err(ResolveErrorView::FinishFailed { verb: context_verb(x.context), stderr: o.stderr }),
                ),
            )
        } else {
            (FinishStageView::Head, FinishNext::Ask(RequestView::Git(head_view(x.dir))))
        },
        FinishStageView::Files => match conflicted_outcome(x.dir, reply) {
            Err(g) => fail(g),
            Ok(fs) => (FinishStageView::Finished, FinishNext::Done(Ok(FinishOutcomeView::MoreConflicts { files: fs }))),
        },
        FinishStageView::Head => match output_outcome(head_view(x.dir), reply) {
            Err(g) => fail(g),
            Ok(h) => (
                FinishStageView::Journal(h),
                FinishNext::Ask(
                    RequestView::Append(
                        x.journal,
                        RecordView { after_head: Some(h), status: OperationStatus::Completed, ..x.record },
                    ),
                ),
            ),
        },
        FinishStageView::Journal(h) => match reply {
            ReplyView::Appended => (FinishStageView::Finished, FinishNext::Done(Ok(FinishOutcomeView::Completed { head: h }))),
            ReplyView::JournalFailed(m) => (FinishStageView::Finished, FinishNext::Done(Err(ResolveErrorView::Journal(m)))),
            _ => (FinishStageView::Finished, FinishNext::Done(Err(ResolveErrorView::Journal(seq![])))),
        },
        FinishStageView::Finished => (FinishStageView::Finished, FinishNext::Done(Err(ResolveErrorView::Journal(seq![])))),
    }
}

pub open spec fn finish_expects(stage: FinishStageView, reply: ReplyView) -> bool {
    match stage {
        FinishStageView::RebaseMerge(_) | FinishStageView::RebaseApply(_) | FinishStageView::MergeHead(_) => reply is Exists,
        FinishStageView::Journal(_) => append_reply(reply),
        FinishStageView::Finished => false,
        _ => git_reply(reply),
    }
}

pub open spec fn finish_step_is(step: Step<Result<FinishOutcome, ResolveError>>, next: FinishNext) -> bool {
    match next {
        FinishNext::Ask(q) => step matches Step::Ask(x) && x@ == q,
        FinishNext::Done(Ok(v)) => step matches Step::Done(Ok(x)) && x@ == v,
        FinishNext::Done(Err(v)) => step matches Step::Done(Err(x)) && x@ == v,
    }
}

/// Finishing a resolution, one request at a time.
#[derive(Debug)]
pub struct Finishing {
    pub engine: ResolveEngine,
    pub record: OperationRecord,
    pub context: ConflictContext,
    pub stage: FinishStage,
}

impl Finishing {
    pub open spec fn view(&self) -> FinishView {
        FinishView {
            dir: self.engine.repo.workdir@,
            git_dir: self.engine.repo.git_dir@,
            journal: self.engine.journal.path@,
            record: self.record@,
            context: self.context,
        }
    }

    fn files(&mut self) -> (r: Step<Result<FinishOutcome, ResolveError>>)
        ensures
            final(self).view() == old(self).view(),
            final(self).stage@ == FinishStageView::Files,
            finish_step_is(r, FinishNext::Ask(RequestView::Git(conflicted_view(old(self).engine.repo.workdir@)))),
    {
        self.stage = FinishStage::Files;
        Step::Ask(Request::Git(conflicted_command(&self.engine.repo)))
    }

    /// Go on with the reply to the last request.
    #[verifier::rlimit(60)]
    pub fn resume(&mut self, reply: Reply) -> (r: Step<Result<FinishOutcome, ResolveError>>)
        requires
            finish_expects(old(self).stage@, reply@),
        ensures
            final(self).view() == old(self).view(),
            final(self).stage@ == finish_next(old(self).view(), old(self).stage@, reply@).0,
            finish_step_is(r, finish_next(old(self).view(), old(self).stage@, reply@).1),
    {
        let mut stage = FinishStage::Finished;
        std::mem::swap(&mut stage, &mut self.stage);
        let found = match reply {
            Reply::Exists(b) => b,
            _ => false,
        };
        match stage {
            FinishStage::Check => match conflicted_of(&self.engine.repo, reply) {
                Err(g) => Step::Done(Err(ResolveError::Git(g))),
                Ok(remaining) => if remaining.len() > 0 {
                    Step::Done(Ok(FinishOutcome::Blocked { files: remaining }))
                } else {
                    self.stage = FinishStage::Run;
                    Step::Ask(Request::Git(continue_command(&self.engine.repo, self.context)))
                },
            },
            FinishStage::Run => {
                let asked = continue_command(&self.engine.repo, self.context);
                match run_of(&asked, reply) {
                    Err(g) => Step::Done(Err(ResolveError::Git(g))),
                    Ok(o) => {
                        self.stage = FinishStage::RebaseMerge(o);
                        Step::Ask(Request::Exists(rebase_merge_marker(&self.engine.repo)))
                    },
                }
            },
            FinishStage::RebaseMerge(o) => if found {
                self.files()
            } else {
                self.stage = FinishStage::RebaseApply(o);
                Step::Ask(Request::Exists(rebase_apply_marker(&self.engine.repo)))
            },
            FinishStage::RebaseApply(o) => if found {
                self.files()
            } else {
                self.stage = FinishStage::MergeHead(o);
                Step::Ask(Request::Exists(merge_marker(&self.engine.repo)))
            },
            FinishStage::MergeHead(o) => if found && (matches!(self.context, ConflictContext::Rebase) || o.success) {
                self.files()
            } else if !o.success {
                Step::Done(Err(ResolveError::FinishFailed { verb: self.context.verb(), stderr: o.stderr }))
            } else {
                self.stage = FinishStage::Head;
                Step::Ask(Request::Git(head_command(&self.engine.repo)))
            },
            FinishStage::Files => match conflicted_of(&self.engine.repo, reply) {
                Err(g) => Step::Done(Err(ResolveError::Git(g))),
                Ok(files) => Step::Done(Ok(FinishOutcome::MoreConflicts { files })),
            },
            FinishStage::Head => {
                let asked = head_command(&self.engine.repo);
                match output_of(&asked, reply) {
                    Err(g) => Step::Done(Err(ResolveError::Git(g))),
                    Ok(h) => {
                        let record = self.record.duplicate().complete(h.as_str());
                        self.stage = FinishStage::Journal(h);
                        Step::Ask(Request::Append(self.engine.journal.path.clone(), record))
                    },
                }
            },
            FinishStage::Journal(h) => match reply {
                Reply::Appended => Step::Done(Ok(FinishOutcome::Completed { head: h })),
                Reply::JournalFailed(m) => Step::Done(Err(ResolveError::Journal(JournalError { message: m }))),
                _ => Step::Done(Err(ResolveError::Journal(JournalError { message: String::new() }))),
            },
            FinishStage::Finished => Step::Done(Err(ResolveError::Journal(JournalError { message: String::new() }))),
        }
    }
}

impl ResolveEngine {
    /// Finish the resolution started with `record`: first ask which
    /// conflicts remain.
    pub fn finish(&self, record: &OperationRecord, context: ConflictContext) -> (r: (
        Finishing,
        Step<Result<FinishOutcome, ResolveError>>,
    ))
        ensures
            r.0.view() == (FinishView {
                dir: self.repo.workdir@,
                git_dir: self.repo.git_dir@,
                journal: self.journal.path@,
                record: record@,
                context,
            }),
            r.0.stage@ == FinishStageView::Check,
            finish_step_is(r.1, FinishNext::Ask(RequestView::Git(conflicted_view(self.repo.workdir@)))),
    {
        let c = conflicted_command(&self.repo);
        (
            Finishing { engine: self.copy(), record: record.duplicate(), context, stage: FinishStage::Check },
            Step::Ask(Request::Git(c)),
        )
    }
}

/// Finishing never runs while a conflict remains: the operation is
/// continued only right after Git listed no conflicted path, and a
/// non-empty list is reported as blocked, exactly.
pub proof fn finish_is_blocked_while_conflicts_remain(x: FinishView, s: FinishStageView, r: ReplyView)
    ensures
        finish_next(x, s, r).0 is Run ==> s is Check && (conflicted_outcome(x.dir, r) matches Ok(
            files,
        ) && files.len() == 0),
        s is Check ==> (conflicted_outcome(x.dir, r) matches Ok(files) ==> (files.len() > 0
            ==> finish_next(x, s, r).1 == FinishNext::Done(
            Ok(FinishOutcomeView::Blocked { files }),
        ))),
{
}

/// A resolution is journaled only once its restore point is pinned: the
/// journal is written only right after Git has moved the restore ref to the
/// pre-operation HEAD, and the record written names that ref and that HEAD.
/// Starting succeeds only after the journal took the record.
pub proof fn resolution_is_pinned_before_it_is_journaled(x: StartView, s: StartStageView, r: ReplyView)
    ensures
        start_next(x, s, r).1 matches StartNext::Ask(RequestView::Append(path, rec)) ==> {
            &&& s matches StartStageView::Pin(h)
            &&& output_outcome(update_ref_view(x.dir, start_ref(x), h), r) is Ok
            &&& path == x.journal
            &&& rec.before_head == h
            &&& rec.restore_ref == Some(start_ref(x))
        },
        start_next(x, s, r).1 matches StartNext::Done(Ok(_)) ==> s is Journal && r is Appended,
{
}

/// Only a rebase reports more conflicts after continuing: a merge commit
/// that Git refused (a rejecting hook, say) is reported as a failure with
/// Git's message, whether or not `MERGE_HEAD` is still there, and nothing is
/// journaled.
pub proof fn failed_merge_commit_is_reported_as_failure(x: FinishView, o: OutputView, r: ReplyView)
    requires
        !(x.context is Rebase),
        !o.success,
    ensures
        finish_next(x, FinishStageView::MergeHead(o), r) == (
            FinishStageView::Finished,
            FinishNext::Done(
                Err(ResolveErrorView::FinishFailed { verb: context_verb(x.context), stderr: o.stderr }),
            ),
        ),
{
}

/// Inspection only asks (the conflicted paths, then whether each of
/// `rebase-merge`, `rebase-apply` and `MERGE_HEAD` exists) and changes
/// nothing. It reports `Clean` exactly when nothing is conflicted and no
/// rebase or merge is in progress; otherwise the operation in progress (a
/// rebase wins over a merge) and the conflicted paths.
pub proof fn inspection_is_clean_exactly_when_nothing_is_in_progress(
    dir: Seq<char>,
    git_dir: Seq<char>,
    r1: ReplyView,
    r2: ReplyView,
    r3: ReplyView,
    r4: ReplyView,
)
    requires
        conflicted_outcome(dir, r1) is Ok,
    ensures
        ({
            let files = conflicted_outcome(dir, r1)->Ok_0;
            let (s1, n1) = inspect_next(dir, git_dir, InspectStageView::Conflicts, r1);
            let (s2, n2) = inspect_next(dir, git_dir, s1, r2);
            let (s3, n3) = inspect_next(dir, git_dir, s2, r3);
            let (s4, n4) = inspect_next(dir, git_dir, s3, r4);
            let rebase = present(r2) || present(r3);
            let merge = present(r4);
            &&& n1 == InspectNext::Ask(RequestView::Exists(rebase_merge_path(git_dir)))
            &&& n2 == InspectNext::Ask(RequestView::Exists(rebase_apply_path(git_dir)))
            &&& n3 == InspectNext::Ask(RequestView::Exists(merge_head_path(git_dir)))
            &&& s4 is Finished
            &&& (n4 == InspectNext::Done(Ok(ResolveStateView::Clean)) <==> (files.len() == 0
                && !rebase && !merge))
            &&& (files.len() > 0 || rebase || merge) ==> n4 == InspectNext::Done(
                Ok(ResolveStateView::InProgress { context: context_of(rebase, merge), files }),
            )
        }),
{
}

} // verus!
