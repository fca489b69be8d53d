//! `smoothee recover` — explicitly restore the state before an earlier
//! Smoothee operation.
//!
//! Recovery is itself reversible: before moving the branch it pins the
//! current HEAD as a new restore point and journals a `recover` operation, so
//! `smoothee undo` can return to the state it left.
use vstd::prelude::*;

use crate::exchange::{
    git_error_text,
    append_reply, git_reply, output_of, output_outcome, succeeds_of, succeeds_outcome,
    GitErrorView, Reply, ReplyView, Request, RequestView, Step,
};
use crate::git::command::{GitCommand, GitCommandView, GitError};
use crate::git::repository::Repository;
use crate::git::restore::{
    operation_stamp, ref_exists_view, restore_ref_name, stamp_now, stamp_shaped, update_ref_view,
    RestorePoint,
};
use crate::git::state::{
    branch_command, branch_outcome, branch_view, current_branch_of, head_command, head_view,
    merge_head_path, merge_marker, rebase_apply_marker, rebase_apply_path, rebase_merge_marker,
    rebase_merge_path, reset_command, reset_view,
};
use crate::operations::journal::{
    fold_operations, operations, record_views, utc_now, BeforeState, Journal, JournalError,
    OperationRecord, OperationStatus, RecordView, Timestamp,
};
use crate::text::{chars_of, has_prefix, opt_view, owned, push_str, same_text, starts_with};

verus! {

/// The journaled operations whose id starts with `prefix`, in order.
pub open spec fn matching(ops: Seq<RecordView>, prefix: Seq<char>) -> Seq<RecordView>
    decreases ops.len(),
{
    if ops.len() == 0 {
        seq![]
    } else if has_prefix(ops.last().id, prefix) {
        matching(ops.drop_last(), prefix).push(ops.last())
    } else {
        matching(ops.drop_last(), prefix)
    }
}

/// Why recovery was refused or failed.
#[derive(Debug)]
pub enum RecoveryError {
    Git(GitError),
    Journal(JournalError),
    /// No operation id starts with the given text.
    NotFound(String),
    /// More than one operation id starts with the given text.
    Ambiguous(String),
    /// The operation (by id) made no restore point.
    NoRestorePoint(String),
    /// The operation's (by id) restore point is gone.
    MissingRestorePoint(String),
    /// Recovery must run on the operation's branch.
    WrongBranch { expected: String, actual: String },
    /// The working tree has changes.
    DirtyWorkingTree,
    /// A merge or rebase is in progress.
    GitOperationInProgress,
}

pub enum RecoveryErrorView {
    Git(GitErrorView),
    Journal(Seq<char>),
    NotFound(Seq<char>),
    Ambiguous(Seq<char>),
    NoRestorePoint(Seq<char>),
    MissingRestorePoint(Seq<char>),
    WrongBranch { expected: Seq<char>, actual: Seq<char> },
    DirtyWorkingTree,
    GitOperationInProgress,
}

impl View for RecoveryError {
    type V = RecoveryErrorView;

    open spec fn view(&self) -> RecoveryErrorView {
        match self {
            RecoveryError::Git(e) => RecoveryErrorView::Git(e@),
            RecoveryError::Journal(e) => RecoveryErrorView::Journal(e.message@),
            RecoveryError::NotFound(s) => RecoveryErrorView::NotFound(s@),
            RecoveryError::Ambiguous(s) => RecoveryErrorView::Ambiguous(s@),
            RecoveryError::NoRestorePoint(s) => RecoveryErrorView::NoRestorePoint(s@),
            RecoveryError::MissingRestorePoint(s) => RecoveryErrorView::MissingRestorePoint(s@),
            RecoveryError::WrongBranch { expected, actual } => RecoveryErrorView::WrongBranch {
                expected: expected@,
                actual: actual@,
            },
            RecoveryError::DirtyWorkingTree => RecoveryErrorView::DirtyWorkingTree,
            RecoveryError::GitOperationInProgress => RecoveryErrorView::GitOperationInProgress,
        }
    }
}

/// How a recovery error reads.
pub open spec fn recovery_error_text(e: RecoveryErrorView) -> Seq<char> {
    match e {
        RecoveryErrorView::Git(g) => git_error_text(g),
        RecoveryErrorView::Journal(m) => m,
        RecoveryErrorView::NotFound(p) => "no Smoothee operation matches '"@ + p + "'"@,
        RecoveryErrorView::Ambiguous(p) => "'"@ + p
            + "' matches more than one operation; use a longer id from `smoothee history`"@,
        RecoveryErrorView::NoRestorePoint(id) => "operation "@ + id + " has no restore point"@,
        RecoveryErrorView::MissingRestorePoint(id) => "the restore point for operation "@ + id
            + " no longer exists"@,
        RecoveryErrorView::WrongBranch { expected, actual } =>
            "recovery only works on the operation's branch ("@ + expected + "); current branch is "@
            + actual,
        RecoveryErrorView::DirtyWorkingTree => "recovery requires a clean working tree; commit or stash your changes first"@,
        RecoveryErrorView::GitOperationInProgress => "a merge or rebase is in progress; finish it or use `smoothee undo` first"@,
    }
}

fn wrapped(before: &str, middle: &str, after: &str) -> (r: String)
    ensures
        r@ == before@ + middle@ + after@,
{
    let mut s = owned(before);
    push_str(&mut s, middle);
    push_str(&mut s, after);
    s
}

impl RecoveryError {
    /// The message shown for the error.
    pub fn message(&self) -> (r: String)
        ensures
            r@ == recovery_error_text(self@),
    {
        match self {
            RecoveryError::Git(g) => g.message(),
            RecoveryError::Journal(j) => j.message.clone(),
            RecoveryError::NotFound(p) => wrapped("no Smoothee operation matches '", p.as_str(), "'"),
            RecoveryError::Ambiguous(p) => wrapped(
                "'",
                p.as_str(),
                "' matches more than one operation; use a longer id from `smoothee history`",
            ),
            RecoveryError::NoRestorePoint(id) => wrapped("operation ", id.as_str(), " has no restore point"),
            RecoveryError::MissingRestorePoint(id) => wrapped(
                "the restore point for operation ",
                id.as_str(),
                " no longer exists",
            ),
            RecoveryError::WrongBranch { expected, actual } => {
                let mut s = wrapped(
                    "recovery only works on the operation's branch (",
                    expected.as_str(),
                    "); current branch is ",
                );
                push_str(&mut s, actual.as_str());
                s
            },
            RecoveryError::DirtyWorkingTree => owned(
                "recovery requires a clean working tree; commit or stash your changes first",
            ),
            RecoveryError::GitOperationInProgress => owned(
                "a merge or rebase is in progress; finish it or use `smoothee undo` first",
            ),
        }
    }
}

/// The operation `prefix` selects: the one operation whose id starts with
/// it; none is `NotFound`, several are `Ambiguous`.
pub open spec fn selected(ops: Seq<RecordView>, prefix: Seq<char>) -> Result<RecordView, RecoveryErrorView> {
    let m = matching(ops, prefix);
    if m.len() == 0 {
        Err(RecoveryErrorView::NotFound(prefix))
    } else if m.len() == 1 {
        Ok(m[0])
    } else {
        Err(RecoveryErrorView::Ambiguous(prefix))
    }
}

/// Whether the operation at `i` has an id starting with `prefix`.
pub open spec fn id_starts(ops: Seq<RecordView>, i: int, prefix: Seq<char>) -> bool {
    0 <= i < ops.len() && has_prefix(ops[i].id, prefix)
}

proof fn lemma_matching(ops: Seq<RecordView>, prefix: Seq<char>)
    ensures
        forall|k: int|
            0 <= k < matching(ops, prefix).len() ==> exists|i: int|
                id_starts(ops, i, prefix) && ops[i] == #[trigger] matching(ops, prefix)[k],
        (exists|i: int| id_starts(ops, i, prefix)) ==> matching(ops, prefix).len() >= 1,
        (exists|i: int, j: int| i < j && id_starts(ops, i, prefix) && id_starts(ops, j, prefix))
            <==> matching(ops, prefix).len() >= 2,
    decreases ops.len(),
{
    if ops.len() > 0 {
        let init = ops.drop_last();
        let last = ops.len() - 1;
        lemma_matching(init, prefix);
        let m = matching(ops, prefix);
        let mi = matching(init, prefix);
        assert(ops[last] == ops.last());
        assert forall|i: int| 0 <= i < init.len() implies (id_starts(init, i, prefix) == id_starts(
            ops,
            i,
            prefix,
        )) && init[i] == ops[i] by {}
        if has_prefix(ops.last().id, prefix) {
            assert(m == mi.push(ops.last()));
            assert(id_starts(ops, last, prefix));
        } else {
            assert(m == mi);
        }
        assert forall|k: int| 0 <= k < m.len() implies exists|i: int|
            id_starts(ops, i, prefix) && ops[i] == #[trigger] m[k] by {
            if k < mi.len() {
                assert(m[k] == mi[k]);
                let i = choose|i: int| id_starts(init, i, prefix) && init[i] == mi[k];
                assert(id_starts(ops, i, prefix));
            } else {
                assert(id_starts(ops, last, prefix) && ops[last] == m[k]);
            }
        }
        if exists|i: int| id_starts(ops, i, prefix) {
            let i = choose|i: int| id_starts(ops, i, prefix);
            if i < last {
                assert(id_starts(init, i, prefix));
            }
        }
        if exists|i: int, j: int| i < j && id_starts(ops, i, prefix) && id_starts(ops, j, prefix) {
            let (i, j) = choose|i: int, j: int|
                i < j && id_starts(ops, i, prefix) && id_starts(ops, j, prefix);
            assert(id_starts(init, i, prefix));
            if j < last {
                assert(id_starts(init, j, prefix));
            }
        }
        if m.len() >= 2 {
            if has_prefix(ops.last().id, prefix) {
                assert(mi.len() >= 1);
                let i = choose|i: int| id_starts(init, i, prefix) && init[i] == #[trigger] mi[0];
                assert(i < last && id_starts(ops, i, prefix) && id_starts(ops, last, prefix));
            } else {
                let (i, j) = choose|i: int, j: int|
                    i < j && id_starts(init, i, prefix) && id_starts(init, j, prefix);
                assert(id_starts(ops, i, prefix) && id_starts(ops, j, prefix));
            }
        }
    }
}

/// Selecting by prefix: the operation found is one whose id starts with the
/// prefix, and the only one; `NotFound` exactly when no id starts with it;
/// `Ambiguous` exactly when two or more do.
pub proof fn prefix_selects_the_only_match(ops: Seq<RecordView>, prefix: Seq<char>)
    ensures
        selected(ops, prefix) is Ok ==> (exists|i: int|
            id_starts(ops, i, prefix) && ops[i] == selected(ops, prefix)->Ok_0) && !(exists|i: int, j: int|
            i < j && id_starts(ops, i, prefix) && id_starts(ops, j, prefix)),
        selected(ops, prefix) == Err::<RecordView, RecoveryErrorView>(RecoveryErrorView::NotFound(prefix))
            <==> !(exists|i: int| id_starts(ops, i, prefix)),
        selected(ops, prefix) == Err::<RecordView, RecoveryErrorView>(RecoveryErrorView::Ambiguous(prefix))
            <==> (exists|i: int, j: int| i < j && id_starts(ops, i, prefix) && id_starts(ops, j, prefix)),
{
    lemma_matching(ops, prefix);
    let m = matching(ops, prefix);
    if m.len() == 0 {
        if exists|i: int| id_starts(ops, i, prefix) {
            assert(m.len() >= 1);
        }
    }
    if m.len() >= 1 {
        let i = choose|i: int| id_starts(ops, i, prefix) && ops[i] == #[trigger] m[0];
        assert(exists|i: int| id_starts(ops, i, prefix));
    }
}

pub open spec fn record_result_view(r: Result<OperationRecord, RecoveryError>) -> Result<RecordView, RecoveryErrorView> {
    match r {
        Ok(o) => Ok(o@),
        Err(e) => Err(e@),
    }
}

/// Select the operation whose id starts with `prefix`.
pub fn select_operation(ops: &Vec<OperationRecord>, prefix: &str) -> (r: Result<OperationRecord, RecoveryError>)
    ensures
        record_result_view(r) == selected(record_views(ops@), prefix@),
{
    let p = chars_of(prefix);
    let ghost views = record_views(ops@);
    let mut count: usize = 0;
    let mut first: usize = 0;
    let mut i: usize = 0;
    while i < ops.len()
        invariant
            views == record_views(ops@),
            p@ == prefix@,
            i <= ops@.len(),
            count == matching(views.take(i as int), prefix@).len(),
            count > 0 ==> first < i && matching(views.take(i as int), prefix@)[0] == views[first as int],
            count <= i,
        decreases ops@.len() - i,
    {
        let ghost pre = views.take(i as int);
        assert(views.take(i + 1).drop_last() =~= pre);
        assert(views.take(i + 1).last() == ops@[i as int]@);
        let id = chars_of(ops[i].id.as_str());
        if starts_with(id.as_slice(), p.as_slice()) {
            if count == 0 {
                first = i;
            }
            count = count + 1;
        }
        i += 1;
    }
    assert(views.take(ops@.len() as int) =~= views);
    if count == 0 {
        Err(RecoveryError::NotFound(owned(prefix)))
    } else if count == 1 {
        Ok(ops[first].duplicate())
    } else {
        Err(RecoveryError::Ambiguous(owned(prefix)))
    }
}

// ---------------------------------------------------------------------------
// Planning
// ---------------------------------------------------------------------------

/// A recovery approved for execution.
#[derive(Debug)]
pub struct RecoveryPlan {
    /// The operation whose starting state is restored.
    pub target: OperationRecord,
    /// HEAD now, before the recovery.
    pub current_head: String,
    /// The restore point that is reset to.
    pub restore_ref: String,
}

pub struct RecoveryPlanView {
    pub target: RecordView,
    pub current_head: Seq<char>,
    pub restore_ref: Seq<char>,
}

impl View for RecoveryPlan {
    type V = RecoveryPlanView;

    open spec fn view(&self) -> RecoveryPlanView {
        RecoveryPlanView {
            target: self.target@,
            current_head: self.current_head@,
            restore_ref: self.restore_ref@,
        }
    }
}

/// `git status --porcelain`: prints nothing exactly when the tree is clean.
pub open spec fn porcelain_view(dir: Seq<char>) -> GitCommandView {
    GitCommandView { args: seq!["status"@, "--porcelain"@], cwd: Some(dir), env: seq![] }
}

fn porcelain_command(repo: &Repository) -> (c: GitCommand)
    ensures
        c@ == porcelain_view(repo.workdir@),
{
    let c = repo.git("status").arg("--porcelain");
    assert(c@.args =~= porcelain_view(repo.workdir@).args);
    c
}

/// Where planning a recovery stands.
#[derive(Debug)]
pub enum RecoverStage {
    MergeHead,
    RebaseMerge,
    RebaseApply,
    Status,
    Journal,
    /// Whether the target's restore point still exists.
    RefExists(OperationRecord, String),
    /// The current branch.
    Branch(OperationRecord, String),
    /// The current HEAD.
    Head(OperationRecord, String),
    Finished,
}

pub enum RecoverStageView {
    MergeHead,
    RebaseMerge,
    RebaseApply,
    Status,
    Journal,
    RefExists(RecordView, Seq<char>),
    Branch(RecordView, Seq<char>),
    Head(RecordView, Seq<char>),
    Finished,
}

impl View for RecoverStage {
    type V = RecoverStageView;

    open spec fn view(&self) -> RecoverStageView {
        match self {
            RecoverStage::MergeHead => RecoverStageView::MergeHead,
            RecoverStage::RebaseMerge => RecoverStageView::RebaseMerge,
            RecoverStage::RebaseApply => RecoverStageView::RebaseApply,
            RecoverStage::Status => RecoverStageView::Status,
            RecoverStage::Journal => RecoverStageView::Journal,
            RecoverStage::RefExists(t, r) => RecoverStageView::RefExists(t@, r@),
            RecoverStage::Branch(t, r) => RecoverStageView::Branch(t@, r@),
            RecoverStage::Head(t, r) => RecoverStageView::Head(t@, r@),
            RecoverStage::Finished => RecoverStageView::Finished,
        }
    }
}

/// What planning is fixed by: the repository, the journal and the operation
/// id (or prefix) asked for.
pub struct RecoverView {
    pub dir: Seq<char>,
    pub git_dir: Seq<char>,
    pub journal: Seq<char>,
    pub operation: Seq<char>,
}

pub enum RecoverNext {
    Ask(RequestView),
    Done(Result<RecoveryPlanView, RecoveryErrorView>),
}

pub open spec fn present(reply: ReplyView) -> bool {
    match reply {
        ReplyView::Exists(b) => b,
        _ => false,
    }
}

/// One step of planning a recovery. It refuses while a merge or rebase is
/// in progress or the working tree has changes; selects the operation by
/// id prefix from the folded journal (see [`selected`]); refuses when that
/// operation made no restore point or it is gone, or when the current branch
/// (`detached HEAD` when there is none) is not the operation's branch; and
/// plans to reset to the restore point from the current HEAD.
pub open spec fn recover_next(x: RecoverView, stage: RecoverStageView, reply: ReplyView) -> (RecoverStageView, RecoverNext) {
    let fail = |g: GitErrorView| (RecoverStageView::Finished, RecoverNext::Done(Err(RecoveryErrorView::Git(g))));
    let refuse = |e: RecoveryErrorView| (RecoverStageView::Finished, RecoverNext::Done(Err(e)));
    match stage {
        RecoverStageView::MergeHead => if present(reply) {
            refuse(RecoveryErrorView::GitOperationInProgress)
        } else {
            (RecoverStageView::RebaseMerge, RecoverNext::Ask(RequestView::Exists(rebase_merge_path(x.git_dir))))
        },
        RecoverStageView::RebaseMerge => if present(reply) {
            refuse(RecoveryErrorView::GitOperationInProgress)
        } else {
            (RecoverStageView::RebaseApply, RecoverNext::Ask(RequestView::Exists(rebase_apply_path(x.git_dir))))
        },
        RecoverStageView::RebaseApply => if present(reply) {
            refuse(RecoveryErrorView::GitOperationInProgress)
        } else {
            (RecoverStageView::Status, RecoverNext::Ask(RequestView::Git(porcelain_view(x.dir))))
        },
        RecoverStageView::Status => match output_outcome(porcelain_view(x.dir), reply) {
            Err(g) => fail(g),
            Ok(out) => if out.len() > 0 {
                refuse(RecoveryErrorView::DirtyWorkingTree)
            } else {
                (RecoverStageView::Journal, RecoverNext::Ask(RequestView::ReadJournal(x.journal)))
            },
        },
        RecoverStageView::Journal => match reply {
            ReplyView::Records(rs) => match selected(fold_operations(rs), x.operation) {
                Err(e) => refuse(e),
                Ok(t) => match t.restore_ref {
                    None => refuse(RecoveryErrorView::NoRestorePoint(t.id)),
                    Some(rr) => (
                        RecoverStageView::RefExists(t, rr),
                        RecoverNext::Ask(RequestView::Git(ref_exists_view(x.dir, rr))),
                    ),
                },
            },
            ReplyView::JournalFailed(m) => refuse(RecoveryErrorView::Journal(m)),
            _ => refuse(RecoveryErrorView::Journal(seq![])),
        },
        RecoverStageView::RefExists(t, rr) => match succeeds_outcome(ref_exists_view(x.dir, rr), reply) {
            Err(g) => fail(g),
            Ok(false) => refuse(RecoveryErrorView::MissingRestorePoint(t.id)),
            Ok(true) => (RecoverStageView::Branch(t, rr), RecoverNext::Ask(RequestView::Git(branch_view(x.dir)))),
        },
        RecoverStageView::Branch(t, rr) => match branch_outcome(x.dir, reply) {
            Err(g) => fail(g),
            Ok(b) => {
                let current = match b {
                    Some(n) => n,
                    None => "detached HEAD"@,
                };
                if current != t.branch {
                    refuse(RecoveryErrorView::WrongBranch { expected: t.branch, actual: current })
                } else {
                    (RecoverStageView::Head(t, rr), RecoverNext::Ask(RequestView::Git(head_view(x.dir))))
                }
            },
        },
        RecoverStageView::Head(t, rr) => match output_outcome(head_view(x.dir), reply) {
            Err(g) => fail(g),
            Ok(h) => (
                RecoverStageView::Finished,
                RecoverNext::Done(Ok(RecoveryPlanView { target: t, current_head: h, restore_ref: rr })),
            ),
        },
        RecoverStageView::Finished => refuse(RecoveryErrorView::DirtyWorkingTree),
    }
}

pub open spec fn recover_expects(stage: RecoverStageView, reply: ReplyView) -> bool {
    match stage {
        RecoverStageView::MergeHead | RecoverStageView::RebaseMerge | RecoverStageView::RebaseApply => reply is Exists,
        RecoverStageView::Journal => reply is Records || reply is JournalFailed,
        RecoverStageView::Finished => false,
        _ => git_reply(reply),
    }
}

pub open spec fn plan_result_view(r: Result<RecoveryPlan, RecoveryError>) -> Result<RecoveryPlanView, RecoveryErrorView> {
    match r {
        Ok(p) => Ok(p@),
        Err(e) => Err(e@),
    }
}

pub open spec fn recover_step_is(step: Step<Result<RecoveryPlan, RecoveryError>>, next: RecoverNext) -> bool {
    match next {
        RecoverNext::Ask(q) => step matches Step::Ask(x) && x@ == q,
        RecoverNext::Done(res) => step matches Step::Done(x) && plan_result_view(x) == res,
    }
}

/// Planning a recovery, one request at a time.
#[derive(Debug)]
pub struct RecoveryPlanning {
    pub repo: Repository,
    pub journal: Journal,
    pub operation: String,
    pub stage: RecoverStage,
}

impl RecoveryPlanning {
    pub open spec fn view(&self) -> RecoverView {
        RecoverView {
            dir: self.repo.workdir@,
            git_dir: self.repo.git_dir@,
            journal: self.journal.path@,
            operation: self.operation@,
        }
    }

    /// Go on with the reply to the last request.
    #[verifier::rlimit(60)]
    pub fn resume(&mut self, reply: Reply) -> (r: Step<Result<RecoveryPlan, RecoveryError>>)
        requires
            recover_expects(old(self).stage@, reply@),
        ensures
            final(self).view() == old(self).view(),
            final(self).stage@ == recover_next(old(self).view(), old(self).stage@, reply@).0,
            recover_step_is(r, recover_next(old(self).view(), old(self).stage@, reply@).1),
    {
        let mut stage = RecoverStage::Finished;
        std::mem::swap(&mut stage, &mut self.stage);
        match stage {
            RecoverStage::MergeHead => if let Reply::Exists(true) = reply {
                Step::Done(Err(RecoveryError::GitOperationInProgress))
            } else {
                self.stage = RecoverStage::RebaseMerge;
                Step::Ask(Request::Exists(rebase_merge_marker(&self.repo)))
            },
            RecoverStage::RebaseMerge => if let Reply::Exists(true) = reply {
                Step::Done(Err(RecoveryError::GitOperationInProgress))
            } else {
                self.stage = RecoverStage::RebaseApply;
                Step::Ask(Request::Exists(rebase_apply_marker(&self.repo)))
            },
            RecoverStage::RebaseApply => if let Reply::Exists(true) = reply {
                Step::Done(Err(RecoveryError::GitOperationInProgress))
            } else {
                self.stage = RecoverStage::Status;
                Step::Ask(Request::Git(porcelain_command(&self.repo)))
            },
            RecoverStage::Status => {
                let asked = porcelain_command(&self.repo);
                match output_of(&asked, reply) {
                    Err(g) => Step::Done(Err(RecoveryError::Git(g))),
                    Ok(out) => {
                        let chars = chars_of(out.as_str());
                        if chars.len() > 0 {
                            Step::Done(Err(RecoveryError::DirtyWorkingTree))
                        } else {
                            self.stage = RecoverStage::Journal;
                            Step::Ask(Request::ReadJournal(self.journal.path.clone()))
                        }
                    },
                }
            },
            RecoverStage::Journal => match reply {
                Reply::Records(rs) => {
                    let ops = operations(rs);
                    match select_operation(&ops, self.operation.as_str()) {
                        Err(e) => Step::Done(Err(e)),
                        Ok(t) => match &t.before.restore_ref {
                            None => Step::Done(Err(RecoveryError::NoRestorePoint(t.id.clone()))),
                            Some(rr) => {
                                let rr = rr.clone();
                                let c = RestorePoint::ref_exists(&self.repo, rr.as_str());
                                self.stage = RecoverStage::RefExists(t, rr);
                                Step::Ask(Request::Git(c))
                            },
                        },
                    }
                },
                Reply::JournalFailed(m) => Step::Done(Err(RecoveryError::Journal(JournalError { message: m }))),
                _ => Step::Done(Err(RecoveryError::Journal(JournalError { message: String::new() }))),
            },
            RecoverStage::RefExists(t, rr) => {
                let asked = RestorePoint::ref_exists(&self.repo, rr.as_str());
                match succeeds_of(&asked, reply) {
                    Err(g) => Step::Done(Err(RecoveryError::Git(g))),
                    Ok(false) => Step::Done(Err(RecoveryError::MissingRestorePoint(t.id.clone()))),
                    Ok(true) => {
                        self.stage = RecoverStage::Branch(t, rr);
                        Step::Ask(Request::Git(branch_command(&self.repo)))
                    },
                }
            },
            RecoverStage::Branch(t, rr) => match current_branch_of(&self.repo, reply) {
                Err(g) => Step::Done(Err(RecoveryError::Git(g))),
                Ok(b) => {
                    let current = match b {
                        Some(n) => n,
                        None => owned("detached HEAD"),
                    };
                    if !same_text(current.as_str(), t.branch.as_str()) {
                        Step::Done(
                            Err(RecoveryError::WrongBranch { expected: t.branch.clone(), actual: current }),
                        )
                    } else {
                        self.stage = RecoverStage::Head(t, rr);
                        Step::Ask(Request::Git(head_command(&self.repo)))
                    }
                },
            },
            RecoverStage::Head(t, rr) => {
                let asked = head_command(&self.repo);
                match output_of(&asked, reply) {
                    Err(g) => Step::Done(Err(RecoveryError::Git(g))),
                    Ok(h) => Step::Done(Ok(RecoveryPlan { target: t, current_head: h, restore_ref: rr })),
                }
            },
            RecoverStage::Finished => Step::Done(Err(RecoveryError::DirtyWorkingTree)),
        }
    }
}

/// Plan a recovery to the state before operation `operation_id` (or the one
/// operation whose id starts with it): start by asking whether a merge is in
/// progress.
pub fn plan(repo: &Repository, journal: &Journal, operation_id: &str) -> (r: (
    RecoveryPlanning,
    Step<Result<RecoveryPlan, RecoveryError>>,
))
    ensures
        r.0.view() == (RecoverView {
            dir: repo.workdir@,
            git_dir: repo.git_dir@,
            journal: journal.path@,
            operation: operation_id@,
        }),
        r.0.stage@ == RecoverStageView::MergeHead,
        recover_step_is(r.1, RecoverNext::Ask(RequestView::Exists(merge_head_path(repo.git_dir@)))),
{
    let m = merge_marker(repo);
    (
        RecoveryPlanning {
            repo: Repository::new(repo.workdir(), repo.git_dir()),
            journal: Journal { path: journal.path.clone() },
            operation: owned(operation_id),
            stage: RecoverStage::MergeHead,
        },
        Step::Ask(Request::Exists(m)),
    )
}

// ---------------------------------------------------------------------------
// Performing
// ---------------------------------------------------------------------------

/// What a recovery did.
#[derive(Debug, Clone)]
pub struct RecoveryReport {
    /// The operation whose starting state was restored.
    pub target_id: String,
    /// HEAD before the recovery.
    pub from: String,
    /// HEAD after it.
    pub to: String,
    /// The restore point pinning the state the recovery left.
    pub safety_restore_ref: String,
}

pub struct RecoveryReportView {
    pub target_id: Seq<char>,
    pub from: Seq<char>,
    pub to: Seq<char>,
    pub safety_restore_ref: Seq<char>,
}

impl View for RecoveryReport {
    type V = RecoveryReportView;

    open spec fn view(&self) -> RecoveryReportView {
        RecoveryReportView {
            target_id: self.target_id@,
            from: self.from@,
            to: self.to@,
            safety_restore_ref: self.safety_restore_ref@,
        }
    }
}

/// Where performing a recovery stands.
#[derive(Debug)]
pub enum PerformStage {
    /// The safety restore point of the current HEAD.
    Pin,
    /// Journaling the started `recover` operation.
    Journal,
    /// Resetting to the restore point.
    Reset,
    /// Journaling the failure; the reset's error.
    Fail(GitError),
    /// The HEAD after the reset.
    After,
    /// Journaling the completion; the new HEAD.
    Complete(String),
    Finished,
}

pub enum PerformStageView {
    Pin,
    Journal,
    Reset,
    Fail(GitErrorView),
    After,
    Complete(Seq<char>),
    Finished,
}

impl View for PerformStage {
    type V = PerformStageView;

    open spec fn view(&self) -> PerformStageView {
        match self {
            PerformStage::Pin => PerformStageView::Pin,
            PerformStage::Journal => PerformStageView::Journal,
            PerformStage::Reset => PerformStageView::Reset,
            PerformStage::Fail(e) => PerformStageView::Fail(e@),
            PerformStage::After => PerformStageView::After,
            PerformStage::Complete(h) => PerformStageView::Complete(h@),
            PerformStage::Finished => PerformStageView::Finished,
        }
    }
}

/// What performing is fixed by: the repository, the journal, the plan, the
/// id of the `recover` record, the local time naming the safety restore
/// point, and the time the record is stamped with.
pub struct PerformView {
    pub dir: Seq<char>,
    pub journal: Seq<char>,
    pub plan: RecoveryPlanView,
    pub id: Seq<char>,
    pub stamp: Seq<char>,
    pub started_at: Timestamp,
}

/// The safety restore point's ref.
pub open spec fn safety_ref(x: PerformView) -> Seq<char> {
    restore_ref_name(x.plan.target.branch, x.stamp)
}

/// The `recover` record journaled before the reset: it starts from the
/// current HEAD and names the safety restore point, so `undo` can reverse it.
pub open spec fn recover_record(x: PerformView) -> RecordView {
    RecordView {
        id: x.id,
        kind: "recover"@,
        repository: x.dir,
        branch: x.plan.target.branch,
        started_at: x.started_at,
        before_head: x.plan.current_head,
        restore_ref: Some(safety_ref(x)),
        after_head: None,
        status: OperationStatus::Started,
        undoes: None,
    }
}

pub enum PerformNext {
    Ask(RequestView),
    Done(Result<RecoveryReportView, RecoveryErrorView>),
}

/// One step of performing a recovery: pin the current HEAD as a safety
/// restore point, journal the started `recover`, reset to the target's
/// restore point, then journal the outcome — a failed reset is journaled as
/// failed before its error is reported.
pub open spec fn perform_next(x: PerformView, stage: PerformStageView, reply: ReplyView) -> (PerformStageView, PerformNext) {
    let fail = |g: GitErrorView| (PerformStageView::Finished, PerformNext::Done(Err(RecoveryErrorView::Git(g))));
    let journal_failed = (
        PerformStageView::Finished,
        PerformNext::Done(
            Err(
                RecoveryErrorView::Journal(
                    match reply {
                        ReplyView::JournalFailed(m) => m,
                        _ => seq![],
                    },
                ),
            ),
        ),
    );
    let pin = update_ref_view(x.dir, safety_ref(x), x.plan.current_head);
    let reset = reset_view(x.dir, x.plan.restore_ref);
    match stage {
        PerformStageView::Pin => match output_outcome(pin, reply) {
            Err(g) => fail(g),
            Ok(_) => (PerformStageView::Journal, PerformNext::Ask(RequestView::Append(x.journal, recover_record(x)))),
        },
        PerformStageView::Journal => if reply is Appended {
            (PerformStageView::Reset, PerformNext::Ask(RequestView::Git(reset)))
        } else {
            journal_failed
        },
        PerformStageView::Reset => match output_outcome(reset, reply) {
            Err(g) => (
                PerformStageView::Fail(g),
                PerformNext::Ask(
                    RequestView::Append(
                        x.journal,
                        RecordView { status: OperationStatus::Failed, ..recover_record(x) },
                    ),
                ),
            ),
            Ok(_) => (PerformStageView::After, PerformNext::Ask(RequestView::Git(head_view(x.dir)))),
        },
        PerformStageView::Fail(g) => if reply is Appended {
            fail(g)
        } else {
            journal_failed
        },
        PerformStageView::After => match output_outcome(head_view(x.dir), reply) {
            Err(g) => fail(g),
            Ok(to) => (
                PerformStageView::Complete(to),
                PerformNext::Ask(
                    RequestView::Append(
                        x.journal,
                        RecordView {
                            after_head: Some(to),
                            status: OperationStatus::Completed,
                            ..recover_record(x)
                        },
                    ),
                ),
            ),
        },
        PerformStageView::Complete(to) => if reply is Appended {
            (
                PerformStageView::Finished,
                PerformNext::Done(
                    Ok(
                        RecoveryReportView {
                            target_id: x.plan.target.id,
                            from: x.plan.current_head,
                            to,
                            safety_restore_ref: safety_ref(x),
                        },
                    ),
                ),
            )
        } else {
            journal_failed
        },
        PerformStageView::Finished => (PerformStageView::Finished, PerformNext::Done(Err(RecoveryErrorView::Journal(seq![])))),
    }
}

pub open spec fn perform_expects(stage: PerformStageView, reply: ReplyView) -> bool {
    match stage {
        PerformStageView::Journal | PerformStageView::Fail(_) | PerformStageView::Complete(_) => append_reply(reply),
        PerformStageView::Finished => false,
        _ => git_reply(reply),
    }
}

pub open spec fn report_result_view(r: Result<RecoveryReport, RecoveryError>) -> Result<RecoveryReportView, RecoveryErrorView> {
    match r {
        Ok(p) => Ok(p@),
        Err(e) => Err(e@),
    }
}

pub open spec fn perform_step_is(step: Step<Result<RecoveryReport, RecoveryError>>, next: PerformNext) -> bool {
    match next {
        PerformNext::Ask(q) => step matches Step::Ask(x) && x@ == q,
        PerformNext::Done(res) => step matches Step::Done(x) && report_result_view(x) == res,
    }
}

/// Performing a recovery, one request at a time.
#[derive(Debug)]
pub struct RecoveryRun {
    pub repo: Repository,
    pub journal: Journal,
    pub plan: RecoveryPlan,
    pub id: String,
    pub stamp: String,
    pub started_at: Timestamp,
    pub stage: PerformStage,
}

impl RecoveryRun {
    pub open spec fn view(&self) -> PerformView {
        PerformView {
            dir: self.repo.workdir@,
            journal: self.journal.path@,
            plan: self.plan@,
            id: self.id@,
            stamp: self.stamp@,
            started_at: self.started_at,
        }
    }

    fn safety(&self) -> (r: (RestorePoint, GitCommand))
        ensures
            r.0.ref_name@ == safety_ref(self.view()),
            r.1@ == update_ref_view(self.repo.workdir@, safety_ref(self.view()), self.plan.current_head@),
    {
        RestorePoint::create_at(
            &self.repo,
            self.plan.target.branch.as_str(),
            self.plan.current_head.as_str(),
            self.stamp.as_str(),
        )
    }

    fn record(&self) -> (r: OperationRecord)
        ensures
            r@ == recover_record(self.view()),
    {
        let (rp, _) = self.safety();
        OperationRecord::begin_at(
            self.id.as_str(),
            "recover",
            self.repo.workdir(),
            self.plan.target.branch.as_str(),
            BeforeState { head: self.plan.current_head.clone(), restore_ref: Some(rp.ref_name) },
            self.started_at,
        )
    }

    /// Go on with the reply to the last request.
    #[verifier::rlimit(60)]
    pub fn resume(&mut self, reply: Reply) -> (r: Step<Result<RecoveryReport, RecoveryError>>)
        requires
            perform_expects(old(self).stage@, reply@),
        ensures
            final(self).view() == old(self).view(),
            final(self).stage@ == perform_next(old(self).view(), old(self).stage@, reply@).0,
            perform_step_is(r, perform_next(old(self).view(), old(self).stage@, reply@).1),
    {
        let mut stage = PerformStage::Finished;
        std::mem::swap(&mut stage, &mut self.stage);
        match stage {
            PerformStage::Pin => {
                let (_, asked) = self.safety();
                match output_of(&asked, reply) {
                    Err(g) => Step::Done(Err(RecoveryError::Git(g))),
                    Ok(_) => {
                        self.stage = PerformStage::Journal;
                        Step::Ask(Request::Append(self.journal.path.clone(), self.record()))
                    },
                }
            },
            PerformStage::Journal => match reply {
                Reply::Appended => {
                    self.stage = PerformStage::Reset;
                    Step::Ask(Request::Git(reset_command(&self.repo, self.plan.restore_ref.as_str())))
                },
                Reply::JournalFailed(m) => Step::Done(Err(RecoveryError::Journal(JournalError { message: m }))),
                _ => Step::Done(Err(RecoveryError::Journal(JournalError { message: String::new() }))),
            },
            PerformStage::Reset => {
                let asked = reset_command(&self.repo, self.plan.restore_ref.as_str());
                match output_of(&asked, reply) {
                    Err(g) => {
                        self.stage = PerformStage::Fail(g);
                        Step::Ask(Request::Append(self.journal.path.clone(), self.record().fail()))
                    },
                    Ok(_) => {
                        self.stage = PerformStage::After;
                        Step::Ask(Request::Git(head_command(&self.repo)))
                    },
                }
            },
            PerformStage::Fail(g) => match reply {
                Reply::Appended => Step::Done(Err(RecoveryError::Git(g))),
                Reply::JournalFailed(m) => Step::Done(Err(RecoveryError::Journal(JournalError { message: m }))),
                _ => Step::Done(Err(RecoveryError::Journal(JournalError { message: String::new() }))),
            },
            PerformStage::After => {
                let asked = head_command(&self.repo);
                match output_of(&asked, reply) {
                    Err(g) => Step::Done(Err(RecoveryError::Git(g))),
                    Ok(to) => {
                        let record = self.record().complete(to.as_str());
                        self.stage = PerformStage::Complete(to);
                        Step::Ask(Request::Append(self.journal.path.clone(), record))
                    },
                }
            },
            PerformStage::Complete(to) => match reply {
                Reply::Appended => {
                    let (rp, _) = self.safety();
                    Step::Done(
                        Ok(
                            RecoveryReport {
                                target_id: self.plan.target.id.clone(),
                                from: self.plan.current_head.clone(),
                                to,
                                safety_restore_ref: rp.ref_name,
                            },
                        ),
                    )
                },
                Reply::JournalFailed(m) => Step::Done(Err(RecoveryError::Journal(JournalError { message: m }))),
                _ => Step::Done(Err(RecoveryError::Journal(JournalError { message: String::new() }))),
            },
            PerformStage::Finished => Step::Done(Err(RecoveryError::Journal(JournalError { message: String::new() }))),
        }
    }
}

/// Perform an approved recovery, journaling it under `record_id`: start by
/// pinning the current HEAD as a safety restore point named with the current
/// local time and the recovery's id.
pub fn perform(repo: &Repository, journal: &Journal, plan: RecoveryPlan, record_id: &str) -> (r: (
    RecoveryRun,
    Step<Result<RecoveryReport, RecoveryError>>,
))
    ensures
        r.0.view().dir == repo.workdir@,
        r.0.view().journal == journal.path@,
        r.0.view().plan == plan@,
        r.0.view().id == record_id@,
        exists|t: Seq<char>| #[trigger] stamp_shaped(t) && r.0.view().stamp == operation_stamp(t, record_id@),
        r.0.stage@ == PerformStageView::Pin,
        perform_step_is(
            r.1,
            PerformNext::Ask(
                RequestView::Git(
                    update_ref_view(repo.workdir@, safety_ref(r.0.view()), plan@.current_head),
                ),
            ),
        ),
{
    let (stamp, Ghost(t)) = stamp_now(record_id);
    assert(stamp_shaped(t));
    let run = RecoveryRun {
        repo: Repository::new(repo.workdir(), repo.git_dir()),
        journal: Journal { path: journal.path.clone() },
        plan,
        id: owned(record_id),
        stamp,
        started_at: utc_now(),
        stage: PerformStage::Pin,
    };
    let (_, c) = run.safety();
    (run, Step::Ask(Request::Git(c)))
}

/// Recovery is itself reversible: the reset to the old restore point is
/// requested only after the current HEAD was pinned as a safety restore
/// point and a started `recover` record naming that HEAD and that restore
/// point was journaled.
pub proof fn recovery_is_journaled_before_it_moves_the_branch(x: PerformView, s: PerformStageView, r: ReplyView)
    ensures
        perform_next(x, s, r).0 is Reset ==> s is Journal && r is Appended,
        perform_next(x, s, r).0 is Journal ==> s is Pin && output_outcome(
            update_ref_view(x.dir, safety_ref(x), x.plan.current_head),
            r,
        ) is Ok && perform_next(x, s, r).1 == PerformNext::Ask(
            RequestView::Append(x.journal, recover_record(x)),
        ),
        recover_record(x).before_head == x.plan.current_head,
        recover_record(x).restore_ref == Some(safety_ref(x)),
{
}

} // verus!
