//! `smoothee undo` — reverse the last Smoothee-managed operation.
//!
//! Undo is the payoff for journaling every mutation and creating a restore
//! point before it. It relies only on standard Git mechanisms: it aborts any
//! in-progress rebase/merge, then `reset --hard`s the branch back to the HEAD
//! recorded before the operation ran. The journal stays append-only — undoing
//! appends an `undo` record rather than rewriting history — so `undo` is itself
//! a journaled, inspectable event.
use vstd::prelude::*;

use crate::exchange::{
    git_error_text,
    append_reply, git_reply, output_of, output_outcome, GitErrorView, Reply, ReplyView, Request,
    RequestView, Step,
};
use crate::git::command::GitError;
use crate::git::repository::Repository;
use crate::git::state::{
    abort_command, abort_view, branch_command, branch_outcome, branch_view, checkout_command,
    checkout_view, current_branch_of, head_command, head_view, merge_head_path, merge_marker,
    rebase_apply_marker, rebase_apply_path, rebase_merge_marker, rebase_merge_path,
    reset_command, reset_view,
};
use crate::operations::journal::{
    utc_now, Journal, JournalError, OperationRecord, OperationStatus, RecordView, Timestamp,
};
use crate::text::{is_text, owned, same_text};

verus! {

/// Whether some `undo` record in `ops` reverses the operation `id`.
pub open spec fn undone(ops: Seq<RecordView>, id: Seq<char>) -> bool {
    exists|i: int| 0 <= i < ops.len() && #[trigger] ops[i].kind == "undo"@ && ops[i].undoes == Some(id)
}

/// Whether `ops[i]` can still be undone: it is not itself an undo, and no
/// undo reverses it.
pub open spec fn undoable(ops: Seq<RecordView>, i: int) -> bool {
    ops[i].kind != "undo"@ && !undone(ops, ops[i].id)
}

/// The newest operation that can still be undone, if any.
pub open spec fn undo_target(ops: Seq<RecordView>) -> Option<RecordView> {
    if exists|i: int| 0 <= i < ops.len() && undoable(ops, i) {
        let i = choose|i: int|
            0 <= i < ops.len() && undoable(ops, i) && forall|j: int|
                i < j < ops.len() ==> !undoable(ops, j);
        Some(ops[i])
    } else {
        None
    }
}

proof fn lemma_newest_exists(ops: Seq<RecordView>, i: int)
    requires
        0 <= i < ops.len(),
        undoable(ops, i),
    ensures
        exists|k: int|
            0 <= k < ops.len() && undoable(ops, k) && forall|j: int|
                k < j < ops.len() ==> !undoable(ops, j),
    decreases ops.len() - i,
{
    if exists|j: int| i < j < ops.len() && undoable(ops, j) {
        let j = choose|j: int| i < j < ops.len() && undoable(ops, j);
        lemma_newest_exists(ops, j);
    }
}

/// The undo target is the newest record that is not itself an undo and that
/// no undo reverses: there is none exactly when no record qualifies, and
/// otherwise it is a qualifying record with none after it.
pub proof fn undo_target_is_newest_undoable(ops: Seq<RecordView>)
    ensures
        undo_target(ops) is None <==> forall|i: int| 0 <= i < ops.len() ==> !undoable(ops, i),
        undo_target(ops) is Some ==> exists|i: int|
            0 <= i < ops.len() && undoable(ops, i) && ops[i] == undo_target(ops)->0 && forall|
                j: int,
            |
                i < j < ops.len() ==> !undoable(ops, j),
{
    if exists|i: int| 0 <= i < ops.len() && undoable(ops, i) {
        let i = choose|i: int| 0 <= i < ops.len() && undoable(ops, i);
        lemma_newest_exists(ops, i);
    }
}

/// The ids that the `undo` records of `ops` reverse, in order.
pub open spec fn undo_ids(ops: Seq<RecordView>) -> Seq<Seq<char>>
    decreases ops.len(),
{
    if ops.len() == 0 {
        seq![]
    } else {
        let prev = undo_ids(ops.drop_last());
        let r = ops.last();
        if r.kind == "undo"@ && r.undoes is Some {
            prev.push(r.undoes->0)
        } else {
            prev
        }
    }
}

proof fn lemma_undo_ids(ops: Seq<RecordView>, id: Seq<char>)
    ensures
        undo_ids(ops).contains(id) <==> undone(ops, id),
    decreases ops.len(),
{
    if ops.len() > 0 {
        let init = ops.drop_last();
        lemma_undo_ids(init, id);
        let r = ops.last();
        if undone(init, id) {
            let m = choose|m: int| 0 <= m < init.len() && #[trigger] init[m].kind == "undo"@
                && init[m].undoes == Some(id);
            assert(ops[m] == init[m]);
        }
        if undone(ops, id) {
            let m = choose|m: int| 0 <= m < ops.len() && #[trigger] ops[m].kind == "undo"@
                && ops[m].undoes == Some(id);
            if m < ops.len() - 1 {
                assert(init[m] == ops[m]);
                assert(undone(init, id));
            }
        }
        if r.kind == "undo"@ && r.undoes is Some {
            let prev = undo_ids(init);
            if prev.push(r.undoes->0).contains(id) && !prev.contains(id) {
                let k = choose|k: int| 0 <= k < prev.push(r.undoes->0).len() && prev.push(
                    r.undoes->0,
                )[k] == id;
                assert(k == prev.len());
            }
            if prev.contains(id) {
                let k = choose|k: int| 0 <= k < prev.len() && prev[k] == id;
                assert(prev.push(r.undoes->0)[k] == id);
            }
            if r.undoes == Some(id) {
                assert(prev.push(r.undoes->0)[prev.len() as int] == id);
            }
        }
    }
}

/// The most recent operation that can still be undone, or `None`.
///
/// Pure over a folded operation list so it is exhaustively testable. Skips
/// `undo` records themselves (no redo) and any operation that a later `undo`
/// already reversed, then returns the newest remaining operation.
pub fn find_undo_target(operations: &[OperationRecord]) -> (r: Option<OperationRecord>)
    ensures
        match r {
            Some(t) => undo_target(operations@.map_values(|o: OperationRecord| o@)) == Some(t@),
            None => undo_target(operations@.map_values(|o: OperationRecord| o@)).is_none(),
        },
{
    let ghost ops = operations@.map_values(|o: OperationRecord| o@);
    // The ids that some undo record reverses.
    let mut undone_ids: Vec<&String> = Vec::new();
    let mut i: usize = 0;
    while i < operations.len()
        invariant
            ops == operations@.map_values(|o: OperationRecord| o@),
            i <= ops.len(),
            undone_ids@.map_values(|s: &String| s@) == undo_ids(ops.take(i as int)),
        decreases ops.len() - i,
    {
        let r = &operations[i];
        assert(ops[i as int] == r@);
        assert(ops.take(i + 1).drop_last() =~= ops.take(i as int));
        if is_text(chars_vec(&r.kind).as_slice(), "undo") {
            if let Some(target) = &r.undoes {
                undone_ids.push(target);
                assert(undone_ids@.map_values(|s: &String| s@) =~= undo_ids(ops.take(i as int)).push(
                    target@,
                ));
            }
        }
        i += 1;
    }
    assert(ops.take(ops.len() as int) =~= ops);
    // Walk back from the newest operation.
    let mut j = operations.len();
    while j > 0
        invariant
            ops == operations@.map_values(|o: OperationRecord| o@),
            j <= ops.len(),
            undone_ids@.map_values(|s: &String| s@) == undo_ids(ops),
            forall|m: int| j <= m < ops.len() ==> !undoable(ops, m),
        decreases j,
    {
        let r = &operations[j - 1];
        assert(ops[j - 1] == r@);
        let is_undo = is_text(chars_vec(&r.kind).as_slice(), "undo");
        let mut reversed = false;
        let mut k: usize = 0;
        while k < undone_ids.len()
            invariant
                k <= undone_ids@.len(),
                undone_ids@.map_values(|s: &String| s@) == undo_ids(ops),
                reversed == exists|x: int| 0 <= x < k && undo_ids(ops)[x] == r.id@,
            decreases undone_ids@.len() - k,
        {
            assert(undo_ids(ops)[k as int] == undone_ids@[k as int]@);
            if *undone_ids[k] == r.id {
                reversed = true;
            }
            k += 1;
        }
        proof {
            lemma_undo_ids(ops, r.id@);
        }
        if !is_undo && !reversed {
            proof {
                assert(undoable(ops, j - 1));
                lemma_newest_exists(ops, j - 1);
                let c = choose|c: int|
                    0 <= c < ops.len() && undoable(ops, c) && forall|m: int|
                        c < m < ops.len() ==> !undoable(ops, m);
                assert(c == j - 1) by {
                    if c < j - 1 {
                        assert(!undoable(ops, j - 1));
                    }
                }
            }
            return Some(r.duplicate());
        }
        assert(!undoable(ops, j - 1));
        j -= 1;
    }
    None
}

fn chars_vec(s: &String) -> (r: Vec<char>)
    ensures
        r@ == s@,
{
    crate::text::chars_of(s.as_str())
}

/// Undoing an operation takes it out of reach of the next undo: once an
/// `undo` record reversing it is appended, the operation `undo` would pick
/// next (if any) is a different one, and never an undo itself.
pub proof fn undone_operation_is_not_undone_again(ops: Seq<RecordView>, u: RecordView)
    requires
        u.kind == "undo"@,
        u.undoes is Some,
    ensures
        match undo_target(ops.push(u)) {
            Some(t) => t.id != u.undoes->0 && t.kind != "undo"@,
            None => true,
        },
{
    let all = ops.push(u);
    let last = ops.len() as int;
    assert(all[last] == u);
    assert(undone(all, u.undoes->0)) by {
        assert(all[last].kind == "undo"@ && all[last].undoes == Some(u.undoes->0));
    }
    if exists|i: int| 0 <= i < all.len() && undoable(all, i) {
        let w = choose|i: int| 0 <= i < all.len() && undoable(all, i);
        lemma_newest_exists(all, w);
        let i = choose|i: int|
            0 <= i < all.len() && undoable(all, i) && forall|j: int|
                i < j < all.len() ==> !undoable(all, j);
        assert(undoable(all, i));
        assert(all[i].id != u.undoes->0);
    }
}

// ---------------------------------------------------------------------------
// Performing an undo
// ---------------------------------------------------------------------------

/// What an undo did.
#[derive(Debug, Clone)]
pub struct UndoReport {
    /// The kind of the operation reversed.
    pub kind: String,
    /// The branch it acted on.
    pub branch: String,
    /// The in-progress operation that was aborted first, if any.
    pub aborted: Option<&'static str>,
    /// The HEAD before the undo.
    pub from: String,
    /// The HEAD after it: the reversed operation's starting HEAD.
    pub to: String,
}

pub struct UndoReportView {
    pub kind: Seq<char>,
    pub branch: Seq<char>,
    pub aborted: Option<Seq<char>>,
    pub from: Seq<char>,
    pub to: Seq<char>,
}

impl View for UndoReport {
    type V = UndoReportView;

    open spec fn view(&self) -> UndoReportView {
        UndoReportView {
            kind: self.kind@,
            branch: self.branch@,
            aborted: match self.aborted {
                Some(a) => Some(a@),
                None => None,
            },
            from: self.from@,
            to: self.to@,
        }
    }
}

/// Why an undo failed.
#[derive(Debug)]
pub enum UndoError {
    Git(GitError),
    Journal(JournalError),
}

pub enum UndoErrorView {
    Git(GitErrorView),
    Journal(Seq<char>),
}

impl View for UndoError {
    type V = UndoErrorView;

    open spec fn view(&self) -> UndoErrorView {
        match self {
            UndoError::Git(e) => UndoErrorView::Git(e@),
            UndoError::Journal(e) => UndoErrorView::Journal(e.message@),
        }
    }
}

/// How an undo error reads.
pub open spec fn undo_error_text(e: UndoErrorView) -> Seq<char> {
    match e {
        UndoErrorView::Git(g) => git_error_text(g),
        UndoErrorView::Journal(m) => m,
    }
}

impl UndoError {
    /// The message shown for the error.
    pub fn message(&self) -> (r: String)
        ensures
            r@ == undo_error_text(self@),
    {
        match self {
            UndoError::Git(g) => g.message(),
            UndoError::Journal(j) => j.message.clone(),
        }
    }
}

/// Where an undo stands. Each stage but the first carries the HEAD before
/// the undo; later ones also the operation aborted, if any.
#[derive(Debug)]
pub enum UndoStage {
    Head,
    RebaseMerge(String),
    RebaseApply(String),
    MergeHead(String),
    /// Aborting the rebase (`true`) or merge (`false`) in progress.
    Abort(String, bool),
    Branch(String, Option<&'static str>),
    Checkout(String, Option<&'static str>),
    Reset(String, Option<&'static str>),
    Journal(String, Option<&'static str>),
    Finished,
}

pub enum UndoStageView {
    Head,
    RebaseMerge(Seq<char>),
    RebaseApply(Seq<char>),
    MergeHead(Seq<char>),
    Abort(Seq<char>, bool),
    Branch(Seq<char>, Option<Seq<char>>),
    Checkout(Seq<char>, Option<Seq<char>>),
    Reset(Seq<char>, Option<Seq<char>>),
    Journal(Seq<char>, Option<Seq<char>>),
    Finished,
}

pub open spec fn opt_str_view(o: Option<&'static str>) -> Option<Seq<char>> {
    match o {
        Some(a) => Some(a@),
        None => None,
    }
}

impl View for UndoStage {
    type V = UndoStageView;

    open spec fn view(&self) -> UndoStageView {
        match self {
            UndoStage::Head => UndoStageView::Head,
            UndoStage::RebaseMerge(f) => UndoStageView::RebaseMerge(f@),
            UndoStage::RebaseApply(f) => UndoStageView::RebaseApply(f@),
            UndoStage::MergeHead(f) => UndoStageView::MergeHead(f@),
            UndoStage::Abort(f, r) => UndoStageView::Abort(f@, *r),
            UndoStage::Branch(f, a) => UndoStageView::Branch(f@, opt_str_view(*a)),
            UndoStage::Checkout(f, a) => UndoStageView::Checkout(f@, opt_str_view(*a)),
            UndoStage::Reset(f, a) => UndoStageView::Reset(f@, opt_str_view(*a)),
            UndoStage::Journal(f, a) => UndoStageView::Journal(f@, opt_str_view(*a)),
            UndoStage::Finished => UndoStageView::Finished,
        }
    }
}

/// Everything an undo is fixed by.
pub struct UndoView {
    pub dir: Seq<char>,
    pub git_dir: Seq<char>,
    pub journal: Seq<char>,
    pub target: RecordView,
    pub id: Seq<char>,
    pub started_at: Timestamp,
}

/// The record appended once the branch is back: a completed `undo` of the
/// target, from the HEAD before the undo to the target's starting HEAD.
pub open spec fn undo_record(x: UndoView, from: Seq<char>) -> RecordView {
    RecordView {
        id: x.id,
        kind: "undo"@,
        repository: x.target.repository,
        branch: x.target.branch,
        started_at: x.started_at,
        before_head: from,
        restore_ref: None,
        after_head: Some(x.target.before_head),
        status: OperationStatus::Completed,
        undoes: Some(x.target.id),
    }
}

pub enum UndoNext {
    Ask(RequestView),
    Done(Result<UndoReportView, UndoErrorView>),
}

pub open spec fn exists_reply(reply: ReplyView) -> bool {
    match reply {
        ReplyView::Exists(b) => b,
        _ => false,
    }
}

/// One step of an undo. It reads HEAD; aborts a rebase in progress, else a
/// merge in progress; checks out the target's branch unless already on it;
/// resets the branch to the HEAD recorded before the target ran; and
/// journals the undo. A `git` or journal failure ends it with that error.
pub open spec fn undo_next(x: UndoView, stage: UndoStageView, reply: ReplyView) -> (UndoStageView, UndoNext) {
    let fail = |g: GitErrorView| (UndoStageView::Finished, UndoNext::Done(Err(UndoErrorView::Git(g))));
    let to_branch = |f: Seq<char>, a: Option<Seq<char>>| (
        UndoStageView::Branch(f, a),
        UndoNext::Ask(RequestView::Git(branch_view(x.dir))),
    );
    let to_reset = |f: Seq<char>, a: Option<Seq<char>>| (
        UndoStageView::Reset(f, a),
        UndoNext::Ask(RequestView::Git(reset_view(x.dir, x.target.before_head))),
    );
    match stage {
        UndoStageView::Head => match output_outcome(head_view(x.dir), reply) {
            Err(g) => fail(g),
            Ok(f) => (
                UndoStageView::RebaseMerge(f),
                UndoNext::Ask(RequestView::Exists(rebase_merge_path(x.git_dir))),
            ),
        },
        UndoStageView::RebaseMerge(f) => if exists_reply(reply) {
            (UndoStageView::Abort(f, true), UndoNext::Ask(RequestView::Git(abort_view(x.dir, "rebase"@))))
        } else {
            (
                UndoStageView::RebaseApply(f),
                UndoNext::Ask(RequestView::Exists(rebase_apply_path(x.git_dir))),
            )
        },
        UndoStageView::RebaseApply(f) => if exists_reply(reply) {
            (UndoStageView::Abort(f, true), UndoNext::Ask(RequestView::Git(abort_view(x.dir, "rebase"@))))
        } else {
            (UndoStageView::MergeHead(f), UndoNext::Ask(RequestView::Exists(merge_head_path(x.git_dir))))
        },
        UndoStageView::MergeHead(f) => if exists_reply(reply) {
            (UndoStageView::Abort(f, false), UndoNext::Ask(RequestView::Git(abort_view(x.dir, "merge"@))))
        } else {
            to_branch(f, None)
        },
        UndoStageView::Abort(f, rebase) => {
            let op = if rebase {
                "rebase"@
            } else {
                "merge"@
            };
            match output_outcome(abort_view(x.dir, op), reply) {
                Err(g) => fail(g),
                Ok(_) => to_branch(f, Some(op)),
            }
        },
        UndoStageView::Branch(f, a) => match branch_outcome(x.dir, reply) {
            Err(g) => fail(g),
            Ok(current) => if current == Some(x.target.branch) {
                to_reset(f, a)
            } else {
                (
                    UndoStageView::Checkout(f, a),
                    UndoNext::Ask(RequestView::Git(checkout_view(x.dir, x.target.branch))),
                )
            },
        },
        UndoStageView::Checkout(f, a) => match output_outcome(checkout_view(x.dir, x.target.branch), reply) {
            Err(g) => fail(g),
            Ok(_) => to_reset(f, a),
        },
        UndoStageView::Reset(f, a) => match output_outcome(reset_view(x.dir, x.target.before_head), reply) {
            Err(g) => fail(g),
            Ok(_) => (
                UndoStageView::Journal(f, a),
                UndoNext::Ask(RequestView::Append(x.journal, undo_record(x, f))),
            ),
        },
        UndoStageView::Journal(f, a) => match reply {
            ReplyView::Appended => (
                UndoStageView::Finished,
                UndoNext::Done(
                    Ok(
                        UndoReportView {
                            kind: x.target.kind,
                            branch: x.target.branch,
                            aborted: a,
                            from: f,
                            to: x.target.before_head,
                        },
                    ),
                ),
            ),
            ReplyView::JournalFailed(m) => (UndoStageView::Finished, UndoNext::Done(Err(UndoErrorView::Journal(m)))),
            _ => (UndoStageView::Finished, UndoNext::Done(Err(UndoErrorView::Journal(seq![])))),
        },
        UndoStageView::Finished => (UndoStageView::Finished, UndoNext::Done(Err(UndoErrorView::Journal(seq![])))),
    }
}

/// The kind of reply each stage waits for.
pub open spec fn undo_expects(stage: UndoStageView, reply: ReplyView) -> bool {
    match stage {
        UndoStageView::RebaseMerge(_) | UndoStageView::RebaseApply(_) | UndoStageView::MergeHead(_) => reply is Exists,
        UndoStageView::Journal(_, _) => append_reply(reply),
        UndoStageView::Finished => false,
        _ => git_reply(reply),
    }
}

pub open spec fn undo_result_view(r: Result<UndoReport, UndoError>) -> Result<UndoReportView, UndoErrorView> {
    match r {
        Ok(o) => Ok(o@),
        Err(e) => Err(e@),
    }
}

pub open spec fn undo_step_is(step: Step<Result<UndoReport, UndoError>>, next: UndoNext) -> bool {
    match next {
        UndoNext::Ask(q) => step matches Step::Ask(x) && x@ == q,
        UndoNext::Done(res) => step matches Step::Done(x) && undo_result_view(x) == res,
    }
}

/// Reversing one journaled operation, one request at a time.
#[derive(Debug)]
pub struct UndoRun {
    pub repo: Repository,
    pub journal: Journal,
    pub target: OperationRecord,
    pub id: String,
    pub started_at: Timestamp,
    pub stage: UndoStage,
}

impl UndoRun {
    pub open spec fn view(&self) -> UndoView {
        UndoView {
            dir: self.repo.workdir@,
            git_dir: self.repo.git_dir@,
            journal: self.journal.path@,
            target: self.target@,
            id: self.id@,
            started_at: self.started_at,
        }
    }

    fn to_branch(&mut self, from: String, aborted: Option<&'static str>) -> (r: Step<Result<UndoReport, UndoError>>)
        ensures
            final(self).view() == old(self).view(),
            final(self).stage@ == UndoStageView::Branch(from@, opt_str_view(aborted)),
            undo_step_is(r, UndoNext::Ask(RequestView::Git(branch_view(old(self).repo.workdir@)))),
    {
        self.stage = UndoStage::Branch(from, aborted);
        Step::Ask(Request::Git(branch_command(&self.repo)))
    }

    fn to_reset(&mut self, from: String, aborted: Option<&'static str>) -> (r: Step<Result<UndoReport, UndoError>>)
        ensures
            final(self).view() == old(self).view(),
            final(self).stage@ == UndoStageView::Reset(from@, opt_str_view(aborted)),
            undo_step_is(
                r,
                UndoNext::Ask(
                    RequestView::Git(reset_view(old(self).repo.workdir@, old(self).target@.before_head)),
                ),
            ),
    {
        self.stage = UndoStage::Reset(from, aborted);
        Step::Ask(Request::Git(reset_command(&self.repo, self.target.before.head.as_str())))
    }

    /// Go on with the reply to the last request.
    #[verifier::rlimit(60)]
    pub fn resume(&mut self, reply: Reply) -> (r: Step<Result<UndoReport, UndoError>>)
        requires
            undo_expects(old(self).stage@, reply@),
        ensures
            final(self).view() == old(self).view(),
            final(self).stage@ == undo_next(old(self).view(), old(self).stage@, reply@).0,
            undo_step_is(r, undo_next(old(self).view(), old(self).stage@, reply@).1),
    {
        let mut stage = UndoStage::Finished;
        std::mem::swap(&mut stage, &mut self.stage);
        match stage {
            UndoStage::Head => {
                let asked = head_command(&self.repo);
                match output_of(&asked, reply) {
                    Err(g) => Step::Done(Err(UndoError::Git(g))),
                    Ok(f) => {
                        self.stage = UndoStage::RebaseMerge(f);
                        Step::Ask(Request::Exists(rebase_merge_marker(&self.repo)))
                    },
                }
            },
            UndoStage::RebaseMerge(f) => if let Reply::Exists(true) = reply {
                self.stage = UndoStage::Abort(f, true);
                Step::Ask(Request::Git(abort_command(&self.repo, "rebase")))
            } else {
                self.stage = UndoStage::RebaseApply(f);
                Step::Ask(Request::Exists(rebase_apply_marker(&self.repo)))
            },
            UndoStage::RebaseApply(f) => if let Reply::Exists(true) = reply {
                self.stage = UndoStage::Abort(f, true);
                Step::Ask(Request::Git(abort_command(&self.repo, "rebase")))
            } else {
                self.stage = UndoStage::MergeHead(f);
                Step::Ask(Request::Exists(merge_marker(&self.repo)))
            },
            UndoStage::MergeHead(f) => if let Reply::Exists(true) = reply {
                self.stage = UndoStage::Abort(f, false);
                Step::Ask(Request::Git(abort_command(&self.repo, "merge")))
            } else {
                self.to_branch(f, None)
            },
            UndoStage::Abort(f, rebase) => {
                let op: &'static str = if rebase {
                    "rebase"
                } else {
                    "merge"
                };
                let asked = abort_command(&self.repo, op);
                match output_of(&asked, reply) {
                    Err(g) => Step::Done(Err(UndoError::Git(g))),
                    Ok(_) => self.to_branch(f, Some(op)),
                }
            },
            UndoStage::Branch(f, a) => match current_branch_of(&self.repo, reply) {
                Err(g) => Step::Done(Err(UndoError::Git(g))),
                Ok(current) => {
                    let on_target = match &current {
                        Some(c) => same_text(c.as_str(), self.target.branch.as_str()),
                        None => false,
                    };
                    if on_target {
                        self.to_reset(f, a)
                    } else {
                        self.stage = UndoStage::Checkout(f, a);
                        Step::Ask(Request::Git(checkout_command(&self.repo, self.target.branch.as_str())))
                    }
                },
            },
            UndoStage::Checkout(f, a) => {
                let asked = checkout_command(&self.repo, self.target.branch.as_str());
                match output_of(&asked, reply) {
                    Err(g) => Step::Done(Err(UndoError::Git(g))),
                    Ok(_) => self.to_reset(f, a),
                }
            },
            UndoStage::Reset(f, a) => {
                let asked = reset_command(&self.repo, self.target.before.head.as_str());
                match output_of(&asked, reply) {
                    Err(g) => Step::Done(Err(UndoError::Git(g))),
                    Ok(_) => {
                        let record = OperationRecord::undo_at(
                            self.id.as_str(),
                            &self.target,
                            f.as_str(),
                            self.started_at,
                        );
                        self.stage = UndoStage::Journal(f, a);
                        Step::Ask(Request::Append(self.journal.path.clone(), record))
                    },
                }
            },
            UndoStage::Journal(f, a) => match reply {
                Reply::Appended => Step::Done(
                    Ok(
                        UndoReport {
                            kind: self.target.kind.clone(),
                            branch: self.target.branch.clone(),
                            aborted: a,
                            from: f,
                            to: self.target.before.head.clone(),
                        },
                    ),
                ),
                Reply::JournalFailed(m) => Step::Done(Err(UndoError::Journal(JournalError { message: m }))),
                _ => Step::Done(Err(UndoError::Journal(JournalError { message: String::new() }))),
            },
            UndoStage::Finished => Step::Done(Err(UndoError::Journal(JournalError { message: String::new() }))),
        }
    }
}

/// Reverse `target`, journaling the undo under `record_id`: start by asking
/// for HEAD.
pub fn perform(repo: &Repository, journal: &Journal, target: &OperationRecord, record_id: &str) -> (r: (
    UndoRun,
    Step<Result<UndoReport, UndoError>>,
))
    ensures
        r.0.view().dir == repo.workdir@,
        r.0.view().git_dir == repo.git_dir@,
        r.0.view().journal == journal.path@,
        r.0.view().target == target@,
        r.0.view().id == record_id@,
        r.0.stage@ == UndoStageView::Head,
        undo_step_is(r.1, UndoNext::Ask(RequestView::Git(head_view(repo.workdir@)))),
{
    let c = head_command(repo);
    (
        UndoRun {
            repo: Repository::new(repo.workdir(), repo.git_dir()),
            journal: Journal { path: journal.path.clone() },
            target: target.duplicate(),
            id: owned(record_id),
            started_at: utc_now(),
            stage: UndoStage::Head,
        },
        Step::Ask(Request::Git(c)),
    )
}

/// An undo puts the branch back exactly where the reversed operation found
/// it: the only reset it requests is to the target's recorded starting HEAD,
/// and it journals the undo only once that reset succeeded.
pub proof fn undo_returns_to_the_recorded_head(x: UndoView, s: UndoStageView, r: ReplyView)
    ensures
        undo_next(x, s, r).0 is Reset ==> undo_next(x, s, r).1 == UndoNext::Ask(
            RequestView::Git(reset_view(x.dir, x.target.before_head)),
        ),
        undo_next(x, s, r).0 is Journal ==> s is Reset && output_outcome(
            reset_view(x.dir, x.target.before_head),
            r,
        ) is Ok && undo_next(x, s, r).1 == UndoNext::Ask(
            RequestView::Append(x.journal, undo_record(x, s->Reset_0)),
        ),
        undo_next(x, s, r).1 matches UndoNext::Done(Ok(rep)) ==> s is Journal && rep.to
            == x.target.before_head,
{
}

/// What an undo leaves: a rebase in progress is aborted with
/// `git rebase --abort`, else a merge in progress with `git merge --abort`,
/// and the report names it (`Some("merge")` exactly when a merge and no
/// rebase was in progress); the record it journals is a completed `undo` of
/// the target that moved the branch from the HEAD it found to the target's
/// starting HEAD, so the target is out of reach of the next undo.
pub proof fn undo_aborts_what_is_in_progress_and_journals_the_reversal(
    x: UndoView,
    f: Seq<char>,
    r: ReplyView,
    ops: Seq<RecordView>,
)
    ensures
        exists_reply(r) ==> undo_next(x, UndoStageView::RebaseMerge(f), r) == (
            UndoStageView::Abort(f, true),
            UndoNext::Ask(RequestView::Git(abort_view(x.dir, "rebase"@))),
        ),
        exists_reply(r) ==> undo_next(x, UndoStageView::RebaseApply(f), r) == (
            UndoStageView::Abort(f, true),
            UndoNext::Ask(RequestView::Git(abort_view(x.dir, "rebase"@))),
        ),
        exists_reply(r) ==> undo_next(x, UndoStageView::MergeHead(f), r) == (
            UndoStageView::Abort(f, false),
            UndoNext::Ask(RequestView::Git(abort_view(x.dir, "merge"@))),
        ),
        !exists_reply(r) ==> undo_next(x, UndoStageView::MergeHead(f), r).0 == UndoStageView::Branch(
            f,
            None,
        ),
        output_outcome(abort_view(x.dir, "merge"@), r) is Ok ==> undo_next(
            x,
            UndoStageView::Abort(f, false),
            r,
        ).0 == UndoStageView::Branch(f, Some("merge"@)),
        output_outcome(abort_view(x.dir, "rebase"@), r) is Ok ==> undo_next(
            x,
            UndoStageView::Abort(f, true),
            r,
        ).0 == UndoStageView::Branch(f, Some("rebase"@)),
        undo_record(x, f).kind == "undo"@,
        undo_record(x, f).status == OperationStatus::Completed,
        undo_record(x, f).undoes == Some(x.target.id),
        undo_record(x, f).before_head == f,
        undo_record(x, f).after_head == Some(x.target.before_head),
        match undo_target(ops.push(undo_record(x, f))) {
            Some(t) => t.id != x.target.id,
            None => true,
        },
{
    reveal_strlit("undo");
    undone_operation_is_not_undone_again(ops, undo_record(x, f));
}


/// The undo stage reached once the replies `rs` have been answered, one
/// after the other, from the start (reading HEAD).
pub open spec fn undo_after(x: UndoView, rs: Seq<ReplyView>) -> UndoStageView
    decreases rs.len(),
{
    if rs.len() == 0 {
        UndoStageView::Head
    } else {
        undo_next(x, undo_after(x, rs.drop_last()), rs.last()).0
    }
}

/// Whether the undo stood at stage `s` when the reply `rs[k]` came.
pub open spec fn stood(x: UndoView, rs: Seq<ReplyView>, k: int, s: UndoStageView) -> bool {
    0 <= k < rs.len() && undo_after(x, rs.take(k)) == s
}

/// What the replies `rs` showed of the operation in progress, `a` being what
/// the undo aborted: with nothing aborted, neither rebase directory nor
/// `MERGE_HEAD` existed; otherwise the abort of that operation succeeded.
pub open spec fn cleared(x: UndoView, rs: Seq<ReplyView>, f: Seq<char>, a: Option<Seq<char>>) -> bool {
    match a {
        None => exists|k: int|
            stood(x, rs, k, UndoStageView::RebaseMerge(f)) && !exists_reply(rs[k]) && stood(
                x,
                rs,
                k + 1,
                UndoStageView::RebaseApply(f),
            ) && !exists_reply(rs[k + 1]) && stood(x, rs, k + 2, UndoStageView::MergeHead(f))
                && !exists_reply(rs[k + 2]),
        Some(op) => exists|k: int|
            stood(x, rs, k, UndoStageView::Abort(f, op == "rebase"@)) && (op == "rebase"@ || op
                == "merge"@) && output_outcome(abort_view(x.dir, op), rs[k]) is Ok,
    }
}

/// Whether the replies `rs` showed the target's branch checked out: either
/// it was current already or checking it out succeeded.
pub open spec fn on_branch(x: UndoView, rs: Seq<ReplyView>, f: Seq<char>, a: Option<Seq<char>>) -> bool {
    exists|k: int|
        (stood(x, rs, k, UndoStageView::Branch(f, a)) && branch_outcome(x.dir, rs[k]) == Ok::<Option<Seq<char>>, GitErrorView>(
            Some(x.target.branch),
        )) || (stood(x, rs, k, UndoStageView::Checkout(f, a)) && output_outcome(
            checkout_view(x.dir, x.target.branch),
            rs[k],
        ) is Ok)
}

/// What holds at each stage of an undo about the replies that led there.
pub open spec fn undo_history(x: UndoView, rs: Seq<ReplyView>) -> bool {
    let head_read = |f: Seq<char>| rs.len() > 0 && output_outcome(head_view(x.dir), rs[0]) == Ok::<Seq<char>, GitErrorView>(f);
    match undo_after(x, rs) {
        UndoStageView::Head => true,
        UndoStageView::Finished => true,
        UndoStageView::RebaseMerge(f) => head_read(f) && stood(x, rs, rs.len() - 1, UndoStageView::Head),
        UndoStageView::RebaseApply(f) => head_read(f) && stood(x, rs, rs.len() - 1, UndoStageView::RebaseMerge(f))
            && !exists_reply(rs[rs.len() - 1]),
        UndoStageView::MergeHead(f) => head_read(f) && stood(x, rs, rs.len() - 2, UndoStageView::RebaseMerge(f))
            && !exists_reply(rs[rs.len() - 2]) && stood(x, rs, rs.len() - 1, UndoStageView::RebaseApply(f))
            && !exists_reply(rs[rs.len() - 1]),
        UndoStageView::Abort(f, _) => head_read(f),
        UndoStageView::Branch(f, a) => head_read(f) && cleared(x, rs, f, a),
        UndoStageView::Checkout(f, a) => head_read(f) && cleared(x, rs, f, a),
        UndoStageView::Reset(f, a) => head_read(f) && cleared(x, rs, f, a) && on_branch(x, rs, f, a),
        UndoStageView::Journal(f, a) => head_read(f) && cleared(x, rs, f, a) && on_branch(x, rs, f, a)
            && stood(x, rs, rs.len() - 1, UndoStageView::Reset(f, a)) && output_outcome(
            reset_view(x.dir, x.target.before_head),
            rs[rs.len() - 1],
        ) is Ok,
    }
}

proof fn lemma_stood_extends(x: UndoView, rs: Seq<ReplyView>, k: int, s: UndoStageView)
    requires
        rs.len() > 0,
        stood(x, rs.drop_last(), k, s),
    ensures
        stood(x, rs, k, s),
        rs[k] == rs.drop_last()[k],
{
    assert(rs.take(k) =~= rs.drop_last().take(k));
}

proof fn lemma_stood_last(x: UndoView, rs: Seq<ReplyView>)
    requires
        rs.len() > 0,
    ensures
        stood(x, rs, rs.len() - 1, undo_after(x, rs.drop_last())),
{
    assert(rs.take(rs.len() - 1) =~= rs.drop_last());
}

proof fn lemma_undo_history(x: UndoView, rs: Seq<ReplyView>)
    ensures
        undo_history(x, rs),
    decreases rs.len(),
{
    reveal_strlit("rebase");
    reveal_strlit("merge");
    if rs.len() > 0 {
        let init = rs.drop_last();
        lemma_undo_history(x, init);
        lemma_stood_last(x, rs);
        let prev = undo_after(x, init);
        if init.len() > 0 {
            assert(rs[0] == init[0]);
        }
        // Facts about earlier replies stay true of the longer history.
        let last = rs.last();
        assert(rs[rs.len() - 1] == last);
        match prev {
            UndoStageView::Head => {
                assert(init.len() == 0) by {
                    if init.len() > 0 {
                        assert(undo_after(x, init) == undo_next(
                            x,
                            undo_after(x, init.drop_last()),
                            init.last(),
                        ).0);
                    }
                }
            },
            UndoStageView::RebaseApply(f) => {
                lemma_stood_extends(x, rs, init.len() - 1, UndoStageView::RebaseMerge(f));
            },
            UndoStageView::MergeHead(f) => {
                lemma_stood_extends(x, rs, init.len() - 2, UndoStageView::RebaseMerge(f));
                lemma_stood_extends(x, rs, init.len() - 1, UndoStageView::RebaseApply(f));
                if !exists_reply(last) {
                    let k = rs.len() - 3;
                    assert(stood(x, rs, k, UndoStageView::RebaseMerge(f)) && !exists_reply(rs[k]));
                    assert(stood(x, rs, k + 1, UndoStageView::RebaseApply(f)) && !exists_reply(
                        rs[k + 1],
                    ));
                    assert(stood(x, rs, k + 2, UndoStageView::MergeHead(f)) && !exists_reply(
                        rs[k + 2],
                    ));
                    assert(cleared(x, rs, f, None));
                }
            },
            UndoStageView::Abort(f, rebase) => {
                let op = if rebase {
                    "rebase"@
                } else {
                    "merge"@
                };
                assert(stood(x, rs, rs.len() - 1, UndoStageView::Abort(f, rebase)));
                if output_outcome(abort_view(x.dir, op), last) is Ok {
                    assert(rebase == (op == "rebase"@)) by {
                        assert("merge"@.len() != "rebase"@.len());
                    }
                    assert(cleared(x, rs, f, Some(op)));
                }
            },
            UndoStageView::Branch(f, a) => {
                lemma_cleared_extends(x, rs, f, a);
                if branch_outcome(x.dir, last) == Ok::<Option<Seq<char>>, GitErrorView>(
                    Some(x.target.branch),
                ) {
                    assert(on_branch(x, rs, f, a));
                }
            },
            UndoStageView::Checkout(f, a) => {
                lemma_cleared_extends(x, rs, f, a);
                if output_outcome(checkout_view(x.dir, x.target.branch), last) is Ok {
                    assert(on_branch(x, rs, f, a));
                }
            },
            UndoStageView::Reset(f, a) => {
                lemma_cleared_extends(x, rs, f, a);
                lemma_on_branch_extends(x, rs, f, a);
            },
            _ => {},
        }
    }
}

proof fn lemma_cleared_extends(x: UndoView, rs: Seq<ReplyView>, f: Seq<char>, a: Option<Seq<char>>)
    requires
        rs.len() > 0,
        cleared(x, rs.drop_last(), f, a),
    ensures
        cleared(x, rs, f, a),
{
    match a {
        None => {
            let k = choose|k: int|
                stood(x, rs.drop_last(), k, UndoStageView::RebaseMerge(f)) && !exists_reply(
                    rs.drop_last()[k],
                ) && stood(x, rs.drop_last(), k + 1, UndoStageView::RebaseApply(f)) && !exists_reply(
                    rs.drop_last()[k + 1],
                ) && stood(x, rs.drop_last(), k + 2, UndoStageView::MergeHead(f)) && !exists_reply(
                    rs.drop_last()[k + 2],
                );
            lemma_stood_extends(x, rs, k, UndoStageView::RebaseMerge(f));
            lemma_stood_extends(x, rs, k + 1, UndoStageView::RebaseApply(f));
            lemma_stood_extends(x, rs, k + 2, UndoStageView::MergeHead(f));
        },
        Some(op) => {
            let k = choose|k: int|
                stood(x, rs.drop_last(), k, UndoStageView::Abort(f, op == "rebase"@)) && (op
                    == "rebase"@ || op == "merge"@) && output_outcome(
                    abort_view(x.dir, op),
                    rs.drop_last()[k],
                ) is Ok;
            lemma_stood_extends(x, rs, k, UndoStageView::Abort(f, op == "rebase"@));
        },
    }
}

proof fn lemma_on_branch_extends(x: UndoView, rs: Seq<ReplyView>, f: Seq<char>, a: Option<Seq<char>>)
    requires
        rs.len() > 0,
        on_branch(x, rs.drop_last(), f, a),
    ensures
        on_branch(x, rs, f, a),
{
    let k = choose|k: int|
        (stood(x, rs.drop_last(), k, UndoStageView::Branch(f, a)) && branch_outcome(
            x.dir,
            rs.drop_last()[k],
        ) == Ok::<Option<Seq<char>>, GitErrorView>(Some(x.target.branch))) || (stood(x, rs.drop_last(), k, UndoStageView::Checkout(f, a))
            && output_outcome(checkout_view(x.dir, x.target.branch), rs.drop_last()[k]) is Ok);
    if stood(x, rs.drop_last(), k, UndoStageView::Branch(f, a)) {
        lemma_stood_extends(x, rs, k, UndoStageView::Branch(f, a));
    } else {
        lemma_stood_extends(x, rs, k, UndoStageView::Checkout(f, a));
    }
}

/// Over a whole undo, whatever replies come back: when it reports success,
/// it read the HEAD it reports as `from` first; it found no rebase or merge
/// in progress, or aborted the one it reports and the abort succeeded; the
/// target's branch was checked out; the reset to the target's starting HEAD
/// succeeded; and the completed `undo` record was appended to the journal.
/// The report moves the target's branch back to that starting HEAD.
pub proof fn successful_undo_cleared_restored_and_journaled(x: UndoView, rs: Seq<ReplyView>, r: ReplyView)
    requires
        undo_next(x, undo_after(x, rs), r).1 is Done,
        undo_next(x, undo_after(x, rs), r).1->Done_0 is Ok,
    ensures
        ({
            let rep = undo_next(x, undo_after(x, rs), r).1->Done_0->Ok_0;
            &&& rs.len() > 0 && output_outcome(head_view(x.dir), rs[0]) == Ok::<Seq<char>, GitErrorView>(rep.from)
            &&& cleared(x, rs, rep.from, rep.aborted)
            &&& on_branch(x, rs, rep.from, rep.aborted)
            &&& stood(x, rs, rs.len() - 1, UndoStageView::Reset(rep.from, rep.aborted))
            &&& output_outcome(reset_view(x.dir, x.target.before_head), rs[rs.len() - 1]) is Ok
            &&& undo_next(x, UndoStageView::Reset(rep.from, rep.aborted), rs[rs.len() - 1]).1
                == UndoNext::Ask(RequestView::Append(x.journal, undo_record(x, rep.from)))
            &&& r is Appended
            &&& rep.to == x.target.before_head
            &&& rep.branch == x.target.branch
            &&& rep.kind == x.target.kind
        }),
{
    lemma_undo_history(x, rs);
}

} // verus!
