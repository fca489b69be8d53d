//! What Smoothee asks Git about the repository's current state: the HEAD
//! commit, the current branch, the conflicted paths, and whether a merge or
//! rebase is in progress.
use vstd::prelude::*;

use crate::exchange::{
    git_reply, output_of, output_outcome, run_of, run_outcome, GitErrorView, Reply, ReplyView,
};
use crate::git::command::{GitCommand, GitCommandView, GitError};
use crate::git::repository::Repository;
use crate::operations::journal::join_path;
use crate::text::{chars_of, lines, owned, push_str, split_lines, views};

verus! {

/// `git rev-parse HEAD`: prints the HEAD commit.
pub open spec fn head_view(dir: Seq<char>) -> GitCommandView {
    GitCommandView { args: seq!["rev-parse"@, "HEAD"@], cwd: Some(dir), env: seq![] }
}

/// `git symbolic-ref --quiet --short HEAD`: prints the current branch, and
/// fails quietly on a detached HEAD.
pub open spec fn branch_view(dir: Seq<char>) -> GitCommandView {
    GitCommandView {
        args: seq!["symbolic-ref"@, "--quiet"@, "--short"@, "HEAD"@],
        cwd: Some(dir),
        env: seq![],
    }
}

/// `git diff --name-only --diff-filter=U`: prints each unmerged path on a line.
pub open spec fn conflicted_view(dir: Seq<char>) -> GitCommandView {
    GitCommandView {
        args: seq!["diff"@, "--name-only"@, "--diff-filter=U"@],
        cwd: Some(dir),
        env: seq![],
    }
}

/// The command that prints the HEAD commit.
pub fn head_command(repo: &Repository) -> (c: GitCommand)
    ensures
        c@ == head_view(repo.workdir@),
{
    let c = repo.git("rev-parse").arg("HEAD");
    assert(c@.args =~= head_view(repo.workdir@).args);
    c
}

/// The command that prints the current branch.
pub fn branch_command(repo: &Repository) -> (c: GitCommand)
    ensures
        c@ == branch_view(repo.workdir@),
{
    let c = repo.git("symbolic-ref").arg("--quiet").arg("--short").arg("HEAD");
    assert(c@.args =~= branch_view(repo.workdir@).args);
    c
}

/// The command that lists the conflicted paths.
pub fn conflicted_command(repo: &Repository) -> (c: GitCommand)
    ensures
        c@ == conflicted_view(repo.workdir@),
{
    let c = repo.git("diff").arg("--name-only").arg("--diff-filter=U");
    assert(c@.args =~= conflicted_view(repo.workdir@).args);
    c
}

/// The non-empty lines of `ls`.
pub open spec fn non_empty(ls: Seq<Seq<char>>) -> Seq<Seq<char>>
    decreases ls.len(),
{
    if ls.len() == 0 {
        seq![]
    } else if ls.last().len() == 0 {
        non_empty(ls.drop_last())
    } else {
        non_empty(ls.drop_last()).push(ls.last())
    }
}

/// The listed paths are the non-empty lines of the output, in order: every
/// listed path is a non-empty line, and every non-empty line is listed.
pub proof fn listed_paths_are_the_nonempty_lines(ls: Seq<Seq<char>>)
    ensures
        forall|k: int|
            0 <= k < non_empty(ls).len() ==> #[trigger] non_empty(ls)[k].len() > 0 && ls.contains(
                non_empty(ls)[k],
            ),
        forall|i: int| 0 <= i < ls.len() && #[trigger] ls[i].len() > 0 ==> non_empty(ls).contains(ls[i]),
        non_empty(ls).len() <= ls.len(),
    decreases ls.len(),
{
    if ls.len() > 0 {
        let init = ls.drop_last();
        listed_paths_are_the_nonempty_lines(init);
        let ps = non_empty(ls);
        let pi = non_empty(init);
        let last = ls.len() - 1;
        assert(ls[last] == ls.last());
        if ls.last().len() == 0 {
            assert(ps == pi);
        } else {
            assert(ps == pi.push(ls.last()));
        }
        assert forall|k: int| 0 <= k < ps.len() implies #[trigger] ps[k].len() > 0 && ls.contains(ps[k]) by {
            if k < pi.len() {
                assert(ps[k] == pi[k]);
                let i = choose|i: int| 0 <= i < init.len() && init[i] == pi[k];
                assert(ls[i] == init[i]);
            } else {
                assert(ls[last] == ps[k]);
            }
        }
        assert forall|i: int| 0 <= i < ls.len() && #[trigger] ls[i].len() > 0 implies ps.contains(ls[i]) by {
            if i < init.len() {
                assert(init[i] == ls[i]);
                assert(init[i].len() > 0);
                let k = choose|k: int| 0 <= k < pi.len() && pi[k] == init[i];
                if ls.last().len() > 0 {
                    assert(ps[k] == pi[k]);
                }
            } else {
                assert(ps[ps.len() - 1] == ls[i]);
            }
        }
    }
}

/// The paths `git diff --name-only` printed: its non-empty lines.
pub open spec fn listed_paths(out: Seq<char>) -> Seq<Seq<char>> {
    non_empty(lines(out))
}

/// The paths listed one per line in `out`.
pub fn parse_paths(out: &str) -> (r: Vec<String>)
    ensures
        r@.map_values(|s: String| s@) == listed_paths(out@),
{
    let chars = chars_of(out);
    let ls = split_lines(&chars);
    let mut r: Vec<String> = Vec::new();
    let mut i: usize = 0;
    while i < ls.len()
        invariant
            views(ls@) == lines(out@),
            i <= ls@.len(),
            r@.map_values(|s: String| s@) == non_empty(views(ls@).take(i as int)),
        decreases ls@.len() - i,
    {
        let ghost pre = views(ls@).take(i as int);
        assert(views(ls@).take(i + 1).drop_last() =~= pre);
        if ls[i].len() > 0 {
            let line = crate::text::string_from(ls[i].as_slice());
            r.push(line);
            assert(r@.map_values(|s: String| s@) =~= non_empty(pre).push(ls@[i as int]@));
        }
        i += 1;
    }
    assert(views(ls@).take(ls@.len() as int) =~= views(ls@));
    r
}

/// `<git_dir>/rebase-merge`: present while an interactive or merge-backed
/// rebase is in progress.
pub open spec fn rebase_merge_path(git_dir: Seq<char>) -> Seq<char> {
    join_path(git_dir, "rebase-merge"@)
}

/// `<git_dir>/rebase-apply`: present while an apply-backed rebase is in
/// progress.
pub open spec fn rebase_apply_path(git_dir: Seq<char>) -> Seq<char> {
    join_path(git_dir, "rebase-apply"@)
}

/// `<git_dir>/MERGE_HEAD`: present while a merge is in progress.
pub open spec fn merge_head_path(git_dir: Seq<char>) -> Seq<char> {
    join_path(git_dir, "MERGE_HEAD"@)
}

/// `base` joined with the relative path `part`.
pub fn joined_path(base: &str, part: &str) -> (r: String)
    ensures
        r@ == join_path(base@, part@),
{
    let dir = chars_of(base);
    let mut path = owned(base);
    if !(dir.len() == 0 || dir[dir.len() - 1] == '/') {
        push_str(&mut path, "/");
    }
    push_str(&mut path, part);
    path
}

/// The path whose presence shows a merge-backed rebase in progress.
pub fn rebase_merge_marker(repo: &Repository) -> (r: String)
    ensures
        r@ == rebase_merge_path(repo.git_dir@),
{
    joined_path(repo.git_dir.as_str(), "rebase-merge")
}

/// The path whose presence shows an apply-backed rebase in progress.
pub fn rebase_apply_marker(repo: &Repository) -> (r: String)
    ensures
        r@ == rebase_apply_path(repo.git_dir@),
{
    joined_path(repo.git_dir.as_str(), "rebase-apply")
}

/// The path whose presence shows a merge in progress.
pub fn merge_marker(repo: &Repository) -> (r: String)
    ensures
        r@ == merge_head_path(repo.git_dir@),
{
    joined_path(repo.git_dir.as_str(), "MERGE_HEAD")
}

/// `git status --porcelain=v2 --branch --untracked-files=normal`.
pub open spec fn status_view(dir: Seq<char>) -> GitCommandView {
    GitCommandView {
        args: seq!["status"@, "--porcelain=v2"@, "--branch"@, "--untracked-files=normal"@],
        cwd: Some(dir),
        env: seq![],
    }
}

/// The command whose output `WorkingTreeStatus::parse` reads.
pub fn status_command(repo: &Repository) -> (c: GitCommand)
    ensures
        c@ == status_view(repo.workdir@),
{
    let c = repo.git("status").arg("--porcelain=v2").arg("--branch").arg(
        "--untracked-files=normal",
    );
    assert(c@.args =~= status_view(repo.workdir@).args);
    c
}

/// `git status --porcelain=v1 -z --untracked-files=all`.
pub open spec fn changes_view(dir: Seq<char>) -> GitCommandView {
    GitCommandView {
        args: seq!["status"@, "--porcelain=v1"@, "-z"@, "--untracked-files=all"@],
        cwd: Some(dir),
        env: seq![],
    }
}

/// The command whose output `CommitPlan::from_porcelain` reads.
pub fn changes_command(repo: &Repository) -> (c: GitCommand)
    ensures
        c@ == changes_view(repo.workdir@),
{
    let c = repo.git("status").args(&["--porcelain=v1", "-z", "--untracked-files=all"]);
    proof {
        reveal_strlit("--porcelain=v1");
    }
    assert(c@.args =~= changes_view(repo.workdir@).args);
    c
}

/// The current branch as a reply to [`branch_command`] tells it: the branch
/// when the command succeeded, none on a detached HEAD.
pub open spec fn branch_outcome(dir: Seq<char>, reply: ReplyView) -> Result<Option<Seq<char>>, GitErrorView> {
    match run_outcome(branch_view(dir), reply) {
        Err(e) => Err(e),
        Ok(o) => Ok(
            if o.success {
                Some(o.stdout)
            } else {
                None
            },
        ),
    }
}

pub open spec fn opt_string_result_view(r: Result<Option<String>, GitError>) -> Result<Option<Seq<char>>, GitErrorView> {
    match r {
        Ok(Some(s)) => Ok(Some(s@)),
        Ok(None) => Ok(None),
        Err(e) => Err(e@),
    }
}

/// Read the reply to [`branch_command`].
pub fn current_branch_of(repo: &Repository, reply: Reply) -> (r: Result<Option<String>, GitError>)
    requires
        git_reply(reply@),
    ensures
        opt_string_result_view(r) == branch_outcome(repo.workdir@, reply@),
{
    let c = branch_command(repo);
    match run_of(&c, reply) {
        Err(e) => Err(e),
        Ok(o) => Ok(
            if o.success {
                Some(o.stdout)
            } else {
                None
            },
        ),
    }
}

/// The conflicted paths as a reply to [`conflicted_command`] lists them.
pub open spec fn conflicted_outcome(dir: Seq<char>, reply: ReplyView) -> Result<Seq<Seq<char>>, GitErrorView> {
    match output_outcome(conflicted_view(dir), reply) {
        Err(e) => Err(e),
        Ok(out) => Ok(listed_paths(out)),
    }
}

pub open spec fn paths_result_view(r: Result<Vec<String>, GitError>) -> Result<Seq<Seq<char>>, GitErrorView> {
    match r {
        Ok(v) => Ok(v@.map_values(|s: String| s@)),
        Err(e) => Err(e@),
    }
}

/// Read the reply to [`conflicted_command`].
pub fn conflicted_of(repo: &Repository, reply: Reply) -> (r: Result<Vec<String>, GitError>)
    requires
        git_reply(reply@),
    ensures
        paths_result_view(r) == conflicted_outcome(repo.workdir@, reply@),
{
    let c = conflicted_command(repo);
    match output_of(&c, reply) {
        Err(e) => Err(e),
        Ok(out) => Ok(parse_paths(out.as_str())),
    }
}

/// `git rev-parse --verify --quiet <rev>`: succeeds exactly when `rev`
/// names an object.
pub open spec fn verify_view(dir: Seq<char>, rev: Seq<char>) -> GitCommandView {
    GitCommandView {
        args: seq!["rev-parse"@, "--verify"@, "--quiet"@, rev],
        cwd: Some(dir),
        env: seq![],
    }
}

/// The command that succeeds exactly when `rev` names an object.
pub fn verify_command(repo: &Repository, rev: &str) -> (c: GitCommand)
    ensures
        c@ == verify_view(repo.workdir@, rev@),
{
    let c = repo.git("rev-parse").arg("--verify").arg("--quiet").arg(rev);
    assert(c@.args =~= verify_view(repo.workdir@, rev@).args);
    c
}

/// `git reset --keep <head>`: moves the branch back to `head`, keeping
/// local changes; Git refuses (and changes nothing) when a local change is
/// in a file that differs between HEAD and `head`.
pub open spec fn keep_reset_view(dir: Seq<char>, head: Seq<char>) -> GitCommandView {
    GitCommandView { args: seq!["reset"@, "--keep"@, head], cwd: Some(dir), env: seq![] }
}

/// The command that moves the branch back to `head` without discarding
/// local changes.
pub fn keep_reset_command(repo: &Repository, head: &str) -> (c: GitCommand)
    ensures
        c@ == keep_reset_view(repo.workdir@, head@),
{
    let c = repo.git("reset").arg("--keep").arg(head);
    assert(c@.args =~= keep_reset_view(repo.workdir@, head@).args);
    c
}

/// `git reset --hard <head>`.
pub open spec fn reset_view(dir: Seq<char>, head: Seq<char>) -> GitCommandView {
    GitCommandView { args: seq!["reset"@, "--hard"@, head], cwd: Some(dir), env: seq![] }
}

/// The command that resets the branch, index and working tree to `head`.
pub fn reset_command(repo: &Repository, head: &str) -> (c: GitCommand)
    ensures
        c@ == reset_view(repo.workdir@, head@),
{
    let c = repo.git("reset").arg("--hard").arg(head);
    assert(c@.args =~= reset_view(repo.workdir@, head@).args);
    c
}

/// `git checkout <branch>`.
pub open spec fn checkout_view(dir: Seq<char>, branch: Seq<char>) -> GitCommandView {
    GitCommandView { args: seq!["checkout"@, branch], cwd: Some(dir), env: seq![] }
}

/// The command that checks out `branch`.
pub fn checkout_command(repo: &Repository, branch: &str) -> (c: GitCommand)
    ensures
        c@ == checkout_view(repo.workdir@, branch@),
{
    let c = repo.git("checkout").arg(branch);
    assert(c@.args =~= checkout_view(repo.workdir@, branch@).args);
    c
}

/// `git <operation> --abort`, for `rebase` or `merge`.
pub open spec fn abort_view(dir: Seq<char>, operation: Seq<char>) -> GitCommandView {
    GitCommandView { args: seq![operation, "--abort"@], cwd: Some(dir), env: seq![] }
}

/// The command that abandons the in-progress `operation`.
pub fn abort_command(repo: &Repository, operation: &str) -> (c: GitCommand)
    ensures
        c@ == abort_view(repo.workdir@, operation@),
{
    let c = GitCommand::new(operation).in_dir(repo.workdir.as_str()).arg("--abort");
    assert(c@.args =~= abort_view(repo.workdir@, operation@).args);
    c
}

} // verus!
