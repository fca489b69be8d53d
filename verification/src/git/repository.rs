//! The repository Smoothee works in.
//!
//! Locating the repository (`git rev-parse --show-toplevel` and
//! `--absolute-git-dir`) is the binary's job; the library keeps the two paths
//! and builds every command already scoped to the working directory.
use vstd::prelude::*;

use crate::git::command::{GitCommand, GitCommandView};
use crate::exchange::{git_reply, output_of, output_outcome, GitErrorView, Reply, ReplyView, Request, RequestView, Step};
use crate::git::command::GitError;
use crate::text::{char_sep, chars_of, is_text, owned, split_on, string_from, tokens, views};

verus! {

/// A discovered Git repository rooted at [`Repository::workdir`].
#[derive(Debug, Clone)]
pub struct Repository {
    /// The top-level working directory of the repository.
    pub workdir: String,
    /// The `.git` directory (or file, for worktrees/submodules).
    pub git_dir: String,
}

impl Repository {
    /// The repository whose top-level working directory and `.git` directory
    /// Git reported.
    pub fn new(workdir: &str, git_dir: &str) -> (r: Self)
        ensures
            r.workdir@ == workdir@,
            r.git_dir@ == git_dir@,
    {
        Repository { workdir: owned(workdir), git_dir: owned(git_dir) }
    }

    /// The repository's top-level working directory.
    pub fn workdir(&self) -> (r: &str)
        ensures
            r@ == self.workdir@,
    {
        self.workdir.as_str()
    }

    /// The repository's `.git` directory.
    pub fn git_dir(&self) -> (r: &str)
        ensures
            r@ == self.git_dir@,
    {
        self.git_dir.as_str()
    }

    /// Build a [`GitCommand`] already scoped to this repository's working dir.
    pub fn git(&self, subcommand: &str) -> (r: GitCommand)
        ensures
            r@ == (GitCommandView {
                args: seq![subcommand@],
                cwd: Some(self.workdir@),
                env: seq![],
            }),
    {
        GitCommand::new(subcommand).in_dir(self.workdir.as_str())
    }
}

/// The last path component that names something: `.` components are
/// skipped, and a path ending in `..` has none.
pub open spec fn last_component(ts: Seq<Seq<char>>) -> Option<Seq<char>>
    decreases ts.len(),
{
    if ts.len() == 0 {
        None
    } else if ts.last() == "."@ {
        last_component(ts.drop_last())
    } else if ts.last() == ".."@ {
        None
    } else {
        Some(ts.last())
    }
}

/// The name a repository goes by: the final component of its working
/// directory (as `Path::file_name` gives it), or the whole path when it has
/// none.
pub open spec fn repo_name(workdir: Seq<char>) -> Seq<char> {
    match last_component(tokens(workdir, char_sep('/'))) {
        Some(n) => n,
        None => workdir,
    }
}

impl Repository {
    /// The repository's name, for display.
    pub fn name(&self) -> (r: String)
        ensures
            r@ == repo_name(self.workdir@),
    {
        let chars = chars_of(self.workdir.as_str());
        let parts = split_on(chars.as_slice(), '/');
        let ghost ts = views(parts@);
        let mut k = parts.len();
        assert(ts.take(ts.len() as int) =~= ts);
        while k > 0
            invariant
                ts == views(parts@),
                ts == tokens(self.workdir@, char_sep('/')),
                k <= ts.len(),
                last_component(ts) == last_component(ts.take(k as int)),
            decreases k,
        {
            let part = &parts[k - 1];
            assert(ts.take(k as int).last() == part@);
            assert(ts.take(k as int).drop_last() =~= ts.take(k - 1));
            if is_text(part.as_slice(), ".") {
                k -= 1;
            } else if is_text(part.as_slice(), "..") {
                return owned(self.workdir.as_str());
            } else {
                return string_from(part.as_slice());
            }
        }
        assert(ts.take(0) =~= Seq::<Seq<char>>::empty());
        owned(self.workdir.as_str())
    }
}

/// `git rev-parse --show-toplevel`, run in `start`.
pub open spec fn toplevel_view(start: Seq<char>) -> GitCommandView {
    GitCommandView { args: seq!["rev-parse"@, "--show-toplevel"@], cwd: Some(start), env: seq![] }
}

/// `git rev-parse --absolute-git-dir`, run in `start`.
pub open spec fn git_dir_view(start: Seq<char>) -> GitCommandView {
    GitCommandView { args: seq!["rev-parse"@, "--absolute-git-dir"@], cwd: Some(start), env: seq![] }
}

fn toplevel_command(start: &str) -> (c: GitCommand)
    ensures
        c@ == toplevel_view(start@),
{
    let c = GitCommand::new("rev-parse").arg("--show-toplevel").in_dir(start);
    assert(c@.args =~= toplevel_view(start@).args);
    c
}

fn git_dir_command(start: &str) -> (c: GitCommand)
    ensures
        c@ == git_dir_view(start@),
{
    let c = GitCommand::new("rev-parse").arg("--absolute-git-dir").in_dir(start);
    assert(c@.args =~= git_dir_view(start@).args);
    c
}

/// Where discovery stands: waiting for the top-level directory, then for
/// the `.git` directory (knowing the top level).
#[derive(Debug)]
pub enum DiscoverStage {
    Toplevel,
    GitDir(String),
    Finished,
}

/// Discovering the repository that contains a directory.
#[derive(Debug)]
pub struct Discovery {
    pub start: String,
    pub stage: DiscoverStage,
}

impl Discovery {
    /// Go on with the reply to the last question: the top level, then the
    /// `.git` directory, as `git rev-parse` prints them in the start
    /// directory; a failure of either is the error.
    pub fn resume(&mut self, reply: Reply) -> (r: Step<Result<Repository, GitError>>)
        requires
            !(old(self).stage is Finished),
            git_reply(reply@),
        ensures
            final(self).start == old(self).start,
            match old(self).stage {
                DiscoverStage::Toplevel => match output_outcome(toplevel_view(old(self).start@), reply@) {
                    Err(e) => r matches Step::Done(Err(x)) && x@ == e,
                    Ok(w) => {
                        &&& final(self).stage matches DiscoverStage::GitDir(d) && d@ == w
                        &&& r matches Step::Ask(q) && q@ == RequestView::Git(git_dir_view(old(self).start@))
                    },
                },
                DiscoverStage::GitDir(w) => match output_outcome(git_dir_view(old(self).start@), reply@) {
                    Err(e) => r matches Step::Done(Err(x)) && x@ == e,
                    Ok(g) => r matches Step::Done(Ok(repo)) && repo.workdir@ == w@ && repo.git_dir@ == g,
                },
                DiscoverStage::Finished => true,
            },
    {
        let mut stage = DiscoverStage::Finished;
        std::mem::swap(&mut stage, &mut self.stage);
        match stage {
            DiscoverStage::Toplevel => {
                let asked = toplevel_command(self.start.as_str());
                match output_of(&asked, reply) {
                    Err(e) => Step::Done(Err(e)),
                    Ok(w) => {
                        self.stage = DiscoverStage::GitDir(w);
                        Step::Ask(Request::Git(git_dir_command(self.start.as_str())))
                    },
                }
            },
            DiscoverStage::GitDir(w) => {
                let asked = git_dir_command(self.start.as_str());
                match output_of(&asked, reply) {
                    Err(e) => Step::Done(Err(e)),
                    Ok(g) => Step::Done(Ok(Repository { workdir: w, git_dir: g })),
                }
            },
            DiscoverStage::Finished => Step::Done(Err(GitError::NotUtf8 { command: String::new() })),
        }
    }
}

impl Repository {
    /// Discover the repository containing `start`: first ask Git for its
    /// top-level directory.
    pub fn discover(start: &str) -> (r: (Discovery, Step<Result<Repository, GitError>>))
        ensures
            r.0.start@ == start@,
            r.0.stage is Toplevel,
            r.1 matches Step::Ask(q) && q@ == RequestView::Git(toplevel_view(start@)),
    {
        let c = toplevel_command(start);
        (Discovery { start: owned(start), stage: DiscoverStage::Toplevel }, Step::Ask(Request::Git(c)))
    }
}

} // verus!
