//! Structured descriptions of `git` invocations.
//!
//! Smoothee never reimplements Git. Every invocation is described here as a
//! [`GitCommand`] value, which the binary executes; this module is the single
//! choke point that keeps two design invariants enforceable in one place:
//!
//! * **Preserve access to Git.** Every command is rendered as a human-readable
//!   string ([`GitCommand::display`]) so the UI can show users exactly what ran.
//! * **Deterministic boundary.** Only deterministic code paths construct
//!   [`GitCommand`]s.
use vstd::prelude::*;

use crate::text::{chars_of, contains_ws, is_ws, push_str};

verus! {

/// Errors that can arise while invoking `git`.
#[derive(Debug, Clone, PartialEq, Eq)]
pub enum GitError {
    /// The `git` binary could not be launched (e.g. not installed).
    Spawn { command: String, message: String },
    /// `git` ran but exited with a non-zero status.
    Failed { command: String, code: i32, stderr: String },
    /// Output that was expected to be UTF-8 was not.
    NotUtf8 { command: String },
}

/// The captured outcome of running a command whose non-zero exit the caller
/// wants to inspect rather than treat as an error.
#[derive(Debug, Clone, PartialEq, Eq)]
pub struct GitOutput {
    /// Whether the process exited with status zero.
    pub success: bool,
    /// The exit code (`-1` if the process was terminated by a signal).
    pub code: i32,
    /// Captured stdout, trailing newlines trimmed.
    pub stdout: String,
    /// Captured stderr, trailing whitespace trimmed.
    pub stderr: String,
}

/// A fully-formed `git` invocation, ready to run and cheap to describe.
///
/// Construct with [`GitCommand::new`] and chain [`GitCommand::arg`] /
/// [`GitCommand::args`]. The command remembers the working directory so callers
/// can build it once and both run and display it.
#[derive(Debug, Clone)]
pub struct GitCommand {
    pub args: Vec<String>,
    pub cwd: Option<String>,
    pub env: Vec<(String, String)>,
}

/// The mathematical content of a [`GitCommand`].
pub struct GitCommandView {
    pub args: Seq<Seq<char>>,
    pub cwd: Option<Seq<char>>,
    pub env: Seq<(Seq<char>, Seq<char>)>,
}

impl View for GitCommand {
    type V = GitCommandView;

    open spec fn view(&self) -> GitCommandView {
        GitCommandView {
            args: self.args@.map_values(|a: String| a@),
            cwd: match self.cwd {
                Some(d) => Some(d@),
                None => None,
            },
            env: self.env@.map_values(|p: (String, String)| (p.0@, p.1@)),
        }
    }
}

/// How one argument is shown: as is, or in double quotes when it is empty or
/// holds whitespace, so the rendering reads like a shell command.
pub open spec fn render_arg(a: Seq<char>) -> Seq<char> {
    if a.len() == 0 || exists|j: int| 0 <= j < a.len() && is_ws(#[trigger] a[j]) {
        seq!['"'] + a + seq!['"']
    } else {
        a
    }
}

/// `program` followed by each rendered argument, separated by single spaces.
pub open spec fn render_command(program: Seq<char>, args: Seq<Seq<char>>) -> Seq<char>
    decreases args.len(),
{
    if args.len() == 0 {
        program
    } else {
        render_command(program, args.drop_last()) + seq![' '] + render_arg(args.last())
    }
}

/// Appends `program` and its rendered arguments to `out`.
pub fn push_command_line(out: &mut String, program: &str, args: &Vec<String>)
    ensures
        final(out)@ == old(out)@ + render_command(program@, args@.map_values(|a: String| a@)),
{
    let ghost views = args@.map_values(|a: String| a@);
    push_str(out, program);
    let mut i: usize = 0;
    assert(views.take(0) =~= Seq::<Seq<char>>::empty());
    while i < args.len()
        invariant
            views == args@.map_values(|a: String| a@),
            i <= args@.len(),
            out@ == old(out)@ + render_command(program@, views.take(i as int)),
        decreases args@.len() - i,
    {
        let a = &args[i];
        let ghost before = out@;
        push_str(out, " ");
        let chars = chars_of(a.as_str());
        proof {
            reveal_strlit(" ");
            reveal_strlit("\"");
        }
        if chars.len() == 0 || contains_ws(chars.as_slice()) {
            push_str(out, "\"");
            push_str(out, a.as_str());
            push_str(out, "\"");
        } else {
            push_str(out, a.as_str());
        }
        proof {
            let t = views.take(i + 1);
            assert(t.drop_last() =~= views.take(i as int));
            assert(t.last() == a@);
            assert(out@ =~= before + seq![' '] + render_arg(a@));
        }
        i += 1;
    }
    assert(views.take(args@.len() as int) =~= views);
}

impl GitCommand {
    /// Start a new `git <subcommand>` invocation.
    pub fn new(subcommand: &str) -> (r: Self)
        ensures
            r@ == (GitCommandView { args: seq![subcommand@], cwd: None, env: seq![] }),
    {
        let mut args: Vec<String> = Vec::new();
        args.push(subcommand.to_owned());
        let env: Vec<(String, String)> = Vec::new();
        let r = GitCommand { args, cwd: None, env };
        assert(r@.args =~= seq![subcommand@]);
        assert(r@.env =~= seq![]);
        r
    }

    /// Append a single argument.
    pub fn arg(self, arg: &str) -> (r: Self)
        ensures
            r@ == (GitCommandView { args: self@.args.push(arg@), ..self@ }),
    {
        let mut args = self.args;
        let ghost old_args = args@;
        args.push(arg.to_owned());
        let r = GitCommand { args, cwd: self.cwd, env: self.env };
        assert(r@.args =~= old_args.map_values(|a: String| a@).push(arg@));
        r
    }

    /// Append multiple arguments.
    pub fn args(self, more: &[&str]) -> (r: Self)
        ensures
            r@ == (GitCommandView {
                args: self@.args + more@.map_values(|a: &str| a@),
                ..self@
            }),
    {
        let mut r = self;
        let mut i: usize = 0;
        while i < more.len()
            invariant
                i <= more@.len(),
                r@ == (GitCommandView {
                    args: self@.args + more@.take(i as int).map_values(|a: &str| a@),
                    ..self@
                }),
            decreases more@.len() - i,
        {
            r = r.arg(more[i]);
            assert(more@.take(i + 1).map_values(|a: &str| a@) =~= more@.take(i as int).map_values(
                |a: &str| a@,
            ).push(more@[i as int]@));
            assert(self@.args + more@.take(i + 1).map_values(|a: &str| a@) =~= (self@.args
                + more@.take(i as int).map_values(|a: &str| a@)).push(more@[i as int]@));
            i += 1;
        }
        assert(more@.take(more@.len() as int) =~= more@);
        r
    }

    /// Run the command inside `dir` rather than the current directory.
    pub fn in_dir(self, dir: &str) -> (r: Self)
        ensures
            r@ == (GitCommandView { cwd: Some(dir@), ..self@ }),
    {
        GitCommand { args: self.args, cwd: Some(dir.to_owned()), env: self.env }
    }

    /// Set an environment variable for the command.
    pub fn env(self, key: &str, value: &str) -> (r: Self)
        ensures
            r@ == (GitCommandView { env: self@.env.push((key@, value@)), ..self@ }),
    {
        let mut env = self.env;
        let ghost old_env = env@;
        env.push((key.to_owned(), value.to_owned()));
        let r = GitCommand { args: self.args, cwd: self.cwd, env };
        assert(r@.env =~= old_env.map_values(|p: (String, String)| (p.0@, p.1@)).push(
            (key@, value@),
        ));
        r
    }

    /// Render the command the way a user would type it, for display and for
    /// the "Running:" transparency output Smoothee shows before mutating a repo.
    pub fn display(&self) -> (r: String)
        ensures
            r@ == render_command("git"@, self@.args),
    {
        let mut out = String::new();
        push_command_line(&mut out, "git", &self.args);
        assert(out@ =~= render_command("git"@, self@.args));
        out
    }
}

} // verus!
