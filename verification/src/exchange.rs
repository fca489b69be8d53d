//! The exchange between an engine and the binary that drives it.
//!
//! Smoothee's engines decide; they never touch the repository or the disk
//! themselves. Each engine hands out one [`Request`] at a time and is resumed
//! with the [`Reply`] the binary got by carrying it out, until it is
//! [`Step::Done`]. What each request means is fixed here, as is how a reply
//! to a `git` request reads as the outcome `GitCommand::output`,
//! `GitCommand::run` or `GitCommand::succeeds` would report.
use vstd::prelude::*;

use crate::git::command::{render_command, GitCommand, GitCommandView, GitError, GitOutput};
use crate::operations::journal::{record_views, OperationRecord, RecordView};
use crate::text::{decimal, opt_view, owned, push_decimal, push_str};

verus! {

/// Something an engine needs done outside the library.
#[derive(Debug)]
pub enum Request {
    /// Run this `git` command; answered by [`Reply::Ran`] or
    /// [`Reply::SpawnFailed`].
    Git(GitCommand),
    /// Whether this path exists; answered by [`Reply::Exists`].
    Exists(String),
    /// Read the file at this path as UTF-8 text; answered by [`Reply::Text`].
    Read(String),
    /// Append the record, as one line, to the journal file at the path;
    /// answered by [`Reply::Appended`] or [`Reply::JournalFailed`].
    Append(String, OperationRecord),
    /// Read every record of the journal file at the path; answered by
    /// [`Reply::Records`] or [`Reply::JournalFailed`].
    ReadJournal(String),
}

/// What carrying out a [`Request`] gave.
#[derive(Debug)]
pub enum Reply {
    /// `git` ran: its output (stdout without trailing newlines, stderr
    /// without trailing whitespace) and whether stdout was valid UTF-8.
    Ran(GitOutput, bool),
    /// `git` could not be launched; the reason.
    SpawnFailed(String),
    /// Whether the path exists.
    Exists(bool),
    /// The file's text, or why it could not be read as UTF-8 text.
    Text(Result<String, String>),
    /// The record was appended.
    Appended,
    /// The journal's records, oldest first.
    Records(Vec<OperationRecord>),
    /// The journal could not be written or read; the reason.
    JournalFailed(String),
}

/// Either the next request, or the engine's result.
#[derive(Debug)]
pub enum Step<T> {
    Ask(Request),
    Done(T),
}

/// The mathematical content of a [`Request`].
pub enum RequestView {
    Git(GitCommandView),
    Exists(Seq<char>),
    Read(Seq<char>),
    Append(Seq<char>, RecordView),
    ReadJournal(Seq<char>),
}

impl View for Request {
    type V = RequestView;

    open spec fn view(&self) -> RequestView {
        match self {
            Request::Git(c) => RequestView::Git(c@),
            Request::Exists(p) => RequestView::Exists(p@),
            Request::Read(p) => RequestView::Read(p@),
            Request::Append(j, r) => RequestView::Append(j@, r@),
            Request::ReadJournal(j) => RequestView::ReadJournal(j@),
        }
    }
}

/// The mathematical content of a [`GitOutput`].
pub struct OutputView {
    pub success: bool,
    pub code: i32,
    pub stdout: Seq<char>,
    pub stderr: Seq<char>,
}

pub open spec fn output_view(o: GitOutput) -> OutputView {
    OutputView { success: o.success, code: o.code, stdout: o.stdout@, stderr: o.stderr@ }
}

/// The mathematical content of a [`Reply`].
pub enum ReplyView {
    Ran(OutputView, bool),
    SpawnFailed(Seq<char>),
    Exists(bool),
    Text(Result<Seq<char>, Seq<char>>),
    Appended,
    Records(Seq<RecordView>),
    JournalFailed(Seq<char>),
}

impl View for Reply {
    type V = ReplyView;

    open spec fn view(&self) -> ReplyView {
        match self {
            Reply::Ran(o, u) => ReplyView::Ran(output_view(*o), *u),
            Reply::SpawnFailed(m) => ReplyView::SpawnFailed(m@),
            Reply::Exists(b) => ReplyView::Exists(*b),
            Reply::Text(t) => ReplyView::Text(
                match t {
                    Ok(s) => Ok(s@),
                    Err(e) => Err(e@),
                },
            ),
            Reply::Appended => ReplyView::Appended,
            Reply::Records(v) => ReplyView::Records(record_views(v@)),
            Reply::JournalFailed(m) => ReplyView::JournalFailed(m@),
        }
    }
}

/// The replies a `git` request can get.
pub open spec fn git_reply(r: ReplyView) -> bool {
    r is Ran || r is SpawnFailed
}

/// The replies a journal append can get.
pub open spec fn append_reply(r: ReplyView) -> bool {
    r is Appended || r is JournalFailed
}

/// Whether `reply` is a reply of the kind `request` asks for.
pub open spec fn fits(request: RequestView, reply: ReplyView) -> bool {
    match request {
        RequestView::Git(_) => git_reply(reply),
        RequestView::Exists(_) => reply is Exists,
        RequestView::Read(_) => reply is Text,
        RequestView::Append(_, _) => append_reply(reply),
        RequestView::ReadJournal(_) => reply is Records || reply is JournalFailed,
    }
}

/// Whether `reply` is a reply of the kind `request` asks for.
pub fn reply_fits(request: &Request, reply: &Reply) -> (r: bool)
    ensures
        r == fits(request@, reply@),
{
    match request {
        Request::Git(_) => matches!(reply, Reply::Ran(_, _)) || matches!(reply, Reply::SpawnFailed(_)),
        Request::Exists(_) => matches!(reply, Reply::Exists(_)),
        Request::Read(_) => matches!(reply, Reply::Text(_)),
        Request::Append(_, _) => matches!(reply, Reply::Appended) || matches!(
            reply,
            Reply::JournalFailed(_)
        ),
        Request::ReadJournal(_) => matches!(reply, Reply::Records(_)) || matches!(
            reply,
            Reply::JournalFailed(_)
        ),
    }
}

/// The mathematical content of a [`GitError`].
pub enum GitErrorView {
    Spawn { command: Seq<char>, message: Seq<char> },
    Failed { command: Seq<char>, code: i32, stderr: Seq<char> },
    NotUtf8 { command: Seq<char> },
}

impl View for GitError {
    type V = GitErrorView;

    open spec fn view(&self) -> GitErrorView {
        match self {
            GitError::Spawn { command, message } => GitErrorView::Spawn {
                command: command@,
                message: message@,
            },
            GitError::Failed { command, code, stderr } => GitErrorView::Failed {
                command: command@,
                code: *code,
                stderr: stderr@,
            },
            GitError::NotUtf8 { command } => GitErrorView::NotUtf8 { command: command@ },
        }
    }
}

/// The decimal form of a signed integer, with `-` before a negative one.
pub open spec fn signed_decimal(i: int) -> Seq<char> {
    if i < 0 {
        "-"@ + decimal((-i) as nat)
    } else {
        decimal(i as nat)
    }
}

/// How a `git` failure reads.
pub open spec fn git_error_text(e: GitErrorView) -> Seq<char> {
    match e {
        GitErrorView::Spawn { command, message } => "failed to run `"@ + command + "`: "@ + message,
        GitErrorView::Failed { command, code, stderr } => "`"@ + command + "` exited with status "@
            + signed_decimal(code as int) + "\n"@ + stderr,
        GitErrorView::NotUtf8 { command } => "`"@ + command + "` produced non-UTF-8 output"@,
    }
}

fn push_signed(s: &mut String, i: i32)
    ensures
        final(s)@ == old(s)@ + signed_decimal(i as int),
{
    if i < 0 {
        push_str(s, "-");
        let m: u64 = (-(i as i64)) as u64;
        push_decimal(s, m);
        assert(old(s)@ + "-"@ + decimal(m as nat) =~= old(s)@ + signed_decimal(i as int));
    } else {
        push_decimal(s, i as u64);
    }
}

impl GitError {
    /// The message shown for the error.
    pub fn message(&self) -> (r: String)
        ensures
            r@ == git_error_text(self@),
    {
        match self {
            GitError::Spawn { command, message } => {
                let mut s = owned("failed to run `");
                push_str(&mut s, command.as_str());
                push_str(&mut s, "`: ");
                push_str(&mut s, message.as_str());
                s
            },
            GitError::Failed { command, code, stderr } => {
                let mut s = owned("`");
                push_str(&mut s, command.as_str());
                push_str(&mut s, "` exited with status ");
                push_signed(&mut s, *code);
                push_str(&mut s, "\n");
                push_str(&mut s, stderr.as_str());
                s
            },
            GitError::NotUtf8 { command } => {
                let mut s = owned("`");
                push_str(&mut s, command.as_str());
                push_str(&mut s, "` produced non-UTF-8 output");
                s
            },
        }
    }
}

/// How a command is shown in errors: `git` and its rendered arguments.
pub open spec fn shown(c: GitCommandView) -> Seq<char> {
    render_command("git"@, c.args)
}

/// The outcome `GitCommand::output` reports for `c` given how running it
/// went: its stdout when it exited zero with UTF-8 output; a `Failed` error
/// with the exit code and stderr when it exited non-zero; `NotUtf8` when its
/// output was not UTF-8; `Spawn` when it could not be launched.
pub open spec fn output_outcome(c: GitCommandView, reply: ReplyView) -> Result<Seq<char>, GitErrorView> {
    match reply {
        ReplyView::Ran(o, utf8) => if !o.success {
            Err(GitErrorView::Failed { command: shown(c), code: o.code, stderr: o.stderr })
        } else if !utf8 {
            Err(GitErrorView::NotUtf8 { command: shown(c) })
        } else {
            Ok(o.stdout)
        },
        ReplyView::SpawnFailed(m) => Err(GitErrorView::Spawn { command: shown(c), message: m }),
        _ => Err(GitErrorView::Spawn { command: shown(c), message: seq![] }),
    }
}

/// The outcome `GitCommand::run` reports: the output whatever the exit
/// status, or `Spawn` when it could not be launched.
pub open spec fn run_outcome(c: GitCommandView, reply: ReplyView) -> Result<OutputView, GitErrorView> {
    match reply {
        ReplyView::Ran(o, _) => Ok(o),
        ReplyView::SpawnFailed(m) => Err(GitErrorView::Spawn { command: shown(c), message: m }),
        _ => Err(GitErrorView::Spawn { command: shown(c), message: seq![] }),
    }
}

/// The outcome `GitCommand::succeeds` reports: whether it exited zero, or
/// `Spawn` when it could not be launched.
pub open spec fn succeeds_outcome(c: GitCommandView, reply: ReplyView) -> Result<bool, GitErrorView> {
    match reply {
        ReplyView::Ran(o, _) => Ok(o.success),
        ReplyView::SpawnFailed(m) => Err(GitErrorView::Spawn { command: shown(c), message: m }),
        _ => Err(GitErrorView::Spawn { command: shown(c), message: seq![] }),
    }
}

pub open spec fn string_result_view(r: Result<String, GitError>) -> Result<Seq<char>, GitErrorView> {
    match r {
        Ok(s) => Ok(s@),
        Err(e) => Err(e@),
    }
}

/// Read a reply to `command` as `GitCommand::output` does.
pub fn output_of(command: &GitCommand, reply: Reply) -> (r: Result<String, GitError>)
    requires
        git_reply(reply@),
    ensures
        string_result_view(r) == output_outcome(command@, reply@),
{
    match reply {
        Reply::Ran(o, utf8) => if !o.success {
            Err(GitError::Failed { command: command.display(), code: o.code, stderr: o.stderr })
        } else if !utf8 {
            Err(GitError::NotUtf8 { command: command.display() })
        } else {
            Ok(o.stdout)
        },
        Reply::SpawnFailed(m) => Err(GitError::Spawn { command: command.display(), message: m }),
        _ => Err(GitError::Spawn { command: command.display(), message: String::new() }),
    }
}

pub open spec fn run_result_view(r: Result<GitOutput, GitError>) -> Result<OutputView, GitErrorView> {
    match r {
        Ok(o) => Ok(output_view(o)),
        Err(e) => Err(e@),
    }
}

/// Read a reply to `command` as `GitCommand::run` does.
pub fn run_of(command: &GitCommand, reply: Reply) -> (r: Result<GitOutput, GitError>)
    requires
        git_reply(reply@),
    ensures
        run_result_view(r) == run_outcome(command@, reply@),
{
    match reply {
        Reply::Ran(o, _) => Ok(o),
        Reply::SpawnFailed(m) => Err(GitError::Spawn { command: command.display(), message: m }),
        _ => Err(GitError::Spawn { command: command.display(), message: String::new() }),
    }
}

pub open spec fn bool_result_view(r: Result<bool, GitError>) -> Result<bool, GitErrorView> {
    match r {
        Ok(b) => Ok(b),
        Err(e) => Err(e@),
    }
}

/// Read a reply to `command` as `GitCommand::succeeds` does.
pub fn succeeds_of(command: &GitCommand, reply: Reply) -> (r: Result<bool, GitError>)
    requires
        git_reply(reply@),
    ensures
        bool_result_view(r) == succeeds_outcome(command@, reply@),
{
    match reply {
        Reply::Ran(o, _) => Ok(o.success),
        Reply::SpawnFailed(m) => Err(GitError::Spawn { command: command.display(), message: m }),
        _ => Err(GitError::Spawn { command: command.display(), message: String::new() }),
    }
}

} // verus!
