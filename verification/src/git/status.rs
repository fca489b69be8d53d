//! Parsing of `git status --porcelain=v2 --branch` into structured state.
//!
//! Porcelain v2 is a stable, machine-readable format designed exactly for this
//! purpose, so Smoothee parses it rather than the human-facing `git status`.
//! See `git-status(1)` "Porcelain Format Version 2" for the grammar.
use vstd::prelude::*;

use crate::exchange::{git_reply, output_of, output_outcome, GitErrorView, Reply, ReplyView};
use crate::git::command::{GitCommand, GitError};
use crate::git::repository::Repository;
use crate::git::state::{status_command, status_view};
use crate::text::{
    begins_with, chars_of, decimal, decimal_parses_back, has_prefix, is_text, is_ws,
    lemma_decimal_reads_back, lemma_single_word, lemma_word_then, lemma_words_nonempty, lines,
    opt_view, parse_u32, parse_u32_chars, split_lines, split_whitespace, string_from, sub_chars,
    views, words,
};

verus! {

/// The upstream tracking relationship for the current branch.
#[derive(Debug, Clone, PartialEq, Eq)]
pub struct AheadBehind {
    /// Commits the local branch has that the upstream does not.
    pub ahead: u32,
    /// Commits the upstream has that the local branch does not.
    pub behind: u32,
}

/// A structured snapshot of `git status`.
#[derive(Debug, Clone, PartialEq, Eq)]
pub struct WorkingTreeStatus {
    /// Current branch name, or `None` when in detached HEAD.
    pub branch: Option<String>,
    /// Configured upstream branch (e.g. `origin/feature/login`), if any.
    pub upstream: Option<String>,
    /// Ahead/behind counts versus the upstream, if an upstream is set.
    pub ahead_behind: Option<AheadBehind>,
    /// Files with staged (index) changes.
    pub staged: u32,
    /// Tracked files with unstaged worktree changes.
    pub modified: u32,
    /// Files with unresolved merge conflicts.
    pub conflicted: u32,
    /// Untracked files.
    pub untracked: u32,
    /// Whether the repository has no commits yet (unborn HEAD).
    pub is_initial: bool,
}

/// The mathematical content of a [`WorkingTreeStatus`].
pub struct StatusView {
    pub branch: Option<Seq<char>>,
    pub upstream: Option<Seq<char>>,
    /// `(ahead, behind)`.
    pub ahead_behind: Option<(u32, u32)>,
    pub staged: nat,
    pub modified: nat,
    pub conflicted: nat,
    pub untracked: nat,
    pub is_initial: bool,
}

impl View for WorkingTreeStatus {
    type V = StatusView;

    open spec fn view(&self) -> StatusView {
        StatusView {
            branch: opt_view(self.branch),
            upstream: opt_view(self.upstream),
            ahead_behind: match self.ahead_behind {
                Some(ab) => Some((ab.ahead, ab.behind)),
                None => None,
            },
            staged: self.staged as nat,
            modified: self.modified as nat,
            conflicted: self.conflicted as nat,
            untracked: self.untracked as nat,
            is_initial: self.is_initial,
        }
    }
}

/// The status of a repository about which nothing has been reported.
pub open spec fn empty_status() -> StatusView {
    StatusView {
        branch: None,
        upstream: None,
        ahead_behind: None,
        staged: 0,
        modified: 0,
        conflicted: 0,
        untracked: 0,
        is_initial: false,
    }
}

impl Default for WorkingTreeStatus {
    fn default() -> (s: Self)
        ensures
            s@ == empty_status(),
    {
        WorkingTreeStatus {
            branch: None,
            upstream: None,
            ahead_behind: None,
            staged: 0,
            modified: 0,
            conflicted: 0,
            untracked: 0,
            is_initial: false,
        }
    }
}

/// The count read from a `branch.ab` field: the text after `sign`, parsed as
/// a `u32`, or 0 when the field is missing, unsigned, or not a number.
pub open spec fn ab_count(fields: Seq<Seq<char>>, i: int, sign: char) -> u32 {
    if i < fields.len() && fields[i].len() > 0 && fields[i][0] == sign {
        match parse_u32(fields[i].drop_first()) {
            Some(n) => n,
            None => 0,
        }
    } else {
        0
    }
}

/// The effect of one `# <header>` line, given the text after `"# "`.
pub open spec fn apply_header(st: StatusView, header: Seq<char>) -> StatusView {
    let f = words(header);
    if f.len() == 0 {
        st
    } else if f[0] == "branch.head"@ {
        if f.len() > 1 {
            if f[1] == "(detached)"@ {
                StatusView { branch: None, ..st }
            } else {
                StatusView { branch: Some(f[1]), ..st }
            }
        } else {
            st
        }
    } else if f[0] == "branch.upstream"@ {
        StatusView { upstream: if f.len() > 1 { Some(f[1]) } else { None }, ..st }
    } else if f[0] == "branch.ab"@ {
        StatusView { ahead_behind: Some((ab_count(f, 1, '+'), ab_count(f, 2, '-'))), ..st }
    } else if f[0] == "branch.oid"@ && f.len() > 1 && f[1] == "(initial)"@ {
        StatusView { is_initial: true, ..st }
    } else {
        st
    }
}

/// The effect of an ordinary (`1`) or renamed (`2`) entry, given the text
/// after its tag: the first field is the two-character `XY` code, and any
/// code other than `.` counts as a staged (`X`) or worktree (`Y`) change.
pub open spec fn apply_entry(st: StatusView, rest: Seq<char>) -> StatusView {
    let f = words(rest);
    if f.len() == 0 {
        st
    } else {
        let xy = f[0];
        let index = xy[0];
        let worktree = if xy.len() > 1 {
            xy[1]
        } else {
            '.'
        };
        StatusView {
            staged: if index != '.' {
                st.staged + 1
            } else {
                st.staged
            },
            modified: if worktree != '.' {
                st.modified + 1
            } else {
                st.modified
            },
            ..st
        }
    }
}

/// The effect of one line of porcelain v2 output.
pub open spec fn apply_line(st: StatusView, line: Seq<char>) -> StatusView {
    if has_prefix(line, "# "@) {
        apply_header(st, line.skip(2))
    } else if has_prefix(line, "1 "@) || has_prefix(line, "2 "@) {
        apply_entry(st, line.skip(2))
    } else if has_prefix(line, "u "@) {
        StatusView { conflicted: st.conflicted + 1, ..st }
    } else if has_prefix(line, "? "@) {
        StatusView { untracked: st.untracked + 1, ..st }
    } else {
        st
    }
}

/// The status described by a sequence of lines, read in order.
pub open spec fn apply_lines(ls: Seq<Seq<char>>) -> StatusView
    decreases ls.len(),
{
    if ls.len() == 0 {
        empty_status()
    } else {
        apply_line(apply_lines(ls.drop_last()), ls.last())
    }
}

/// The status that porcelain v2 text describes.
pub open spec fn parse_status(raw: Seq<char>) -> StatusView {
    apply_lines(lines(raw))
}

pub open spec fn is_clean_view(s: StatusView) -> bool {
    s.staged == 0 && s.modified == 0 && s.conflicted == 0 && s.untracked == 0
}

/// The ahead/behind count in field `i`, after its sign.
fn read_ab_count(fields: &Vec<Vec<char>>, i: usize, sign: char) -> (n: u32)
    ensures
        n == ab_count(views(fields@), i as int, sign),
{
    if i < fields.len() && fields[i].len() > 0 && fields[i][0] == sign {
        let digits = sub_chars(fields[i].as_slice(), 1, fields[i].len());
        assert(digits@ == fields@[i as int]@.drop_first());
        match parse_u32_chars(digits.as_slice()) {
            Some(n) => n,
            None => 0,
        }
    } else {
        0
    }
}

impl WorkingTreeStatus {
    /// Whether there are no changes of any kind in the working tree or index.
    pub fn is_clean(&self) -> (r: bool)
        ensures
            r == is_clean_view(self@),
    {
        self.staged == 0 && self.modified == 0 && self.conflicted == 0 && self.untracked == 0
    }

    /// Parse porcelain v2 text. Kept separate from running `git status` so it
    /// can be checked against fixture strings without a live repository.
    pub fn parse(raw: &str) -> (s: Self)
        requires
            lines(raw@).len() <= u32::MAX,
        ensures
            s@ == parse_status(raw@),
    {
        let chars = chars_of(raw);
        let ls = split_lines(&chars);
        let mut status = WorkingTreeStatus::default();
        let mut i: usize = 0;
        while i < ls.len()
            invariant
                views(ls@) == lines(raw@),
                ls@.len() <= u32::MAX,
                i <= ls@.len(),
                status@ == apply_lines(views(ls@).take(i as int)),
                status.staged <= i,
                status.modified <= i,
                status.conflicted <= i,
                status.untracked <= i,
            decreases ls@.len() - i,
        {
            let ghost before = views(ls@).take(i as int);
            status.parse_line(&ls[i]);
            proof {
                let after = views(ls@).take(i + 1);
                assert(after.drop_last() =~= before);
                assert(after.last() == ls@[i as int]@);
            }
            i += 1;
        }
        assert(views(ls@).take(ls@.len() as int) =~= views(ls@));
        status
    }

    fn parse_line(&mut self, line: &Vec<char>)
        requires
            old(self).staged < u32::MAX,
            old(self).modified < u32::MAX,
            old(self).conflicted < u32::MAX,
            old(self).untracked < u32::MAX,
        ensures
            final(self)@ == apply_line(old(self)@, line@),
            final(self).staged <= old(self).staged + 1,
            final(self).modified <= old(self).modified + 1,
            final(self).conflicted <= old(self).conflicted + 1,
            final(self).untracked <= old(self).untracked + 1,
    {
        proof {
            reveal_strlit("# ");
            reveal_strlit("1 ");
            reveal_strlit("2 ");
        }
        if begins_with(line.as_slice(), "# ") {
            let header = sub_chars(line.as_slice(), 2, line.len());
            assert(header@ == line@.skip(2));
            self.parse_header(&header);
        } else if begins_with(line.as_slice(), "1 ") || begins_with(line.as_slice(), "2 ") {
            // Ordinary and renamed/copied entries share the leading XY field.
            let rest = sub_chars(line.as_slice(), 2, line.len());
            assert(rest@ == line@.skip(2));
            self.tally_xy(&rest);
        } else if begins_with(line.as_slice(), "u ") {
            // Unmerged entry: always a conflict.
            self.conflicted = self.conflicted + 1;
        } else if begins_with(line.as_slice(), "? ") {
            self.untracked = self.untracked + 1;
        }
        // "! " ignored entries are intentionally not surfaced.

    }

    fn parse_header(&mut self, header: &Vec<char>)
        ensures
            final(self)@ == apply_header(old(self)@, header@),
            final(self).staged == old(self).staged,
            final(self).modified == old(self).modified,
            final(self).conflicted == old(self).conflicted,
            final(self).untracked == old(self).untracked,
    {
        let fields = split_whitespace(header.as_slice());
        let ghost f = views(fields@);
        if fields.len() == 0 {
            return ;
        }
        assert(f[0] == fields@[0]@);
        if is_text(fields[0].as_slice(), "branch.head") {
            if fields.len() > 1 {
                assert(f[1] == fields@[1]@);
                if is_text(fields[1].as_slice(), "(detached)") {
                    self.branch = None;
                } else {
                    self.branch = Some(string_from(fields[1].as_slice()));
                }
            }
        } else if is_text(fields[0].as_slice(), "branch.upstream") {
            if fields.len() > 1 {
                assert(f[1] == fields@[1]@);
                self.upstream = Some(string_from(fields[1].as_slice()));
            } else {
                self.upstream = None;
            }
        } else if is_text(fields[0].as_slice(), "branch.ab") {
            // Format: "+<ahead> -<behind>".
            let ahead = read_ab_count(&fields, 1, '+');
            let behind = read_ab_count(&fields, 2, '-');
            self.ahead_behind = Some(AheadBehind { ahead, behind });
        } else if is_text(fields[0].as_slice(), "branch.oid") {
            if fields.len() > 1 {
                assert(f[1] == fields@[1]@);
                if is_text(fields[1].as_slice(), "(initial)") {
                    self.is_initial = true;
                }
            }
        }
    }

    /// Given the remainder of a "1"/"2" line, whose first field is the two-
    /// character `<XY>` staged/worktree status code, tally staged vs modified.
    fn tally_xy(&mut self, rest: &Vec<char>)
        requires
            old(self).staged < u32::MAX,
            old(self).modified < u32::MAX,
        ensures
            final(self)@ == apply_entry(old(self)@, rest@),
            final(self).staged <= old(self).staged + 1,
            final(self).modified <= old(self).modified + 1,
            final(self).conflicted == old(self).conflicted,
            final(self).untracked == old(self).untracked,
    {
        let fields = split_whitespace(rest.as_slice());
        if fields.len() == 0 {
            return ;
        }
        let ghost f = views(fields@);
        assert(f[0] == fields@[0]@);
        proof {
            lemma_words_nonempty(rest@);
        }
        let xy = &fields[0];
        let index = xy[0];
        let worktree = if xy.len() > 1 {
            xy[1]
        } else {
            '.'
        };
        if index != '.' {
            self.staged = self.staged + 1;
        }
        if worktree != '.' {
            self.modified = self.modified + 1;
        }
    }
}

/// Whether a reply's output is short enough for every count to fit: at most
/// `u32::MAX` lines (each line adds at most one to each count).
pub open spec fn countable(reply: ReplyView) -> bool {
    match reply {
        ReplyView::Ran(o, _) => lines(o.stdout).len() <= u32::MAX,
        _ => true,
    }
}

/// The working-tree status a reply to [`status_command`] gives.
pub open spec fn status_outcome(dir: Seq<char>, reply: ReplyView) -> Result<StatusView, GitErrorView> {
    match output_outcome(status_view(dir), reply) {
        Ok(out) => Ok(parse_status(out)),
        Err(e) => Err(e),
    }
}

pub open spec fn status_result_view(r: Result<WorkingTreeStatus, GitError>) -> Result<StatusView, GitErrorView> {
    match r {
        Ok(s) => Ok(s@),
        Err(e) => Err(e@),
    }
}

impl WorkingTreeStatus {
    /// The `git status --porcelain=v2 --branch --untracked-files=normal`
    /// command whose output describes the repository's state.
    pub fn query(repo: &Repository) -> (c: GitCommand)
        ensures
            c@ == status_view(repo.workdir@),
    {
        status_command(repo)
    }

    /// The status the reply to [`WorkingTreeStatus::query`] describes.
    pub fn from_reply(repo: &Repository, reply: Reply) -> (r: Result<Self, GitError>)
        requires
            git_reply(reply@),
            countable(reply@),
        ensures
            status_result_view(r) == status_outcome(repo.workdir@, reply@),
    {
        let c = status_command(repo);
        match output_of(&c, reply) {
            Ok(out) => Ok(Self::parse(out.as_str())),
            Err(e) => Err(e),
        }
    }
}

/// The kind of change an entry line (`1 ` or `2 `) reports: its `XY` field,
/// if the line has one.
pub open spec fn entry_xy(line: Seq<char>) -> Option<Seq<char>> {
    if (has_prefix(line, "1 "@) || has_prefix(line, "2 "@)) && words(line.skip(2)).len() > 0 {
        Some(words(line.skip(2))[0])
    } else {
        None
    }
}

/// What one line adds to each count: `(staged, modified, conflicted,
/// untracked)`. An entry line counts as staged when its index column is not
/// `.`, as modified when its work-tree column (`.` when absent) is not `.`;
/// a `u ` line is a conflict, a `? ` line an untracked file; any other line
/// (`# ` headers, `! ` ignored files) counts nowhere.
pub open spec fn line_counts(line: Seq<char>) -> (nat, nat, nat, nat) {
    match entry_xy(line) {
        Some(xy) => (
            if xy[0] != '.' { 1 } else { 0 },
            if (if xy.len() > 1 { xy[1] } else { '.' }) != '.' { 1 } else { 0 },
            0,
            0,
        ),
        None => (
            0,
            0,
            if has_prefix(line, "u "@) { 1 } else { 0 },
            if has_prefix(line, "? "@) { 1 } else { 0 },
        ),
    }
}

/// The counts of a sequence of lines: the sums of what each line adds.
pub open spec fn total_counts(ls: Seq<Seq<char>>) -> (nat, nat, nat, nat)
    decreases ls.len(),
{
    if ls.len() == 0 {
        (0, 0, 0, 0)
    } else {
        let t = total_counts(ls.drop_last());
        let c = line_counts(ls.last());
        (t.0 + c.0, t.1 + c.1, t.2 + c.2, t.3 + c.3)
    }
}

proof fn lemma_header_keeps_counts(st: StatusView, header: Seq<char>)
    ensures
        apply_header(st, header).staged == st.staged,
        apply_header(st, header).modified == st.modified,
        apply_header(st, header).conflicted == st.conflicted,
        apply_header(st, header).untracked == st.untracked,
{
}

proof fn lemma_line_counts(st: StatusView, line: Seq<char>)
    ensures
        apply_line(st, line).staged == st.staged + line_counts(line).0,
        apply_line(st, line).modified == st.modified + line_counts(line).1,
        apply_line(st, line).conflicted == st.conflicted + line_counts(line).2,
        apply_line(st, line).untracked == st.untracked + line_counts(line).3,
{
    reveal_strlit("# ");
    reveal_strlit("1 ");
    reveal_strlit("2 ");
    reveal_strlit("u ");
    reveal_strlit("? ");
    lemma_two_char_prefix(line, "# "@);
    lemma_two_char_prefix(line, "1 "@);
    lemma_two_char_prefix(line, "2 "@);
    lemma_two_char_prefix(line, "u "@);
    lemma_two_char_prefix(line, "? "@);
    if has_prefix(line, "# "@) {
        lemma_header_keeps_counts(st, line.skip(2));
    }
}

/// A line begins with a two-character marker exactly when its first two
/// characters are the marker's.
proof fn lemma_two_char_prefix(line: Seq<char>, p: Seq<char>)
    requires
        p.len() == 2,
    ensures
        has_prefix(line, p) <==> (line.len() >= 2 && line[0] == p[0] && line[1] == p[1]),
{
    if line.len() >= 2 {
        let head = line.subrange(0, 2);
        assert(head[0] == line[0] && head[1] == line[1]);
        if line[0] == p[0] && line[1] == p[1] {
            assert(head =~= p);
        }
    }
}

/// The counts of porcelain v2 text are tallies over its lines: the staged
/// and modified counts over the entry lines (`1 `, `2 `) by their `XY`
/// columns, the conflicts over the `u ` lines, the untracked files over the
/// `? ` lines; header lines and ignored files (`! `) count nowhere.
pub proof fn status_counts_tally_lines(raw: Seq<char>)
    ensures
        parse_status(raw).staged == total_counts(lines(raw)).0,
        parse_status(raw).modified == total_counts(lines(raw)).1,
        parse_status(raw).conflicted == total_counts(lines(raw)).2,
        parse_status(raw).untracked == total_counts(lines(raw)).3,
{
    lemma_apply_lines_counts(lines(raw));
}

proof fn lemma_apply_lines_counts(ls: Seq<Seq<char>>)
    ensures
        apply_lines(ls).staged == total_counts(ls).0,
        apply_lines(ls).modified == total_counts(ls).1,
        apply_lines(ls).conflicted == total_counts(ls).2,
        apply_lines(ls).untracked == total_counts(ls).3,
    decreases ls.len(),
{
    if ls.len() > 0 {
        lemma_apply_lines_counts(ls.drop_last());
        lemma_line_counts(apply_lines(ls.drop_last()), ls.last());
    }
}


/// Whether `line` is a `# branch.oid (initial)` header: after `# `, its first
/// field is `branch.oid` and its second `(initial)`.
pub open spec fn initial_oid_line(line: Seq<char>) -> bool {
    &&& has_prefix(line, "# "@)
    &&& words(line.skip(2)).len() > 1
    &&& words(line.skip(2))[0] == "branch.oid"@
    &&& words(line.skip(2))[1] == "(initial)"@
}

proof fn lemma_line_initial(st: StatusView, line: Seq<char>)
    ensures
        apply_line(st, line).is_initial == (st.is_initial || initial_oid_line(line)),
{
    reveal_strlit("branch.oid");
    reveal_strlit("branch.head");
    reveal_strlit("branch.upstream");
    reveal_strlit("branch.ab");
    assert("branch.oid"@.len() != "branch.head"@.len());
    assert("branch.oid"@.len() != "branch.upstream"@.len());
    assert("branch.oid"@.len() != "branch.ab"@.len());
}

proof fn lemma_initial_lines(ls: Seq<Seq<char>>)
    ensures
        apply_lines(ls).is_initial <==> exists|i: int|
            0 <= i < ls.len() && initial_oid_line(#[trigger] ls[i]),
    decreases ls.len(),
{
    if ls.len() > 0 {
        let init = ls.drop_last();
        lemma_initial_lines(init);
        lemma_line_initial(apply_lines(init), ls.last());
        if exists|i: int| 0 <= i < init.len() && initial_oid_line(#[trigger] init[i]) {
            let i = choose|i: int| 0 <= i < init.len() && initial_oid_line(#[trigger] init[i]);
            assert(ls[i] == init[i]);
        }
        if exists|i: int| 0 <= i < ls.len() && initial_oid_line(#[trigger] ls[i]) {
            let i = choose|i: int| 0 <= i < ls.len() && initial_oid_line(#[trigger] ls[i]);
            if i < init.len() {
                assert(init[i] == ls[i]);
            }
        }
        if initial_oid_line(ls.last()) {
            assert(initial_oid_line(ls[ls.len() - 1]));
        }
    }
}

/// A repository reads as having no commits yet exactly when the text holds
/// a `# branch.oid (initial)` header: a `branch.oid` header naming a commit
/// leaves it a repository with commits.
pub proof fn initial_exactly_when_oid_is_initial(raw: Seq<char>)
    ensures
        parse_status(raw).is_initial <==> exists|i: int|
            0 <= i < lines(raw).len() && initial_oid_line(#[trigger] lines(raw)[i]),
{
    lemma_initial_lines(lines(raw));
}


/// Whether `v` can stand as one field of a header: non-empty, without
/// whitespace.
pub open spec fn one_field(v: Seq<char>) -> bool {
    v.len() > 0 && forall|i: int| 0 <= i < v.len() ==> !is_ws(#[trigger] v[i])
}

/// The branch headers are read as written: `branch.head <name>` names the
/// current branch (none for `(detached)`), `branch.upstream <name>` its
/// upstream, `branch.ab +<a> -<b>` the commits ahead of and behind it, in
/// that order and in full, and `branch.oid <id>` marks the repository as
/// having no commits only for `(initial)`.
pub proof fn branch_headers_read_as_written(st: StatusView, v: Seq<char>, ahead: u32, behind: u32)
    requires
        one_field(v),
    ensures
        apply_header(st, "branch.head "@ + v).branch == (if v == "(detached)"@ {
            None
        } else {
            Some(v)
        }),
        apply_header(st, "branch.upstream "@ + v).upstream == Some(v),
        apply_header(st, "branch.ab +"@ + decimal(ahead as nat) + " -"@ + decimal(behind as nat)).ahead_behind
            == Some((ahead, behind)),
        apply_header(st, "branch.oid "@ + v).is_initial == (st.is_initial || v == "(initial)"@),
{
    reveal_strlit("branch.head ");
    reveal_strlit("branch.head");
    reveal_strlit("branch.upstream ");
    reveal_strlit("branch.upstream");
    reveal_strlit("branch.ab +");
    reveal_strlit("branch.ab");
    reveal_strlit(" -");
    reveal_strlit("branch.oid ");
    reveal_strlit("branch.oid");
    let sp = ' ';
    assert(is_ws(sp));
    lemma_single_word(v);
    // branch.head
    assert("branch.head "@ + v =~= "branch.head"@ + seq![sp] + v);
    lemma_word_then("branch.head"@, sp, v);
    assert(seq!["branch.head"@] + seq![v] =~= seq!["branch.head"@, v]);
    // branch.upstream
    assert("branch.upstream "@ + v =~= "branch.upstream"@ + seq![sp] + v);
    lemma_word_then("branch.upstream"@, sp, v);
    assert(seq!["branch.upstream"@] + seq![v] =~= seq!["branch.upstream"@, v]);
    assert("branch.upstream"@.len() != "branch.head"@.len());
    // branch.oid
    assert("branch.oid "@ + v =~= "branch.oid"@ + seq![sp] + v);
    lemma_word_then("branch.oid"@, sp, v);
    assert(seq!["branch.oid"@] + seq![v] =~= seq!["branch.oid"@, v]);
    assert("branch.oid"@.len() != "branch.head"@.len());
    assert("branch.oid"@.len() != "branch.upstream"@.len());
    assert("branch.oid"@.len() != "branch.ab"@.len());
    // branch.ab
    let da = decimal(ahead as nat);
    let db = decimal(behind as nat);
    lemma_decimal_reads_back(ahead as nat);
    lemma_decimal_reads_back(behind as nat);
    decimal_parses_back(ahead);
    decimal_parses_back(behind);
    let fa = seq!['+'] + da;
    let fb = seq!['-'] + db;
    assert(fa.drop_first() =~= da);
    assert(fb.drop_first() =~= db);
    assert(one_field(fa)) by {
        assert forall|i: int| 0 <= i < fa.len() implies !is_ws(#[trigger] fa[i]) by {
            if i > 0 {
                assert(fa[i] == da[i - 1]);
            }
        }
    }
    assert(one_field(fb)) by {
        assert forall|i: int| 0 <= i < fb.len() implies !is_ws(#[trigger] fb[i]) by {
            if i > 0 {
                assert(fb[i] == db[i - 1]);
            }
        }
    }
    let h = "branch.ab +"@ + da + " -"@ + db;
    assert(h =~= "branch.ab"@ + seq![sp] + (fa + seq![sp] + fb));
    lemma_single_word(fb);
    lemma_word_then(fa, sp, fb);
    lemma_word_then("branch.ab"@, sp, fa + seq![sp] + fb);
    assert(words(h) =~= seq!["branch.ab"@, fa, fb]);
    assert("branch.ab"@.len() != "branch.head"@.len());
    assert("branch.ab"@.len() != "branch.upstream"@.len());
}

} // verus!
