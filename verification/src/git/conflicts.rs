//! Parsing conflicted files into structured, labelled hunks.
//!
//! When a merge or rebase stops, Git rewrites the conflicting files with marker
//! blocks (`<<<<<<<`, optional `|||||||` base, `=======`, `>>>>>>>`). This module
//! turns those blocks into structured [`ConflictHunk`]s so the `resolve` command
//! can *explain* a conflict rather than just dumping raw markers.
//!
//! It also resolves Smoothee's clarity promise around the most confusing part of
//! conflict resolution: "ours" and "theirs". Git's `<<<<<<<` side is always
//! "ours" and `>>>>>>>` is "theirs", but which one holds *your* work flips
//! between merge and rebase. [`ConflictContext`] captures that once, so every
//! label and every `git checkout --ours/--theirs` maps to the user's intent
//! instead of to Git's mechanical vocabulary.
use vstd::prelude::*;

use crate::git::command::{GitCommand, GitCommandView};
use crate::git::repository::Repository;
use crate::text::{chars_of, lines, split_lines, string_from, views};

verus! {

/// The two sides Git can pick from for a conflicted path, named the way Git
/// names them (`--ours` / `--theirs`) so the mapping to a flag is unambiguous.
#[derive(Debug, Clone, Copy, PartialEq, Eq, Structural)]
pub enum Side {
    /// Git's `<<<<<<<` side (`git checkout --ours`).
    Ours,
    /// Git's `>>>>>>>` side (`git checkout --theirs`).
    Theirs,
}

pub open spec fn side_flag(side: Side) -> Seq<char> {
    match side {
        Side::Ours => "--ours"@,
        Side::Theirs => "--theirs"@,
    }
}

impl Side {
    /// The `git checkout` flag that selects this side.
    pub fn flag(self) -> (r: &'static str)
        ensures
            r@ == side_flag(self),
    {
        match self {
            Side::Ours => "--ours",
            Side::Theirs => "--theirs",
        }
    }
}

/// Which operation produced the conflicts. This decides how the mechanical
/// "ours"/"theirs" sides map to "your work" vs "the incoming work".
#[derive(Debug, Clone, Copy, PartialEq, Eq, Structural)]
pub enum ConflictContext {
    /// A `git merge` is in progress: `HEAD` (ours) is your branch.
    Merge,
    /// A `git rebase` is in progress: `HEAD` (ours) is the base being replayed
    /// onto, and *your* commit is the incoming (theirs) side.
    Rebase,
    /// Conflicts exist without a recognised merge/rebase marker (e.g. a
    /// cherry-pick). Labelled like a merge, which is the common intuition.
    Other,
}

pub open spec fn mine_side(c: ConflictContext) -> Side {
    match c {
        ConflictContext::Rebase => Side::Theirs,
        _ => Side::Ours,
    }
}

pub open spec fn incoming_side(c: ConflictContext) -> Side {
    match c {
        ConflictContext::Rebase => Side::Ours,
        _ => Side::Theirs,
    }
}

pub open spec fn context_verb(c: ConflictContext) -> Seq<char> {
    match c {
        ConflictContext::Rebase => "rebase"@,
        _ => "merge"@,
    }
}

pub open spec fn context_journal_kind(c: ConflictContext) -> Seq<char> {
    match c {
        ConflictContext::Rebase => "resolve_rebase"@,
        _ => "resolve_merge"@,
    }
}

pub open spec fn context_incoming_label(c: ConflictContext) -> Seq<char> {
    match c {
        ConflictContext::Rebase => "the base branch"@,
        _ => "the incoming branch"@,
    }
}

impl ConflictContext {
    /// The context of the repository's in-progress state: a rebase in
    /// progress wins, then a merge, otherwise neither.
    pub fn detect(rebase_in_progress: bool, merge_in_progress: bool) -> (r: Self)
        ensures
            r == (if rebase_in_progress {
                ConflictContext::Rebase
            } else if merge_in_progress {
                ConflictContext::Merge
            } else {
                ConflictContext::Other
            }),
    {
        if rebase_in_progress {
            ConflictContext::Rebase
        } else if merge_in_progress {
            ConflictContext::Merge
        } else {
            ConflictContext::Other
        }
    }

    /// The side that holds *your* changes.
    pub fn mine(self) -> (r: Side)
        ensures
            r == mine_side(self),
    {
        match self {
            // A rebase replays your commits on top of the base, so your work is
            // the "theirs" side being applied.
            ConflictContext::Rebase => Side::Theirs,
            _ => Side::Ours,
        }
    }

    /// The side that holds the *incoming* changes you are syncing with.
    pub fn incoming(self) -> (r: Side)
        ensures
            r == incoming_side(self),
    {
        match self {
            ConflictContext::Rebase => Side::Ours,
            _ => Side::Theirs,
        }
    }

    /// A short human label for [`ConflictContext::incoming`], for menus and prose.
    pub fn incoming_label(self) -> (r: &'static str)
        ensures
            r@ == context_incoming_label(self),
    {
        match self {
            ConflictContext::Rebase => "the base branch",
            _ => "the incoming branch",
        }
    }

    /// The verb for the operation being finished ("merge"/"rebase").
    pub fn verb(self) -> (r: &'static str)
        ensures
            r@ == context_verb(self),
    {
        match self {
            ConflictContext::Rebase => "rebase",
            _ => "merge",
        }
    }

    /// The journal `type` recorded when resolving in this context.
    pub fn journal_kind(self) -> (r: &'static str)
        ensures
            r@ == context_journal_kind(self),
    {
        match self {
            ConflictContext::Rebase => "resolve_rebase",
            _ => "resolve_merge",
        }
    }
}

/// Your side and the incoming side are always the two different sides, in
/// every context, so keeping "yours" and keeping "theirs" never coincide.
pub proof fn mine_and_incoming_differ(c: ConflictContext)
    ensures
        mine_side(c) != incoming_side(c),
        side_flag(mine_side(c)) != side_flag(incoming_side(c)),
{
    reveal_strlit("--ours");
    reveal_strlit("--theirs");
    assert("--ours"@.len() != "--theirs"@.len());
}

/// Which Git side holds your work depends on the operation: in a rebase
/// your commits are replayed as `--theirs` and the base is `--ours`; in a
/// merge, and when no operation is recognised, your branch is `--ours`.
pub proof fn rebase_swaps_the_sides()
    ensures
        mine_side(ConflictContext::Rebase) == Side::Theirs,
        incoming_side(ConflictContext::Rebase) == Side::Ours,
        mine_side(ConflictContext::Merge) == Side::Ours,
        incoming_side(ConflictContext::Merge) == Side::Theirs,
        mine_side(ConflictContext::Other) == Side::Ours,
        incoming_side(ConflictContext::Other) == Side::Theirs,
{
}

pub open spec fn string_views(v: Seq<String>) -> Seq<Seq<char>> {
    v.map_values(|s: String| s@)
}

/// One `<<<<<<< / ======= / >>>>>>>` block from a conflicted file.
#[derive(Debug, Clone, PartialEq, Eq)]
pub struct ConflictHunk {
    /// Lines on Git's "ours" (`<<<<<<<`) side.
    pub ours: Vec<String>,
    /// Lines from the common ancestor, present only for diff3-style conflicts.
    pub base: Option<Vec<String>>,
    /// Lines on Git's "theirs" (`>>>>>>>`) side.
    pub theirs: Vec<String>,
}

/// The mathematical content of a [`ConflictHunk`].
pub struct HunkView {
    pub ours: Seq<Seq<char>>,
    pub base: Option<Seq<Seq<char>>>,
    pub theirs: Seq<Seq<char>>,
}

impl View for ConflictHunk {
    type V = HunkView;

    open spec fn view(&self) -> HunkView {
        HunkView {
            ours: string_views(self.ours@),
            base: match self.base {
                Some(b) => Some(string_views(b@)),
                None => None,
            },
            theirs: string_views(self.theirs@),
        }
    }
}

pub open spec fn hunk_views(v: Seq<ConflictHunk>) -> Seq<HunkView> {
    v.map_values(|h: ConflictHunk| h@)
}

/// A conflicted file and its parsed hunks.
#[derive(Debug, Clone)]
pub struct ConflictFile {
    /// Repository-relative path.
    pub path: String,
    /// The parsed conflict blocks, in order.
    pub hunks: Vec<ConflictHunk>,
    /// Whether the file could be read as UTF-8 text. A binary or unreadable
    /// conflict (e.g. delete/modify) yields no hunks and must be resolved by
    /// picking a whole side rather than editing.
    pub readable: bool,
}

impl ConflictFile {
    /// The conflicted file at `path`, given what reading it gave: its text, or
    /// `None` when it could not be read as UTF-8 text (binary content, a
    /// delete/modify conflict). An unreadable file has no hunks and is still
    /// resolved by choosing a side.
    pub fn from_content(path: &str, content: Option<&str>) -> (f: Self)
        ensures
            f.path@ == path@,
            f.readable == content.is_some(),
            hunk_views(f.hunks@) == (match content {
                Some(c) => parse_conflicts(c@),
                None => seq![],
            }),
    {
        match content {
            Some(text) => ConflictFile {
                path: path.to_owned(),
                hunks: parse(text),
                readable: true,
            },
            None => {
                let hunks: Vec<ConflictHunk> = Vec::new();
                assert(hunk_views(hunks@) =~= seq![]);
                ConflictFile { path: path.to_owned(), hunks, readable: false }
            },
        }
    }
}

/// Whether `line` begins with a run of at least seven `ch` characters — the
/// shape of a Git conflict marker.
pub open spec fn is_marker_spec(line: Seq<char>, ch: char) -> bool {
    7 <= line.len() && forall|j: int| 0 <= j < 7 ==> line[j] == ch
}

/// Whether `line` begins with a run of at least seven `ch` characters.
pub fn is_marker(line: &[char], ch: char) -> (r: bool)
    ensures
        r == is_marker_spec(line@, ch),
{
    if line.len() < 7 {
        return false;
    }
    let mut i: usize = 0;
    while i < 7
        invariant
            7 <= line@.len(),
            i <= 7,
            forall|j: int| 0 <= j < i ==> line@[j] == ch,
        decreases 7 - i,
    {
        if line[i] != ch {
            return false;
        }
        i += 1;
    }
    true
}

/// Where the scanner is relative to a conflict block.
#[derive(PartialEq, Eq, Structural)]
pub enum Region {
    Outside,
    Ours,
    Base,
    Theirs,
}

/// The scanner's state after some lines: where it is, the hunks completed so
/// far, and the lines gathered for the block in progress.
pub struct Scan {
    pub region: Region,
    pub hunks: Seq<HunkView>,
    pub ours: Seq<Seq<char>>,
    pub base: Seq<Seq<char>>,
    pub theirs: Seq<Seq<char>>,
    pub have_base: bool,
}

pub open spec fn scan_start() -> Scan {
    Scan {
        region: Region::Outside,
        hunks: seq![],
        ours: seq![],
        base: seq![],
        theirs: seq![],
        have_base: false,
    }
}

/// How one line moves the scanner. Lines outside a block are ignored; a
/// `<<<<<<<` line opens a block; `|||||||` starts the common-ancestor part;
/// `=======` starts the "theirs" part; `>>>>>>>` completes the hunk.
pub open spec fn scan_line(st: Scan, line: Seq<char>) -> Scan {
    match st.region {
        Region::Outside => {
            if is_marker_spec(line, '<') {
                Scan {
                    region: Region::Ours,
                    ours: seq![],
                    base: seq![],
                    theirs: seq![],
                    have_base: false,
                    ..st
                }
            } else {
                st
            }
        },
        Region::Ours => {
            if is_marker_spec(line, '|') {
                Scan { region: Region::Base, have_base: true, ..st }
            } else if is_marker_spec(line, '=') {
                Scan { region: Region::Theirs, ..st }
            } else {
                Scan { ours: st.ours.push(line), ..st }
            }
        },
        Region::Base => {
            if is_marker_spec(line, '=') {
                Scan { region: Region::Theirs, ..st }
            } else {
                Scan { base: st.base.push(line), ..st }
            }
        },
        Region::Theirs => {
            if is_marker_spec(line, '>') {
                Scan {
                    region: Region::Outside,
                    hunks: st.hunks.push(
                        HunkView {
                            ours: st.ours,
                            base: if st.have_base {
                                Some(st.base)
                            } else {
                                None
                            },
                            theirs: st.theirs,
                        },
                    ),
                    ours: seq![],
                    base: seq![],
                    theirs: seq![],
                    have_base: st.have_base,
                }
            } else {
                Scan { theirs: st.theirs.push(line), ..st }
            }
        },
    }
}

pub open spec fn scan_lines(ls: Seq<Seq<char>>) -> Scan
    decreases ls.len(),
{
    if ls.len() == 0 {
        scan_start()
    } else {
        scan_line(scan_lines(ls.drop_last()), ls.last())
    }
}

/// The complete conflict blocks of a file, in order. A block left open at
/// the end of the file is not a hunk.
pub open spec fn parse_conflicts(content: Seq<char>) -> Seq<HunkView> {
    scan_lines(lines(content)).hunks
}

/// Parse the conflict blocks out of a file's contents. Context lines outside any
/// conflict are ignored — only the hunks matter for explanation and resolution.
pub fn parse(content: &str) -> (hunks: Vec<ConflictHunk>)
    ensures
        hunk_views(hunks@) == parse_conflicts(content@),
{
    let chars = chars_of(content);
    let ls = split_lines(&chars);
    let mut region = Region::Outside;
    let mut hunks: Vec<ConflictHunk> = Vec::new();
    let mut ours: Vec<String> = Vec::new();
    let mut base: Vec<String> = Vec::new();
    let mut theirs: Vec<String> = Vec::new();
    let mut have_base = false;
    let mut i: usize = 0;
    assert(views(ls@).take(0) =~= Seq::<Seq<char>>::empty());
    assert(hunk_views(hunks@) =~= seq![]);
    assert(string_views(ours@) =~= seq![]);
    assert(string_views(base@) =~= seq![]);
    assert(string_views(theirs@) =~= seq![]);
    while i < ls.len()
        invariant
            views(ls@) == lines(content@),
            i <= ls@.len(),
            scan_lines(views(ls@).take(i as int)) == (Scan {
                region,
                hunks: hunk_views(hunks@),
                ours: string_views(ours@),
                base: string_views(base@),
                theirs: string_views(theirs@),
                have_base,
            }),
        decreases ls@.len() - i,
    {
        let line = &ls[i];
        let ghost prefix = views(ls@).take(i + 1);
        assert(prefix.drop_last() =~= views(ls@).take(i as int));
        assert(prefix.last() == line@);
        let ghost hs = hunks@;
        let ghost os = ours@;
        let ghost bs = base@;
        let ghost ts = theirs@;
        match region {
            Region::Outside => {
                if is_marker(line.as_slice(), '<') {
                    region = Region::Ours;
                    ours = Vec::new();
                    base = Vec::new();
                    theirs = Vec::new();
                    have_base = false;
                    assert(string_views(ours@) =~= seq![]);
                    assert(string_views(base@) =~= seq![]);
                    assert(string_views(theirs@) =~= seq![]);
                }
            },
            Region::Ours => {
                if is_marker(line.as_slice(), '|') {
                    region = Region::Base;
                    have_base = true;
                } else if is_marker(line.as_slice(), '=') {
                    region = Region::Theirs;
                } else {
                    ours.push(string_from(line.as_slice()));
                    assert(string_views(ours@) =~= string_views(os).push(line@));
                }
            },
            Region::Base => {
                if is_marker(line.as_slice(), '=') {
                    region = Region::Theirs;
                } else {
                    base.push(string_from(line.as_slice()));
                    assert(string_views(base@) =~= string_views(bs).push(line@));
                }
            },
            Region::Theirs => {
                if is_marker(line.as_slice(), '>') {
                    let done_ours = ours;
                    let done_theirs = theirs;
                    let done_base = if have_base {
                        Some(base)
                    } else {
                        None
                    };
                    let hunk = ConflictHunk { ours: done_ours, base: done_base, theirs: done_theirs };
                    hunks.push(hunk);
                    ours = Vec::new();
                    base = Vec::new();
                    theirs = Vec::new();
                    region = Region::Outside;
                    assert(hunk_views(hunks@) =~= hunk_views(hs).push(hunk@));
                    assert(string_views(ours@) =~= seq![]);
                    assert(string_views(base@) =~= seq![]);
                    assert(string_views(theirs@) =~= seq![]);
                } else {
                    theirs.push(string_from(line.as_slice()));
                    assert(string_views(theirs@) =~= string_views(ts).push(line@));
                }
            },
        }
        i += 1;
    }
    assert(views(ls@).take(ls@.len() as int) =~= views(ls@));
    hunks
}

/// `git checkout --ours|--theirs -- <path>`: replace the working-tree file
/// with one whole side of the conflict.
pub open spec fn checkout_side_view(repo_dir: Seq<char>, path: Seq<char>, side: Side) -> GitCommandView {
    GitCommandView {
        args: seq!["checkout"@, side_flag(side), "--"@, path],
        cwd: Some(repo_dir),
        env: seq![],
    }
}

/// `git add -- <path>`: mark a path resolved.
pub open spec fn stage_view(repo_dir: Seq<char>, path: Seq<char>) -> GitCommandView {
    GitCommandView { args: seq!["add"@, "--"@, path], cwd: Some(repo_dir), env: seq![] }
}

/// The two commands that resolve `path` by keeping one whole side, in the
/// order they run: `git checkout --ours/--theirs -- <path>` replaces the
/// working-tree file with the chosen side; `git add` marks the path resolved.
/// Both flow through the deterministic command layer so the operation stays
/// inspectable.
pub fn take_side(repo: &Repository, path: &str, side: Side) -> (r: (GitCommand, GitCommand))
    ensures
        r.0@ == checkout_side_view(repo.workdir@, path@, side),
        r.1@ == stage_view(repo.workdir@, path@),
{
    let checkout = repo.git("checkout").arg(side.flag()).arg("--").arg(path);
    assert(checkout@.args =~= checkout_side_view(repo.workdir@, path@, side).args);
    (checkout, stage(repo, path))
}

/// The command that stages a (now-resolved) path: `git add -- <path>`.
pub fn stage(repo: &Repository, path: &str) -> (r: GitCommand)
    ensures
        r@ == stage_view(repo.workdir@, path@),
{
    let r = repo.git("add").arg("--").arg(path);
    assert(r@.args =~= stage_view(repo.workdir@, path@).args);
    r
}

} // verus!
