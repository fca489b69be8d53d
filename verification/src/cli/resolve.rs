//! `smoothee resolve` — guided merge-conflict resolution.
//!
//! The wording and the per-file choices over the resolve engine. Each
//! conflict is explained in the user's own terms; prompting, opening an
//! editor and printing are the binary's job.
use vstd::prelude::*;

use crate::git::conflicts::{
    context_incoming_label, context_verb, hunk_views, incoming_side, mine_side, string_views,
    ConflictContext, ConflictFile, ConflictHunk, HunkView, Side,
};
use crate::operations::resolve::{FinishOutcome, FinishOutcomeView};
use crate::text::{decimal, owned, push_decimal, push_str};
use crate::ui::output::{
    bullet, bullet_spec, heading, heading_spec, label, label_spec, ok, ok_spec, warn, warn_spec,
};

verus! {

/// `""` for one, `"s"` otherwise.
pub open spec fn suffix(n: nat) -> Seq<char> {
    if n == 1 {
        seq![]
    } else {
        "s"@
    }
}

/// The plural suffix for a count of `n`.
pub fn plural(n: usize) -> (r: &'static str)
    ensures
        r@ == suffix(n as nat),
{
    proof {
        reveal_strlit("");
    }
    if n == 1 {
        ""
    } else {
        "s"
    }
}

/// The choices offered for one file, naming the incoming side by what it is
/// in this operation; editing and diffing only for a file that reads as text.
pub open spec fn menu_text(context: ConflictContext, editable: bool) -> Seq<char> {
    if editable {
        "[y] keep your changes  [i] keep "@ + context_incoming_label(context)
            + "  [e] edit  [d] show diff  [s] skip"@
    } else {
        "[y] keep your changes  [i] keep "@ + context_incoming_label(context) + "  [s] skip"@
    }
}

/// The prompt line listing the choices for one file.
pub fn menu(context: ConflictContext, editable: bool) -> (r: String)
    ensures
        r@ == menu_text(context, editable),
{
    let mut s = owned("[y] keep your changes  [i] keep ");
    push_str(&mut s, context.incoming_label());
    if editable {
        push_str(&mut s, "  [e] edit  [d] show diff  [s] skip");
    } else {
        push_str(&mut s, "  [s] skip");
    }
    s
}

pub open spec fn finish_hint_text(context: ConflictContext) -> Seq<char> {
    match context {
        ConflictContext::Rebase => "git rebase --continue"@,
        _ => "git commit --no-edit"@,
    }
}

/// The Git command that finishes the operation once everything is resolved.
pub fn finish_hint(context: ConflictContext) -> (r: &'static str)
    ensures
        r@ == finish_hint_text(context),
{
    match context {
        ConflictContext::Rebase => "git rebase --continue",
        _ => "git commit --no-edit",
    }
}

fn copy_lines(lines: &Vec<String>) -> (r: Vec<String>)
    ensures
        string_views(r@) == string_views(lines@),
{
    let mut r: Vec<String> = Vec::new();
    let mut i: usize = 0;
    while i < lines.len()
        invariant
            i <= lines@.len(),
            string_views(r@) == string_views(lines@).take(i as int),
        decreases lines@.len() - i,
    {
        r.push(lines[i].clone());
        assert(string_views(lines@).take(i + 1) =~= string_views(lines@).take(i as int).push(
            lines@[i as int]@,
        ));
        assert(string_views(r@) =~= string_views(lines@).take(i as int).push(lines@[i as int]@));
        i += 1;
    }
    assert(string_views(lines@).take(lines@.len() as int) =~= string_views(lines@));
    r
}

/// The lines of `hunk` on `side`.
pub fn side_lines(hunk: &ConflictHunk, side: Side) -> (r: Vec<String>)
    ensures
        string_views(r@) == match side {
            Side::Ours => hunk@.ours,
            Side::Theirs => hunk@.theirs,
        },
{
    match side {
        Side::Ours => copy_lines(&hunk.ours),
        Side::Theirs => copy_lines(&hunk.theirs),
    }
}

/// What to do for a file after the user's answer to its menu.
#[derive(Debug, Clone, Copy, PartialEq, Eq, Structural)]
pub enum FileChoice {
    /// Keep one whole side of the file and stage it.
    Keep(Side),
    /// Open the file in an editor, then stage it if no markers remain.
    Edit,
    /// Show every section of the conflict, then ask again.
    ShowDiff,
    /// Leave the file for later.
    Skip,
    /// An answer the menu does not offer: ask again.
    AskAgain,
}

/// The meaning of an answer: `y` keeps your changes, `i` the incoming side,
/// `e` edits and `d` shows the diff (offered only for a readable file), `s`
/// or no answer at all skips; anything else asks again.
pub open spec fn choice_for(context: ConflictContext, readable: bool, answer: Option<char>) -> FileChoice {
    match answer {
        Some('y') => FileChoice::Keep(mine_side(context)),
        Some('i') => FileChoice::Keep(incoming_side(context)),
        Some('e') => if readable {
            FileChoice::Edit
        } else {
            FileChoice::AskAgain
        },
        Some('d') => if readable {
            FileChoice::ShowDiff
        } else {
            FileChoice::AskAgain
        },
        Some('s') => FileChoice::Skip,
        None => FileChoice::Skip,
        Some(_) => FileChoice::AskAgain,
    }
}

/// Interpret the answer given to a file's menu.
pub fn choose_for_file(context: ConflictContext, readable: bool, answer: Option<char>) -> (r:
    FileChoice)
    ensures
        r == choice_for(context, readable, answer),
{
    match answer {
        Some('y') => FileChoice::Keep(context.mine()),
        Some('i') => FileChoice::Keep(context.incoming()),
        Some('e') => if readable {
            FileChoice::Edit
        } else {
            FileChoice::AskAgain
        },
        Some('d') => if readable {
            FileChoice::ShowDiff
        } else {
            FileChoice::AskAgain
        },
        Some('s') => FileChoice::Skip,
        None => FileChoice::Skip,
        Some(_) => FileChoice::AskAgain,
    }
}

/// The overview shown when conflicts are found: which operation is in
/// progress, how many files conflict, and the files.
pub open spec fn overview_text(context: ConflictContext, files: Seq<Seq<char>>, colors: bool) -> Seq<
    char,
> {
    warn_spec(
        "A "@ + context_verb(context) + " is in progress with "@ + decimal(files.len())
            + " conflicting file"@ + suffix(files.len()) + ". No changes have been lost."@,
        colors,
    ) + "\n"@ + file_list_text(files, colors)
}

/// One bullet per file.
pub open spec fn file_list_text(files: Seq<Seq<char>>, colors: bool) -> Seq<char>
    decreases files.len(),
{
    if files.len() == 0 {
        seq![]
    } else {
        file_list_text(files.drop_last(), colors) + bullet_spec(files.last(), colors) + "\n"@
    }
}

/// Render one bullet per file.
pub fn print_file_list(files: &Vec<String>, colors: bool) -> (r: String)
    ensures
        r@ == file_list_text(string_views(files@), colors),
{
    let mut out = String::new();
    let mut i: usize = 0;
    while i < files.len()
        invariant
            i <= files@.len(),
            out@ == file_list_text(string_views(files@).take(i as int), colors),
        decreases files@.len() - i,
    {
        let b = bullet(files[i].as_str(), colors);
        push_str(&mut out, b.as_str());
        push_str(&mut out, "\n");
        proof {
            let t = string_views(files@).take(i + 1);
            assert(t.drop_last() =~= string_views(files@).take(i as int));
            assert(t.last() == files@[i as int]@);
        }
        i += 1;
    }
    assert(string_views(files@).take(files@.len() as int) =~= string_views(files@));
    out
}

/// Render the overview of an in-progress operation with conflicts.
pub fn print_overview(context: ConflictContext, files: &Vec<String>, colors: bool) -> (r: String)
    requires
        files@.len() < u64::MAX,
    ensures
        r@ == overview_text(context, string_views(files@), colors),
{
    let mut text = owned("A ");
    push_str(&mut text, context.verb());
    push_str(&mut text, " is in progress with ");
    push_decimal(&mut text, files.len() as u64);
    push_str(&mut text, " conflicting file");
    push_str(&mut text, plural(files.len()));
    push_str(&mut text, ". No changes have been lost.");
    let mut out = warn(text.as_str(), colors);
    push_str(&mut out, "\n");
    let list = print_file_list(files, colors);
    push_str(&mut out, list.as_str());
    assert(string_views(files@).len() == files@.len());
    assert(out@ =~= overview_text(context, string_views(files@), colors));
    out
}

/// The guidance shown when the terminal cannot prompt.
pub open spec fn non_interactive_text(context: ConflictContext, colors: bool) -> Seq<char> {
    "\n"@ + "  "@ + label_spec("Guided resolution needs an interactive terminal."@, colors) + "\n"@
        + "  "@ + label_spec(
        "Resolve the files, then finish with: "@ + finish_hint_text(context),
        colors,
    ) + "\n"@ + "  "@ + label_spec("Or `smoothee undo` to return to before the operation."@, colors)
        + "\n"@
}

/// Render the guidance for a terminal that cannot prompt.
pub fn print_non_interactive_guidance(context: ConflictContext, colors: bool) -> (r: String)
    ensures
        r@ == non_interactive_text(context, colors),
{
    let mut out = owned("\n");
    push_str(&mut out, "  ");
    let l = label("Guided resolution needs an interactive terminal.", colors);
    push_str(&mut out, l.as_str());
    push_str(&mut out, "\n");
    push_str(&mut out, "  ");
    let mut t = owned("Resolve the files, then finish with: ");
    push_str(&mut t, finish_hint(context));
    let l = label(t.as_str(), colors);
    push_str(&mut out, l.as_str());
    push_str(&mut out, "\n");
    push_str(&mut out, "  ");
    let l = label("Or `smoothee undo` to return to before the operation.", colors);
    push_str(&mut out, l.as_str());
    push_str(&mut out, "\n");
    out
}

fn push_line(out: &mut String, line: &str)
    ensures
        final(out)@ == old(out)@ + line@ + "\n"@,
{
    push_str(out, line);
    push_str(out, "\n");
}

fn push_label_line(out: &mut String, text: &str, colors: bool)
    ensures
        final(out)@ == old(out)@ + "  "@ + label_spec(text@, colors) + "\n"@,
{
    push_str(out, "  ");
    let l = label(text, colors);
    push_line(out, l.as_str());
}

/// What is shown when there is nothing to resolve.
pub open spec fn clean_text(colors: bool) -> Seq<char> {
    ok_spec("Nothing to resolve."@, colors) + "\n"@ + "  "@ + label_spec(
        "No merge or rebase is in progress, and no files are conflicted."@,
        colors,
    ) + "\n"@
}

/// Render the message for a repository with nothing to resolve.
pub fn print_clean(colors: bool) -> (r: String)
    ensures
        r@ == clean_text(colors),
{
    let mut out = String::new();
    push_line(&mut out, ok("Nothing to resolve.", colors).as_str());
    push_label_line(
        &mut out,
        "No merge or rebase is in progress, and no files are conflicted.",
        colors,
    );
    assert(out@ =~= clean_text(colors));
    out
}

/// The header of one file: its path, then either that a whole side must be
/// chosen (a file that does not read as text) or how many sections conflict.
pub open spec fn conflict_header_text(
    context: ConflictContext,
    path: Seq<char>,
    readable: bool,
    sections: nat,
    colors: bool,
) -> Seq<char> {
    "\n"@ + heading_spec("File: "@ + path, colors) + "\n"@ + if !readable {
        "  "@ + label_spec("Binary or non-text conflict — choose a whole side."@, colors) + "\n"@
    } else {
        "  "@ + label_spec(
            decimal(sections) + " conflicting section"@ + suffix(sections)
                + " — your changes vs "@ + context_incoming_label(context) + "."@,
            colors,
        ) + "\n"@
    }
}

/// Render the header shown before a file's menu.
pub fn print_conflict_header(context: ConflictContext, file: &ConflictFile, colors: bool) -> (r:
    String)
    requires
        file.hunks@.len() < u64::MAX,
    ensures
        r@ == conflict_header_text(
            context,
            file.path@,
            file.readable,
            file.hunks@.len(),
            colors,
        ),
{
    let mut out = owned("\n");
    let mut title = owned("File: ");
    push_str(&mut title, file.path.as_str());
    push_line(&mut out, heading(title.as_str(), colors).as_str());
    if !file.readable {
        push_label_line(&mut out, "Binary or non-text conflict — choose a whole side.", colors);
    } else {
        let n = file.hunks.len();
        let mut t = String::new();
        push_decimal(&mut t, n as u64);
        push_str(&mut t, " conflicting section");
        push_str(&mut t, plural(n));
        push_str(&mut t, " — your changes vs ");
        push_str(&mut t, context.incoming_label());
        push_str(&mut t, ".");
        push_label_line(&mut out, t.as_str(), colors);
    }
    assert(out@ =~= conflict_header_text(
        context,
        file.path@,
        file.readable,
        file.hunks@.len(),
        colors,
    ));
    out
}

/// The lines of one side, indented; `(nothing)` for an empty side.
pub open spec fn side_text(lines: Seq<Seq<char>>, colors: bool) -> Seq<char> {
    if lines.len() == 0 {
        "    "@ + label_spec("(nothing)"@, colors) + "\n"@
    } else {
        indented(lines)
    }
}

/// Each line, indented by four spaces.
pub open spec fn indented(lines: Seq<Seq<char>>) -> Seq<char>
    decreases lines.len(),
{
    if lines.len() == 0 {
        seq![]
    } else {
        indented(lines.drop_last()) + "    "@ + lines.last() + "\n"@
    }
}

fn push_side(out: &mut String, lines: &Vec<String>, colors: bool)
    ensures
        final(out)@ == old(out)@ + side_text(string_views(lines@), colors),
{
    let ghost start = out@;
    if lines.len() == 0 {
        push_str(out, "    ");
        push_line(out, label("(nothing)", colors).as_str());
        assert(out@ =~= start + side_text(string_views(lines@), colors));
        return;
    }
    let mut i: usize = 0;
    while i < lines.len()
        invariant
            i <= lines@.len(),
            out@ == start + indented(string_views(lines@).take(i as int)),
        decreases lines@.len() - i,
    {
        push_str(out, "    ");
        push_line(out, lines[i].as_str());
        proof {
            let t = string_views(lines@).take(i + 1);
            assert(t.drop_last() =~= string_views(lines@).take(i as int));
            assert(t.last() == lines@[i as int]@);
            assert(out@ =~= start + indented(t));
        }
        i += 1;
    }
    assert(string_views(lines@).take(lines@.len() as int) =~= string_views(lines@));
}

/// The lines of `h` on `side`.
pub open spec fn side_of(h: HunkView, side: Side) -> Seq<Seq<char>> {
    match side {
        Side::Ours => h.ours,
        Side::Theirs => h.theirs,
    }
}

/// The common ancestor's lines, when the conflict carries them.
pub open spec fn base_text(h: HunkView, colors: bool) -> Seq<char> {
    match h.base {
        Some(b) => "  "@ + label_spec("original (common ancestor):"@, colors) + "\n"@ + side_text(
            b,
            colors,
        ),
        None => seq![],
    }
}

/// One section of a conflict: your side, the common ancestor when the
/// conflict carries it, and the incoming side.
pub open spec fn section_text(context: ConflictContext, number: nat, h: HunkView, colors: bool) -> Seq<
    char,
> {
    "\n"@ + label_spec("Section "@ + decimal(number) + ":"@, colors) + "\n"@ + "  "@ + label_spec(
        "your changes:"@,
        colors,
    ) + "\n"@ + side_text(side_of(h, mine_side(context)), colors) + base_text(h, colors) + "  "@
        + label_spec(context_incoming_label(context) + ":"@, colors) + "\n"@ + side_text(
        side_of(h, incoming_side(context)),
        colors,
    )
}

/// Every section of a conflict, numbered from one.
pub open spec fn full_conflict_text(context: ConflictContext, hunks: Seq<HunkView>, colors: bool) -> Seq<
    char,
>
    decreases hunks.len(),
{
    if hunks.len() == 0 {
        seq![]
    } else {
        full_conflict_text(context, hunks.drop_last(), colors) + section_text(
            context,
            hunks.len(),
            hunks.last(),
            colors,
        )
    }
}

fn push_base(out: &mut String, hunk: &ConflictHunk, colors: bool)
    ensures
        final(out)@ == old(out)@ + base_text(hunk@, colors),
{
    let ghost start = out@;
    match &hunk.base {
        Some(base) => {
            push_label_line(out, "original (common ancestor):", colors);
            push_side(out, base, colors);
        },
        None => {},
    }
    assert(out@ =~= start + base_text(hunk@, colors));
}

fn push_section(out: &mut String, context: ConflictContext, number: u64, hunk: &ConflictHunk, colors: bool)
    ensures
        final(out)@ == old(out)@ + section_text(context, number as nat, hunk@, colors),
{
    let ghost start = out@;
    push_str(out, "\n");
    let mut t = owned("Section ");
    push_decimal(&mut t, number);
    push_str(&mut t, ":");
    push_line(out, label(t.as_str(), colors).as_str());
    push_label_line(out, "your changes:", colors);
    let ghost p1 = out@;
    let mine = side_lines(hunk, context.mine());
    push_side(out, &mine, colors);
    let ghost p2 = out@;
    push_base(out, hunk, colors);
    let ghost p3 = out@;
    let mut t = owned(context.incoming_label());
    push_str(&mut t, ":");
    push_label_line(out, t.as_str(), colors);
    let theirs = side_lines(hunk, context.incoming());
    push_side(out, &theirs, colors);
    assert(string_views(mine@) == side_of(hunk@, mine_side(context)));
    assert(string_views(theirs@) == side_of(hunk@, incoming_side(context)));
    assert(out@ =~= start + section_text(context, number as nat, hunk@, colors));
}

/// Render every section of a file's conflict.
pub fn print_full_conflict(context: ConflictContext, file: &ConflictFile, colors: bool) -> (r: String)
    requires
        file.hunks@.len() < u64::MAX,
    ensures
        r@ == full_conflict_text(context, hunk_views(file.hunks@), colors),
{
    let mut out = String::new();
    let mut i: usize = 0;
    while i < file.hunks.len()
        invariant
            i <= file.hunks@.len(),
            file.hunks@.len() < u64::MAX,
            out@ == full_conflict_text(context, hunk_views(file.hunks@).take(i as int), colors),
        decreases file.hunks@.len() - i,
    {
        push_section(&mut out, context, (i + 1) as u64, &file.hunks[i], colors);
        proof {
            let t = hunk_views(file.hunks@).take(i + 1);
            assert(t.drop_last() =~= hunk_views(file.hunks@).take(i as int));
            assert(t.last() == file.hunks@[i as int]@);
        }
        i += 1;
    }
    assert(hunk_views(file.hunks@).take(file.hunks@.len() as int) =~= hunk_views(file.hunks@));
    out
}

/// What is shown after a side (or an edit) was kept for a file.
pub open spec fn kept_text(path: Seq<char>, what: Seq<char>, colors: bool) -> Seq<char> {
    ok_spec("Kept "@ + what + " for "@ + path + "."@, colors) + "\n"@
}

/// Render the confirmation that `what` was kept for `path`.
pub fn print_kept(path: &str, what: &str, colors: bool) -> (r: String)
    ensures
        r@ == kept_text(path@, what@, colors),
{
    let mut t = owned("Kept ");
    push_str(&mut t, what);
    push_str(&mut t, " for ");
    push_str(&mut t, path);
    push_str(&mut t, ".");
    let mut out = ok(t.as_str(), colors);
    push_str(&mut out, "\n");
    out
}

/// What is shown when files are still conflicted after the pass: how many,
/// which, how many were skipped (when any), and the way back.
pub open spec fn still_pending_text(remaining: Seq<Seq<char>>, skipped: nat, colors: bool) -> Seq<
    char,
> {
    "\n"@ + warn_spec(
        "Still "@ + decimal(remaining.len()) + " file"@ + suffix(remaining.len())
            + " to resolve. No changes have been lost."@,
        colors,
    ) + "\n"@ + file_list_text(remaining, colors) + if skipped > 0 {
        "  "@ + label_spec(
            "You skipped "@ + decimal(skipped) + ". Re-run `smoothee resolve` to finish."@,
            colors,
        ) + "\n"@
    } else {
        seq![]
    } + "  "@ + label_spec("Or `smoothee undo` to return to before the operation."@, colors)
        + "\n"@
}

/// Render the report of files still left to resolve.
pub fn print_still_pending(remaining: &Vec<String>, skipped: u32, colors: bool) -> (r: String)
    requires
        remaining@.len() < u64::MAX,
    ensures
        r@ == still_pending_text(string_views(remaining@), skipped as nat, colors),
{
    let mut out = owned("\n");
    let mut t = owned("Still ");
    push_decimal(&mut t, remaining.len() as u64);
    push_str(&mut t, " file");
    push_str(&mut t, plural(remaining.len()));
    push_str(&mut t, " to resolve. No changes have been lost.");
    push_line(&mut out, warn(t.as_str(), colors).as_str());
    let list = print_file_list(remaining, colors);
    push_str(&mut out, list.as_str());
    if skipped > 0 {
        let mut t = owned("You skipped ");
        push_decimal(&mut t, skipped as u64);
        push_str(&mut t, ". Re-run `smoothee resolve` to finish.");
        push_label_line(&mut out, t.as_str(), colors);
    }
    push_label_line(&mut out, "Or `smoothee undo` to return to before the operation.", colors);
    assert(string_views(remaining@).len() == remaining@.len());
    assert(out@ =~= still_pending_text(string_views(remaining@), skipped as nat, colors));
    out
}

/// What is shown when the user chooses not to finish yet.
pub open spec fn finish_deferred_text(context: ConflictContext, colors: bool) -> Seq<char> {
    "  "@ + label_spec("Everything is staged, but the operation isn't finished yet."@, colors)
        + "\n"@ + "  "@ + label_spec(
        "Finish when ready with: "@ + finish_hint_text(context),
        colors,
    ) + "\n"@
}

/// Render the reminder that the operation is staged but not finished.
pub fn print_finish_deferred(context: ConflictContext, colors: bool) -> (r: String)
    ensures
        r@ == finish_deferred_text(context, colors),
{
    let mut out = String::new();
    push_label_line(&mut out, "Everything is staged, but the operation isn't finished yet.", colors);
    let mut t = owned("Finish when ready with: ");
    push_str(&mut t, finish_hint(context));
    push_label_line(&mut out, t.as_str(), colors);
    assert(out@ =~= finish_deferred_text(context, colors));
    out
}

/// What is shown once finishing was attempted: completion and the way back,
/// the next commit's conflicts of a rebase, or that conflicts remain.
pub open spec fn finished_text(context: ConflictContext, outcome: FinishOutcomeView, colors: bool) -> Seq<
    char,
> {
    match outcome {
        FinishOutcomeView::Completed { .. } => ok_spec(
            "The "@ + context_verb(context) + " is complete. No changes have been lost."@,
            colors,
        ) + "\n"@ + "  "@ + label_spec(
            "Changed your mind? `smoothee undo` reverses the resolution."@,
            colors,
        ) + "\n"@,
        FinishOutcomeView::MoreConflicts { files } => warn_spec(
            "The rebase advanced, then stopped on the next commit's conflicts."@,
            colors,
        ) + "\n"@ + file_list_text(files, colors) + "\n"@ + "  "@ + label_spec(
            "Run `smoothee resolve` again to continue, or `smoothee undo` to stop."@,
            colors,
        ) + "\n"@,
        FinishOutcomeView::Blocked { files } => warn_spec(
            "Some files are still conflicted, so the operation can't finish yet."@,
            colors,
        ) + "\n"@ + file_list_text(files, colors),
    }
}

/// Render how finishing the operation went.
pub fn print_finished(context: ConflictContext, outcome: &FinishOutcome, colors: bool) -> (r: String)
    ensures
        r@ == finished_text(context, outcome@, colors),
{
    let mut out = String::new();
    match outcome {
        FinishOutcome::Completed { .. } => {
            let mut t = owned("The ");
            push_str(&mut t, context.verb());
            push_str(&mut t, " is complete. No changes have been lost.");
            push_line(&mut out, ok(t.as_str(), colors).as_str());
            push_label_line(
                &mut out,
                "Changed your mind? `smoothee undo` reverses the resolution.",
                colors,
            );
        },
        FinishOutcome::MoreConflicts { files } => {
            push_line(
                &mut out,
                warn("The rebase advanced, then stopped on the next commit's conflicts.", colors).as_str(),
            );
            let list = print_file_list(files, colors);
            push_str(&mut out, list.as_str());
            push_str(&mut out, "\n");
            push_label_line(
                &mut out,
                "Run `smoothee resolve` again to continue, or `smoothee undo` to stop.",
                colors,
            );
        },
        FinishOutcome::Blocked { files } => {
            push_line(
                &mut out,
                warn("Some files are still conflicted, so the operation can't finish yet.", colors).as_str(),
            );
            let list = print_file_list(files, colors);
            push_str(&mut out, list.as_str());
        },
    }
    assert(out@ =~= finished_text(context, outcome@, colors));
    out
}

} // verus!
