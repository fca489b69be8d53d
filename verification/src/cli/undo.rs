//! `smoothee undo` — reverse the last Smoothee-managed operation.
//!
//! The wording around the undo engine: what will be reversed and the restore
//! point involved. Approval (undo *discards* the current post-operation
//! state, so the default is "no") and printing are the binary's job.
use vstd::prelude::*;

use crate::git::restore::{strip_refs, without_refs};
use crate::operations::journal::OperationRecord;
use crate::operations::undo::{UndoReport, UndoReportView};
use crate::text::{byte_prefix, byte_prefix_of, cuts_cleanly, owned, push_str, same_text};
use crate::ui::output::{bullet, bullet_spec, label, label_spec, ok, ok_spec};

verus! {

/// Flags parsed for `smoothee undo`.
#[derive(Debug, Clone, Copy, Default)]
pub struct UndoArgs {
    /// Skip the confirmation prompt.
    pub yes: bool,
}

/// A plain-language description of an operation of `kind` on `branch`.
pub open spec fn description(kind: Seq<char>, branch: Seq<char>) -> Seq<char> {
    if kind == "sync_rebase"@ {
        "Synced "@ + branch + " using rebase"@
    } else if kind == "sync_merge"@ {
        "Synced "@ + branch + " using merge"@
    } else if kind == "resolve_merge"@ {
        "Resolved conflicts on "@ + branch + " (merge)"@
    } else if kind == "resolve_rebase"@ {
        "Resolved conflicts on "@ + branch + " (rebase)"@
    } else {
        kind + " on "@ + branch
    }
}

/// Plain-language description of an operation kind for the "Last operation" line.
pub fn describe(kind: &str, branch: &str) -> (r: String)
    ensures
        r@ == description(kind@, branch@),
{
    let mut s;
    if same_text(kind, "sync_rebase") {
        s = owned("Synced ");
        push_str(&mut s, branch);
        push_str(&mut s, " using rebase");
    } else if same_text(kind, "sync_merge") {
        s = owned("Synced ");
        push_str(&mut s, branch);
        push_str(&mut s, " using merge");
    } else if same_text(kind, "resolve_merge") {
        s = owned("Resolved conflicts on ");
        push_str(&mut s, branch);
        push_str(&mut s, " (merge)");
    } else if same_text(kind, "resolve_rebase") {
        s = owned("Resolved conflicts on ");
        push_str(&mut s, branch);
        push_str(&mut s, " (rebase)");
    } else {
        s = owned(kind);
        push_str(&mut s, " on ");
        push_str(&mut s, branch);
    }
    s
}

/// Abbreviate a commit SHA for display, mirroring Git's short hashes: its
/// first 8 bytes, or all of it when it is shorter. Cutting inside a
/// character would panic, so such an input is excluded.
pub fn short(sha: &str) -> (r: String)
    requires
        cuts_cleanly(sha@, 0, 8),
    ensures
        r@ == byte_prefix(sha@, 8),
{
    byte_prefix_of(sha, 8)
}

/// The "Last operation" block shown before asking to undo `target`.
pub open spec fn target_text(kind: Seq<char>, branch: Seq<char>, restore_ref: Option<Seq<char>>, colors: bool) -> Seq<char> {
    label_spec("Last operation:"@, colors) + "\n"@ + bullet_spec(description(kind, branch), colors)
        + "\n"@ + match restore_ref {
        Some(r) => "\n  "@ + label_spec("Restore point: "@ + without_refs(r), colors) + "\n"@,
        None => seq![],
    }
}

/// Render what `undo` is about to reverse.
pub fn print_target(target: &OperationRecord, colors: bool) -> (r: String)
    ensures
        r@ == target_text(target@.kind, target@.branch, target@.restore_ref, colors),
{
    let mut out = label("Last operation:", colors);
    push_str(&mut out, "\n");
    let d = describe(target.kind.as_str(), target.branch.as_str());
    let b = bullet(d.as_str(), colors);
    push_str(&mut out, b.as_str());
    push_str(&mut out, "\n");
    if let Some(restore_ref) = &target.before.restore_ref {
        let mut text = owned("Restore point: ");
        let shown = strip_refs(restore_ref.as_str());
        push_str(&mut text, shown.as_str());
        push_str(&mut out, "\n  ");
        let l = label(text.as_str(), colors);
        push_str(&mut out, l.as_str());
        push_str(&mut out, "\n");
    }
    assert(out@ =~= target_text(target@.kind, target@.branch, target@.restore_ref, colors));
    out
}

/// The line for an in-progress operation that was aborted first.
pub open spec fn aborted_text(aborted: Option<Seq<char>>, colors: bool) -> Seq<char> {
    match aborted {
        Some(op) => ok_spec("Aborted the in-progress "@ + op + "."@, colors) + "\n"@,
        None => seq![],
    }
}

/// What is shown after an undo: the in-progress operation aborted first, if
/// any, what was reversed, and the HEAD it moved from and to (abbreviated).
pub open spec fn report_text(r: UndoReportView, colors: bool) -> Seq<char> {
    aborted_text(r.aborted, colors) + ok_spec(
        "Reversed: "@ + description(r.kind, r.branch) + ". No changes have been lost."@,
        colors,
    ) + "\n"@ + "  "@ + label_spec(byte_prefix(r.from, 8) + " → "@ + byte_prefix(r.to, 8), colors)
        + "\n"@
}

/// Render what an undo did.
pub fn print_report(report: &UndoReport, colors: bool) -> (r: String)
    requires
        cuts_cleanly(report.from@, 0, 8),
        cuts_cleanly(report.to@, 0, 8),
    ensures
        r@ == report_text(report@, colors),
{
    let mut out = String::new();
    if let Some(op) = report.aborted {
        let mut t = owned("Aborted the in-progress ");
        push_str(&mut t, op);
        push_str(&mut t, ".");
        let l = ok(t.as_str(), colors);
        push_str(&mut out, l.as_str());
        push_str(&mut out, "\n");
    }
    let mut t = owned("Reversed: ");
    let d = describe(report.kind.as_str(), report.branch.as_str());
    push_str(&mut t, d.as_str());
    push_str(&mut t, ". No changes have been lost.");
    let l = ok(t.as_str(), colors);
    push_str(&mut out, l.as_str());
    push_str(&mut out, "\n");
    let mut t = short(report.from.as_str());
    push_str(&mut t, " → ");
    let to = short(report.to.as_str());
    push_str(&mut t, to.as_str());
    push_str(&mut out, "  ");
    let l = label(t.as_str(), colors);
    push_str(&mut out, l.as_str());
    push_str(&mut out, "\n");
    assert(out@ =~= report_text(report@, colors));
    out
}

} // verus!
