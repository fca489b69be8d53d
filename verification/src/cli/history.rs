//! `smoothee history` — inspect Smoothee-managed operations.
use vstd::prelude::*;

use crate::operations::journal::{OperationRecord, OperationStatus, RecordView};
use crate::text::{
    byte_prefix, byte_prefix_of, owned, push_str, replace_char, replace_char_of, same_text,
};
use crate::ui::output::{bullet, bullet_spec, heading, heading_spec, warn, warn_spec};

verus! {

/// Flags parsed for `smoothee history`.
#[derive(Debug, Clone, Copy)]
pub struct HistoryArgs {
    /// How many of the most recent operations to show; at least 1.
    pub limit: usize,
}

/// How an operation kind reads in the history: the known kinds get their
/// strategy in brackets, any other kind has its underscores read as spaces.
pub open spec fn kind_text(kind: Seq<char>) -> Seq<char> {
    if kind == "sync_rebase"@ {
        "sync (rebase)"@
    } else if kind == "sync_merge"@ {
        "sync (merge)"@
    } else if kind == "resolve_rebase"@ {
        "resolve (rebase)"@
    } else if kind == "resolve_merge"@ {
        "resolve (merge)"@
    } else if kind == "undo"@ {
        "undo"@
    } else {
        replace_char(kind, '_', ' ')
    }
}

/// The label shown for an operation kind.
pub fn kind_label(kind: &str) -> (r: String)
    ensures
        r@ == kind_text(kind@),
{
    if same_text(kind, "sync_rebase") {
        owned("sync (rebase)")
    } else if same_text(kind, "sync_merge") {
        owned("sync (merge)")
    } else if same_text(kind, "resolve_rebase") {
        owned("resolve (rebase)")
    } else if same_text(kind, "resolve_merge") {
        owned("resolve (merge)")
    } else if same_text(kind, "undo") {
        owned("undo")
    } else {
        replace_char_of(kind, '_', ' ')
    }
}

pub open spec fn status_text(status: OperationStatus) -> Seq<char> {
    match status {
        OperationStatus::Started => "started / incomplete"@,
        OperationStatus::Completed => "completed"@,
        OperationStatus::Failed => "failed"@,
        OperationStatus::UndoneByUser => "undone"@,
    }
}

/// The label shown for an operation's status.
pub fn status_label(status: OperationStatus) -> (r: &'static str)
    ensures
        r@ == status_text(status),
{
    match status {
        OperationStatus::Started => "started / incomplete",
        OperationStatus::Completed => "completed",
        OperationStatus::Failed => "failed",
        OperationStatus::UndoneByUser => "undone",
    }
}

/// A commit id cut to its first 8 bytes, as Git abbreviates it.
pub fn short_sha(value: &str) -> (r: String)
    ensures
        r@ == byte_prefix(value@, 8),
{
    byte_prefix_of(value, 8)
}

/// An operation id cut to its first 24 bytes.
pub fn short_id(value: &str) -> (r: String)
    ensures
        r@ == byte_prefix(value@, 24),
{
    byte_prefix_of(value, 24)
}

/// The first lines of a history block: a heading with the operation's time
/// and kind, then its status, branch and starting head.
pub open spec fn record_head_text(r: RecordView, time: Seq<char>, colors: bool) -> Seq<char> {
    heading_spec(time + "  "@ + kind_text(r.kind), colors) + "\n"@ + bullet_spec(
        "Status: "@ + status_text(r.status),
        colors,
    ) + "\n"@ + bullet_spec("Branch: "@ + r.branch, colors) + "\n"@ + bullet_spec(
        "Before: "@ + byte_prefix(r.before_head, 8),
        colors,
    ) + "\n"@
}

/// The resulting head, once the operation has one.
pub open spec fn after_line(r: RecordView, colors: bool) -> Seq<char> {
    match r.after_head {
        Some(h) => bullet_spec("After: "@ + byte_prefix(h, 8), colors) + "\n"@,
        None => seq![],
    }
}

/// For an undo, the operation it reversed.
pub open spec fn undid_line(r: RecordView, colors: bool) -> Seq<char> {
    match r.undoes {
        Some(t) => bullet_spec("Undid: "@ + byte_prefix(t, 24), colors) + "\n"@,
        None => seq![],
    }
}

/// Whether the operation's restore point is still there, when it made one.
pub open spec fn restore_line(r: RecordView, restore_exists: bool, colors: bool) -> Seq<char> {
    match r.restore_ref {
        Some(_) => bullet_spec(
            "Restore point: "@ + if restore_exists {
                "available"@
            } else {
                "missing"@
            },
            colors,
        ) + "\n"@,
        None => seq![],
    }
}

/// The marker on the operation `undo` would reverse, and the warning on one
/// that never recorded an outcome.
pub open spec fn flag_lines(r: RecordView, undo_target: Option<Seq<char>>, colors: bool) -> Seq<
    char,
> {
    let undo = if undo_target == Some(r.id) {
        bullet_spec("Undo: available (`smoothee undo`)"@, colors) + "\n"@
    } else {
        seq![]
    };
    let unfinished = if r.status == OperationStatus::Started {
        bullet_spec(
            warn_spec(
                "Operation has no recorded outcome; this may indicate an interrupted run."@,
                colors,
            ),
            colors,
        ) + "\n"@
    } else {
        seq![]
    };
    undo + unfinished
}

/// The lines a history block holds only where they apply.
pub open spec fn record_detail_text(
    r: RecordView,
    restore_exists: bool,
    undo_target: Option<Seq<char>>,
    colors: bool,
) -> Seq<char> {
    after_line(r, colors) + undid_line(r, colors) + restore_line(r, restore_exists, colors)
        + flag_lines(r, undo_target, colors)
}

/// The block shown for one journaled operation, then a blank line.
pub open spec fn record_text(
    r: RecordView,
    time: Seq<char>,
    restore_exists: bool,
    undo_target: Option<Seq<char>>,
    colors: bool,
) -> Seq<char> {
    record_head_text(r, time, colors) + record_detail_text(r, restore_exists, undo_target, colors)
        + "\n"@
}

fn push_line(out: &mut String, line: String)
    ensures
        final(out)@ == old(out)@ + line@ + "\n"@,
{
    push_str(out, line.as_str());
    push_str(out, "\n");
}

fn labelled(prefix: &str, value: &str) -> (r: String)
    ensures
        r@ == prefix@ + value@,
{
    let mut s = owned(prefix);
    push_str(&mut s, value);
    s
}

fn push_record_head(out: &mut String, record: &OperationRecord, time: &str, colors: bool)
    ensures
        final(out)@ == old(out)@ + record_head_text(record@, time@, colors),
{
    let mut title = owned(time);
    push_str(&mut title, "  ");
    let k = kind_label(record.kind.as_str());
    push_str(&mut title, k.as_str());
    push_line(out, heading(title.as_str(), colors));
    push_line(out, bullet(labelled("Status: ", status_label(record.status)).as_str(), colors));
    push_line(out, bullet(labelled("Branch: ", record.branch.as_str()).as_str(), colors));
    let before = short_sha(record.before.head.as_str());
    push_line(out, bullet(labelled("Before: ", before.as_str()).as_str(), colors));
}

fn push_history_lines(out: &mut String, record: &OperationRecord, restore_exists: bool, colors: bool)
    ensures
        final(out)@ == old(out)@ + after_line(record@, colors) + undid_line(record@, colors)
            + restore_line(record@, restore_exists, colors),
{
    let ghost start = out@;
    if let Some(after) = &record.after {
        let h = short_sha(after.head.as_str());
        push_line(out, bullet(labelled("After: ", h.as_str()).as_str(), colors));
    }
    assert(out@ =~= start + after_line(record@, colors));
    let ghost mid = out@;
    if let Some(target) = &record.undoes {
        let t = short_id(target.as_str());
        push_line(out, bullet(labelled("Undid: ", t.as_str()).as_str(), colors));
    }
    assert(out@ =~= mid + undid_line(record@, colors));
    let ghost mid2 = out@;
    if record.before.restore_ref.is_some() {
        let state = if restore_exists {
            "available"
        } else {
            "missing"
        };
        push_line(out, bullet(labelled("Restore point: ", state).as_str(), colors));
    }
    assert(out@ =~= mid2 + restore_line(record@, restore_exists, colors));
}

fn push_flag_lines(out: &mut String, record: &OperationRecord, undo_target: Option<&str>, colors: bool)
    ensures
        final(out)@ == old(out)@ + flag_lines(
            record@,
            match undo_target {
                Some(t) => Some(t@),
                None => None,
            },
            colors,
        ),
{
    let ghost start = out@;
    let is_target = match undo_target {
        Some(t) => same_text(t, record.id.as_str()),
        None => false,
    };
    if is_target {
        push_line(out, bullet("Undo: available (`smoothee undo`)", colors));
    }
    let ghost mid = out@;
    if record.status == OperationStatus::Started {
        let w = warn(
            "Operation has no recorded outcome; this may indicate an interrupted run.",
            colors,
        );
        push_line(out, bullet(w.as_str(), colors));
    }
    assert(out@ =~= start + flag_lines(
        record@,
        match undo_target {
            Some(t) => Some(t@),
            None => None,
        },
        colors,
    ));
}

/// Render one journaled operation. `time` is its start time as the user's
/// clock shows it, `restore_exists` whether its restore point is still there,
/// and `undo_target` the id of the operation `undo` would reverse.
pub fn render_record(
    record: &OperationRecord,
    time: &str,
    restore_exists: bool,
    undo_target: Option<&str>,
    colors: bool,
) -> (out: String)
    ensures
        out@ == record_text(
            record@,
            time@,
            restore_exists,
            match undo_target {
                Some(t) => Some(t@),
                None => None,
            },
            colors,
        ),
{
    let mut out = String::new();
    push_record_head(&mut out, record, time, colors);
    push_history_lines(&mut out, record, restore_exists, colors);
    push_flag_lines(&mut out, record, undo_target, colors);
    push_str(&mut out, "\n");
    assert(out@ =~= record_text(
        record@,
        time@,
        restore_exists,
        match undo_target {
            Some(t) => Some(t@),
            None => None,
        },
        colors,
    ));
    out
}

} // verus!
