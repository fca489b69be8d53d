use smoothee::git::conflicts::{parse, ConflictContext, ConflictFile, Side};
use smoothee::verification::conflict_markers::has_conflict_markers;

#[test]
fn parses_two_way_conflict() {
    let content = "\
context before
<<<<<<< HEAD
our line one
our line two
=======
their line
>>>>>>> feature
context after
";
    let hunks = parse(content);
    assert_eq!(hunks.len(), 1);
    assert_eq!(hunks[0].ours, vec!["our line one", "our line two"]);
    assert_eq!(hunks[0].theirs, vec!["their line"]);
    assert!(hunks[0].base.is_none());
}

#[test]
fn parses_diff3_conflict_with_base() {
    let content = "\
<<<<<<< HEAD
ours
||||||| merged common ancestors
base
=======
theirs
>>>>>>> other
";
    let hunks = parse(content);
    assert_eq!(hunks.len(), 1);
    assert_eq!(hunks[0].ours, vec!["ours"]);
    assert_eq!(hunks[0].base.as_deref(), Some(&["base".to_string()][..]));
    assert_eq!(hunks[0].theirs, vec!["theirs"]);
}

#[test]
fn parses_multiple_hunks() {
    let content = "\
<<<<<<< HEAD
a
=======
b
>>>>>>> x
middle
<<<<<<< HEAD
c
=======
d
>>>>>>> x
";
    let hunks = parse(content);
    assert_eq!(hunks.len(), 2);
    assert_eq!(hunks[0].ours, vec!["a"]);
    assert_eq!(hunks[1].theirs, vec!["d"]);
}

#[test]
fn no_markers_yields_no_hunks() {
    assert!(parse("just\nregular\nlines\n").is_empty());
}

#[test]
fn context_maps_sides_to_intent() {
    assert_eq!(ConflictContext::Merge.mine(), Side::Ours);
    assert_eq!(ConflictContext::Merge.incoming(), Side::Theirs);
    assert_eq!(ConflictContext::Rebase.mine(), Side::Theirs);
    assert_eq!(ConflictContext::Rebase.incoming(), Side::Ours);
    assert_eq!(ConflictContext::Merge.verb(), "merge");
    assert_eq!(ConflictContext::Rebase.journal_kind(), "resolve_rebase");
}

#[test]
fn side_flags_are_git_flags() {
    assert_eq!(Side::Ours.flag(), "--ours");
    assert_eq!(Side::Theirs.flag(), "--theirs");
}

#[test]
fn unreadable_file_has_no_hunks() {
    let file = ConflictFile::from_content("does-not-exist", None);
    assert!(!file.readable);
    assert!(file.hunks.is_empty());
    let text = ConflictFile::from_content("f.txt", Some("<<<<<<< a\nx\n=======\ny\n>>>>>>> b\n"));
    assert!(text.readable);
    assert_eq!(text.hunks.len(), 1);
}

#[test]
fn context_detection_prefers_rebase() {
    assert_eq!(ConflictContext::detect(true, true), ConflictContext::Rebase);
    assert_eq!(ConflictContext::detect(false, true), ConflictContext::Merge);
    assert_eq!(ConflictContext::detect(false, false), ConflictContext::Other);
}

#[test]
fn detects_start_and_end_markers() {
    assert!(has_conflict_markers("a\n<<<<<<< HEAD\nb\n"));
    assert!(has_conflict_markers("a\n>>>>>>> feature\nb\n"));
    assert!(has_conflict_markers("a\n||||||| base\nb\n"));
}

#[test]
fn clean_content_has_no_markers() {
    assert!(!has_conflict_markers("just some\nresolved code\n"));
}

#[test]
fn bare_separator_is_not_flagged() {
    assert!(!has_conflict_markers("Title\n=======\nbody\n"));
}

#[test]
fn shorter_runs_are_not_markers() {
    assert!(!has_conflict_markers("<<<< not a marker\n"));
}

#[test]
fn unclosed_block_at_end_is_no_hunk() {
    let content = "a\n<<<<<<< HEAD\nmine\n=======\ntheirs\n>>>>>>> b\n<<<<<<< HEAD\nleft open\n=======\n";
    let hunks = parse(content);
    assert_eq!(hunks.len(), 1);
    assert_eq!(hunks[0].ours, vec!["mine".to_string()]);
    assert_eq!(hunks[0].base, None);
    assert_eq!(hunks[0].theirs, vec!["theirs".to_string()]);
}
