use smoothee::git::status::{AheadBehind, WorkingTreeStatus};

#[test]
fn parses_branch_and_ahead_behind() {
    let raw = "\
# branch.oid abc123
# branch.head feature/login
# branch.upstream origin/feature/login
# branch.ab +4 -6
";
    let s = WorkingTreeStatus::parse(raw);
    assert_eq!(s.branch.as_deref(), Some("feature/login"));
    assert_eq!(s.upstream.as_deref(), Some("origin/feature/login"));
    assert_eq!(s.ahead_behind, Some(AheadBehind { ahead: 4, behind: 6 }));
    assert!(s.is_clean());
}

#[test]
fn tallies_staged_modified_untracked() {
    let raw = "\
# branch.head main
1 M. N... 100644 100644 100644 aaa bbb staged_only.rs
1 .M N... 100644 100644 100644 ccc ddd worktree_only.rs
1 MM N... 100644 100644 100644 eee fff both.rs
? new_file.rs
";
    let s = WorkingTreeStatus::parse(raw);
    assert_eq!(s.staged, 2);
    assert_eq!(s.modified, 2);
    assert_eq!(s.untracked, 1);
    assert_eq!(s.conflicted, 0);
    assert!(!s.is_clean());
}

#[test]
fn counts_unmerged_as_conflicts() {
    let raw = "\
# branch.head main
u UU N... 100644 100644 100644 100644 aaa bbb ccc conflicted.rs
";
    let s = WorkingTreeStatus::parse(raw);
    assert_eq!(s.conflicted, 1);
}

#[test]
fn detects_detached_head_and_initial() {
    let detached = WorkingTreeStatus::parse("# branch.head (detached)\n");
    assert_eq!(detached.branch, None);

    let initial = WorkingTreeStatus::parse("# branch.oid (initial)\n# branch.head main\n");
    assert!(initial.is_initial);
}

#[test]
fn handles_renamed_entries() {
    let raw = "\
# branch.head main
2 R. N... 100644 100644 100644 aaa bbb R100 new.rs\told.rs
";
    let s = WorkingTreeStatus::parse(raw);
    assert_eq!(s.staged, 1);
    assert_eq!(s.modified, 0);
}

#[test]
fn empty_status_is_clean_and_on_no_branch() {
    let s = WorkingTreeStatus::parse("");
    assert!(s.is_clean());
    assert_eq!(s.branch, None);
    assert_eq!(s.upstream, None);
    assert_eq!(s.ahead_behind, None);
    assert!(!s.is_initial);
}

#[test]
fn counts_tally_each_kind_of_line_once() {
    let raw = "# branch.head main\n\
               1 M. N... 100644 100644 100644 aaa bbb staged.rs\n\
               1 .M N... 100644 100644 100644 aaa bbb edited.rs\n\
               1 MM N... 100644 100644 100644 aaa bbb both.rs\n\
               2 R. N... 100644 100644 100644 aaa bbb R100 new.rs\told.rs\n\
               u UU N... 100644 100644 100644 100644 aaa bbb ccc conflicted.rs\n\
               ? fresh.rs\n\
               ? other.rs\n\
               ! ignored.log\n";
    let s = WorkingTreeStatus::parse(raw);
    assert_eq!(s.staged, 3);
    assert_eq!(s.modified, 2);
    assert_eq!(s.conflicted, 1);
    assert_eq!(s.untracked, 2);
}
