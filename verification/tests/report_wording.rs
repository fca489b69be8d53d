use smoothee::cli::commit::{decide_commit, print_decision, CommitArgs};
use smoothee::cli::doctor::print_environment;
use smoothee::cli::resolve::{
    print_clean, print_conflict_header, print_finish_deferred, print_finished,
    print_full_conflict, print_kept, print_still_pending,
};
use smoothee::cli::undo::print_report;
use smoothee::config::global::GlobalPaths;
use smoothee::git::commit::CommitPlan;
use smoothee::git::conflicts::{ConflictContext, ConflictFile};
use smoothee::git::repository::Repository;
use smoothee::operations::journal::format_operation_id;
use smoothee::operations::resolve::{continue_command, FinishOutcome};
use smoothee::operations::undo::UndoReport;
use smoothee::ui::prompt::{approval, read_choice, render_allowed};
use smoothee::git::command::GitError;
use smoothee::operations::journal::JournalError;
use smoothee::operations::recovery::RecoveryError;
use smoothee::operations::resolve::ResolveError;
use smoothee::operations::sync::SyncError;
use smoothee::operations::undo::UndoError;

const CONFLICT: &str = "a\n<<<<<<< HEAD\nmine\n=======\ntheirs\n>>>>>>> branch\nb\n";

#[test]
fn clean_repository_has_nothing_to_resolve() {
    assert_eq!(
        print_clean(false),
        "✓ Nothing to resolve.\n  No merge or rebase is in progress, and no files are conflicted.\n"
    );
}

#[test]
fn header_counts_sections_and_names_the_incoming_side() {
    let file = ConflictFile::from_content("src/a.rs", Some(CONFLICT));
    assert_eq!(
        print_conflict_header(ConflictContext::Merge, &file, false),
        "\nFile: src/a.rs\n  1 conflicting section — your changes vs the incoming branch.\n"
    );
    let binary = ConflictFile::from_content("logo.png", None);
    assert_eq!(
        print_conflict_header(ConflictContext::Rebase, &binary, false),
        "\nFile: logo.png\n  Binary or non-text conflict — choose a whole side.\n"
    );
}

#[test]
fn full_conflict_shows_your_side_first_in_a_rebase() {
    let file = ConflictFile::from_content("a.txt", Some(CONFLICT));
    let text = print_full_conflict(ConflictContext::Rebase, &file, false);
    assert!(text.starts_with("\nSection 1:\n  your changes:\n    theirs\n"), "{text}");
    assert!(text.ends_with("    mine\n"), "{text}");
    let merge = print_full_conflict(ConflictContext::Merge, &file, false);
    assert!(merge.starts_with("\nSection 1:\n  your changes:\n    mine\n"), "{merge}");
}

#[test]
fn empty_side_reads_nothing() {
    let file = ConflictFile::from_content("a.txt", Some("<<<<<<< HEAD\n=======\nx\n>>>>>>> b\n"));
    let text = print_full_conflict(ConflictContext::Merge, &file, false);
    assert!(text.contains("  your changes:\n    (nothing)\n"), "{text}");
}

#[test]
fn kept_and_pending_messages() {
    assert_eq!(print_kept("a.rs", "your edit", false), "✓ Kept your edit for a.rs.\n");
    let remaining = vec!["a.rs".to_string()];
    let text = print_still_pending(&remaining, 1, false);
    assert!(text.starts_with("\n⚠ Still 1 file to resolve. No changes have been lost.\n"), "{text}");
    assert!(text.contains("You skipped 1."), "{text}");
    let none_skipped = print_still_pending(&vec!["a".to_string(), "b".to_string()], 0, false);
    assert!(none_skipped.contains("Still 2 files"), "{none_skipped}");
    assert!(!none_skipped.contains("You skipped"), "{none_skipped}");
}

#[test]
fn deferred_and_finished_messages() {
    assert!(print_finish_deferred(ConflictContext::Rebase, false).contains("git rebase --continue"));
    let done = FinishOutcome::Completed { head: "abc".into() };
    assert!(print_finished(ConflictContext::Merge, &done, false)
        .starts_with("✓ The merge is complete. No changes have been lost.\n"));
    let blocked = FinishOutcome::Blocked { files: vec!["a.rs".into()] };
    assert_eq!(
        print_finished(ConflictContext::Merge, &blocked, false),
        "⚠ Some files are still conflicted, so the operation can't finish yet.\n  • a.rs\n"
    );
}

#[test]
fn finishing_command_matches_the_operation() {
    let repo = Repository::new("/repo", "/repo/.git");
    assert_eq!(continue_command(&repo, ConflictContext::Rebase).display(), "git rebase --continue");
    assert_eq!(continue_command(&repo, ConflictContext::Merge).display(), "git commit --no-edit");
}

#[test]
fn undo_report_names_what_was_reversed() {
    let report = UndoReport {
        kind: "sync_rebase".into(),
        branch: "feature".into(),
        aborted: Some("rebase"),
        from: "0123456789abcdef".into(),
        to: "fedcba9876543210".into(),
    };
    assert_eq!(
        print_report(&report, false),
        "✓ Aborted the in-progress rebase.\n✓ Reversed: Synced feature using rebase. No changes have been lost.\n  01234567 → fedcba98\n"
    );
}

#[test]
fn commit_plan_shows_the_exact_commands() {
    let repo = Repository::new("/repo", "/repo/.git");
    let plan = CommitPlan::from_porcelain(" M src/a.rs\0");
    let args = CommitArgs { message: Some("Fix a".into()), ..Default::default() };
    let decision = decide_commit(&plan, &args).unwrap();
    let text = print_decision(&repo, &plan, &decision, false);
    assert!(text.contains("Stage only the `src` change group\n  src/a.rs\n"), "{text}");
    assert!(text.contains("Commit message:\n  Fix a\n"), "{text}");
    assert!(text.contains("git add -- src/a.rs"), "{text}");
    assert!(text.ends_with("git commit -m \"Fix a\"\n"), "{text}");
}

#[test]
fn environment_reports_what_was_found() {
    let paths = Some(GlobalPaths::from_dirs("/c", "/d"));
    let text = print_environment(&Ok("git version 2.44.0".into()), &None, &paths, false);
    assert_eq!(
        text,
        "Environment:\n  • ✓ git version 2.44.0\n  • ⚠ GitHub CLI not found; `smoothee pr` will need `gh` later\n  • ✓ config dir: /c\n  • ✓ data dir: /d\n"
    );
    let missing = print_environment(&Err("boom".into()), &Some("gh 2".into()), &None, false);
    assert!(missing.contains("Git unavailable: boom"), "{missing}");
    assert!(missing.contains("could not resolve user config/data directories"), "{missing}");
}

#[test]
fn later_ids_sort_after_earlier_ones() {
    assert!(format_operation_id(1700000000123, 9) < format_operation_id(1700000000124, 0));
    assert!(format_operation_id(1700000000123, 1) < format_operation_id(1700000000123, 2));
}

#[test]
fn pull_request_analysis_lists_commits_and_changes() {
    let text = smoothee::cli::pr::print_summary(
        "feature",
        "main",
        2,
        1,
        "abc123 Add x\ndef456 Fix y",
        " a.rs | 2 +-",
        false,
    );
    assert_eq!(
        text,
        "Pull request analysis:\n  • Branch: feature\n  • Base: main\n  • 2 branch-only commit(s)\n  • ⚠ 1 commit(s) behind main\n\nCommits:\n  • abc123 Add x\n  • def456 Fix y\n\nDiff summary:\n   a.rs | 2 +-\n"
    );
    let many: Vec<String> = (0..20).map(|i| format!("c{i}")).collect();
    let long = smoothee::cli::pr::print_summary("f", "m", 20, 0, &many.join("\n"), "", false);
    assert!(long.contains("c11\n") && !long.contains("c12"), "{long}");
    let repo = Repository::new("/repo", "/repo/.git");
    assert_eq!(
        smoothee::cli::pr::commits_command(&repo, "main", "feature").display(),
        "git log --oneline --no-decorate main..feature"
    );
}

#[test]
fn questions_are_never_answered_by_assumption() {
    assert!(!approval(false, false, Some("y"), true));
    assert!(approval(true, false, None, false));
    assert!(approval(false, true, Some("\n"), true));
    assert!(!approval(false, true, Some("\n"), false));
    assert!(approval(false, true, Some(" YES \n"), false));
    assert!(!approval(false, true, None, true));
}

#[test]
fn typed_answers_pick_allowed_keys() {
    assert_eq!(read_choice("  E\n", &['y', 'e']), Some('e'));
    assert_eq!(read_choice("x\n", &['y', 'e']), None);
    assert_eq!(read_choice("\n", &['y']), None);
    assert_eq!(render_allowed(&['y', 'i', 's']), "y / i / s");
}

#[test]
fn git_failures_read_plainly() {
    let failed = GitError::Failed { command: "git fetch origin".into(), code: -1, stderr: "boom".into() };
    assert_eq!(failed.message(), "`git fetch origin` exited with status -1\nboom");
    let code = GitError::Failed { command: "git x".into(), code: 128, stderr: String::new() };
    assert_eq!(code.message(), "`git x` exited with status 128\n");
    let spawn = GitError::Spawn { command: "git status".into(), message: "not found".into() };
    assert_eq!(spawn.message(), "failed to run `git status`: not found");
    let utf8 = GitError::NotUtf8 { command: "git log".into() };
    assert_eq!(utf8.message(), "`git log` produced non-UTF-8 output");
}

#[test]
fn engine_errors_read_plainly() {
    assert_eq!(
        SyncError::DetachedHead.message(),
        "you are not on a branch (detached HEAD); check out a branch before syncing"
    );
    assert_eq!(
        SyncError::MissingRemoteRef("origin/main".into()).message(),
        "no remote branch origin/main was found after fetching (has the base been pushed?)"
    );
    assert_eq!(
        SyncError::OperationFailed { strategy: "rebase", stderr: "conflict".into() }.message(),
        "the `rebase` failed and Smoothee restored your branch to where it was.\nconflict"
    );
    assert_eq!(
        ResolveError::MarkersRemain { path: "a.rs".into() }.message(),
        "a.rs still contains conflict markers; finish editing it first"
    );
    assert_eq!(
        UndoError::Journal(JournalError { message: "disk full".into() }).message(),
        "disk full"
    );
    assert_eq!(
        RecoveryError::WrongBranch { expected: "feature".into(), actual: "main".into() }.message(),
        "recovery only works on the operation's branch (feature); current branch is main"
    );
    assert_eq!(
        RecoveryError::Ambiguous("op_1".into()).message(),
        "'op_1' matches more than one operation; use a longer id from `smoothee history`"
    );
}
