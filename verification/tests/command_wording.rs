use smoothee::cli::doctor::{base_source_note, print_configuration, ConfigLookup};
use smoothee::cli::history::{kind_label, short_id, short_sha, status_label};
use smoothee::cli::pr::{suggested_body, suggested_title};
use smoothee::cli::recover;
use smoothee::cli::resolve::{choose_for_file, finish_hint, menu, side_lines, FileChoice};
use smoothee::cli::sync::{cli_override, print_up_to_date, SyncArgs};
use smoothee::cli::undo::{describe, short};
use smoothee::config::repository::{RepoConfig, VerificationConfig};
use smoothee::git::branches::BaseBranchSource;
use smoothee::git::conflicts::{ConflictContext, ConflictHunk, Side};
use smoothee::operations::journal::OperationStatus;
use smoothee::operations::sync::ResolvedStrategy;

#[test]
fn base_source_notes_are_plain_language() {
    assert_eq!(base_source_note(BaseBranchSource::Configured), " (configured)");
    assert_eq!(base_source_note(BaseBranchSource::RemoteHead), " (from origin)");
    assert_eq!(base_source_note(BaseBranchSource::Conventional), " (guessed)");
}

#[test]
fn labels_known_operation_kinds() {
    assert_eq!(kind_label("sync_rebase"), "sync (rebase)");
    assert_eq!(kind_label("resolve_merge"), "resolve (merge)");
    assert_eq!(kind_label("future_kind"), "future kind");
}

#[test]
fn short_sha_handles_short_values() {
    assert_eq!(short_sha("abcdef123456"), "abcdef12");
    assert_eq!(short_sha("abc"), "abc");
}

#[test]
fn short_sha_is_human_sized() {
    assert_eq!(recover::short_sha("abcdef123456"), "abcdef12");
    assert_eq!(recover::short_sha("abc"), "abc");
}

#[test]
fn short_values_never_split_a_character() {
    // Eight bytes would end inside the last character: the whole value stays.
    assert_eq!(short_sha("abcdefg\u{e9}"), "abcdefg\u{e9}");
    assert_eq!(short_sha("abcdef\u{e9}xyz"), "abcdef\u{e9}");
    assert_eq!(short_id("op_1700000000000_0001_extra"), "op_1700000000000_0001_ex");
}

#[test]
fn status_labels_name_every_state() {
    assert_eq!(status_label(OperationStatus::Started), "started / incomplete");
    assert_eq!(status_label(OperationStatus::Completed), "completed");
    assert_eq!(status_label(OperationStatus::Failed), "failed");
    assert_eq!(status_label(OperationStatus::UndoneByUser), "undone");
}

#[test]
fn menu_names_the_incoming_side_by_context() {
    assert!(menu(ConflictContext::Merge, true).contains("the incoming branch"));
    assert!(menu(ConflictContext::Rebase, true).contains("the base branch"));
    let m = menu(ConflictContext::Merge, false);
    assert!(!m.contains("edit"));
    assert!(m.contains("skip"));
}

#[test]
fn finish_hint_matches_context() {
    assert_eq!(finish_hint(ConflictContext::Rebase), "git rebase --continue");
    assert_eq!(finish_hint(ConflictContext::Merge), "git commit --no-edit");
}

#[test]
fn side_lines_pick_the_requested_side() {
    let hunk = ConflictHunk { ours: vec!["o".into()], base: None, theirs: vec!["t".into()] };
    assert_eq!(side_lines(&hunk, Side::Ours), vec!["o".to_string()]);
    assert_eq!(side_lines(&hunk, Side::Theirs), vec!["t".to_string()]);
}

#[test]
fn answers_map_to_file_choices() {
    assert_eq!(choose_for_file(ConflictContext::Rebase, true, Some('y')), FileChoice::Keep(Side::Theirs));
    assert_eq!(choose_for_file(ConflictContext::Merge, true, Some('i')), FileChoice::Keep(Side::Theirs));
    assert_eq!(choose_for_file(ConflictContext::Merge, false, Some('e')), FileChoice::AskAgain);
    assert_eq!(choose_for_file(ConflictContext::Merge, true, Some('d')), FileChoice::ShowDiff);
    assert_eq!(choose_for_file(ConflictContext::Merge, true, None), FileChoice::Skip);
    assert_eq!(choose_for_file(ConflictContext::Merge, true, Some('q')), FileChoice::AskAgain);
}

#[test]
fn describes_known_and_unknown_kinds() {
    assert_eq!(describe("sync_rebase", "feature"), "Synced feature using rebase");
    assert_eq!(describe("sync_merge", "feature"), "Synced feature using merge");
    assert_eq!(describe("resolve_merge", "feature"), "Resolved conflicts on feature (merge)");
    assert_eq!(describe("other_op", "feature"), "other_op on feature");
}

#[test]
fn short_abbreviates_long_shas() {
    assert_eq!(short("0123456789abcdef"), "01234567");
    assert_eq!(short("abc"), "abc");
}

#[test]
fn sync_flags_force_a_strategy_only_alone() {
    assert_eq!(cli_override(&SyncArgs { rebase: true, ..Default::default() }), Some(ResolvedStrategy::Rebase));
    assert_eq!(cli_override(&SyncArgs { merge: true, ..Default::default() }), Some(ResolvedStrategy::Merge));
    assert_eq!(cli_override(&SyncArgs { rebase: true, merge: true, ..Default::default() }), None);
    assert_eq!(cli_override(&SyncArgs::default()), None);
}

#[test]
fn up_to_date_mentions_commits_ahead() {
    assert_eq!(print_up_to_date(0, "main", false), "✓ Already up to date with main.\n");
    assert_eq!(
        print_up_to_date(1, "main", false),
        "✓ Already up to date with main.\n  You are 1 commit ahead — `smoothee pr` when you're ready to share.\n"
    );
}

#[test]
fn configuration_lists_configured_checks() {
    let mut config = RepoConfig::default();
    config.verification = VerificationConfig { lint: Some("cargo clippy".into()), test: Some("cargo test".into()), ..Default::default() };
    let out = print_configuration(&ConfigLookup::Loaded { config, path: "/r/.smoothee.toml".into(), present: true }, false);
    assert_eq!(
        out,
        "Configuration:\n  • ✓ repo config: /r/.smoothee.toml\n  • ✓ sync strategy: Auto\n  • ✓ lint: cargo clippy\n  • ✓ test: cargo test\n"
    );
    let none = print_configuration(&ConfigLookup::Loaded { config: RepoConfig::default(), path: "/r/.smoothee.toml".into(), present: false }, false);
    assert!(none.contains("not present (defaults are in use)"));
    assert!(none.contains("⚠ no verification commands configured"));
}

#[test]
fn pull_request_text_comes_from_subjects() {
    assert_eq!(suggested_title("Add login\nFix typo\n"), "Add login");
    assert_eq!(suggested_title(""), "Update project");
    assert_eq!(suggested_body("First\nSecond\n"), "## Summary\n\n- First\n- Second");
    assert_eq!(suggested_body(""), "## Summary");
}
