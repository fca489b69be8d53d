use smoothee::config::repository::{SyncStrategy, VerificationConfig};
use smoothee::git::restore::{sanitize, RestorePoint};
use smoothee::git::repository::Repository;
use smoothee::operations::journal::{
    format_operation_id, operations, BeforeState, IdSource, OperationRecord, OperationStatus,
};
use smoothee::operations::recovery::{select_operation, RecoveryError};
use smoothee::operations::sync::{choose_strategy, ResolvedStrategy};
use smoothee::operations::undo::find_undo_target;
use smoothee::verification::{all_passed, run_checks};

#[test]
fn sanitizes_branch_names() {
    assert_eq!(sanitize("feature/login"), "feature-login");
    assert_eq!(sanitize("main"), "main");
    assert_eq!(sanitize("a/b/c"), "a-b-c");
}

#[test]
fn restore_points_live_under_the_smoothee_namespace() {
    let repo = Repository::new("/repo", "/repo/.git");
    let (rp, cmd) = RestorePoint::create_at(&repo, "feature/login", "abc123", "2024-01-02-030405");
    assert_eq!(rp.ref_name, "refs/smoothee/restore/feature-login/2024-01-02-030405");
    assert_eq!(rp.display_name(), "smoothee/restore/feature-login/2024-01-02-030405");
    assert_eq!(cmd.display(), "git update-ref refs/smoothee/restore/feature-login/2024-01-02-030405 abc123");
    let (now, _) = RestorePoint::create(&repo, "feature/login", "abc123", "op_1");
    assert!(now.ref_name.starts_with("refs/smoothee/restore/feature-login/"));
    assert!(now.ref_name.len() > "refs/smoothee/restore/feature-login/".len());
    assert_eq!(now.head, "abc123");
}

#[test]
fn ids_are_unique_and_sortable() {
    let mut ids = IdSource::new();
    let a = ids.next_id();
    let b = ids.next_id();
    assert_ne!(a, b);
    assert!(a < b, "ids should sort chronologically: {a} < {b}");
}

#[test]
fn ids_are_zero_padded() {
    assert_eq!(format_operation_id(1700000000123, 7), "op_1700000000123_0007");
    assert_eq!(format_operation_id(5, 12345), "op_0000000000005_12345");
}

fn record(kind: &str, id: &str) -> OperationRecord {
    OperationRecord::begin(id, kind, "/repo", "feature", BeforeState { head: "before".into(), restore_ref: None })
}

#[test]
fn find_target_returns_newest_operation() {
    let ops = vec![record("sync_rebase", "op1"), record("sync_merge", "op2")];
    assert_eq!(find_undo_target(&ops).unwrap().id, "op2");
}

#[test]
fn find_target_skips_already_undone() {
    let target = record("sync_merge", "op2");
    let undo = OperationRecord::undo("op3", &target, "after");
    let ops = vec![record("sync_rebase", "op1"), target, undo];
    assert_eq!(find_undo_target(&ops).unwrap().id, "op1");
}

#[test]
fn find_target_none_when_all_undone() {
    let target = record("sync_rebase", "op1");
    let undo = OperationRecord::undo("u1", &target, "after");
    let ops = vec![target, undo];
    assert!(find_undo_target(&ops).is_none());
}

#[test]
fn find_target_none_on_empty() {
    assert!(find_undo_target(&[]).is_none());
}

#[test]
fn undo_record_references_its_target() {
    let target = record("sync_rebase", "op1").complete("def456");
    let undo = OperationRecord::undo("op2", &target, "def456");
    assert_eq!(undo.kind, "undo");
    assert_eq!(undo.undoes.as_deref(), Some(target.id.as_str()));
    assert_eq!(undo.before.head, "def456");
    assert_eq!(undo.after.unwrap().head, target.before.head);
}

#[test]
fn operations_folds_started_then_completed_to_one() {
    let started = record("sync_rebase", "op1");
    let done = started.duplicate().complete("def456");
    let other = record("sync_merge", "op2");
    let folded = operations(vec![started, other, done]);
    assert_eq!(folded.len(), 2);
    assert_eq!(folded[0].id, "op1");
    assert_eq!(folded[0].status, OperationStatus::Completed);
    assert_eq!(folded[1].id, "op2");
}

#[test]
fn recovery_selects_by_unique_prefix() {
    let ops = vec![record("sync_rebase", "op_100_0001"), record("sync_rebase", "op_100_0002"), record("sync_merge", "op_200_0001")];
    assert_eq!(select_operation(&ops, "op_2").unwrap().id, "op_200_0001");
    assert!(matches!(select_operation(&ops, "op_1"), Err(RecoveryError::Ambiguous(p)) if p == "op_1"));
    assert!(matches!(select_operation(&ops, "op_9"), Err(RecoveryError::NotFound(p)) if p == "op_9"));
}

#[test]
fn cli_override_beats_configuration() {
    let (s, why) = choose_strategy(SyncStrategy::Merge, Some(ResolvedStrategy::Rebase), true);
    assert_eq!(s, ResolvedStrategy::Rebase);
    assert!(why.contains("--rebase"));
}

#[test]
fn configured_strategy_is_honoured() {
    assert_eq!(choose_strategy(SyncStrategy::Merge, None, false).0, ResolvedStrategy::Merge);
    assert_eq!(choose_strategy(SyncStrategy::Rebase, None, true).0, ResolvedStrategy::Rebase);
}

#[test]
fn auto_rebases_private_and_merges_shared() {
    let (private, _) = choose_strategy(SyncStrategy::Auto, None, false);
    assert_eq!(private, ResolvedStrategy::Rebase);
    let (shared, why) = choose_strategy(SyncStrategy::Auto, None, true);
    assert_eq!(shared, ResolvedStrategy::Merge);
    assert!(why.contains("pushed"));
}

#[test]
fn strategy_labels_and_kinds() {
    assert_eq!(ResolvedStrategy::Rebase.verb(), "rebase");
    assert_eq!(ResolvedStrategy::Merge.label(), "Merge");
    assert_eq!(ResolvedStrategy::Rebase.journal_kind(), "sync_rebase");
    assert_eq!(ResolvedStrategy::Merge.journal_kind(), "sync_merge");
}

fn shell(command: &String) -> bool {
    command.as_str() == "true"
}

#[test]
fn runs_only_configured_checks() {
    let config = VerificationConfig { lint: Some("true".to_string()), test: Some("false".to_string()), ..Default::default() };
    let results = run_checks(&config, shell);
    assert_eq!(results.len(), 2, "only lint and test are configured");
    assert_eq!(results[0].name, "lint");
    assert!(results[0].passed);
    assert_eq!(results[1].name, "test");
    assert!(!results[1].passed);
    assert!(!all_passed(&results));
}

#[test]
fn no_checks_is_vacuously_passing() {
    let results = run_checks(&VerificationConfig::default(), shell);
    assert!(results.is_empty());
    assert!(all_passed(&results));
}
