use smoothee::cli::commit::{
    decide_commit, print_changes, select_group, CommitArgs, CommitDecision, CommitError,
    StagePlan,
};
use smoothee::git::commit::{
    group_paths, parse_porcelain, porcelain_readable, suggested_message, ChangeGroup, CommitPlan,
};

#[test]
fn parses_staged_unstaged_and_untracked() {
    let changes = parse_porcelain("M  src/a.rs\0 M README.md\0?? notes.txt\0");
    assert_eq!(changes.len(), 3);
    assert!(changes[0].staged);
    assert!(changes[1].unstaged);
    assert!(changes[2].untracked);
}

#[test]
fn groups_unstaged_paths_by_top_level_scope() {
    let groups = group_paths(&["src/a.rs", "src/b.rs", "docs/guide.md", "README.md"]);
    assert_eq!(groups.len(), 3);
    assert_eq!(groups[0].scope, "docs");
    assert_eq!(groups[1].scope, "root");
    assert_eq!(groups[2].scope, "src");
}

#[test]
fn suggestion_uses_selected_scope() {
    let group = ChangeGroup { scope: "src".into(), paths: vec!["src/a.rs".into()] };
    assert_eq!(suggested_message(Some(&group), &Vec::new()), "Update src");
}

#[test]
fn renames_skip_the_original_path_entry() {
    let changes = parse_porcelain("R  new.rs\0old.rs\0 M lib.rs\0");
    assert_eq!(changes.len(), 2);
    assert_eq!(changes[0].path, "new.rs");
    assert!(changes[0].staged);
    assert_eq!(changes[1].path, "lib.rs");
}

#[test]
fn porcelain_with_a_split_character_is_not_readable() {
    assert!(porcelain_readable("M  src/a.rs\0?? b\0"));
    assert!(!porcelain_readable("Ma\u{e9}\0"));
}

#[test]
fn message_names_the_single_staged_scope() {
    let staged = vec!["src/a.rs".to_string(), "src/b.rs".to_string()];
    assert_eq!(suggested_message(None, &staged), "Update src");
    let mixed = vec!["src/a.rs".to_string(), "docs/b.md".to_string()];
    assert_eq!(suggested_message(None, &mixed), "Update project changes");
    let root = ChangeGroup { scope: "root".into(), paths: vec!["README.md".into()] };
    assert_eq!(suggested_message(Some(&root), &Vec::new()), "Update project files");
}

fn plan(raw: &str) -> CommitPlan {
    CommitPlan::from_porcelain(raw)
}

#[test]
fn group_selection_follows_the_flags() {
    let p = plan(" M src/a.rs\0 M docs/b.md\0");
    let none = CommitArgs::default();
    assert!(select_group(&p, &none).unwrap().is_none());
    let second = CommitArgs { group: Some(2), ..Default::default() };
    assert_eq!(select_group(&p, &second).unwrap().unwrap().scope, "src");
    let missing = CommitArgs { group: Some(3), ..Default::default() };
    let err = select_group(&p, &missing).unwrap_err();
    assert_eq!(err, CommitError::NoSuchGroup(3));
    assert_eq!(
        err.message(),
        "--group 3 does not exist; run `smoothee commit --dry-run` to inspect groups"
    );
}

#[test]
fn commit_decisions_cover_every_case() {
    assert!(matches!(decide_commit(&plan(""), &CommitArgs::default()), Ok(CommitDecision::NothingToCommit)));

    let staged = plan("M  src/a.rs\0 M docs/b.md\0");
    let with_group = CommitArgs { group: Some(1), ..Default::default() };
    assert!(matches!(decide_commit(&staged, &with_group), Ok(CommitDecision::GroupWithStaged)));
    match decide_commit(&staged, &CommitArgs::default()) {
        Ok(CommitDecision::Commit { stage, stage_paths, message }) => {
            assert_eq!(stage, StagePlan::KeepStaged);
            assert!(stage_paths.is_empty());
            assert_eq!(message, "Update src");
        }
        other => panic!("unexpected {other:?}"),
    }

    let two = plan(" M src/a.rs\0 M docs/b.md\0");
    assert!(matches!(decide_commit(&two, &CommitArgs::default()), Ok(CommitDecision::ChooseGroup)));
    let all = CommitArgs { all: true, message: Some("Tidy".into()), ..Default::default() };
    match decide_commit(&two, &all) {
        Ok(CommitDecision::Commit { stage, stage_paths, message }) => {
            assert_eq!(stage, StagePlan::StageAll);
            assert_eq!(stage_paths, vec!["src/a.rs".to_string(), "docs/b.md".to_string()]);
            assert_eq!(message, "Tidy");
        }
        other => panic!("unexpected {other:?}"),
    }
    let first = CommitArgs { group: Some(1), ..Default::default() };
    match decide_commit(&two, &first) {
        Ok(CommitDecision::Commit { stage, stage_paths, message }) => {
            assert_eq!(stage, StagePlan::StageGroup(0));
            assert_eq!(stage_paths, vec!["docs/b.md".to_string()]);
            assert_eq!(message, "Update docs");
        }
        other => panic!("unexpected {other:?}"),
    }
}

#[test]
fn changes_are_listed_with_their_state_and_groups() {
    let p = plan("MM src/a.rs\0");
    assert_eq!(print_changes(&p, false), "Changes:\n  • src/a.rs (staged + modified again)\n");
    let two = plan(" M src/a.rs\0?? docs/b.md\0");
    assert_eq!(
        print_changes(&two, false),
        "Changes:\n  • src/a.rs (unstaged)\n  • docs/b.md (untracked)\n\nLogical groups:\n  • 1. docs (1 files)\n  • 2. src (1 files)\n"
    );
}
