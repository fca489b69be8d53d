use smoothee::cli::explain::explain;
use smoothee::cli::status::{describe_divergence, Recommendation, StatusAssessment};
use smoothee::git::branches::{BaseBranch, BaseBranchSource};
use smoothee::git::status::{AheadBehind, WorkingTreeStatus};

fn tree() -> WorkingTreeStatus {
    WorkingTreeStatus { branch: Some("feature".into()), ..Default::default() }
}

#[test]
fn recommends_resolve_when_conflicts_present() {
    let mut t = tree();
    t.conflicted = 2;
    assert_eq!(StatusAssessment::recommend(&t, &None), Recommendation::Resolve);
}

#[test]
fn recommends_sync_when_behind_base() {
    let t = tree();
    assert_eq!(StatusAssessment::recommend(&t, &Some((1, 3))), Recommendation::Sync);
}

#[test]
fn recommends_sync_when_behind_upstream() {
    let mut t = tree();
    t.ahead_behind = Some(AheadBehind { ahead: 0, behind: 2 });
    assert_eq!(StatusAssessment::recommend(&t, &None), Recommendation::Sync);
}

#[test]
fn recommends_commit_when_dirty_and_current() {
    let mut t = tree();
    t.modified = 1;
    assert_eq!(StatusAssessment::recommend(&t, &Some((0, 0))), Recommendation::Commit);
}

#[test]
fn recommends_push_when_ahead_and_clean() {
    let mut t = tree();
    t.ahead_behind = Some(AheadBehind { ahead: 2, behind: 0 });
    assert_eq!(StatusAssessment::recommend(&t, &Some((2, 0))), Recommendation::Push);
}

#[test]
fn recommends_nothing_when_up_to_date() {
    let mut t = tree();
    t.ahead_behind = Some(AheadBehind { ahead: 0, behind: 0 });
    assert_eq!(StatusAssessment::recommend(&t, &Some((0, 0))), Recommendation::UpToDate);
}

#[test]
fn conflicts_outrank_being_behind() {
    let mut t = tree();
    t.conflicted = 1;
    assert_eq!(StatusAssessment::recommend(&t, &Some((0, 5))), Recommendation::Resolve);
}

#[test]
fn detached_head_is_flagged() {
    let mut t = tree();
    t.branch = None;
    assert_eq!(StatusAssessment::recommend(&t, &None), Recommendation::DetachedHead);
}

#[test]
fn divergence_phrasing_is_singular_and_plural() {
    assert_eq!(describe_divergence(1, 0, "main"), "1 commit ahead of main");
    assert_eq!(describe_divergence(0, 2, "main"), "2 commits behind main");
    assert_eq!(describe_divergence(3, 4, "main"), "3 commits ahead, 4 commits behind main");
    assert_eq!(describe_divergence(0, 0, "main"), "up to date with main");
}

#[test]
fn initial_repository_asks_for_a_first_commit() {
    let mut t = tree();
    t.is_initial = true;
    t.conflicted = 3;
    let r = StatusAssessment::recommend(&t, &None);
    assert_eq!(r, Recommendation::InitialCommit);
    assert_eq!(r.command(), Some("smoothee commit"));
    assert_eq!(Recommendation::DetachedHead.command(), None);
    assert_eq!(Recommendation::Push.summary(), "Your branch is ahead and ready to share.");
}

fn assessment(recommendation: Recommendation) -> StatusAssessment {
    StatusAssessment {
        repo_name: "repo".into(),
        branch: Some("feature".into()),
        base: None,
        tree: WorkingTreeStatus { branch: Some("feature".into()), ..Default::default() },
        base_divergence: None,
        recommendation,
    }
}

#[test]
fn explains_detached_head_risk() {
    let mut value = assessment(Recommendation::DetachedHead);
    value.branch = None;
    value.tree.branch = None;
    assert!(explain(&value)[0].contains("directly at a commit"));
}

#[test]
fn explains_divergence() {
    let mut value = assessment(Recommendation::Sync);
    value.base = Some(BaseBranch { name: "main".into(), source: BaseBranchSource::Conventional });
    value.base_divergence = Some((2, 3));
    let lines = explain(&value);
    assert!(lines.iter().any(|line| line.contains("diverged")));
}

#[test]
fn explains_upstream_ahead_state() {
    let mut value = assessment(Recommendation::Push);
    value.tree.upstream = Some("origin/feature".into());
    value.tree.ahead_behind = Some(AheadBehind { ahead: 2, behind: 0 });
    assert!(explain(&value)[0].contains("not yet shared"));
}

#[test]
fn explanation_counts_conflicts_and_staged_files() {
    let mut value = assessment(Recommendation::Resolve);
    value.tree.conflicted = 1;
    value.tree.staged = 2;
    value.base = Some(BaseBranch { name: "main".into(), source: BaseBranchSource::Configured });
    value.base_divergence = Some((0, 1));
    let lines = explain(&value);
    assert_eq!(lines.len(), 5);
    assert_eq!(lines[1], "`main` has 1 commit that your branch does not contain yet.");
    assert!(lines[2].starts_with("There is 1 conflicted file."));
    assert!(lines[3].starts_with("2 staged files are already selected"));
    assert!(lines[4].starts_with("This branch has no configured upstream"));
}

#[test]
fn plain_render_reads_like_the_status_block() {
    let mut value = assessment(Recommendation::Commit);
    value.tree.modified = 1;
    value.tree.untracked = 2;
    value.base = Some(BaseBranch { name: "main".into(), source: BaseBranchSource::RemoteHead });
    value.base_divergence = Some((1, 0));
    let expected = "Repository: repo\nBranch: feature\nBase branch: main (from origin)\n\nWorking tree:\n  • 1 modified file\n  • 2 untracked files\n\nBranch state:\n  • 1 commit ahead of main\n\nRecommended next step:\n  You have changes that are not committed yet.\n  smoothee commit\n";
    assert_eq!(value.render(false), expected);
}

#[test]
fn coloured_render_wraps_the_heading_in_bold() {
    let value = assessment(Recommendation::UpToDate);
    let out = value.render(true);
    assert!(out.starts_with("\u{1b}[1mRepository: repo\u{1b}[0m\n"));
    assert!(out.contains("no upstream configured"));
}

#[test]
fn readme_status_example() {
    let tree = WorkingTreeStatus {
        branch: Some("feature/login".into()),
        modified: 3,
        untracked: 1,
        ..Default::default()
    };
    let base = BaseBranch { name: "main".into(), source: BaseBranchSource::Configured };
    let value = StatusAssessment::assemble("shop-platform", tree, Some(base), Some((4, 6)));
    assert_eq!(value.recommendation, Recommendation::Sync);
    let text = value.render(false);
    assert!(text.starts_with("Repository: shop-platform\nBranch: feature/login\nBase branch: main"), "{text}");
    assert!(text.contains("\n\nWorking tree:\n  • 3 modified files\n  • 1 untracked file\n"), "{text}");
    assert!(text.contains("\n\nBranch state:\n  • 4 commits ahead, 6 commits behind main\n"), "{text}");
    assert!(text.ends_with(
        "\n\nRecommended next step:\n  Your branch is behind its base and can be updated safely.\n  smoothee sync\n"
    ), "{text}");
}
