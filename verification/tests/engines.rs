use smoothee::config::repository::RepoConfig;
use smoothee::exchange::{Reply, Request, Step};
use smoothee::git::branches::{BaseBranch, BaseBranchSource};
use smoothee::git::command::GitOutput;
use smoothee::git::repository::Repository;
use smoothee::operations::journal::{BeforeState, Journal, OperationRecord, OperationStatus};
use smoothee::operations::sync::{ResolvedStrategy, SyncEngine, SyncPlan, SyncPlanOutcome, SyncResult};
use smoothee::operations::undo::perform;

fn ran(stdout: &str, success: bool) -> Reply {
    Reply::Ran(
        GitOutput { success, code: if success { 0 } else { 1 }, stdout: stdout.into(), stderr: String::new() },
        true,
    )
}

fn git_line<T>(step: &Step<T>) -> String {
    match step {
        Step::Ask(Request::Git(c)) => c.display(),
        Step::Ask(other) => panic!("expected a git request, got {other:?}"),
        Step::Done(_) => panic!("expected a request"),
    }
}

fn repo() -> Repository {
    Repository::new("/work/repo", "/work/repo/.git")
}

#[test]
fn detection_falls_back_to_a_conventional_name() {
    let r = repo();
    let (mut d, step) = BaseBranch::detect(&r, Some("trunk"));
    assert_eq!(git_line(&step), "git show-ref --verify --quiet refs/heads/trunk");
    let step = d.resume(ran("", false));
    assert_eq!(git_line(&step), "git symbolic-ref --quiet refs/remotes/origin/HEAD");
    let step = d.resume(ran("", false));
    assert_eq!(git_line(&step), "git show-ref --verify --quiet refs/heads/main");
    match d.resume(ran("", true)) {
        Step::Done(Ok(Some(b))) => {
            assert_eq!(b.name, "main");
            assert_eq!(b.source, BaseBranchSource::Conventional);
        }
        other => panic!("unexpected {other:?}"),
    }
}

#[test]
fn detection_reads_the_remote_default_branch() {
    let r = repo();
    let (mut d, _) = BaseBranch::detect(&r, None);
    let step = d.resume(ran("", true));
    assert_eq!(git_line(&step), "git symbolic-ref --short refs/remotes/origin/HEAD");
    match d.resume(ran("origin/develop", true)) {
        Step::Done(Ok(Some(b))) => {
            assert_eq!(b.name, "develop");
            assert_eq!(b.source, BaseBranchSource::RemoteHead);
        }
        other => panic!("unexpected {other:?}"),
    }
}

#[test]
fn planning_reports_nothing_to_do_when_not_behind() {
    let r = repo();
    let journal = Journal::for_git_dir(r.git_dir());
    let engine = SyncEngine::new(&r, &RepoConfig::default(), &journal);
    let (mut p, step) = engine.plan(None);
    assert_eq!(git_line(&step), "git symbolic-ref --quiet --short HEAD");
    let step = p.resume(ran("feature", true));
    assert_eq!(git_line(&step), "git rev-parse --verify --quiet HEAD");
    let step = p.resume(ran("abc", true));
    assert_eq!(git_line(&step), "git symbolic-ref --quiet refs/remotes/origin/HEAD");
    let step = p.resume(ran("", true));
    let step2 = p.resume(ran("origin/main", true));
    assert_eq!(git_line(&step), "git symbolic-ref --short refs/remotes/origin/HEAD");
    assert_eq!(git_line(&step2), "git fetch origin main");
    let step = p.resume(ran("", true));
    assert_eq!(git_line(&step), "git rev-parse --verify --quiet origin/main^{commit}");
    let step = p.resume(ran("abc", true));
    assert_eq!(git_line(&step), "git merge-base origin/main HEAD");
    let step = p.resume(ran("abc", true));
    assert_eq!(git_line(&step), "git rev-list --left-right --count origin/main...HEAD");
    match p.resume(ran("0\t3", true)) {
        Step::Done(Ok(SyncPlanOutcome::AlreadyUpToDate { ahead, base_name })) => {
            assert_eq!(ahead, 3);
            assert_eq!(base_name, "main");
        }
        other => panic!("unexpected {other:?}"),
    }
}

fn plan() -> SyncPlan {
    SyncPlan {
        branch: "feature".into(),
        base_name: "main".into(),
        remote_ref: "origin/main".into(),
        ahead: 1,
        behind: 2,
        strategy: ResolvedStrategy::Rebase,
        reason: "test".into(),
    }
}

#[test]
fn execution_pins_and_journals_before_rebasing() {
    let r = repo();
    let journal = Journal::for_git_dir(r.git_dir());
    let engine = SyncEngine::new(&r, &RepoConfig::default(), &journal);
    let (mut x, step) = engine.execute(plan(), "op_1_0000");
    assert_eq!(git_line(&step), "git rev-parse HEAD");
    let step = x.resume(ran("abc123", true));
    let pin = git_line(&step);
    assert!(pin.starts_with("git update-ref refs/smoothee/restore/feature/"));
    assert!(pin.ends_with(" abc123"));
    match x.resume(ran("", true)) {
        Step::Ask(Request::Append(path, record)) => {
            assert_eq!(path, "/work/repo/.git/smoothee/journal.jsonl");
            assert_eq!(record.kind, "sync_rebase");
            assert_eq!(record.status, OperationStatus::Started);
            assert_eq!(record.before.head, "abc123");
            assert!(record.before.restore_ref.is_some());
        }
        other => panic!("unexpected {other:?}"),
    }
    let step = x.resume(Reply::Appended);
    assert_eq!(git_line(&step), "git rebase origin/main");
    let step = x.resume(ran("", true));
    assert_eq!(git_line(&step), "git diff --name-only --diff-filter=U");
    assert!(matches!(x.resume(ran("", true)), Step::Ask(Request::Exists(p)) if p == "/work/repo/.git/rebase-merge"));
    assert!(matches!(x.resume(Reply::Exists(false)), Step::Ask(Request::Exists(p)) if p == "/work/repo/.git/rebase-apply"));
    assert!(matches!(x.resume(Reply::Exists(false)), Step::Ask(Request::Exists(p)) if p == "/work/repo/.git/MERGE_HEAD"));
    let step = x.resume(Reply::Exists(false));
    assert_eq!(git_line(&step), "git rev-parse HEAD");
    match x.resume(ran("def456", true)) {
        Step::Ask(Request::Append(_, record)) => {
            assert_eq!(record.status, OperationStatus::Completed);
            assert_eq!(record.after.unwrap().head, "def456");
        }
        other => panic!("unexpected {other:?}"),
    }
    match x.resume(Reply::Appended) {
        Step::Done(Ok(SyncResult::Completed { restore, strategy })) => {
            assert_eq!(strategy, ResolvedStrategy::Rebase);
            assert_eq!(restore.head, "abc123");
        }
        other => panic!("unexpected {other:?}"),
    }
}

#[test]
fn execution_stops_on_conflicts_without_journaling_more() {
    let r = repo();
    let journal = Journal::for_git_dir(r.git_dir());
    let engine = SyncEngine::new(&r, &RepoConfig::default(), &journal);
    let mut p = plan();
    p.strategy = ResolvedStrategy::Merge;
    let (mut x, _) = engine.execute(p, "op_1_0001");
    x.resume(ran("abc123", true));
    x.resume(ran("", true));
    let step = x.resume(Reply::Appended);
    assert_eq!(git_line(&step), "git merge --no-edit origin/main");
    x.resume(ran("", false));
    x.resume(ran("f.txt", true));
    x.resume(Reply::Exists(false));
    x.resume(Reply::Exists(false));
    match x.resume(Reply::Exists(true)) {
        Step::Done(Ok(SyncResult::Conflicted { files, strategy, .. })) => {
            assert_eq!(files, vec!["f.txt".to_string()]);
            assert_eq!(strategy, ResolvedStrategy::Merge);
        }
        other => panic!("unexpected {other:?}"),
    }
}

#[test]
fn undo_aborts_resets_and_journals() {
    let r = repo();
    let journal = Journal::for_git_dir(r.git_dir());
    let target = OperationRecord::begin(
        "op_1_0000",
        "sync_merge",
        "/work/repo",
        "feature",
        BeforeState { head: "abc123".into(), restore_ref: Some("refs/smoothee/restore/feature/t".into()) },
    );
    let (mut u, step) = perform(&r, &journal, &target, "op_2_0000");
    assert_eq!(git_line(&step), "git rev-parse HEAD");
    u.resume(ran("def456", true));
    u.resume(Reply::Exists(false));
    u.resume(Reply::Exists(false));
    let step = u.resume(Reply::Exists(true));
    assert_eq!(git_line(&step), "git merge --abort");
    let step = u.resume(ran("", true));
    assert_eq!(git_line(&step), "git symbolic-ref --quiet --short HEAD");
    let step = u.resume(ran("feature", true));
    assert_eq!(git_line(&step), "git reset --hard abc123");
    match u.resume(ran("", true)) {
        Step::Ask(Request::Append(_, record)) => {
            assert_eq!(record.kind, "undo");
            assert_eq!(record.undoes.as_deref(), Some("op_1_0000"));
        }
        other => panic!("unexpected {other:?}"),
    }
    match u.resume(Reply::Appended) {
        Step::Done(Ok(report)) => {
            assert_eq!(report.aborted, Some("merge"));
            assert_eq!(report.from, "def456");
            assert_eq!(report.to, "abc123");
        }
        other => panic!("unexpected {other:?}"),
    }
}
