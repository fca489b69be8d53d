//! The engines driven against a small in-memory stand-in for a repository,
//! which answers each request the way Git and the file system would.

use std::collections::HashMap;

use smoothee::config::repository::RepoConfig;
use smoothee::exchange::{output_of, run_of, succeeds_of, Reply, Request, Step};
use smoothee::git::command::{GitCommand, GitOutput};
use smoothee::git::branches::{divergence_from_base, BaseBranch, BaseBranchSource};
use smoothee::git::conflicts::{ConflictContext, Side};
use smoothee::git::repository::Repository;
use smoothee::git::restore::RestorePoint;
use smoothee::operations::journal::{
    latest, operations, BeforeState, IdSource, Journal, OperationRecord, OperationStatus,
};
use smoothee::operations::recovery;
use smoothee::operations::resolve::{FinishOutcome, ResolveEngine, ResolveError, ResolveState};
use smoothee::operations::sync::{ResolvedStrategy, SyncEngine, SyncError, SyncPlan, SyncResult};
use smoothee::operations::undo::{find_undo_target, perform};

fn ok(stdout: &str) -> Reply {
    Reply::Ran(
        GitOutput { success: true, code: 0, stdout: stdout.to_string(), stderr: String::new() },
        true,
    )
}

fn failed(code: i32, stderr: &str) -> Reply {
    Reply::Ran(
        GitOutput { success: false, code, stdout: String::new(), stderr: stderr.to_string() },
        true,
    )
}

/// A repository held in memory: its HEAD, refs, branch, an operation in
/// progress with its conflicted files, file contents, and the journal.
struct FakeRepo {
    head: String,
    branch: Option<String>,
    refs: HashMap<String, String>,
    in_progress: Option<&'static str>,
    conflicted: Vec<String>,
    files: HashMap<String, String>,
    journal: Vec<OperationRecord>,
    conflict_on_merge: bool,
    /// Whether `git commit` refuses (a rejecting hook), leaving the merge.
    reject_commit: bool,
    dirty: bool,
    /// For each conflicted file, its content on Git's ours and theirs sides.
    sides: HashMap<String, (String, String)>,
    remote_head: Option<String>,
    merge_base: Option<String>,
    counts: String,
}

impl FakeRepo {
    fn new(head: &str, branch: &str) -> Self {
        let mut refs = HashMap::new();
        refs.insert(format!("refs/heads/{branch}"), head.to_string());
        FakeRepo {
            head: head.to_string(),
            branch: Some(branch.to_string()),
            refs,
            in_progress: None,
            conflicted: Vec::new(),
            files: HashMap::new(),
            journal: Vec::new(),
            conflict_on_merge: false,
            reject_commit: false,
            dirty: false,
            sides: HashMap::new(),
            remote_head: None,
            merge_base: None,
            counts: String::new(),
        }
    }

    fn resolve(&self, rev: &str) -> Option<String> {
        if rev == "HEAD" {
            return Some(self.head.clone());
        }
        self.refs.get(rev).or_else(|| self.refs.get(&format!("refs/heads/{rev}"))).cloned()
    }

    fn answer(&mut self, request: Request) -> Reply {
        match request {
            Request::Git(command) => {
                let args: Vec<&str> = command.args.iter().map(|a| a.as_str()).collect();
                self.git(&args)
            }
            Request::Exists(path) => Reply::Exists(match self.in_progress {
                Some("merge") => path.ends_with("MERGE_HEAD"),
                Some("rebase") => path.ends_with("rebase-merge"),
                _ => false,
            }),
            Request::Read(path) => Reply::Text(
                self.files
                    .get(&path)
                    .cloned()
                    .ok_or_else(|| "No such file or directory (os error 2)".to_string()),
            ),
            Request::Append(_, record) => {
                self.journal.push(record);
                Reply::Appended
            }
            Request::ReadJournal(_) => Reply::Records(self.journal.clone()),
        }
    }

    fn git(&mut self, args: &[&str]) -> Reply {
        match args {
            ["rev-parse", "HEAD"] => ok(&self.head.clone()),
            ["rev-parse", "--verify", "--quiet", rev] => match self.resolve(rev) {
                Some(sha) => ok(&sha),
                None => failed(1, ""),
            },
            ["symbolic-ref", "--quiet", "--short", "HEAD"] => match &self.branch {
                Some(b) => ok(&b.clone()),
                None => failed(1, ""),
            },
            ["update-ref", "-d", name] => {
                self.refs.remove(*name);
                ok("")
            }
            ["update-ref", name, sha] => {
                self.refs.insert(name.to_string(), sha.to_string());
                ok("")
            }
            ["show-ref", "--verify", "--quiet", name] => {
                if self.refs.contains_key(*name) {
                    ok("")
                } else {
                    failed(1, "")
                }
            }
            ["rebase", onto] if *onto != "--continue" && self.dirty => {
                failed(1, "error: cannot rebase: You have unstaged changes.")
            }
            ["rebase", onto] if *onto != "--continue" => {
                let base = self.resolve(onto).expect("rebase target");
                self.head = format!("{}-onto-{base}", self.head);
                ok("")
            }
            ["merge", "--no-edit", other] => {
                if self.conflict_on_merge {
                    self.in_progress = Some("merge");
                    self.conflicted = vec!["f.txt".to_string()];
                    failed(1, "CONFLICT (content): Merge conflict in f.txt")
                } else {
                    let base = self.resolve(other).expect("merge target");
                    self.head = format!("merge-{}-{base}", self.head);
                    ok("")
                }
            }
            ["diff", "--name-only", "--diff-filter=U"] => ok(&self.conflicted.join("\n")),
            ["reset", "--hard", target] => {
                self.head = self.resolve(target).unwrap_or_else(|| target.to_string());
                self.in_progress = None;
                self.conflicted.clear();
                self.dirty = false;
                ok("")
            }
            ["reset", "--keep", target] => {
                self.head = self.resolve(target).unwrap_or_else(|| target.to_string());
                ok("")
            }
            [_, "--abort"] => {
                self.in_progress = None;
                self.conflicted.clear();
                ok("")
            }
            ["checkout", branch] => {
                self.branch = Some(branch.to_string());
                self.head = self.resolve(branch).expect("checkout target");
                ok("")
            }
            ["status", "--porcelain"] => ok(if self.dirty { " M f.txt" } else { "" }),
            ["checkout", flag @ ("--ours" | "--theirs"), "--", path] => {
                let (ours, theirs) = self.sides.get(*path).cloned().expect("conflicted file");
                let content = if *flag == "--ours" { ours } else { theirs };
                self.files.insert(format!("/work/repo/{path}"), content);
                ok("")
            }
            ["add", "--", path] => {
                self.conflicted.retain(|p| p.as_str() != *path);
                ok("")
            }
            ["commit", "--no-edit"] if self.reject_commit => failed(1, "pre-commit hook rejected the commit"),
            ["commit", "--no-edit"] if self.in_progress == Some("merge") => {
                self.head = "merge-commit".to_string();
                self.in_progress = None;
                ok("")
            }
            ["rebase", "--continue"] if self.in_progress == Some("rebase") => {
                self.head = "rebased-tip".to_string();
                self.in_progress = None;
                ok("")
            }
            ["symbolic-ref", "--quiet", "refs/remotes/origin/HEAD"] => match &self.remote_head {
                Some(_) => ok(""),
                None => failed(1, ""),
            },
            ["symbolic-ref", "--short", "refs/remotes/origin/HEAD"] => match &self.remote_head {
                Some(name) => ok(&format!("origin/{name}")),
                None => failed(1, ""),
            },
            ["merge-base", _, _] => match &self.merge_base {
                Some(sha) => ok(&sha.clone()),
                None => failed(1, ""),
            },
            ["rev-list", "--left-right", "--count", _] => ok(&self.counts.clone()),
            _ => panic!("unexpected git {args:?}"),
        }
    }

    /// Carry out requests until the engine is done.
    fn drive<T>(&mut self, mut step: Step<T>, mut resume: impl FnMut(Reply) -> Step<T>) -> T {
        loop {
            match step {
                Step::Done(result) => return result,
                Step::Ask(request) => step = resume(self.answer(request)),
            }
        }
    }
}

fn repo() -> Repository {
    Repository::new("/work/repo", "/work/repo/.git")
}

#[test]
fn display_renders_like_a_shell_command() {
    let cmd = GitCommand::new("status").arg("--porcelain=v2").arg("--branch");
    assert_eq!(cmd.display(), "git status --porcelain=v2 --branch");
}

#[test]
fn command_display_quotes_arguments_with_spaces() {
    let cmd = GitCommand::new("commit").arg("-m").arg("a message");
    assert_eq!(cmd.display(), "git commit -m \"a message\"");
}

#[test]
fn output_captures_stdout() {
    let command = GitCommand::new("--version");
    let out = output_of(&command, ok("git version 2.44.0")).expect("git --version");
    assert!(out.starts_with("git version"));
}

#[test]
fn succeeds_reports_exit_status() {
    let command = GitCommand::new("--version");
    assert!(succeeds_of(&command, ok("git version 2.44.0")).unwrap());
}

#[test]
fn run_captures_success_and_stdout() {
    let command = GitCommand::new("--version");
    let out = run_of(&command, ok("git version 2.44.0")).unwrap();
    assert!(out.success);
    assert_eq!(out.code, 0);
    assert!(out.stdout.starts_with("git version"));
}

#[test]
fn run_reports_failure_without_erroring() {
    let command = GitCommand::new("not-a-real-subcommand");
    let reply = failed(1, "git: 'not-a-real-subcommand' is not a git command. See 'git --help'.");
    let out = run_of(&command, reply).unwrap();
    assert!(!out.success);
    assert_ne!(out.code, 0);
}

#[test]
fn output_reports_failure_as_an_error() {
    let command = GitCommand::new("not-a-real-subcommand");
    let err = output_of(&command, failed(1, "nope")).unwrap_err();
    assert_eq!(err.message(), "`git not-a-real-subcommand` exited with status 1\nnope");
}

#[test]
fn read_reports_unreadable_for_missing_file() {
    let repo = repo();
    let journal = Journal::for_git_dir(repo.git_dir());
    let engine = ResolveEngine::new(&repo, &journal);
    let mut fake = FakeRepo::new("aaa", "main");
    fake.conflicted = vec!["does-not-exist".to_string()];
    let (mut loading, step) = engine.conflict_files();
    let files = fake.drive(step, |reply| loading.resume(reply)).unwrap();
    assert_eq!(files.len(), 1);
    assert!(!files[0].readable);
    assert!(files[0].hunks.is_empty());
}

#[test]
fn conflicted_files_are_read_and_parsed() {
    let repo = repo();
    let journal = Journal::for_git_dir(repo.git_dir());
    let engine = ResolveEngine::new(&repo, &journal);
    let mut fake = FakeRepo::new("aaa", "main");
    fake.conflicted = vec!["f.txt".to_string()];
    fake.files.insert(
        "/work/repo/f.txt".to_string(),
        "<<<<<<< HEAD\nmine\n=======\ntheirs\n>>>>>>> feature\n".to_string(),
    );
    let (mut loading, step) = engine.conflict_files();
    let files = fake.drive(step, |reply| loading.resume(reply)).unwrap();
    assert!(files[0].readable);
    assert_eq!(files[0].hunks.len(), 1);
    assert_eq!(files[0].hunks[0].ours, vec!["mine".to_string()]);
}

/// Discover from `start` in a repository whose top level is `/work/repo`.
fn discover_in_work_repo(start: &str) -> Repository {
    let (mut discovery, mut step) = Repository::discover(start);
    let mut answers = vec![ok("/work/repo/.git"), ok("/work/repo")];
    loop {
        match step {
            Step::Done(result) => return result.expect("discover"),
            Step::Ask(Request::Git(command)) => {
                assert_eq!(command.cwd.as_deref(), Some(start));
                step = discovery.resume(answers.pop().unwrap());
            }
            Step::Ask(other) => panic!("unexpected request {other:?}"),
        }
    }
}

#[test]
fn discovers_repository_root() {
    let repo = discover_in_work_repo("/work/repo");
    assert_eq!(repo.workdir(), "/work/repo");
    assert!(repo.git_dir().ends_with(".git"));
}

#[test]
fn discovers_from_subdirectory() {
    let repo = discover_in_work_repo("/work/repo/a/b/c");
    assert_eq!(repo.workdir(), "/work/repo");
}

#[test]
fn discovery_fails_outside_a_repository() {
    let (mut discovery, step) = Repository::discover("/tmp/elsewhere");
    assert!(matches!(step, Step::Ask(Request::Git(_))));
    let reply = failed(128, "fatal: not a git repository (or any of the parent directories): .git");
    assert!(matches!(discovery.resume(reply), Step::Done(Err(_))));
}

#[test]
fn create_pins_head_and_is_recoverable() {
    let repo = repo();
    let mut fake = FakeRepo::new("1111111111111111111111111111111111111111", "feature/login");
    let head = fake.head.clone();
    let (rp, pin) = RestorePoint::create(&repo, "feature/login", &head, "op_1");
    assert!(rp.ref_name.starts_with("refs/smoothee/restore/feature-login/"));
    assert_eq!(rp.display_name(), &rp.ref_name["refs/".len()..]);
    assert_eq!(rp.head, head);
    fake.answer(Request::Git(pin));
    let reply = fake.answer(Request::Git(RestorePoint::ref_exists(&repo, &rp.ref_name)));
    assert!(RestorePoint::exists_of(&repo, &rp.ref_name, reply).unwrap());
    // The ref resolves to exactly the pinned commit.
    assert_eq!(fake.resolve(&rp.ref_name), Some(head));
}

#[test]
fn delete_removes_the_ref() {
    let repo = repo();
    let mut fake = FakeRepo::new("abc", "main");
    let (rp, pin) = RestorePoint::create(&repo, "main", "abc", "op_1");
    fake.answer(Request::Git(pin));
    fake.answer(Request::Git(RestorePoint::delete(&repo, &rp.ref_name)));
    let reply = fake.answer(Request::Git(RestorePoint::ref_exists(&repo, &rp.ref_name)));
    assert!(!RestorePoint::exists_of(&repo, &rp.ref_name, reply).unwrap());
}

fn sample(kind: &str, id: &str) -> OperationRecord {
    OperationRecord::begin(id, kind, "/work/repo", "main", BeforeState { head: "abc123".into(), restore_ref: None })
}

#[test]
fn latest_returns_most_recent() {
    let records = vec![sample("a", "op1"), sample("b", "op2")];
    assert_eq!(latest(records).unwrap().kind, "b");
}

#[test]
fn finish_is_blocked_while_conflicts_remain() {
    let repo = repo();
    let journal = Journal::for_git_dir(repo.git_dir());
    let engine = ResolveEngine::new(&repo, &journal);
    let mut fake = FakeRepo::new("feature-head", "feature");
    fake.in_progress = Some("merge");
    fake.conflicted = vec!["f.txt".to_string()];

    let (mut starting, step) = engine.start("feature", ConflictContext::Merge, "op_1");
    let (record, _restore) = fake.drive(step, |reply| starting.resume(reply)).unwrap();
    // Nothing resolved yet.
    let (mut finishing, step) = engine.finish(&record, ConflictContext::Merge);
    match fake.drive(step, |reply| finishing.resume(reply)).unwrap() {
        FinishOutcome::Blocked { files } => assert_eq!(files, vec!["f.txt".to_string()]),
        other => panic!("expected blocked, got {other:?}"),
    }
    assert_eq!(fake.head, "feature-head");
}

fn plan_onto_main(branch: &str, strategy: ResolvedStrategy) -> SyncPlan {
    SyncPlan {
        branch: branch.to_string(),
        base_name: "main".to_string(),
        remote_ref: "main".to_string(),
        ahead: 1,
        behind: 1,
        strategy,
        reason: "test".to_string(),
    }
}

#[test]
fn sync_then_undo_restores_exactly() {
    let repo = repo();
    let config = RepoConfig::default();
    let journal = Journal::for_git_dir(repo.git_dir());
    let engine = SyncEngine::new(&repo, &config, &journal);
    let mut fake = FakeRepo::new("feature-head", "feature");
    fake.refs.insert("refs/heads/main".into(), "main-head".into());
    let feature_head = fake.head.clone();

    // Clean rebase.
    let plan = plan_onto_main("feature", ResolvedStrategy::Rebase);
    let (mut execution, step) = engine.execute(plan, "op_1");
    let restore = match fake.drive(step, |reply| execution.resume(reply)).unwrap() {
        SyncResult::Completed { restore, .. } => restore,
        other => panic!("expected clean completion, got {other:?}"),
    };
    assert_ne!(fake.head, feature_head, "rebase moved HEAD");
    assert_eq!(fake.resolve(&restore.ref_name), Some(feature_head.clone()));

    // Undo returns the branch to exactly where it was.
    let target = find_undo_target(&operations(fake.journal.clone())).unwrap();
    let (mut run, step) = perform(&repo, &journal, &target, "op_2");
    let report = fake.drive(step, |reply| run.resume(reply)).unwrap();
    assert_eq!(report.kind, "sync_rebase");
    assert_eq!(report.to, feature_head);
    assert_eq!(fake.head, feature_head);

    // A second undo finds nothing (the only op was undone).
    assert!(find_undo_target(&operations(fake.journal.clone())).is_none());
}

#[test]
fn conflicting_sync_then_undo_aborts_and_restores() {
    let repo = repo();
    let config = RepoConfig::default();
    let journal = Journal::for_git_dir(repo.git_dir());
    let engine = SyncEngine::new(&repo, &config, &journal);
    let mut fake = FakeRepo::new("feature-head", "feature");
    fake.refs.insert("refs/heads/main".into(), "main-head".into());
    fake.conflict_on_merge = true;
    let feature_head = fake.head.clone();

    let plan = plan_onto_main("feature", ResolvedStrategy::Merge);
    let (mut execution, step) = engine.execute(plan, "op_1");
    match fake.drive(step, |reply| execution.resume(reply)).unwrap() {
        SyncResult::Conflicted { files, .. } => assert_eq!(files, vec!["f.txt".to_string()]),
        other => panic!("expected conflict, got {other:?}"),
    }
    assert_eq!(fake.in_progress, Some("merge"), "merge should be in progress");

    // Undo aborts the merge and restores the pre-sync HEAD.
    let target = find_undo_target(&operations(fake.journal.clone())).unwrap();
    let (mut run, step) = perform(&repo, &journal, &target, "op_2");
    let report = fake.drive(step, |reply| run.resume(reply)).unwrap();
    assert_eq!(report.aborted, Some("merge"));
    assert_eq!(fake.in_progress, None);
    assert_eq!(fake.head, feature_head);
    assert!(fake.conflicted.is_empty());
}

#[test]
fn recovery_is_reversible_and_restores_selected_state() {
    let repo = repo();
    let journal = Journal::for_git_dir(repo.git_dir());
    let mut fake = FakeRepo::new("first", "main");
    let first = fake.head.clone();
    // The operation being recovered pinned its restore point earlier.
    let (restore, pin) = RestorePoint::create_at(&repo, "main", &first, "2026-07-15-143205");
    fake.answer(Request::Git(pin));
    let target = OperationRecord::begin(
        "op_1",
        "sync_rebase",
        "/work/repo",
        "main",
        BeforeState { head: first.clone(), restore_ref: Some(restore.ref_name.clone()) },
    )
    .complete(&first);
    fake.journal.push(target.clone());

    // A later commit moves the branch on.
    fake.head = "second".to_string();
    let second = fake.head.clone();
    let (mut planning, step) = recovery::plan(&repo, &journal, &target.id);
    let plan = fake.drive(step, |reply| planning.resume(reply)).unwrap();
    let (mut run, step) = recovery::perform(&repo, &journal, plan, "op_2");
    let report = fake.drive(step, |reply| run.resume(reply)).unwrap();

    assert_eq!(report.from, second);
    assert_eq!(report.to, first);
    assert_eq!(fake.head, first);
    assert!(fake.refs.contains_key(&report.safety_restore_ref));

    let ops = operations(fake.journal.clone());
    let recovered = ops.last().unwrap();
    assert_eq!(recovered.kind, "recover");
    assert_eq!(recovered.before.head, second);
}

#[test]
fn refuses_dirty_working_tree() {
    let repo = repo();
    let journal = Journal::for_git_dir(repo.git_dir());
    let mut fake = FakeRepo::new("first", "main");
    fake.dirty = true;
    let (mut planning, step) = recovery::plan(&repo, &journal, "anything");
    assert!(matches!(
        fake.drive(step, |reply| planning.resume(reply)),
        Err(recovery::RecoveryError::DirtyWorkingTree)
    ));
}

#[test]
fn detects_conventional_base_when_nothing_configured() {
    let repo = repo();
    let mut fake = FakeRepo::new("one", "main");
    let (mut detection, step) = BaseBranch::detect(&repo, None);
    let base = fake.drive(step, |reply| detection.resume(reply)).unwrap().unwrap();
    assert_eq!(base.name, "main");
    assert_eq!(base.source, BaseBranchSource::Conventional);
}

#[test]
fn prefers_configured_base_when_it_exists() {
    let repo = repo();
    let mut fake = FakeRepo::new("one", "main");
    fake.refs.insert("refs/heads/develop".into(), "one".into());
    let (mut detection, step) = BaseBranch::detect(&repo, Some("develop"));
    let base = fake.drive(step, |reply| detection.resume(reply)).unwrap().unwrap();
    assert_eq!(base.name, "develop");
    assert_eq!(base.source, BaseBranchSource::Configured);
}

#[test]
fn ignores_configured_base_that_does_not_exist() {
    let repo = repo();
    let mut fake = FakeRepo::new("one", "main");
    // "release" does not exist; should fall back to conventional "main".
    let (mut detection, step) = BaseBranch::detect(&repo, Some("release"));
    let base = fake.drive(step, |reply| detection.resume(reply)).unwrap().unwrap();
    assert_eq!(base.name, "main");
}

#[test]
fn remote_default_branch_wins_over_conventional_names() {
    let repo = repo();
    let mut fake = FakeRepo::new("one", "main");
    fake.remote_head = Some("trunk".into());
    let (mut detection, step) = BaseBranch::detect(&repo, None);
    let base = fake.drive(step, |reply| detection.resume(reply)).unwrap().unwrap();
    assert_eq!(base.name, "trunk");
    assert_eq!(base.source, BaseBranchSource::RemoteHead);
}

#[test]
fn computes_divergence_between_branches() {
    let repo = repo();
    let mut fake = FakeRepo::new("feature-one", "feature");
    fake.merge_base = Some("base-two".into());
    fake.counts = "1\t1".into();
    let (mut divergence, step) = divergence_from_base(&repo, "feature", "main");
    let (ahead, behind) = fake.drive(step, |reply| divergence.resume(reply)).unwrap().unwrap();
    assert_eq!(ahead, 1, "feature has 1 commit main lacks");
    assert_eq!(behind, 1, "main has 1 commit feature lacks");
}

#[test]
fn divergence_is_none_without_shared_history() {
    let repo = repo();
    let mut fake = FakeRepo::new("orphan-one", "orphan");
    let (mut divergence, step) = divergence_from_base(&repo, "orphan", "main");
    assert!(fake.drive(step, |reply| divergence.resume(reply)).unwrap().is_none());
}

/// A repository stopped mid-merge of `main` into `feature` with `f.txt`
/// conflicted.
fn merging_repo() -> FakeRepo {
    let mut fake = FakeRepo::new("feature-head", "feature");
    fake.refs.insert("refs/heads/main".into(), "main-head".into());
    fake.in_progress = Some("merge");
    fake.conflicted = vec!["f.txt".to_string()];
    fake.sides.insert("f.txt".into(), ("feature side\n".into(), "main side\n".into()));
    fake.files.insert(
        "/work/repo/f.txt".into(),
        "<<<<<<< HEAD\nfeature side\n=======\nmain side\n>>>>>>> main\n".into(),
    );
    fake
}

#[test]
fn inspect_reports_clean_when_nothing_in_progress() {
    let repo = repo();
    let journal = Journal::for_git_dir(repo.git_dir());
    let engine = ResolveEngine::new(&repo, &journal);
    let mut fake = FakeRepo::new("one", "main");
    let (mut inspection, step) = engine.inspect();
    assert!(matches!(fake.drive(step, |reply| inspection.resume(reply)).unwrap(), ResolveState::Clean));
}

#[test]
fn inspect_reports_merge_conflicts() {
    let repo = repo();
    let journal = Journal::for_git_dir(repo.git_dir());
    let engine = ResolveEngine::new(&repo, &journal);
    let mut fake = merging_repo();
    let (mut inspection, step) = engine.inspect();
    match fake.drive(step, |reply| inspection.resume(reply)).unwrap() {
        ResolveState::InProgress { context, files } => {
            assert_eq!(context, ConflictContext::Merge);
            assert_eq!(files, vec!["f.txt".to_string()]);
        }
        ResolveState::Clean => panic!("expected conflicts"),
    }
}

#[test]
fn take_side_keeps_chosen_content_and_stages() {
    let repo = repo();
    let journal = Journal::for_git_dir(repo.git_dir());
    let engine = ResolveEngine::new(&repo, &journal);
    let mut fake = merging_repo();
    let (mut resolution, step) = engine.take_side("f.txt", Side::Ours);
    fake.drive(step, |reply| resolution.resume(reply)).unwrap();
    assert_eq!(fake.files["/work/repo/f.txt"], "feature side\n");
    assert!(fake.conflicted.is_empty(), "taking a side stages the file, clearing the conflict");
}

#[test]
fn resolve_merge_then_finish_completes_and_is_undoable() {
    let repo = repo();
    let journal = Journal::for_git_dir(repo.git_dir());
    let engine = ResolveEngine::new(&repo, &journal);
    let mut fake = merging_repo();
    let feature_head = fake.head.clone();

    let (mut starting, step) = engine.start("feature", ConflictContext::Merge, "op_1");
    let (record, restore) = fake.drive(step, |reply| starting.resume(reply)).unwrap();
    assert_eq!(fake.resolve(&restore.ref_name), Some(feature_head.clone()));

    // Keep our (feature) side and finish the merge.
    let (mut resolution, step) = engine.take_side("f.txt", ConflictContext::Merge.mine());
    fake.drive(step, |reply| resolution.resume(reply)).unwrap();
    let remaining = engine.remaining();
    let reply = fake.answer(Request::Git(remaining));
    assert!(engine.remaining_of(reply).unwrap().is_empty());

    let (mut finishing, step) = engine.finish(&record, ConflictContext::Merge);
    match fake.drive(step, |reply| finishing.resume(reply)).unwrap() {
        FinishOutcome::Completed { head } => {
            assert_ne!(head, feature_head, "merge commit advanced HEAD");
        }
        other => panic!("expected completion, got {other:?}"),
    }
    assert_eq!(fake.in_progress, None);

    // Undo reverses the whole thing back to the pre-merge tip.
    let target = find_undo_target(&operations(fake.journal.clone())).unwrap();
    assert_eq!(target.kind, "resolve_merge");
    let (mut run, step) = perform(&repo, &journal, &target, "op_2");
    let report = fake.drive(step, |reply| run.resume(reply)).unwrap();
    assert_eq!(report.to, feature_head);
    assert_eq!(fake.head, feature_head);
}

#[test]
fn stage_edited_refuses_leftover_markers() {
    let repo = repo();
    let journal = Journal::for_git_dir(repo.git_dir());
    let engine = ResolveEngine::new(&repo, &journal);
    let mut fake = merging_repo();

    // The conflicted file still holds markers; staging it must be refused.
    let (mut resolution, step) = engine.stage_edited("f.txt");
    let err = fake.drive(step, |reply| resolution.resume(reply)).unwrap_err();
    assert!(matches!(err, ResolveError::MarkersRemain { .. }));

    // After a clean hand-edit, staging succeeds and clears the conflict.
    fake.files.insert("/work/repo/f.txt".into(), "resolved by hand\n".into());
    let (mut resolution, step) = engine.stage_edited("f.txt");
    fake.drive(step, |reply| resolution.resume(reply)).unwrap();
    assert!(fake.conflicted.is_empty());
}

#[test]
fn rebase_uses_orig_head_as_restore_point() {
    let repo = repo();
    let journal = Journal::for_git_dir(repo.git_dir());
    let engine = ResolveEngine::new(&repo, &journal);
    // Rebasing feature onto main stopped on a conflict: HEAD is mid-rebase,
    // ORIG_HEAD is the pre-rebase feature tip.
    let mut fake = FakeRepo::new("mid-rebase", "feature");
    let feature_tip = "feature-tip".to_string();
    fake.refs.insert("ORIG_HEAD".into(), feature_tip.clone());
    fake.in_progress = Some("rebase");
    fake.conflicted = vec!["f.txt".to_string()];
    fake.sides.insert("f.txt".into(), ("main side\n".into(), "feature side\n".into()));

    let (mut starting, step) = engine.start("feature", ConflictContext::Rebase, "op_1");
    let (record, _restore) = fake.drive(step, |reply| starting.resume(reply)).unwrap();
    // The restore point pins the pre-rebase feature tip, not the mid-rebase HEAD.
    assert_eq!(record.before.head, feature_tip);

    // Keep our (feature) side — during a rebase that is the "theirs" side —
    // and continue.
    let (mut resolution, step) = engine.take_side("f.txt", ConflictContext::Rebase.mine());
    fake.drive(step, |reply| resolution.resume(reply)).unwrap();
    let (mut finishing, step) = engine.finish(&record, ConflictContext::Rebase);
    match fake.drive(step, |reply| finishing.resume(reply)).unwrap() {
        FinishOutcome::Completed { .. } => {}
        other => panic!("expected completion, got {other:?}"),
    }
    assert_eq!(fake.in_progress, None);
    assert_eq!(fake.files["/work/repo/f.txt"], "feature side\n");

    // Undo returns feature to its pre-rebase tip.
    let target = find_undo_target(&operations(fake.journal.clone())).unwrap();
    let (mut run, step) = perform(&repo, &journal, &target, "op_2");
    let report = fake.drive(step, |reply| run.resume(reply)).unwrap();
    assert_eq!(report.to, feature_tip);
    assert_eq!(fake.head, feature_tip);
}

#[test]
fn restore_points_of_different_operations_differ() {
    let repo = repo();
    let a = RestorePoint::create_at(&repo, "main", "x", "2026-07-15-143205").0.ref_name;
    let b = RestorePoint::create_at(&repo, "main", "x", "2026-07-15-143206").0.ref_name;
    let c = RestorePoint::create_at(&repo, "dev", "x", "2026-07-15-143205").0.ref_name;
    assert_ne!(a, b);
    assert_ne!(a, c);
    assert_eq!(a, "refs/smoothee/restore/main/2026-07-15-143205");
    // Two operations on one branch within one second still get two refs.
    let (first, _) = RestorePoint::create(&repo, "main", "x", "op_1700000000123_0000");
    let (second, _) = RestorePoint::create(&repo, "main", "x", "op_1700000000123_0001");
    assert_ne!(first.ref_name, second.ref_name);
}

#[test]
fn rejected_merge_commit_is_reported_as_a_failure() {
    let repo = repo();
    let journal = Journal::for_git_dir(repo.git_dir());
    let engine = ResolveEngine::new(&repo, &journal);
    let mut fake = merging_repo();
    fake.reject_commit = true;
    let (mut starting, step) = engine.start("feature", ConflictContext::Merge, "op_1");
    let (record, _restore) = fake.drive(step, |reply| starting.resume(reply)).unwrap();
    let (mut resolution, step) = engine.take_side("f.txt", ConflictContext::Merge.mine());
    fake.drive(step, |reply| resolution.resume(reply)).unwrap();
    let journaled = fake.journal.len();

    let (mut finishing, step) = engine.finish(&record, ConflictContext::Merge);
    match fake.drive(step, |reply| finishing.resume(reply)) {
        Err(ResolveError::FinishFailed { verb, stderr }) => {
            assert_eq!(verb, "merge");
            assert_eq!(stderr, "pre-commit hook rejected the commit");
        }
        other => panic!("expected a failure, got {other:?}"),
    }
    assert_eq!(fake.head, "feature-head", "HEAD is unchanged");
    assert_eq!(fake.journal.len(), journaled, "nothing is journaled");
}

#[test]
fn restore_point_names_carry_a_local_time_stamp() {
    let repo = repo();
    let (rp, _) = RestorePoint::create(&repo, "main", "abc", "op_1700000000123_0007");
    let rest = rp.ref_name.strip_prefix("refs/smoothee/restore/main/").unwrap();
    let stamp = rest.strip_suffix("-op_1700000000123_0007").unwrap();
    assert_eq!(stamp.len(), 17, "{stamp}");
    for (i, c) in stamp.chars().enumerate() {
        if i == 4 || i == 7 || i == 10 {
            assert_eq!(c, '-', "{stamp}");
        } else {
            assert!(c.is_ascii_digit(), "{stamp}");
        }
    }
}

#[test]
fn failed_sync_keeps_uncommitted_work() {
    let repo = repo();
    let config = RepoConfig::default();
    let journal = Journal::for_git_dir(repo.git_dir());
    let engine = SyncEngine::new(&repo, &config, &journal);
    let mut fake = FakeRepo::new("h0", "feature");
    fake.refs.insert("refs/heads/main".into(), "main-head".into());
    fake.dirty = true;

    let plan = plan_onto_main("feature", ResolvedStrategy::Rebase);
    let (mut execution, step) = engine.execute(plan, "op_1");
    match fake.drive(step, |reply| execution.resume(reply)) {
        Err(SyncError::OperationFailed { strategy, .. }) => assert_eq!(strategy, "rebase"),
        other => panic!("expected the rebase to fail, got {other:?}"),
    }
    assert_eq!(fake.head, "h0");
    assert!(fake.dirty, "the unstaged edit is still there");
    let last = fake.journal.last().unwrap();
    assert_eq!(last.status, OperationStatus::Failed);
}

#[test]
fn successive_ids_from_one_source_sort_in_order() {
    let mut ids = IdSource::new();
    let a = ids.next_id();
    let b = ids.next_id();
    assert_ne!(a, b);
    assert!(a < b, "{a} < {b}");
}
