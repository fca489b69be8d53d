//! `smoothee commit` — build one intentional, reviewable commit.
//!
//! The decisions behind a commit: which change group to isolate, what to
//! stage and which message to propose. Showing the plan, asking for approval
//! and running the commands are the binary's job.
use vstd::prelude::*;

use crate::git::command::render_command;
use crate::git::commit::{
    commit_command, commit_view, group_view, stage_command, stage_paths_view, staged_paths_spec,
    suggested_message, suggested_message_spec, Change, ChangeGroup, CommitPlan,
};
use crate::git::conflicts::string_views;
use crate::git::repository::Repository;
use crate::text::{decimal, owned, push_decimal, push_str};
use crate::ui::output::{
    bullet, bullet_spec, label, label_spec, running, running_spec, warn, warn_spec,
};

verus! {

/// Flags parsed for `smoothee commit`.
#[derive(Debug, Clone, Default)]
pub struct CommitArgs {
    /// The commit message; proposed from the selected scope when absent.
    pub message: Option<String>,
    /// Deliberately stage every current change before committing.
    pub all: bool,
    /// Stage only logical group N (counted from 1).
    pub group: Option<usize>,
    /// Show the analysis and commands without staging or committing.
    pub dry_run: bool,
    /// Skip the confirmation prompt.
    pub yes: bool,
}

/// Why a commit cannot be planned.
#[derive(Debug, Clone, PartialEq, Eq)]
pub enum CommitError {
    /// `--group N` names no group.
    NoSuchGroup(usize),
}

impl CommitError {
    /// The message shown for the error.
    pub fn message(&self) -> (r: String)
        ensures
            match self {
                CommitError::NoSuchGroup(n) => r@ == "--group "@ + decimal(*n as nat)
                    + " does not exist; run `smoothee commit --dry-run` to inspect groups"@,
            },
    {
        match self {
            CommitError::NoSuchGroup(n) => {
                let mut s = owned("--group ");
                push_decimal(&mut s, *n as u64);
                push_str(&mut s, " does not exist; run `smoothee commit --dry-run` to inspect groups");
                s
            },
        }
    }
}

/// Whether any change in the plan is staged.
pub open spec fn plan_has_staged(p: CommitPlan) -> bool {
    exists|i: int| 0 <= i < p.changes@.len() && #[trigger] p.changes@[i].staged
}

/// Which group is selected: none with `--all`, or when a staged selection
/// exists and no group was asked for; the `N`-th with `--group N` (an `N`
/// past the last group is an error carrying `N`; `0` reads as `1`); the only
/// group when there is exactly one; otherwise none.
pub open spec fn selection(has_staged: bool, groups: nat, all: bool, group: Option<usize>) -> Result<
    Option<int>,
    usize,
> {
    if all || (has_staged && group is None) {
        Ok(None)
    } else if group is Some {
        let index = group->0;
        let i = if index == 0 {
            0
        } else {
            index - 1
        };
        if i < groups {
            Ok(Some(i as int))
        } else {
            Err(index)
        }
    } else if groups == 1 {
        Ok(Some(0))
    } else {
        Ok(None)
    }
}

/// Which group a commit takes: `--all`, or staged changes without
/// `--group`, commit what is staged (no group); `--group <n>` takes the
/// `n`-th group, counting from 1 (`0` reads as `1`), and is refused when
/// there is no such group; with nothing staged and no `--group`, the one
/// group there is, or none when there are several or none.
pub proof fn group_selection_follows_the_flags(has_staged: bool, groups: nat, n: usize)
    ensures
        selection(has_staged, groups, true, None) == Ok::<Option<int>, usize>(None),
        selection(has_staged, groups, true, Some(n)) == Ok::<Option<int>, usize>(None),
        has_staged ==> selection(has_staged, groups, false, None) == Ok::<Option<int>, usize>(None),
        1 <= n <= groups ==> selection(has_staged, groups, false, Some(n)) == Ok::<Option<int>, usize>(
            Some(n - 1),
        ),
        n == 0 && groups > 0 ==> selection(has_staged, groups, false, Some(n)) == Ok::<
            Option<int>,
            usize,
        >(Some(0)),
        n > groups || (n == 0 && groups == 0) ==> selection(has_staged, groups, false, Some(n))
            == Err::<Option<int>, usize>(n),
        !has_staged && groups == 1 ==> selection(has_staged, groups, false, None) == Ok::<
            Option<int>,
            usize,
        >(Some(0)),
        !has_staged && groups != 1 ==> selection(has_staged, groups, false, None) == Ok::<
            Option<int>,
            usize,
        >(None),
{
}

/// The group to commit, if one is selected.
pub fn select_group<'a>(plan: &'a CommitPlan, args: &CommitArgs) -> (r: Result<
    Option<&'a ChangeGroup>,
    CommitError,
>)
    ensures
        match selection(plan_has_staged(*plan), plan.groups@.len(), args.all, args.group) {
            Ok(None) => r == Ok::<Option<&ChangeGroup>, CommitError>(None),
            Ok(Some(i)) => r matches Ok(Some(g)) && *g == plan.groups@[i],
            Err(n) => r == Err::<Option<&ChangeGroup>, CommitError>(CommitError::NoSuchGroup(n)),
        },
{
    let has_staged = plan.has_staged();
    if args.all || (has_staged && args.group.is_none()) {
        return Ok(None);
    }
    if let Some(index) = args.group {
        let i = if index == 0 {
            0
        } else {
            index - 1
        };
        if i < plan.groups.len() {
            return Ok(Some(&plan.groups[i]));
        }
        return Err(CommitError::NoSuchGroup(index));
    }
    if plan.groups.len() == 1 {
        return Ok(Some(&plan.groups[0]));
    }
    Ok(None)
}

/// What is staged before committing.
#[derive(Debug, Clone, Copy, PartialEq, Eq, Structural)]
pub enum StagePlan {
    /// Keep the current staged selection exactly as it is.
    KeepStaged,
    /// Stage every current working-tree change.
    StageAll,
    /// Stage only the group at this index.
    StageGroup(usize),
}

/// The outcome of planning a commit.
#[derive(Debug, Clone)]
pub enum CommitDecision {
    /// The working tree is clean.
    NothingToCommit,
    /// A group cannot be isolated while other changes are staged.
    GroupWithStaged,
    /// Several unrelated-looking groups and no choice made.
    ChooseGroup,
    /// Stage `stage_paths` (none when keeping the staged selection), then
    /// commit with `message`.
    Commit { stage: StagePlan, stage_paths: Vec<String>, message: String },
}

/// The mathematical content of a [`CommitDecision`].
pub enum DecisionView {
    NothingToCommit,
    GroupWithStaged,
    ChooseGroup,
    Commit { stage: StagePlan, stage_paths: Seq<Seq<char>>, message: Seq<char> },
}

impl View for CommitDecision {
    type V = DecisionView;

    open spec fn view(&self) -> DecisionView {
        match self {
            CommitDecision::NothingToCommit => DecisionView::NothingToCommit,
            CommitDecision::GroupWithStaged => DecisionView::GroupWithStaged,
            CommitDecision::ChooseGroup => DecisionView::ChooseGroup,
            CommitDecision::Commit { stage, stage_paths, message } => DecisionView::Commit {
                stage: *stage,
                stage_paths: string_views(stage_paths@),
                message: message@,
            },
        }
    }
}

/// Every changed path, in order.
pub open spec fn change_paths(cs: Seq<Change>) -> Seq<Seq<char>> {
    cs.map_values(|c: Change| c.path@)
}

/// The message of the commit: the one given, else the one proposed for the
/// selected group and the staged paths.
pub open spec fn message_for(
    p: CommitPlan,
    given: Option<Seq<char>>,
    selected: Option<int>,
) -> Seq<char> {
    match given {
        Some(m) => m,
        None => suggested_message_spec(
            match selected {
                Some(i) => Some(p.groups@[i].scope@),
                None => None,
            },
            staged_paths_spec(p.changes@),
        ),
    }
}

/// The commit to make for `p` under `args`: nothing for a clean tree;
/// refused when a group is asked for beside a staged selection; otherwise
/// the staged selection is kept (unless `--all`), or everything is staged
/// with `--all`, or the selected group is staged; without any of these the
/// user must choose a group.
pub open spec fn commit_decision(p: CommitPlan, args_all: bool, args_group: Option<usize>, given: Option<
    Seq<char>,
>) -> Result<DecisionView, usize> {
    let has_staged = plan_has_staged(p);
    if p.changes@.len() == 0 {
        Ok(DecisionView::NothingToCommit)
    } else if args_group is Some && has_staged {
        Ok(DecisionView::GroupWithStaged)
    } else {
        match selection(has_staged, p.groups@.len(), args_all, args_group) {
            Err(n) => Err(n),
            Ok(selected) => {
                let message = message_for(p, given, selected);
                if has_staged && !args_all {
                    Ok(
                        DecisionView::Commit {
                            stage: StagePlan::KeepStaged,
                            stage_paths: seq![],
                            message,
                        },
                    )
                } else if args_all {
                    Ok(
                        DecisionView::Commit {
                            stage: StagePlan::StageAll,
                            stage_paths: change_paths(p.changes@),
                            message,
                        },
                    )
                } else {
                    match selected {
                        Some(i) => Ok(
                            DecisionView::Commit {
                                stage: StagePlan::StageGroup(i as usize),
                                stage_paths: p.groups@[i].paths@.map_values(|s: String| s@),
                                message,
                            },
                        ),
                        None => Ok(DecisionView::ChooseGroup),
                    }
                }
            },
        }
    }
}

fn all_paths(changes: &Vec<Change>) -> (r: Vec<String>)
    ensures
        string_views(r@) == change_paths(changes@),
{
    let mut r: Vec<String> = Vec::new();
    let mut i: usize = 0;
    while i < changes.len()
        invariant
            i <= changes@.len(),
            string_views(r@) == change_paths(changes@).take(i as int),
        decreases changes@.len() - i,
    {
        r.push(changes[i].path.clone());
        assert(change_paths(changes@).take(i + 1) =~= change_paths(changes@).take(i as int).push(
            changes@[i as int].path@,
        ));
        assert(string_views(r@) =~= change_paths(changes@).take(i as int).push(
            changes@[i as int].path@,
        ));
        i += 1;
    }
    assert(change_paths(changes@).take(changes@.len() as int) =~= change_paths(changes@));
    r
}

fn copy_paths(paths: &Vec<String>) -> (r: Vec<String>)
    ensures
        string_views(r@) == paths@.map_values(|s: String| s@),
{
    let mut r: Vec<String> = Vec::new();
    let mut i: usize = 0;
    while i < paths.len()
        invariant
            i <= paths@.len(),
            string_views(r@) == paths@.map_values(|s: String| s@).take(i as int),
        decreases paths@.len() - i,
    {
        r.push(paths[i].clone());
        assert(paths@.map_values(|s: String| s@).take(i + 1) =~= paths@.map_values(
            |s: String| s@,
        ).take(i as int).push(paths@[i as int]@));
        assert(string_views(r@) =~= paths@.map_values(|s: String| s@).take(i as int).push(
            paths@[i as int]@,
        ));
        i += 1;
    }
    assert(paths@.map_values(|s: String| s@).take(paths@.len() as int) =~= paths@.map_values(
        |s: String| s@,
    ));
    r
}

/// A commit plan stages only what was asked for: a clean tree commits
/// nothing; `--group` with something already staged is refused; staging
/// every change happens only under `--all`, and then stages every changed
/// path; an existing staged selection is kept as it is (nothing more is
/// staged) unless `--all` is given; otherwise exactly one group's paths are
/// staged. A message given is the commit's message.
pub proof fn commit_stages_only_what_was_asked(
    p: CommitPlan,
    all: bool,
    group: Option<usize>,
    given: Option<Seq<char>>,
)
    ensures
        p.changes@.len() == 0 ==> commit_decision(p, all, group, given) == Ok::<DecisionView, usize>(
            DecisionView::NothingToCommit,
        ),
        p.changes@.len() > 0 && group is Some && plan_has_staged(p) ==> commit_decision(
            p,
            all,
            group,
            given,
        ) == Ok::<DecisionView, usize>(DecisionView::GroupWithStaged),
        commit_decision(p, all, group, given) matches Ok(DecisionView::Commit { stage, stage_paths, message })
            ==> {
            &&& (given matches Some(m) ==> message == m)
            &&& (stage is StageAll <==> all)
            &&& stage is StageAll ==> stage_paths.len() == p.changes@.len() && forall|i: int|
                0 <= i < stage_paths.len() ==> #[trigger] stage_paths[i] == p.changes@[i].path@
            &&& stage is KeepStaged ==> plan_has_staged(p) && !all && stage_paths.len() == 0
            &&& stage matches StagePlan::StageGroup(g) ==> !all && !plan_has_staged(p) && g
                < p.groups@.len() && stage_paths == p.groups@[g as int].paths@.map_values(
                |s: String| s@,
            )
        },
{
}

/// Plan the commit for `plan` under `args`.
pub fn decide_commit(plan: &CommitPlan, args: &CommitArgs) -> (r: Result<CommitDecision, CommitError>)
    ensures
        match commit_decision(
            *plan,
            args.all,
            args.group,
            match args.message {
                Some(m) => Some(m@),
                None => None,
            },
        ) {
            Ok(d) => r matches Ok(x) && x@ == d,
            Err(n) => r == Err::<CommitDecision, CommitError>(CommitError::NoSuchGroup(n)),
        },
{
    if plan.is_empty() {
        return Ok(CommitDecision::NothingToCommit);
    }
    let has_staged = plan.has_staged();
    if args.group.is_some() && has_staged {
        return Ok(CommitDecision::GroupWithStaged);
    }
    let selected = match select_group(plan, args) {
        Ok(s) => s,
        Err(e) => return Err(e),
    };
    let ghost sel = selection(has_staged, plan.groups@.len(), args.all, args.group);
    let staged = plan.staged_paths();
    assert(string_views(staged@) == staged@.map_values(|p: String| p@));
    let message = match &args.message {
        Some(m) => m.clone(),
        None => suggested_message(selected, &staged),
    };
    proof {
        let selected_index = sel->Ok_0;
        assert(message@ == message_for(
            *plan,
            match args.message {
                Some(m) => Some(m@),
                None => None,
            },
            selected_index,
        ));
    }
    if has_staged && !args.all {
        let stage_paths: Vec<String> = Vec::new();
        assert(string_views(stage_paths@) =~= Seq::<Seq<char>>::empty());
        Ok(CommitDecision::Commit { stage: StagePlan::KeepStaged, stage_paths, message })
    } else if args.all {
        Ok(
            CommitDecision::Commit {
                stage: StagePlan::StageAll,
                stage_paths: all_paths(&plan.changes),
                message,
            },
        )
    } else {
        match selected {
            Some(group) => {
                let ghost i = sel->Ok_0->Some_0;
                let index: usize = match args.group {
                    Some(n) => if n == 0 {
                        0
                    } else {
                        n - 1
                    },
                    None => 0,
                };
                assert(index == i);
                assert(*group == plan.groups@[i]);
                let stage_paths = copy_paths(&group.paths);
                let d = CommitDecision::Commit {
                    stage: StagePlan::StageGroup(index),
                    stage_paths,
                    message,
                };
                assert(d@ == (DecisionView::Commit {
                    stage: StagePlan::StageGroup(i as usize),
                    stage_paths: plan.groups@[i].paths@.map_values(|s: String| s@),
                    message: message_for(
                        *plan,
                        match args.message {
                            Some(m) => Some(m@),
                            None => None,
                        },
                        Some(i),
                    ),
                }));
                Ok(d)
            },
            None => Ok(CommitDecision::ChooseGroup),
        }
    }
}

/// How a change's state is described.
pub open spec fn state_text(c: Change) -> Seq<char> {
    if c.untracked {
        "untracked"@
    } else if c.staged && c.unstaged {
        "staged + modified again"@
    } else if c.staged {
        "staged"@
    } else {
        "unstaged"@
    }
}

/// One bullet per change: its path and state.
pub open spec fn change_lines(cs: Seq<Change>, colors: bool) -> Seq<char>
    decreases cs.len(),
{
    if cs.len() == 0 {
        seq![]
    } else {
        change_lines(cs.drop_last(), colors) + bullet_spec(
            cs.last().path@ + " ("@ + state_text(cs.last()) + ")"@,
            colors,
        ) + "\n"@
    }
}

/// One numbered bullet per group: its scope and how many files it holds.
pub open spec fn group_lines(gs: Seq<ChangeGroup>, colors: bool) -> Seq<char>
    decreases gs.len(),
{
    if gs.len() == 0 {
        seq![]
    } else {
        group_lines(gs.drop_last(), colors) + bullet_spec(
            decimal(gs.len()) + ". "@ + gs.last().scope@ + " ("@ + decimal(gs.last().paths@.len())
                + " files)"@,
            colors,
        ) + "\n"@
    }
}

/// The analysis shown before a commit: every change with its state, then —
/// when nothing is staged and the changes fall into several groups — the
/// numbered groups to choose from.
pub open spec fn changes_text(p: CommitPlan, colors: bool) -> Seq<char> {
    label_spec("Changes:"@, colors) + "\n"@ + change_lines(p.changes@, colors) + if !plan_has_staged(p)
        && p.groups@.len() > 1 {
        "\n"@ + label_spec("Logical groups:"@, colors) + "\n"@ + group_lines(p.groups@, colors)
    } else {
        seq![]
    }
}

fn push_change_lines(out: &mut String, changes: &Vec<Change>, colors: bool)
    ensures
        final(out)@ == old(out)@ + change_lines(changes@, colors),
{
    let ghost start = out@;
    let mut i: usize = 0;
    while i < changes.len()
        invariant
            i <= changes@.len(),
            out@ == start + change_lines(changes@.take(i as int), colors),
        decreases changes@.len() - i,
    {
        let c = &changes[i];
        let state = if c.untracked {
            "untracked"
        } else if c.staged && c.unstaged {
            "staged + modified again"
        } else if c.staged {
            "staged"
        } else {
            "unstaged"
        };
        let mut t = owned(c.path.as_str());
        push_str(&mut t, " (");
        push_str(&mut t, state);
        push_str(&mut t, ")");
        let b = bullet(t.as_str(), colors);
        push_str(out, b.as_str());
        push_str(out, "\n");
        proof {
            let s = changes@.take(i + 1);
            assert(s.drop_last() =~= changes@.take(i as int));
            assert(s.last() == changes@[i as int]);
        }
        i += 1;
    }
    assert(changes@.take(changes@.len() as int) =~= changes@);
}

fn push_group_lines(out: &mut String, groups: &Vec<ChangeGroup>, colors: bool)
    requires
        groups@.len() < u64::MAX,
    ensures
        final(out)@ == old(out)@ + group_lines(groups@, colors),
{
    let ghost start = out@;
    let mut i: usize = 0;
    while i < groups.len()
        invariant
            i <= groups@.len(),
            groups@.len() < u64::MAX,
            out@ == start + group_lines(groups@.take(i as int), colors),
        decreases groups@.len() - i,
    {
        let g = &groups[i];
        let mut t = String::new();
        push_decimal(&mut t, (i + 1) as u64);
        push_str(&mut t, ". ");
        push_str(&mut t, g.scope.as_str());
        push_str(&mut t, " (");
        push_decimal(&mut t, g.paths.len() as u64);
        push_str(&mut t, " files)");
        let b = bullet(t.as_str(), colors);
        push_str(out, b.as_str());
        push_str(out, "\n");
        proof {
            let s = groups@.take(i + 1);
            assert(s.drop_last() =~= groups@.take(i as int));
            assert(s.last() == groups@[i as int]);
            assert(s.len() == i + 1);
        }
        i += 1;
    }
    assert(groups@.take(groups@.len() as int) =~= groups@);
}

/// Render the analysis of the changes.
pub fn print_changes(plan: &CommitPlan, colors: bool) -> (r: String)
    requires
        plan.groups@.len() < u64::MAX,
    ensures
        r@ == changes_text(*plan, colors),
{
    let mut out = label("Changes:", colors);
    push_str(&mut out, "\n");
    push_change_lines(&mut out, &plan.changes, colors);
    let ghost mid = out@;
    if !plan.has_staged() && plan.groups.len() > 1 {
        push_str(&mut out, "\n");
        let l = label("Logical groups:", colors);
        push_str(&mut out, l.as_str());
        push_str(&mut out, "\n");
        push_group_lines(&mut out, &plan.groups, colors);
    }
    assert(out@ =~= changes_text(*plan, colors));
    out
}

fn push_line(out: &mut String, line: &str)
    ensures
        final(out)@ == old(out)@ + line@ + "\n"@,
{
    push_str(out, line);
    push_str(out, "\n");
}

/// Each path as an indented label line.
pub open spec fn path_lines(paths: Seq<Seq<char>>, colors: bool) -> Seq<char>
    decreases paths.len(),
{
    if paths.len() == 0 {
        seq![]
    } else {
        path_lines(paths.drop_last(), colors) + "  "@ + label_spec(paths.last(), colors) + "\n"@
    }
}

/// The "Plan:" section: what is staged before committing.
pub open spec fn stage_plan_text(p: CommitPlan, stage: StagePlan, paths: Seq<Seq<char>>, colors: bool) -> Seq<
    char,
> {
    "\n"@ + label_spec("Plan:"@, colors) + "\n"@ + match stage {
        StagePlan::KeepStaged => bullet_spec(
            "Keep the current staged selection exactly as-is"@,
            colors,
        ) + "\n"@,
        StagePlan::StageAll => bullet_spec("Stage every current working-tree change"@, colors)
            + "\n"@,
        StagePlan::StageGroup(i) => bullet_spec(
            "Stage only the `"@ + p.groups@[i as int].scope@ + "` change group"@,
            colors,
        ) + "\n"@ + path_lines(paths, colors),
    }
}

/// The proposed message and the exact commands: `git add` for the paths to
/// stage (when there are any), then `git commit`.
pub open spec fn commands_text(repo_dir: Seq<char>, paths: Seq<Seq<char>>, message: Seq<char>, colors: bool) -> Seq<
    char,
> {
    "\n"@ + label_spec("Commit message:"@, colors) + "\n"@ + "  "@ + message + "\n"@ + (if paths.len()
        > 0 {
        "\n"@ + running_spec(render_command("git"@, stage_paths_view(repo_dir, paths).args), colors)
            + "\n"@
    } else {
        seq![]
    }) + running_spec(render_command("git"@, commit_view(repo_dir, message).args), colors) + "\n"@
}

/// What is shown for a decision once the changes were listed: why nothing
/// can be committed yet, or the plan, the message and the exact commands.
pub open spec fn decision_text(repo_dir: Seq<char>, p: CommitPlan, d: DecisionView, colors: bool) -> Seq<
    char,
> {
    match d {
        DecisionView::NothingToCommit => seq![],
        DecisionView::GroupWithStaged => "\n"@ + warn_spec(
            "A logical group cannot be isolated while other changes are staged."@,
            colors,
        ) + "\n"@ + "  "@ + label_spec(
            "Commit the staged selection first, or unstage it before using `--group N`."@,
            colors,
        ) + "\n"@,
        DecisionView::ChooseGroup => "\n"@ + warn_spec(
            "There are multiple unrelated-looking change groups."@,
            colors,
        ) + "\n"@ + "  "@ + label_spec(
            "Choose one with `--group N`, or use `--all` deliberately."@,
            colors,
        ) + "\n"@,
        DecisionView::Commit { stage, stage_paths, message } => stage_plan_text(
            p,
            stage,
            stage_paths,
            colors,
        ) + commands_text(repo_dir, stage_paths, message, colors),
    }
}

fn push_path_lines(out: &mut String, paths: &Vec<String>, colors: bool)
    ensures
        final(out)@ == old(out)@ + path_lines(string_views(paths@), colors),
{
    let ghost start = out@;
    let mut i: usize = 0;
    while i < paths.len()
        invariant
            i <= paths@.len(),
            out@ == start + path_lines(string_views(paths@).take(i as int), colors),
        decreases paths@.len() - i,
    {
        push_str(out, "  ");
        push_line(out, label(paths[i].as_str(), colors).as_str());
        proof {
            let t = string_views(paths@).take(i + 1);
            assert(t.drop_last() =~= string_views(paths@).take(i as int));
            assert(t.last() == paths@[i as int]@);
            assert(out@ =~= start + path_lines(t, colors));
        }
        i += 1;
    }
    assert(string_views(paths@).take(paths@.len() as int) =~= string_views(paths@));
}

fn push_stage_plan(out: &mut String, plan: &CommitPlan, stage: StagePlan, paths: &Vec<String>, colors: bool)
    requires
        stage matches StagePlan::StageGroup(i) ==> i < plan.groups@.len(),
    ensures
        final(out)@ == old(out)@ + stage_plan_text(*plan, stage, string_views(paths@), colors),
{
    let ghost start = out@;
    push_str(out, "\n");
    push_line(out, label("Plan:", colors).as_str());
    match stage {
        StagePlan::KeepStaged => {
            push_line(out, bullet("Keep the current staged selection exactly as-is", colors).as_str());
        },
        StagePlan::StageAll => {
            push_line(out, bullet("Stage every current working-tree change", colors).as_str());
        },
        StagePlan::StageGroup(i) => {
            let mut t = owned("Stage only the `");
            push_str(&mut t, plan.groups[i].scope.as_str());
            push_str(&mut t, "` change group");
            push_line(out, bullet(t.as_str(), colors).as_str());
            push_path_lines(out, paths, colors);
        },
    }
    assert(out@ =~= start + stage_plan_text(*plan, stage, string_views(paths@), colors));
}

fn push_commands(out: &mut String, repo: &Repository, paths: &Vec<String>, message: &str, colors: bool)
    ensures
        final(out)@ == old(out)@ + commands_text(repo.workdir@, string_views(paths@), message@, colors),
{
    let ghost start = out@;
    push_str(out, "\n");
    push_line(out, label("Commit message:", colors).as_str());
    push_str(out, "  ");
    push_line(out, message);
    let ghost mid = out@;
    if paths.len() > 0 {
        push_str(out, "\n");
        let shown = stage_command(repo, paths).display();
        push_line(out, running(shown.as_str(), colors).as_str());
    }
    let shown = commit_command(repo, message).display();
    push_line(out, running(shown.as_str(), colors).as_str());
    assert(string_views(paths@) == paths@.map_values(|p: String| p@));
    assert(out@ =~= start + commands_text(repo.workdir@, string_views(paths@), message@, colors));
}

/// Render what follows the list of changes for `decision`.
pub fn print_decision(repo: &Repository, plan: &CommitPlan, decision: &CommitDecision, colors: bool) -> (r:
    String)
    requires
        decision matches CommitDecision::Commit { stage: StagePlan::StageGroup(i), .. } ==> i
            < plan.groups@.len(),
    ensures
        r@ == decision_text(repo.workdir@, *plan, decision@, colors),
{
    let mut out = String::new();
    match decision {
        CommitDecision::NothingToCommit => {},
        CommitDecision::GroupWithStaged => {
            push_str(&mut out, "\n");
            let w = warn("A logical group cannot be isolated while other changes are staged.", colors);
            push_line(&mut out, w.as_str());
            push_str(&mut out, "  ");
            let l = label(
                "Commit the staged selection first, or unstage it before using `--group N`.",
                colors,
            );
            push_line(&mut out, l.as_str());
        },
        CommitDecision::ChooseGroup => {
            push_str(&mut out, "\n");
            let w = warn("There are multiple unrelated-looking change groups.", colors);
            push_line(&mut out, w.as_str());
            push_str(&mut out, "  ");
            let l = label("Choose one with `--group N`, or use `--all` deliberately.", colors);
            push_line(&mut out, l.as_str());
        },
        CommitDecision::Commit { stage, stage_paths, message } => {
            push_stage_plan(&mut out, plan, *stage, stage_paths, colors);
            push_commands(&mut out, repo, stage_paths, message.as_str(), colors);
        },
    }
    assert(out@ =~= decision_text(repo.workdir@, *plan, decision@, colors));
    out
}

} // verus!
