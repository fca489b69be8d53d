//! `smoothee status` — explain repository state in plain language.
//!
//! This is Smoothee's first and most-run command. It answers the questions
//! developers actually have: what branch am I on, is anything uncommitted, am
//! I ahead or behind, is it safe to push, and what should I do next.
use vstd::prelude::*;

use crate::config::repository::RepoConfig;
use crate::exchange::{git_reply, GitErrorView, Reply, ReplyView, Request, RequestView, Step};
use crate::git::command::GitCommandView;
use crate::git::branches::{
    base_view, detect_first, detect_next, detect_question, diverge_next, merge_base_view,
    BaseBranch, BaseBranchSource, BaseDetection, BaseView, DetectNext, DetectStage,
    DetectStageView, DivergeNext, DivergeStage, Divergence,
};
use crate::git::command::GitError;
use crate::git::repository::{repo_name, Repository};
use crate::git::state::status_view;
use crate::git::status::{
    countable, is_clean_view, status_outcome, StatusView, WorkingTreeStatus,
};
use crate::text::same_text;
use crate::text::{decimal, owned, push_decimal, push_str};
use crate::ui::output::{
    bullet, bullet_spec, heading, heading_spec, label, label_spec, recommend, recommend_spec,
};

verus! {

/// The single recommended next step, derived deterministically from state.
#[derive(Debug, Clone, Copy, PartialEq, Eq, Structural)]
pub enum Recommendation {
    /// Repository has no commits yet.
    InitialCommit,
    /// Detached HEAD — not on a branch.
    DetachedHead,
    /// Unresolved merge conflicts are present.
    Resolve,
    /// Behind the base branch; syncing is advised.
    Sync,
    /// Local changes are present and could be committed.
    Commit,
    /// Ahead of upstream with a clean tree; pushing/PR is the next step.
    Push,
    /// Nothing to do.
    UpToDate,
}

pub open spec fn recommendation_command(r: Recommendation) -> Option<Seq<char>> {
    match r {
        Recommendation::InitialCommit => Some("smoothee commit"@),
        Recommendation::DetachedHead => None,
        Recommendation::Resolve => Some("smoothee resolve"@),
        Recommendation::Sync => Some("smoothee sync"@),
        Recommendation::Commit => Some("smoothee commit"@),
        Recommendation::Push => Some("smoothee pr"@),
        Recommendation::UpToDate => None,
    }
}

pub open spec fn recommendation_summary(r: Recommendation) -> Seq<char> {
    match r {
        Recommendation::InitialCommit => "This repository has no commits yet."@,
        Recommendation::DetachedHead => "You are not on a branch (detached HEAD). Check out a branch to continue."@,
        Recommendation::Resolve => "You have merge conflicts that need attention."@,
        Recommendation::Sync => "Your branch is behind its base and can be updated safely."@,
        Recommendation::Commit => "You have changes that are not committed yet."@,
        Recommendation::Push => "Your branch is ahead and ready to share."@,
        Recommendation::UpToDate => "Everything is up to date. Nothing to do."@,
    }
}

impl Recommendation {
    /// The command a user would run to act on this recommendation, if any.
    pub fn command(&self) -> (r: Option<&'static str>)
        ensures
            match r {
                Some(c) => recommendation_command(*self) == Some(c@),
                None => recommendation_command(*self).is_none(),
            },
    {
        match self {
            Recommendation::InitialCommit => Some("smoothee commit"),
            Recommendation::DetachedHead => None,
            Recommendation::Resolve => Some("smoothee resolve"),
            Recommendation::Sync => Some("smoothee sync"),
            Recommendation::Commit => Some("smoothee commit"),
            Recommendation::Push => Some("smoothee pr"),
            Recommendation::UpToDate => None,
        }
    }

    /// A one-line human explanation of the recommendation.
    pub fn summary(&self) -> (r: &'static str)
        ensures
            r@ == recommendation_summary(*self),
    {
        match self {
            Recommendation::InitialCommit => "This repository has no commits yet.",
            Recommendation::DetachedHead => "You are not on a branch (detached HEAD). Check out a branch to continue.",
            Recommendation::Resolve => "You have merge conflicts that need attention.",
            Recommendation::Sync => "Your branch is behind its base and can be updated safely.",
            Recommendation::Commit => "You have changes that are not committed yet.",
            Recommendation::Push => "Your branch is ahead and ready to share.",
            Recommendation::UpToDate => "Everything is up to date. Nothing to do.",
        }
    }
}

/// The recommended next step. Order encodes priority: the most urgent,
/// safety-relevant action wins. A missing divergence or upstream counts as
/// zero commits behind or ahead.
pub open spec fn recommendation_for(t: StatusView, base_divergence: Option<(u32, u32)>) -> Recommendation {
    let behind_base = match base_divergence {
        Some(d) => d.1,
        None => 0,
    };
    let behind_upstream = match t.ahead_behind {
        Some(ab) => ab.1,
        None => 0,
    };
    let ahead_upstream = match t.ahead_behind {
        Some(ab) => ab.0,
        None => 0,
    };
    if t.is_initial {
        Recommendation::InitialCommit
    } else if t.branch is None {
        Recommendation::DetachedHead
    } else if t.conflicted > 0 {
        Recommendation::Resolve
    } else if behind_base > 0 || behind_upstream > 0 {
        Recommendation::Sync
    } else if !is_clean_view(t) {
        Recommendation::Commit
    } else if ahead_upstream > 0 {
        Recommendation::Push
    } else {
        Recommendation::UpToDate
    }
}

/// The recommendation goes by urgency: an unborn repository first, then a
/// detached HEAD, then conflicts; then, on a branch behind its base or its
/// upstream by at least one commit (whichever is known), a sync; then
/// uncommitted changes; then unpushed commits; else up to date.
pub proof fn recommendation_follows_urgency(t: StatusView, base_divergence: Option<(u32, u32)>)
    ensures
        t.is_initial ==> recommendation_for(t, base_divergence) == Recommendation::InitialCommit,
        !t.is_initial && t.branch is None ==> recommendation_for(t, base_divergence)
            == Recommendation::DetachedHead,
        !t.is_initial && t.branch is Some && t.conflicted > 0 ==> recommendation_for(
            t,
            base_divergence,
        ) == Recommendation::Resolve,
        ({
            let behind = (base_divergence matches Some(d) && d.1 > 0) || (t.ahead_behind matches Some(
                ab,
            ) && ab.1 > 0);
            let ahead = t.ahead_behind matches Some(ab) && ab.0 > 0;
            let changed = t.staged > 0 || t.modified > 0 || t.conflicted > 0 || t.untracked > 0;
            let settled = !t.is_initial && t.branch is Some && t.conflicted == 0;
            &&& settled && behind ==> recommendation_for(t, base_divergence) == Recommendation::Sync
            &&& settled && !behind && changed ==> recommendation_for(t, base_divergence)
                == Recommendation::Commit
            &&& settled && !behind && !changed && ahead ==> recommendation_for(t, base_divergence)
                == Recommendation::Push
            &&& settled && !behind && !changed && !ahead ==> recommendation_for(t, base_divergence)
                == Recommendation::UpToDate
        }),
{
}

/// A fully-assembled, render-ready assessment of repository state.
///
/// Kept as data (rather than printing inline) so the assembly is checkable
/// and later commands can reuse the same recommendation logic.
#[derive(Debug, Clone)]
pub struct StatusAssessment {
    pub repo_name: String,
    pub branch: Option<String>,
    pub base: Option<BaseBranch>,
    pub tree: WorkingTreeStatus,
    /// Ahead/behind versus the base branch, when it differs from the current
    /// branch and shares history.
    pub base_divergence: Option<(u32, u32)>,
    pub recommendation: Recommendation,
}

/// `""` for one, `"s"` otherwise.
pub open spec fn plural_spec(n: nat) -> Seq<char> {
    if n == 1 {
        seq![]
    } else {
        "s"@
    }
}

/// The plural suffix for a count of `n`.
pub fn plural(n: u64) -> (r: &'static str)
    ensures
        r@ == plural_spec(n as nat),
{
    proof {
        reveal_strlit("");
    }
    if n == 1 {
        ""
    } else {
        "s"
    }
}

/// `<n> commit` or `<n> commits`.
pub open spec fn commits_phrase(n: nat) -> Seq<char> {
    decimal(n) + " commit"@ + plural_spec(n)
}

/// Ahead/behind counts relative to a named ref, in plain language.
pub open spec fn divergence_text(ahead: nat, behind: nat, reference: Seq<char>) -> Seq<char> {
    if ahead == 0 && behind == 0 {
        "up to date with "@ + reference
    } else if behind == 0 {
        commits_phrase(ahead) + " ahead of "@ + reference
    } else if ahead == 0 {
        commits_phrase(behind) + " behind "@ + reference
    } else {
        commits_phrase(ahead) + " ahead, "@ + commits_phrase(behind) + " behind "@ + reference
    }
}

fn push_commits(s: &mut String, n: u32)
    ensures
        final(s)@ == old(s)@ + commits_phrase(n as nat),
{
    push_decimal(s, n as u64);
    push_str(s, " commit");
    push_str(s, plural(n as u64));
    assert(final(s)@ =~= old(s)@ + commits_phrase(n as nat));
}

/// Describe ahead/behind counts relative to a named ref in plain language.
pub fn describe_divergence(ahead: u32, behind: u32, reference: &str) -> (r: String)
    ensures
        r@ == divergence_text(ahead as nat, behind as nat, reference@),
{
    let mut s = String::new();
    if ahead == 0 && behind == 0 {
        push_str(&mut s, "up to date with ");
    } else if behind == 0 {
        push_commits(&mut s, ahead);
        push_str(&mut s, " ahead of ");
    } else if ahead == 0 {
        push_commits(&mut s, behind);
        push_str(&mut s, " behind ");
    } else {
        push_commits(&mut s, ahead);
        push_str(&mut s, " ahead, ");
        push_commits(&mut s, behind);
        push_str(&mut s, " behind ");
    }
    push_str(&mut s, reference);
    assert(s@ =~= divergence_text(ahead as nat, behind as nat, reference@));
    s
}

pub open spec fn source_note(s: BaseBranchSource) -> Seq<char> {
    match s {
        BaseBranchSource::Configured => seq![],
        BaseBranchSource::RemoteHead => " (from origin)"@,
        BaseBranchSource::Conventional => " (guessed)"@,
    }
}

/// `<n> <noun> file(s)` as a bullet line, or nothing when `count` is zero.
pub open spec fn count_line(count: nat, noun: Seq<char>, colors: bool) -> Seq<char> {
    if count > 0 {
        bullet_spec(decimal(count) + " "@ + noun + " file"@ + plural_spec(count), colors) + "\n"@
    } else {
        seq![]
    }
}

/// One line per kind of change present.
pub open spec fn tree_lines(t: StatusView, colors: bool) -> Seq<char> {
    count_line(t.staged as nat, "staged"@, colors) + count_line(t.modified as nat, "modified"@, colors)
        + count_line(t.conflicted as nat, "conflicted"@, colors) + count_line(
        t.untracked as nat,
        "untracked"@,
        colors,
    )
}

/// The heading and the branch line.
pub open spec fn title_lines(a: StatusAssessment, colors: bool) -> Seq<char> {
    heading_spec("Repository: "@ + a.repo_name@, colors) + "\n"@ + label_spec("Branch:"@, colors)
        + " "@ + match a.branch {
        Some(b) => b@,
        None => "(detached HEAD)"@,
    } + "\n"@
}

/// The base-branch line, when a base branch is known.
pub open spec fn base_branch_line(a: StatusAssessment, colors: bool) -> Seq<char> {
    match a.base {
        Some(b) => label_spec("Base branch:"@, colors) + " "@ + b.name@ + label_spec(
            source_note(b.source),
            colors,
        ) + "\n"@,
        None => seq![],
    }
}

/// The heading, the branch line and the base-branch line.
pub open spec fn head_section(a: StatusAssessment, colors: bool) -> Seq<char> {
    title_lines(a, colors) + base_branch_line(a, colors)
}

/// The working-tree section: `clean`, or one line per kind of change.
pub open spec fn tree_section(t: StatusView, colors: bool) -> Seq<char> {
    "\n"@ + label_spec("Working tree:"@, colors) + "\n"@ + if is_clean_view(t) {
        bullet_spec("clean"@, colors) + "\n"@
    } else {
        tree_lines(t, colors)
    }
}

/// Divergence from the upstream, when both the counts and the upstream are known.
pub open spec fn upstream_line(t: StatusView, colors: bool) -> Seq<char> {
    match (t.ahead_behind, t.upstream) {
        (Some(ab), Some(u)) => bullet_spec(divergence_text(ab.0 as nat, ab.1 as nat, u), colors)
            + "\n"@,
        _ => seq![],
    }
}

/// Divergence from the base branch, when it was computed.
pub open spec fn base_line(a: StatusAssessment, colors: bool) -> Seq<char> {
    match (a.base_divergence, a.base) {
        (Some(d), Some(b)) => bullet_spec(divergence_text(d.0 as nat, d.1 as nat, b.name@), colors)
            + "\n"@,
        _ => seq![],
    }
}

/// The branch-state section; says so when neither divergence is known.
pub open spec fn state_section(a: StatusAssessment, colors: bool) -> Seq<char> {
    let up = upstream_line(a.tree@, colors);
    let base = base_line(a, colors);
    "\n"@ + label_spec("Branch state:"@, colors) + "\n"@ + up + base + if up.len() == 0
        && base.len() == 0 {
        bullet_spec("no upstream configured"@, colors) + "\n"@
    } else {
        seq![]
    }
}

/// The recommendation section: the summary, then the command when there is one.
pub open spec fn next_section(r: Recommendation, colors: bool) -> Seq<char> {
    "\n"@ + label_spec("Recommended next step:"@, colors) + "\n"@ + "  "@ + recommendation_summary(r)
        + "\n"@ + match recommendation_command(r) {
        Some(c) => "  "@ + recommend_spec(c, colors) + "\n"@,
        None => seq![],
    }
}

/// The rendered assessment, section by section.
pub open spec fn render_text(a: StatusAssessment, colors: bool) -> Seq<char> {
    head_section(a, colors) + tree_section(a.tree@, colors) + state_section(a, colors)
        + next_section(a.recommendation, colors)
}

fn push_tree_line(out: &mut String, count: u32, noun: &str, colors: bool)
    ensures
        final(out)@ == old(out)@ + count_line(count as nat, noun@, colors),
{
    if count > 0 {
        let mut text = String::new();
        push_decimal(&mut text, count as u64);
        push_str(&mut text, " ");
        push_str(&mut text, noun);
        push_str(&mut text, " file");
        push_str(&mut text, plural(count as u64));
        let b = bullet(text.as_str(), colors);
        push_str(out, b.as_str());
        push_str(out, "\n");
        assert(text@ =~= decimal(count as nat) + " "@ + noun@ + " file"@ + plural_spec(count as nat));
    } else {
        assert(old(out)@ + seq![] =~= old(out)@);
    }
}

fn push_tree_lines(out: &mut String, tree: &WorkingTreeStatus, colors: bool)
    ensures
        final(out)@ == old(out)@ + tree_lines(tree@, colors),
{
    let ghost start = out@;
    push_tree_line(out, tree.staged, "staged", colors);
    push_tree_line(out, tree.modified, "modified", colors);
    let ghost mid = out@;
    push_tree_line(out, tree.conflicted, "conflicted", colors);
    push_tree_line(out, tree.untracked, "untracked", colors);
    assert(out@ =~= start + tree_lines(tree@, colors));
}

impl StatusAssessment {
    /// Derive the recommended next step from state. Order encodes priority:
    /// the most urgent, safety-relevant action wins.
    pub fn recommend(tree: &WorkingTreeStatus, base_divergence: &Option<(u32, u32)>) -> (r:
        Recommendation)
        ensures
            r == recommendation_for(tree@, *base_divergence),
    {
        if tree.is_initial {
            return Recommendation::InitialCommit;
        }
        if tree.branch.is_none() {
            return Recommendation::DetachedHead;
        }
        if tree.conflicted > 0 {
            return Recommendation::Resolve;
        }
        // Behind the base branch (or upstream) → sync is the safe next move.
        let behind_base = match base_divergence {
            Some(d) => d.1,
            None => 0,
        };
        let behind_upstream = match &tree.ahead_behind {
            Some(ab) => ab.behind,
            None => 0,
        };
        if behind_base > 0 || behind_upstream > 0 {
            return Recommendation::Sync;
        }
        if !tree.is_clean() {
            return Recommendation::Commit;
        }
        let ahead_upstream = match &tree.ahead_behind {
            Some(ab) => ab.ahead,
            None => 0,
        };
        if ahead_upstream > 0 {
            return Recommendation::Push;
        }
        Recommendation::UpToDate
    }

    /// The assessment of a repository named `repo_name`, from its working
    /// tree status, its base branch (if one was found) and its divergence from
    /// that base.
    pub fn assemble(
        repo_name: &str,
        tree: WorkingTreeStatus,
        base: Option<BaseBranch>,
        base_divergence: Option<(u32, u32)>,
    ) -> (a: Self)
        ensures
            a.repo_name@ == repo_name@,
            a.branch matches Some(b) ==> tree@.branch == Some(b@),
            a.branch is None ==> tree@.branch is None,
            a.tree@ == tree@,
            a.base_divergence == base_divergence,
            a.recommendation == recommendation_for(tree@, base_divergence),
            match (a.base, base) {
                (Some(x), Some(y)) => x.name@ == y.name@ && x.source == y.source,
                (None, None) => true,
                _ => false,
            },
    {
        let recommendation = Self::recommend(&tree, &base_divergence);
        let branch = match &tree.branch {
            Some(b) => Some(b.clone()),
            None => None,
        };
        StatusAssessment {
            repo_name: owned(repo_name),
            branch,
            base,
            tree,
            base_divergence,
            recommendation,
        }
    }

    fn push_title(&self, out: &mut String, colors: bool)
        ensures
            final(out)@ == old(out)@ + title_lines(*self, colors),
    {
        let mut title = owned("Repository: ");
        push_str(&mut title, self.repo_name.as_str());
        let h = heading(title.as_str(), colors);
        push_str(out, h.as_str());
        push_str(out, "\n");
        let l = label("Branch:", colors);
        push_str(out, l.as_str());
        push_str(out, " ");
        match &self.branch {
            Some(b) => push_str(out, b.as_str()),
            None => push_str(out, "(detached HEAD)"),
        }
        push_str(out, "\n");
    }

    fn push_base(&self, out: &mut String, colors: bool)
        ensures
            final(out)@ == old(out)@ + base_branch_line(*self, colors),
    {
        if let Some(base) = &self.base {
            let note = match base.source {
                BaseBranchSource::Configured => "",
                BaseBranchSource::RemoteHead => " (from origin)",
                BaseBranchSource::Conventional => " (guessed)",
            };
            proof {
                reveal_strlit("");
            }
            let l = label("Base branch:", colors);
            push_str(out, l.as_str());
            push_str(out, " ");
            push_str(out, base.name.as_str());
            let n = label(note, colors);
            push_str(out, n.as_str());
            push_str(out, "\n");
        } else {
            assert(old(out)@ + seq![] =~= old(out)@);
        }
    }

    fn push_head(&self, out: &mut String, colors: bool)
        ensures
            final(out)@ == old(out)@ + head_section(*self, colors),
    {
        let ghost start = out@;
        self.push_title(out, colors);
        self.push_base(out, colors);
        assert(out@ =~= start + head_section(*self, colors));
    }

    fn push_tree(&self, out: &mut String, colors: bool)
        ensures
            final(out)@ == old(out)@ + tree_section(self.tree@, colors),
    {
        push_str(out, "\n");
        let l = label("Working tree:", colors);
        push_str(out, l.as_str());
        push_str(out, "\n");
        if self.tree.is_clean() {
            let b = bullet("clean", colors);
            push_str(out, b.as_str());
            push_str(out, "\n");
        } else {
            push_tree_lines(out, &self.tree, colors);
        }
    }

    fn push_state(&self, out: &mut String, colors: bool)
        ensures
            final(out)@ == old(out)@ + state_section(*self, colors),
    {
        push_str(out, "\n");
        let l = label("Branch state:", colors);
        push_str(out, l.as_str());
        push_str(out, "\n");
        let ghost start = out@;
        proof {
            reveal_strlit("\n");
        }
        let mut printed_state = false;
        if let Some(ab) = &self.tree.ahead_behind {
            if let Some(upstream) = &self.tree.upstream {
                let d = describe_divergence(ab.ahead, ab.behind, upstream.as_str());
                let b = bullet(d.as_str(), colors);
                push_str(out, b.as_str());
                push_str(out, "\n");
                printed_state = true;
            }
        }
        assert(out@ == start + upstream_line(self.tree@, colors));
        let ghost mid = out@;
        if let (Some((ahead, behind)), Some(base)) = (self.base_divergence, &self.base) {
            let d = describe_divergence(ahead, behind, base.name.as_str());
            let b = bullet(d.as_str(), colors);
            push_str(out, b.as_str());
            push_str(out, "\n");
            printed_state = true;
        }
        assert(out@ == mid + base_line(*self, colors));
        assert(printed_state == !(upstream_line(self.tree@, colors).len() == 0 && base_line(
            *self,
            colors,
        ).len() == 0));
        if !printed_state {
            let b = bullet("no upstream configured", colors);
            push_str(out, b.as_str());
            push_str(out, "\n");
        }
    }

    fn push_next(&self, out: &mut String, colors: bool)
        ensures
            final(out)@ == old(out)@ + next_section(self.recommendation, colors),
    {
        push_str(out, "\n");
        let l = label("Recommended next step:", colors);
        push_str(out, l.as_str());
        push_str(out, "\n");
        push_str(out, "  ");
        push_str(out, self.recommendation.summary());
        push_str(out, "\n");
        if let Some(cmd) = self.recommendation.command() {
            push_str(out, "  ");
            let r = recommend(cmd, colors);
            push_str(out, r.as_str());
            push_str(out, "\n");
        }
    }

    /// Render the assessment as the plain-language block users see.
    pub fn render(&self, colors: bool) -> (r: String)
        ensures
            r@ == render_text(*self, colors),
    {
        let mut out = String::new();
        self.push_head(&mut out, colors);
        self.push_tree(&mut out, colors);
        self.push_state(&mut out, colors);
        self.push_next(&mut out, colors);
        assert(out@ =~= render_text(*self, colors));
        out
    }
}

// ---------------------------------------------------------------------------
// Gathering
// ---------------------------------------------------------------------------

/// Why gathering failed: what was being done, and Git's error.
#[derive(Debug)]
pub struct GatherError {
    pub context: &'static str,
    pub error: GitError,
}

/// The mathematical content of a [`StatusAssessment`].
pub struct AssessmentView {
    pub repo_name: Seq<char>,
    pub branch: Option<Seq<char>>,
    pub base: BaseView,
    pub tree: StatusView,
    pub base_divergence: Option<(u32, u32)>,
    pub recommendation: Recommendation,
}

pub open spec fn assessment_view(a: StatusAssessment) -> AssessmentView {
    AssessmentView {
        repo_name: a.repo_name@,
        branch: match a.branch {
            Some(b) => Some(b@),
            None => None,
        },
        base: base_view(a.base),
        tree: a.tree@,
        base_divergence: a.base_divergence,
        recommendation: a.recommendation,
    }
}

/// The assessment of the repository in `dir` from its status, base branch
/// and divergence.
pub open spec fn assessed(dir: Seq<char>, t: StatusView, b: BaseView, d: Option<(u32, u32)>) -> AssessmentView {
    AssessmentView {
        repo_name: repo_name(dir),
        branch: t.branch,
        base: b,
        tree: t,
        base_divergence: d,
        recommendation: recommendation_for(t, d),
    }
}

/// Where gathering stands.
#[derive(Debug)]
pub enum GatherStage {
    /// The working-tree status.
    Tree,
    /// Detecting the base branch; the status.
    Detect(WorkingTreeStatus, BaseDetection),
    /// The divergence from the base; the status and the base.
    Diverge(WorkingTreeStatus, BaseBranch, Divergence),
    Finished,
}

pub enum GatherStageView {
    Tree,
    Detect(StatusView, DetectStageView),
    Diverge(StatusView, (Seq<char>, BaseBranchSource), DivergeStage),
    Finished,
}

impl View for GatherStage {
    type V = GatherStageView;

    open spec fn view(&self) -> GatherStageView {
        match self {
            GatherStage::Tree => GatherStageView::Tree,
            GatherStage::Detect(t, d) => GatherStageView::Detect(t@, d.stage@),
            GatherStage::Diverge(t, b, d) => GatherStageView::Diverge(t@, (b.name@, b.source), d.stage),
            GatherStage::Finished => GatherStageView::Finished,
        }
    }
}

pub enum GatherNext {
    Ask(GitCommandView),
    Done(Result<AssessmentView, (Seq<char>, GitErrorView)>),
}

/// One step of gathering. It reads the working-tree status, detects the base
/// branch (see [`detect_next`]), and — only on a branch that is not the base
/// itself — measures the branch's divergence from the base (see
/// [`diverge_next`]); the assessment then follows (see [`assessed`]). A Git
/// failure ends it with that error and what was being done.
pub open spec fn gather_next(dir: Seq<char>, configured: Option<Seq<char>>, stage: GatherStageView, reply: ReplyView) -> (GatherStageView, GatherNext) {
    let finish = |t: StatusView, b: BaseView| match (t.branch, b) {
        (Some(br), Some((name, src))) => if br != name {
            (GatherStageView::Diverge(t, (name, src), DivergeStage::MergeBase), GatherNext::Ask(merge_base_view(dir, br, name)))
        } else {
            (GatherStageView::Finished, GatherNext::Done(Ok(assessed(dir, t, b, None))))
        },
        _ => (GatherStageView::Finished, GatherNext::Done(Ok(assessed(dir, t, b, None)))),
    };
    match stage {
        GatherStageView::Tree => match status_outcome(dir, reply) {
            Err(e) => (GatherStageView::Finished, GatherNext::Done(Err(("reading repository status"@, e)))),
            Ok(t) => (
                GatherStageView::Detect(t, detect_first(configured)),
                GatherNext::Ask(detect_question(dir, detect_first(configured))),
            ),
        },
        GatherStageView::Detect(t, d) => match detect_next(d, dir, reply) {
            (d2, DetectNext::Ask(c)) => (GatherStageView::Detect(t, d2), GatherNext::Ask(c)),
            (_, DetectNext::Done(Err(e))) => (GatherStageView::Finished, GatherNext::Done(Err(("detecting base branch"@, e)))),
            (_, DetectNext::Done(Ok(b))) => finish(t, b),
        },
        GatherStageView::Diverge(t, b, d) => match diverge_next(d, dir, t.branch->0, b.0, reply) {
            (d2, DivergeNext::Ask(c)) => (GatherStageView::Diverge(t, b, d2), GatherNext::Ask(c)),
            (_, DivergeNext::Done(Err(e))) => (
                GatherStageView::Finished,
                GatherNext::Done(Err(("computing divergence from base"@, e))),
            ),
            (_, DivergeNext::Done(Ok(div))) => (
                GatherStageView::Finished,
                GatherNext::Done(Ok(assessed(dir, t, Some(b), div))),
            ),
        },
        GatherStageView::Finished => (GatherStageView::Finished, GatherNext::Done(Err(("gathering"@, GitErrorView::NotUtf8 { command: seq![] })))),
    }
}

pub open spec fn gather_step_is(step: Step<Result<StatusAssessment, GatherError>>, next: GatherNext) -> bool {
    match next {
        GatherNext::Ask(c) => step matches Step::Ask(q) && q@ == RequestView::Git(c),
        GatherNext::Done(Ok(v)) => step matches Step::Done(Ok(a)) && assessment_view(a) == v,
        GatherNext::Done(Err((ctx, e))) => step matches Step::Done(Err(x)) && x.context@ == ctx && x.error@ == e,
    }
}

/// Gathering a status assessment, one `git` question at a time.
#[derive(Debug)]
pub struct Gathering {
    pub repo: Repository,
    pub configured: Option<String>,
    pub stage: GatherStage,
}

impl Gathering {
    pub open spec fn wf(&self) -> bool {
        match self.stage {
            GatherStage::Detect(_, d) => d.wf() && d.repo.workdir@ == self.repo.workdir@ && !(d.stage is Finished),
            GatherStage::Diverge(t, b, d) => d.repo.workdir@ == self.repo.workdir@ && t@.branch == Some(d.branch@)
                && d.base@ == b.name@ && !(d.stage is Finished),
            _ => true,
        }
    }

    fn finish(&mut self, tree: WorkingTreeStatus, base: Option<BaseBranch>) -> (r: Step<Result<StatusAssessment, GatherError>>)
        ensures
            final(self).wf(),
            final(self).repo == old(self).repo,
            final(self).configured == old(self).configured,
            match (tree@.branch, base_view(base)) {
                (Some(br), Some((name, src))) => if br != name {
                    &&& final(self).stage@ == GatherStageView::Diverge(tree@, (name, src), DivergeStage::MergeBase)
                    &&& gather_step_is(r, GatherNext::Ask(merge_base_view(old(self).repo.workdir@, br, name)))
                } else {
                    &&& final(self).stage@ == GatherStageView::Finished
                    &&& gather_step_is(r, GatherNext::Done(Ok(assessed(old(self).repo.workdir@, tree@, base_view(base), None))))
                },
                _ => {
                    &&& final(self).stage@ == GatherStageView::Finished
                    &&& gather_step_is(r, GatherNext::Done(Ok(assessed(old(self).repo.workdir@, tree@, base_view(base), None))))
                },
            },
    {
        let diverging = match (&tree.branch, &base) {
            (Some(br), Some(b)) => !same_text(br.as_str(), b.name.as_str()),
            _ => false,
        };
        if diverging {
            let br = match &tree.branch {
                Some(br) => br.clone(),
                None => String::new(),
            };
            let b = match base {
                Some(b) => b,
                None => BaseBranch { name: String::new(), source: BaseBranchSource::Configured },
            };
            let (d, step) = Divergence::begin(&self.repo, br.as_str(), b.name.as_str());
            self.stage = GatherStage::Diverge(tree, b, d);
            match step {
                Step::Ask(q) => Step::Ask(q),
                Step::Done(_) => Step::Done(Err(GatherError { context: "gathering", error: GitError::NotUtf8 { command: String::new() } })),
            }
        } else {
            self.stage = GatherStage::Finished;
            let name = self.repo.name();
            Step::Done(Ok(StatusAssessment::assemble(name.as_str(), tree, base, None)))
        }
    }

    /// Go on with the reply to the last question.
    #[verifier::rlimit(60)]
    pub fn resume(&mut self, reply: Reply) -> (r: Step<Result<StatusAssessment, GatherError>>)
        requires
            old(self).wf(),
            !(old(self).stage is Finished),
            git_reply(reply@),
            old(self).stage is Tree ==> countable(reply@),
        ensures
            final(self).wf(),
            final(self).repo == old(self).repo,
            final(self).configured == old(self).configured,
            final(self).stage@ == gather_next(
                old(self).repo.workdir@,
                crate::text::opt_view(old(self).configured),
                old(self).stage@,
                reply@,
            ).0,
            gather_step_is(
                r,
                gather_next(
                    old(self).repo.workdir@,
                    crate::text::opt_view(old(self).configured),
                    old(self).stage@,
                    reply@,
                ).1,
            ),
    {
        let mut stage = GatherStage::Finished;
        std::mem::swap(&mut stage, &mut self.stage);
        match stage {
            GatherStage::Tree => match WorkingTreeStatus::from_reply(&self.repo, reply) {
                Err(e) => Step::Done(Err(GatherError { context: "reading repository status", error: e })),
                Ok(t) => {
                    let configured = match &self.configured {
                        Some(c) => Some(c.as_str()),
                        None => None,
                    };
                    let (d, step) = BaseDetection::begin(&self.repo, configured);
                    self.stage = GatherStage::Detect(t, d);
                    match step {
                        Step::Ask(q) => Step::Ask(q),
                        Step::Done(_) => Step::Done(Err(GatherError { context: "gathering", error: GitError::NotUtf8 { command: String::new() } })),
                    }
                },
            },
            GatherStage::Detect(t, mut d) => match d.resume(reply) {
                Step::Ask(q) => {
                    self.stage = GatherStage::Detect(t, d);
                    Step::Ask(q)
                },
                Step::Done(Err(e)) => Step::Done(Err(GatherError { context: "detecting base branch", error: e })),
                Step::Done(Ok(b)) => self.finish(t, b),
            },
            GatherStage::Diverge(t, b, mut d) => match d.resume(reply) {
                Step::Ask(q) => {
                    self.stage = GatherStage::Diverge(t, b, d);
                    Step::Ask(q)
                },
                Step::Done(Err(e)) => Step::Done(Err(GatherError { context: "computing divergence from base", error: e })),
                Step::Done(Ok(div)) => {
                    let name = self.repo.name();
                    Step::Done(Ok(StatusAssessment::assemble(name.as_str(), t, Some(b), div)))
                },
            },
            GatherStage::Finished => Step::Done(Err(GatherError { context: "gathering", error: GitError::NotUtf8 { command: String::new() } })),
        }
    }
}

impl StatusAssessment {
    /// Inspect `repo` and build an assessment, with the base branch
    /// `config` names preferred: start by asking for the working-tree status.
    pub fn gather(repo: &Repository, config: &RepoConfig) -> (r: (Gathering, Step<Result<StatusAssessment, GatherError>>))
        ensures
            r.0.wf(),
            r.0.repo.workdir@ == repo.workdir@,
            r.0.repo.git_dir@ == repo.git_dir@,
            crate::text::opt_view(r.0.configured) == crate::text::opt_view(config.base_branch),
            r.0.stage is Tree,
            gather_step_is(r.1, GatherNext::Ask(status_view(repo.workdir@))),
    {
        let c = WorkingTreeStatus::query(repo);
        (
            Gathering {
                repo: Repository::new(repo.workdir(), repo.git_dir()),
                configured: match &config.base_branch {
                    Some(b) => Some(b.clone()),
                    None => None,
                },
                stage: GatherStage::Tree,
            },
            Step::Ask(Request::Git(c)),
        )
    }
}

/// What holds of every gathering stage: divergence is measured only for a
/// branch that is not the base itself.
pub open spec fn gathering_inv(stage: GatherStageView) -> bool {
    match stage {
        GatherStageView::Diverge(t, b, _) => t.branch is Some && t.branch->0 != b.0,
        _ => true,
    }
}

/// Gathering a status changes nothing (it only reads: status, base-branch
/// refs, merge base, counts), and what it assembles is consistent: the
/// branch is the working tree's, the name is the repository's, the
/// recommendation is [`recommendation_for`] the tree and the divergence, and
/// a divergence is there only for a branch, other than the base, that has a
/// base.
pub proof fn gathered_assessment_is_consistent(
    dir: Seq<char>,
    configured: Option<Seq<char>>,
    s: GatherStageView,
    r: ReplyView,
)
    requires
        gathering_inv(s),
    ensures
        gathering_inv(gather_next(dir, configured, s, r).0),
        gather_next(dir, configured, s, r).1 matches GatherNext::Ask(c) ==> c.args.len() > 0 && {
            let sub = c.args[0];
            sub == "show-ref"@ || sub == "symbolic-ref"@ || sub == "merge-base"@ || sub == "rev-list"@
        },
        gather_next(dir, configured, s, r).1 matches GatherNext::Done(Ok(a)) ==> {
            &&& a.branch == a.tree.branch
            &&& a.repo_name == repo_name(dir)
            &&& a.recommendation == recommendation_for(a.tree, a.base_divergence)
            &&& a.base_divergence is Some ==> a.branch is Some && (a.base matches Some(b) && a.branch->0
                != b.0)
        },
{
    reveal_strlit("show-ref");
    reveal_strlit("symbolic-ref");
    reveal_strlit("merge-base");
    reveal_strlit("rev-list");
}

/// The gathering stage reached from `s` once the replies `rs` have been
/// answered, one after the other.
pub open spec fn gather_after(
    dir: Seq<char>,
    configured: Option<Seq<char>>,
    s: GatherStageView,
    rs: Seq<ReplyView>,
) -> GatherStageView
    decreases rs.len(),
{
    if rs.len() == 0 {
        s
    } else {
        gather_next(dir, configured, gather_after(dir, configured, s, rs.drop_last()), rs.last()).0
    }
}

proof fn lemma_gathering_inv_holds(dir: Seq<char>, configured: Option<Seq<char>>, rs: Seq<ReplyView>)
    ensures
        gathering_inv(gather_after(dir, configured, GatherStageView::Tree, rs)),
    decreases rs.len(),
{
    if rs.len() > 0 {
        lemma_gathering_inv_holds(dir, configured, rs.drop_last());
        gathered_assessment_is_consistent(
            dir,
            configured,
            gather_after(dir, configured, GatherStageView::Tree, rs.drop_last()),
            rs.last(),
        );
    }
}

/// Over a whole gathering, whatever replies Git gives: after the status
/// read that [`StatusAssessment::gather`] starts with, every question it
/// asks is a read (`show-ref`,
/// `symbolic-ref`, `merge-base`, `rev-list`), and the assessment it ends
/// with is consistent as [`gathered_assessment_is_consistent`] says.
pub proof fn gathering_reads_only_and_ends_consistent(
    dir: Seq<char>,
    configured: Option<Seq<char>>,
    rs: Seq<ReplyView>,
    r: ReplyView,
)
    ensures
        ({
            let s = gather_after(dir, configured, GatherStageView::Tree, rs);
            &&& gather_next(dir, configured, s, r).1 matches GatherNext::Ask(c)
                ==> c.args.len() > 0 && {
                let sub = c.args[0];
                sub == "show-ref"@ || sub == "symbolic-ref"@ || sub == "merge-base"@ || sub
                    == "rev-list"@
            }
            &&& gather_next(dir, configured, s, r).1 matches GatherNext::Done(Ok(a)) ==> {
                &&& a.branch == a.tree.branch
                &&& a.repo_name == repo_name(dir)
                &&& a.recommendation == recommendation_for(a.tree, a.base_divergence)
                &&& a.base_divergence is Some ==> a.branch is Some && (a.base matches Some(b)
                    && a.branch->0 != b.0)
            }
        }),
{
    lemma_gathering_inv_holds(dir, configured, rs);
    gathered_assessment_is_consistent(
        dir,
        configured,
        gather_after(dir, configured, GatherStageView::Tree, rs),
        r,
    );
}

/// The plain rendering of an assessment reads as the status block: it
/// opens with `Repository: <name>`; the working tree shows `• clean` exactly
/// when nothing changed, else one line per kind of change present; the
/// branch state says `• no upstream configured` exactly when neither the
/// upstream divergence (counts and upstream) nor the base divergence
/// (counts and base) is known; and it ends with the recommended next step
/// and, when there is one, its command.
#[verifier::spinoff_prover]
#[verifier::rlimit(40)]
pub proof fn plain_status_reads_as_the_status_block(a: StatusAssessment)
    ensures
        ({
            let r = render_text(a, false);
            let head = "Repository: "@ + a.repo_name@ + "\n"@;
            let next = next_section(a.recommendation, false);
            let unknown = !(a.tree@.ahead_behind is Some && a.tree@.upstream is Some) && !(
            a.base_divergence is Some && a.base is Some);
            &&& r.len() >= head.len() + next.len()
            &&& r.subrange(0, head.len() as int) == head
            &&& r.subrange(r.len() - next.len(), r.len() as int) == next
            &&& next == "\nRecommended next step:\n  "@ + recommendation_summary(a.recommendation)
                + "\n"@ + match recommendation_command(a.recommendation) {
                Some(c) => "  "@ + c + "\n"@,
                None => seq![],
            }
            &&& tree_section(a.tree@, false) == "\nWorking tree:\n"@ + if is_clean_view(a.tree@) {
                "  • clean\n"@
            } else {
                tree_lines(a.tree@, false)
            }
            &&& state_section(a, false) == "\nBranch state:\n"@ + upstream_line(a.tree@, false)
                + base_line(a, false) + if unknown {
                "  • no upstream configured\n"@
            } else {
                seq![]
            }
        }),
{
    reveal_strlit("\n");
    reveal_strlit("Working tree:");
    reveal_strlit("\nWorking tree:\n");
    reveal_strlit("  • clean\n");
    reveal_strlit("clean");
    reveal_strlit("  ");
    reveal_strlit("•");
    reveal_strlit(" ");
    reveal_strlit("Branch state:");
    reveal_strlit("\nBranch state:\n");
    reveal_strlit("  • no upstream configured\n");
    reveal_strlit("no upstream configured");
    reveal_strlit("Recommended next step:");
    reveal_strlit("\nRecommended next step:\n  ");
    reveal_strlit("Repository: ");
    let r = render_text(a, false);
    let head = "Repository: "@ + a.repo_name@ + "\n"@;
    let next = next_section(a.recommendation, false);
    let rest = label_spec("Branch:"@, false) + " "@ + match a.branch {
        Some(b) => b@,
        None => "(detached HEAD)"@,
    } + "\n"@ + base_branch_line(a, false) + tree_section(a.tree@, false) + state_section(a, false);
    assert(r =~= head + rest + next);
    assert((head + rest + next).subrange(0, head.len() as int) =~= head);
    assert((head + rest + next).subrange(
        (head + rest + next).len() - next.len(),
        (head + rest + next).len() as int,
    ) =~= next);
    assert(next =~= "\nRecommended next step:\n  "@ + recommendation_summary(a.recommendation) + "\n"@
        + match recommendation_command(a.recommendation) {
        Some(c) => "  "@ + c + "\n"@,
        None => seq![],
    });
    assert(tree_section(a.tree@, false) =~= "\nWorking tree:\n"@ + if is_clean_view(a.tree@) {
        "  • clean\n"@
    } else {
        tree_lines(a.tree@, false)
    });
    let up = upstream_line(a.tree@, false);
    let base = base_line(a, false);
    assert(up.len() == 0 <==> !(a.tree@.ahead_behind is Some && a.tree@.upstream is Some));
    assert(base.len() == 0 <==> !(a.base_divergence is Some && a.base is Some));
    assert(state_section(a, false) =~= "\nBranch state:\n"@ + up + base + if up.len() == 0
        && base.len() == 0 {
        "  • no upstream configured\n"@
    } else {
        seq![]
    });
}

} // verus!
