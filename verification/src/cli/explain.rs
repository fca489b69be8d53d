//! `smoothee explain` — explain repository state and risks in plain language.
use vstd::prelude::*;

use crate::cli::status::{plural, plural_spec, Recommendation, StatusAssessment};
use crate::git::conflicts::string_views;
use crate::text::{decimal, owned, push_decimal, push_str};

verus! {

/// The paragraph that explains the recommendation itself.
pub open spec fn recommendation_paragraph(r: Recommendation) -> Seq<char> {
    match r {
        Recommendation::InitialCommit => "This repository has no commit history yet, so there is no stable Git snapshot to compare against or recover to. Your first commit establishes that baseline."@,
        Recommendation::DetachedHead => "HEAD points directly at a commit instead of a branch. New commits made here can become hard to find unless you create or check out a branch first."@,
        Recommendation::Resolve => "Git has unresolved conflict entries. Until every conflict is resolved, operations such as commit, sync, and branch switching may be blocked or unsafe."@,
        Recommendation::Sync => "Your branch is behind another relevant ref. Continuing to build on it increases the distance between histories and can make the eventual integration more complicated."@,
        Recommendation::Commit => "Your working tree differs from the last commit. Those edits are not protected by Git history yet, so destructive Git operations could discard them."@,
        Recommendation::Push => "Your local branch contains commits that are not fully represented upstream. They are safe in local Git history, but they are not yet shared through the normal remote workflow."@,
        Recommendation::UpToDate => "The working tree is clean and the branch is not currently behind or waiting on an obvious local action. Smoothee does not see a repository problem that needs intervention."@,
    }
}

/// What divergence from the base branch means, when there is any.
pub open spec fn divergence_paragraph(ahead: nat, behind: nat, base: Seq<char>) -> Seq<Seq<char>> {
    if ahead > 0 && behind > 0 {
        seq![
            "Your branch and `"@ + base
                + "` have diverged: each side has commits the other does not. A sync must integrate both histories rather than simply fast-forwarding."@,
        ]
    } else if behind > 0 {
        seq![
            "`"@ + base + "` has "@ + decimal(behind) + " commit"@ + plural_spec(behind)
                + " that your branch does not contain yet."@,
        ]
    } else if ahead > 0 {
        seq![
            "Your branch has "@ + decimal(ahead) + " commit"@ + plural_spec(ahead) + " that `"@
                + base + "` does not contain."@,
        ]
    } else {
        seq![]
    }
}

/// The paragraph about conflicted files, when there are any.
pub open spec fn conflict_paragraph(n: nat) -> Seq<Seq<char>> {
    if n > 0 {
        seq![
            "There "@ + (if n == 1 {
                "is"@
            } else {
                "are"@
            }) + " "@ + decimal(n) + " conflicted file"@ + plural_spec(n)
                + ". Smoothee will not treat the repository as healthy until those index conflicts are gone."@,
        ]
    } else {
        seq![]
    }
}

/// The paragraph about an existing staged selection, when there is one.
pub open spec fn staged_paragraph(n: nat) -> Seq<Seq<char>> {
    if n > 0 {
        seq![
            decimal(n) + " staged file"@ + plural_spec(n)
                + " are already selected for the next commit; `smoothee commit` will preserve that selection rather than regrouping it."@,
        ]
    } else {
        seq![]
    }
}

/// The paragraph about a branch without an upstream.
pub open spec fn upstream_paragraph(a: StatusAssessment) -> Seq<Seq<char>> {
    if a.tree@.upstream is None && a.branch is Some {
        seq![
            "This branch has no configured upstream, so Git cannot directly report whether its remote counterpart is ahead or behind. Smoothee can still reason about the detected base branch."@,
        ]
    } else {
        seq![]
    }
}

/// Every paragraph `explain` gives, in order: the recommendation first, then
/// the divergence from the base, conflicts, the staged selection and a
/// missing upstream, each only where it applies.
pub open spec fn explanation(a: StatusAssessment) -> Seq<Seq<char>> {
    let divergence = match (a.base_divergence, a.base) {
        (Some(d), Some(b)) => divergence_paragraph(d.0 as nat, d.1 as nat, b.name@),
        _ => seq![],
    };
    seq![recommendation_paragraph(a.recommendation)] + divergence + conflict_paragraph(
        a.tree@.conflicted,
    ) + staged_paragraph(a.tree@.staged) + upstream_paragraph(a)
}

fn recommendation_text(r: Recommendation) -> (s: String)
    ensures
        s@ == recommendation_paragraph(r),
{
    owned(
        match r {
            Recommendation::InitialCommit => "This repository has no commit history yet, so there is no stable Git snapshot to compare against or recover to. Your first commit establishes that baseline.",
            Recommendation::DetachedHead => "HEAD points directly at a commit instead of a branch. New commits made here can become hard to find unless you create or check out a branch first.",
            Recommendation::Resolve => "Git has unresolved conflict entries. Until every conflict is resolved, operations such as commit, sync, and branch switching may be blocked or unsafe.",
            Recommendation::Sync => "Your branch is behind another relevant ref. Continuing to build on it increases the distance between histories and can make the eventual integration more complicated.",
            Recommendation::Commit => "Your working tree differs from the last commit. Those edits are not protected by Git history yet, so destructive Git operations could discard them.",
            Recommendation::Push => "Your local branch contains commits that are not fully represented upstream. They are safe in local Git history, but they are not yet shared through the normal remote workflow.",
            Recommendation::UpToDate => "The working tree is clean and the branch is not currently behind or waiting on an obvious local action. Smoothee does not see a repository problem that needs intervention.",
        },
    )
}

fn push_divergence(lines: &mut Vec<String>, ahead: u32, behind: u32, base: &str)
    ensures
        string_views(final(lines)@) == string_views(old(lines)@) + divergence_paragraph(
            ahead as nat,
            behind as nat,
            base@,
        ),
{
    let ghost before = string_views(lines@);
    if ahead > 0 && behind > 0 {
        let mut s = owned("Your branch and `");
        push_str(&mut s, base);
        push_str(
            &mut s,
            "` have diverged: each side has commits the other does not. A sync must integrate both histories rather than simply fast-forwarding.",
        );
        lines.push(s);
    } else if behind > 0 {
        let mut s = owned("`");
        push_str(&mut s, base);
        push_str(&mut s, "` has ");
        push_decimal(&mut s, behind as u64);
        push_str(&mut s, " commit");
        push_str(&mut s, plural(behind as u64));
        push_str(&mut s, " that your branch does not contain yet.");
        lines.push(s);
    } else if ahead > 0 {
        let mut s = owned("Your branch has ");
        push_decimal(&mut s, ahead as u64);
        push_str(&mut s, " commit");
        push_str(&mut s, plural(ahead as u64));
        push_str(&mut s, " that `");
        push_str(&mut s, base);
        push_str(&mut s, "` does not contain.");
        lines.push(s);
    }
    assert(string_views(lines@) =~= before + divergence_paragraph(ahead as nat, behind as nat, base@));
}

fn push_conflicts(lines: &mut Vec<String>, n: u32)
    ensures
        string_views(final(lines)@) == string_views(old(lines)@) + conflict_paragraph(n as nat),
{
    let ghost before = string_views(lines@);
    if n > 0 {
        let mut s = owned("There ");
        push_str(
            &mut s,
            if n == 1 {
                "is"
            } else {
                "are"
            },
        );
        push_str(&mut s, " ");
        push_decimal(&mut s, n as u64);
        push_str(&mut s, " conflicted file");
        push_str(&mut s, plural(n as u64));
        push_str(
            &mut s,
            ". Smoothee will not treat the repository as healthy until those index conflicts are gone.",
        );
        lines.push(s);
    }
    assert(string_views(lines@) =~= before + conflict_paragraph(n as nat));
}

fn push_staged(lines: &mut Vec<String>, n: u32)
    ensures
        string_views(final(lines)@) == string_views(old(lines)@) + staged_paragraph(n as nat),
{
    let ghost before = string_views(lines@);
    if n > 0 {
        let mut s = String::new();
        push_decimal(&mut s, n as u64);
        push_str(&mut s, " staged file");
        push_str(&mut s, plural(n as u64));
        push_str(
            &mut s,
            " are already selected for the next commit; `smoothee commit` will preserve that selection rather than regrouping it.",
        );
        assert(s@ =~= decimal(n as nat) + " staged file"@ + plural_spec(n as nat)
            + " are already selected for the next commit; `smoothee commit` will preserve that selection rather than regrouping it."@);
        lines.push(s);
    }
    assert(string_views(lines@) =~= before + staged_paragraph(n as nat));
}

/// The plain-language paragraphs that explain what is happening in the
/// repository and why it matters.
pub fn explain(assessment: &StatusAssessment) -> (lines: Vec<String>)
    ensures
        string_views(lines@) == explanation(*assessment),
{
    let mut lines: Vec<String> = Vec::new();
    lines.push(recommendation_text(assessment.recommendation));
    assert(string_views(lines@) =~= seq![recommendation_paragraph(assessment.recommendation)]);
    if let (Some((ahead, behind)), Some(base)) = (assessment.base_divergence, &assessment.base) {
        push_divergence(&mut lines, ahead, behind, base.name.as_str());
    }
    push_conflicts(&mut lines, assessment.tree.conflicted);
    push_staged(&mut lines, assessment.tree.staged);
    let ghost before = string_views(lines@);
    if assessment.tree.upstream.is_none() && assessment.branch.is_some() {
        lines.push(
            owned(
                "This branch has no configured upstream, so Git cannot directly report whether its remote counterpart is ahead or behind. Smoothee can still reason about the detected base branch.",
            ),
        );
    }
    assert(string_views(lines@) =~= before + upstream_paragraph(*assessment));
    assert(string_views(lines@) =~= explanation(*assessment));
    lines
}

} // verus!
