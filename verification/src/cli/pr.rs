//! `smoothee pr` — inspect and create a GitHub pull request deliberately.
//!
//! The proposals behind a pull request: its title and body, drawn from the
//! subjects of the branch's commits. Running `git` and `gh` is the binary's
//! job.
use vstd::prelude::*;

use crate::git::command::{GitCommand, GitCommandView};
use crate::git::repository::Repository;
use crate::text::{
    chars_of, decimal, lines, owned, push_decimal, push_str, split_lines, string_from, trim_end,
    trimmed, views,
};
use crate::ui::output::{bullet, bullet_spec, label, label_spec, warn, warn_spec};

verus! {

/// Flags parsed for `smoothee pr`.
#[derive(Debug, Clone, Default)]
pub struct PrArgs {
    pub title: Option<String>,
    pub body: Option<String>,
    pub draft: bool,
    pub push: bool,
    pub dry_run: bool,
    pub yes: bool,
}

/// `git log --format=%s <base>..HEAD` (newest first), or with `--reverse`
/// (oldest first).
pub open spec fn subjects_view(dir: Seq<char>, base: Seq<char>, oldest_first: bool) -> GitCommandView {
    GitCommandView {
        args: if oldest_first {
            seq!["log"@, "--reverse"@, "--format=%s"@, base + "..HEAD"@]
        } else {
            seq!["log"@, "--format=%s"@, base + "..HEAD"@]
        },
        cwd: Some(dir),
        env: seq![],
    }
}

/// The command that lists the subjects of the commits on the branch but
/// not on `base`.
pub fn subjects_command(repo: &Repository, base: &str, oldest_first: bool) -> (c: GitCommand)
    ensures
        c@ == subjects_view(repo.workdir@, base@, oldest_first),
{
    let mut range = owned(base);
    push_str(&mut range, "..HEAD");
    let c = if oldest_first {
        repo.git("log").arg("--reverse").arg("--format=%s").arg(range.as_str())
    } else {
        repo.git("log").arg("--format=%s").arg(range.as_str())
    };
    assert(c@.args =~= subjects_view(repo.workdir@, base@, oldest_first).args);
    c
}

/// The proposed title: the newest subject, or `Update project` when there
/// is none.
pub open spec fn title_text(subjects: Seq<char>) -> Seq<char> {
    if lines(subjects).len() > 0 {
        lines(subjects)[0]
    } else {
        "Update project"@
    }
}

/// The title proposed from `git log --format=%s` output.
pub fn suggested_title(subjects: &str) -> (r: String)
    ensures
        r@ == title_text(subjects@),
{
    let chars = chars_of(subjects);
    let ls = split_lines(&chars);
    if ls.len() > 0 {
        assert(views(ls@)[0] == ls@[0]@);
        string_from(ls[0].as_slice())
    } else {
        owned("Update project")
    }
}

/// One `- <subject>` line per subject, each ending in a newline.
pub open spec fn subject_lines(ls: Seq<Seq<char>>) -> Seq<char>
    decreases ls.len(),
{
    if ls.len() == 0 {
        seq![]
    } else {
        subject_lines(ls.drop_last()) + "- "@ + ls.last() + "\n"@
    }
}

/// The proposed body: a summary heading and one bullet per subject, without
/// trailing whitespace.
pub open spec fn body_text(subjects: Seq<char>) -> Seq<char> {
    trim_end("## Summary\n\n"@ + subject_lines(lines(subjects)))
}

/// The body proposed from `git log --reverse --format=%s` output.
pub fn suggested_body(subjects: &str) -> (r: String)
    ensures
        r@ == body_text(subjects@),
{
    let chars = chars_of(subjects);
    let ls = split_lines(&chars);
    let mut body = owned("## Summary\n\n");
    let ghost start = body@;
    let mut i: usize = 0;
    while i < ls.len()
        invariant
            views(ls@) == lines(subjects@),
            i <= ls@.len(),
            body@ == start + subject_lines(views(ls@).take(i as int)),
        decreases ls@.len() - i,
    {
        push_str(&mut body, "- ");
        let line = string_from(ls[i].as_slice());
        push_str(&mut body, line.as_str());
        push_str(&mut body, "\n");
        proof {
            let t = views(ls@).take(i + 1);
            assert(t.drop_last() =~= views(ls@).take(i as int));
            assert(t.last() == ls@[i as int]@);
        }
        i += 1;
    }
    assert(views(ls@).take(ls@.len() as int) =~= views(ls@));
    proof {
        let whole = start + subject_lines(views(ls@));
        assert(body@ =~= whole);
        assert(start == "## Summary\n\n"@);
    }
    trimmed(&body)
}

/// `git log --oneline --no-decorate <base>..<branch>`.
pub open spec fn commits_view(dir: Seq<char>, base: Seq<char>, branch: Seq<char>) -> GitCommandView {
    GitCommandView {
        args: seq!["log"@, "--oneline"@, "--no-decorate"@, base + ".."@ + branch],
        cwd: Some(dir),
        env: seq![],
    }
}

/// `git diff --stat <base>..<branch>`.
pub open spec fn stat_view(dir: Seq<char>, base: Seq<char>, branch: Seq<char>) -> GitCommandView {
    GitCommandView { args: seq!["diff"@, "--stat"@, base + ".."@ + branch], cwd: Some(dir), env: seq![] }
}

fn range(base: &str, branch: &str) -> (r: String)
    ensures
        r@ == base@ + ".."@ + branch@,
{
    let mut r = owned(base);
    push_str(&mut r, "..");
    push_str(&mut r, branch);
    r
}

/// The command listing the branch's own commits, one per line.
pub fn commits_command(repo: &Repository, base: &str, branch: &str) -> (c: GitCommand)
    ensures
        c@ == commits_view(repo.workdir@, base@, branch@),
{
    let r = range(base, branch);
    let c = repo.git("log").arg("--oneline").arg("--no-decorate").arg(r.as_str());
    assert(c@.args =~= commits_view(repo.workdir@, base@, branch@).args);
    c
}

/// The command summarizing the branch's changes by file.
pub fn stat_command(repo: &Repository, base: &str, branch: &str) -> (c: GitCommand)
    ensures
        c@ == stat_view(repo.workdir@, base@, branch@),
{
    let r = range(base, branch);
    let c = repo.git("diff").arg("--stat").arg(r.as_str());
    assert(c@.args =~= stat_view(repo.workdir@, base@, branch@).args);
    c
}

/// The first twelve lines of `s`.
pub open spec fn first_lines(s: Seq<char>) -> Seq<Seq<char>> {
    if lines(s).len() <= 12 {
        lines(s)
    } else {
        lines(s).take(12)
    }
}

/// One bullet per line.
pub open spec fn bullet_lines(ls: Seq<Seq<char>>, colors: bool) -> Seq<char>
    decreases ls.len(),
{
    if ls.len() == 0 {
        seq![]
    } else {
        bullet_lines(ls.drop_last(), colors) + bullet_spec(ls.last(), colors) + "\n"@
    }
}

/// One indented label per line.
pub open spec fn label_lines(ls: Seq<Seq<char>>, colors: bool) -> Seq<char>
    decreases ls.len(),
{
    if ls.len() == 0 {
        seq![]
    } else {
        label_lines(ls.drop_last(), colors) + "  "@ + label_spec(ls.last(), colors) + "\n"@
    }
}

/// The branch, the base, and how far the branch is ahead and behind.
pub open spec fn analysis_text(branch: Seq<char>, base: Seq<char>, ahead: nat, behind: nat, colors: bool) -> Seq<
    char,
> {
    label_spec("Pull request analysis:"@, colors) + "\n"@ + bullet_spec("Branch: "@ + branch, colors)
        + "\n"@ + bullet_spec("Base: "@ + base, colors) + "\n"@ + bullet_spec(
        decimal(ahead) + " branch-only commit(s)"@,
        colors,
    ) + "\n"@ + if behind > 0 {
        bullet_spec(warn_spec(decimal(behind) + " commit(s) behind "@ + base, colors), colors) + "\n"@
    } else {
        seq![]
    }
}

/// The analysis shown before a pull request: the branch, the base, how far
/// the branch is ahead and behind, then its commits and its diff summary
/// (the first twelve lines of each, when there are any).
pub open spec fn summary_text(
    branch: Seq<char>,
    base: Seq<char>,
    ahead: nat,
    behind: nat,
    commits: Seq<char>,
    stat: Seq<char>,
    colors: bool,
) -> Seq<char> {
    analysis_text(branch, base, ahead, behind, colors) + (if commits.len() > 0 {
        "\n"@ + label_spec("Commits:"@, colors) + "\n"@ + bullet_lines(first_lines(commits), colors)
    } else {
        seq![]
    }) + if stat.len() > 0 {
        "\n"@ + label_spec("Diff summary:"@, colors) + "\n"@ + label_lines(first_lines(stat), colors)
    } else {
        seq![]
    }
}

fn push_line(out: &mut String, line: &str)
    ensures
        final(out)@ == old(out)@ + line@ + "\n"@,
{
    push_str(out, line);
    push_str(out, "\n");
}

fn push_first_lines(out: &mut String, text: &str, bullets: bool, colors: bool)
    ensures
        final(out)@ == old(out)@ + if bullets {
            bullet_lines(first_lines(text@), colors)
        } else {
            label_lines(first_lines(text@), colors)
        },
{
    let ghost start = out@;
    let chars = chars_of(text);
    let ls = split_lines(&chars);
    let n = if ls.len() <= 12 {
        ls.len()
    } else {
        12
    };
    let ghost shown = first_lines(text@);
    assert(shown =~= views(ls@).take(n as int));
    let mut i: usize = 0;
    while i < n
        invariant
            n <= ls@.len(),
            shown == views(ls@).take(n as int),
            i <= n,
            out@ == start + if bullets {
                bullet_lines(shown.take(i as int), colors)
            } else {
                label_lines(shown.take(i as int), colors)
            },
        decreases n - i,
    {
        let line = string_from(ls[i].as_slice());
        if bullets {
            push_line(out, bullet(line.as_str(), colors).as_str());
        } else {
            push_str(out, "  ");
            push_line(out, label(line.as_str(), colors).as_str());
        }
        proof {
            let t = shown.take(i + 1);
            assert(t.drop_last() =~= shown.take(i as int));
            assert(t.last() == ls@[i as int]@);
        }
        i += 1;
    }
    assert(shown.take(n as int) =~= shown);
}

fn push_analysis(out: &mut String, branch: &str, base: &str, ahead: u32, behind: u32, colors: bool)
    ensures
        final(out)@ == old(out)@ + analysis_text(branch@, base@, ahead as nat, behind as nat, colors),
{
    let ghost start = out@;
    push_line(out, label("Pull request analysis:", colors).as_str());
    let mut t = owned("Branch: ");
    push_str(&mut t, branch);
    push_line(out, bullet(t.as_str(), colors).as_str());
    let mut t = owned("Base: ");
    push_str(&mut t, base);
    push_line(out, bullet(t.as_str(), colors).as_str());
    let mut t = String::new();
    push_decimal(&mut t, ahead as u64);
    push_str(&mut t, " branch-only commit(s)");
    push_line(out, bullet(t.as_str(), colors).as_str());
    if behind > 0 {
        let mut t = String::new();
        push_decimal(&mut t, behind as u64);
        push_str(&mut t, " commit(s) behind ");
        push_str(&mut t, base);
        let w = warn(t.as_str(), colors);
        push_line(out, bullet(w.as_str(), colors).as_str());
    }
    assert(out@ =~= start + analysis_text(branch@, base@, ahead as nat, behind as nat, colors));
}

/// Render the analysis shown before a pull request from the branch's
/// commits (`git log --oneline`) and diff summary (`git diff --stat`).
pub fn print_summary(
    branch: &str,
    base: &str,
    ahead: u32,
    behind: u32,
    commits: &str,
    stat: &str,
    colors: bool,
) -> (r: String)
    ensures
        r@ == summary_text(branch@, base@, ahead as nat, behind as nat, commits@, stat@, colors),
{
    let mut out = String::new();
    push_analysis(&mut out, branch, base, ahead, behind, colors);
    let ghost mid = out@;
    if chars_of(commits).len() > 0 {
        push_str(&mut out, "\n");
        push_line(&mut out, label("Commits:", colors).as_str());
        push_first_lines(&mut out, commits, true, colors);
    }
    let ghost mid2 = out@;
    if chars_of(stat).len() > 0 {
        push_str(&mut out, "\n");
        push_line(&mut out, label("Diff summary:", colors).as_str());
        push_first_lines(&mut out, stat, false, colors);
    }
    assert(out@ =~= summary_text(branch@, base@, ahead as nat, behind as nat, commits@, stat@, colors));
    out
}

} // verus!
