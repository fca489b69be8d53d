//! `smoothee sync` — safely update the current branch against its base.
//!
//! The wording over the sync engine: the plan shown for approval, the exact
//! Git command, and the outcome. Every decision and mutation lives in the
//! engine; prompting and printing are the binary's job.
use vstd::prelude::*;

use crate::cli::status::{plural, plural_spec};
use crate::git::command::render_command;
use crate::git::conflicts::string_views;
use crate::git::repository::Repository;
use crate::operations::sync::{
    mutation_view, strategy_label, strategy_verb, ResolvedStrategy, SyncPlan, SyncPlanView,
};
use crate::text::{decimal, owned, push_decimal, push_str};
use crate::ui::output::{
    bullet, bullet_spec, label, label_spec, ok, ok_spec, running, running_spec, warn, warn_spec,
};
use crate::verification::CheckResult;

verus! {

/// Flags parsed for `smoothee sync`.
#[derive(Debug, Clone, Copy, Default)]
pub struct SyncArgs {
    pub rebase: bool,
    pub merge: bool,
    pub dry_run: bool,
    /// Skip the verification checks after a sync (`--no-verify`).
    pub skip_checks: bool,
    pub yes: bool,
}

/// The strategy the flags force: `--rebase` alone or `--merge` alone.
pub open spec fn forced(rebase: bool, merge: bool) -> Option<ResolvedStrategy> {
    if rebase && !merge {
        Some(ResolvedStrategy::Rebase)
    } else if merge && !rebase {
        Some(ResolvedStrategy::Merge)
    } else {
        None
    }
}

/// `--rebase` alone forces a rebase and `--merge` alone a merge; neither
/// flag, or both, forces nothing and leaves the choice to the configuration.
pub proof fn flags_force_only_when_unambiguous()
    ensures
        forced(true, false) == Some(ResolvedStrategy::Rebase),
        forced(false, true) == Some(ResolvedStrategy::Merge),
        forced(false, false) is None,
        forced(true, true) is None,
{
}

/// The strategy the flags force, if any.
pub fn cli_override(args: &SyncArgs) -> (r: Option<ResolvedStrategy>)
    ensures
        r == forced(args.rebase, args.merge),
{
    match (args.rebase, args.merge) {
        (true, false) => Some(ResolvedStrategy::Rebase),
        (false, true) => Some(ResolvedStrategy::Merge),
        _ => None,
    }
}

fn joined(a: &str, b: &str) -> (r: String)
    ensures
        r@ == a@ + b@,
{
    let mut s = owned(a);
    push_str(&mut s, b);
    s
}

fn push_line(out: &mut String, line: &str)
    ensures
        final(out)@ == old(out)@ + line@ + "\n"@,
{
    push_str(out, line);
    push_str(out, "\n");
}

/// What is shown when the branch is not behind its base.
pub open spec fn up_to_date_text(ahead: nat, base_name: Seq<char>, colors: bool) -> Seq<char> {
    ok_spec("Already up to date with "@ + base_name + "."@, colors) + "\n"@ + if ahead > 0 {
        "  "@ + label_spec(
            "You are "@ + decimal(ahead) + " commit"@ + plural_spec(ahead)
                + " ahead — `smoothee pr` when you're ready to share."@,
            colors,
        ) + "\n"@
    } else {
        seq![]
    }
}

/// Render the message for a branch that is already up to date.
pub fn print_up_to_date(ahead: u32, base_name: &str, colors: bool) -> (r: String)
    ensures
        r@ == up_to_date_text(ahead as nat, base_name@, colors),
{
    let mut t = joined("Already up to date with ", base_name);
    push_str(&mut t, ".");
    let mut out = ok(t.as_str(), colors);
    push_str(&mut out, "\n");
    if ahead > 0 {
        let mut m = owned("You are ");
        push_decimal(&mut m, ahead as u64);
        push_str(&mut m, " commit");
        push_str(&mut m, plural(ahead as u64));
        push_str(&mut m, " ahead — `smoothee pr` when you're ready to share.");
        push_str(&mut out, "  ");
        let l = label(m.as_str(), colors);
        push_line(&mut out, l.as_str());
    }
    assert(out@ =~= up_to_date_text(ahead as nat, base_name@, colors));
    out
}

/// The findings of a plan: what was fetched, and how far the branch is
/// ahead and behind.
pub open spec fn findings_text(p: SyncPlanView, colors: bool) -> Seq<char> {
    ok_spec("Fetched origin/"@ + p.base_name + "."@, colors) + "\n"@ + "\n"@ + label_spec(
        "Your branch:"@,
        colors,
    ) + "\n"@ + bullet_spec(
        decimal(p.ahead as nat) + " commit"@ + plural_spec(p.ahead as nat) + " ahead"@,
        colors,
    ) + "\n"@ + bullet_spec(
        decimal(p.behind as nat) + " commit"@ + plural_spec(p.behind as nat) + " behind "@
            + p.base_name,
        colors,
    ) + "\n"@
}

/// `<Strategy> onto <ref>`.
pub open spec fn action_text(p: SyncPlanView) -> Seq<char> {
    strategy_label(p.strategy) + " onto "@ + p.remote_ref
}

/// The recommended action and why.
pub open spec fn recommendation_text(p: SyncPlanView, colors: bool) -> Seq<char> {
    "\n"@ + label_spec("Recommended action:"@, colors) + "\n"@ + bullet_spec(action_text(p), colors)
        + "\n"@ + "\n"@ + label_spec("Why:"@, colors) + "\n"@ + "  "@ + p.reason + "\n"@
}

/// The steps of the plan.
pub open spec fn steps_text(p: SyncPlanView, colors: bool) -> Seq<char> {
    "\n"@ + label_spec("Plan:"@, colors) + "\n"@ + bullet_spec(
        "Create a restore point (so this is reversible)"@,
        colors,
    ) + "\n"@ + bullet_spec(action_text(p), colors) + "\n"@ + bullet_spec(
        "Report the result (and run verification checks)"@,
        colors,
    ) + "\n"@
}

/// The whole plan as shown for approval, ending with the exact command.
pub open spec fn plan_text(dir: Seq<char>, p: SyncPlanView, colors: bool) -> Seq<char> {
    findings_text(p, colors) + recommendation_text(p, colors) + steps_text(p, colors) + "\n"@
        + running_spec(render_command("git"@, mutation_view(dir, p.strategy, p.remote_ref).args), colors)
        + "\n"@
}

fn action(plan: &SyncPlan) -> (r: String)
    ensures
        r@ == action_text(plan@),
{
    let mut s = joined(plan.strategy.label(), " onto ");
    push_str(&mut s, plan.remote_ref.as_str());
    s
}

fn push_findings(out: &mut String, plan: &SyncPlan, colors: bool)
    ensures
        final(out)@ == old(out)@ + findings_text(plan@, colors),
{
    let ghost start = out@;
    let mut t = joined("Fetched origin/", plan.base_name.as_str());
    push_str(&mut t, ".");
    push_line(out, ok(t.as_str(), colors).as_str());
    push_str(out, "\n");
    push_line(out, label("Your branch:", colors).as_str());
    let mut a = String::new();
    push_decimal(&mut a, plan.ahead as u64);
    push_str(&mut a, " commit");
    push_str(&mut a, plural(plan.ahead as u64));
    push_str(&mut a, " ahead");
    push_line(out, bullet(a.as_str(), colors).as_str());
    let mut b = String::new();
    push_decimal(&mut b, plan.behind as u64);
    push_str(&mut b, " commit");
    push_str(&mut b, plural(plan.behind as u64));
    push_str(&mut b, " behind ");
    push_str(&mut b, plan.base_name.as_str());
    push_line(out, bullet(b.as_str(), colors).as_str());
    assert(a@ =~= decimal(plan.ahead as nat) + " commit"@ + plural_spec(plan.ahead as nat) + " ahead"@);
    assert(out@ =~= start + findings_text(plan@, colors));
}

fn push_recommendation(out: &mut String, plan: &SyncPlan, colors: bool)
    ensures
        final(out)@ == old(out)@ + recommendation_text(plan@, colors),
{
    let ghost start = out@;
    push_str(out, "\n");
    push_line(out, label("Recommended action:", colors).as_str());
    push_line(out, bullet(action(plan).as_str(), colors).as_str());
    push_str(out, "\n");
    push_line(out, label("Why:", colors).as_str());
    push_str(out, "  ");
    push_line(out, plan.reason.as_str());
    assert(out@ =~= start + recommendation_text(plan@, colors));
}

fn push_steps(out: &mut String, plan: &SyncPlan, colors: bool)
    ensures
        final(out)@ == old(out)@ + steps_text(plan@, colors),
{
    let ghost start = out@;
    push_str(out, "\n");
    push_line(out, label("Plan:", colors).as_str());
    push_line(out, bullet("Create a restore point (so this is reversible)", colors).as_str());
    push_line(out, bullet(action(plan).as_str(), colors).as_str());
    push_line(out, bullet("Report the result (and run verification checks)", colors).as_str());
    assert(out@ =~= start + steps_text(plan@, colors));
}

/// Render the plan for approval: what was found, the recommended action and
/// why, the steps, and the exact command that will run.
pub fn print_plan(repo: &Repository, plan: &SyncPlan, colors: bool) -> (r: String)
    ensures
        r@ == plan_text(repo.workdir@, plan@, colors),
{
    let mut out = String::new();
    push_findings(&mut out, plan, colors);
    push_recommendation(&mut out, plan, colors);
    push_steps(&mut out, plan, colors);
    push_str(&mut out, "\n");
    let c = plan.mutation_command(repo);
    let shown = c.display();
    push_line(&mut out, running(shown.as_str(), colors).as_str());
    assert(out@ =~= plan_text(repo.workdir@, plan@, colors));
    out
}

/// What is shown after a clean synchronization.
pub open spec fn completed_text(s: ResolvedStrategy, restore: Seq<char>, colors: bool) -> Seq<char> {
    ok_spec("Synced using "@ + strategy_verb(s) + ". No changes have been lost."@, colors) + "\n"@
        + "  "@ + label_spec("Restore point: "@ + restore, colors) + "\n"@ + "  "@ + label_spec(
        "Changed your mind? `smoothee undo` restores the branch."@,
        colors,
    ) + "\n"@
}

/// Render the outcome of a clean synchronization.
pub fn print_completed(strategy: ResolvedStrategy, restore: &str, colors: bool) -> (r: String)
    ensures
        r@ == completed_text(strategy, restore@, colors),
{
    let mut t = joined("Synced using ", strategy.verb());
    push_str(&mut t, ". No changes have been lost.");
    let mut out = String::new();
    push_line(&mut out, ok(t.as_str(), colors).as_str());
    push_str(&mut out, "  ");
    push_line(&mut out, label(joined("Restore point: ", restore).as_str(), colors).as_str());
    push_str(&mut out, "  ");
    push_line(
        &mut out,
        label("Changed your mind? `smoothee undo` restores the branch.", colors).as_str(),
    );
    assert(out@ =~= completed_text(strategy, restore@, colors));
    out
}

/// One bullet per file.
pub open spec fn bullets_text(files: Seq<Seq<char>>, colors: bool) -> Seq<char>
    decreases files.len(),
{
    if files.len() == 0 {
        seq![]
    } else {
        bullets_text(files.drop_last(), colors) + bullet_spec(files.last(), colors) + "\n"@
    }
}

fn push_bullets(out: &mut String, files: &Vec<String>, colors: bool)
    ensures
        final(out)@ == old(out)@ + bullets_text(string_views(files@), colors),
{
    let ghost start = out@;
    let mut i: usize = 0;
    while i < files.len()
        invariant
            i <= files@.len(),
            out@ == start + bullets_text(string_views(files@).take(i as int), colors),
        decreases files@.len() - i,
    {
        push_line(out, bullet(files[i].as_str(), colors).as_str());
        proof {
            let t = string_views(files@).take(i + 1);
            assert(t.drop_last() =~= string_views(files@).take(i as int));
            assert(t.last() == files@[i as int]@);
        }
        i += 1;
    }
    assert(string_views(files@).take(files@.len() as int) =~= string_views(files@));
}

/// What is shown when the operation stopped on conflicts: the files, the
/// two ways forward, and the restore point.
pub open spec fn conflicted_text(s: ResolvedStrategy, restore: Seq<char>, files: Seq<Seq<char>>, colors: bool) -> Seq<char> {
    warn_spec(
        "The "@ + strategy_verb(s) + " stopped on conflicts. No changes have been lost."@,
        colors,
    ) + "\n"@ + (if files.len() > 0 {
        "\n"@ + label_spec("Conflicts in:"@, colors) + "\n"@ + bullets_text(files, colors)
    } else {
        seq![]
    }) + "\n"@ + label_spec("Your options:"@, colors) + "\n"@ + bullet_spec(
        "`smoothee resolve` — guided, reversible conflict resolution"@,
        colors,
    ) + "\n"@ + bullet_spec(
        "`smoothee undo` — return to the restore point, as if nothing happened"@,
        colors,
    ) + "\n"@ + "\n"@ + "  "@ + label_spec("Restore point: "@ + restore, colors) + "\n"@
}

/// Render the outcome of a synchronization that stopped on conflicts.
pub fn print_conflicted(strategy: ResolvedStrategy, restore: &str, files: &Vec<String>, colors: bool) -> (r: String)
    ensures
        r@ == conflicted_text(strategy, restore@, string_views(files@), colors),
{
    let mut t = joined("The ", strategy.verb());
    push_str(&mut t, " stopped on conflicts. No changes have been lost.");
    let mut out = String::new();
    push_line(&mut out, warn(t.as_str(), colors).as_str());
    let ghost mid = out@;
    if files.len() > 0 {
        push_str(&mut out, "\n");
        push_line(&mut out, label("Conflicts in:", colors).as_str());
        push_bullets(&mut out, files, colors);
    }
    let ghost after_files = out@;
    push_str(&mut out, "\n");
    push_line(&mut out, label("Your options:", colors).as_str());
    push_line(
        &mut out,
        bullet("`smoothee resolve` — guided, reversible conflict resolution", colors).as_str(),
    );
    push_line(
        &mut out,
        bullet("`smoothee undo` — return to the restore point, as if nothing happened", colors).as_str(),
    );
    push_str(&mut out, "\n");
    push_str(&mut out, "  ");
    push_line(&mut out, label(joined("Restore point: ", restore).as_str(), colors).as_str());
    assert(string_views(files@).len() == files@.len());
    assert(out@ =~= conflicted_text(strategy, restore@, string_views(files@), colors));
    out
}

/// One line per check: `<name> (<command>)`, marked passed or failed.
pub open spec fn check_report(results: Seq<CheckResult>, colors: bool) -> Seq<char>
    decreases results.len(),
{
    if results.len() == 0 {
        seq![]
    } else {
        let r = results.last();
        let line = r.name@ + " ("@ + r.command@ + ")"@;
        check_report(results.drop_last(), colors) + bullet_spec(
            if r.passed {
                ok_spec(line, colors)
            } else {
                warn_spec(line, colors)
            },
            colors,
        ) + "\n"@
    }
}

/// The verification report after a sync: nothing when no check is
/// configured; otherwise each check's outcome, and a note when any failed.
pub open spec fn verification_text(results: Seq<CheckResult>, colors: bool) -> Seq<char> {
    if results.len() == 0 {
        seq![]
    } else {
        "\n"@ + label_spec("Verification:"@, colors) + "\n"@ + check_report(results, colors) + if forall|i: int|
            0 <= i < results.len() ==> #[trigger] results[i].passed {
            seq![]
        } else {
            "\n"@ + "  "@ + label_spec(
                "Some checks failed. Review the changes, or `smoothee undo` to revert the sync."@,
                colors,
            ) + "\n"@
        }
    }
}

/// Render the outcome of the verification checks.
pub fn print_verification(results: &Vec<CheckResult>, colors: bool) -> (r: String)
    ensures
        r@ == verification_text(results@, colors),
{
    let mut out = String::new();
    if results.len() == 0 {
        return out;
    }
    push_str(&mut out, "\n");
    push_line(&mut out, label("Verification:", colors).as_str());
    let ghost start = out@;
    let mut all = true;
    let mut i: usize = 0;
    while i < results.len()
        invariant
            i <= results@.len(),
            out@ == start + check_report(results@.take(i as int), colors),
            all == forall|j: int| 0 <= j < i ==> #[trigger] results@[j].passed,
        decreases results@.len() - i,
    {
        let r = &results[i];
        let mut line = joined(r.name, " (");
        push_str(&mut line, r.command.as_str());
        push_str(&mut line, ")");
        let marked = if r.passed {
            ok(line.as_str(), colors)
        } else {
            warn(line.as_str(), colors)
        };
        push_line(&mut out, bullet(marked.as_str(), colors).as_str());
        proof {
            let t = results@.take(i + 1);
            assert(t.drop_last() =~= results@.take(i as int));
            assert(t.last() == results@[i as int]);
        }
        if !r.passed {
            all = false;
        }
        i += 1;
    }
    assert(results@.take(results@.len() as int) =~= results@);
    if !all {
        push_str(&mut out, "\n");
        push_str(&mut out, "  ");
        push_line(
            &mut out,
            label(
                "Some checks failed. Review the changes, or `smoothee undo` to revert the sync.",
                colors,
            ).as_str(),
        );
    }
    assert(out@ =~= verification_text(results@, colors));
    out
}

} // verus!
