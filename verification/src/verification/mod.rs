//! Project-defined verification checks and the safety checks Smoothee runs
//! before continuing an operation.
//!
//! Smoothee never hardcodes toolchain commands. After a synchronization it runs
//! exactly the commands a repository configures under `[verification]` in its
//! `.smoothee.toml` (`format`, `lint`, `types`, `test`) and reports the result.
//!
//! Verification is *advisory*: a failing check never rolls anything back on its
//! own. It tells the user their tree needs attention and that `smoothee undo`
//! is available — the human decides.
pub mod conflict_markers;

use vstd::prelude::*;

use crate::config::repository::VerificationConfig;
use crate::text::opt_view;

verus! {

/// The outcome of one verification command.
#[derive(Debug, Clone, PartialEq, Eq)]
pub struct CheckResult {
    /// The check's role (e.g. `lint`, `test`).
    pub name: &'static str,
    /// The exact command line that ran.
    pub command: String,
    /// Whether the command exited zero.
    pub passed: bool,
}

/// A configured check that is still to run: its role and its command line.
#[derive(Debug, Clone, PartialEq, Eq)]
pub struct CheckStep {
    pub name: &'static str,
    pub command: String,
}

/// The configured checks, in the stable order format, lint, types, test;
/// unconfigured ones are left out.
pub open spec fn planned_checks(c: VerificationConfig) -> Seq<(Seq<char>, Seq<char>)> {
    let one = |name: Seq<char>, cmd: Option<Seq<char>>| match cmd {
        Some(x) => seq![(name, x)],
        None => Seq::<(Seq<char>, Seq<char>)>::empty(),
    };
    one("format"@, opt_view(c.format)) + one("lint"@, opt_view(c.lint)) + one(
        "types"@,
        opt_view(c.types),
    ) + one("test"@, opt_view(c.test))
}

pub open spec fn step_views(v: Seq<CheckStep>) -> Seq<(Seq<char>, Seq<char>)> {
    v.map_values(|s: CheckStep| (s.name@, s.command@))
}

fn push_step(steps: &mut Vec<CheckStep>, name: &'static str, command: &Option<String>)
    ensures
        step_views(final(steps)@) == step_views(old(steps)@) + match opt_view(*command) {
            Some(x) => seq![(name@, x)],
            None => Seq::<(Seq<char>, Seq<char>)>::empty(),
        },
{
    match command {
        Some(c) => {
            steps.push(CheckStep { name, command: c.clone() });
            assert(step_views(final(steps)@) =~= step_views(old(steps)@).push((name@, c@)));
        },
        None => {
            assert(step_views(final(steps)@) =~= step_views(old(steps)@) + Seq::<
                (Seq<char>, Seq<char>),
            >::empty());
        },
    }
}

/// The checks to run, in a stable order (format, lint, types, test), one per
/// configured command. Each is run in the repository root and reported as a
/// [`CheckResult`].
pub fn configured_checks(config: &VerificationConfig) -> (steps: Vec<CheckStep>)
    ensures
        step_views(steps@) == planned_checks(*config),
{
    let mut steps: Vec<CheckStep> = Vec::new();
    assert(step_views(steps@) =~= Seq::<(Seq<char>, Seq<char>)>::empty());
    push_step(&mut steps, "format", &config.format);
    push_step(&mut steps, "lint", &config.lint);
    push_step(&mut steps, "types", &config.types);
    push_step(&mut steps, "test", &config.test);
    assert(step_views(steps@) =~= planned_checks(*config));
    steps
}

/// The result of running `step`.
pub fn check_result(step: CheckStep, passed: bool) -> (r: CheckResult)
    ensures
        r.name == step.name,
        r.command == step.command,
        r.passed == passed,
{
    CheckResult { name: step.name, command: step.command, passed }
}

/// Whether every check passed (vacuously true when none are configured).
pub fn all_passed(results: &[CheckResult]) -> (r: bool)
    ensures
        r == forall|i: int| 0 <= i < results@.len() ==> #[trigger] results@[i].passed,
{
    let mut i: usize = 0;
    while i < results.len()
        invariant
            i <= results@.len(),
            forall|j: int| 0 <= j < i ==> #[trigger] results@[j].passed,
        decreases results@.len() - i,
    {
        if !results[i].passed {
            return false;
        }
        i += 1;
    }
    true
}

/// Run every configured check with `run_one`, which runs a command line
/// in the repository root and says whether it exited zero: one result per
/// configured check, in the stable order format, lint, types, test, each
/// with the outcome `run_one` gave for its command.
pub fn run_checks<F: Fn(&String) -> bool>(config: &VerificationConfig, run_one: F) -> (results: Vec<
    CheckResult,
>)
    requires
        forall|c: &String| run_one.requires((c,)),
    ensures
        results@.len() == planned_checks(*config).len(),
        forall|i: int|
            0 <= i < results@.len() ==> (#[trigger] results@[i]).name@ == planned_checks(*config)[i].0
                && results@[i].command@ == planned_checks(*config)[i].1 && run_one.ensures(
                (&results@[i].command,),
                results@[i].passed,
            ),
{
    let steps = configured_checks(config);
    let mut results: Vec<CheckResult> = Vec::new();
    let mut i: usize = 0;
    while i < steps.len()
        invariant
            i <= steps@.len(),
            step_views(steps@) == planned_checks(*config),
            results@.len() == i,
            forall|c: &String| run_one.requires((c,)),
            forall|j: int|
                0 <= j < i ==> (#[trigger] results@[j]).name@ == planned_checks(*config)[j].0
                    && results@[j].command@ == planned_checks(*config)[j].1 && run_one.ensures(
                    (&results@[j].command,),
                    results@[j].passed,
                ),
        decreases steps@.len() - i,
    {
        let step = &steps[i];
        assert(step_views(steps@)[i as int] == (step.name@, step.command@));
        let command = step.command.clone();
        let passed = run_one(&command);
        results.push(CheckResult { name: step.name, command, passed });
        i += 1;
    }
    results
}

} // verus!
