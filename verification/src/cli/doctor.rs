//! `smoothee doctor` — check the local Git/GitHub environment.
//!
//! Doctor is deliberately read-only. The binary gathers the same
//! deterministic context later commands depend on; this module words the
//! report of which pieces are ready and which deserve attention before a risky
//! workflow starts.
use vstd::prelude::*;

use crate::config::global::GlobalPaths;
use crate::config::repository::{RepoConfig, SyncStrategy};
use crate::git::branches::{BaseBranch, BaseBranchSource};
use crate::text::{owned, push_str};
use crate::ui::output::{bullet, bullet_spec, label, label_spec, ok, ok_spec, warn, warn_spec};
use crate::verification::{configured_checks, planned_checks, step_views};

verus! {

pub open spec fn source_note_text(source: BaseBranchSource) -> Seq<char> {
    match source {
        BaseBranchSource::Configured => " (configured)"@,
        BaseBranchSource::RemoteHead => " (from origin)"@,
        BaseBranchSource::Conventional => " (guessed)"@,
    }
}

/// How the base branch was found, in plain language.
pub fn base_source_note(source: BaseBranchSource) -> (r: &'static str)
    ensures
        r@ == source_note_text(source),
{
    match source {
        BaseBranchSource::Configured => " (configured)",
        BaseBranchSource::RemoteHead => " (from origin)",
        BaseBranchSource::Conventional => " (guessed)",
    }
}

/// What looking for the repository's configuration found.
pub enum ConfigLookup {
    /// The current directory is not inside a repository.
    NoRepository,
    /// `.smoothee.toml` exists but could not be read; the reason.
    Invalid(String),
    /// The configuration in use, the path of `.smoothee.toml`, and whether
    /// that file exists (when it does not, the defaults are in use).
    Loaded { config: RepoConfig, path: String, present: bool },
}

/// What looking for the current branch found.
pub enum BranchLookup {
    /// On the named branch.
    On(String),
    /// HEAD is detached.
    Detached,
    /// Git could not say; the reason.
    Failed(String),
}

/// What looking for the base branch found.
pub enum BaseLookup {
    /// The base branch.
    Found(BaseBranch),
    /// No base branch could be detected.
    NotDetected,
    /// Detection failed; the reason.
    DetectFailed(String),
    /// The configuration could not be read; the reason.
    ConfigFailed(String),
}

/// The name of a strategy as `{:?}` writes it.
pub open spec fn strategy_name(s: SyncStrategy) -> Seq<char> {
    match s {
        SyncStrategy::Auto => "Auto"@,
        SyncStrategy::Rebase => "Rebase"@,
        SyncStrategy::Merge => "Merge"@,
    }
}

fn strategy_debug(s: SyncStrategy) -> (r: &'static str)
    ensures
        r@ == strategy_name(s),
{
    match s {
        SyncStrategy::Auto => "Auto",
        SyncStrategy::Rebase => "Rebase",
        SyncStrategy::Merge => "Merge",
    }
}

/// One `<name>: <command>` line per configured check.
pub open spec fn check_lines(checks: Seq<(Seq<char>, Seq<char>)>, colors: bool) -> Seq<char>
    decreases checks.len(),
{
    if checks.len() == 0 {
        seq![]
    } else {
        check_lines(checks.drop_last(), colors) + bullet_spec(
            ok_spec(checks.last().0 + ": "@ + checks.last().1, colors),
            colors,
        ) + "\n"@
    }
}

/// The verification commands configured, or a warning that there are none.
pub open spec fn checks_text(config: RepoConfig, colors: bool) -> Seq<char> {
    if planned_checks(config.verification).len() == 0 {
        bullet_spec(
            warn_spec(
                "no verification commands configured; sync cannot validate changes yet"@,
                colors,
            ),
            colors,
        ) + "\n"@
    } else {
        check_lines(planned_checks(config.verification), colors)
    }
}

/// The report on a configuration in use: where it comes from, the sync
/// strategy, and the checks.
pub open spec fn loaded_text(config: RepoConfig, path: Seq<char>, present: bool, colors: bool) -> Seq<char> {
    (if present {
        bullet_spec(ok_spec("repo config: "@ + path, colors), colors)
    } else {
        bullet_spec(label_spec("repo config: not present (defaults are in use)"@, colors), colors)
    }) + "\n"@ + bullet_spec(
        ok_spec("sync strategy: "@ + strategy_name(config.sync_strategy), colors),
        colors,
    ) + "\n"@ + checks_text(config, colors)
}

/// The configuration section of the doctor report.
pub open spec fn configuration_text(lookup: ConfigLookup, colors: bool) -> Seq<char> {
    label_spec("Configuration:"@, colors) + "\n"@ + match lookup {
        ConfigLookup::NoRepository => bullet_spec(
            label_spec("repo config skipped because no repository was found"@, colors),
            colors,
        ) + "\n"@,
        ConfigLookup::Invalid(err) => bullet_spec(
            warn_spec("invalid .smoothee.toml: "@ + err@, colors),
            colors,
        ) + "\n"@,
        ConfigLookup::Loaded { config, path, present } => loaded_text(config, path@, present, colors),
    }
}

fn push_line(out: &mut String, line: String)
    ensures
        final(out)@ == old(out)@ + line@ + "\n"@,
{
    push_str(out, line.as_str());
    push_str(out, "\n");
}

fn joined(a: &str, b: &str) -> (r: String)
    ensures
        r@ == a@ + b@,
{
    let mut s = owned(a);
    push_str(&mut s, b);
    s
}

fn push_checks(out: &mut String, config: &RepoConfig, colors: bool)
    ensures
        final(out)@ == old(out)@ + checks_text(*config, colors),
{
    let steps = configured_checks(&config.verification);
    if steps.len() == 0 {
        let w = warn(
            "no verification commands configured; sync cannot validate changes yet",
            colors,
        );
        push_line(out, bullet(w.as_str(), colors));
    } else {
        let ghost start = out@;
        let mut i: usize = 0;
        while i < steps.len()
            invariant
                i <= steps@.len(),
                step_views(steps@) == planned_checks(config.verification),
                out@ == start + check_lines(step_views(steps@).take(i as int), colors),
            decreases steps@.len() - i,
        {
            let mut text = owned(steps[i].name);
            push_str(&mut text, ": ");
            push_str(&mut text, steps[i].command.as_str());
            let o = ok(text.as_str(), colors);
            push_line(out, bullet(o.as_str(), colors));
            proof {
                let t = step_views(steps@).take(i + 1);
                assert(t.drop_last() =~= step_views(steps@).take(i as int));
                assert(t.last() == (steps@[i as int].name@, steps@[i as int].command@));
            }
            i += 1;
        }
        assert(step_views(steps@).take(steps@.len() as int) =~= step_views(steps@));
    }
}

fn push_loaded(out: &mut String, config: &RepoConfig, path: &str, present: bool, colors: bool)
    ensures
        final(out)@ == old(out)@ + loaded_text(*config, path@, present, colors),
{
    let ghost start = out@;
    let line = if present {
        let t = joined("repo config: ", path);
        bullet(ok(t.as_str(), colors).as_str(), colors)
    } else {
        bullet(label("repo config: not present (defaults are in use)", colors).as_str(), colors)
    };
    push_line(out, line);
    let t = joined("sync strategy: ", strategy_debug(config.sync_strategy));
    push_line(out, bullet(ok(t.as_str(), colors).as_str(), colors));
    push_checks(out, config, colors);
    assert(out@ =~= start + loaded_text(*config, path@, present, colors));
}

/// The configuration section of the doctor report: where the configuration
/// comes from, the sync strategy, and the verification commands configured.
pub fn print_configuration(lookup: &ConfigLookup, colors: bool) -> (r: String)
    ensures
        r@ == configuration_text(*lookup, colors),
{
    let mut out = label("Configuration:", colors);
    push_str(&mut out, "\n");
    match lookup {
        ConfigLookup::NoRepository => {
            let l = label("repo config skipped because no repository was found", colors);
            push_line(&mut out, bullet(l.as_str(), colors));
        },
        ConfigLookup::Invalid(err) => {
            let t = joined("invalid .smoothee.toml: ", err.as_str());
            let w = warn(t.as_str(), colors);
            push_line(&mut out, bullet(w.as_str(), colors));
        },
        ConfigLookup::Loaded { config, path, present } => {
            push_loaded(&mut out, config, path.as_str(), *present, colors);
        },
    }
    assert(out@ =~= configuration_text(*lookup, colors));
    out
}

/// The repository section of the doctor report. `location` is the
/// repository's working directory and `.git` directory, when the current
/// directory is inside one.
pub open spec fn repository_text(
    location: Option<(Seq<char>, Seq<char>)>,
    branch: BranchLookup,
    base: BaseLookup,
    colors: bool,
) -> Seq<char> {
    label_spec("Repository:"@, colors) + "\n"@ + match location {
        None => bullet_spec(warn_spec("not inside a Git repository"@, colors), colors) + "\n"@,
        Some((workdir, git_dir)) => bullet_spec(ok_spec("workdir: "@ + workdir, colors), colors)
            + "\n"@ + bullet_spec(ok_spec("git dir: "@ + git_dir, colors), colors) + "\n"@
            + branch_line(branch, colors) + base_line(base, colors),
    }
}

pub open spec fn branch_line(branch: BranchLookup, colors: bool) -> Seq<char> {
    bullet_spec(
        match branch {
            BranchLookup::On(b) => ok_spec("branch: "@ + b@, colors),
            BranchLookup::Detached => warn_spec(
                "detached HEAD; sync/pr workflows need a branch"@,
                colors,
            ),
            BranchLookup::Failed(e) => warn_spec("could not read branch: "@ + e@, colors),
        },
        colors,
    ) + "\n"@
}

pub open spec fn base_line(base: BaseLookup, colors: bool) -> Seq<char> {
    bullet_spec(
        match base {
            BaseLookup::Found(b) => ok_spec(
                "base branch: "@ + b.name@ + source_note_text(b.source),
                colors,
            ),
            BaseLookup::NotDetected => warn_spec(
                "base branch not detected; set base_branch in .smoothee.toml"@,
                colors,
            ),
            BaseLookup::DetectFailed(e) => warn_spec(
                "could not detect base branch: "@ + e@,
                colors,
            ),
            BaseLookup::ConfigFailed(e) => warn_spec("could not load repo config: "@ + e@, colors),
        },
        colors,
    ) + "\n"@
}

fn branch_report(branch: &BranchLookup, colors: bool) -> (r: String)
    ensures
        r@ + "\n"@ == branch_line(*branch, colors),
{
    let marked = match branch {
        BranchLookup::On(b) => ok(joined("branch: ", b.as_str()).as_str(), colors),
        BranchLookup::Detached => warn("detached HEAD; sync/pr workflows need a branch", colors),
        BranchLookup::Failed(e) => warn(joined("could not read branch: ", e.as_str()).as_str(), colors),
    };
    bullet(marked.as_str(), colors)
}

fn base_report(base: &BaseLookup, colors: bool) -> (r: String)
    ensures
        r@ + "\n"@ == base_line(*base, colors),
{
    let marked = match base {
        BaseLookup::Found(b) => {
            let mut t = joined("base branch: ", b.name.as_str());
            push_str(&mut t, base_source_note(b.source));
            ok(t.as_str(), colors)
        },
        BaseLookup::NotDetected => warn(
            "base branch not detected; set base_branch in .smoothee.toml",
            colors,
        ),
        BaseLookup::DetectFailed(e) => warn(
            joined("could not detect base branch: ", e.as_str()).as_str(),
            colors,
        ),
        BaseLookup::ConfigFailed(e) => warn(
            joined("could not load repo config: ", e.as_str()).as_str(),
            colors,
        ),
    };
    bullet(marked.as_str(), colors)
}

/// The repository section of the doctor report: where the repository is, the
/// current branch and the base branch.
pub fn print_repository(
    location: Option<(&str, &str)>,
    branch: &BranchLookup,
    base: &BaseLookup,
    colors: bool,
) -> (r: String)
    ensures
        r@ == repository_text(
            match location {
                Some((w, g)) => Some((w@, g@)),
                None => None,
            },
            *branch,
            *base,
            colors,
        ),
{
    let mut out = label("Repository:", colors);
    push_str(&mut out, "\n");
    match location {
        None => {
            let w = warn("not inside a Git repository", colors);
            push_line(&mut out, bullet(w.as_str(), colors));
        },
        Some((workdir, git_dir)) => {
            push_line(&mut out, bullet(ok(joined("workdir: ", workdir).as_str(), colors).as_str(), colors));
            push_line(&mut out, bullet(ok(joined("git dir: ", git_dir).as_str(), colors).as_str(), colors));
            push_line(&mut out, branch_report(branch, colors));
            push_line(&mut out, base_report(base, colors));
        },
    }
    assert(out@ =~= repository_text(
        match location {
            Some((w, g)) => Some((w@, g@)),
            None => None,
        },
        *branch,
        *base,
        colors,
    ));
    out
}

/// The line for Git: its version, or why it could not run.
pub open spec fn git_line(git_version: Result<Seq<char>, Seq<char>>, colors: bool) -> Seq<char> {
    (match git_version {
        Ok(v) => bullet_spec(ok_spec(v, colors), colors),
        Err(e) => bullet_spec(warn_spec("Git unavailable: "@ + e, colors), colors),
    }) + "\n"@
}

/// The line for the GitHub CLI: its version, or that it is missing.
pub open spec fn gh_line(gh_version: Option<Seq<char>>, colors: bool) -> Seq<char> {
    (match gh_version {
        Some(v) => bullet_spec(ok_spec(v, colors), colors),
        None => bullet_spec(
            warn_spec("GitHub CLI not found; `smoothee pr` will need `gh` later"@, colors),
            colors,
        ),
    }) + "\n"@
}

/// The lines for the per-user directories, or that they could not be resolved.
pub open spec fn dirs_lines(dirs: Option<(Seq<char>, Seq<char>)>, colors: bool) -> Seq<char> {
    match dirs {
        Some((c, d)) => bullet_spec(ok_spec("config dir: "@ + c, colors), colors) + "\n"@
            + bullet_spec(ok_spec("data dir: "@ + d, colors), colors) + "\n"@,
        None => bullet_spec(
            warn_spec("could not resolve user config/data directories"@, colors),
            colors,
        ) + "\n"@,
    }
}

/// The environment section of the doctor report: Git's version (or why it
/// could not run), the GitHub CLI's version (or that it is missing), and the
/// per-user directories (or that they could not be resolved).
pub open spec fn environment_text(
    git_version: Result<Seq<char>, Seq<char>>,
    gh_version: Option<Seq<char>>,
    dirs: Option<(Seq<char>, Seq<char>)>,
    colors: bool,
) -> Seq<char> {
    label_spec("Environment:"@, colors) + "\n"@ + git_line(git_version, colors) + gh_line(
        gh_version,
        colors,
    ) + dirs_lines(dirs, colors)
}

fn push_git_line(out: &mut String, git_version: &Result<String, String>, colors: bool)
    ensures
        final(out)@ == old(out)@ + git_line(
            match git_version {
                Ok(v) => Ok(v@),
                Err(e) => Err(e@),
            },
            colors,
        ),
{
    match git_version {
        Ok(v) => push_line(out, bullet(ok(v.as_str(), colors).as_str(), colors)),
        Err(e) => {
            let t = joined("Git unavailable: ", e.as_str());
            push_line(out, bullet(warn(t.as_str(), colors).as_str(), colors));
        },
    }
}

fn push_gh_line(out: &mut String, gh_version: &Option<String>, colors: bool)
    ensures
        final(out)@ == old(out)@ + gh_line(
            match gh_version {
                Some(v) => Some(v@),
                None => None,
            },
            colors,
        ),
{
    match gh_version {
        Some(v) => push_line(out, bullet(ok(v.as_str(), colors).as_str(), colors)),
        None => {
            let w = warn("GitHub CLI not found; `smoothee pr` will need `gh` later", colors);
            push_line(out, bullet(w.as_str(), colors));
        },
    }
}

fn push_dirs_lines(out: &mut String, paths: &Option<GlobalPaths>, colors: bool)
    ensures
        final(out)@ == old(out)@ + dirs_lines(
            match paths {
                Some(p) => Some((p.config_dir@, p.data_dir@)),
                None => None,
            },
            colors,
        ),
{
    let ghost start = out@;
    match paths {
        Some(p) => {
            let t = joined("config dir: ", p.config_dir());
            push_line(out, bullet(ok(t.as_str(), colors).as_str(), colors));
            let t = joined("data dir: ", p.data_dir());
            push_line(out, bullet(ok(t.as_str(), colors).as_str(), colors));
        },
        None => {
            let w = warn("could not resolve user config/data directories", colors);
            push_line(out, bullet(w.as_str(), colors));
        },
    }
    assert(out@ =~= start + dirs_lines(
        match paths {
            Some(p) => Some((p.config_dir@, p.data_dir@)),
            None => None,
        },
        colors,
    ));
}

/// Render the environment section from what was found.
pub fn print_environment(
    git_version: &Result<String, String>,
    gh_version: &Option<String>,
    paths: &Option<GlobalPaths>,
    colors: bool,
) -> (r: String)
    ensures
        r@ == environment_text(
            match git_version {
                Ok(v) => Ok(v@),
                Err(e) => Err(e@),
            },
            match gh_version {
                Some(v) => Some(v@),
                None => None,
            },
            match paths {
                Some(p) => Some((p.config_dir@, p.data_dir@)),
                None => None,
            },
            colors,
        ),
{
    let mut out = label("Environment:", colors);
    push_str(&mut out, "\n");
    push_git_line(&mut out, git_version, colors);
    push_gh_line(&mut out, gh_version, colors);
    push_dirs_lines(&mut out, paths, colors);
    out
}

} // verus!
