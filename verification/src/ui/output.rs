//! Terminal output helpers.
//!
//! A thin, dependency-light styling layer over [`console`]. Centralising it
//! keeps Smoothee's tone consistent — calm, clear, reassuring in failure — and
//! makes the "always show the git commands" principle a single call away.
//!
//! Whether colour is used is passed in as `colors`: the binary asks
//! `console::colors_enabled()`, which is off when stdout is not a terminal or
//! when `NO_COLOR` is set, so piped output stays clean.
use vstd::prelude::*;

use crate::text::{owned, push_str};

verus! {

/// `text` wrapped in the escape sequence `code` and the reset sequence when
/// colour is on; `text` unchanged when it is off.
pub open spec fn painted(code: Seq<char>, text: Seq<char>, colors: bool) -> Seq<char> {
    if colors {
        code + text + "\x1b[0m"@
    } else {
        text
    }
}

/// `console::style(text).bold()`, styled exactly when `colors` is set:
/// the bold attribute (`ESC[1m`), the text, then the reset (`ESC[0m`).
#[verifier::external_body]
fn console_bold(text: &str, colors: bool) -> (r: String)
    ensures
        r@ == painted("\x1b[1m"@, text@, colors),
{
    console::style(text).bold().force_styling(colors).to_string()
}

/// `console::style(text).dim()`: the dim attribute (`ESC[2m`) when styled.
#[verifier::external_body]
fn console_dim(text: &str, colors: bool) -> (r: String)
    ensures
        r@ == painted("\x1b[2m"@, text@, colors),
{
    console::style(text).dim().force_styling(colors).to_string()
}

/// `console::style(text).green()`: foreground colour 2 (`ESC[32m`) when styled.
#[verifier::external_body]
fn console_green(text: &str, colors: bool) -> (r: String)
    ensures
        r@ == painted("\x1b[32m"@, text@, colors),
{
    console::style(text).green().force_styling(colors).to_string()
}

/// `console::style(text).yellow()`: foreground colour 3 (`ESC[33m`) when styled.
#[verifier::external_body]
fn console_yellow(text: &str, colors: bool) -> (r: String)
    ensures
        r@ == painted("\x1b[33m"@, text@, colors),
{
    console::style(text).yellow().force_styling(colors).to_string()
}

/// `console::style(text).cyan()`: foreground colour 6 (`ESC[36m`) when styled.
#[verifier::external_body]
fn console_cyan(text: &str, colors: bool) -> (r: String)
    ensures
        r@ == painted("\x1b[36m"@, text@, colors),
{
    console::style(text).cyan().force_styling(colors).to_string()
}

/// `console::style(text).cyan().bold()`: the foreground colour first
/// (`ESC[36m`), then the bold attribute (`ESC[1m`), when styled.
#[verifier::external_body]
fn console_cyan_bold(text: &str, colors: bool) -> (r: String)
    ensures
        r@ == painted("\x1b[36m\x1b[1m"@, text@, colors),
{
    console::style(text).cyan().bold().force_styling(colors).to_string()
}

pub open spec fn heading_spec(text: Seq<char>, colors: bool) -> Seq<char> {
    painted("\x1b[1m"@, text, colors)
}

pub open spec fn label_spec(text: Seq<char>, colors: bool) -> Seq<char> {
    painted("\x1b[2m"@, text, colors)
}

pub open spec fn ok_spec(text: Seq<char>, colors: bool) -> Seq<char> {
    painted("\x1b[32m"@, "✓"@, colors) + " "@ + text
}

pub open spec fn warn_spec(text: Seq<char>, colors: bool) -> Seq<char> {
    painted("\x1b[33m"@, "⚠"@, colors) + " "@ + text
}

pub open spec fn bullet_spec(text: Seq<char>, colors: bool) -> Seq<char> {
    "  "@ + painted("\x1b[2m"@, "•"@, colors) + " "@ + text
}

pub open spec fn running_spec(command: Seq<char>, colors: bool) -> Seq<char> {
    label_spec("Running:"@, colors) + "\n  "@ + painted("\x1b[36m"@, command, colors)
}

pub open spec fn recommend_spec(text: Seq<char>, colors: bool) -> Seq<char> {
    painted("\x1b[36m\x1b[1m"@, text, colors)
}

/// A styled section heading (bold).
pub fn heading(text: &str, colors: bool) -> (r: String)
    ensures
        r@ == heading_spec(text@, colors),
{
    console_bold(text, colors)
}

/// A dimmed label, e.g. field names in a status block.
pub fn label(text: &str, colors: bool) -> (r: String)
    ensures
        r@ == label_spec(text@, colors),
{
    console_dim(text, colors)
}

/// A success marker: green check plus message.
pub fn ok(text: &str, colors: bool) -> (r: String)
    ensures
        r@ == ok_spec(text@, colors),
{
    let mut r = console_green("✓", colors);
    push_str(&mut r, " ");
    push_str(&mut r, text);
    r
}

/// A warning marker: yellow sign plus message.
pub fn warn(text: &str, colors: bool) -> (r: String)
    ensures
        r@ == warn_spec(text@, colors),
{
    let mut r = console_yellow("⚠", colors);
    push_str(&mut r, " ");
    push_str(&mut r, text);
    r
}

/// An informational bullet.
pub fn bullet(text: &str, colors: bool) -> (r: String)
    ensures
        r@ == bullet_spec(text@, colors),
{
    let mut r = owned("  ");
    let dot = console_dim("•", colors);
    push_str(&mut r, dot.as_str());
    push_str(&mut r, " ");
    push_str(&mut r, text);
    r
}

/// Render the "Running:" transparency block for a git command, honouring the
/// "preserve access to Git" principle — users always see the real command.
pub fn running(command: &str, colors: bool) -> (r: String)
    ensures
        r@ == running_spec(command@, colors),
{
    let mut r = label("Running:", colors);
    push_str(&mut r, "\n  ");
    let c = console_cyan(command, colors);
    push_str(&mut r, c.as_str());
    r
}

/// Emphasise a recommended next step.
pub fn recommend(text: &str, colors: bool) -> (r: String)
    ensures
        r@ == recommend_spec(text@, colors),
{
    console_cyan_bold(text, colors)
}

/// Without colour, every marker keeps its message verbatim at its end, and a
/// heading, label or recommendation is the text itself.
pub proof fn plain_markers_keep_their_message(text: Seq<char>)
    ensures
        heading_spec(text, false) == text,
        label_spec(text, false) == text,
        recommend_spec(text, false) == text,
        ok_spec(text, false) == "✓ "@ + text,
        warn_spec(text, false) == "⚠ "@ + text,
        bullet_spec(text, false) == "  • "@ + text,
{
    reveal_strlit("✓");
    reveal_strlit("⚠");
    reveal_strlit("•");
    reveal_strlit(" ");
    reveal_strlit("  ");
    reveal_strlit("✓ ");
    reveal_strlit("⚠ ");
    reveal_strlit("  • ");
    assert("✓"@ + " "@ + text =~= "✓ "@ + text);
    assert("⚠"@ + " "@ + text =~= "⚠ "@ + text);
    assert("  "@ + "•"@ + " "@ + text =~= "  • "@ + text);
}

} // verus!
