//! Interactive confirmation prompts.
//!
//! "Explain before acting" ends in a yes/no gate before any mutation. Reading
//! the terminal is the binary's job; how a menu of keys is presented, and how
//! a typed answer is read, are decided here.
use vstd::prelude::*;

use crate::text::{is_text, lowercase, lowered, push_char, push_str, trim, trimmed_both};

verus! {

/// The keys joined by ` / `, e.g. `y / i / e / d / s`.
pub open spec fn allowed_text(allowed: Seq<char>) -> Seq<char>
    decreases allowed.len(),
{
    if allowed.len() == 0 {
        seq![]
    } else if allowed.len() == 1 {
        seq![allowed[0]]
    } else {
        allowed_text(allowed.drop_last()) + " / "@ + seq![allowed.last()]
    }
}

/// Render an allowed-key set like `y / i / e / d / s` for the re-ask hint.
pub fn render_allowed(allowed: &[char]) -> (r: String)
    ensures
        r@ == allowed_text(allowed@),
{
    let mut r = String::new();
    let mut i: usize = 0;
    assert(allowed@.take(0) =~= Seq::<char>::empty());
    while i < allowed.len()
        invariant
            i <= allowed@.len(),
            r@ == allowed_text(allowed@.take(i as int)),
        decreases allowed@.len() - i,
    {
        let ghost pre = allowed@.take(i as int);
        assert(allowed@.take(i + 1).drop_last() =~= pre);
        if i > 0 {
            push_str(&mut r, " / ");
        }
        push_char(&mut r, allowed[i]);
        proof {
            if i == 0 {
                assert(r@ =~= seq![allowed@[0]]);
            } else {
                assert(r@ =~= allowed_text(pre) + " / "@ + seq![allowed@[i as int]]);
            }
        }
        i += 1;
    }
    assert(allowed@.take(allowed@.len() as int) =~= allowed@);
    r
}

/// What a typed answer to a yes/no question means: an empty answer (after
/// trimming) takes the default; `y` or `yes`, in any ASCII case, approves;
/// anything else declines.
pub open spec fn approves(line: Seq<char>, default_yes: bool) -> bool {
    let a = lowered(trim(line));
    if a.len() == 0 {
        default_yes
    } else {
        a == "y"@ || a == "yes"@
    }
}

/// Read a typed answer to a yes/no question.
pub fn read_confirmation(line: &str, default_yes: bool) -> (r: bool)
    ensures
        r == approves(line@, default_yes),
{
    let t = trimmed_both(line);
    let a = lowercase(t.as_slice());
    if a.len() == 0 {
        default_yes
    } else {
        is_text(a.as_slice(), "y") || is_text(a.as_slice(), "yes")
    }
}

/// Whether a yes/no question is approved. `--yes` approves without asking.
/// Without a terminal the question cannot be answered, so it is declined
/// rather than guessed; otherwise the typed answer decides, and an answer
/// that could not be read declines.
pub open spec fn approval_of(
    assume_yes: bool,
    interactive: bool,
    answer: Option<Seq<char>>,
    default_yes: bool,
) -> bool {
    if assume_yes {
        true
    } else if !interactive {
        false
    } else {
        match answer {
            Some(line) => approves(line, default_yes),
            None => false,
        }
    }
}

/// Decide a yes/no question from `--yes`, whether the terminal can be
/// asked, and what was typed. A repository is never changed on an assumed
/// "yes": without `--yes` and without a terminal the answer is no.
pub fn approval(assume_yes: bool, interactive: bool, answer: Option<&str>, default_yes: bool) -> (r:
    bool)
    ensures
        r == approval_of(
            assume_yes,
            interactive,
            match answer {
                Some(a) => Some(a@),
                None => None,
            },
            default_yes,
        ),
        !assume_yes && !interactive ==> !r,
{
    if assume_yes {
        return true;
    }
    if !interactive {
        return false;
    }
    match answer {
        Some(line) => read_confirmation(line, default_yes),
        None => false,
    }
}

/// The key a typed answer to a menu picks: its first character (after
/// trimming, in ASCII lower case) when that is one of the allowed keys.
pub open spec fn picked(line: Seq<char>, allowed: Seq<char>) -> Option<char> {
    let a = lowered(trim(line));
    if a.len() > 0 && allowed.contains(a[0]) {
        Some(a[0])
    } else {
        None
    }
}

/// Read a typed answer to a menu of single keys.
pub fn read_choice(line: &str, allowed: &[char]) -> (r: Option<char>)
    ensures
        r == picked(line@, allowed@),
{
    let t = trimmed_both(line);
    let a = lowercase(t.as_slice());
    if a.len() == 0 {
        return None;
    }
    let c = a[0];
    let mut i: usize = 0;
    while i < allowed.len()
        invariant
            i <= allowed@.len(),
            lowered(trim(line@)).len() > 0,
            c == lowered(trim(line@))[0],
            forall|j: int| 0 <= j < i ==> allowed@[j] != c,
        decreases allowed@.len() - i,
    {
        if allowed[i] == c {
            assert(allowed@.contains(c));
            return Some(c);
        }
        i += 1;
    }
    None
}

} // verus!
