use smoothee::ui::output::{bullet, heading, label, ok, recommend, running, warn};

#[test]
fn markers_include_their_message() {
    assert!(ok("done", false).contains("done"));
    assert!(warn("careful", false).contains("careful"));
    assert!(bullet("item", false).contains("item"));
}

#[test]
fn plain_markers_read_as_text() {
    assert_eq!(heading("Title", false), "Title");
    assert_eq!(label("Field:", false), "Field:");
    assert_eq!(ok("done", false), "✓ done");
    assert_eq!(warn("careful", false), "⚠ careful");
    assert_eq!(bullet("item", false), "  • item");
    assert_eq!(running("git status", false), "Running:\n  git status");
}

#[test]
fn coloured_markers_carry_their_styles() {
    assert_eq!(heading("Title", true), "\u{1b}[1mTitle\u{1b}[0m");
    assert_eq!(label("Field:", true), "\u{1b}[2mField:\u{1b}[0m");
    assert_eq!(ok("done", true), "\u{1b}[32m✓\u{1b}[0m done");
    assert_eq!(warn("careful", true), "\u{1b}[33m⚠\u{1b}[0m careful");
    assert_eq!(bullet("item", true), "  \u{1b}[2m•\u{1b}[0m item");
    assert_eq!(recommend("smoothee sync", true), "\u{1b}[36m\u{1b}[1msmoothee sync\u{1b}[0m");
    assert_eq!(running("git status", true), "\u{1b}[2mRunning:\u{1b}[0m\n  \u{1b}[36mgit status\u{1b}[0m");
}
