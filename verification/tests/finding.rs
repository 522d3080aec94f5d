use mcplink::desktop::Desktop;
use mcplink::desktop::FocusPolicy;
use mcplink::desktop::WindowEntry;
use mcplink::locator::MatchRung;
use mcplink::locator::locate;

fn empty_desktop(policy: FocusPolicy) -> Desktop {
    Desktop {
        windows: Vec::new(),
        foreground: 0,
        policy,
        foreground_granted: false,
        attached: Vec::new(),
        current_thread: 7,
    }
}

#[test]
fn locate_nothing_in_empty_registry() {
    let d = empty_desktop(FocusPolicy::Permissive);
    assert_eq!(locate(&d), None);
}

#[test]
fn locate_nothing_among_unrelated_windows() {
    let mut d = empty_desktop(FocusPolicy::Permissive);
    d.add_window(WindowEntry::new(10, "Text Editor", "EditorFrame", true, false, 2));
    d.add_window(WindowEntry::new(11, "Browser", "BrowserFrame", true, false, 3));
    assert_eq!(locate(&d), None);
}

#[test]
fn locate_exact_pair_wins_first() {
    let mut d = empty_desktop(FocusPolicy::Permissive);
    // A window matching only the alternate-title rung...
    d.add_window(WindowEntry::new(20, "Tauri App", "Tauri Window", true, false, 2));
    // ...and the exact expected identity.
    d.add_window(WindowEntry::new(21, "MCP Link", "Tauri Window", true, false, 3));
    assert_eq!(locate(&d), Some((21, MatchRung::ExactPair)));
}

#[test]
fn locate_alt_title_beats_lower_rungs() {
    let mut d = empty_desktop(FocusPolicy::Permissive);
    // Matches only the class-only rung (a lower-priority criterion).
    d.add_window(WindowEntry::new(30, "Unrelated Title", "Tauri Window", true, false, 2));
    // Matches the alternate-title rung: an alternate title with the expected
    // class — and no higher-priority criterion.
    d.add_window(WindowEntry::new(31, "Tauri App", "Tauri Window", true, false, 3));
    let r = locate(&d);
    assert_eq!(r, Some((31, MatchRung::AltTitle)));
}

#[test]
fn locate_class_only_when_no_title_matches() {
    let mut d = empty_desktop(FocusPolicy::Permissive);
    d.add_window(WindowEntry::new(40, "Unrelated Title", "Tauri Window", true, false, 2));
    assert_eq!(locate(&d), Some((40, MatchRung::ClassOnly)));
}

#[test]
fn locate_alternate_class() {
    let mut d = empty_desktop(FocusPolicy::Permissive);
    d.add_window(WindowEntry::new(50, "Something", "Wry", true, false, 2));
    assert_eq!(locate(&d), Some((50, MatchRung::AltClass)));
}

#[test]
fn locate_enumeration_heuristic() {
    let mut d = empty_desktop(FocusPolicy::Permissive);
    // Neither the title nor the class matches any exact criterion, but the
    // title contains a domain keyword, case-insensitively.
    d.add_window(WindowEntry::new(60, "My MCP Tool", "XCLASS", true, false, 2));
    assert_eq!(locate(&d), Some((60, MatchRung::Enumeration)));
}

#[test]
fn enumeration_skips_invisible_and_untitled_windows() {
    let mut d = empty_desktop(FocusPolicy::Permissive);
    d.add_window(WindowEntry::new(70, "My MCP Tool", "XCLASS", false, false, 2));
    d.add_window(WindowEntry::new(71, "", "tauri-shell", true, false, 3));
    assert_eq!(locate(&d), None);
}

#[test]
fn substring_search_is_case_insensitive() {
    assert!(mcplink::text::contains_ci("Tauri Window", "window"));
    assert!(mcplink::text::contains_ci("MCP LINK", "link"));
    assert!(mcplink::text::contains_ci("abc", ""));
    assert!(!mcplink::text::contains_ci("Text Editor", "mcp"));
    assert!(!mcplink::text::contains_ci("ab", "abc"));
}

#[test]
fn string_equality_is_exact() {
    assert!(mcplink::text::str_eq("MCP Link", "MCP Link"));
    assert!(!mcplink::text::str_eq("MCP Link", "mcp link"));
    assert!(!mcplink::text::str_eq("MCP", "MCP Link"));
}
