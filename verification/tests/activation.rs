use mcplink::arbitrator::Technique;
use mcplink::arbitrator::bring_to_front;
use mcplink::desktop::Desktop;
use mcplink::desktop::FocusPolicy;
use mcplink::desktop::WindowEntry;
use mcplink::marker::KeywordState;
use mcplink::normalizer::normalize;
use mcplink::orchestrator::activate_and_consume_pending;
use mcplink::orchestrator::force_app_to_foreground;
use mcplink::trace::TraceEvent;
use mcplink::trace::TraceLog;

fn desktop_with_app(policy: FocusPolicy, minimized: bool, foreground: u64) -> Desktop {
    Desktop {
        windows: vec![
            WindowEntry::new(100, "Text Editor", "EditorFrame", true, false, 2),
            WindowEntry::new(101, "MCP Link", "Tauri Window", !minimized, minimized, 3),
        ],
        foreground,
        policy,
        foreground_granted: false,
        attached: Vec::new(),
        current_thread: 7,
    }
}

#[test]
fn normalize_restores_and_shows() {
    let mut d = desktop_with_app(FocusPolicy::Permissive, true, 100);
    normalize(&mut d, 101);
    assert!(d.windows[1].visible);
    assert!(!d.windows[1].minimized);
    // The other window is untouched.
    assert!(d.windows[0].visible);
    assert!(!d.windows[0].minimized);
}

#[test]
fn normalize_twice_is_normalize_once() {
    let mut d = desktop_with_app(FocusPolicy::Permissive, true, 100);
    normalize(&mut d, 101);
    let visible_once = d.windows[1].visible;
    let minimized_once = d.windows[1].minimized;
    normalize(&mut d, 101);
    assert_eq!(d.windows[1].visible, visible_once);
    assert_eq!(d.windows[1].minimized, minimized_once);
}

#[test]
fn ladder_on_already_foreground_window_reports_success() {
    // Even under a policy that refuses every transfer, a window that already
    // has the focus stays there and the ladder reports success.
    let mut d = desktop_with_app(FocusPolicy::Refusing, false, 101);
    let (ok, reports) = bring_to_front(&mut d, 101);
    assert!(ok);
    assert_eq!(reports.len(), 5);
    assert_eq!(d.foreground, 101);
}

#[test]
fn ladder_succeeds_under_grant_required_policy() {
    let mut d = desktop_with_app(FocusPolicy::GrantRequired, false, 100);
    let (ok, reports) = bring_to_front(&mut d, 101);
    assert!(ok);
    assert_eq!(d.foreground, 101);
    // The pre-grant of rung 1 lets the direct request of rung 2 through.
    assert_eq!(reports[1].technique, Technique::DirectRequest);
    assert!(reports[1].ok);
}

#[test]
fn ladder_succeeds_under_input_linked_policy() {
    let mut d = desktop_with_app(FocusPolicy::InputLinked, false, 100);
    let (ok, reports) = bring_to_front(&mut d, 101);
    assert!(ok);
    assert_eq!(d.foreground, 101);
    // The direct request is refused; the thread-attach rung gets through.
    assert!(!reports[1].ok);
    assert_eq!(reports[3].technique, Technique::ThreadAttach);
    assert!(reports[3].ok);
    // The borrowed attachments are released again.
    assert!(d.attached.is_empty());
}

#[test]
fn ladder_under_refusing_policy_reports_failure_without_error() {
    let mut d = desktop_with_app(FocusPolicy::Refusing, false, 100);
    let (ok, reports) = bring_to_front(&mut d, 101);
    assert!(!ok);
    assert_eq!(reports.len(), 5);
    assert_eq!(d.foreground, 100);
    // The always-on-top flag the ladder toggles is clear again.
    assert!(!d.windows[1].topmost);
}

#[test]
fn end_to_end_activation_consumes_keyword() {
    let mut d = desktop_with_app(FocusPolicy::GrantRequired, true, 100);
    let mut m = KeywordState::new();
    let mut log = TraceLog::new();
    m.set_keyword("search-term-x".to_string(), 1_000);

    let r = activate_and_consume_pending(&mut d, &mut m, &mut log, 2_000);
    assert_eq!(r, Some("search-term-x".to_string()));
    assert_eq!(d.foreground, 101);
    assert!(d.windows[1].visible && !d.windows[1].minimized);

    assert_eq!(log.len(), 11);
    assert_eq!(log.event_at(0), TraceEvent::Locating);
    assert!(matches!(log.event_at(1), TraceEvent::Located { handle: 101, .. }));
    assert_eq!(log.event_at(2), TraceEvent::Normalizing);
    assert_eq!(log.event_at(3), TraceEvent::Arbitrating);
    let order = [
        Technique::PreAuthorize,
        Technique::DirectRequest,
        Technique::TopmostToggle,
        Technique::ThreadAttach,
        Technique::FinalRetry,
    ];
    for (k, expected) in order.iter().enumerate() {
        match log.event_at(4 + k) {
            TraceEvent::Rung { technique, .. } => assert_eq!(technique, *expected),
            other => panic!("expected a rung entry, got {:?}", other),
        }
    }
    assert_eq!(log.event_at(9), TraceEvent::Consuming { delivered: true });
    assert!(matches!(log.event_at(10), TraceEvent::Done { reported: true }));

    // An immediate second invocation finds no pending keyword.
    let r2 = activate_and_consume_pending(&mut d, &mut m, &mut log, 2_001);
    assert_eq!(r2, None);
    assert_eq!(log.event_at(11 + 9), TraceEvent::Consuming { delivered: false });
}

#[test]
fn not_found_aborts_and_leaves_marker_untouched() {
    let mut d = Desktop {
        windows: vec![WindowEntry::new(100, "Text Editor", "EditorFrame", true, false, 2)],
        foreground: 100,
        policy: FocusPolicy::Permissive,
        foreground_granted: false,
        attached: Vec::new(),
        current_thread: 7,
    };
    let mut m = KeywordState::new();
    let mut log = TraceLog::new();
    m.set_keyword("pending".to_string(), 1_000);

    let r = activate_and_consume_pending(&mut d, &mut m, &mut log, 2_000);
    assert_eq!(r, None);
    // Only the locating attempt and the abort are traced: zero arbitrator
    // entries.
    assert_eq!(log.len(), 2);
    assert_eq!(log.event_at(0), TraceEvent::Locating);
    assert_eq!(log.event_at(1), TraceEvent::Aborted);
    // The marker is still pending for a later, successful activation.
    assert!(m.has_keyword(2_000));
    assert_eq!(m.take_keyword(2_000), Some("pending".to_string()));
    assert_eq!(d.foreground, 100);
}

#[test]
fn single_instance_guard_focuses_the_known_window() {
    let mut d = desktop_with_app(FocusPolicy::Permissive, true, 100);
    let ok = mcplink::orchestrator::focus_known_window(&mut d, 101);
    assert!(ok);
    assert_eq!(d.foreground, 101);
    assert!(d.windows[1].visible && !d.windows[1].minimized);
}

#[test]
fn force_activate_reports_when_window_is_found() {
    let mut d = desktop_with_app(FocusPolicy::Permissive, false, 100);
    let mut log = TraceLog::new();
    assert_eq!(force_app_to_foreground(&mut d, &mut log), Ok(()));
    assert_eq!(d.foreground, 101);
}

#[test]
fn force_activate_fails_when_window_is_missing() {
    let mut d = Desktop {
        windows: Vec::new(),
        foreground: 0,
        policy: FocusPolicy::Permissive,
        foreground_granted: false,
        attached: Vec::new(),
        current_thread: 7,
    };
    let mut log = TraceLog::new();
    assert_eq!(
        force_app_to_foreground(&mut d, &mut log),
        Err("Application window not found".to_string())
    );
}
