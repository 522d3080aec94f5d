use mcplink::deeplink::extract_keyword;
use mcplink::notify::KeywordsPayload;
use mcplink::notify::notification_title;
use mcplink::notify::notification_uri;
use mcplink::trace::Clock;
use mcplink::trace::TraceEntry;
use mcplink::trace::TraceEvent;
use mcplink::trace::TraceLog;
use mcplink::trace::render_entry;

#[test]
fn deeplink_extracts_keyword() {
    assert_eq!(
        extract_keyword("mcplink://notification?keyword=rust"),
        Some("rust".to_string())
    );
}

#[test]
fn deeplink_cuts_at_query_separator() {
    assert_eq!(
        extract_keyword("mcplink://notification?keyword=abc&other=1"),
        Some("abc".to_string())
    );
    assert_eq!(
        extract_keyword("mcplink://notification?keyword=abc?x"),
        Some("abc".to_string())
    );
}

#[test]
fn deeplink_trims_whitespace() {
    assert_eq!(
        extract_keyword("mcplink://notification?keyword= hello \n"),
        Some("hello".to_string())
    );
}

#[test]
fn deeplink_requires_scheme_and_parameter() {
    assert_eq!(extract_keyword("https://example.com?keyword=abc"), None);
    assert_eq!(extract_keyword("mcplink://notification"), None);
}

#[test]
fn deeplink_empty_keyword_is_empty_string() {
    assert_eq!(extract_keyword("mcplink://a?keyword="), Some("".to_string()));
}

#[test]
fn notification_uri_round_trips_through_the_deeplink_parser() {
    let uri = notification_uri(Some("rust"));
    assert_eq!(uri, "mcplink://notification?keyword=rust");
    assert_eq!(extract_keyword(&uri), Some("rust".to_string()));
    assert_eq!(notification_uri(None), "mcplink://notification");
}

#[test]
fn payload_title_body_and_main_keyword() {
    let p = KeywordsPayload {
        keywords: vec!["alpha".to_string(), "beta".to_string(), "gamma".to_string()],
    };
    assert_eq!(p.main_keyword(), Some("alpha".to_string()));
    assert_eq!(p.joined(), "alpha, beta, gamma");
    assert_eq!(p.body(), "Click for keyword: alpha, beta, gamma");
    assert_eq!(notification_title(), "MCP keyword recommendation");

    let empty = KeywordsPayload { keywords: Vec::new() };
    assert_eq!(empty.main_keyword(), None);
    assert_eq!(empty.joined(), "");
    assert_eq!(empty.body(), "Click for keyword: ");

    let single = KeywordsPayload { keywords: vec!["solo".to_string()] };
    assert_eq!(single.joined(), "solo");
}

#[test]
fn trace_line_rendering() {
    let e = TraceEntry {
        clock: Clock { hour: 9, minute: 5, second: 30 },
        event: TraceEvent::Locating,
    };
    assert_eq!(render_entry(e), "[09:05:30] locating: searching the window registry");
    let r = TraceEntry {
        clock: Clock { hour: 23, minute: 59, second: 0 },
        event: TraceEvent::Rung {
            technique: mcplink::arbitrator::Technique::FinalRetry,
            ok: false,
        },
    };
    assert_eq!(render_entry(r), "[23:59:00] final retry: reported failure");
}

#[test]
fn trace_log_stamps_entries_with_a_clock() {
    let mut log = TraceLog::new();
    log.push(TraceEvent::Locating);
    assert_eq!(log.len(), 1);
    assert_eq!(log.event_at(0), TraceEvent::Locating);
    let line = render_entry(log.entry_at(0));
    let chars: Vec<char> = line.chars().collect();
    // The wall-clock prefix has the fixed [HH:MM:SS] shape.
    assert_eq!(chars[0], '[');
    assert_eq!(chars[3], ':');
    assert_eq!(chars[6], ':');
    assert_eq!(chars[9], ']');
    assert_eq!(chars[10], ' ');
}
