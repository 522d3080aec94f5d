use mcplink::marker::KeywordState;

#[test]
fn marker_starts_empty() {
    let mut m = KeywordState::new();
    assert!(!m.has_keyword(0));
    assert_eq!(m.take_keyword(0), None);
}

#[test]
fn marker_set_then_take() {
    let mut m = KeywordState::new();
    m.set_keyword("rust".to_string(), 1_000);
    assert!(m.has_keyword(1_000));
    assert_eq!(m.take_keyword(2_000), Some("rust".to_string()));
}

#[test]
fn marker_overwrite_keeps_only_latest() {
    let mut m = KeywordState::new();
    m.set_keyword("A".to_string(), 1_000);
    m.set_keyword("B".to_string(), 1_001);
    assert_eq!(m.take_keyword(1_002), Some("B".to_string()));
    assert_eq!(m.take_keyword(1_003), None);
}

#[test]
fn marker_expires_after_thirty_seconds() {
    let mut m = KeywordState::new();
    m.set_keyword("old".to_string(), 1_000);
    assert!(!m.has_keyword(31_001));
    assert_eq!(m.take_keyword(31_001), None);
    // The expired read cleared the state: a fresh clock reading finds nothing.
    assert!(!m.has_keyword(1_000));
    assert_eq!(m.take_keyword(1_000), None);
}

#[test]
fn marker_still_fresh_at_the_boundary() {
    let mut m = KeywordState::new();
    m.set_keyword("edge".to_string(), 1_000);
    assert!(m.has_keyword(31_000));
    assert_eq!(m.take_keyword(31_000), Some("edge".to_string()));
}

#[test]
fn marker_consume_once() {
    let mut m = KeywordState::new();
    m.set_keyword("once".to_string(), 5_000);
    assert_eq!(m.take_keyword(5_001), Some("once".to_string()));
    assert_eq!(m.take_keyword(5_002), None);
    assert!(!m.has_keyword(5_002));
}

#[test]
fn marker_near_the_largest_clock_value() {
    let mut m = KeywordState::new();
    m.set_keyword("late".to_string(), u64::MAX - 10);
    assert!(m.has_keyword(u64::MAX));
    assert_eq!(m.take_keyword(u64::MAX), Some("late".to_string()));
}

#[test]
fn marker_file_semantics() {
    assert_eq!(mcplink::poller::marker_file_pending(None), None);
    assert_eq!(mcplink::poller::marker_file_pending(Some("")), None);
    assert_eq!(
        mcplink::poller::marker_file_pending(Some("search-me")),
        Some("search-me".to_string())
    );
}

#[test]
fn retry_backoff_schedule() {
    assert_eq!(mcplink::poller::retry_delay_ms(1), Some(300));
    assert_eq!(mcplink::poller::retry_delay_ms(2), Some(600));
    assert_eq!(mcplink::poller::retry_delay_ms(4), Some(1200));
    assert_eq!(mcplink::poller::retry_delay_ms(5), None);
    assert_eq!(mcplink::poller::retry_delay_ms(0), None);
}
