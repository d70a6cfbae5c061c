use fogpub::database::{
    needs_name, rate_limit_window_start, session_expires_at, token_expires_at,
    within_rate_limit, Timestamp, RATE_LIMIT_COUNT,
};

#[test]
fn rate_limit_allows_three_codes() {
    assert!(within_rate_limit(0));
    assert!(within_rate_limit(2));
    assert!(!within_rate_limit(3));
    assert!(!within_rate_limit(10));
    assert_eq!(RATE_LIMIT_COUNT, 3);
}

#[test]
fn time_windows() {
    let now = Timestamp { secs: 1_700_000_000, nanos: 123 };
    assert_eq!(rate_limit_window_start(now), Timestamp { secs: 1_699_996_400, nanos: 123 });
    assert_eq!(token_expires_at(now), Timestamp { secs: 1_700_000_900, nanos: 123 });
    assert_eq!(session_expires_at(now, 730), Timestamp { secs: 1_763_072_000, nanos: 123 });
    assert_eq!(session_expires_at(now, -1), Timestamp { secs: 1_699_913_600, nanos: 123 });
}

#[test]
fn needs_name_for_new_or_nameless_user() {
    assert!(needs_name(Some(None)));
    assert!(needs_name(None));
    assert!(!needs_name(Some(Some("Ada".to_string()))));
}
