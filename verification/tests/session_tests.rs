use fogpub::session::{
    session_source, token_from_draws, SessionSource,
    build_session_cookie, clear_session_cookie, extract_session_token, generate_session_token,
    session_cookie, Session, SESSION_MAX_AGE_DAYS, TOKEN_CHARSET, TOKEN_LEN,
};

fn signed_in() -> Session {
    Session {
        user_id: Some(7),
        user_name: Some("Ada".to_string()),
        email: Some("ada@example.com".to_string()),
        token: Some("tok".to_string()),
    }
}

#[test]
fn authenticated_exactly_with_user_id() {
    assert!(signed_in().is_authenticated());
    assert!(!Session::anonymous().is_authenticated());
    let mut s = signed_in();
    s.user_id = None;
    assert!(!s.is_authenticated());
}

#[test]
fn anonymous_session_is_empty() {
    let s = Session::anonymous();
    assert_eq!(s.user_id, None);
    assert_eq!(s.user_name, None);
    assert_eq!(s.email, None);
    assert_eq!(s.token, None);
}

#[test]
fn lookup_found_gives_signed_in_session() {
    let s = Session::from_lookup(
        "abc".to_string(),
        Ok(Some((3, Some("Bo".to_string()), "bo@example.com".to_string()))),
    );
    assert_eq!(s.user_id, Some(3));
    assert_eq!(s.user_name.as_deref(), Some("Bo"));
    assert_eq!(s.email.as_deref(), Some("bo@example.com"));
    assert_eq!(s.token.as_deref(), Some("abc"));
}

#[test]
fn lookup_found_without_name_keeps_no_name() {
    let s = Session::from_lookup("abc".to_string(), Ok(Some((3, None, "bo@example.com".to_string()))));
    assert!(s.is_authenticated());
    assert_eq!(s.user_name, None);
}

#[test]
fn lookup_missing_or_failed_is_anonymous() {
    let s = Session::from_lookup("abc".to_string(), Ok(None));
    assert!(!s.is_authenticated());
    assert_eq!(s.token, None);
    let s = Session::from_lookup("abc".to_string(), Err(()));
    assert!(!s.is_authenticated());
    assert_eq!(s.email, None);
}

#[test]
fn session_token_has_length_and_charset() {
    for _ in 0..20 {
        let t = generate_session_token();
        assert_eq!(t.chars().count(), TOKEN_LEN);
        assert_eq!(t.len(), 32);
        assert!(t.chars().all(|c| TOKEN_CHARSET.contains(c)));
    }
}

#[test]
fn session_tokens_differ() {
    let a = generate_session_token();
    let b = generate_session_token();
    assert_ne!(a, b);
}

#[test]
fn extract_token_alone() {
    assert_eq!(extract_session_token(Some("session_token=abc123")).as_deref(), Some("abc123"));
}

#[test]
fn extract_token_among_other_cookies() {
    assert_eq!(
        extract_session_token(Some("theme=dark; session_token=xyz; lang=en")).as_deref(),
        Some("xyz")
    );
}

#[test]
fn extract_token_trims_pieces() {
    assert_eq!(extract_session_token(Some("a=b;   session_token=xyz  ;c=d")).as_deref(), Some("xyz"));
}

#[test]
fn extract_token_first_wins() {
    assert_eq!(
        extract_session_token(Some("session_token=one; session_token=two")).as_deref(),
        Some("one")
    );
}

#[test]
fn extract_token_absent() {
    assert_eq!(extract_session_token(None), None);
    assert_eq!(extract_session_token(Some("")), None);
    assert_eq!(extract_session_token(Some("theme=dark; lang=en")), None);
    assert_eq!(extract_session_token(Some("my_session_token=abc")), None);
    assert_eq!(extract_session_token(Some("session_token")), None);
}

#[test]
fn extract_empty_token() {
    assert_eq!(extract_session_token(Some("session_token=")).as_deref(), Some(""));
}

#[test]
fn extract_keeps_rest_of_piece() {
    assert_eq!(extract_session_token(Some("session_token=a=b c")).as_deref(), Some("a=b c"));
}

#[test]
fn session_cookie_text_exact() {
    assert_eq!(
        session_cookie("tok"),
        "session_token=tok; HttpOnly; Path=/; SameSite=Lax; Max-Age=63072000"
    );
    assert_eq!(SESSION_MAX_AGE_DAYS * 24 * 60 * 60, 63072000);
}

#[test]
fn build_session_cookie_for_token() {
    let v = build_session_cookie("tok").expect("a valid header value");
    assert_eq!(
        v.to_str().unwrap(),
        "session_token=tok; HttpOnly; Path=/; SameSite=Lax; Max-Age=63072000"
    );
}

#[test]
fn build_session_cookie_refuses_control_characters() {
    assert!(build_session_cookie("a\nb").is_none());
    assert!(build_session_cookie("a\u{7f}b").is_none());
    assert!(build_session_cookie("a\tb").is_some());
    assert!(build_session_cookie("caf\u{e9}").is_some());
}

#[test]
fn cookie_round_trip_for_generated_token() {
    let t = generate_session_token();
    let v = build_session_cookie(&t).expect("generated tokens make valid cookies");
    let text = v.to_str().unwrap();
    assert_eq!(extract_session_token(Some(text)).as_deref(), Some(t.as_str()));
    let sent_back = format!("session_token={}", t);
    assert_eq!(extract_session_token(Some(&sent_back)).as_deref(), Some(t.as_str()));
}

#[test]
fn clear_cookie_text() {
    assert_eq!(
        clear_session_cookie().to_str().unwrap(),
        "session_token=; Max-Age=0; Path=/; HttpOnly; SameSite=Lax"
    );
}

#[test]
fn token_from_draws_picks_charset_characters() {
    assert_eq!(token_from_draws(&vec![0; 32]), "A".repeat(32));
    let d: Vec<usize> = (0..32).collect();
    assert_eq!(token_from_draws(&d), "ABCDEFGHIJKLMNOPQRSTUVWXYZabcdef");
    let d: Vec<usize> = (32..64).collect();
    assert_eq!(token_from_draws(&d), "ghijklmnopqrstuvwxyz0123456789_-");
}

#[test]
fn session_source_by_cookie() {
    match session_source(Some("a=b; session_token=tok")) {
        SessionSource::Lookup(t) => assert_eq!(t, "tok"),
        _ => panic!("expected a lookup"),
    }
    match session_source(Some("a=b")) {
        SessionSource::Anonymous(s) => assert!(!s.is_authenticated()),
        _ => panic!("expected no lookup"),
    }
    assert!(matches!(session_source(None), SessionSource::Anonymous(_)));
}
