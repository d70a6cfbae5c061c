use fogpub::email::{
    console_message, delivery, send_plan, email_backend, email_settings, sign_in_body, sign_in_subject,
    tls_mode, Delivery, EmailBackend, EmailEnv, TlsMode,
};

fn env(backend: Option<&str>, tls: Option<&str>, port: Option<&str>) -> EmailEnv {
    EmailEnv {
        from: Some("noreply@fogpub.example".to_string()),
        backend: backend.map(|s| s.to_string()),
        host: Some("smtp.example".to_string()),
        user: Some("user".to_string()),
        password: Some("secret".to_string()),
        port: port.map(|s| s.to_string()),
        tls: tls.map(|s| s.to_string()),
    }
}

#[test]
fn backend_selection() {
    assert_eq!(email_backend(Some("console")), EmailBackend::Console);
    assert_eq!(email_backend(Some("smtp")), EmailBackend::Smtp);
    assert_eq!(email_backend(Some("Console")), EmailBackend::Smtp);
    assert_eq!(email_backend(None), EmailBackend::Smtp);
}

#[test]
fn tls_selection() {
    assert_eq!(tls_mode("required"), TlsMode::Required);
    assert_eq!(tls_mode("starttls"), TlsMode::Required);
    assert_eq!(tls_mode("opportunistic"), TlsMode::Opportunistic);
    assert_eq!(tls_mode("none"), TlsMode::Disabled);
    assert_eq!(tls_mode("off"), TlsMode::Disabled);
    assert_eq!(tls_mode("whatever"), TlsMode::Required);
    assert_eq!(tls_mode(""), TlsMode::Required);
}

#[test]
fn settings_need_a_sender() {
    let mut e = env(Some("console"), None, None);
    e.from = None;
    assert!(email_settings(e).is_none());
}

#[test]
fn console_settings_need_nothing_else() {
    let mut e = env(Some("console"), None, None);
    e.host = None;
    let s = email_settings(e).unwrap();
    assert_eq!(s.from_address, "noreply@fogpub.example");
    assert_eq!(s.backend, EmailBackend::Console);
    assert!(s.smtp.is_none());
}

#[test]
fn smtp_settings_complete() {
    let s = email_settings(env(None, Some("opportunistic"), Some("2525"))).unwrap();
    assert_eq!(s.backend, EmailBackend::Smtp);
    let m = s.smtp.unwrap();
    assert_eq!(m.host, "smtp.example");
    assert_eq!(m.user, "user");
    assert_eq!(m.password, "secret");
    assert_eq!(m.port, 2525);
    assert_eq!(m.tls, TlsMode::Opportunistic);
}

#[test]
fn smtp_settings_missing_or_bad_values() {
    assert!(email_settings(env(None, None, Some("25"))).is_none());
    assert!(email_settings(env(None, Some("none"), None)).is_none());
    assert!(email_settings(env(None, Some("none"), Some("port"))).is_none());
    assert!(email_settings(env(None, Some("none"), Some("70000"))).is_none());
    let mut e = env(Some("smtp"), Some("none"), Some("25"));
    e.password = None;
    assert!(email_settings(e).is_none());
}

#[test]
fn sign_in_message_text() {
    assert_eq!(sign_in_subject("012345"), "012345 is your fogpub sign-in code");
    assert_eq!(
        sign_in_body("012345"),
        "Your 6-digit sign-in code is: 012345\n\nThis code will expire in 15 minutes."
    );
}

#[test]
fn console_message_text() {
    let text = console_message("a@x", "b@y", "Subj", "Body");
    let expected = "\n========== EMAIL ==========\nTo: a@x\nFrom: b@y\nSubject: Subj\nContent-Type: text/plain\n\n---------- BODY ----------\nBody\n===========================\n\n";
    assert_eq!(text, expected);
}

#[test]
fn delivery_routes() {
    assert_eq!(delivery(EmailBackend::Console, false), Delivery::Print);
    assert_eq!(delivery(EmailBackend::Console, true), Delivery::Print);
    assert_eq!(delivery(EmailBackend::Smtp, true), Delivery::Send);
    assert_eq!(delivery(EmailBackend::Smtp, false), Delivery::NoTransport);
}

#[test]
fn send_plan_checks_sender_then_recipient() {
    let r = send_plan("not an address", "also bad", EmailBackend::Console, false);
    assert_eq!(r.err().as_deref(), Some("Invalid from address"));
    let r = send_plan("noreply@fogpub.example", "also bad", EmailBackend::Console, false);
    assert_eq!(r.err().as_deref(), Some("Invalid to address"));
    let p = send_plan("Fogpub <noreply@fogpub.example>", "ada@example.com", EmailBackend::Smtp, false)
        .ok()
        .unwrap();
    assert_eq!(p.delivery, Delivery::NoTransport);
    assert_eq!(p.to.email.to_string(), "ada@example.com");
    let p = send_plan("noreply@fogpub.example", "ada@example.com", EmailBackend::Smtp, true).ok().unwrap();
    assert_eq!(p.delivery, Delivery::Send);
}
