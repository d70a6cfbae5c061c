use fogpub::handlers::{
    login_start, login_step, register_start, register_step, verify_start, verify_step,
    LoginAction, LoginEvent, LoginFlow, RegisterAction, RegisterEvent, RegisterFlow,
    VerifyAction, VerifyEvent, VerifyFlow,
};
use fogpub::models::{EmailForm, NameForm, VerifyForm};
use fogpub::pages::{index_page, login_page, logout_page, logout_token, Page};
use fogpub::session::{extract_session_token, Session, SESSION_MAX_AGE_DAYS};

fn login_error_of(a: &LoginAction) -> Option<String> {
    match a {
        LoginAction::Respond(Page::Login(t)) => t.error.clone(),
        _ => panic!("expected the sign-in page"),
    }
}

fn start_login(email: &str, configured: bool) -> (LoginFlow, LoginAction) {
    login_start(&EmailForm { email: email.to_string() }, configured)
}

fn assert_code_prompt(a: &LoginAction, email: &str) {
    match a {
        LoginAction::Respond(Page::Verify(t)) => {
            assert_eq!(t.email, email);
            assert_eq!(t.purpose, "login");
            assert_eq!(t.error, None);
        }
        _ => panic!("expected the code page"),
    }
}

#[test]
fn login_refuses_address_without_at() {
    let (f, a) = start_login("  nobody  ", true);
    assert!(matches!(f, LoginFlow::Done));
    assert_eq!(login_error_of(&a).as_deref(), Some("Invalid email address"));
}

#[test]
fn login_checks_rate_limit_of_normalized_address() {
    let (f, a) = start_login("  Ada@Example.com ", true);
    assert!(f.awaits(&LoginEvent::RateLimitChecked(Ok(true))));
    assert!(!f.awaits(&LoginEvent::TokenCreated(Ok(()))));
    match a {
        LoginAction::CheckRateLimit { email } => assert_eq!(email, "ada@example.com"),
        _ => panic!("expected a rate limit check"),
    }
}

#[test]
fn login_rate_limit_outcomes() {
    let (f, _) = start_login("ada@example.com", true);
    let (f2, a) = login_step(f, LoginEvent::RateLimitChecked(Err(())));
    assert!(matches!(f2, LoginFlow::Done));
    assert_eq!(login_error_of(&a).as_deref(), Some("Database error"));

    let (f, _) = start_login("ada@example.com", true);
    let (f2, a) = login_step(f, LoginEvent::RateLimitChecked(Ok(false)));
    assert!(matches!(f2, LoginFlow::Done));
    assert_eq!(
        login_error_of(&a).as_deref(),
        Some("Too many attempts. Please wait before requesting another code.")
    );
}

#[test]
fn login_full_run_with_mail() {
    let (f, _) = start_login("ada@example.com", true);
    let (f, a) = login_step(f, LoginEvent::RateLimitChecked(Ok(true)));
    let code = match &a {
        LoginAction::CreateToken { email, code, purpose } => {
            assert_eq!(email, "ada@example.com");
            assert_eq!(purpose, "login");
            assert_eq!(code.len(), 6);
            assert!(code.chars().all(|c| c.is_ascii_digit()));
            code.clone()
        }
        _ => panic!("expected the code to be kept"),
    };
    let (f, a) = login_step(f, LoginEvent::TokenCreated(Ok(())));
    match &a {
        LoginAction::SendCode { email, code: c } => {
            assert_eq!(email, "ada@example.com");
            assert_eq!(c, &code);
        }
        _ => panic!("expected the code to be mailed"),
    }
    let (f, a) = login_step(f, LoginEvent::CodeSent(Ok(())));
    assert!(matches!(f, LoginFlow::Done));
    assert_code_prompt(&a, "ada@example.com");
}

#[test]
fn login_without_mail_service_shows_code_page() {
    let (f, _) = start_login("ada@example.com", false);
    let (f, _) = login_step(f, LoginEvent::RateLimitChecked(Ok(true)));
    let (f, a) = login_step(f, LoginEvent::TokenCreated(Ok(())));
    assert!(matches!(f, LoginFlow::Done));
    assert_code_prompt(&a, "ada@example.com");
}

#[test]
fn login_store_or_mail_failure() {
    let (f, _) = start_login("ada@example.com", true);
    let (f, _) = login_step(f, LoginEvent::RateLimitChecked(Ok(true)));
    let (_, a) = login_step(f, LoginEvent::TokenCreated(Err(())));
    assert_eq!(login_error_of(&a).as_deref(), Some("Failed to create sign-in code"));

    let (f, _) = start_login("ada@example.com", true);
    let (f, _) = login_step(f, LoginEvent::RateLimitChecked(Ok(true)));
    let (f, _) = login_step(f, LoginEvent::TokenCreated(Ok(())));
    let (_, a) = login_step(f, LoginEvent::CodeSent(Err("smtp down".to_string())));
    assert_eq!(
        login_error_of(&a).as_deref(),
        Some("Unable to send verification email. Please try again later.")
    );
}

fn verify_form() -> VerifyForm {
    VerifyForm {
        email: " Ada@Example.com".to_string(),
        code: " 123456 \n".to_string(),
        purpose: "login".to_string(),
    }
}

fn verify_error_of(a: &VerifyAction) -> Option<String> {
    match a {
        VerifyAction::Respond(Page::Verify(t)) => {
            assert_eq!(t.email, "ada@example.com");
            assert_eq!(t.purpose, "login");
            t.error.clone()
        }
        _ => panic!("expected the code page"),
    }
}

#[test]
fn verify_checks_trimmed_code() {
    let (f, a) = verify_start(&verify_form());
    assert!(f.awaits(&VerifyEvent::TokenChecked(Ok(true))));
    match a {
        VerifyAction::ValidateToken { email, code } => {
            assert_eq!(email, "ada@example.com");
            assert_eq!(code, "123456");
        }
        _ => panic!("expected a code check"),
    }
}

#[test]
fn verify_rejects_bad_code_and_store_errors() {
    let (f, _) = verify_start(&verify_form());
    let (f2, a) = verify_step(f, VerifyEvent::TokenChecked(Ok(false)));
    assert!(matches!(f2, VerifyFlow::Done));
    assert_eq!(verify_error_of(&a).as_deref(), Some("Invalid or expired code"));

    let (f, _) = verify_start(&verify_form());
    let (_, a) = verify_step(f, VerifyEvent::TokenChecked(Err(())));
    assert_eq!(verify_error_of(&a).as_deref(), Some("Database error"));

    let (f, _) = verify_start(&verify_form());
    let (f, _) = verify_step(f, VerifyEvent::TokenChecked(Ok(true)));
    let (_, a) = verify_step(f, VerifyEvent::NameChecked(Err(())));
    assert_eq!(verify_error_of(&a).as_deref(), Some("Database error"));
}

#[test]
fn verify_new_or_nameless_user_goes_to_profile() {
    // The store answers `true` for an address without a user row, and for a user without a name.
    let (f, _) = verify_start(&verify_form());
    let (f, a) = verify_step(f, VerifyEvent::TokenChecked(Ok(true)));
    assert!(matches!(a, VerifyAction::CheckNeedsName { ref email } if email == "ada@example.com"));
    let (f, a) = verify_step(f, VerifyEvent::NameChecked(Ok(true)));
    assert!(matches!(f, VerifyFlow::Done));
    match a {
        VerifyAction::Respond(Page::Profile(t)) => {
            assert_eq!(t.email, "ada@example.com");
            assert_eq!(t.error, None);
        }
        _ => panic!("expected the profile page"),
    }
}

#[test]
fn verify_signs_in_known_user() {
    let (f, _) = verify_start(&verify_form());
    let (f, _) = verify_step(f, VerifyEvent::TokenChecked(Ok(true)));
    let (f, a) = verify_step(f, VerifyEvent::NameChecked(Ok(false)));
    assert!(matches!(a, VerifyAction::GetUser { ref email } if email == "ada@example.com"));
    let (f, a) = verify_step(f, VerifyEvent::UserLoaded(Ok(Some((9, Some("Ada".to_string()))))));
    let token = match &a {
        VerifyAction::CreateSession(s) => {
            assert_eq!(s.user_id, 9);
            assert_eq!(s.max_age_days, SESSION_MAX_AGE_DAYS);
            assert_eq!(s.token.len(), 32);
            s.token.clone()
        }
        _ => panic!("expected a session to be opened"),
    };
    let (f, a) = verify_step(f, VerifyEvent::SessionCreated(Ok(())));
    assert!(matches!(f, VerifyFlow::Done));
    match a {
        VerifyAction::Respond(Page::RedirectHome(Some(cookie))) => {
            let text = cookie.to_str().unwrap();
            assert_eq!(text, format!("session_token={}; HttpOnly; Path=/; SameSite=Lax; Max-Age=63072000", token));
            assert_eq!(extract_session_token(Some(text)).as_deref(), Some(token.as_str()));
        }
        _ => panic!("expected a redirect with the session cookie"),
    }
}

#[test]
fn verify_missing_user_or_session_failure() {
    let (f, _) = verify_start(&verify_form());
    let (f, _) = verify_step(f, VerifyEvent::TokenChecked(Ok(true)));
    let (f, _) = verify_step(f, VerifyEvent::NameChecked(Ok(false)));
    let (_, a) = verify_step(f, VerifyEvent::UserLoaded(Ok(None)));
    assert_eq!(verify_error_of(&a).as_deref(), Some("Database error"));

    let (f, _) = verify_start(&verify_form());
    let (f, _) = verify_step(f, VerifyEvent::TokenChecked(Ok(true)));
    let (f, _) = verify_step(f, VerifyEvent::NameChecked(Ok(false)));
    let (f, _) = verify_step(f, VerifyEvent::UserLoaded(Ok(Some((9, None)))));
    let (_, a) = verify_step(f, VerifyEvent::SessionCreated(Err(())));
    assert_eq!(verify_error_of(&a).as_deref(), Some("Database error"));
}

fn name_form(name: &str) -> NameForm {
    NameForm { email: "Ada@Example.com ".to_string(), name: name.to_string() }
}

fn profile_error_of(a: &RegisterAction) -> Option<String> {
    match a {
        RegisterAction::Respond(Page::Profile(t)) => {
            assert_eq!(t.email, "ada@example.com");
            t.error.clone()
        }
        _ => panic!("expected the profile page"),
    }
}

#[test]
fn register_requires_a_name() {
    let (f, a) = register_start(&name_form("   "));
    assert!(matches!(f, RegisterFlow::Done));
    assert_eq!(profile_error_of(&a).as_deref(), Some("Name is required"));
}

#[test]
fn register_new_user() {
    let (f, a) = register_start(&name_form("  Ada Lovelace "));
    assert!(matches!(a, RegisterAction::CheckUserExists { ref email } if email == "ada@example.com"));
    let (f, a) = register_step(f, RegisterEvent::UserExists(Ok(false)));
    match &a {
        RegisterAction::CreateUser { email, name } => {
            assert_eq!(email, "ada@example.com");
            assert_eq!(name, "Ada Lovelace");
        }
        _ => panic!("expected the user to be created"),
    }
    let (f, a) = register_step(f, RegisterEvent::UserCreated(Ok(12)));
    let token = match &a {
        RegisterAction::CreateSession(s) => {
            assert_eq!(s.user_id, 12);
            s.token.clone()
        }
        _ => panic!("expected a session"),
    };
    let (f, a) = register_step(f, RegisterEvent::SessionCreated(Ok(())));
    assert!(matches!(f, RegisterFlow::Done));
    match a {
        RegisterAction::Respond(Page::RedirectHome(Some(cookie))) => assert_eq!(
            cookie.to_str().unwrap(),
            format!("session_token={}; HttpOnly; Path=/; SameSite=Lax; Max-Age=63072000", token)
        ),
        _ => panic!("expected a redirect with the session cookie"),
    }
}

#[test]
fn register_existing_user() {
    let (f, _) = register_start(&name_form("Ada"));
    let (f, a) = register_step(f, RegisterEvent::UserExists(Ok(true)));
    match &a {
        RegisterAction::UpdateName { email, name } => {
            assert_eq!(email, "ada@example.com");
            assert_eq!(name, "Ada");
        }
        _ => panic!("expected the name to be set"),
    }
    let (f, a) = register_step(f, RegisterEvent::NameUpdated(Ok(())));
    assert!(matches!(a, RegisterAction::GetUserId { ref email } if email == "ada@example.com"));
    let (f, a) = register_step(f, RegisterEvent::UserIdLoaded(Ok(Some(5))));
    match &a {
        RegisterAction::CreateSession(s) => {
            assert_eq!(s.user_id, 5);
            assert_eq!(s.max_age_days, 730);
        }
        _ => panic!("expected a session"),
    }
    let (_, a) = register_step(f, RegisterEvent::SessionCreated(Err(())));
    assert_eq!(profile_error_of(&a).as_deref(), Some("Database error"));
}

#[test]
fn register_store_failures() {
    let (f, _) = register_start(&name_form("Ada"));
    let (_, a) = register_step(f, RegisterEvent::UserExists(Err(())));
    assert_eq!(profile_error_of(&a).as_deref(), Some("Database error"));

    let (f, _) = register_start(&name_form("Ada"));
    let (f, _) = register_step(f, RegisterEvent::UserExists(Ok(true)));
    let (_, a) = register_step(f, RegisterEvent::NameUpdated(Err(())));
    assert_eq!(profile_error_of(&a).as_deref(), Some("Database error"));

    let (f, _) = register_start(&name_form("Ada"));
    let (f, _) = register_step(f, RegisterEvent::UserExists(Ok(true)));
    let (f, _) = register_step(f, RegisterEvent::NameUpdated(Ok(())));
    let (_, a) = register_step(f, RegisterEvent::UserIdLoaded(Ok(None)));
    assert_eq!(profile_error_of(&a).as_deref(), Some("Database error"));

    let (f, _) = register_start(&name_form("Ada"));
    let (f, _) = register_step(f, RegisterEvent::UserExists(Ok(false)));
    let (_, a) = register_step(f, RegisterEvent::UserCreated(Err(())));
    assert_eq!(profile_error_of(&a).as_deref(), Some("Database error"));
}

#[test]
fn index_page_reflects_session() {
    let t = index_page(Session::anonymous());
    assert!(!t.logged_in);
    assert_eq!(t.name, None);
    let s = Session::from_lookup("tok".to_string(), Ok(Some((1, Some("Ada".to_string()), "a@b".to_string()))));
    let t = index_page(s);
    assert!(t.logged_in);
    assert_eq!(t.name.as_deref(), Some("Ada"));
}

#[test]
fn login_page_has_no_error() {
    assert_eq!(login_page().error, None);
}

#[test]
fn logout_clears_cookie_and_names_token() {
    match logout_page() {
        Page::RedirectHome(Some(c)) => assert_eq!(
            c.to_str().unwrap(),
            "session_token=; Max-Age=0; Path=/; HttpOnly; SameSite=Lax"
        ),
        _ => panic!("expected a redirect that clears the cookie"),
    }
    let s = Session::from_lookup("tok".to_string(), Ok(Some((1, None, "a@b".to_string()))));
    assert_eq!(logout_token(s).as_deref(), Some("tok"));
    assert_eq!(logout_token(Session::anonymous()), None);
}

#[test]
fn verify_pages_ignore_submitted_purpose() {
    let form = VerifyForm {
        email: "ada@example.com".to_string(),
        code: "1".to_string(),
        purpose: "something else".to_string(),
    };
    let (f, _) = verify_start(&form);
    let (_, a) = verify_step(f, VerifyEvent::TokenChecked(Ok(false)));
    assert_eq!(verify_error_of(&a).as_deref(), Some("Invalid or expired code"));
}
