//! The responses the handlers give, and the messages they show.
use vstd::prelude::*;
use axum::http::HeaderValue;
use crate::session::{
    build_session_cookie, clear_session_cookie, cleared_cookie_text, header_value_bytes,
    is_header_value_text, session_cookie_text, Session, SESSION_MAX_AGE_DAYS,
};
use vstd::utf8::encode_utf8;
use crate::templates::{IndexTemplate, LoginTemplate, ProfileTemplate, VerifyTemplate};
use crate::text::{lowercase, text_of, to_lowercase, trim, trimmed};

verus! {

/// A response: a page rendered from its template, or a redirect to the home page with the
/// `Set-Cookie` value it carries, if any.
pub enum Page {
    Index(IndexTemplate),
    Login(LoginTemplate),
    Verify(VerifyTemplate),
    Profile(ProfileTemplate),
    RedirectHome(Option<HeaderValue>),
}

/// The purpose that sign-in codes are issued for.
pub const SIGN_IN_PURPOSE: &'static str = "login";

/// The form of an e-mail address that the handlers work with: trimmed, then lower-cased.
pub open spec fn normalized_email(raw: Seq<char>) -> Seq<char> {
    lowercase(trimmed(raw))
}

/// Normalizes a submitted e-mail address (see `normalized_email`).
pub fn normalize_email(raw: &str) -> (email: String)
    ensures
        email@ == normalized_email(raw@),
{
    let t = trim(raw);
    to_lowercase(t.as_str())
}

pub open spec fn msg_invalid_email() -> Seq<char> {
    "Invalid email address"@
}

pub open spec fn msg_database_error() -> Seq<char> {
    "Database error"@
}

pub open spec fn msg_too_many_attempts() -> Seq<char> {
    "Too many attempts. Please wait before requesting another code."@
}

pub open spec fn msg_code_not_created() -> Seq<char> {
    "Failed to create sign-in code"@
}

pub open spec fn msg_email_not_sent() -> Seq<char> {
    "Unable to send verification email. Please try again later."@
}

pub open spec fn msg_invalid_code() -> Seq<char> {
    "Invalid or expired code"@
}

pub open spec fn msg_name_required() -> Seq<char> {
    "Name is required"@
}

/// The sign-in page showing `msg`.
pub open spec fn is_login_error(p: Page, msg: Seq<char>) -> bool {
    p matches Page::Login(t) && text_of(t.error) == Some(msg)
}

/// The code page for `email` and `purpose`, showing `error` if any.
pub open spec fn is_verify_page(p: Page, email: Seq<char>, purpose: Seq<char>, error: Option<Seq<char>>) -> bool {
    p matches Page::Verify(t) && t.email@ == email && t.purpose@ == purpose && text_of(t.error) == error
}

/// The profile page for `email`, showing `error` if any.
pub open spec fn is_profile_page(p: Page, email: Seq<char>, error: Option<Seq<char>>) -> bool {
    p matches Page::Profile(t) && t.email@ == email && text_of(t.error) == error
}

/// The redirect home that sets the session cookie for `token`, where that cookie is a valid
/// header value, and sets none otherwise.
pub open spec fn is_session_redirect(p: Page, token: Seq<char>) -> bool {
    &&& p matches Page::RedirectHome(c)
    &&& (c is Some <==> is_header_value_text(session_cookie_text(token)))
    &&& (c matches Some(v) ==> header_value_bytes(v) == encode_utf8(session_cookie_text(token)))
}

/// The sign-in page showing `msg`.
pub fn login_error(msg: &str) -> (p: Page)
    ensures
        is_login_error(p, msg@),
{
    Page::Login(LoginTemplate { error: Some(msg.to_owned()) })
}

/// The code page for `email` and `purpose`, showing `error` if any.
pub fn verify_page(email: &String, purpose: &String, error: Option<&str>) -> (p: Page)
    ensures
        is_verify_page(
            p,
            email@,
            purpose@,
            match error {
                Some(e) => Some(e@),
                None => None,
            },
        ),
{
    let error = match error {
        Some(e) => Some(e.to_owned()),
        None => None,
    };
    Page::Verify(VerifyTemplate { email: email.clone(), purpose: purpose.clone(), error })
}

/// The profile page for `email`, showing `error` if any.
pub fn profile_page(email: &String, error: Option<&str>) -> (p: Page)
    ensures
        is_profile_page(
            p,
            email@,
            match error {
                Some(e) => Some(e@),
                None => None,
            },
        ),
{
    let error = match error {
        Some(e) => Some(e.to_owned()),
        None => None,
    };
    Page::Profile(ProfileTemplate { email: email.clone(), error })
}

/// The redirect home after a session was opened with `token`.
pub fn session_redirect(token: &String) -> (p: Page)
    ensures
        is_session_redirect(p, token@),
{
    Page::RedirectHome(build_session_cookie(token.as_str()))
}

/// A session to open: for whom, with which token, for how many days.
pub struct NewSession {
    pub user_id: i64,
    pub token: String,
    pub max_age_days: i64,
}

/// The session to open for `user_id` with `token`, for `SESSION_MAX_AGE_DAYS` days.
pub open spec fn is_new_session(s: NewSession, user_id: i64, token: Seq<char>) -> bool {
    s.user_id == user_id && s.token@ == token && s.max_age_days == SESSION_MAX_AGE_DAYS
}

/// Index page data for a visitor.
pub fn index_page(session: Session) -> (t: IndexTemplate)
    ensures
        t.logged_in == session.user_id.is_some(),
        t.name == session.user_name,
{
    let logged_in = session.is_authenticated();
    IndexTemplate { logged_in, name: session.user_name }
}

/// The sign-in page as first shown.
pub fn login_page() -> (t: LoginTemplate)
    ensures
        t.error is None,
{
    LoginTemplate { error: None }
}

/// The profile page as first shown to a visitor: for the visitor's address, if known.
pub fn profile_form(session: Session) -> (t: ProfileTemplate)
    ensures
        t.email@ == match session.email {
            Some(e) => e@,
            None => Seq::<char>::empty(),
        },
        t.error is None,
{
    let email = match session.email {
        Some(e) => e,
        None => String::new(),
    };
    ProfileTemplate { email, error: None }
}

/// The token of the session that logging out ends, if the visitor has one.
pub fn logout_token(session: Session) -> (t: Option<String>)
    ensures
        t == session.token,
{
    session.token
}

/// The response to logging out: a redirect home that clears the session cookie.
pub fn logout_page() -> (p: Page)
    ensures
        p matches Page::RedirectHome(Some(v)) && header_value_bytes(v) == encode_utf8(
            cleared_cookie_text(),
        ),
{
    Page::RedirectHome(Some(clear_session_cookie()))
}

} // verus!
