//! The decisions of the sign-in, code check and name registration requests.
//!
//! Each request is a small state machine: `*_start` takes the submitted form and gives the
//! first state and the first action; `*_step` takes the state and the outcome of the action
//! that was asked for, and gives the next state and action. The caller performs the store
//! and mail actions and feeds their outcomes back until the action is `Respond`.
use vstd::prelude::*;
use crate::models::{EmailForm, NameForm, VerifyForm};
use crate::pages::{
    is_login_error, is_new_session, is_profile_page, is_session_redirect, is_verify_page,
    login_error, msg_code_not_created, msg_database_error, msg_email_not_sent, msg_invalid_code,
    msg_invalid_email, msg_name_required, msg_too_many_attempts, normalize_email,
    normalized_email, profile_page, session_redirect, verify_page, NewSession, Page,
    SIGN_IN_PURPOSE,
};
use crate::services::{generate_code, is_sign_in_code};
use crate::session::{
    generate_session_token, header_value_bytes, is_session_token,
    lemma_session_cookie_is_header_value, lemma_session_cookie_round_trip, session_cookie_text,
    session_token_in, SESSION_MAX_AGE_DAYS,
};
use vstd::utf8::encode_utf8;
use crate::text::{
    contains_char, is_trim_of, is_white_space, lemma_trimmed_is_trim, text_of, trim, trimmed,
};

verus! {

// ---------------------------------------------------------------------------------------
// Sign-in: ask for a code by e-mail.
// ---------------------------------------------------------------------------------------

/// Where a sign-in request stands.
pub enum LoginFlow {
    /// Waiting for whether `email` may have another code.
    CheckingRateLimit { email: String, email_configured: bool },
    /// Waiting for the store to keep `code` for `email`.
    SavingCode { email: String, code: String, email_configured: bool },
    /// Waiting for the message with `code` to reach `email`.
    SendingCode { email: String, code: String },
    /// The response has been given.
    Done,
}

/// What a sign-in request asks for next.
pub enum LoginAction {
    /// Whether `email` is within the rate limit.
    CheckRateLimit { email: String },
    /// Keep `code`, issued for `purpose`, for `email`.
    CreateToken { email: String, code: String, purpose: String },
    /// Send `code` to `email`.
    SendCode { email: String, code: String },
    /// Answer the request.
    Respond(Page),
}

/// The outcome of a sign-in action; `Err(())` is a failure of the store.
pub enum LoginEvent {
    RateLimitChecked(Result<bool, ()>),
    TokenCreated(Result<(), ()>),
    CodeSent(Result<(), String>),
}

/// Whether `flow` waits for an outcome of the kind of `event`.
pub open spec fn login_awaits(flow: LoginFlow, event: LoginEvent) -> bool {
    match flow {
        LoginFlow::CheckingRateLimit { .. } => event is RateLimitChecked,
        LoginFlow::SavingCode { .. } => event is TokenCreated,
        LoginFlow::SendingCode { .. } => event is CodeSent,
        LoginFlow::Done => false,
    }
}

/// The request is answered with `page`.
pub open spec fn login_responds(next: LoginFlow, action: LoginAction, page: spec_fn(Page) -> bool) -> bool {
    &&& next is Done
    &&& action matches LoginAction::Respond(p) && page(p)
}

/// The sign-in code page for `email`.
pub open spec fn is_code_prompt(p: Page, email: Seq<char>) -> bool {
    is_verify_page(p, email, SIGN_IN_PURPOSE@, None)
}

/// How a sign-in request begins for `form`: an address without `@` is refused; otherwise
/// the rate limit of the normalized address is checked.
pub open spec fn login_begins(form: EmailForm, email_configured: bool, next: LoginFlow, action: LoginAction) -> bool {
    let email = normalized_email(form.email@);
    if email.contains('@') {
        &&& next matches LoginFlow::CheckingRateLimit { email: e, email_configured: c }
        &&& e@ == email && c == email_configured
        &&& action matches LoginAction::CheckRateLimit { email: a } && a@ == email
    } else {
        login_responds(next, action, |p: Page| is_login_error(p, msg_invalid_email()))
    }
}

/// One step of a sign-in request.
pub open spec fn login_transition(flow: LoginFlow, event: LoginEvent, next: LoginFlow, action: LoginAction) -> bool {
    match (flow, event) {
        (LoginFlow::CheckingRateLimit { email, email_configured }, LoginEvent::RateLimitChecked(r)) => match r {
            Err(_) => login_responds(next, action, |p: Page| is_login_error(p, msg_database_error())),
            Ok(false) => login_responds(next, action, |p: Page| is_login_error(p, msg_too_many_attempts())),
            Ok(true) => {
                &&& next matches LoginFlow::SavingCode { email: e, code, email_configured: c }
                &&& e@ == email@ && c == email_configured && is_sign_in_code(code@)
                &&& action matches LoginAction::CreateToken { email: ae, code: ac, purpose }
                &&& ae@ == email@ && ac@ == code@ && purpose@ == SIGN_IN_PURPOSE@
            },
        },
        (LoginFlow::SavingCode { email, code, email_configured }, LoginEvent::TokenCreated(r)) => match r {
            Err(_) => login_responds(next, action, |p: Page| is_login_error(p, msg_code_not_created())),
            Ok(_) => if email_configured {
                &&& next matches LoginFlow::SendingCode { email: e, code: c }
                &&& e@ == email@ && c@ == code@
                &&& action matches LoginAction::SendCode { email: ae, code: ac }
                &&& ae@ == email@ && ac@ == code@
            } else {
                login_responds(next, action, |p: Page| is_code_prompt(p, email@))
            },
        },
        (LoginFlow::SendingCode { email, code }, LoginEvent::CodeSent(r)) => match r {
            Ok(_) => login_responds(next, action, |p: Page| is_code_prompt(p, email@)),
            Err(_) => login_responds(next, action, |p: Page| is_login_error(p, msg_email_not_sent())),
        },
        _ => false,
    }
}

impl LoginFlow {
    /// Whether the flow waits for an outcome of the kind of `event`.
    pub fn awaits(&self, event: &LoginEvent) -> (r: bool)
        ensures
            r == login_awaits(*self, *event),
    {
        match (self, event) {
            (LoginFlow::CheckingRateLimit { .. }, LoginEvent::RateLimitChecked(_)) => true,
            (LoginFlow::SavingCode { .. }, LoginEvent::TokenCreated(_)) => true,
            (LoginFlow::SendingCode { .. }, LoginEvent::CodeSent(_)) => true,
            _ => false,
        }
    }
}

/// Begins a sign-in request for `form` (see `login_begins`); `email_configured` says whether
/// an e-mail service is set up.
pub fn login_start(form: &EmailForm, email_configured: bool) -> (r: (LoginFlow, LoginAction))
    ensures
        login_begins(*form, email_configured, r.0, r.1),
{
    let email = normalize_email(form.email.as_str());
    if !contains_char(email.as_str(), '@') {
        return (LoginFlow::Done, LoginAction::Respond(login_error("Invalid email address")));
    }
    let action = LoginAction::CheckRateLimit { email: email.clone() };
    (LoginFlow::CheckingRateLimit { email, email_configured }, action)
}

/// Takes a sign-in request one step on with the outcome of the action it asked for.
pub fn login_step(flow: LoginFlow, event: LoginEvent) -> (r: (LoginFlow, LoginAction))
    requires
        login_awaits(flow, event),
    ensures
        login_transition(flow, event, r.0, r.1),
{
    match (flow, event) {
        (LoginFlow::CheckingRateLimit { email, email_configured }, LoginEvent::RateLimitChecked(r)) => match r {
            Err(_) => (LoginFlow::Done, LoginAction::Respond(login_error("Database error"))),
            Ok(false) => (
                LoginFlow::Done,
                LoginAction::Respond(
                    login_error("Too many attempts. Please wait before requesting another code."),
                ),
            ),
            Ok(true) => {
                let code = generate_code();
                let action = LoginAction::CreateToken {
                    email: email.clone(),
                    code: code.clone(),
                    purpose: SIGN_IN_PURPOSE.to_owned(),
                };
                (LoginFlow::SavingCode { email, code, email_configured }, action)
            },
        },
        (LoginFlow::SavingCode { email, code, email_configured }, LoginEvent::TokenCreated(r)) => match r {
            Err(_) => (LoginFlow::Done, LoginAction::Respond(login_error("Failed to create sign-in code"))),
            Ok(_) => if email_configured {
                let action = LoginAction::SendCode { email: email.clone(), code: code.clone() };
                (LoginFlow::SendingCode { email, code }, action)
            } else {
                let purpose = SIGN_IN_PURPOSE.to_owned();
                (LoginFlow::Done, LoginAction::Respond(verify_page(&email, &purpose, None)))
            },
        },
        (LoginFlow::SendingCode { email, code }, LoginEvent::CodeSent(r)) => match r {
            Ok(_) => {
                let purpose = SIGN_IN_PURPOSE.to_owned();
                (LoginFlow::Done, LoginAction::Respond(verify_page(&email, &purpose, None)))
            },
            Err(_) => (
                LoginFlow::Done,
                LoginAction::Respond(
                    login_error("Unable to send verification email. Please try again later."),
                ),
            ),
        },
        _ => {
            assert(false);
            (LoginFlow::Done, LoginAction::Respond(login_error("Database error")))
        },
    }
}

// ---------------------------------------------------------------------------------------
// Code check: sign in with the code from the message.
// ---------------------------------------------------------------------------------------

/// Where a code check stands. Its pages are for codes issued for `SIGN_IN_PURPOSE`.
pub enum VerifyFlow {
    /// Waiting for whether the code is valid for `email`; the store uses it up if so.
    CheckingCode { email: String },
    /// Waiting for whether the owner of `email` still has to set a name.
    CheckingName { email: String },
    /// Waiting for the user of `email`.
    LoadingUser { email: String },
    /// Waiting for the store to open a session with `token`.
    OpeningSession { email: String, token: String },
    /// The response has been given.
    Done,
}

/// What a code check asks for next.
pub enum VerifyAction {
    /// Check `code` for `email`, and use it up if it is valid.
    ValidateToken { email: String, code: String },
    /// Whether the owner of `email` still has to set a name: a new address, or a user
    /// without one.
    CheckNeedsName { email: String },
    /// The id and name of the user of `email`.
    GetUser { email: String },
    /// Open a session.
    CreateSession(NewSession),
    /// Answer the request.
    Respond(Page),
}

/// The outcome of a code check action; `Err(())` is a failure of the store.
pub enum VerifyEvent {
    TokenChecked(Result<bool, ()>),
    NameChecked(Result<bool, ()>),
    UserLoaded(Result<Option<(i64, Option<String>)>, ()>),
    SessionCreated(Result<(), ()>),
}

/// Whether `flow` waits for an outcome of the kind of `event`.
pub open spec fn verify_awaits(flow: VerifyFlow, event: VerifyEvent) -> bool {
    match flow {
        VerifyFlow::CheckingCode { .. } => event is TokenChecked,
        VerifyFlow::CheckingName { .. } => event is NameChecked,
        VerifyFlow::LoadingUser { .. } => event is UserLoaded,
        VerifyFlow::OpeningSession { .. } => event is SessionCreated,
        VerifyFlow::Done => false,
    }
}

/// The request is answered with a page that `page` accepts.
pub open spec fn verify_responds(next: VerifyFlow, action: VerifyAction, page: spec_fn(Page) -> bool) -> bool {
    &&& next is Done
    &&& action matches VerifyAction::Respond(p) && page(p)
}

/// How a code check begins for `form`: the trimmed code is checked for the normalized
/// address.
pub open spec fn verify_begins(form: VerifyForm, next: VerifyFlow, action: VerifyAction) -> bool {
    let email = normalized_email(form.email@);
    &&& next matches VerifyFlow::CheckingCode { email: e } && e@ == email
    &&& action matches VerifyAction::ValidateToken { email: ae, code }
    &&& ae@ == email && code@ == trimmed(form.code@)
}

/// One step of a code check.
pub open spec fn verify_transition(flow: VerifyFlow, event: VerifyEvent, next: VerifyFlow, action: VerifyAction) -> bool {
    match (flow, event) {
        (VerifyFlow::CheckingCode { email }, VerifyEvent::TokenChecked(r)) => match r {
            Err(_) => verify_responds(next, action, |p: Page| is_verify_page(p, email@, SIGN_IN_PURPOSE@, Some(msg_database_error()))),
            Ok(false) => verify_responds(next, action, |p: Page| is_verify_page(p, email@, SIGN_IN_PURPOSE@, Some(msg_invalid_code()))),
            Ok(true) => {
                &&& next matches VerifyFlow::CheckingName { email: e }
                &&& e@ == email@
                &&& action matches VerifyAction::CheckNeedsName { email: ae } && ae@ == email@
            },
        },
        (VerifyFlow::CheckingName { email }, VerifyEvent::NameChecked(r)) => match r {
            Err(_) => verify_responds(next, action, |p: Page| is_verify_page(p, email@, SIGN_IN_PURPOSE@, Some(msg_database_error()))),
            Ok(true) => verify_responds(next, action, |p: Page| is_profile_page(p, email@, None)),
            Ok(false) => {
                &&& next matches VerifyFlow::LoadingUser { email: e }
                &&& e@ == email@
                &&& action matches VerifyAction::GetUser { email: ae } && ae@ == email@
            },
        },
        (VerifyFlow::LoadingUser { email }, VerifyEvent::UserLoaded(r)) => match r {
            Ok(Some((id, _))) => {
                &&& next matches VerifyFlow::OpeningSession { email: e, token }
                &&& e@ == email@ && is_session_token(token@)
                &&& action matches VerifyAction::CreateSession(s) && is_new_session(s, id, token@)
            },
            _ => verify_responds(next, action, |p: Page| is_verify_page(p, email@, SIGN_IN_PURPOSE@, Some(msg_database_error()))),
        },
        (VerifyFlow::OpeningSession { email, token }, VerifyEvent::SessionCreated(r)) => match r {
            Ok(_) => verify_responds(next, action, |p: Page| is_session_redirect(p, token@)),
            Err(_) => verify_responds(next, action, |p: Page| is_verify_page(p, email@, SIGN_IN_PURPOSE@, Some(msg_database_error()))),
        },
        _ => false,
    }
}

impl VerifyFlow {
    /// Whether the flow waits for an outcome of the kind of `event`.
    pub fn awaits(&self, event: &VerifyEvent) -> (r: bool)
        ensures
            r == verify_awaits(*self, *event),
    {
        match (self, event) {
            (VerifyFlow::CheckingCode { .. }, VerifyEvent::TokenChecked(_)) => true,
            (VerifyFlow::CheckingName { .. }, VerifyEvent::NameChecked(_)) => true,
            (VerifyFlow::LoadingUser { .. }, VerifyEvent::UserLoaded(_)) => true,
            (VerifyFlow::OpeningSession { .. }, VerifyEvent::SessionCreated(_)) => true,
            _ => false,
        }
    }
}

/// A new session for `user_id` with a fresh token.
fn open_session(user_id: i64) -> (s: NewSession)
    ensures
        is_session_token(s.token@),
        is_new_session(s, user_id, s.token@),
{
    NewSession { user_id, token: generate_session_token(), max_age_days: SESSION_MAX_AGE_DAYS }
}

/// Begins a code check for `form` (see `verify_begins`).
pub fn verify_start(form: &VerifyForm) -> (r: (VerifyFlow, VerifyAction))
    ensures
        verify_begins(*form, r.0, r.1),
{
    let email = normalize_email(form.email.as_str());
    let code = trim(form.code.as_str());
    let action = VerifyAction::ValidateToken { email: email.clone(), code };
    (VerifyFlow::CheckingCode { email }, action)
}

/// Takes a code check one step on with the outcome of the action it asked for.
pub fn verify_step(flow: VerifyFlow, event: VerifyEvent) -> (r: (VerifyFlow, VerifyAction))
    requires
        verify_awaits(flow, event),
    ensures
        verify_transition(flow, event, r.0, r.1),
{
    match (flow, event) {
        (VerifyFlow::CheckingCode { email }, VerifyEvent::TokenChecked(r)) => match r {
            Err(_) => (VerifyFlow::Done, VerifyAction::Respond(verify_page(&email, &SIGN_IN_PURPOSE.to_owned(), Some("Database error")))),
            Ok(false) => (
                VerifyFlow::Done,
                VerifyAction::Respond(verify_page(&email, &SIGN_IN_PURPOSE.to_owned(), Some("Invalid or expired code"))),
            ),
            Ok(true) => {
                let action = VerifyAction::CheckNeedsName { email: email.clone() };
                (VerifyFlow::CheckingName { email }, action)
            },
        },
        (VerifyFlow::CheckingName { email }, VerifyEvent::NameChecked(r)) => match r {
            Err(_) => (VerifyFlow::Done, VerifyAction::Respond(verify_page(&email, &SIGN_IN_PURPOSE.to_owned(), Some("Database error")))),
            Ok(true) => (VerifyFlow::Done, VerifyAction::Respond(profile_page(&email, None))),
            Ok(false) => {
                let action = VerifyAction::GetUser { email: email.clone() };
                (VerifyFlow::LoadingUser { email }, action)
            },
        },
        (VerifyFlow::LoadingUser { email }, VerifyEvent::UserLoaded(r)) => match r {
            Ok(Some((id, _))) => {
                let session = open_session(id);
                let token = session.token.clone();
                (VerifyFlow::OpeningSession { email, token }, VerifyAction::CreateSession(session))
            },
            _ => (VerifyFlow::Done, VerifyAction::Respond(verify_page(&email, &SIGN_IN_PURPOSE.to_owned(), Some("Database error")))),
        },
        (VerifyFlow::OpeningSession { email, token }, VerifyEvent::SessionCreated(r)) => match r {
            Ok(_) => (VerifyFlow::Done, VerifyAction::Respond(session_redirect(&token))),
            Err(_) => (VerifyFlow::Done, VerifyAction::Respond(verify_page(&email, &SIGN_IN_PURPOSE.to_owned(), Some("Database error")))),
        },
        _ => {
            assert(false);
            (VerifyFlow::Done, VerifyAction::Respond(profile_page(&String::new(), None)))
        },
    }
}

// ---------------------------------------------------------------------------------------
// Name registration: a new user picks a name and is signed in.
// ---------------------------------------------------------------------------------------

/// Where a name registration stands.
pub enum RegisterFlow {
    /// Waiting for whether a user with `email` exists; `name` is the name to register.
    CheckingUser { email: String, name: String },
    /// Waiting for the store to set the existing user's name.
    UpdatingName { email: String },
    /// Waiting for the id of the user of `email`.
    LoadingUserId { email: String },
    /// Waiting for the store to create the user.
    CreatingUser { email: String },
    /// Waiting for the store to open a session with `token`.
    OpeningSession { email: String, token: String },
    /// The response has been given.
    Done,
}

/// What a name registration asks for next.
pub enum RegisterAction {
    /// Whether a user with `email` exists.
    CheckUserExists { email: String },
    /// Set the name of the user of `email`.
    UpdateName { email: String, name: String },
    /// The id of the user of `email`.
    GetUserId { email: String },
    /// Create a user with `email` and `name`.
    CreateUser { email: String, name: String },
    /// Open a session.
    CreateSession(NewSession),
    /// Answer the request.
    Respond(Page),
}

/// The outcome of a name registration action; `Err(())` is a failure of the store.
pub enum RegisterEvent {
    UserExists(Result<bool, ()>),
    NameUpdated(Result<(), ()>),
    UserIdLoaded(Result<Option<i64>, ()>),
    UserCreated(Result<i64, ()>),
    SessionCreated(Result<(), ()>),
}

/// Whether `flow` waits for an outcome of the kind of `event`.
pub open spec fn register_awaits(flow: RegisterFlow, event: RegisterEvent) -> bool {
    match flow {
        RegisterFlow::CheckingUser { .. } => event is UserExists,
        RegisterFlow::UpdatingName { .. } => event is NameUpdated,
        RegisterFlow::LoadingUserId { .. } => event is UserIdLoaded,
        RegisterFlow::CreatingUser { .. } => event is UserCreated,
        RegisterFlow::OpeningSession { .. } => event is SessionCreated,
        RegisterFlow::Done => false,
    }
}

/// The request is answered with a page that `page` accepts.
pub open spec fn register_responds(next: RegisterFlow, action: RegisterAction, page: spec_fn(Page) -> bool) -> bool {
    &&& next is Done
    &&& action matches RegisterAction::Respond(p) && page(p)
}

/// A session is opened for `user_id` with a fresh token, for the user of `email`.
pub open spec fn register_opens_session(email: Seq<char>, user_id: i64, next: RegisterFlow, action: RegisterAction) -> bool {
    &&& next matches RegisterFlow::OpeningSession { email: e, token }
    &&& e@ == email && is_session_token(token@)
    &&& action matches RegisterAction::CreateSession(s) && is_new_session(s, user_id, token@)
}

/// How a name registration begins for `form`: an empty trimmed name is refused; otherwise
/// it is checked whether a user with the normalized address exists.
pub open spec fn register_begins(form: NameForm, next: RegisterFlow, action: RegisterAction) -> bool {
    let email = normalized_email(form.email@);
    let name = trimmed(form.name@);
    if name.len() == 0 {
        register_responds(next, action, |p: Page| is_profile_page(p, email, Some(msg_name_required())))
    } else {
        &&& next matches RegisterFlow::CheckingUser { email: e, name: n }
        &&& e@ == email && n@ == name
        &&& action matches RegisterAction::CheckUserExists { email: ae } && ae@ == email
    }
}

/// One step of a name registration.
pub open spec fn register_transition(flow: RegisterFlow, event: RegisterEvent, next: RegisterFlow, action: RegisterAction) -> bool {
    match (flow, event) {
        (RegisterFlow::CheckingUser { email, name }, RegisterEvent::UserExists(r)) => match r {
            Err(_) => register_responds(next, action, |p: Page| is_profile_page(p, email@, Some(msg_database_error()))),
            Ok(true) => {
                &&& next matches RegisterFlow::UpdatingName { email: e } && e@ == email@
                &&& action matches RegisterAction::UpdateName { email: ae, name: an }
                &&& ae@ == email@ && an@ == name@
            },
            Ok(false) => {
                &&& next matches RegisterFlow::CreatingUser { email: e } && e@ == email@
                &&& action matches RegisterAction::CreateUser { email: ae, name: an }
                &&& ae@ == email@ && an@ == name@
            },
        },
        (RegisterFlow::UpdatingName { email }, RegisterEvent::NameUpdated(r)) => match r {
            Ok(_) => {
                &&& next matches RegisterFlow::LoadingUserId { email: e } && e@ == email@
                &&& action matches RegisterAction::GetUserId { email: ae } && ae@ == email@
            },
            Err(_) => register_responds(next, action, |p: Page| is_profile_page(p, email@, Some(msg_database_error()))),
        },
        (RegisterFlow::LoadingUserId { email }, RegisterEvent::UserIdLoaded(r)) => match r {
            Ok(Some(id)) => register_opens_session(email@, id, next, action),
            _ => register_responds(next, action, |p: Page| is_profile_page(p, email@, Some(msg_database_error()))),
        },
        (RegisterFlow::CreatingUser { email }, RegisterEvent::UserCreated(r)) => match r {
            Ok(id) => register_opens_session(email@, id, next, action),
            Err(_) => register_responds(next, action, |p: Page| is_profile_page(p, email@, Some(msg_database_error()))),
        },
        (RegisterFlow::OpeningSession { email, token }, RegisterEvent::SessionCreated(r)) => match r {
            Ok(_) => register_responds(next, action, |p: Page| is_session_redirect(p, token@)),
            Err(_) => register_responds(next, action, |p: Page| is_profile_page(p, email@, Some(msg_database_error()))),
        },
        _ => false,
    }
}

impl RegisterFlow {
    /// Whether the flow waits for an outcome of the kind of `event`.
    pub fn awaits(&self, event: &RegisterEvent) -> (r: bool)
        ensures
            r == register_awaits(*self, *event),
    {
        match (self, event) {
            (RegisterFlow::CheckingUser { .. }, RegisterEvent::UserExists(_)) => true,
            (RegisterFlow::UpdatingName { .. }, RegisterEvent::NameUpdated(_)) => true,
            (RegisterFlow::LoadingUserId { .. }, RegisterEvent::UserIdLoaded(_)) => true,
            (RegisterFlow::CreatingUser { .. }, RegisterEvent::UserCreated(_)) => true,
            (RegisterFlow::OpeningSession { .. }, RegisterEvent::SessionCreated(_)) => true,
            _ => false,
        }
    }
}

/// The state and action that open a session for `user_id`.
fn register_session(email: String, user_id: i64) -> (r: (RegisterFlow, RegisterAction))
    ensures
        register_opens_session(email@, user_id, r.0, r.1),
{
    let session = open_session(user_id);
    let token = session.token.clone();
    (RegisterFlow::OpeningSession { email, token }, RegisterAction::CreateSession(session))
}

/// Begins a name registration for `form` (see `register_begins`).
pub fn register_start(form: &NameForm) -> (r: (RegisterFlow, RegisterAction))
    ensures
        register_begins(*form, r.0, r.1),
{
    let email = normalize_email(form.email.as_str());
    let name = trim(form.name.as_str());
    if name.as_str().is_empty() {
        return (RegisterFlow::Done, RegisterAction::Respond(profile_page(&email, Some("Name is required"))));
    }
    let action = RegisterAction::CheckUserExists { email: email.clone() };
    (RegisterFlow::CheckingUser { email, name }, action)
}

/// Takes a name registration one step on with the outcome of the action it asked for.
pub fn register_step(flow: RegisterFlow, event: RegisterEvent) -> (r: (RegisterFlow, RegisterAction))
    requires
        register_awaits(flow, event),
    ensures
        register_transition(flow, event, r.0, r.1),
{
    match (flow, event) {
        (RegisterFlow::CheckingUser { email, name }, RegisterEvent::UserExists(r)) => match r {
            Err(_) => (RegisterFlow::Done, RegisterAction::Respond(profile_page(&email, Some("Database error")))),
            Ok(true) => {
                let action = RegisterAction::UpdateName { email: email.clone(), name };
                (RegisterFlow::UpdatingName { email }, action)
            },
            Ok(false) => {
                let action = RegisterAction::CreateUser { email: email.clone(), name };
                (RegisterFlow::CreatingUser { email }, action)
            },
        },
        (RegisterFlow::UpdatingName { email }, RegisterEvent::NameUpdated(r)) => match r {
            Ok(_) => {
                let action = RegisterAction::GetUserId { email: email.clone() };
                (RegisterFlow::LoadingUserId { email }, action)
            },
            Err(_) => (RegisterFlow::Done, RegisterAction::Respond(profile_page(&email, Some("Database error")))),
        },
        (RegisterFlow::LoadingUserId { email }, RegisterEvent::UserIdLoaded(r)) => match r {
            Ok(Some(id)) => register_session(email, id),
            _ => (RegisterFlow::Done, RegisterAction::Respond(profile_page(&email, Some("Database error")))),
        },
        (RegisterFlow::CreatingUser { email }, RegisterEvent::UserCreated(r)) => match r {
            Ok(id) => register_session(email, id),
            Err(_) => (RegisterFlow::Done, RegisterAction::Respond(profile_page(&email, Some("Database error")))),
        },
        (RegisterFlow::OpeningSession { email, token }, RegisterEvent::SessionCreated(r)) => match r {
            Ok(_) => (RegisterFlow::Done, RegisterAction::Respond(session_redirect(&token))),
            Err(_) => (RegisterFlow::Done, RegisterAction::Respond(profile_page(&email, Some("Database error")))),
        },
        _ => {
            assert(false);
            (RegisterFlow::Done, RegisterAction::Respond(profile_page(&String::new(), None)))
        },
    }
}

// ---------------------------------------------------------------------------------------
// Runs: a request driven by a sequence of outcomes, and what every run keeps.
// ---------------------------------------------------------------------------------------

/// A run of a sign-in request for `form`: it begins as `login_start` does, and each outcome
/// in `events` answers the action the state before it waits for.
pub open spec fn login_run(form: EmailForm, email_configured: bool, events: Seq<LoginEvent>, flows: Seq<LoginFlow>, actions: Seq<LoginAction>) -> bool {
    &&& flows.len() == events.len() + 1
    &&& actions.len() == flows.len()
    &&& login_begins(form, email_configured, flows[0], actions[0])
    &&& forall|i: int|
        0 <= i < events.len() ==> login_awaits(flows[i], #[trigger] events[i])
            && login_transition(flows[i], events[i], flows[i + 1], actions[i + 1])
}

/// How far a sign-in request has come.
pub open spec fn login_stage(flow: LoginFlow) -> int {
    match flow {
        LoginFlow::CheckingRateLimit { .. } => 0,
        LoginFlow::SavingCode { .. } => 1,
        LoginFlow::SendingCode { .. } => 2,
        LoginFlow::Done => 3,
    }
}

proof fn lemma_login_stage(form: EmailForm, c: bool, events: Seq<LoginEvent>, flows: Seq<LoginFlow>, actions: Seq<LoginAction>, i: int)
    requires
        login_run(form, c, events, flows, actions),
        0 <= i < flows.len(),
    ensures
        flows[i] is Done || login_stage(flows[i]) == i,
        flows[i] is CheckingRateLimit ==> flows[i] == flows[0],
    decreases i,
{
    if i > 0 {
        lemma_login_stage(form, c, events, flows, actions, i - 1);
        assert(login_awaits(flows[i - 1], events[i - 1]));
    }
}

/// A sign-in request takes at most three outcomes before it answers.
pub proof fn lemma_login_run_length(form: EmailForm, c: bool, events: Seq<LoginEvent>, flows: Seq<LoginFlow>, actions: Seq<LoginAction>)
    requires
        login_run(form, c, events, flows, actions),
    ensures
        events.len() <= 3,
{
    if events.len() > 0 {
        let n: int = events.len() - 1;
        lemma_login_stage(form, c, events, flows, actions, n);
        assert(login_awaits(flows[n], events[n]));
    }
}

/// A sign-in code is only ever kept after the rate limit allowed it, as the second action,
/// for the normalized address (which holds `@`), and it is a six-digit code.
pub proof fn lemma_login_code_only_when_allowed(form: EmailForm, c: bool, events: Seq<LoginEvent>, flows: Seq<LoginFlow>, actions: Seq<LoginAction>, i: int)
    requires
        login_run(form, c, events, flows, actions),
        0 <= i < actions.len(),
        actions[i] is CreateToken,
    ensures
        i == 1,
        events[0] matches LoginEvent::RateLimitChecked(Ok(true)),
        normalized_email(form.email@).contains('@'),
        actions[i] matches LoginAction::CreateToken { email, code, .. } && email@ == normalized_email(form.email@) && is_sign_in_code(code@),
{
    assert(i > 0);
    assert(login_awaits(flows[i - 1], events[i - 1]));
    lemma_login_stage(form, c, events, flows, actions, i - 1);
}

/// A code is only ever mailed after it was kept, when an e-mail service is set up, as the
/// third action.
pub proof fn lemma_login_mail_only_after_saved(form: EmailForm, c: bool, events: Seq<LoginEvent>, flows: Seq<LoginFlow>, actions: Seq<LoginAction>, i: int)
    requires
        login_run(form, c, events, flows, actions),
        0 <= i < actions.len(),
        actions[i] is SendCode,
    ensures
        i == 2,
        c,
        events[0] matches LoginEvent::RateLimitChecked(Ok(true)),
        events[1] matches LoginEvent::TokenCreated(Ok(_)),
        actions[1] matches LoginAction::CreateToken { email, code, .. } && actions[2] matches LoginAction::SendCode { email: e2, code: c2 } && e2@ == email@ && c2@ == code@,
{
    assert(i > 0);
    assert(login_awaits(flows[i - 1], events[i - 1]));
    lemma_login_stage(form, c, events, flows, actions, i - 1);
    assert(login_awaits(flows[0], events[0]));
    lemma_login_stage(form, c, events, flows, actions, 0);
    lemma_login_stage(form, c, events, flows, actions, 1);
}

/// A run of a code check for `form`.
pub open spec fn verify_run(form: VerifyForm, events: Seq<VerifyEvent>, flows: Seq<VerifyFlow>, actions: Seq<VerifyAction>) -> bool {
    &&& flows.len() == events.len() + 1
    &&& actions.len() == flows.len()
    &&& verify_begins(form, flows[0], actions[0])
    &&& forall|i: int|
        0 <= i < events.len() ==> verify_awaits(flows[i], #[trigger] events[i])
            && verify_transition(flows[i], events[i], flows[i + 1], actions[i + 1])
}

/// How far a code check has come.
pub open spec fn verify_stage(flow: VerifyFlow) -> int {
    match flow {
        VerifyFlow::CheckingCode { .. } => 0,
        VerifyFlow::CheckingName { .. } => 1,
        VerifyFlow::LoadingUser { .. } => 2,
        VerifyFlow::OpeningSession { .. } => 3,
        VerifyFlow::Done => 4,
    }
}

proof fn lemma_verify_stage(form: VerifyForm, events: Seq<VerifyEvent>, flows: Seq<VerifyFlow>, actions: Seq<VerifyAction>, i: int)
    requires
        verify_run(form, events, flows, actions),
        0 <= i < flows.len(),
    ensures
        flows[i] is Done || verify_stage(flows[i]) == i,
    decreases i,
{
    if i > 0 {
        lemma_verify_stage(form, events, flows, actions, i - 1);
        assert(verify_awaits(flows[i - 1], events[i - 1]));
    }
}

/// A code check takes at most four outcomes before it answers.
pub proof fn lemma_verify_run_length(form: VerifyForm, events: Seq<VerifyEvent>, flows: Seq<VerifyFlow>, actions: Seq<VerifyAction>)
    requires
        verify_run(form, events, flows, actions),
    ensures
        events.len() <= 4,
{
    if events.len() > 0 {
        let n: int = events.len() - 1;
        lemma_verify_stage(form, events, flows, actions, n);
        assert(verify_awaits(flows[n], events[n]));
    }
}

/// A session is only ever opened after the code was accepted (and so used up), the user
/// was found to have a name, and the user was loaded; it is opened for that user, with a
/// session token, for `SESSION_MAX_AGE_DAYS` days.
pub proof fn lemma_verify_session_only_after_valid_code(form: VerifyForm, events: Seq<VerifyEvent>, flows: Seq<VerifyFlow>, actions: Seq<VerifyAction>, i: int)
    requires
        verify_run(form, events, flows, actions),
        0 <= i < actions.len(),
        actions[i] is CreateSession,
    ensures
        i == 3,
        events[0] matches VerifyEvent::TokenChecked(Ok(true)),
        events[1] matches VerifyEvent::NameChecked(Ok(false)),
        events[2] matches VerifyEvent::UserLoaded(Ok(Some((id, _)))) && actions[3] matches VerifyAction::CreateSession(s) && s.user_id == id && is_session_token(s.token@) && s.max_age_days == SESSION_MAX_AGE_DAYS,
{
    assert(i > 0);
    assert(verify_awaits(flows[i - 1], events[i - 1]));
    lemma_verify_stage(form, events, flows, actions, i - 1);
    lemma_verify_stage(form, events, flows, actions, 1);
    lemma_verify_stage(form, events, flows, actions, 0);
    assert(verify_awaits(flows[0], events[0]));
    assert(verify_awaits(flows[1], events[1]));
}

/// A run of a name registration for `form`.
pub open spec fn register_run(form: NameForm, events: Seq<RegisterEvent>, flows: Seq<RegisterFlow>, actions: Seq<RegisterAction>) -> bool {
    &&& flows.len() == events.len() + 1
    &&& actions.len() == flows.len()
    &&& register_begins(form, flows[0], actions[0])
    &&& forall|i: int|
        0 <= i < events.len() ==> register_awaits(flows[i], #[trigger] events[i])
            && register_transition(flows[i], events[i], flows[i + 1], actions[i + 1])
}

/// Where in a run each state of a name registration can stand.
pub open spec fn register_position(flow: RegisterFlow, i: int) -> bool {
    match flow {
        RegisterFlow::CheckingUser { .. } => i == 0,
        RegisterFlow::UpdatingName { .. } => i == 1,
        RegisterFlow::CreatingUser { .. } => i == 1,
        RegisterFlow::LoadingUserId { .. } => i == 2,
        RegisterFlow::OpeningSession { .. } => i == 2 || i == 3,
        RegisterFlow::Done => true,
    }
}

proof fn lemma_register_position(form: NameForm, events: Seq<RegisterEvent>, flows: Seq<RegisterFlow>, actions: Seq<RegisterAction>, i: int)
    requires
        register_run(form, events, flows, actions),
        0 <= i < flows.len(),
    ensures
        register_position(flows[i], i),
    decreases i,
{
    if i > 0 {
        lemma_register_position(form, events, flows, actions, i - 1);
        assert(register_awaits(flows[i - 1], events[i - 1]));
    }
}

/// A name registration takes at most four outcomes before it answers.
pub proof fn lemma_register_run_length(form: NameForm, events: Seq<RegisterEvent>, flows: Seq<RegisterFlow>, actions: Seq<RegisterAction>)
    requires
        register_run(form, events, flows, actions),
    ensures
        events.len() <= 4,
{
    if events.len() > 0 {
        let n: int = events.len() - 1;
        lemma_register_position(form, events, flows, actions, n);
        assert(register_awaits(flows[n], events[n]));
    }
}

/// A user is only ever created or renamed with the submitted name, trimmed and not empty,
/// for the normalized address, as the second action.
pub proof fn lemma_register_writes_only_named(form: NameForm, events: Seq<RegisterEvent>, flows: Seq<RegisterFlow>, actions: Seq<RegisterAction>, i: int)
    requires
        register_run(form, events, flows, actions),
        0 <= i < actions.len(),
        actions[i] is CreateUser || actions[i] is UpdateName,
    ensures
        i == 1,
        trimmed(form.name@).len() > 0,
        match actions[i] {
            RegisterAction::CreateUser { email, name } => email@ == normalized_email(form.email@) && name@ == trimmed(form.name@),
            RegisterAction::UpdateName { email, name } => email@ == normalized_email(form.email@) && name@ == trimmed(form.name@),
            _ => false,
        },
{
    assert(i > 0);
    assert(register_awaits(flows[i - 1], events[i - 1]));
    lemma_register_position(form, events, flows, actions, i - 1);
}

/// A session is only ever opened after the user was saved: created (second outcome), or
/// renamed and then found (third outcome); it is opened for the id the store reported.
pub proof fn lemma_register_session_only_after_saved(form: NameForm, events: Seq<RegisterEvent>, flows: Seq<RegisterFlow>, actions: Seq<RegisterAction>, i: int)
    requires
        register_run(form, events, flows, actions),
        0 <= i < actions.len(),
        actions[i] is CreateSession,
    ensures
        i == 2 || i == 3,
        i == 2 ==> (events[0] matches RegisterEvent::UserExists(Ok(false)) && events[1] matches RegisterEvent::UserCreated(Ok(id)) && actions[2] matches RegisterAction::CreateSession(s) && s.user_id == id),
        i == 3 ==> (events[0] matches RegisterEvent::UserExists(Ok(true)) && events[1] matches RegisterEvent::NameUpdated(Ok(_)) && events[2] matches RegisterEvent::UserIdLoaded(Ok(Some(id))) && actions[3] matches RegisterAction::CreateSession(s) && s.user_id == id),
{
    assert(i > 0);
    assert(register_awaits(flows[i - 1], events[i - 1]));
    lemma_register_position(form, events, flows, actions, i - 1);
    lemma_register_position(form, events, flows, actions, 0);
    assert(register_awaits(flows[0], events[0]));
    if i == 3 {
        lemma_register_position(form, events, flows, actions, 1);
        assert(register_awaits(flows[1], events[1]));
    }
}

/// The cookie a sign-in sets carries the session that was opened: a code check that ends
/// in the redirect home does so right after opening a session, and the redirect sets the
/// session cookie for that session's token, which reads back as the token.
pub proof fn lemma_verify_sign_in_sets_cookie(form: VerifyForm, events: Seq<VerifyEvent>, flows: Seq<VerifyFlow>, actions: Seq<VerifyAction>, i: int)
    requires
        verify_run(form, events, flows, actions),
        0 <= i < actions.len(),
        actions[i] matches VerifyAction::Respond(Page::RedirectHome(_)),
    ensures
        i == 4,
        actions[3] matches VerifyAction::CreateSession(s) && actions[i] matches VerifyAction::Respond(Page::RedirectHome(Some(v)))
            && header_value_bytes(v) == encode_utf8(session_cookie_text(s.token@))
            && session_token_in(session_cookie_text(s.token@)) == Some(s.token@),
{
    assert(i > 0);
    assert(verify_awaits(flows[i - 1], events[i - 1]));
    lemma_verify_stage(form, events, flows, actions, i - 1);
    if let VerifyFlow::OpeningSession { token, .. } = flows[i - 1] {
        assert(i - 1 > 0);
        assert(verify_awaits(flows[i - 2], events[i - 2]));
        lemma_verify_stage(form, events, flows, actions, i - 2);
        lemma_session_cookie_is_header_value(token@);
        lemma_session_cookie_round_trip(token@);
    }
}

/// The cookie a name registration sets carries the session that was opened, and reads back
/// as its token.
pub proof fn lemma_register_sign_in_sets_cookie(form: NameForm, events: Seq<RegisterEvent>, flows: Seq<RegisterFlow>, actions: Seq<RegisterAction>, i: int)
    requires
        register_run(form, events, flows, actions),
        0 <= i < actions.len(),
        actions[i] matches RegisterAction::Respond(Page::RedirectHome(_)),
    ensures
        i == 3 || i == 4,
        actions[i - 1] matches RegisterAction::CreateSession(s) && actions[i] matches RegisterAction::Respond(Page::RedirectHome(Some(v)))
            && header_value_bytes(v) == encode_utf8(session_cookie_text(s.token@))
            && session_token_in(session_cookie_text(s.token@)) == Some(s.token@),
{
    assert(i > 0);
    assert(register_awaits(flows[i - 1], events[i - 1]));
    lemma_register_position(form, events, flows, actions, i - 1);
    if let RegisterFlow::OpeningSession { token, .. } = flows[i - 1] {
        assert(i - 1 > 0);
        assert(register_awaits(flows[i - 2], events[i - 2]));
        lemma_register_position(form, events, flows, actions, i - 2);
        lemma_session_cookie_is_header_value(token@);
        lemma_session_cookie_round_trip(token@);
    }
}

/// Two responses that show the same: the same template with the same fields, or both the
/// redirect home (whose cookie carries each run's own random token).
pub open spec fn same_page(p1: Page, p2: Page) -> bool {
    match (p1, p2) {
        (Page::Index(a), Page::Index(b)) => a.logged_in == b.logged_in && text_of(a.name) == text_of(b.name),
        (Page::Login(a), Page::Login(b)) => text_of(a.error) == text_of(b.error),
        (Page::Verify(a), Page::Verify(b)) => a.email@ == b.email@ && a.purpose@ == b.purpose@
            && text_of(a.error) == text_of(b.error),
        (Page::Profile(a), Page::Profile(b)) => a.email@ == b.email@ && text_of(a.error) == text_of(b.error),
        (Page::RedirectHome(_), Page::RedirectHome(_)) => true,
        _ => false,
    }
}

/// Two code check actions that ask the store the same, but for the random session token.
pub open spec fn same_verify_action(a1: VerifyAction, a2: VerifyAction) -> bool {
    match (a1, a2) {
        (VerifyAction::ValidateToken { email: e1, code: c1 }, VerifyAction::ValidateToken { email: e2, code: c2 }) => e1@ == e2@ && c1@ == c2@,
        (VerifyAction::CheckNeedsName { email: e1 }, VerifyAction::CheckNeedsName { email: e2 }) => e1@ == e2@,
        (VerifyAction::GetUser { email: e1 }, VerifyAction::GetUser { email: e2 }) => e1@ == e2@,
        (VerifyAction::CreateSession(s1), VerifyAction::CreateSession(s2)) => s1.user_id == s2.user_id && s1.max_age_days == s2.max_age_days,
        (VerifyAction::Respond(p1), VerifyAction::Respond(p2)) => same_page(p1, p2),
        _ => false,
    }
}

/// Two code check states at the same stage for the same address.
pub open spec fn same_verify_flow(f1: VerifyFlow, f2: VerifyFlow) -> bool {
    match (f1, f2) {
        (VerifyFlow::CheckingCode { email: e1 }, VerifyFlow::CheckingCode { email: e2 }) => e1@ == e2@,
        (VerifyFlow::CheckingName { email: e1 }, VerifyFlow::CheckingName { email: e2 }) => e1@ == e2@,
        (VerifyFlow::LoadingUser { email: e1 }, VerifyFlow::LoadingUser { email: e2 }) => e1@ == e2@,
        (VerifyFlow::OpeningSession { email: e1, .. }, VerifyFlow::OpeningSession { email: e2, .. }) => e1@ == e2@,
        (VerifyFlow::Done, VerifyFlow::Done) => true,
        _ => false,
    }
}

proof fn lemma_verify_step_same(f1: VerifyFlow, f2: VerifyFlow, e: VerifyEvent, n1: VerifyFlow, a1: VerifyAction, n2: VerifyFlow, a2: VerifyAction)
    requires
        same_verify_flow(f1, f2),
        verify_awaits(f1, e),
        verify_transition(f1, e, n1, a1),
        verify_transition(f2, e, n2, a2),
    ensures
        same_verify_flow(n1, n2),
        same_verify_action(a1, a2),
{
}

/// A code check depends only on the normalized address and the trimmed code: two code
/// checks whose forms agree on those, answered alike by the store, ask the store the same
/// at every step (but for the random session token) and answer with the same page.
pub proof fn lemma_verify_depends_on_address_and_code(
    form1: VerifyForm,
    form2: VerifyForm,
    events: Seq<VerifyEvent>,
    flows1: Seq<VerifyFlow>,
    actions1: Seq<VerifyAction>,
    flows2: Seq<VerifyFlow>,
    actions2: Seq<VerifyAction>,
)
    requires
        normalized_email(form1.email@) == normalized_email(form2.email@),
        trimmed(form1.code@) == trimmed(form2.code@),
        verify_run(form1, events, flows1, actions1),
        verify_run(form2, events, flows2, actions2),
    ensures
        forall|i: int| 0 <= i < actions1.len() ==> same_verify_action(#[trigger] actions1[i], actions2[i]),
{
    assert forall|i: int| 0 <= i < actions1.len() implies same_verify_action(#[trigger] actions1[i], actions2[i]) by {
        lemma_verify_runs_agree(form1, form2, events, flows1, actions1, flows2, actions2, i);
    }
}

proof fn lemma_verify_runs_agree(
    form1: VerifyForm,
    form2: VerifyForm,
    events: Seq<VerifyEvent>,
    flows1: Seq<VerifyFlow>,
    actions1: Seq<VerifyAction>,
    flows2: Seq<VerifyFlow>,
    actions2: Seq<VerifyAction>,
    i: int,
)
    requires
        normalized_email(form1.email@) == normalized_email(form2.email@),
        trimmed(form1.code@) == trimmed(form2.code@),
        verify_run(form1, events, flows1, actions1),
        verify_run(form2, events, flows2, actions2),
        0 <= i < actions1.len(),
    ensures
        same_verify_flow(flows1[i], flows2[i]),
        same_verify_action(actions1[i], actions2[i]),
    decreases i,
{
    if i > 0 {
        lemma_verify_runs_agree(form1, form2, events, flows1, actions1, flows2, actions2, i - 1);
        assert(verify_awaits(flows1[i - 1], events[i - 1]));
        assert(verify_awaits(flows2[i - 1], events[i - 1]));
        lemma_verify_step_same(flows1[i - 1], flows2[i - 1], events[i - 1], flows1[i], actions1[i], flows2[i], actions2[i]);
    }
}

/// A sign-in request is refused exactly when the normalized address has no `@`; every
/// address with one, however long, goes on to the rate limit check for that address.
pub proof fn lemma_login_refuses_only_without_at(form: EmailForm, c: bool, next: LoginFlow, action: LoginAction)
    requires
        login_begins(form, c, next, action),
    ensures
        action is CheckRateLimit <==> normalized_email(form.email@).contains('@'),
        normalized_email(form.email@).contains('@') ==> (action matches LoginAction::CheckRateLimit { email } && email@ == normalized_email(form.email@)),
        normalized_email(form.email@).contains('@') ==> (next matches LoginFlow::CheckingRateLimit { email: e, email_configured }
            && e@ == normalized_email(form.email@) && email_configured == c),
        !normalized_email(form.email@).contains('@') ==> next is Done,
        !normalized_email(form.email@).contains('@') ==> (action matches LoginAction::Respond(Page::Login(t))
            && text_of(t.error) == Some("Invalid email address"@)),
{
}

/// A code check asks the store about the code as it was typed, with only the white space
/// around it removed: a stretch of the submitted text, all of whose surroundings are white
/// space, that neither starts nor ends with white space. No other character is changed,
/// dropped or added (so a code with leading zeros is checked with them).
pub proof fn lemma_verify_checks_code_as_typed(form: VerifyForm, next: VerifyFlow, action: VerifyAction)
    requires
        verify_begins(form, next, action),
    ensures
        action matches VerifyAction::ValidateToken { email, code } && email@ == normalized_email(form.email@)
            && is_trim_of(code@, form.code@),
{
    lemma_trimmed_is_trim(form.code@);
}

/// A name registration is refused exactly when the submitted name is all white space (or
/// empty); any other name, however long, is kept, trimmed, for the normalized address.
pub proof fn lemma_register_refuses_only_blank_names(form: NameForm, next: RegisterFlow, action: RegisterAction)
    requires
        register_begins(form, next, action),
    ensures
        action is Respond <==> (forall|i: int| 0 <= i < form.name@.len() ==> is_white_space(#[trigger] form.name@[i])),
        !(action is Respond) ==> (action matches RegisterAction::CheckUserExists { email } && email@ == normalized_email(form.email@)),
        !(action is Respond) ==> (next matches RegisterFlow::CheckingUser { email: e, name }
            && e@ == normalized_email(form.email@) && is_trim_of(name@, form.name@)),
{
    lemma_trimmed_is_trim(form.name@);
}

} // verus!
