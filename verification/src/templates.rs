//! The data each page is rendered from.
use vstd::prelude::*;

verus! {

/// The home page.
pub struct IndexTemplate {
    pub logged_in: bool,
    pub name: Option<String>,
}

/// The page that asks for an e-mail address.
pub struct LoginTemplate {
    pub error: Option<String>,
}

/// The sign-up page.
pub struct SignupTemplate {
    pub error: Option<String>,
}

/// The page that asks for the code sent by e-mail.
pub struct VerifyTemplate {
    pub email: String,
    pub purpose: String,
    pub error: Option<String>,
}

/// The page that asks a new user for a name.
pub struct ProfileTemplate {
    pub email: String,
    pub error: Option<String>,
}

} // verus!
