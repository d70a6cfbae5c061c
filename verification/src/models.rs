//! Form data structures for authentication
use vstd::prelude::*;

verus! {

/// The sign-in request: the address to send a code to.
#[derive(Debug)]
pub struct EmailForm {
    pub email: String,
}

/// The code check: the address, the code typed in, and what the code was asked for.
#[derive(Debug)]
pub struct VerifyForm {
    pub email: String,
    pub code: String,
    pub purpose: String,
}

/// The profile form: the address and the display name to register.
#[derive(Debug)]
pub struct NameForm {
    pub email: String,
    pub name: String,
}

} // verus!
