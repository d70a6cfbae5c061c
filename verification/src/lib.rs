//! Sign-in by e-mailed code, sessions by cookie: the logic of fogpub, verified.

pub mod database;
pub mod email;
pub mod handlers;
pub mod models;
pub mod pages;
mod random;
pub mod services;
pub mod session;
pub mod templates;
pub mod text;
