//! Authentication, session tokens and book records for a small HTTP service.
//!
//! Every module here is verified: password hashing and checking, token issue
//! and validation, the bearer-token check in front of protected routes, and the
//! record logic of books and accounts.
pub mod accounts;
pub mod auth;
pub mod books;
pub mod credential;
pub mod service;
pub mod text;
pub mod token;
