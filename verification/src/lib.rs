//! Session-backed authentication for a small task service.
//!
//! The service lets users register, log in and manage tasks over HTTP. This
//! library holds what the service decides, apart from the server, the cookies
//! and the stores that it runs on:
//!
//! - [`users::routes::create_auth_token`] gives a login its token;
//! - [`users::routes::login`] and [`users::routes::logout`] set and clear the
//!   identity in the [`session::Session`];
//! - [`validator`] lets a request to a protected route pass only with the
//!   token of that identity;
//! - [`tasks::routes::favorite`] keeps at most one favorite task per session;
//! - the commands in [`users::models`] and [`tasks::models`] are handed to a
//!   handler only if they break no rule;
//! - [`errors::AppError`] gives every failure its HTTP status and its text.

pub mod auth;
pub mod errors;
pub mod extract;
pub mod reply;
pub mod session;
pub mod tasks;
pub mod text;
pub mod users;

pub use auth::validator;
