//! Signing in: tokens, cookies, the user a request acts as, and the sign-in flows.

pub mod token;
pub mod cookie;
pub mod user;
pub mod session;
pub mod oauth;
pub mod credentials;
pub mod laws;
