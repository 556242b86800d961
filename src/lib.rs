//! Authentication and session lifecycle: password credentials, opaque session
//! tokens, the validity predicate, and the authentication of bearer requests.

pub mod auth;
pub mod config;
pub mod credential;
pub mod docker;
pub mod errors;
pub mod time;
pub mod session;
pub mod text;
pub mod token;
pub mod user;
