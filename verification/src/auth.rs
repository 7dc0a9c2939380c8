//! Credentials, session tokens and the guard in front of the protected routes.

pub mod handlers;
pub mod middleware;
pub mod models;
pub mod utils;
