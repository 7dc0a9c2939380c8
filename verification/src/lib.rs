//! Authentication and event publication for a small product service: a
//! password hasher, a signed session-token codec, the guard in front of the
//! protected routes, the request handlers as step functions over store
//! replies, and the envelope that announces each mutation to the queue.

pub mod auth;
pub mod clock;
pub mod config;
pub mod db;
pub mod kafka;
pub mod message;
pub mod products;
pub mod status;
pub mod text;
