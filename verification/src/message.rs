//! The log of events as they were received from the queue.

pub mod handlers;
pub mod models;
pub mod utils;
