//! The product catalogue: its records, and the handlers that create, read,
//! change and remove them and announce each change.

pub mod handlers;
pub mod models;
pub mod utils;
