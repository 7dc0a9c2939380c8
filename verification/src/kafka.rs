//! The envelope that announces a mutation, and what becomes of it on its way
//! to the queue.

pub mod producer;
