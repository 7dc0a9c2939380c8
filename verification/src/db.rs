//! What the handlers know of the document store: identifiers, records by
//! user name, and the failures that a call can come back with.

pub mod mongo;
pub mod oid;
