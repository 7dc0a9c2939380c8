//! Status codes and the plain-text answer that the handlers share.

use vstd::prelude::*;

verus! {

/// HTTP status codes that the handlers answer with.
pub const OK: u16 = 200;

pub const CREATED: u16 = 201;

pub const NO_CONTENT: u16 = 204;

pub const BAD_REQUEST: u16 = 400;

pub const UNAUTHORIZED: u16 = 401;

pub const NOT_FOUND: u16 = 404;

pub const CONFLICT: u16 = 409;

pub const INTERNAL_SERVER_ERROR: u16 = 500;

/// A plain-text answer: a status and the sentence that goes with it.
#[derive(Debug)]
pub struct Reply {
    pub status: u16,
    pub body: String,
}

/// The mathematical value of [`Reply`].
pub struct ReplyView {
    pub status: u16,
    pub body: Seq<char>,
}

impl View for Reply {
    type V = ReplyView;

    open spec fn view(&self) -> ReplyView {
        ReplyView { status: self.status, body: self.body@ }
    }
}

/// The answer with the given status and sentence.
pub open spec fn reply(status: u16, body: Seq<char>) -> ReplyView {
    ReplyView { status, body }
}

impl Reply {
    /// Builds the answer with the given status and sentence.
    pub fn new(status: u16, body: &str) -> (r: Reply)
        ensures
            r@ == reply(status, body@),
    {
        Reply { status, body: body.to_owned() }
    }
}

} // verus!
