//! Stored messages and how they are shown.

use crate::db::oid::{hex_text, object_id_option_view, ObjectId};
use vstd::prelude::*;

verus! {

/// A stored message: the body of one event, as it was received.
#[derive(Debug)]
pub struct Message {
    pub _id: Option<ObjectId>,
    pub message: String,
}

/// The mathematical value of [`Message`].
pub struct MessageView {
    pub id: Option<Seq<u8>>,
    pub message: Seq<char>,
}

impl View for Message {
    type V = MessageView;

    open spec fn view(&self) -> MessageView {
        MessageView { id: object_id_option_view(self._id), message: self.message@ }
    }
}

/// A message as it is shown to a caller.
#[derive(Debug)]
pub struct MessageResponse {
    pub id: String,
    pub message: String,
}

/// The mathematical value of [`MessageResponse`].
pub struct MessageResponseView {
    pub id: Seq<char>,
    pub message: Seq<char>,
}

impl View for MessageResponse {
    type V = MessageResponseView;

    open spec fn view(&self) -> MessageResponseView {
        MessageResponseView { id: self.id@, message: self.message@ }
    }
}

/// How a stored message is shown: its identifier in hexadecimal, its text as
/// it is.
pub open spec fn shown_message(message: MessageView) -> MessageResponseView
    recommends
        message.id is Some,
{
    MessageResponseView { id: hex_text(message.id.unwrap()), message: message.message }
}

impl Message {
    /// The record for a body that was received from the queue, under a fresh
    /// identifier.
    pub fn received(payload: &str) -> (m: Message)
        ensures
            m._id is Some,
            m.message@ == payload@,
    {
        Message { _id: Some(ObjectId::fresh()), message: payload.to_owned() }
    }
}

impl MessageResponse {
    /// Shows a stored message. A message without identifier is not a stored one.
    pub fn from_message(message: &Message) -> (r: MessageResponse)
        requires
            message._id is Some,
        ensures
            r@ == shown_message(message@),
    {
        let id = match message._id {
            Some(id) => id.to_hex(),
            None => String::new(),
        };
        MessageResponse { id, message: message.message.clone() }
    }
}

} // verus!
