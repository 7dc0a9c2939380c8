//! Showing lists of messages.

use crate::message::models::{shown_message, Message, MessageResponse};
use vstd::prelude::*;

verus! {

/// Every message of the list has an identifier.
pub open spec fn all_stored(messages: Seq<Message>) -> bool {
    forall|i: int| 0 <= i < messages.len() ==> (#[trigger] messages[i])._id is Some
}

/// `responses` shows the messages of the list, one for one and in order.
pub open spec fn shows_all(responses: Seq<MessageResponse>, messages: Seq<Message>) -> bool {
    &&& responses.len() == messages.len()
    &&& forall|i: int|
        0 <= i < responses.len() ==> (#[trigger] responses[i])@ == shown_message(messages[i]@)
}

/// Whether every message of the list has an identifier.
pub fn have_ids(messages: &[Message]) -> (all: bool)
    ensures
        all == all_stored(messages@),
{
    let mut i: usize = 0;
    while i < messages.len()
        invariant
            i <= messages@.len(),
            forall|j: int| 0 <= j < i ==> (#[trigger] messages@[j])._id is Some,
        decreases messages@.len() - i,
    {
        if messages[i]._id.is_none() {
            return false;
        }
        i += 1;
    }
    true
}

/// Shows each message of a list.
pub fn message_to_responses(messages: &[Message]) -> (responses: Vec<MessageResponse>)
    requires
        all_stored(messages@),
    ensures
        shows_all(responses@, messages@),
{
    let mut responses: Vec<MessageResponse> = Vec::new();
    let mut i: usize = 0;
    while i < messages.len()
        invariant
            i <= messages@.len(),
            all_stored(messages@),
            responses@.len() == i,
            forall|j: int|
                0 <= j < i ==> (#[trigger] responses@[j])@ == shown_message(messages@[j]@),
        decreases messages@.len() - i,
    {
        responses.push(MessageResponse::from_message(&messages[i]));
        i += 1;
    }
    responses
}

} // verus!
