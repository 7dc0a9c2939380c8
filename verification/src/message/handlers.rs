//! The listing of the stored messages.

use crate::db::mongo::MongoError;
use crate::message::models::{Message, MessageResponse};
use crate::message::utils::{all_stored, have_ids, message_to_responses, shows_all};
use crate::status::{reply, Reply, INTERNAL_SERVER_ERROR};
use vstd::prelude::*;

verus! {

/// How the store's answer to a listing of the messages is passed on: the
/// messages in the store's order, or one sentence for every failure.
pub open spec fn listed(
    r: Result<Vec<MessageResponse>, Reply>,
    found: Result<Vec<Message>, MongoError>,
) -> bool {
    match found {
        Ok(messages) if all_stored(messages@) => r matches Ok(responses) && shows_all(
            responses@,
            messages@,
        ),
        _ => r matches Err(f) && f@ == reply(
            INTERNAL_SERVER_ERROR,
            "Failed to retrieve products"@,
        ),
    }
}

/// Answers a listing of the messages, once the store has answered.
pub fn list_messages(found: Result<Vec<Message>, MongoError>) -> (r: Result<
    Vec<MessageResponse>,
    Reply,
>)
    ensures
        listed(r, found),
{
    match found {
        Ok(messages) => {
            if have_ids(messages.as_slice()) {
                Ok(message_to_responses(messages.as_slice()))
            } else {
                Err(Reply::new(INTERNAL_SERVER_ERROR, "Failed to retrieve products"))
            }
        },
        Err(_) => Err(Reply::new(INTERNAL_SERVER_ERROR, "Failed to retrieve products")),
    }
}

} // verus!
