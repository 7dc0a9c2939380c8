//! Showing lists of products, and the record of how a publication ended.

use crate::kafka::producer::{KafkaError, KafkaFailure, ProductEvent, ProductEventType};
use crate::products::models::{shown, Product, ProductResponse};
use vstd::prelude::*;
use vstd::string::*;

verus! {

/// How much a line of the log weighs.
#[derive(Debug, Clone, Copy, PartialEq, Eq, Structural)]
pub enum LogLevel {
    Info,
    Error,
}

/// What the publisher writes down once an attempt to deliver an event has
/// ended. The attempt ends here: nothing else learns how it went.
#[derive(Debug)]
pub struct PublishReport {
    pub level: LogLevel,
    pub message: String,
}

/// The line for an event that was delivered.
pub open spec fn delivered_line(kind: ProductEventType) -> Seq<char> {
    "Successfully sent Kafka event: "@ + kind.spec_name()
}

/// The line for an event that was dropped: its kind, the product, the topic
/// and the cause.
pub open spec fn dropped_line(
    kind: ProductEventType,
    product_id: Seq<char>,
    topic: Seq<char>,
    cause: KafkaFailure,
) -> Seq<char> {
    "Failed to send Kafka event "@ + kind.spec_name() + " for product "@ + product_id
        + " to topic "@ + topic + ": "@ + cause.message()
}

/// Every product of the list has an identifier.
pub open spec fn all_stored<P>(products: Seq<Product<P>>) -> bool {
    forall|i: int| 0 <= i < products.len() ==> (#[trigger] products[i])._id is Some
}

/// `responses` shows the products of the list, one for one and in order.
pub open spec fn shows_all<P>(responses: Seq<ProductResponse<P>>, products: Seq<Product<P>>) -> bool {
    &&& responses.len() == products.len()
    &&& forall|i: int|
        0 <= i < responses.len() ==> (#[trigger] responses[i])@ == shown(products[i]@)
}

/// Writes down how the delivery of `event` to `topic` ended. A failure is
/// recorded with its full context and goes no further.
pub fn send_kafka_event<T>(topic: &str, event: &ProductEvent<T>, outcome: &Result<(), KafkaError>) -> (r:
    PublishReport)
    ensures
        match outcome {
            Ok(_) => r.level == LogLevel::Info && r.message@ == delivered_line(event.event_type),
            Err(e) => r.level == LogLevel::Error && r.message@ == dropped_line(
                event.event_type,
                event.product_id@,
                topic@,
                e@,
            ),
        },
{
    match outcome {
        Ok(_) => PublishReport {
            level: LogLevel::Info,
            message: String::from_str("Successfully sent Kafka event: ").concat(
                event.event_type.name(),
            ),
        },
        Err(e) => {
            let cause = e.message();
            PublishReport {
                level: LogLevel::Error,
                message: String::from_str("Failed to send Kafka event ").concat(
                    event.event_type.name(),
                ).concat(" for product ").concat(event.product_id.as_str()).concat(
                    " to topic ",
                ).concat(topic).concat(": ").concat(cause.as_str()),
            }
        },
    }
}

/// Whether every product of the list has an identifier.
pub fn have_ids<P>(products: &[Product<P>]) -> (all: bool)
    ensures
        all == all_stored(products@),
{
    let mut i: usize = 0;
    while i < products.len()
        invariant
            i <= products@.len(),
            forall|j: int| 0 <= j < i ==> (#[trigger] products@[j])._id is Some,
        decreases products@.len() - i,
    {
        if products[i]._id.is_none() {
            return false;
        }
        i += 1;
    }
    true
}

/// Shows each product of a list.
pub fn products_to_responses<P: Copy>(products: &[Product<P>]) -> (responses: Vec<
    ProductResponse<P>,
>)
    requires
        all_stored(products@),
    ensures
        shows_all(responses@, products@),
{
    let mut responses: Vec<ProductResponse<P>> = Vec::new();
    let mut i: usize = 0;
    while i < products.len()
        invariant
            i <= products@.len(),
            all_stored(products@),
            responses@.len() == i,
            forall|j: int| 0 <= j < i ==> (#[trigger] responses@[j])@ == shown(products@[j]@),
        decreases products@.len() - i,
    {
        responses.push(ProductResponse::from_product(&products[i]));
        i += 1;
    }
    responses
}

} // verus!
