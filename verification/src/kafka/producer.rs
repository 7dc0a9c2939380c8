//! Product events: the envelope, its JSON body, and the record that carries
//! it to the queue.

use crate::text::{decimal, decimal_text, json_quoted, quote_json};
use vstd::prelude::*;
use vstd::string::*;

verus! {

/// Why an event did not reach the queue.
#[derive(Debug)]
pub enum KafkaError {
    /// The transport refused or lost the record; holds its description.
    ProducerError(String),
    /// The payload could not be written as JSON; holds the cause.
    SerializationError(String),
    DeliveryTimeout,
}

/// The mathematical value of [`KafkaError`].
pub enum KafkaFailure {
    ProducerError(Seq<char>),
    SerializationError(Seq<char>),
    DeliveryTimeout,
}

impl View for KafkaError {
    type V = KafkaFailure;

    open spec fn view(&self) -> KafkaFailure {
        match self {
            KafkaError::ProducerError(cause) => KafkaFailure::ProducerError(cause@),
            KafkaError::SerializationError(cause) => KafkaFailure::SerializationError(cause@),
            KafkaError::DeliveryTimeout => KafkaFailure::DeliveryTimeout,
        }
    }
}

impl KafkaFailure {
    /// The sentence that describes the failure.
    pub open spec fn message(self) -> Seq<char> {
        match self {
            KafkaFailure::ProducerError(cause) => "Kafka producer error: "@ + cause,
            KafkaFailure::SerializationError(cause) => "Serialization error: "@ + cause,
            KafkaFailure::DeliveryTimeout => "Kafka message delivery timed out"@,
        }
    }
}

impl KafkaError {
    /// Renders the failure as a sentence, cause included.
    pub fn message(&self) -> (text: String)
        ensures
            text@ == self@.message(),
    {
        match self {
            KafkaError::ProducerError(cause) => String::from_str("Kafka producer error: ").concat(
                cause.as_str(),
            ),
            KafkaError::SerializationError(cause) => String::from_str(
                "Serialization error: ",
            ).concat(cause.as_str()),
            KafkaError::DeliveryTimeout => String::from_str("Kafka message delivery timed out"),
        }
    }
}

/// The kind of mutation that an event announces.
#[derive(Debug, Clone, Copy, PartialEq, Eq, Structural)]
pub enum ProductEventType {
    Created,
    Updated,
    Deleted,
}

impl ProductEventType {
    /// The name of the kind, as it is written into the event.
    pub open spec fn spec_name(self) -> Seq<char> {
        match self {
            ProductEventType::Created => "Created"@,
            ProductEventType::Updated => "Updated"@,
            ProductEventType::Deleted => "Deleted"@,
        }
    }

    /// The name of the kind, as it is written into the event.
    pub fn name(&self) -> (text: &'static str)
        ensures
            text@ == self.spec_name(),
    {
        match self {
            ProductEventType::Created => "Created",
            ProductEventType::Updated => "Updated",
            ProductEventType::Deleted => "Deleted",
        }
    }
}

/// The notification of one mutation: its kind, the identifier of the product,
/// a snapshot of the product where there is one left, and the millisecond
/// since the epoch at which the handler made it.
#[derive(Debug)]
pub struct ProductEvent<T> {
    pub event_type: ProductEventType,
    pub product_id: String,
    pub payload: Option<T>,
    pub timestamp: i64,
}

/// One record for the queue: where it goes, the key it is filed under, and
/// its JSON body.
#[derive(Debug)]
pub struct OutboundRecord {
    pub topic: String,
    pub key: String,
    pub payload: String,
}

/// The mathematical value of [`OutboundRecord`].
pub struct OutboundRecordView {
    pub topic: Seq<char>,
    pub key: Seq<char>,
    pub payload: Seq<char>,
}

impl View for OutboundRecord {
    type V = OutboundRecordView;

    open spec fn view(&self) -> OutboundRecordView {
        OutboundRecordView { topic: self.topic@, key: self.key@, payload: self.payload@ }
    }
}

/// The JSON body of an event: an object of the four fields `event_type`,
/// `product_id`, `payload` and `timestamp`, in this order and without spaces;
/// `snapshot` is the JSON text of the payload, and an event without one says
/// `null`.
pub open spec fn event_body(
    kind: ProductEventType,
    product_id: Seq<char>,
    snapshot: Option<Seq<char>>,
    timestamp: int,
) -> Seq<char> {
    "{\"event_type\":\""@ + kind.spec_name() + "\",\"product_id\":"@ + json_quoted(product_id)
        + ",\"payload\":"@ + (match snapshot {
        Some(json) => json,
        None => "null"@,
    }) + ",\"timestamp\":"@ + decimal_text(timestamp) + "}"@
}

/// The mathematical value of the JSON text of a payload, or of the failure to
/// write it.
pub open spec fn snapshot_view(snapshot: Result<String, String>) -> Result<Seq<char>, Seq<char>> {
    match snapshot {
        Ok(json) => Ok(json@),
        Err(cause) => Err(cause@),
    }
}

/// The mathematical value of a record that may have failed to build.
pub open spec fn record_view(r: Result<OutboundRecord, KafkaError>) -> Result<
    OutboundRecordView,
    KafkaFailure,
> {
    match r {
        Ok(record) => Ok(record@),
        Err(e) => Err(e@),
    }
}

/// The record that carries an event to `topic`: filed under the product's
/// identifier, with the event's JSON body. An event with a payload needs the
/// payload's JSON text; where that could not be written, no record is built.
pub open spec fn record_for(
    topic: Seq<char>,
    kind: ProductEventType,
    product_id: Seq<char>,
    has_payload: bool,
    timestamp: int,
    snapshot: Result<Seq<char>, Seq<char>>,
) -> Result<OutboundRecordView, KafkaFailure> {
    if has_payload {
        match snapshot {
            Ok(json) => Ok(
                OutboundRecordView {
                    topic,
                    key: product_id,
                    payload: event_body(kind, product_id, Some(json), timestamp),
                },
            ),
            Err(cause) => Err(KafkaFailure::SerializationError(cause)),
        }
    } else {
        Ok(
            OutboundRecordView {
                topic,
                key: product_id,
                payload: event_body(kind, product_id, None, timestamp),
            },
        )
    }
}

/// What the sender reports once the transport has answered.
pub open spec fn delivery_view(delivered: Result<(), String>) -> Result<(), KafkaFailure> {
    match delivered {
        Ok(()) => Ok(()),
        Err(cause) => Err(KafkaFailure::ProducerError(cause@)),
    }
}

/// The mathematical value of a sender's report.
pub open spec fn sent_view(r: Result<(), KafkaError>) -> Result<(), KafkaFailure> {
    match r {
        Ok(()) => Ok(()),
        Err(e) => Err(e@),
    }
}

/// Writes the JSON body of an event.
pub fn write_event_body(
    kind: ProductEventType,
    product_id: &str,
    snapshot: Option<&str>,
    timestamp: i64,
) -> (body: String)
    ensures
        body@ == event_body(
            kind,
            product_id@,
            match snapshot {
                Some(json) => Some(json@),
                None => None,
            },
            timestamp as int,
        ),
{
    let quoted = quote_json(product_id);
    let millis = decimal(timestamp);
    let payload = match snapshot {
        Some(json) => json,
        None => "null",
    };
    String::from_str("{\"event_type\":\"").concat(kind.name()).concat(
        "\",\"product_id\":",
    ).concat(quoted.as_str()).concat(",\"payload\":").concat(payload).concat(
        ",\"timestamp\":",
    ).concat(millis.as_str()).concat("}")
}

/// Builds the record that carries `event` to `topic`. `snapshot` is the JSON
/// text of the event's payload, or why it could not be written; it is not
/// looked at for an event without payload.
pub fn outbound_record<T>(topic: &str, event: &ProductEvent<T>, snapshot: Result<String, String>) -> (r:
    Result<OutboundRecord, KafkaError>)
    ensures
        record_view(r) == record_for(
            topic@,
            event.event_type,
            event.product_id@,
            event.payload is Some,
            event.timestamp as int,
            snapshot_view(snapshot),
        ),
{
    let body = if event.payload.is_some() {
        match snapshot {
            Ok(json) => write_event_body(
                event.event_type,
                event.product_id.as_str(),
                Some(json.as_str()),
                event.timestamp,
            ),
            Err(cause) => {
                return Err(KafkaError::SerializationError(cause));
            },
        }
    } else {
        write_event_body(event.event_type, event.product_id.as_str(), None, event.timestamp)
    };
    Ok(OutboundRecord { topic: topic.to_owned(), key: event.product_id.clone(), payload: body })
}

/// Reports what became of a record: the transport's refusal is a producer error.
pub fn delivery_outcome(delivered: Result<(), String>) -> (r: Result<(), KafkaError>)
    ensures
        sent_view(r) == delivery_view(delivered),
{
    match delivered {
        Ok(()) => Ok(()),
        Err(cause) => Err(KafkaError::ProducerError(cause)),
    }
}

} // verus!
