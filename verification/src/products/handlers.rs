//! The product routes, each as steps between the calls to the store. A step
//! that closes a mutation settles the answer to the caller and the event to
//! publish together, so that nothing that happens to the event afterwards can
//! reach the answer.

use crate::clock::unix_millis_now;
use crate::config::Config;
use crate::db::mongo::MongoError;
use crate::db::oid::{hex_text, parsed_object_id, ObjectId};
use crate::kafka::producer::{ProductEvent, ProductEventType};
use crate::products::models::{
    shown, CreateProductRequest, Product, ProductResponse, ProductResponseView, ProductView,
    UpdateProductRequest,
};
use crate::products::utils::{all_stored, have_ids, products_to_responses, shows_all};
use crate::status::{
    reply, Reply, ReplyView, BAD_REQUEST, CREATED, INTERNAL_SERVER_ERROR, NOT_FOUND, OK,
};
use vstd::prelude::*;
use vstd::string::*;

verus! {

/// The answer of a product handler.
#[derive(Debug)]
pub enum ProductReply<P> {
    /// A status and the product as the body.
    Product(u16, ProductResponse<P>),
    /// Status 204 and no body.
    NoContent,
    /// A status and a sentence.
    Failure(Reply),
}

/// What a handler leaves behind once the store has confirmed or refused a
/// mutation: the answer to the caller, and the event to publish, if any. The
/// answer is settled here, before anything is handed to the queue.
#[derive(Debug)]
pub struct Handled<P> {
    pub reply: ProductReply<P>,
    pub event: Option<ProductEvent<ProductResponse<P>>>,
}

/// An event on its way out: the event, and the topic that it is published to.
#[derive(Debug)]
pub struct Publication<P> {
    pub topic: String,
    pub event: ProductEvent<ProductResponse<P>>,
}

/// What to ask of the store for a change request: the product, and the
/// millisecond to stamp it with where the request names a field to set. A
/// request that names none only reads the product.
#[derive(Debug)]
pub struct UpdatePlan {
    pub id: ObjectId,
    pub touch: Option<i64>,
}

/// The answer is `status` with `body`.
pub open spec fn answers_with<P>(r: ProductReply<P>, status: u16, body: ProductResponseView<P>) -> bool {
    r matches ProductReply::Product(s, b) && s == status && b@ == body
}

/// The answer is the failure `status` with the sentence `text`.
pub open spec fn fails_with<P>(r: ProductReply<P>, status: u16, text: Seq<char>) -> bool {
    r matches ProductReply::Failure(f) && f@ == reply(status, text)
}

/// There is an event, and it says that `product_id` was subject to `kind` at
/// millisecond `at`, with `payload` as the snapshot.
pub open spec fn announces<P>(
    event: Option<ProductEvent<ProductResponse<P>>>,
    kind: ProductEventType,
    product_id: Seq<char>,
    payload: Option<ProductResponseView<P>>,
    at: int,
) -> bool {
    &&& event matches Some(e)
    &&& e.event_type == kind
    &&& e.product_id@ == product_id
    &&& e.timestamp == at
    &&& match payload {
        Some(p) => e.payload matches Some(q) && q@ == p,
        None => e.payload is None,
    }
}

/// The product that a create request describes, under identifier `id` and
/// made at millisecond `now`.
pub open spec fn described<P>(payload: CreateProductRequest<P>, id: Seq<u8>, now: int) -> ProductView<
    P,
> {
    ProductView {
        id: Some(id),
        name: payload.name@,
        description: payload.description@,
        price: payload.price,
        created_at: now,
        updated_at: now,
    }
}

/// What a create request leaves behind at millisecond `now`, once the store
/// has answered the insert of `product`: only a confirmed insert is answered
/// with the product and announced.
pub open spec fn created<P>(
    r: Handled<P>,
    product: ProductView<P>,
    inserted: Result<ObjectId, MongoError>,
    now: int,
) -> bool {
    match inserted {
        Ok(id) if product.id is Some => {
            &&& answers_with(r.reply, CREATED, shown(product))
            &&& announces(
                r.event,
                ProductEventType::Created,
                hex_text(id@),
                Some(shown(product)),
                now,
            )
        },
        _ => fails_with(r.reply, INTERNAL_SERVER_ERROR, "Failed to create product"@) && r.event
            is None,
    }
}

/// The mathematical value of a parsed identifier, or of the answer to a bad one.
pub open spec fn id_or_reply_view(r: Result<ObjectId, Reply>) -> Result<Seq<u8>, ReplyView> {
    match r {
        Ok(id) => Ok(id@),
        Err(f) => Err(f@),
    }
}

/// The identifier that a path names; a path that is not twenty-four
/// hexadecimal digits is answered as a bad request.
pub open spec fn named_product(id: Seq<char>) -> Result<Seq<u8>, ReplyView> {
    match parsed_object_id(id) {
        Some(bytes) => Ok(bytes),
        None => Err(reply(BAD_REQUEST, "Invalid product ID format"@)),
    }
}

/// How the store's answer to a read is passed on.
pub open spec fn fetched<P>(r: ProductReply<P>, found: Result<Option<Product<P>>, MongoError>) -> bool {
    match found {
        Ok(Some(product)) if product._id is Some => answers_with(r, OK, shown(product@)),
        Ok(None) => fails_with(r, NOT_FOUND, "Product not found"@),
        _ => fails_with(r, INTERNAL_SERVER_ERROR, "Failed to retrieve product"@),
    }
}

/// How the store's answer to a listing is passed on: the products in the
/// store's order, or one sentence for every fault, which holds nothing of what
/// the store said.
pub open spec fn listed<P>(
    r: Result<Vec<ProductResponse<P>>, Reply>,
    found: Result<Vec<Product<P>>, MongoError>,
) -> bool {
    match found {
        Ok(products) if all_stored(products@) => r matches Ok(responses) && shows_all(
            responses@,
            products@,
        ),
        _ => r matches Err(f) && f@ == reply(
            INTERNAL_SERVER_ERROR,
            "Failed to retrieve products"@,
        ),
    }
}

/// The plan for a change request at millisecond `now`.
pub open spec fn planned(r: Result<UpdatePlan, Reply>, id: Seq<char>, names_no_field: bool, now: int) -> bool {
    match parsed_object_id(id) {
        Some(bytes) => {
            &&& r matches Ok(plan)
            &&& plan.id@ == bytes
            &&& if names_no_field {
                plan.touch is None
            } else {
                plan.touch == Some(now as i64)
            }
        },
        None => r matches Err(f) && f@ == reply(BAD_REQUEST, "Invalid product ID format"@),
    }
}

/// What the store's answer to an update settles: a product that was matched is
/// read back, anything else is answered.
pub open spec fn update_reply(updated: Result<bool, MongoError>) -> Option<ReplyView> {
    match updated {
        Ok(true) => None,
        Ok(false) => Some(reply(NOT_FOUND, "Product not found"@)),
        Err(_) => Some(reply(INTERNAL_SERVER_ERROR, "Failed to update product"@)),
    }
}

/// What a change request leaves behind at millisecond `now`, once the changed
/// product was read back: only a product that is there is answered and
/// announced, under the identifier as the path spelled it.
pub open spec fn updated<P>(
    r: Handled<P>,
    id: Seq<char>,
    found: Result<Option<Product<P>>, MongoError>,
    now: int,
) -> bool {
    match found {
        Ok(Some(product)) if product._id is Some => {
            &&& answers_with(r.reply, OK, shown(product@))
            &&& announces(r.event, ProductEventType::Updated, id, Some(shown(product@)), now)
        },
        _ => fails_with(r.reply, INTERNAL_SERVER_ERROR, "Failed to retrieve updated product"@)
            && r.event is None,
    }
}

/// What a delete request leaves behind at millisecond `now`, once the store
/// has answered: only a confirmed removal is announced, without snapshot.
pub open spec fn deleted<P>(r: Handled<P>, id: Seq<char>, removed: Result<bool, MongoError>, now: int) -> bool {
    match removed {
        Ok(true) => r.reply is NoContent && announces(
            r.event,
            ProductEventType::Deleted,
            id,
            None,
            now,
        ),
        Ok(false) => fails_with(r.reply, NOT_FOUND, "Product not found"@) && r.event is None,
        Err(_) => fails_with(r.reply, INTERNAL_SERVER_ERROR, "Failed to delete product"@)
            && r.event is None,
    }
}

impl<P> Handled<P> {
    /// Parts the answer from what is to be published. The event of a product
    /// handler goes to the topic that the settings name for product events,
    /// and the answer is the same with or without an event.
    pub fn conclude(self, config: &Config) -> (r: (ProductReply<P>, Option<Publication<P>>))
        ensures
            r.0 == self.reply,
            match self.event {
                Some(e) => r.1 matches Some(p) && p.event == e && p.topic@
                    == config.kafka_product_events_topic@,
                None => r.1 is None,
            },
    {
        match self.event {
            Some(event) => (
                self.reply,
                Some(Publication { topic: config.kafka_product_events_topic.clone(), event }),
            ),
            None => (self.reply, None),
        }
    }
}

/// Reads the identifier that a path names.
fn parse_id(id: &str) -> (r: Result<ObjectId, Reply>)
    ensures
        id_or_reply_view(r) == named_product(id@),
{
    match ObjectId::parse_str(id) {
        Some(oid) => Ok(oid),
        None => Err(Reply::new(BAD_REQUEST, "Invalid product ID format")),
    }
}

/// Makes the product that a create request describes, under the identifier
/// and at the millisecond given.
pub fn new_product<P>(payload: CreateProductRequest<P>, id: ObjectId, now: i64) -> (product: Product<
    P,
>)
    ensures
        product@ == described(payload, id@, now as int),
{
    Product {
        _id: Some(id),
        name: payload.name,
        description: payload.description,
        price: payload.price,
        created_at: now,
        updated_at: now,
    }
}

/// Opens a create request: makes the product to insert, under a fresh
/// identifier and as of the current millisecond.
pub fn create_product<P>(payload: CreateProductRequest<P>) -> (product: Product<P>)
    ensures
        exists|id: Seq<u8>, now: int|
            0 <= now <= i64::MAX && product@ == #[trigger] described(payload, id, now),
{
    let id = ObjectId::fresh();
    let now = unix_millis_now();
    new_product(payload, id, now)
}

/// Closes a create request at millisecond `now`, once the store has answered
/// the insert of `product`.
pub fn create_product_inserted_at<P: Copy>(
    product: &Product<P>,
    inserted: Result<ObjectId, MongoError>,
    now: i64,
) -> (r: Handled<P>)
    ensures
        created(r, product@, inserted, now as int),
{
    match inserted {
        Ok(id) => {
            if product._id.is_some() {
                let event = ProductEvent {
                    event_type: ProductEventType::Created,
                    product_id: id.to_hex(),
                    payload: Some(ProductResponse::from_product(product)),
                    timestamp: now,
                };
                Handled {
                    reply: ProductReply::Product(CREATED, ProductResponse::from_product(product)),
                    event: Some(event),
                }
            } else {
                Handled {
                    reply: ProductReply::Failure(
                        Reply::new(INTERNAL_SERVER_ERROR, "Failed to create product"),
                    ),
                    event: None,
                }
            }
        },
        Err(_) => Handled {
            reply: ProductReply::Failure(
                Reply::new(INTERNAL_SERVER_ERROR, "Failed to create product"),
            ),
            event: None,
        },
    }
}

/// Closes a create request as of the current millisecond.
pub fn create_product_inserted<P: Copy>(product: &Product<P>, inserted: Result<ObjectId, MongoError>) -> (r:
    Handled<P>)
    ensures
        exists|now: int| 0 <= now <= i64::MAX && #[trigger] created(r, product@, inserted, now),
{
    let now = unix_millis_now();
    create_product_inserted_at(product, inserted, now)
}

/// Opens a read request: names the product to read.
pub fn get_product(id: &str) -> (r: Result<ObjectId, Reply>)
    ensures
        id_or_reply_view(r) == named_product(id@),
{
    parse_id(id)
}

/// Closes a read request, once the store has answered.
pub fn get_product_found<P: Copy>(found: Result<Option<Product<P>>, MongoError>) -> (r: ProductReply<
    P,
>)
    ensures
        fetched(r, found),
{
    match found {
        Ok(Some(product)) => {
            if product._id.is_some() {
                ProductReply::Product(OK, ProductResponse::from_product(&product))
            } else {
                ProductReply::Failure(
                    Reply::new(INTERNAL_SERVER_ERROR, "Failed to retrieve product"),
                )
            }
        },
        Ok(None) => ProductReply::Failure(Reply::new(NOT_FOUND, "Product not found")),
        Err(_) => ProductReply::Failure(
            Reply::new(INTERNAL_SERVER_ERROR, "Failed to retrieve product"),
        ),
    }
}

/// Answers a listing, once the store has answered.
pub fn list_products<P: Copy>(found: Result<Vec<Product<P>>, MongoError>) -> (r: Result<
    Vec<ProductResponse<P>>,
    Reply,
>)
    ensures
        listed(r, found),
{
    match found {
        Ok(products) => {
            if have_ids(products.as_slice()) {
                Ok(products_to_responses(products.as_slice()))
            } else {
                Err(Reply::new(INTERNAL_SERVER_ERROR, "Failed to retrieve products"))
            }
        },
        Err(_) => Err(Reply::new(INTERNAL_SERVER_ERROR, "Failed to retrieve products")),
    }
}

/// Opens a change request at millisecond `now`.
pub fn update_product_at<P>(id: &str, payload: &UpdateProductRequest<P>, now: i64) -> (r: Result<
    UpdatePlan,
    Reply,
>)
    ensures
        planned(r, id@, payload.is_empty(), now as int),
{
    match parse_id(id) {
        Ok(oid) => {
            if payload.is_empty() {
                Ok(UpdatePlan { id: oid, touch: None })
            } else {
                Ok(UpdatePlan { id: oid, touch: Some(now) })
            }
        },
        Err(f) => Err(f),
    }
}

/// Opens a change request as of the current millisecond.
pub fn update_product<P>(id: &str, payload: &UpdateProductRequest<P>) -> (r: Result<
    UpdatePlan,
    Reply,
>)
    ensures
        exists|now: int| 0 <= now <= i64::MAX && #[trigger] planned(r, id@, payload.is_empty(), now),
{
    let now = unix_millis_now();
    update_product_at(id, payload, now)
}

/// Goes on with a change request, once the store has answered the update:
/// `None` says to read the product back.
pub fn update_product_updated(updated: Result<bool, MongoError>) -> (r: Option<Reply>)
    ensures
        match update_reply(updated) {
            Some(f) => r matches Some(g) && g@ == f,
            None => r is None,
        },
{
    match updated {
        Ok(true) => None,
        Ok(false) => Some(Reply::new(NOT_FOUND, "Product not found")),
        Err(_) => Some(Reply::new(INTERNAL_SERVER_ERROR, "Failed to update product")),
    }
}

/// Closes a change request at millisecond `now`, once the changed product was
/// read back.
pub fn update_product_found_at<P: Copy>(
    id: &str,
    found: Result<Option<Product<P>>, MongoError>,
    now: i64,
) -> (r: Handled<P>)
    ensures
        updated(r, id@, found, now as int),
{
    match found {
        Ok(Some(product)) => {
            if product._id.is_some() {
                let event = ProductEvent {
                    event_type: ProductEventType::Updated,
                    product_id: id.to_owned(),
                    payload: Some(ProductResponse::from_product(&product)),
                    timestamp: now,
                };
                Handled {
                    reply: ProductReply::Product(OK, ProductResponse::from_product(&product)),
                    event: Some(event),
                }
            } else {
                Handled {
                    reply: ProductReply::Failure(
                        Reply::new(INTERNAL_SERVER_ERROR, "Failed to retrieve updated product"),
                    ),
                    event: None,
                }
            }
        },
        _ => Handled {
            reply: ProductReply::Failure(
                Reply::new(INTERNAL_SERVER_ERROR, "Failed to retrieve updated product"),
            ),
            event: None,
        },
    }
}

/// Closes a change request as of the current millisecond.
pub fn update_product_found<P: Copy>(id: &str, found: Result<Option<Product<P>>, MongoError>) -> (r:
    Handled<P>)
    ensures
        exists|now: int| 0 <= now <= i64::MAX && #[trigger] updated(r, id@, found, now),
{
    let now = unix_millis_now();
    update_product_found_at(id, found, now)
}

/// Opens a delete request: names the product to remove.
pub fn delete_product(id: &str) -> (r: Result<ObjectId, Reply>)
    ensures
        id_or_reply_view(r) == named_product(id@),
{
    parse_id(id)
}

/// Closes a delete request at millisecond `now`, once the store has answered.
pub fn delete_product_deleted_at<P>(id: &str, removed: Result<bool, MongoError>, now: i64) -> (r:
    Handled<P>)
    ensures
        deleted(r, id@, removed, now as int),
{
    match removed {
        Ok(true) => Handled {
            reply: ProductReply::NoContent,
            event: Some(
                ProductEvent {
                    event_type: ProductEventType::Deleted,
                    product_id: id.to_owned(),
                    payload: None,
                    timestamp: now,
                },
            ),
        },
        Ok(false) => Handled {
            reply: ProductReply::Failure(Reply::new(NOT_FOUND, "Product not found")),
            event: None,
        },
        Err(_) => Handled {
            reply: ProductReply::Failure(
                Reply::new(INTERNAL_SERVER_ERROR, "Failed to delete product"),
            ),
            event: None,
        },
    }
}

/// Closes a delete request as of the current millisecond.
pub fn delete_product_deleted<P>(id: &str, removed: Result<bool, MongoError>) -> (r: Handled<P>)
    ensures
        exists|now: int| 0 <= now <= i64::MAX && #[trigger] deleted(r, id@, removed, now),
{
    let now = unix_millis_now();
    delete_product_deleted_at(id, removed, now)
}

/// A create request announces exactly what it answers with success: there is
/// an event only where the store confirmed the insert.
pub proof fn lemma_create_announces_what_was_stored<P>(
    r: Handled<P>,
    product: ProductView<P>,
    inserted: Result<ObjectId, MongoError>,
    now: int,
)
    requires
        created(r, product, inserted, now),
    ensures
        r.event is Some ==> inserted is Ok,
        r.event is Some <==> r.reply is Product,
{
}

/// A change request announces exactly what it answers with success: there is
/// an event only where the changed product was read back from the store.
pub proof fn lemma_update_announces_what_was_stored<P>(
    r: Handled<P>,
    id: Seq<char>,
    found: Result<Option<Product<P>>, MongoError>,
    now: int,
)
    requires
        updated(r, id, found, now),
    ensures
        r.event is Some ==> found matches Ok(Some(_)),
        r.event is Some <==> r.reply is Product,
{
}

/// A delete request announces exactly what it answers with success: there is
/// an event only where the store confirmed the removal.
pub proof fn lemma_delete_announces_what_was_removed<P>(
    r: Handled<P>,
    id: Seq<char>,
    removed: Result<bool, MongoError>,
    now: int,
)
    requires
        deleted(r, id, removed, now),
    ensures
        r.event is Some <==> removed matches Ok(true),
        r.event is Some <==> r.reply is NoContent,
{
}

} // verus!
