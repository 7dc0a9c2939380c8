//! Products, the bodies of the requests about them, and how they are shown.

use crate::clock::{display_utc, utc_text};
use crate::db::oid::{hex_text, object_id_option_view, ObjectId};
use vstd::prelude::*;

verus! {

/// A stored product. `P` is the representation of the price, which is carried
/// through and never computed with. The two times are milliseconds since the
/// epoch.
#[derive(Debug)]
pub struct Product<P> {
    pub _id: Option<ObjectId>,
    pub name: String,
    pub description: String,
    pub price: P,
    pub created_at: i64,
    pub updated_at: i64,
}

/// The mathematical value of [`Product`].
pub struct ProductView<P> {
    pub id: Option<Seq<u8>>,
    pub name: Seq<char>,
    pub description: Seq<char>,
    pub price: P,
    pub created_at: int,
    pub updated_at: int,
}

impl<P> View for Product<P> {
    type V = ProductView<P>;

    open spec fn view(&self) -> ProductView<P> {
        ProductView {
            id: object_id_option_view(self._id),
            name: self.name@,
            description: self.description@,
            price: self.price,
            created_at: self.created_at as int,
            updated_at: self.updated_at as int,
        }
    }
}

/// The body of a request to create a product.
#[derive(Debug)]
pub struct CreateProductRequest<P> {
    pub name: String,
    pub description: String,
    pub price: P,
}

/// The body of a request to change a product: each field that is present
/// replaces the stored one.
#[derive(Debug)]
pub struct UpdateProductRequest<P> {
    pub name: Option<String>,
    pub description: Option<String>,
    pub price: Option<P>,
}

impl<P> UpdateProductRequest<P> {
    /// The request names no field.
    pub open spec fn spec_is_empty(&self) -> bool {
        self.name is None && self.description is None && self.price is None
    }

    /// Whether the request names no field.
    #[verifier::when_used_as_spec(spec_is_empty)]
    pub fn is_empty(&self) -> (empty: bool)
        ensures
            empty == self.spec_is_empty(),
    {
        self.name.is_none() && self.description.is_none() && self.price.is_none()
    }
}

/// A product as it is shown to a caller and written into an event.
#[derive(Debug)]
pub struct ProductResponse<P> {
    pub id: String,
    pub name: String,
    pub description: String,
    pub price: P,
    pub created_at: String,
    pub updated_at: String,
}

/// The mathematical value of [`ProductResponse`].
pub struct ProductResponseView<P> {
    pub id: Seq<char>,
    pub name: Seq<char>,
    pub description: Seq<char>,
    pub price: P,
    pub created_at: Seq<char>,
    pub updated_at: Seq<char>,
}

impl<P> View for ProductResponse<P> {
    type V = ProductResponseView<P>;

    open spec fn view(&self) -> ProductResponseView<P> {
        ProductResponseView {
            id: self.id@,
            name: self.name@,
            description: self.description@,
            price: self.price,
            created_at: self.created_at@,
            updated_at: self.updated_at@,
        }
    }
}

/// How a stored product is shown: its identifier in hexadecimal, its times as
/// UTC text, the rest as it is.
pub open spec fn shown<P>(product: ProductView<P>) -> ProductResponseView<P>
    recommends
        product.id is Some,
{
    ProductResponseView {
        id: hex_text(product.id.unwrap()),
        name: product.name,
        description: product.description,
        price: product.price,
        created_at: utc_text(product.created_at),
        updated_at: utc_text(product.updated_at),
    }
}

impl<P: Copy> ProductResponse<P> {
    /// Shows a stored product. A product without identifier is not a stored one.
    pub fn from_product(product: &Product<P>) -> (r: ProductResponse<P>)
        requires
            product._id is Some,
        ensures
            r@ == shown(product@),
    {
        let id = match product._id {
            Some(id) => id.to_hex(),
            None => String::new(),
        };
        ProductResponse {
            id,
            name: product.name.clone(),
            description: product.description.clone(),
            price: product.price,
            created_at: display_utc(product.created_at),
            updated_at: display_utc(product.updated_at),
        }
    }
}

} // verus!
