//! The failures of the document store, as the handlers see them.

use vstd::prelude::*;
use vstd::string::*;

verus! {

/// Why a call to the document store failed.
#[derive(Debug)]
pub enum MongoError {
    /// The driver reported an error; holds its description.
    MongoDb(String),
    NotFound,
    /// A unique key was taken; holds the key.
    DuplicateKey(String),
}

/// The mathematical value of [`MongoError`].
pub enum MongoFailure {
    MongoDb(Seq<char>),
    NotFound,
    DuplicateKey(Seq<char>),
}

impl View for MongoError {
    type V = MongoFailure;

    open spec fn view(&self) -> MongoFailure {
        match self {
            MongoError::MongoDb(cause) => MongoFailure::MongoDb(cause@),
            MongoError::NotFound => MongoFailure::NotFound,
            MongoError::DuplicateKey(key) => MongoFailure::DuplicateKey(key@),
        }
    }
}

impl MongoFailure {
    /// The sentence that describes the failure.
    pub open spec fn message(self) -> Seq<char> {
        match self {
            MongoFailure::MongoDb(cause) => "MongoDB error: "@ + cause,
            MongoFailure::NotFound => "Item not found"@,
            MongoFailure::DuplicateKey(key) => "Duplicate key error: "@ + key,
        }
    }
}

impl MongoError {
    /// Renders the failure as a sentence, cause included.
    pub fn message(&self) -> (text: String)
        ensures
            text@ == self@.message(),
    {
        match self {
            MongoError::MongoDb(cause) => String::from_str("MongoDB error: ").concat(
                cause.as_str(),
            ),
            MongoError::NotFound => String::from_str("Item not found"),
            MongoError::DuplicateKey(key) => String::from_str("Duplicate key error: ").concat(
                key.as_str(),
            ),
        }
    }
}

} // verus!
