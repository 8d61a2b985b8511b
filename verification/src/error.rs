//! What can go wrong between a typed payload and a typed answer.

use vstd::prelude::*;

verus! {

/// The failures of the client. Each ends the operation in which it occurs.
#[derive(Clone, Debug, PartialEq)]
pub enum ApiError {
    /// The private key is not one.
    InvalidKey,
    /// The key was accepted and signing failed.
    SignError,
    /// A payload for a multipart form holds an object in a field, or an array
    /// item that is no scalar.
    UnsupportedNesting,
    /// An item of a bytes field is not an integer between 0 and 255.
    InvalidByteValue,
    /// A payload for a multipart form is not a JSON object.
    NotAnObject,
    /// A query payload is neither empty nor an object of scalars.
    UnsupportedQuery,
    /// More task ids were given than one call may ask for.
    TooManyIds,
    /// The request could not be sent or no answer came back.
    TransportError(String),
    /// The answer is not the envelope, or its result is not of the expected
    /// type. Holds the answer as it came.
    DecodeError(String),
}

impl ApiError {
    /// The sentence for the failure: a fixed one for each kind; the cause of a
    /// transport failure as it was given; the answer behind a fixed prefix for
    /// a decode failure.
    pub open spec fn message_text(&self) -> Seq<char> {
        match self {
            ApiError::InvalidKey => "Private key does not parse"@,
            ApiError::SignError => "Signing failed"@,
            ApiError::UnsupportedNesting => "Nested json objects not supported"@,
            ApiError::InvalidByteValue => "Byte must be u8 type"@,
            ApiError::NotAnObject => "Top level of json must be Object type"@,
            ApiError::UnsupportedQuery => "unsupported value"@,
            ApiError::TooManyIds => "Cannot be larger than max 10"@,
            ApiError::TransportError(cause) => cause@,
            ApiError::DecodeError(body) => "Response does not decode: "@ + body@,
        }
    }

    /// A sentence for the failure.
    pub fn message(&self) -> (r: String)
        ensures
            r@ == self.message_text(),
    {
        match self {
            ApiError::InvalidKey => String::from_str("Private key does not parse"),
            ApiError::SignError => String::from_str("Signing failed"),
            ApiError::UnsupportedNesting => String::from_str("Nested json objects not supported"),
            ApiError::InvalidByteValue => String::from_str("Byte must be u8 type"),
            ApiError::NotAnObject => String::from_str("Top level of json must be Object type"),
            ApiError::UnsupportedQuery => String::from_str("unsupported value"),
            ApiError::TooManyIds => String::from_str("Cannot be larger than max 10"),
            ApiError::TransportError(cause) => cause.clone(),
            ApiError::DecodeError(body) => {
                let mut r = String::from_str("Response does not decode: ");
                r.append(body.as_str());
                r
            },
        }
    }
}

} // verus!
