use vstd::prelude::*;

use reqwest::Error as TransportError;
use serde_json::Error as JsonError;

verus! {

#[verifier::external_type_specification]
#[verifier::external_body]
pub struct ExTransportError(TransportError);

#[verifier::external_type_specification]
#[verifier::external_body]
pub struct ExJsonError(JsonError);

/// Every way in which sending a request can fail. `Ser` is the error of the
/// request's body encoding.
#[derive(Debug)]
pub enum Error<Ser = JsonError> {
    /// The transport failed before or during the exchange.
    ClientError(TransportError),
    /// The request body could not be encoded; nothing was sent.
    SerializationError(Ser),
    /// The exchange succeeded but the response body did not decode into the
    /// response type. Carries the decoder's error and the body as text.
    DeserializationError { error: JsonError, response_body: String },
    /// The response status was outside 200..=299. Carries the status and the
    /// body as text.
    InvalidStatusCode(u16, String),
}

impl<Ser> From<TransportError> for Error<Ser> {
    fn from(error: TransportError) -> Self {
        Error::ClientError(error)
    }
}

impl<Ser> vstd::std_specs::convert::FromSpecImpl<TransportError> for Error<Ser> {
    open spec fn obeys_from_spec() -> bool {
        true
    }

    open spec fn from_spec(error: TransportError) -> Self {
        Error::ClientError(error)
    }
}

} // verus!
