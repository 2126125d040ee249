//! The lease client: the pure half of one renewal exchange.
//!
//! A renewal exchange is `POST {endpoint}/refresh?ticket={resourceId}`,
//! answered by a body that decodes as a [`Response`] around a
//! [`KeepAliveTicket`].  The transport work lives with the driver; this
//! module states what is sent (the refresh URL and the query pair) and
//! settles what a decoded response means: a fresh ticket, or one of the
//! client's typed failures.

use vstd::prelude::*;
use vstd::string::StringExecFns;
use crate::envelope::Decoded;
use crate::envelope::KeepAliveTicket;
use crate::envelope::Response;

verus! {

/// One renewal exchange's typed failures, each a distinct reportable kind.
#[derive(Debug, Clone)]
pub enum ClientError {
    /// The request never produced a decodable body: connection, timeout or
    /// DNS failure.
    Transport { message: String },
    /// The body was not a well-formed envelope.
    Decode { message: String },
    /// The control plane answered with a well-formed error envelope.
    Denied { kind: String, message: String, cause: Option<String> },
}

impl ClientError {
    /// A short name for the failure kind, for diagnostics.
    pub fn kind_name(&self) -> (r: String)
        ensures
            self is Transport ==> r@ == "TransportError"@,
            self is Decode ==> r@ == "DecodeError"@,
            self is Denied ==> r@ == "LeaseDenied"@,
    {
        match self {
            ClientError::Transport { .. } => String::from_str("TransportError"),
            ClientError::Decode { .. } => String::from_str("DecodeError"),
            ClientError::Denied { .. } => String::from_str("LeaseDenied"),
        }
    }
}

/// The URL a renewal is posted to: the configured endpoint with the
/// `/refresh` path appended.
pub fn refresh_url(endpoint: &str) -> (r: String)
    ensures
        r@ == endpoint@ + "/refresh"@,
{
    String::from_str(endpoint).concat("/refresh")
}

/// The single query pair a renewal carries: `ticket={resourceId}`.
pub fn ticket_query(resource_id: &str) -> (r: Vec<(String, String)>)
    ensures
        r@.len() == 1,
        r@[0].0@ == "ticket"@,
        r@[0].1@ == resource_id@,
{
    let mut query: Vec<(String, String)> = Vec::new();
    query.push((String::from_str("ticket"), String::from_str(resource_id)));
    query
}

/// Settle a decoded renewal response.
///
/// A response that populates exactly its payload yields the carried ticket;
/// one that populates exactly its error is a denial carrying the control
/// plane's own kind, message and cause; a response that populates both
/// halves or neither is a decode failure.  Success is owed exactly on the
/// payload-only responses.
pub fn interpret_response(response: Response<KeepAliveTicket>) -> (r: Result<
    KeepAliveTicket,
    ClientError,
>)
    ensures
        r is Ok <==> response.payload is Some && response.error is None,
        response.payload is Some && response.error is None ==> r->Ok_0
            == response.payload->0.object,
        response.error is Some && response.payload is None ==> (r->Err_0 matches
            ClientError::Denied { kind, message, cause } && kind == response.error->0.kind
            && message == response.error->0.message && cause == response.error->0.cause),
        !response.well_formed() ==> r->Err_0 is Decode,
    {
    match response.classify() {
        Ok(Decoded::Granted(payload)) => Ok(payload.object),
        Ok(Decoded::Denied(error)) => Err(
            ClientError::Denied { kind: error.kind, message: error.message, cause: error.cause },
        ),
        Err(_) => Err(
            ClientError::Decode {
                message: String::from_str("response carried both a payload and an error, or neither"),
            },
        ),
    }
}

} // verus!
