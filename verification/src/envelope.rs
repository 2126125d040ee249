//! The data shapes exchanged with the control plane: the renewal response
//! envelope, its payload and error halves, and the lease tickets themselves.

use vstd::prelude::*;

verus! {

/// The success half of a renewal response: a `kind` tag naming the carried
/// object, plus the object itself.
#[derive(Debug, Clone)]
pub struct Payload<T> {
    pub kind: String,
    pub object: T,
}

/// The failure half of a renewal response: an error `kind` tag, a
/// human-readable message, and an optional underlying cause.
#[derive(Debug, Clone)]
pub struct Error {
    pub kind: String,
    pub message: String,
    pub cause: Option<String>,
}

/// The renewal response wrapper.  A well-formed response populates exactly
/// one of `payload` and `error`; [`well_formed`](Response::well_formed)
/// states that invariant, and [`classify`](Response::classify) rejects every
/// response that violates it.
#[derive(Debug, Clone)]
pub struct Response<T> {
    pub payload: Option<Payload<T>>,
    pub error: Option<Error>,
}

/// A well-formed response that has been branched on: either the control
/// plane granted a payload, or it returned an error envelope.
#[derive(Debug, Clone)]
pub enum Decoded<T> {
    Granted(Payload<T>),
    Denied(Error),
}

impl<T> Response<T> {
    /// Exactly one of the two halves is populated.
    pub open spec fn well_formed(self) -> bool {
        self.payload is Some <==> self.error is None
    }

    /// Fail-fast payload extraction.  Callers must have checked that a
    /// payload is present: on an error envelope this helper does not return
    /// control to the caller, so the caller rules that case out up front.
    pub fn expect(&self) -> (r: &T)
        requires
            self.payload is Some,
        ensures
            *r == self.payload->0.object,
    {
        if let Some(payload) = self.payload.as_ref() {
            &payload.object
        } else {
            unreached()
        }
    }

    /// Split a response into its populated half, rejecting a response in
    /// which both halves or neither half is present.
    pub fn classify(self) -> (r: Result<Decoded<T>, DecodeFault>)
        ensures
            r is Err <==> !self.well_formed(),
            self.payload is Some && self.error is None ==> r == Result::<
                Decoded<T>,
                DecodeFault,
            >::Ok(Decoded::Granted(self.payload->0)),
            self.error is Some && self.payload is None ==> r == Result::<
                Decoded<T>,
                DecodeFault,
            >::Ok(Decoded::Denied(self.error->0)),
    {
        match (self.payload, self.error) {
            (Some(payload), None) => Ok(Decoded::Granted(payload)),
            (None, Some(error)) => Ok(Decoded::Denied(error)),
            (Some(_), Some(_)) => Err(DecodeFault::BothPresent),
            (None, None) => Err(DecodeFault::NeitherPresent),
        }
    }
}

/// Why a response body could not be decoded into a usable envelope.
#[derive(Debug, Clone, PartialEq, Eq, Structural)]
pub enum DecodeFault {
    /// Both `payload` and `error` were populated.
    BothPresent,
    /// Neither `payload` nor `error` was populated.
    NeitherPresent,
}

/// A lease instance as the control plane reports it.
#[derive(Debug, Clone)]
pub struct Ticket {
    /// `ticket` is the unique identifier for this lease.
    ///
    /// It is currently simply the name of the pod that it is tied to,
    /// however this should not be taken to be a guarantee of future
    /// behavior.
    pub ticket: String,
    /// `execution_date` is the Unix timestamp of the exact moment when the
    /// lease becomes invalid and deletion of the backing pod will commence.
    ///
    /// There is no grace period.
    pub execution_date: i64,
}

/// The lease carried by a renewal response.  Same shape as [`Ticket`], but
/// its fields are private: consumers read it through
/// [`ticket_id`](KeepAliveTicket::ticket_id) and
/// [`expires_at`](KeepAliveTicket::expires_at).
#[derive(Debug, Clone)]
pub struct KeepAliveTicket {
    /// `ticket` is the unique identifier for this lease.
    ///
    /// It is currently simply the name of the pod that it is tied to,
    /// however this should not be taken to be a guarantee of future
    /// behavior.
    ticket: String,
    /// `execution_date` is the Unix timestamp of the exact moment when the
    /// lease becomes invalid and deletion of the backing pod will commence.
    ///
    /// There is no grace period.
    execution_date: i64,
}

impl KeepAliveTicket {
    /// The lease identifier, for contracts.
    pub closed spec fn id(self) -> Seq<char> {
        self.ticket@
    }

    /// The expiry timestamp, for contracts.
    pub closed spec fn expiry(self) -> int {
        self.execution_date as int
    }

    pub fn new(ticket: String, execution_date: i64) -> (r: KeepAliveTicket)
        ensures
            r.id() == ticket@,
            r.expiry() == execution_date as int,
    {
        KeepAliveTicket { ticket, execution_date }
    }

    /// The lease identifier.
    pub fn ticket_id(&self) -> (r: &String)
        ensures
            r@ == self.id(),
    {
        &self.ticket
    }

    /// The Unix timestamp at which the lease becomes invalid.
    pub fn expires_at(&self) -> (r: i64)
        ensures
            r as int == self.expiry(),
    {
        self.execution_date
    }
}

/// A container image reference, as the control plane reports it.
#[derive(Debug, Clone)]
pub struct Image {
    pub tag: String,
    pub digest: String,
}

#[verifier::external_type_specification]
#[verifier::external_body]
pub struct ExPod(k8s_openapi::api::core::v1::Pod);

/// Relies on the cluster library's derived `Clone` for `Pod`; the value is
/// opaque here, so nothing is assumed of the copy.
pub assume_specification[ <k8s_openapi::api::core::v1::Pod as Clone>::clone ](
    pod: &k8s_openapi::api::core::v1::Pod,
) -> k8s_openapi::api::core::v1::Pod;

/// A lease together with the cluster workload pod it keeps alive.  The
/// pod's concrete shape is the cluster library's affair and is carried
/// through opaquely; this crate reads nothing of it.
#[derive(Clone)]
pub struct PodTicket {
    pub pod: k8s_openapi::api::core::v1::Pod,
    pub ticket: Ticket,
}

} // verus!
