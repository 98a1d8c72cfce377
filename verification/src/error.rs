//! What can go wrong at the gateway, which of it the caller gets to see, and
//! under which status.

use crate::audit::{listing_fields, records_of, request_views, Request};
use crate::document::{access_error_text, describe_access_error};
use crate::envelope::Envelope;
use crate::forward::{failure_status, ForwardError};
use bson::document::ValueAccessError;
use bson::Document;
use vstd::prelude::*;
use vstd::string::StringExecFns;

verus! {

/// A failure of the audit store or of a document read from it.
#[derive(Debug)]
pub enum ProxyError {
    /// A stored document lacks a field or holds it under another type.
    InvalidFieldError(ValueAccessError),
    /// The store failed; `source` is what it said.
    MongoDBOperationError { source: String },
}

/// The error envelope of the endpoints that answer in JSON.
#[derive(Debug)]
pub struct JsonError {
    pub msg: String,
    pub status: u16,
    pub success: bool,
}

/// The kinds of failure at the gateway.
#[derive(Clone, Copy, Debug, PartialEq, Eq, Structural)]
pub enum GatewayError {
    /// The `Authorization` header holds no credential.
    MalformedCredential,
    /// The credential is unknown to the key authority, or disabled.
    KeyDenied,
    /// The key authority could not be asked or answered out of shape.
    UpstreamAuthUnavailable,
    /// The backend could not be had.
    ForwardFailure(ForwardError),
    /// The audit record could not be written.
    AuditWriteFailure,
}

/// What a `ProxyError` says of itself.
pub open spec fn proxy_error_text(error: ProxyError) -> Seq<char> {
    match error {
        ProxyError::InvalidFieldError(inner) => "invalid field in BSON document: "@
            + access_error_text(inner),
        ProxyError::MongoDBOperationError { source } => "Operation failed: "@ + source@,
    }
}

/// The status that the caller sees for a failure; none for a failure that is
/// kept from the caller.
pub open spec fn caller_status(error: GatewayError) -> Option<u16> {
    match error {
        GatewayError::MalformedCredential => Some(401),
        GatewayError::KeyDenied => Some(403),
        GatewayError::UpstreamAuthUnavailable => Some(503),
        GatewayError::ForwardFailure(inner) => Some(failure_status(inner)),
        GatewayError::AuditWriteFailure => None,
    }
}

/// The line that is logged once the audit write has ended.
pub open spec fn audit_note(outcome: Result<(), ProxyError>) -> Seq<char> {
    match outcome {
        Ok(_) => "Request logged"@,
        Err(error) => "Error logging request: "@ + proxy_error_text(error),
    }
}

impl ProxyError {
    /// What the error says of itself.
    pub fn message(&self) -> (text: String)
        ensures
            text@ == proxy_error_text(*self),
    {
        match self {
            ProxyError::InvalidFieldError(inner) => {
                let detail = describe_access_error(inner);
                "invalid field in BSON document: ".to_owned().concat(detail.as_str())
            },
            ProxyError::MongoDBOperationError { source } => {
                "Operation failed: ".to_owned().concat(source.as_str())
            },
        }
    }
}

impl JsonError {
    /// The envelope for a failure of the audit store: status 500, and the
    /// error's own words.
    pub fn from(err: ProxyError) -> (envelope: JsonError)
        ensures
            envelope.msg@ == proxy_error_text(err),
            envelope.status == 500,
            !envelope.success,
    {
        let status: u16 = match err {
            ProxyError::MongoDBOperationError { source: _ } | ProxyError::InvalidFieldError(_) => 500,
        };
        JsonError { msg: err.message(), status, success: false }
    }
}

impl GatewayError {
    /// The status that the caller sees for this failure, if the caller sees
    /// it at all.
    pub fn status(&self) -> (status: Option<u16>)
        ensures
            status == caller_status(*self),
    {
        match self {
            GatewayError::MalformedCredential => Some(401),
            GatewayError::KeyDenied => Some(403),
            GatewayError::UpstreamAuthUnavailable => Some(503),
            GatewayError::ForwardFailure(inner) => Some(inner.status()),
            GatewayError::AuditWriteFailure => None,
        }
    }
}

/// The line to log once the audit write has ended. This is all that ever
/// comes of a failed write.
pub fn note_audit(outcome: &Result<(), ProxyError>) -> (line: String)
    ensures
        line@ == audit_note(*outcome),
{
    match outcome {
        Ok(_) => "Request logged".to_owned(),
        Err(error) => {
            let detail = error.message();
            "Error logging request: ".to_owned().concat(detail.as_str())
        },
    }
}

/// The records of a listing that the store handed out as `docs` before it
/// came to its end, or before it broke off with `broken`. A document that
/// holds no record is reported first; else the store's failure, if there was
/// one; else the records, in the order of the listing.
pub fn listed(docs: &Vec<Document>, broken: Option<ProxyError>) -> (r: Result<
    Vec<Request>,
    ProxyError,
>)
    ensures
        match records_of(listing_fields(docs@)) {
            Err(refusal) => r matches Err(ProxyError::InvalidFieldError(inner)) && inner == refusal,
            Ok(records) => match broken {
                Some(error) => r matches Err(same) && same == error,
                None => r matches Ok(read) && request_views(read@) == records,
            },
        },
{
    match Request::from_documents(docs) {
        Err(refusal) => Err(ProxyError::InvalidFieldError(refusal)),
        Ok(read) => match broken {
            Some(error) => Err(error),
            None => Ok(read),
        },
    }
}

/// What an audit endpoint answers for what the store gave: the envelope
/// around it, or the error envelope for the store's failure.
pub fn answered<T>(found: Result<T, ProxyError>) -> (r: Result<Envelope<T>, JsonError>)
    ensures
        match found {
            Ok(payload) => r matches Ok(envelope) && envelope.status == 200 && envelope.success
                && envelope.payload == payload,
            Err(error) => r matches Err(envelope) && envelope.msg@ == proxy_error_text(error)
                && envelope.status == 500 && !envelope.success,
        },
{
    match found {
        Ok(payload) => Ok(Envelope::ok(payload)),
        Err(error) => Err(JsonError::from(error)),
    }
}

/// Denials reach the caller in the 4xx class, failures of the key authority
/// and of the backend in the 5xx class, and a failed audit write not at all.
pub proof fn lemma_status_classes(error: GatewayError)
    ensures
        match error {
            GatewayError::MalformedCredential | GatewayError::KeyDenied => caller_status(error)
                matches Some(status) && 400 <= status < 500,
            GatewayError::UpstreamAuthUnavailable | GatewayError::ForwardFailure(_) => caller_status(
                error,
            ) matches Some(status) && 500 <= status < 600,
            GatewayError::AuditWriteFailure => caller_status(error) is None,
        },
{
}

} // verus!
