//! The key authority, as the gateway consumes it: one lookup per credential,
//! and what the answer means.

use crate::credential::Credential;
use crate::forward::{rewrite_url, rewritten};
use vstd::prelude::*;
use vstd::string::StringExecFns;

verus! {

/// A key as the key authority describes it.
#[derive(Debug)]
pub struct ApiKey {
    pub id: String,
    pub key: Credential,
    pub disabled: bool,
    pub created_at: i64,
    pub updated_at: i64,
}

/// The mathematical content of an `ApiKey`.
pub struct ApiKeyView {
    pub id: Seq<char>,
    pub key: Credential,
    pub disabled: bool,
    pub created_at: i64,
    pub updated_at: i64,
}

impl View for ApiKey {
    type V = ApiKeyView;

    open spec fn view(&self) -> ApiKeyView {
        ApiKeyView {
            id: self.id@,
            key: self.key,
            disabled: self.disabled,
            created_at: self.created_at,
            updated_at: self.updated_at,
        }
    }
}

/// The envelope in which the key authority answers a lookup.
#[derive(Debug)]
pub struct ApiKeyResponse {
    pub status: u16,
    pub success: bool,
    pub payload: ApiKey,
}

/// What the authorizer reads of a key: that it exists, and whether it is disabled.
#[derive(Clone, Copy, Debug, PartialEq, Eq, Structural)]
pub struct KeyAuthorityRecord {
    pub key: Credential,
    pub disabled: bool,
}

/// Why a lookup gave no record.
#[derive(Clone, Copy, Debug, PartialEq, Eq, Structural)]
pub enum AuthError {
    /// The key authority has no such key.
    UnknownKey,
    /// The key authority could not be reached, or answered out of shape.
    UpstreamUnavailable,
}

/// How a lookup ended.
#[derive(Debug)]
pub enum LookupOutcome {
    /// The key authority answered with `status`; `body` is the envelope it
    /// sent, where what it sent was one.
    Answered { status: u16, body: Option<ApiKeyResponse> },
    /// No answer was had: the connection was refused, timed out or broke.
    Failed,
}

/// The client's configuration: the address of the key authority, as a URL.
#[derive(Debug)]
pub struct KeyAuthorityClient {
    pub authority: String,
}

/// The path under which a credential is looked up.
pub open spec fn lookup_path(credential: Credential) -> Seq<char> {
    "/keys/"@ + credential.text()
}

/// The address under which a credential is looked up at `authority`.
pub open spec fn lookup_address(authority: Seq<char>, credential: Credential) -> Option<Seq<char>> {
    rewritten(authority, lookup_path(credential), None)
}

/// What a lookup's end means: a record for an answer of status 200 with an
/// envelope, an unknown key for status 404, and an unavailable authority for
/// everything else.
pub open spec fn validation(outcome: LookupOutcome) -> Result<KeyAuthorityRecord, AuthError> {
    match outcome {
        LookupOutcome::Failed => Err(AuthError::UpstreamUnavailable),
        LookupOutcome::Answered { status, body } => if status == 404 {
            Err(AuthError::UnknownKey)
        } else if status == 200 {
            match body {
                Some(envelope) => Ok(
                    KeyAuthorityRecord {
                        key: envelope.payload.key,
                        disabled: envelope.payload.disabled,
                    },
                ),
                None => Err(AuthError::UpstreamUnavailable),
            }
        } else {
            Err(AuthError::UpstreamUnavailable)
        },
    }
}

impl KeyAuthorityClient {
    /// The address to ask for `credential`; none where the authority's
    /// address is no URL.
    pub fn lookup_url(&self, credential: Credential) -> (r: Option<String>)
        ensures
            match r {
                Some(address) => lookup_address(self.authority@, credential) == Some(address@),
                None => lookup_address(self.authority@, credential) is None,
            },
    {
        let text = credential.to_text();
        let path = "/keys/".to_owned().concat(text.as_str());
        rewrite_url(self.authority.as_str(), path.as_str(), None)
    }

    /// Reads the end of a lookup.
    pub fn validate(outcome: &LookupOutcome) -> (r: Result<KeyAuthorityRecord, AuthError>)
        ensures
            r == validation(*outcome),
    {
        match outcome {
            LookupOutcome::Failed => Err(AuthError::UpstreamUnavailable),
            LookupOutcome::Answered { status, body } => {
                if *status == 404 {
                    Err(AuthError::UnknownKey)
                } else if *status == 200 {
                    match body {
                        Some(envelope) => Ok(
                            KeyAuthorityRecord {
                                key: envelope.payload.key,
                                disabled: envelope.payload.disabled,
                            },
                        ),
                        None => Err(AuthError::UpstreamUnavailable),
                    }
                } else {
                    Err(AuthError::UpstreamUnavailable)
                }
            },
        }
    }
}

} // verus!
