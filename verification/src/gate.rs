//! The authorization gate: from what a request presents, and from what the
//! key authority says of it, to a decision.

use crate::authority::{validation, AuthError, KeyAuthorityClient, KeyAuthorityRecord, LookupOutcome};
use crate::credential::Credential;
use crate::error::GatewayError;
use crate::request::{presented, HeaderView, InboundRequest, Presented};
use vstd::prelude::*;

verus! {

/// Why a request is denied.
#[derive(Clone, Copy, Debug, PartialEq, Eq, Structural)]
pub enum DenyReason {
    MalformedCredential,
    UnknownKey,
    KeyDisabled,
}

/// The authorizer's decision on one request.
#[derive(Clone, Copy, Debug, PartialEq, Eq, Structural)]
pub enum AuthorizationDecision {
    Allowed,
    Denied { reason: DenyReason },
}

/// The key authority could not say whether the credential is good. The authorizer
/// then decides nothing: it fails, and the request is not let through.
#[derive(Clone, Copy, Debug, PartialEq, Eq, Structural)]
pub struct UpstreamAuthUnavailable;

/// Where the authorizer stands after it has looked at a request.
#[derive(Clone, Copy, Debug, PartialEq, Eq, Structural)]
pub enum GateStep {
    /// The request alone decides.
    Decided(AuthorizationDecision),
    /// The key authority has to be asked about this credential.
    Lookup(Credential),
}

/// The authorizer. It holds nothing: every decision is made from the request and
/// from the one answer of the key authority.
#[derive(Clone, Copy, Debug)]
pub struct AuthorizationGate;

/// The words of a denial.
pub open spec fn reason_text(reason: DenyReason) -> Seq<char> {
    match reason {
        DenyReason::MalformedCredential => "malformed credential"@,
        DenyReason::UnknownKey => "unknown key"@,
        DenyReason::KeyDisabled => "key disabled"@,
    }
}

/// The first step for what a request presents: a request without credential
/// is allowed, one with a malformed credential denied, and for a well-formed
/// credential the key authority is asked.
pub open spec fn first_step(presented: Presented) -> GateStep {
    match presented {
        Presented::Nothing => GateStep::Decided(AuthorizationDecision::Allowed),
        Presented::Malformed => GateStep::Decided(
            AuthorizationDecision::Denied { reason: DenyReason::MalformedCredential },
        ),
        Presented::Key(credential) => GateStep::Lookup(credential),
    }
}

/// The decision that follows from the key authority's word: an enabled key
/// is allowed, a disabled or unknown one denied; where the authority was not
/// to be had there is no decision.
pub open spec fn decision(validation: Result<KeyAuthorityRecord, AuthError>) -> Result<
    AuthorizationDecision,
    UpstreamAuthUnavailable,
> {
    match validation {
        Ok(record) => if record.disabled {
            Ok(AuthorizationDecision::Denied { reason: DenyReason::KeyDisabled })
        } else {
            Ok(AuthorizationDecision::Allowed)
        },
        Err(AuthError::UnknownKey) => Ok(
            AuthorizationDecision::Denied { reason: DenyReason::UnknownKey },
        ),
        Err(AuthError::UpstreamUnavailable) => Err(UpstreamAuthUnavailable),
    }
}

/// The authorizer's word on a request with these headers, where `outcome` is how
/// the lookup ends if one is made.
pub open spec fn authorization(headers: Seq<HeaderView>, outcome: LookupOutcome) -> Result<
    AuthorizationDecision,
    UpstreamAuthUnavailable,
> {
    match first_step(presented(headers)) {
        GateStep::Decided(decided) => Ok(decided),
        GateStep::Lookup(_) => decision(validation(outcome)),
    }
}

/// Under which kind of failure a denial is reported.
pub open spec fn denial_error(reason: DenyReason) -> GatewayError {
    match reason {
        DenyReason::MalformedCredential => GatewayError::MalformedCredential,
        DenyReason::UnknownKey => GatewayError::KeyDenied,
        DenyReason::KeyDisabled => GatewayError::KeyDenied,
    }
}

impl DenyReason {
    /// The words of the denial.
    pub fn reason(&self) -> (text: &'static str)
        ensures
            text@ == reason_text(*self),
    {
        match self {
            DenyReason::MalformedCredential => "malformed credential",
            DenyReason::UnknownKey => "unknown key",
            DenyReason::KeyDisabled => "key disabled",
        }
    }

    /// The kind of failure under which the denial is reported.
    pub fn error(&self) -> (error: GatewayError)
        ensures
            error == denial_error(*self),
    {
        match self {
            DenyReason::MalformedCredential => GatewayError::MalformedCredential,
            DenyReason::UnknownKey => GatewayError::KeyDenied,
            DenyReason::KeyDisabled => GatewayError::KeyDenied,
        }
    }
}

impl AuthorizationGate {
    /// Looks at a request: either it decides by itself, or the key authority
    /// has to be asked.
    pub fn begin(request: &InboundRequest) -> (step: GateStep)
        ensures
            step == first_step(presented(request@.headers)),
    {
        match request.presented() {
            Presented::Nothing => GateStep::Decided(AuthorizationDecision::Allowed),
            Presented::Malformed => GateStep::Decided(
                AuthorizationDecision::Denied { reason: DenyReason::MalformedCredential },
            ),
            Presented::Key(credential) => GateStep::Lookup(credential),
        }
    }

    /// Decides on the key authority's word.
    pub fn decide(validation: Result<KeyAuthorityRecord, AuthError>) -> (r: Result<
        AuthorizationDecision,
        UpstreamAuthUnavailable,
    >)
        ensures
            r == decision(validation),
    {
        match validation {
            Ok(record) => {
                if record.disabled {
                    Ok(AuthorizationDecision::Denied { reason: DenyReason::KeyDisabled })
                } else {
                    Ok(AuthorizationDecision::Allowed)
                }
            },
            Err(AuthError::UnknownKey) => Ok(
                AuthorizationDecision::Denied { reason: DenyReason::UnknownKey },
            ),
            Err(AuthError::UpstreamUnavailable) => Err(UpstreamAuthUnavailable),
        }
    }

    /// Decides on how the lookup ended.
    pub fn finish(outcome: &LookupOutcome) -> (r: Result<
        AuthorizationDecision,
        UpstreamAuthUnavailable,
    >)
        ensures
            r == decision(validation(*outcome)),
    {
        AuthorizationGate::decide(KeyAuthorityClient::validate(outcome))
    }
}

/// The authorizer allows a request exactly where it presents nothing, or presents
/// a key that the key authority knows and has not disabled.
pub proof fn lemma_allowed_iff(headers: Seq<HeaderView>, outcome: LookupOutcome)
    ensures
        authorization(headers, outcome) == Ok::<AuthorizationDecision, UpstreamAuthUnavailable>(
            AuthorizationDecision::Allowed,
        ) <==> (presented(headers) is Nothing || (presented(headers) is Key && validation(outcome)
            is Ok && !validation(outcome)->Ok_0.disabled)),
{
}

/// A malformed credential is denied whatever the key authority would say:
/// the lookup's end plays no part.
pub proof fn lemma_malformed_never_asks(headers: Seq<HeaderView>, a: LookupOutcome, b: LookupOutcome)
    requires
        presented(headers) is Malformed,
    ensures
        first_step(presented(headers)) is Decided,
        authorization(headers, a) == authorization(headers, b),
        authorization(headers, a) == Ok::<AuthorizationDecision, UpstreamAuthUnavailable>(
            AuthorizationDecision::Denied { reason: DenyReason::MalformedCredential },
        ),
{
}

/// Where the key authority cannot be had, a presented key is never allowed.
pub proof fn lemma_fails_closed(headers: Seq<HeaderView>, outcome: LookupOutcome)
    requires
        presented(headers) is Key,
        validation(outcome) == Err::<KeyAuthorityRecord, AuthError>(AuthError::UpstreamUnavailable),
    ensures
        authorization(headers, outcome) is Err,
{
}

} // verus!
