//! The gateway: authorization, audit and relay in their fixed order, one
//! request at a time.
//!
//! The gateway holds its two addresses and nothing else. It never waits: it
//! says what is to be done next, and is told how that ended. A request is
//! received, resumed once if the key authority had to be asked, and concluded
//! when the backend has answered or failed.

use crate::audit::{
    lemma_record_round_trip, record_of, stored_fields, NewRequest, NewRequestView,
};
use crate::authority::{
    lookup_address, validation, AuthError, KeyAuthorityClient, KeyAuthorityRecord, LookupOutcome,
};
use crate::credential::Credential;
use crate::error::{audit_note, caller_status, GatewayError, ProxyError};
use crate::forward::{
    bare, failure_status, outbound_for, relayed, BackendResponse, ForwardError, ForwardTarget,
    OutboundRequest, OutboundRequestView, ProxiedResponse, ResponseView,
};
use crate::gate::{
    authorization, decision, denial_error, first_step, AuthorizationDecision, AuthorizationGate,
    GateStep, UpstreamAuthUnavailable,
};
use crate::request::{entry_for, presented, InboundRequest, InboundRequestView, Presented};
use vstd::prelude::*;

verus! {

/// The gateway's configuration: where authorized traffic goes, and where
/// credentials are looked up.
#[derive(Debug)]
pub struct Gateway {
    pub target: ForwardTarget,
    pub authority: KeyAuthorityClient,
}

/// What is done for a request that was let through: it is recorded, and it
/// is sent on. The record's fate is nobody's concern but the log's.
#[derive(Debug)]
pub struct Plan {
    pub audit: NewRequest,
    pub outbound: OutboundRequest,
}

/// The mathematical content of a `Plan`.
pub struct PlanView {
    pub audit: NewRequestView,
    pub outbound: OutboundRequestView,
}

impl View for Plan {
    type V = PlanView;

    open spec fn view(&self) -> PlanView {
        PlanView { audit: self.audit@, outbound: self.outbound@ }
    }
}

/// What the gateway wants done next for a request.
#[derive(Debug)]
pub enum Action {
    /// Ask the key authority about `credential` at `url`, and resume with the
    /// outcome.
    Lookup { credential: Credential, url: String },
    /// Start the audit write without waiting for it, send the request on,
    /// and conclude with the backend's answer.
    Forward(Plan),
    /// Start the audit write without waiting for it, and conclude with
    /// `error`: the request was let through, but no outbound request can be
    /// made for it.
    Stranded { audit: NewRequest, error: ForwardError },
    /// Answer the caller; nothing else is done for this request.
    Respond(ProxiedResponse),
}

/// The mathematical content of an `Action`.
pub enum ActionView {
    Lookup { credential: Credential, url: Seq<char> },
    Forward(PlanView),
    Stranded { audit: NewRequestView, error: ForwardError },
    Respond(ResponseView),
}

impl View for Action {
    type V = ActionView;

    open spec fn view(&self) -> ActionView {
        match self {
            Action::Lookup { credential, url } => ActionView::Lookup {
                credential: *credential,
                url: url@,
            },
            Action::Forward(plan) => ActionView::Forward(plan@),
            Action::Stranded { audit, error } => ActionView::Stranded {
                audit: audit@,
                error: *error,
            },
            Action::Respond(response) => ActionView::Respond(response@),
        }
    }
}

/// The answer to the caller for a failure: its status and nothing else.
pub open spec fn rejection(error: GatewayError) -> ResponseView {
    match caller_status(error) {
        Some(status) => bare(status),
        None => bare(500),
    }
}

/// What is done for a request that was allowed: it is recorded with the
/// credential it came with, and sent on; where no outbound request can be
/// made, it is recorded all the same, and then answered with that failure.
pub open spec fn allowed(
    target: Seq<char>,
    request: InboundRequestView,
    body: Seq<u8>,
    authorization: Option<Credential>,
) -> ActionView {
    match outbound_for(target, request, body) {
        Ok(outbound) => ActionView::Forward(
            PlanView { audit: entry_for(request, authorization), outbound },
        ),
        Err(error) => ActionView::Stranded { audit: entry_for(request, authorization), error },
    }
}

/// What is done for a request when it comes in.
pub open spec fn admission(
    target: Seq<char>,
    authority: Seq<char>,
    request: InboundRequestView,
    body: Seq<u8>,
) -> ActionView {
    match first_step(presented(request.headers)) {
        GateStep::Decided(AuthorizationDecision::Allowed) => allowed(target, request, body, None),
        GateStep::Decided(AuthorizationDecision::Denied { reason }) => ActionView::Respond(
            rejection(denial_error(reason)),
        ),
        GateStep::Lookup(credential) => match lookup_address(authority, credential) {
            Some(url) => ActionView::Lookup { credential, url },
            None => ActionView::Respond(rejection(GatewayError::UpstreamAuthUnavailable)),
        },
    }
}

/// What is done for a request once the key authority was asked about its
/// credential.
pub open spec fn resumption(
    target: Seq<char>,
    request: InboundRequestView,
    body: Seq<u8>,
    credential: Credential,
    lookup: LookupOutcome,
) -> ActionView {
    match decision(validation(lookup)) {
        Ok(AuthorizationDecision::Allowed) => allowed(target, request, body, Some(credential)),
        Ok(AuthorizationDecision::Denied { reason }) => ActionView::Respond(
            rejection(denial_error(reason)),
        ),
        Err(_) => ActionView::Respond(rejection(GatewayError::UpstreamAuthUnavailable)),
    }
}

/// The answer to the caller once the backend has answered or failed.
pub open spec fn conclusion(backend: Result<ResponseView, ForwardError>) -> ResponseView {
    match backend {
        Ok(response) => relayed(response),
        Err(error) => rejection(GatewayError::ForwardFailure(error)),
    }
}

/// The view of what the backend's side came to.
pub open spec fn backend_view(backend: Result<BackendResponse, ForwardError>) -> Result<
    ResponseView,
    ForwardError,
> {
    match backend {
        Ok(response) => Ok(response@),
        Err(error) => Err(error),
    }
}

/// All that happens for one request.
pub struct Exchange {
    /// The address at which the key authority was asked, if it was.
    pub asked: Option<Seq<char>>,
    /// The entry handed to the audit store, if one was.
    pub recorded: Option<NewRequestView>,
    /// The request sent to the backend, if one was.
    pub sent: Option<OutboundRequestView>,
    /// The answer to the caller.
    pub response: ResponseView,
    /// The line logged when the audit write ended, if one was started.
    pub noted: Option<Seq<char>>,
}

/// What happens for a request, given how each thing that the gateway asks
/// for ends: the lookup, the audit write, the exchange with the backend.
pub open spec fn exchange(
    target: Seq<char>,
    authority: Seq<char>,
    request: InboundRequestView,
    body: Seq<u8>,
    lookup: LookupOutcome,
    audit: Result<(), ProxyError>,
    backend: Result<ResponseView, ForwardError>,
) -> Exchange {
    let first = admission(target, authority, request, body);
    let asked = match first {
        ActionView::Lookup { credential, url } => Some(url),
        _ => None,
    };
    let second = match first {
        ActionView::Lookup { credential, url } => resumption(
            target,
            request,
            body,
            credential,
            lookup,
        ),
        _ => first,
    };
    match second {
        ActionView::Forward(plan) => Exchange {
            asked,
            recorded: Some(plan.audit),
            sent: Some(plan.outbound),
            response: conclusion(backend),
            noted: Some(audit_note(audit)),
        },
        ActionView::Stranded { audit: entry, error } => Exchange {
            asked,
            recorded: Some(entry),
            sent: None,
            response: conclusion(Err(error)),
            noted: Some(audit_note(audit)),
        },
        ActionView::Respond(response) => Exchange {
            asked,
            recorded: None,
            sent: None,
            response,
            noted: None,
        },
        ActionView::Lookup { .. } => Exchange {
            asked,
            recorded: None,
            sent: None,
            response: bare(500),
            noted: None,
        },
    }
}

/// Answers the caller for a failure.
pub fn reject(error: GatewayError) -> (response: ProxiedResponse)
    ensures
        response@ == rejection(error),
{
    match error.status() {
        Some(status) => ProxiedResponse::bare(status),
        None => ProxiedResponse::bare(500),
    }
}

impl Gateway {
    fn allow(
        &self,
        request: &InboundRequest,
        body: &Vec<u8>,
        authorization: Option<Credential>,
    ) -> (action: Action)
        ensures
            action@ == allowed(self.target.base@, request@, body@, authorization),
    {
        let audit = NewRequest::of(request, authorization);
        match self.target.outbound(request, body) {
            Ok(outbound) => Action::Forward(Plan { audit, outbound }),
            Err(error) => Action::Stranded { audit, error },
        }
    }

    /// Takes a request in: lets it through, turns it away, or asks the key
    /// authority first.
    pub fn receive(&self, request: &InboundRequest, body: &Vec<u8>) -> (action: Action)
        ensures
            action@ == admission(self.target.base@, self.authority.authority@, request@, body@),
    {
        match AuthorizationGate::begin(request) {
            GateStep::Decided(AuthorizationDecision::Allowed) => self.allow(request, body, None),
            GateStep::Decided(AuthorizationDecision::Denied { reason }) => Action::Respond(
                reject(reason.error()),
            ),
            GateStep::Lookup(credential) => match self.authority.lookup_url(credential) {
                Some(url) => Action::Lookup { credential, url },
                None => Action::Respond(reject(GatewayError::UpstreamAuthUnavailable)),
            },
        }
    }

    /// Takes a request up again once the key authority was asked about its
    /// credential: lets it through or turns it away.
    pub fn resume(
        &self,
        request: &InboundRequest,
        body: &Vec<u8>,
        credential: Credential,
        lookup: &LookupOutcome,
    ) -> (action: Action)
        ensures
            action@ == resumption(self.target.base@, request@, body@, credential, *lookup),
            !(action is Lookup),
    {
        match AuthorizationGate::finish(lookup) {
            Ok(AuthorizationDecision::Allowed) => self.allow(request, body, Some(credential)),
            Ok(AuthorizationDecision::Denied { reason }) => Action::Respond(reject(reason.error())),
            Err(_) => Action::Respond(reject(GatewayError::UpstreamAuthUnavailable)),
        }
    }

    /// Answers the caller once the backend has answered or failed.
    pub fn conclude(backend: Result<BackendResponse, ForwardError>) -> (response: ProxiedResponse)
        ensures
            response@ == conclusion(backend_view(backend)),
    {
        match backend {
            Ok(answer) => answer.relay(),
            Err(error) => reject(GatewayError::ForwardFailure(error)),
        }
    }
}

/// Whether the authorization of a request with these headers comes to
/// `Allowed`: the request presents nothing; or it presents a key, the key
/// authority has an address to be asked at, and it knows the key and has not
/// disabled it.
pub open spec fn let_through(
    authority: Seq<char>,
    request: InboundRequestView,
    lookup: LookupOutcome,
) -> bool {
    match presented(request.headers) {
        Presented::Nothing => true,
        Presented::Malformed => false,
        Presented::Key(credential) => lookup_address(authority, credential)
            is Some && validation(lookup) is Ok && !validation(lookup)->Ok_0.disabled,
    }
}

/// The credential that a request with these headers is recorded with.
pub open spec fn recorded_credential(request: InboundRequestView) -> Option<Credential> {
    match presented(request.headers) {
        Presented::Key(credential) => Some(credential),
        _ => None,
    }
}

/// A request is recorded exactly where it is let through, with its method,
/// its path and the credential it presents, whether or not it can be sent on.
/// It is sent on only where it is recorded, and let through only where the
/// authorization comes to `Allowed`.
pub proof fn lemma_recorded_iff_let_through(
    target: Seq<char>,
    authority: Seq<char>,
    request: InboundRequestView,
    body: Seq<u8>,
    lookup: LookupOutcome,
    audit: Result<(), ProxyError>,
    backend: Result<ResponseView, ForwardError>,
)
    ensures
        ({
            let done = exchange(target, authority, request, body, lookup, audit, backend);
            &&& done.recorded is Some <==> let_through(authority, request, lookup)
            &&& done.recorded is Some ==> done.recorded == Some(
                entry_for(request, recorded_credential(request)),
            )
            &&& done.sent is Some ==> done.recorded is Some
            &&& let_through(authority, request, lookup) ==> authorization(request.headers, lookup)
                == Ok::<AuthorizationDecision, UpstreamAuthUnavailable>(
                AuthorizationDecision::Allowed,
            )
        }),
{
}

/// A request that is let through is sent on exactly where an outbound
/// request can be made for it, and that request is then the one sent: same
/// method, the backend's address with the inbound path and query, the body
/// as it came. Where none can be made, the caller is answered with that
/// failure.
pub proof fn lemma_let_through_is_sent(
    target: Seq<char>,
    authority: Seq<char>,
    request: InboundRequestView,
    body: Seq<u8>,
    lookup: LookupOutcome,
    audit: Result<(), ProxyError>,
    backend: Result<ResponseView, ForwardError>,
)
    requires
        let_through(authority, request, lookup),
    ensures
        ({
            let done = exchange(target, authority, request, body, lookup, audit, backend);
            match outbound_for(target, request, body) {
                Ok(outbound) => done.sent == Some(outbound) && done.response == conclusion(
                    backend,
                ) && outbound.method == request.method && outbound.body == body
                    && !outbound.decompress,
                Err(error) => done.sent is None && done.response == bare(failure_status(error)),
            }
        }),
{
}

/// A request without an `Authorization` header is recorded without
/// credential and never asked about. Where an outbound request can be made
/// for it, it is sent on, and the backend's answer reaches the caller with
/// the same status and body and with its headers less `Connection`.
pub proof fn lemma_anonymous_is_relayed(
    target: Seq<char>,
    authority: Seq<char>,
    request: InboundRequestView,
    body: Seq<u8>,
    lookup: LookupOutcome,
    audit: Result<(), ProxyError>,
    answer: ResponseView,
)
    requires
        presented(request.headers) is Nothing,
    ensures
        ({
            let done = exchange(
                target,
                authority,
                request,
                body,
                lookup,
                audit,
                Ok::<ResponseView, ForwardError>(answer),
            );
            &&& done.asked is None
            &&& done.recorded == Some(entry_for(request, None))
            &&& outbound_for(target, request, body) matches Ok(outbound) ==> {
                &&& done.sent == Some(outbound)
                &&& done.response == relayed(answer)
                &&& done.response.status == answer.status
                &&& done.response.body == answer.body
            }
        }),
{
}

/// A request whose `Authorization` header holds no credential is turned away
/// with a status of the 4xx class; the key authority is not asked, nothing is
/// recorded and nothing is sent.
pub proof fn lemma_malformed_is_turned_away(
    target: Seq<char>,
    authority: Seq<char>,
    request: InboundRequestView,
    body: Seq<u8>,
    lookup: LookupOutcome,
    audit: Result<(), ProxyError>,
    backend: Result<ResponseView, ForwardError>,
)
    requires
        presented(request.headers) is Malformed,
    ensures
        ({
            let done = exchange(target, authority, request, body, lookup, audit, backend);
            &&& done.asked is None
            &&& done.sent is None
            &&& done.recorded is None
            &&& done.response == bare(401)
        }),
{
}

/// A request with a key that the key authority reports as disabled, or does
/// not know, is turned away with a status of the 4xx class; nothing is
/// recorded and nothing is sent.
pub proof fn lemma_denied_key_is_turned_away(
    target: Seq<char>,
    authority: Seq<char>,
    request: InboundRequestView,
    body: Seq<u8>,
    lookup: LookupOutcome,
    audit: Result<(), ProxyError>,
    backend: Result<ResponseView, ForwardError>,
)
    requires
        presented(request.headers) is Key,
        lookup_address(authority, presented(request.headers)->Key_0) is Some,
        (validation(lookup) is Ok && validation(lookup)->Ok_0.disabled) || validation(lookup)
            == Err::<KeyAuthorityRecord, AuthError>(AuthError::UnknownKey),
    ensures
        ({
            let done = exchange(target, authority, request, body, lookup, audit, backend);
            &&& done.asked == lookup_address(authority, presented(request.headers)->Key_0)
            &&& done.sent is None
            &&& done.recorded is None
            &&& done.response == bare(403)
        }),
{
}

/// A request with a key that the key authority cannot vouch for, because it
/// could not be had, is answered with a status of the 5xx class and not sent
/// on.
pub proof fn lemma_unavailable_authority_fails_closed(
    target: Seq<char>,
    authority: Seq<char>,
    request: InboundRequestView,
    body: Seq<u8>,
    lookup: LookupOutcome,
    audit: Result<(), ProxyError>,
    backend: Result<ResponseView, ForwardError>,
)
    requires
        presented(request.headers) is Key,
        validation(lookup) == Err::<KeyAuthorityRecord, AuthError>(
            AuthError::UpstreamUnavailable,
        ) || lookup_address(authority, presented(request.headers)->Key_0) is None,
    ensures
        ({
            let done = exchange(target, authority, request, body, lookup, audit, backend);
            &&& done.sent is None
            &&& done.recorded is None
            &&& done.response == bare(503)
        }),
{
}

/// A request with a key that the key authority knows and has not disabled is
/// recorded: the entry handed to the audit store names that key and the
/// request's method and path, and what the store then holds for it reads back
/// as a record of the same three, whenever it is written and under whatever
/// id. Where an outbound request can be made for it, it is sent on and the
/// backend's answer or failure concludes it.
pub proof fn lemma_enabled_key_is_relayed_and_recorded(
    target: Seq<char>,
    authority: Seq<char>,
    request: InboundRequestView,
    body: Seq<u8>,
    lookup: LookupOutcome,
    audit: Result<(), ProxyError>,
    backend: Result<ResponseView, ForwardError>,
    created_at: i64,
    id: Seq<char>,
)
    requires
        presented(request.headers) is Key,
        lookup_address(authority, presented(request.headers)->Key_0) is Some,
        validation(lookup) is Ok,
        !validation(lookup)->Ok_0.disabled,
    ensures
        ({
            let done = exchange(target, authority, request, body, lookup, audit, backend);
            let key = presented(request.headers)->Key_0;
            &&& done.asked == lookup_address(authority, key)
            &&& done.recorded == Some(entry_for(request, Some(key)))
            &&& record_of(stored_fields(entry_for(request, Some(key)), created_at, id)) matches Ok(
                record,
            ) && record.subject() == entry_for(request, Some(key))
            &&& outbound_for(target, request, body) matches Ok(outbound) ==> done.sent == Some(
                outbound,
            ) && done.response == conclusion(backend)
        }),
{
    let key = presented(request.headers)->Key_0;
    lemma_record_round_trip(entry_for(request, Some(key)), created_at, id);
}

/// How the audit write ends changes nothing of what the key authority is
/// asked, what the backend is sent, or what the caller is answered: only the
/// line that is logged.
pub proof fn lemma_audit_outcome_stays_inside(
    target: Seq<char>,
    authority: Seq<char>,
    request: InboundRequestView,
    body: Seq<u8>,
    lookup: LookupOutcome,
    one: Result<(), ProxyError>,
    other: Result<(), ProxyError>,
    backend: Result<ResponseView, ForwardError>,
)
    ensures
        ({
            let a = exchange(target, authority, request, body, lookup, one, backend);
            let b = exchange(target, authority, request, body, lookup, other, backend);
            &&& a.response == b.response
            &&& a.sent == b.sent
            &&& a.asked == b.asked
            &&& a.recorded == b.recorded
        }),
{
}

/// Where the request was sent on and the backend could not be had, the
/// caller is answered with a status of the 5xx class, without headers and
/// with an empty body.
pub proof fn lemma_backend_failure_is_server_error(
    target: Seq<char>,
    authority: Seq<char>,
    request: InboundRequestView,
    body: Seq<u8>,
    lookup: LookupOutcome,
    audit: Result<(), ProxyError>,
    error: ForwardError,
)
    requires
        exchange(
            target,
            authority,
            request,
            body,
            lookup,
            audit,
            Err::<ResponseView, ForwardError>(error),
        ).sent is Some,
    ensures
        ({
            let done = exchange(
                target,
                authority,
                request,
                body,
                lookup,
                audit,
                Err::<ResponseView, ForwardError>(error),
            );
            &&& done.response == bare(failure_status(error))
            &&& 500 <= done.response.status < 600
            &&& done.response.body.len() == 0
            &&& done.response.headers.len() == 0
        }),
{
}

/// Every answer that the gateway makes up itself, as against one it relays,
/// is a bare status of the 4xx or 5xx class: never a success.
pub proof fn lemma_own_answers_are_failures(
    target: Seq<char>,
    authority: Seq<char>,
    request: InboundRequestView,
    body: Seq<u8>,
    lookup: LookupOutcome,
    audit: Result<(), ProxyError>,
    backend: Result<ResponseView, ForwardError>,
)
    ensures
        ({
            let done = exchange(target, authority, request, body, lookup, audit, backend);
            (done.sent is None || backend is Err) ==> 400 <= done.response.status < 600
                && done.response.body.len() == 0
        }),
{
}

/// One request of those that are in flight together, with how each thing
/// asked for on its behalf ends.
pub struct Arrival {
    pub request: InboundRequestView,
    pub body: Seq<u8>,
    pub lookup: LookupOutcome,
    pub audit: Result<(), ProxyError>,
    pub backend: Result<ResponseView, ForwardError>,
}

/// What happens for each of the requests that are in flight together. They
/// share the gateway's two addresses and nothing else.
pub open spec fn exchanges(target: Seq<char>, authority: Seq<char>, arrivals: Seq<Arrival>) -> Seq<
    Exchange,
> {
    Seq::new(
        arrivals.len(),
        |i: int|
            exchange(
                target,
                authority,
                arrivals[i].request,
                arrivals[i].body,
                arrivals[i].lookup,
                arrivals[i].audit,
                arrivals[i].backend,
            ),
    )
}

/// What happens for one request does not depend on any other request in
/// flight: whatever another one presents, and however it fares, this one is
/// asked about, recorded, sent and answered the same.
pub proof fn lemma_requests_do_not_interfere(
    target: Seq<char>,
    authority: Seq<char>,
    arrivals: Seq<Arrival>,
    this: int,
    that: int,
    instead: Arrival,
)
    requires
        0 <= this < arrivals.len(),
        0 <= that < arrivals.len(),
        this != that,
    ensures
        exchanges(target, authority, arrivals.update(that, instead))[this] == exchanges(
            target,
            authority,
            arrivals,
        )[this],
{
}

} // verus!
