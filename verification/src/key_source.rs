//! The resolution of an issuer's keys, as a state machine: the caller
//! performs each request that a state asks for and hands back what came of
//! it.

use vstd::prelude::*;
use crate::error::FetchError;
use crate::issuer::{
    document_of, expected_issuer, DiscoveryDocument, DocumentModel, IssuerModel, ResolvedIssuer,
    ResolvedModel, TrustedIssuer,
};
use crate::keys::{key_set_of, KeySet};
use crate::text::same_text;

verus! {

/// What came of one GET request.
#[derive(Clone, Debug)]
pub enum HttpEvent {
    /// The endpoint answered.
    Response { status: u16, body: String },
    /// The request did not complete.
    Failure,
}

/// The mathematical value of an [`HttpEvent`].
pub enum EventModel {
    Response { status: u16, body: Seq<char> },
    Failure,
}

/// How far the keys of one issuer are resolved.
#[derive(Clone, Debug)]
pub enum Resolution {
    /// The discovery document is still to be fetched.
    AwaitingDiscovery(TrustedIssuer),
    /// The key set named by the discovery document is still to be fetched.
    AwaitingKeySet(TrustedIssuer, DiscoveryDocument),
    /// The keys are known.
    Ready(ResolvedIssuer),
    /// The resolution failed; nothing more is fetched.
    Failed(FetchError),
}

/// The mathematical value of a [`Resolution`].
pub enum ResolutionModel {
    AwaitingDiscovery(IssuerModel),
    AwaitingKeySet(IssuerModel, DocumentModel),
    Ready(ResolvedModel),
    Failed(FetchError),
}

impl View for HttpEvent {
    type V = EventModel;

    open spec fn view(&self) -> EventModel {
        match self {
            HttpEvent::Response { status, body } => EventModel::Response {
                status: *status,
                body: body@,
            },
            HttpEvent::Failure => EventModel::Failure,
        }
    }
}

impl View for Resolution {
    type V = ResolutionModel;

    open spec fn view(&self) -> ResolutionModel {
        match self {
            Resolution::AwaitingDiscovery(i) => ResolutionModel::AwaitingDiscovery(i@),
            Resolution::AwaitingKeySet(i, d) => ResolutionModel::AwaitingKeySet(i@, d@),
            Resolution::Ready(r) => ResolutionModel::Ready(r@),
            Resolution::Failed(e) => ResolutionModel::Failed(*e),
        }
    }
}

/// The state in which the resolution of `issuer` begins: with keys supplied
/// in the configuration it is over at once, without any request.
pub open spec fn initial(issuer: IssuerModel) -> ResolutionModel {
    match issuer.static_jwks {
        Some(jwks) => match key_set_of(jwks) {
            Some(keys) => ResolutionModel::Ready(
                ResolvedModel {
                    issuer: issuer,
                    identifier: expected_issuer(issuer.endpoint),
                    jwks_uri: None,
                    keys: keys,
                },
            ),
            None => ResolutionModel::Failed(FetchError::Malformed),
        },
        None => ResolutionModel::AwaitingDiscovery(issuer),
    }
}

/// The address that `state` asks the caller to GET, if it asks for one.
pub open spec fn pending(state: ResolutionModel) -> Option<Seq<char>> {
    match state {
        ResolutionModel::AwaitingDiscovery(issuer) => Some(issuer.endpoint),
        ResolutionModel::AwaitingKeySet(_, document) => Some(document.jwks_uri),
        _ => None,
    }
}

/// The state that follows `state` once the pending request ended in `body`
/// with status 200.
pub open spec fn after_body(state: ResolutionModel, body: Seq<char>) -> ResolutionModel {
    match state {
        ResolutionModel::AwaitingDiscovery(issuer) => match document_of(body) {
            None => ResolutionModel::Failed(FetchError::Malformed),
            Some(document) => if document.issuer != expected_issuer(issuer.endpoint) {
                ResolutionModel::Failed(FetchError::IssuerMismatch)
            } else {
                ResolutionModel::AwaitingKeySet(issuer, document)
            },
        },
        ResolutionModel::AwaitingKeySet(issuer, document) => match key_set_of(body) {
            None => ResolutionModel::Failed(FetchError::Malformed),
            Some(keys) => ResolutionModel::Ready(
                ResolvedModel {
                    issuer: issuer,
                    identifier: document.issuer,
                    jwks_uri: Some(document.jwks_uri),
                    keys: keys,
                },
            ),
        },
        _ => state,
    }
}

/// The state that follows `state` on `event`. A state that asks for nothing
/// stays as it is.
pub open spec fn next(state: ResolutionModel, event: EventModel) -> ResolutionModel {
    if pending(state) is None {
        state
    } else {
        match event {
            EventModel::Failure => ResolutionModel::Failed(FetchError::Transport),
            EventModel::Response { status, body } => if status != 200 {
                ResolutionModel::Failed(FetchError::Status(status))
            } else {
                after_body(state, body)
            },
        }
    }
}

/// The view of a finished resolution.
pub open spec fn finished_view(r: Option<Result<ResolvedIssuer, FetchError>>) -> Option<
    Result<ResolvedModel, FetchError>,
> {
    match r {
        Some(Ok(x)) => Some(Ok(x@)),
        Some(Err(e)) => Some(Err(e)),
        None => None,
    }
}

/// What a resolution ended in, if it has ended.
pub open spec fn outcome(state: ResolutionModel) -> Option<Result<ResolvedModel, FetchError>> {
    match state {
        ResolutionModel::Ready(r) => Some(Ok(r)),
        ResolutionModel::Failed(e) => Some(Err(e)),
        _ => None,
    }
}

/// The view of an optional address.
pub open spec fn address_view(a: Option<String>) -> Option<Seq<char>> {
    match a {
        Some(x) => Some(x@),
        None => None,
    }
}

impl Resolution {
    /// Begins the resolution of an issuer's keys.
    pub fn start(issuer: TrustedIssuer) -> (r: Resolution)
        ensures
            r@ == initial(issuer@),
    {
        let parsed = match &issuer.token_metadata {
            Some(metadata) => Some(KeySet::parse(metadata.jwks.as_str())),
            None => None,
        };
        match parsed {
            None => Resolution::AwaitingDiscovery(issuer),
            Some(None) => Resolution::Failed(FetchError::Malformed),
            Some(Some(keys)) => {
                let identifier = issuer.expected_issuer();
                Resolution::Ready(ResolvedIssuer { issuer, identifier, jwks_uri: None, keys })
            },
        }
    }

    /// The address to GET next; `None` once the resolution has ended.
    pub fn pending_request(&self) -> (r: Option<String>)
        ensures
            address_view(r) == pending(self@),
    {
        match self {
            Resolution::AwaitingDiscovery(issuer) => Some(
                issuer.openid_configuration_endpoint.clone(),
            ),
            Resolution::AwaitingKeySet(_, document) => Some(document.jwks_uri.clone()),
            _ => None,
        }
    }

    /// Takes what came of the pending request and moves on.
    pub fn advance(self, event: HttpEvent) -> (r: Resolution)
        ensures
            r@ == next(self@, event@),
    {
        let body = match (&self, event) {
            (Resolution::Ready(_), _) => { return self; },
            (Resolution::Failed(_), _) => { return self; },
            (_, HttpEvent::Failure) => { return Resolution::Failed(FetchError::Transport); },
            (_, HttpEvent::Response { status, body }) => {
                if status != 200 {
                    return Resolution::Failed(FetchError::Status(status));
                }
                body
            },
        };
        match self {
            Resolution::AwaitingDiscovery(issuer) => match DiscoveryDocument::parse(
                body.as_str(),
            ) {
                None => Resolution::Failed(FetchError::Malformed),
                Some(document) => {
                    let expected = issuer.expected_issuer();
                    if same_text(document.issuer.as_str(), expected.as_str()) {
                        Resolution::AwaitingKeySet(issuer, document)
                    } else {
                        Resolution::Failed(FetchError::IssuerMismatch)
                    }
                },
            },
            Resolution::AwaitingKeySet(issuer, document) => match KeySet::parse(body.as_str()) {
                None => Resolution::Failed(FetchError::Malformed),
                Some(keys) => Resolution::Ready(
                    ResolvedIssuer {
                        issuer,
                        identifier: document.issuer,
                        jwks_uri: Some(document.jwks_uri),
                        keys,
                    },
                ),
            },
            other => other,
        }
    }

    /// What the resolution ended in; `None` while a request is pending.
    pub fn finish(self) -> (r: Option<Result<ResolvedIssuer, FetchError>>)
        ensures
            finished_view(r) == outcome(self@),
            r is None <==> pending(self@) is Some,
    {
        match self {
            Resolution::Ready(resolved) => Some(Ok(resolved)),
            Resolution::Failed(e) => Some(Err(e)),
            _ => None,
        }
    }
}

/// A resolution asks for at most two requests: after any two events it has
/// ended, and with keys supplied in the configuration it asks for none.
pub proof fn lemma_at_most_two_requests(issuer: IssuerModel, first: EventModel, second: EventModel)
    ensures
        pending(next(next(initial(issuer), first), second)) is None,
        issuer.static_jwks is Some ==> pending(initial(issuer)) is None,
{
}

/// An issuer without keys in its configuration is resolved by exactly two
/// requests: whatever the two events were, a resolution that ended in keys
/// asked for the discovery document first and for a key set after it.
pub proof fn lemma_resolved_by_two_requests(
    issuer: IssuerModel,
    first: EventModel,
    second: EventModel,
)
    requires
        issuer.static_jwks is None,
        next(next(initial(issuer), first), second) is Ready,
    ensures
        pending(initial(issuer)) == Some(issuer.endpoint),
        pending(next(initial(issuer), first)) is Some,
        next(initial(issuer), first) is AwaitingKeySet,
        pending(next(next(initial(issuer), first), second)) is None,
{
}

/// A resolution that has ended stays as it is, whatever is handed to it: a
/// resolved issuer is never fetched again.
pub proof fn lemma_ended_resolution_is_stable(state: ResolutionModel, event: EventModel)
    requires
        pending(state) is None,
    ensures
        next(state, event) == state,
{
}

/// The first request goes to the discovery endpoint and, where that answers
/// with a document for the expected issuer, the second to the address that
/// the document names.
pub proof fn lemma_requests_in_order(issuer: IssuerModel, body: Seq<char>)
    requires
        issuer.static_jwks is None,
    ensures
        pending(initial(issuer)) == Some(issuer.endpoint),
        ({
            let state = next(initial(issuer), (EventModel::Response { status: 200, body: body }));
            match document_of(body) {
                Some(document) => if document.issuer == expected_issuer(issuer.endpoint) {
                    pending(state) == Some(document.jwks_uri)
                } else {
                    state == ResolutionModel::Failed(FetchError::IssuerMismatch)
                },
                None => state == ResolutionModel::Failed(FetchError::Malformed),
            }
        }),
{
}

/// Every failure of a resolution has its own kind: a request that did not
/// complete, a status other than 200, a body of the wrong shape.
pub proof fn lemma_failures_are_told_apart(state: ResolutionModel, status: u16, body: Seq<char>)
    requires
        pending(state) is Some,
        status != 200,
    ensures
        next(state, EventModel::Failure) == ResolutionModel::Failed(FetchError::Transport),
        next(state, (EventModel::Response { status, body })) == ResolutionModel::Failed(
            FetchError::Status(status),
        ),
        document_of(body) is None && state is AwaitingDiscovery ==> next(
            state,
            (EventModel::Response { status: 200, body }),
        ) == ResolutionModel::Failed(FetchError::Malformed),
        key_set_of(body) is None && state is AwaitingKeySet ==> next(
            state,
            (EventModel::Response { status: 200, body }),
        ) == ResolutionModel::Failed(FetchError::Malformed),
{
}

} // verus!
