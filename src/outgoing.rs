//! The requests that the host sends to a widget, and how a reply to each is
//! read.

use vstd::prelude::*;
use crate::error::Error;
use crate::messages::{
    ActionBody, CapabilitiesResponse, CapabilitiesUpdatedRequest, OpenIdCredentialsRequest,
    Response, ToWidgetAction, WidgetApiToWidgetAction, WidgetMessageEmptyData,
};

verus! {

/// Which kind of request is waiting for a reply.
#[derive(Clone, Copy, Debug, PartialEq, Eq, Structural)]
pub enum OutgoingKind {
    CapabilitiesRequest,
    CapabilitiesUpdate,
    OpenIdCredentialsUpdate,
}

impl OutgoingKind {
    pub open spec fn spec_wire(self) -> WidgetApiToWidgetAction {
        match self {
            OutgoingKind::CapabilitiesRequest => WidgetApiToWidgetAction::Capabilities,
            OutgoingKind::CapabilitiesUpdate => WidgetApiToWidgetAction::NotifyCapabilities,
            OutgoingKind::OpenIdCredentialsUpdate => WidgetApiToWidgetAction::OpenIDCredentials,
        }
    }
}

/// Asks the widget which capabilities it wants.
#[derive(Debug)]
pub struct CapabilitiesRequest {}

/// Tells the widget what it asked for and what was approved.
#[derive(Debug)]
pub struct CapabilitiesUpdate(pub CapabilitiesUpdatedRequest);

/// Delivers the final state of a token request that was pending.
#[derive(Debug)]
pub struct OpenIDUpdated(pub OpenIdCredentialsRequest);

/// A request of the host to the widget.
#[derive(Debug)]
pub enum OutgoingRequest {
    Capabilities(CapabilitiesRequest),
    Update(CapabilitiesUpdate),
    OpenId(OpenIDUpdated),
}

/// What a well-formed reply carries.
#[derive(Debug)]
pub enum OutgoingResponse {
    Capabilities(CapabilitiesResponse),
    Acknowledged,
}

impl OutgoingRequest {
    pub open spec fn spec_kind(&self) -> OutgoingKind {
        match self {
            OutgoingRequest::Capabilities(_) => OutgoingKind::CapabilitiesRequest,
            OutgoingRequest::Update(_) => OutgoingKind::CapabilitiesUpdate,
            OutgoingRequest::OpenId(_) => OutgoingKind::OpenIdCredentialsUpdate,
        }
    }

    pub fn kind(&self) -> (r: OutgoingKind)
        ensures
            r == self.spec_kind(),
    {
        match self {
            OutgoingRequest::Capabilities(_) => OutgoingKind::CapabilitiesRequest,
            OutgoingRequest::Update(_) => OutgoingKind::CapabilitiesUpdate,
            OutgoingRequest::OpenId(_) => OutgoingKind::OpenIdCredentialsUpdate,
        }
    }

    /// The action that carries this request, not yet answered.
    pub fn into_action(self) -> (r: ToWidgetAction)
        ensures
            r.spec_kind() == self.spec_kind().spec_wire(),
            !r.spec_is_answered(),
            self matches OutgoingRequest::Update(u) ==> r matches ToWidgetAction::CapabilitiesUpdate(b) && b.request == u.0,
            self matches OutgoingRequest::OpenId(o) ==> r matches ToWidgetAction::OpenIdCredentialsUpdate(b) && b.request == o.0,
    {
        match self {
            OutgoingRequest::Capabilities(_) => ToWidgetAction::CapabilitiesRequest(
                ActionBody::new(WidgetMessageEmptyData {}),
            ),
            OutgoingRequest::Update(u) => ToWidgetAction::CapabilitiesUpdate(ActionBody::new(u.0)),
            OutgoingRequest::OpenId(o) => ToWidgetAction::OpenIdCredentialsUpdate(ActionBody::new(o.0)),
        }
    }
}

impl ToWidgetAction {
    pub open spec fn spec_is_answered(&self) -> bool {
        match self {
            ToWidgetAction::CapabilitiesRequest(b) => b.response is Some,
            ToWidgetAction::CapabilitiesUpdate(b) => b.response is Some,
            ToWidgetAction::OpenIdCredentialsUpdate(b) => b.response is Some,
        }
    }
}

/// An acknowledgement, the widget's error message, or nothing.
pub open spec fn acknowledgement<T>(r: Option<Response<T>>) -> Option<Result<OutgoingResponse, String>> {
    match r {
        Some(Response::Response(_)) => Some(Ok(OutgoingResponse::Acknowledged)),
        Some(Response::Error(e)) => Some(Err(e.error.message)),
        None => None,
    }
}

/// The answer a reply carries: none, a payload, or the widget's error message.
pub open spec fn answer_of(reply: ToWidgetAction) -> Option<Result<OutgoingResponse, String>> {
    match reply {
        ToWidgetAction::CapabilitiesRequest(b) => match b.response {
            Some(Response::Response(r)) => Some(Ok(OutgoingResponse::Capabilities(r))),
            Some(Response::Error(e)) => Some(Err(e.error.message)),
            None => None,
        },
        ToWidgetAction::CapabilitiesUpdate(b) => acknowledgement(b.response),
        ToWidgetAction::OpenIdCredentialsUpdate(b) => acknowledgement(b.response),
    }
}

/// What a reply to a request of the given kind yields: `UnexpectedResponse`
/// where it is of another kind or carries no answer, else its payload or the
/// widget's error.
pub open spec fn spec_extract(kind: OutgoingKind, reply: ToWidgetAction) -> Result<OutgoingResponse, Error> {
    if reply.spec_kind() != kind.spec_wire() {
        Err(Error::UnexpectedResponse)
    } else {
        match answer_of(reply) {
            None => Err(Error::UnexpectedResponse),
            Some(Ok(r)) => Ok(r),
            Some(Err(m)) => Err(Error::WidgetError(m)),
        }
    }
}

/// Reads the widget's reply to a request of the given kind.
pub fn extract_response(kind: OutgoingKind, reply: ToWidgetAction) -> (r: Result<OutgoingResponse, Error>)
    ensures
        r == spec_extract(kind, reply),
{
    match (kind, reply) {
        (OutgoingKind::CapabilitiesRequest, ToWidgetAction::CapabilitiesRequest(b)) => match b.response {
            Some(Response::Response(r)) => Ok(OutgoingResponse::Capabilities(r)),
            Some(Response::Error(e)) => Err(Error::WidgetError(e.error.message)),
            None => Err(Error::UnexpectedResponse),
        },
        (OutgoingKind::CapabilitiesUpdate, ToWidgetAction::CapabilitiesUpdate(b)) => match b.response {
            Some(Response::Response(_)) => Ok(OutgoingResponse::Acknowledged),
            Some(Response::Error(e)) => Err(Error::WidgetError(e.error.message)),
            None => Err(Error::UnexpectedResponse),
        },
        (OutgoingKind::OpenIdCredentialsUpdate, ToWidgetAction::OpenIdCredentialsUpdate(b)) => match b.response {
            Some(Response::Response(_)) => Ok(OutgoingResponse::Acknowledged),
            Some(Response::Error(e)) => Err(Error::WidgetError(e.error.message)),
            None => Err(Error::UnexpectedResponse),
        },
        _ => Err(Error::UnexpectedResponse),
    }
}

} // verus!
