//! The message model: an envelope is a header and an action; each action
//! carries its request and, once answered, its response.

use vstd::prelude::*;
use crate::filter::{FilterInput, copy_opt_string};
use crate::json::content_msgtype;

verus! {

/// Identifies a request: `request_id` is chosen by the side that asks and is
/// echoed in the reply.
#[derive(Debug)]
pub struct Header {
    pub request_id: String,
    pub widget_id: String,
}

impl Header {
    pub fn new(request_id: &str, widget_id: &str) -> (r: Header)
        ensures
            r.request_id@ == request_id@,
            r.widget_id@ == widget_id@,
    {
        Header { request_id: String::from_str(request_id), widget_id: String::from_str(widget_id) }
    }
}

/// A version of the widget API that this engine speaks.
#[derive(Clone, Copy, Debug, PartialEq, Eq, Structural)]
pub enum ApiVersion {
    V0_0_1,
    V0_0_2,
    MSC2762,
    MSC2871,
    MSC3819,
}

impl ApiVersion {
    pub open spec fn spec_name(self) -> Seq<char> {
        match self {
            ApiVersion::V0_0_1 => "0.0.1"@,
            ApiVersion::V0_0_2 => "0.0.2"@,
            ApiVersion::MSC2762 => "org.matrix.msc2762"@,
            ApiVersion::MSC2871 => "org.matrix.msc2871"@,
            ApiVersion::MSC3819 => "org.matrix.msc3819"@,
        }
    }

    pub fn as_str(&self) -> (r: &'static str)
        ensures
            r@ == self.spec_name(),
    {
        match self {
            ApiVersion::V0_0_1 => "0.0.1",
            ApiVersion::V0_0_2 => "0.0.2",
            ApiVersion::MSC2762 => "org.matrix.msc2762",
            ApiVersion::MSC2871 => "org.matrix.msc2871",
            ApiVersion::MSC3819 => "org.matrix.msc3819",
        }
    }
}

pub open spec fn supported_versions() -> Seq<ApiVersion> {
    seq![
        ApiVersion::V0_0_1,
        ApiVersion::V0_0_2,
        ApiVersion::MSC2762,
        ApiVersion::MSC2871,
        ApiVersion::MSC3819,
    ]
}

/// The reply to `supported_api_versions`.
#[derive(Debug)]
pub struct SupportedApiVersionsResponse {
    pub versions: Vec<ApiVersion>,
}

impl SupportedApiVersionsResponse {
    /// The fixed list of supported versions.
    pub fn new() -> (r: SupportedApiVersionsResponse)
        ensures
            r.versions@ == supported_versions(),
    {
        let versions = vec![
            ApiVersion::V0_0_1,
            ApiVersion::V0_0_2,
            ApiVersion::MSC2762,
            ApiVersion::MSC2871,
            ApiVersion::MSC3819,
        ];
        assert(versions@ =~= supported_versions());
        SupportedApiVersionsResponse { versions }
    }
}

/// The empty request or response payload `{}`.
#[derive(Debug)]
pub struct WidgetMessageEmptyData {}

#[derive(Debug)]
pub struct WidgetErrorMessage {
    pub message: String,
}

/// An error response: `{"error": {"message": ...}}`.
#[derive(Debug)]
pub struct WidgetError {
    pub error: WidgetErrorMessage,
}

impl WidgetError {
    pub fn new(message: &str) -> (r: WidgetError)
        ensures
            r.error.message@ == message@,
    {
        WidgetError { error: WidgetErrorMessage { message: String::from_str(message) } }
    }

    pub fn message(&self) -> (r: String)
        ensures
            r@ == self.error.message@,
    {
        self.error.message.clone()
    }
}

/// An answer: a payload or an error.
#[derive(Debug)]
pub enum Response<Resp> {
    Error(WidgetError),
    Response(Resp),
}

/// A request payload and its response slot, empty until answered.
#[derive(Debug)]
pub struct ActionBody<Req, Resp> {
    pub request: Req,
    pub response: Option<Response<Resp>>,
}

impl<Req, Resp> ActionBody<Req, Resp> {
    pub fn new(request: Req) -> (r: ActionBody<Req, Resp>)
        ensures
            r.request == request,
            r.response is None,
    {
        ActionBody { request, response: None }
    }

    /// The same request, answered with `r`.
    pub fn get_response_message(self, r: Resp) -> (m: ActionBody<Req, Resp>)
        ensures
            m.request == self.request,
            m.response == Some(Response::<Resp>::Response(r)),
    {
        ActionBody { request: self.request, response: Some(Response::Response(r)) }
    }

    /// The same request, answered with an error.
    pub fn get_error_message(self, message: String) -> (m: ActionBody<Req, Resp>)
        ensures
            m.request == self.request,
            m.response matches Some(Response::Error(e)) && e.error.message == message,
    {
        ActionBody {
            request: self.request,
            response: Some(Response::Error(WidgetError { error: WidgetErrorMessage { message } })),
        }
    }

    pub fn is_response(&self) -> (r: bool)
        ensures
            r == self.response is Some,
    {
        self.response.is_some()
    }
}

/// Where a request for an identity token stands.
#[derive(Clone, Copy, Debug, PartialEq, Eq, Structural)]
pub enum OpenIdState {
    Allowed,
    Blocked,
    PendingUserConfirmation,
}

/// An identity token issued by the homeserver.
#[derive(Debug)]
pub struct OpenIdToken {
    pub access_token: String,
    pub expires_in: u64,
    pub matrix_server_name: String,
    pub token_type: String,
}

/// The final answer to a token request.
#[derive(Debug)]
pub enum OpenIdDecision {
    Blocked,
    Allowed(OpenIdToken),
}

impl OpenIdDecision {
    pub open spec fn spec_state(&self) -> OpenIdState {
        match self {
            OpenIdDecision::Blocked => OpenIdState::Blocked,
            OpenIdDecision::Allowed(_) => OpenIdState::Allowed,
        }
    }
}

/// The reply to `get_openid`.
#[derive(Debug)]
pub struct GetOpenIdResponse {
    pub state: OpenIdState,
    pub access_token: Option<String>,
    pub expires_in: Option<u64>,
    pub matrix_server_name: Option<String>,
    pub token_type: Option<String>,
}

impl GetOpenIdResponse {
    pub fn pending() -> (r: GetOpenIdResponse)
        ensures
            r.state == OpenIdState::PendingUserConfirmation,
            r.access_token is None,
            r.expires_in is None,
            r.matrix_server_name is None,
            r.token_type is None,
    {
        GetOpenIdResponse {
            state: OpenIdState::PendingUserConfirmation,
            access_token: None,
            expires_in: None,
            matrix_server_name: None,
            token_type: None,
        }
    }

    pub fn from_decision(d: OpenIdDecision) -> (r: GetOpenIdResponse)
        ensures
            r.state == d.spec_state(),
            d matches OpenIdDecision::Allowed(t) ==> r.access_token == Some(t.access_token)
                && r.expires_in == Some(t.expires_in) && r.matrix_server_name == Some(t.matrix_server_name)
                && r.token_type == Some(t.token_type),
            d is Blocked ==> r.access_token is None && r.expires_in is None && r.matrix_server_name is None
                && r.token_type is None,
    {
        match d {
            OpenIdDecision::Blocked => GetOpenIdResponse {
                state: OpenIdState::Blocked,
                access_token: None,
                expires_in: None,
                matrix_server_name: None,
                token_type: None,
            },
            OpenIdDecision::Allowed(t) => GetOpenIdResponse {
                state: OpenIdState::Allowed,
                access_token: Some(t.access_token),
                expires_in: Some(t.expires_in),
                matrix_server_name: Some(t.matrix_server_name),
                token_type: Some(t.token_type),
            },
        }
    }
}

/// The unsolicited `openid_credentials` request that delivers a token that
/// was not ready when the widget asked.
#[derive(Debug)]
pub struct OpenIdCredentialsRequest {
    pub state: OpenIdState,
    pub original_request_id: String,
    pub access_token: Option<String>,
    pub expires_in: Option<u64>,
    pub matrix_server_name: Option<String>,
    pub token_type: Option<String>,
}

impl OpenIdCredentialsRequest {
    pub fn new(original_request_id: String, d: OpenIdDecision) -> (r: OpenIdCredentialsRequest)
        ensures
            r.state == d.spec_state(),
            r.original_request_id == original_request_id,
            d matches OpenIdDecision::Allowed(t) ==> r.access_token == Some(t.access_token)
                && r.expires_in == Some(t.expires_in) && r.matrix_server_name == Some(t.matrix_server_name)
                && r.token_type == Some(t.token_type),
            d is Blocked ==> r.access_token is None && r.expires_in is None && r.matrix_server_name is None
                && r.token_type is None,
    {
        let g = GetOpenIdResponse::from_decision(d);
        OpenIdCredentialsRequest {
            state: g.state,
            original_request_id,
            access_token: g.access_token,
            expires_in: g.expires_in,
            matrix_server_name: g.matrix_server_name,
            token_type: g.token_type,
        }
    }
}

/// A room event as the widget sees it.
#[derive(Debug)]
pub struct MatrixEvent {
    pub event_type: String,
    pub sender: String,
    pub event_id: String,
    pub room_id: String,
    pub state_key: Option<String>,
    pub origin_server_ts: u64,
    pub content: serde_json::Value,
    /// The `msgtype` of the content, read when the event was built.
    pub msgtype: Option<String>,
}

/// What the filters see of an event with this type, key and `msgtype`.
pub open spec fn spec_filter_input(
    event_type: String,
    state_key: Option<String>,
    msgtype: Option<String>,
) -> FilterInput {
    FilterInput { event_type, state_key, msgtype }
}

impl MatrixEvent {
    pub fn new(
        event_type: String,
        sender: String,
        event_id: String,
        room_id: String,
        state_key: Option<String>,
        origin_server_ts: u64,
        content: serde_json::Value,
    ) -> (r: MatrixEvent)
        ensures
            r.event_type == event_type,
            r.state_key == state_key,
            r.content == content,
    {
        let msgtype = content_msgtype(&content);
        MatrixEvent { event_type, sender, event_id, room_id, state_key, origin_server_ts, content, msgtype }
    }

    pub open spec fn spec_filter_input(&self) -> FilterInput {
        spec_filter_input(self.event_type, self.state_key, self.msgtype)
    }

    pub fn filter_input(&self) -> (r: FilterInput)
        ensures
            r == self.spec_filter_input(),
    {
        FilterInput {
            event_type: self.event_type.clone(),
            state_key: copy_opt_string(&self.state_key),
            msgtype: copy_opt_string(&self.msgtype),
        }
    }
}

/// `org.matrix.msc2876.read_events`: events of one type, and one state key
/// for state events.
#[derive(Debug)]
pub struct ReadEventRequest {
    pub event_type: String,
    pub state_key: Option<String>,
    pub limit: u32,
}

#[derive(Debug)]
pub struct ReadEventResponse {
    pub events: Vec<MatrixEvent>,
}

/// `send_event`: a room event, a state event where a state key is given.
#[derive(Debug)]
pub struct SendEventRequest {
    pub event_type: String,
    pub state_key: Option<String>,
    pub content: serde_json::Value,
    /// The `msgtype` of the content, read when the request was built.
    pub msgtype: Option<String>,
}

impl SendEventRequest {
    pub fn new(event_type: String, state_key: Option<String>, content: serde_json::Value) -> (r: SendEventRequest)
        ensures
            r.event_type == event_type,
            r.state_key == state_key,
            r.content == content,
    {
        let msgtype = content_msgtype(&content);
        SendEventRequest { event_type, state_key, content, msgtype }
    }

    pub open spec fn spec_filter_input(&self) -> FilterInput {
        spec_filter_input(self.event_type, self.state_key, self.msgtype)
    }

    pub fn filter_input(&self) -> (r: FilterInput)
        ensures
            r == self.spec_filter_input(),
    {
        FilterInput {
            event_type: self.event_type.clone(),
            state_key: copy_opt_string(&self.state_key),
            msgtype: copy_opt_string(&self.msgtype),
        }
    }

    pub fn copy(&self) -> (r: SendEventRequest)
        ensures
            r == *self,
    {
        SendEventRequest {
            event_type: self.event_type.clone(),
            state_key: copy_opt_string(&self.state_key),
            content: self.content.clone(),
            msgtype: copy_opt_string(&self.msgtype),
        }
    }
}

impl ReadEventRequest {
    pub fn copy(&self) -> (r: ReadEventRequest)
        ensures
            r == *self,
    {
        ReadEventRequest {
            event_type: self.event_type.clone(),
            state_key: copy_opt_string(&self.state_key),
            limit: self.limit,
        }
    }
}

/// The room and the id of a published event.
#[derive(Debug)]
pub struct SendEventResponse {
    pub room_id: String,
    pub event_id: String,
}

/// The widget's answer to `capabilities`: the tokens it asks for.
#[derive(Debug)]
pub struct CapabilitiesResponse {
    pub capabilities: Vec<String>,
}

/// `notify_capabilities`: what was asked for and what was approved, as tokens.
#[derive(Debug)]
pub struct CapabilitiesUpdatedRequest {
    pub requested: Vec<String>,
    pub approved: Vec<String>,
}

/// The requests a widget makes of the host.
#[derive(Debug)]
pub enum FromWidgetAction {
    GetSupportedApiVersion(ActionBody<WidgetMessageEmptyData, SupportedApiVersionsResponse>),
    ContentLoaded(ActionBody<WidgetMessageEmptyData, WidgetMessageEmptyData>),
    GetOpenId(ActionBody<WidgetMessageEmptyData, GetOpenIdResponse>),
    ReadEvent(ActionBody<ReadEventRequest, ReadEventResponse>),
    SendEvent(ActionBody<SendEventRequest, SendEventResponse>),
}

/// The requests the host makes of a widget.
#[derive(Debug)]
pub enum ToWidgetAction {
    CapabilitiesRequest(ActionBody<WidgetMessageEmptyData, CapabilitiesResponse>),
    CapabilitiesUpdate(ActionBody<CapabilitiesUpdatedRequest, WidgetMessageEmptyData>),
    OpenIdCredentialsUpdate(ActionBody<OpenIdCredentialsRequest, WidgetMessageEmptyData>),
}

#[derive(Debug)]
pub enum Action {
    FromWidget(FromWidgetAction),
    ToWidget(ToWidgetAction),
}

/// One frame of the protocol.
#[derive(Debug)]
pub struct Message {
    pub header: Header,
    pub action: Action,
}

impl FromWidgetAction {
    pub fn kind(&self) -> (r: WidgetApiFromWidgetAction)
        ensures
            r == self.spec_kind(),
    {
        match self {
            FromWidgetAction::GetSupportedApiVersion(_) => WidgetApiFromWidgetAction::SupportedApiVersions,
            FromWidgetAction::ContentLoaded(_) => WidgetApiFromWidgetAction::ContentLoaded,
            FromWidgetAction::GetOpenId(_) => WidgetApiFromWidgetAction::GetOpenIDCredentials,
            FromWidgetAction::ReadEvent(_) => WidgetApiFromWidgetAction::MSC2876ReadEvents,
            FromWidgetAction::SendEvent(_) => WidgetApiFromWidgetAction::SendEvent,
        }
    }

    pub open spec fn spec_kind(&self) -> WidgetApiFromWidgetAction {
        match self {
            FromWidgetAction::GetSupportedApiVersion(_) => WidgetApiFromWidgetAction::SupportedApiVersions,
            FromWidgetAction::ContentLoaded(_) => WidgetApiFromWidgetAction::ContentLoaded,
            FromWidgetAction::GetOpenId(_) => WidgetApiFromWidgetAction::GetOpenIDCredentials,
            FromWidgetAction::ReadEvent(_) => WidgetApiFromWidgetAction::MSC2876ReadEvents,
            FromWidgetAction::SendEvent(_) => WidgetApiFromWidgetAction::SendEvent,
        }
    }
}

impl ToWidgetAction {
    pub open spec fn spec_kind(&self) -> WidgetApiToWidgetAction {
        match self {
            ToWidgetAction::CapabilitiesRequest(_) => WidgetApiToWidgetAction::Capabilities,
            ToWidgetAction::CapabilitiesUpdate(_) => WidgetApiToWidgetAction::NotifyCapabilities,
            ToWidgetAction::OpenIdCredentialsUpdate(_) => WidgetApiToWidgetAction::OpenIDCredentials,
        }
    }

    pub fn kind(&self) -> (r: WidgetApiToWidgetAction)
        ensures
            r == self.spec_kind(),
    {
        match self {
            ToWidgetAction::CapabilitiesRequest(_) => WidgetApiToWidgetAction::Capabilities,
            ToWidgetAction::CapabilitiesUpdate(_) => WidgetApiToWidgetAction::NotifyCapabilities,
            ToWidgetAction::OpenIdCredentialsUpdate(_) => WidgetApiToWidgetAction::OpenIDCredentials,
        }
    }
}

/// The `api` field of a frame.
#[derive(Clone, Copy, Debug, PartialEq, Eq, Structural)]
pub enum WidgetApiDirection {
    ToWidget,
    FromWidget,
}

impl WidgetApiDirection {
    pub open spec fn spec_name(self) -> Seq<char> {
        match self {
            WidgetApiDirection::ToWidget => "toWidget"@,
            WidgetApiDirection::FromWidget => "fromWidget"@,
        }
    }

    pub fn as_str(&self) -> (r: &'static str)
        ensures
            r@ == self.spec_name(),
    {
        match self {
            WidgetApiDirection::ToWidget => "toWidget",
            WidgetApiDirection::FromWidget => "fromWidget",
        }
    }

    pub fn from_name(name: &str) -> (r: Option<WidgetApiDirection>)
        ensures
            r matches Some(d) ==> d.spec_name() == name@,
            r is None ==> forall|d: WidgetApiDirection| d.spec_name() != name@,
    {
        if eq_name(name, "toWidget") {
            Some(WidgetApiDirection::ToWidget)
        } else if eq_name(name, "fromWidget") {
            Some(WidgetApiDirection::FromWidget)
        } else {
            proof {
                assert forall|d: WidgetApiDirection| d.spec_name() != name@ by {
                    match d {
                        WidgetApiDirection::ToWidget => {},
                        WidgetApiDirection::FromWidget => {},
                    }
                }
            }
            None
        }
    }
}

/// The actions a host sends to a widget.
#[derive(Clone, Copy, Debug, PartialEq, Eq, Structural)]
pub enum WidgetApiToWidgetAction {
    Capabilities,
    NotifyCapabilities,
    OpenIDCredentials,
}

impl WidgetApiToWidgetAction {
    pub open spec fn spec_name(self) -> Seq<char> {
        match self {
            WidgetApiToWidgetAction::Capabilities => "capabilities"@,
            WidgetApiToWidgetAction::NotifyCapabilities => "notify_capabilities"@,
            WidgetApiToWidgetAction::OpenIDCredentials => "openid_credentials"@,
        }
    }

    pub fn as_str(&self) -> (r: &'static str)
        ensures
            r@ == self.spec_name(),
    {
        match self {
            WidgetApiToWidgetAction::Capabilities => "capabilities",
            WidgetApiToWidgetAction::NotifyCapabilities => "notify_capabilities",
            WidgetApiToWidgetAction::OpenIDCredentials => "openid_credentials",
        }
    }

    pub fn from_name(name: &str) -> (r: Option<WidgetApiToWidgetAction>)
        ensures
            r matches Some(a) ==> a.spec_name() == name@,
            r is None ==> forall|a: WidgetApiToWidgetAction| a.spec_name() != name@,
    {
        if eq_name(name, "capabilities") {
            Some(WidgetApiToWidgetAction::Capabilities)
        } else if eq_name(name, "notify_capabilities") {
            Some(WidgetApiToWidgetAction::NotifyCapabilities)
        } else if eq_name(name, "openid_credentials") {
            Some(WidgetApiToWidgetAction::OpenIDCredentials)
        } else {
            proof {
                assert forall|a: WidgetApiToWidgetAction| a.spec_name() != name@ by {
                    match a {
                        WidgetApiToWidgetAction::Capabilities => {},
                        WidgetApiToWidgetAction::NotifyCapabilities => {},
                        WidgetApiToWidgetAction::OpenIDCredentials => {},
                    }
                }
            }
            None
        }
    }
}

/// The actions a widget sends to its host.
#[derive(Clone, Copy, Debug, PartialEq, Eq, Structural)]
pub enum WidgetApiFromWidgetAction {
    SupportedApiVersions,
    ContentLoaded,
    GetOpenIDCredentials,
    SendEvent,
    MSC2876ReadEvents,
}

impl WidgetApiFromWidgetAction {
    pub open spec fn spec_name(self) -> Seq<char> {
        match self {
            WidgetApiFromWidgetAction::SupportedApiVersions => "supported_api_versions"@,
            WidgetApiFromWidgetAction::ContentLoaded => "content_loaded"@,
            WidgetApiFromWidgetAction::GetOpenIDCredentials => "get_openid"@,
            WidgetApiFromWidgetAction::SendEvent => "send_event"@,
            WidgetApiFromWidgetAction::MSC2876ReadEvents => "org.matrix.msc2876.read_events"@,
        }
    }

    pub fn as_str(&self) -> (r: &'static str)
        ensures
            r@ == self.spec_name(),
    {
        match self {
            WidgetApiFromWidgetAction::SupportedApiVersions => "supported_api_versions",
            WidgetApiFromWidgetAction::ContentLoaded => "content_loaded",
            WidgetApiFromWidgetAction::GetOpenIDCredentials => "get_openid",
            WidgetApiFromWidgetAction::SendEvent => "send_event",
            WidgetApiFromWidgetAction::MSC2876ReadEvents => "org.matrix.msc2876.read_events",
        }
    }

    pub fn from_name(name: &str) -> (r: Option<WidgetApiFromWidgetAction>)
        ensures
            r matches Some(a) ==> a.spec_name() == name@,
            r is None ==> forall|a: WidgetApiFromWidgetAction| a.spec_name() != name@,
    {
        if eq_name(name, "supported_api_versions") {
            Some(WidgetApiFromWidgetAction::SupportedApiVersions)
        } else if eq_name(name, "content_loaded") {
            Some(WidgetApiFromWidgetAction::ContentLoaded)
        } else if eq_name(name, "get_openid") {
            Some(WidgetApiFromWidgetAction::GetOpenIDCredentials)
        } else if eq_name(name, "send_event") {
            Some(WidgetApiFromWidgetAction::SendEvent)
        } else if eq_name(name, "org.matrix.msc2876.read_events") {
            Some(WidgetApiFromWidgetAction::MSC2876ReadEvents)
        } else {
            proof {
                assert forall|a: WidgetApiFromWidgetAction| a.spec_name() != name@ by {
                    match a {
                        WidgetApiFromWidgetAction::SupportedApiVersions => {},
                        WidgetApiFromWidgetAction::ContentLoaded => {},
                        WidgetApiFromWidgetAction::GetOpenIDCredentials => {},
                        WidgetApiFromWidgetAction::SendEvent => {},
                        WidgetApiFromWidgetAction::MSC2876ReadEvents => {},
                    }
                }
            }
            None
        }
    }
}

fn eq_name(a: &str, b: &str) -> (r: bool)
    ensures
        r == (a@ == b@),
{
    String::from_str(a) == String::from_str(b)
}

} // verus!
