//! The session: a single ordered worker that takes widget requests one at a
//! time, negotiates capabilities, and answers each request. It performs no
//! I/O itself: each event it is handed yields the commands that the caller
//! carries out, whose outcomes come back as further events.

use vstd::prelude::*;
use crate::capabilities::{Options, OptionsView, decode_tokens, empty_options, encode_options, strings_view};
use crate::filter::{Filter, FilterView, allowed_by, filters_view};
use crate::messages::{
    Action, ActionBody, CapabilitiesUpdatedRequest, FromWidgetAction, GetOpenIdResponse, Header,
    MatrixEvent, Message, OpenIdCredentialsRequest, OpenIdDecision, ReadEventRequest,
    ReadEventResponse, Response, SendEventRequest, SendEventResponse, SupportedApiVersionsResponse,
    ToWidgetAction, WidgetMessageEmptyData,
};
use crate::outgoing::{
    spec_extract, CapabilitiesRequest, CapabilitiesUpdate, OpenIDUpdated, OutgoingRequest,
    OutgoingResponse, extract_response,
};
use crate::pending::{PendingEntry, PendingTable};

verus! {

/// How a widget is served.
#[derive(Clone, Copy, Debug)]
pub struct Settings {
    /// Wait for the widget's `content_loaded` before negotiating.
    pub init_on_load: bool,
}

/// The granted capabilities: each facet exists only where its filter set is
/// not empty.
#[derive(Debug)]
pub struct Capabilities {
    /// Live delivery of permitted room events.
    pub listener: Option<Vec<Filter>>,
    /// Reading of past events.
    pub reader: Option<Vec<Filter>>,
    /// Sending of events.
    pub sender: Option<Vec<Filter>>,
}

pub open spec fn facet_view(f: Option<Vec<Filter>>) -> Option<Seq<FilterView>> {
    match f {
        Some(v) => Some(filters_view(v@)),
        None => None,
    }
}

pub open spec fn facet_of(fs: Seq<FilterView>) -> Option<Seq<FilterView>> {
    if fs.len() == 0 { None } else { Some(fs) }
}

pub open spec fn facet_filters(f: Option<Seq<FilterView>>) -> Seq<FilterView> {
    match f {
        Some(fs) => fs,
        None => Seq::empty(),
    }
}

fn copy_filters(v: &Vec<Filter>) -> (r: Vec<Filter>)
    ensures
        filters_view(r@) == filters_view(v@),
{
    let mut r: Vec<Filter> = Vec::new();
    let mut i: usize = 0;
    while i < v.len()
        invariant
            i <= v@.len(),
            r@.len() == i,
            forall|j: int| 0 <= j < i ==> (#[trigger] r@[j])@ == v@[j]@,
        decreases v@.len() - i,
    {
        let f = v[i].copy();
        r.push(f);
        i = i + 1;
    }
    assert(filters_view(r@) =~= filters_view(v@));
    r
}

fn facet(v: &Vec<Filter>) -> (r: Option<Vec<Filter>>)
    ensures
        facet_view(r) == facet_of(filters_view(v@)),
{
    if v.len() == 0 {
        None
    } else {
        Some(copy_filters(v))
    }
}

impl Capabilities {
    /// The capabilities that a granted permission set gives.
    pub fn new(granted: &Options) -> (r: Capabilities)
        ensures
            facet_view(r.listener) == facet_of(granted@.read),
            facet_view(r.reader) == facet_of(granted@.read),
            facet_view(r.sender) == facet_of(granted@.send),
    {
        Capabilities {
            listener: facet(&granted.read_filter),
            reader: facet(&granted.read_filter),
            sender: facet(&granted.send_filter),
        }
    }

    pub open spec fn spec_approved(&self) -> OptionsView {
        OptionsView {
            send: facet_filters(facet_view(self.sender)),
            read: facet_filters(facet_view(self.reader)),
            ..empty_options()
        }
    }

    /// The permission set that these capabilities actually hold.
    pub fn approved(&self) -> (r: Options)
        ensures
            r@ == self.spec_approved(),
    {
        let mut r = Options::new();
        match &self.sender {
            Some(f) => r.send_filter = copy_filters(f),
            None => {},
        }
        match &self.reader {
            Some(f) => r.read_filter = copy_filters(f),
            None => {},
        }
        r
    }
}

/// A unit of work for the worker.
#[derive(Debug)]
pub enum Task {
    NegotiateCapabilities,
    HandleIncoming(Header, FromWidgetAction),
}

/// What the worker waits for while a task is in progress.
#[derive(Debug)]
pub enum InFlight {
    /// The widget's answer to `capabilities`.
    AwaitingCapabilities { request_id: String },
    /// The host's decision on what the widget asked for.
    AwaitingGrant { requested: Vec<String> },
    /// The widget's acknowledgement of `notify_capabilities`.
    AwaitingUpdateAck { request_id: String },
    /// The identity provider's answer to `get_openid`.
    AwaitingToken { header: Header, body: ActionBody<WidgetMessageEmptyData, GetOpenIdResponse> },
    /// The room's answer to a read.
    AwaitingRead { header: Header, body: ActionBody<ReadEventRequest, ReadEventResponse> },
    /// The room's answer to a send.
    AwaitingPublish { header: Header, body: ActionBody<SendEventRequest, SendEventResponse> },
}

/// Whether a token request is answered at once or later.
#[derive(Debug)]
pub enum TokenStatus {
    Resolved(OpenIdDecision),
    Pending,
}

/// What happens to a session.
#[derive(Debug)]
pub enum Event {
    /// A request from the widget.
    Incoming(Header, FromWidgetAction),
    /// The widget's reply to one of our requests.
    Reply(Header, ToWidgetAction),
    /// The host granted these of the requested capabilities.
    PermissionsGranted(Options),
    /// The identity provider's first answer.
    Token(TokenStatus),
    /// The final answer to the token request whose reply had this id.
    TokenResolved(String, OpenIdDecision),
    /// The room's answer to a read.
    EventsRead(Result<Vec<MatrixEvent>, String>),
    /// The room's answer to a send.
    EventSent(Result<SendEventResponse, String>),
    /// The transport closed.
    Disconnected,
}

/// What the caller is to do.
#[derive(Debug)]
pub enum Command {
    /// Write this frame to the widget.
    Send(Message),
    /// Ask the host which of these capabilities to grant.
    AcquirePermissions(Options),
    /// Ask the identity provider for a token, for the `get_openid` request
    /// with this id.
    RequestToken(String),
    /// Read past events from the room.
    Read(ReadEventRequest),
    /// Publish an event in the room.
    Publish(SendEventRequest),
    /// Start delivering live events.
    Subscribe,
    /// Stop delivering live events.
    Unsubscribe,
}

pub open spec fn not_negotiated_message() -> Seq<char> {
    "Capabilities have not been negotiated"@
}

pub open spec fn already_loaded_message() -> Seq<char> {
    "Already loaded"@
}

pub open spec fn no_read_message() -> Seq<char> {
    "No permissions to read events"@
}

pub open spec fn no_send_message() -> Seq<char> {
    "No permissions to send events"@
}

/// The error for an event that the sender's filters refuse.
pub open spec fn send_denied_message(event_type: Seq<char>, state_key: Option<Seq<char>>) -> Seq<char> {
    "No capability to send event of type "@ + event_type + " with state key "@ + match state_key {
        Some(k) => k,
        None => "undefined"@,
    }
}

fn denied_message(req: &SendEventRequest) -> (r: String)
    ensures
        r@ == send_denied_message(req.event_type@, crate::filter::opt_view(req.state_key)),
{
    let mut s = String::from_str("No capability to send event of type ");
    s.append(req.event_type.as_str());
    s.append(" with state key ");
    match &req.state_key {
        Some(k) => s.append(k.as_str()),
        None => s.append("undefined"),
    }
    s
}

/// The error message of an answered widget request, if it failed.
pub open spec fn error_of(a: FromWidgetAction) -> Option<Seq<char>> {
    match a {
        FromWidgetAction::GetSupportedApiVersion(b) => body_error(b.response),
        FromWidgetAction::ContentLoaded(b) => body_error(b.response),
        FromWidgetAction::GetOpenId(b) => body_error(b.response),
        FromWidgetAction::ReadEvent(b) => body_error(b.response),
        FromWidgetAction::SendEvent(b) => body_error(b.response),
    }
}

pub open spec fn body_error<T>(r: Option<Response<T>>) -> Option<Seq<char>> {
    match r {
        Some(Response::Error(e)) => Some(e.error.message@),
        _ => None,
    }
}

/// A frame that answers a widget request with an error.
pub open spec fn is_error_reply(c: Command, header: Header, msg: Seq<char>) -> bool {
    match c {
        Command::Send(m) => m.header == header && match m.action {
            Action::FromWidget(a) => error_of(a) == Some(msg),
            _ => false,
        },
        _ => false,
    }
}

/// The error for a `send_event` that the sender's filters refuse, if they do.
pub open spec fn denied_send(caps: Option<Capabilities>, a: FromWidgetAction) -> Option<Seq<char>> {
    match a {
        FromWidgetAction::SendEvent(b) => match caps {
            Some(c) => match c.sender {
                Some(f) => if !allowed_by(f@, &b.request.spec_filter_input()) {
                    Some(
                        send_denied_message(
                            b.request.event_type@,
                            crate::filter::opt_view(b.request.state_key),
                        ),
                    )
                } else {
                    None
                },
                None => None,
            },
            None => None,
        },
        _ => None,
    }
}

/// The error a widget request meets before any work is done, if any.
pub open spec fn request_error(caps: Option<Capabilities>, a: FromWidgetAction) -> Option<Seq<char>> {
    match a {
        FromWidgetAction::ContentLoaded(_) => if caps is Some {
            Some(already_loaded_message())
        } else {
            None
        },
        FromWidgetAction::ReadEvent(_) => match caps {
            None => Some(not_negotiated_message()),
            Some(c) => if c.reader is None {
                Some(no_read_message())
            } else {
                None
            },
        },
        FromWidgetAction::SendEvent(_) => match caps {
            None => Some(not_negotiated_message()),
            Some(c) => if c.sender is None {
                Some(no_send_message())
            } else {
                denied_send(caps, a)
            },
        },
        _ => None,
    }
}

/// The filters of the reader facet; none where it is absent.
pub open spec fn reader_filters(caps: Option<Capabilities>) -> Seq<Filter> {
    match caps {
        Some(c) => match c.reader {
            Some(f) => f@,
            None => Seq::empty(),
        },
        None => Seq::empty(),
    }
}

/// The frame that sends this answered action to the widget.
pub open spec fn is_reply(c: Command, header: Header, a: FromWidgetAction) -> bool {
    c == Command::Send(Message { header, action: Action::FromWidget(a) })
}

/// A frame that answers `supported_api_versions` with the fixed list.
pub open spec fn is_versions_reply(c: Command, header: Header) -> bool {
    match c {
        Command::Send(m) => m.header == header && match m.action {
            Action::FromWidget(FromWidgetAction::GetSupportedApiVersion(b)) => match b.response {
                Some(Response::Response(r)) => r.versions@ == crate::messages::supported_versions(),
                _ => false,
            },
            _ => false,
        },
        _ => false,
    }
}

/// A frame that answers `content_loaded` with success.
pub open spec fn is_loaded_reply(c: Command, header: Header) -> bool {
    match c {
        Command::Send(m) => m.header == header && match m.action {
            Action::FromWidget(FromWidgetAction::ContentLoaded(b)) => b.response is Some && body_error(b.response) is None,
            _ => false,
        },
        _ => false,
    }
}

/// The events of a frame that answers a read, if it is one.
pub open spec fn read_reply_events(c: Command, header: Header) -> Option<Seq<MatrixEvent>> {
    match c {
        Command::Send(m) => if m.header == header {
            match m.action {
                Action::FromWidget(FromWidgetAction::ReadEvent(b)) => match b.response {
                    Some(Response::Response(r)) => Some(r.events@),
                    _ => None,
                },
                _ => None,
            }
        } else {
            None
        },
        _ => None,
    }
}

/// The header of the read in progress, if any.
pub open spec fn awaited_read(cur: Option<InFlight>) -> Option<Header> {
    match cur {
        Some(InFlight::AwaitingRead { header, .. }) => Some(header),
        _ => None,
    }
}

/// The header of the send in progress, if any.
pub open spec fn awaited_publish(cur: Option<InFlight>) -> Option<Header> {
    match cur {
        Some(InFlight::AwaitingPublish { header, .. }) => Some(header),
        _ => None,
    }
}

/// The request of the send in progress, if any.
pub open spec fn awaited_publish_request(cur: Option<InFlight>) -> Option<SendEventRequest> {
    match cur {
        Some(InFlight::AwaitingPublish { body, .. }) => Some(body.request),
        _ => None,
    }
}

/// The id of the `capabilities` request in progress, if any.
pub open spec fn awaited_capabilities(cur: Option<InFlight>) -> Option<Seq<char>> {
    match cur {
        Some(InFlight::AwaitingCapabilities { request_id }) => Some(request_id@),
        _ => None,
    }
}

/// The tokens the widget asked for, while the host decides.
pub open spec fn awaited_grant(cur: Option<InFlight>) -> Option<Vec<String>> {
    match cur {
        Some(InFlight::AwaitingGrant { requested }) => Some(requested),
        _ => None,
    }
}

/// The id of the `notify_capabilities` request in progress, if any.
pub open spec fn awaited_update(cur: Option<InFlight>) -> Option<Seq<char>> {
    match cur {
        Some(InFlight::AwaitingUpdateAck { request_id }) => Some(request_id@),
        _ => None,
    }
}

/// Negotiation ended without a grant: capabilities are as they were, the
/// host is asked nothing, and the worker takes up the next task.
pub open spec fn aborted(old: Session, new: Session, old_cmds: Seq<Command>, new_cmds: Seq<Command>) -> bool {
    &&& new.capabilities == old.capabilities
    &&& awaited_grant(new.current) is None
    &&& moved_on(old, new)
    &&& starts_only(new_cmds, old_cmds.len() as int, true)
}

/// A command that asks the host about this permission set.
pub open spec fn acquires(c: Command, o: OptionsView) -> bool {
    match c {
        Command::AcquirePermissions(p) => p@ == o,
        _ => false,
    }
}

/// A `notify_capabilities` frame with these token lists.
pub open spec fn is_notify(
    c: Command,
    requested: Vec<String>,
    approved: Seq<Seq<char>>,
    id: Seq<char>,
    widget_id: Seq<char>,
) -> bool {
    match c {
        Command::Send(m) => m.header.request_id@ == id && m.header.widget_id@ == widget_id && match m.action {
            Action::ToWidget(ToWidgetAction::CapabilitiesUpdate(b)) => {
                &&& b.request.requested == requested
                &&& strings_view(b.request.approved@) == approved
                &&& b.response is None
            },
            _ => false,
        },
        _ => false,
    }
}

/// The events of a read result that the filters allow, in order.
pub open spec fn kept_events(filters: Seq<Filter>, events: Seq<MatrixEvent>) -> Seq<MatrixEvent>
    decreases events.len(),
{
    if events.len() == 0 {
        Seq::empty()
    } else {
        let rest = kept_events(filters, events.drop_last());
        if allowed_by(filters, &events.last().spec_filter_input()) {
            rest.push(events.last())
        } else {
            rest
        }
    }
}

/// A frame from this widget's host under this request id that carries this
/// request, not yet answered.
pub open spec fn sends_request(c: Command, req: OutgoingRequest, id: Seq<char>, widget_id: Seq<char>) -> bool {
    match c {
        Command::Send(m) => m.header.request_id@ == id && m.header.widget_id@ == widget_id && match m.action {
            Action::ToWidget(a) => {
                &&& a.spec_kind() == req.spec_kind().spec_wire()
                &&& !a.spec_is_answered()
                &&& match (req, a) {
                    (OutgoingRequest::OpenId(o), ToWidgetAction::OpenIdCredentialsUpdate(b)) => b.request == o.0,
                    (OutgoingRequest::Update(u), ToWidgetAction::CapabilitiesUpdate(b)) => b.request == u.0,
                    _ => true,
                }
            },
            _ => false,
        },
        _ => false,
    }
}

/// A command that starting a queued task can give: a reply to the widget,
/// a `capabilities` request, or work for the host's room or identity
/// provider.
pub open spec fn is_start_command(c: Command) -> bool {
    match c {
        Command::Send(m) => match m.action {
            Action::FromWidget(_) => true,
            Action::ToWidget(a) => a is CapabilitiesRequest,
        },
        Command::RequestToken(_) => true,
        Command::Read(_) => true,
        Command::Publish(_) => true,
        _ => false,
    }
}

/// A command that belongs to negotiation: asking the widget for its wishes,
/// asking the host for a grant, or telling the widget the outcome.
pub open spec fn is_negotiation_command(c: Command) -> bool {
    match c {
        Command::AcquirePermissions(_) => true,
        Command::Send(m) => match m.action {
            Action::ToWidget(a) => a is CapabilitiesRequest || a is CapabilitiesUpdate,
            _ => false,
        },
        _ => false,
    }
}

/// The commands after the first `from` of `new` only start queued tasks,
/// and none belongs to negotiation unless `negotiable`.
pub open spec fn starts_only(new: Seq<Command>, from: int, negotiable: bool) -> bool {
    forall|i: int|
        from <= i < new.len() ==> is_start_command(#[trigger] new[i]) && (!negotiable
            ==> !is_negotiation_command(new[i]))
}

/// The commands after the first `from` of `new` belong to negotiation only
/// where it is `negotiable`.
pub open spec fn quiet_negotiation(new: Seq<Command>, from: int, negotiable: bool) -> bool {
    forall|i: int| from <= i < new.len() && !negotiable ==> !is_negotiation_command(#[trigger] new[i])
}

/// The worker took up the next task: it went idle where nothing was queued,
/// and otherwise dequeued at least one task.
pub open spec fn moved_on(old: Session, new: Session) -> bool {
    if old.queue@.len() == 0 {
        new.current is None
    } else {
        new.queue@.len() < old.queue@.len()
    }
}

/// Negotiation waits for the widget's wishes or the host's grant.
pub open spec fn negotiating(cur: Option<InFlight>) -> bool {
    match cur {
        Some(InFlight::AwaitingCapabilities { .. }) => true,
        Some(InFlight::AwaitingGrant { .. }) => true,
        _ => false,
    }
}

/// `new` holds the requests of `old`, in place, and maybe more after them.
pub open spec fn pending_extends(new: Seq<PendingEntry>, old: Seq<PendingEntry>) -> bool {
    &&& new.len() >= old.len()
    &&& forall|i: int| 0 <= i < old.len() ==> #[trigger] new[i] == old[i]
}

/// `new` is `old` with commands added at the end.
pub open spec fn extends(new: Seq<Command>, old: Seq<Command>) -> bool {
    &&& new.len() >= old.len()
    &&& forall|i: int| 0 <= i < old.len() ==> #[trigger] new[i] == old[i]
}

proof fn lemma_nothing_kept(events: Seq<MatrixEvent>)
    ensures
        kept_events(Seq::<Filter>::empty(), events) =~= Seq::<MatrixEvent>::empty(),
    decreases events.len(),
{
    if events.len() > 0 {
        lemma_nothing_kept(events.drop_last());
    }
}

fn reply(header: Header, a: FromWidgetAction) -> (c: Command)
    ensures
        c == Command::Send(Message { header, action: Action::FromWidget(a) }),
{
    Command::Send(Message { header, action: Action::FromWidget(a) })
}

/// The request answered with an error.
fn fail(a: FromWidgetAction, message: String) -> (r: FromWidgetAction)
    ensures
        error_of(r) == Some(message@),
        r.spec_kind() == a.spec_kind(),
{
    match a {
        FromWidgetAction::GetSupportedApiVersion(b) => FromWidgetAction::GetSupportedApiVersion(
            b.get_error_message(message),
        ),
        FromWidgetAction::ContentLoaded(b) => FromWidgetAction::ContentLoaded(b.get_error_message(message)),
        FromWidgetAction::GetOpenId(b) => FromWidgetAction::GetOpenId(b.get_error_message(message)),
        FromWidgetAction::ReadEvent(b) => FromWidgetAction::ReadEvent(b.get_error_message(message)),
        FromWidgetAction::SendEvent(b) => FromWidgetAction::SendEvent(b.get_error_message(message)),
    }
}

/// The events that the filters allow, in order.
fn keep_allowed(filters: &Vec<Filter>, events: Vec<MatrixEvent>) -> (r: Vec<MatrixEvent>)
    ensures
        r@ == kept_events(filters@, events@),
{
    let mut events = events;
    let ghost all = events@;
    let mut kept: Vec<MatrixEvent> = Vec::new();
    let ghost mut i: int = 0;
    assert(all.subrange(0, 0) =~= Seq::<MatrixEvent>::empty());
    while events.len() > 0
        invariant
            0 <= i <= all.len(),
            events@ =~= all.subrange(i, all.len() as int),
            kept@ == kept_events(filters@, all.subrange(0, i)),
        decreases events@.len(),
    {
        let e = events.remove(0);
        proof {
            assert(e == all[i]);
            assert(all.subrange(0, i + 1).drop_last() =~= all.subrange(0, i));
            assert(all.subrange(0, i + 1).last() == e);
            i = i + 1;
        }
        let input = e.filter_input();
        if crate::filter::allow(filters, &input) {
            kept.push(e);
        }
    }
    assert(all.subrange(0, i) =~= all);
    kept
}

/// One widget session.
#[derive(Debug)]
pub struct Session {
    pub widget_id: String,
    pub settings: Settings,
    /// `Some` once negotiation has granted capabilities.
    pub capabilities: Option<Capabilities>,
    /// Our requests to the widget that wait for a reply.
    pub pending: PendingTable,
    /// Tasks not yet started, oldest first.
    pub queue: Vec<Task>,
    /// What the task in progress waits for.
    pub current: Option<InFlight>,
    /// Ids of `get_openid` requests answered as pending whose final state is
    /// still to be delivered.
    pub openid_waiting: Vec<String>,
    /// The transport closed; the session does nothing more.
    pub closed: bool,
}

impl Session {
    pub open spec fn wf(&self) -> bool {
        &&& self.pending.wf()
        &&& negotiating(self.current) ==> self.capabilities is None
        &&& self.current is None ==> self.queue@.len() == 0
        &&& self.closed ==> self.current is None && self.pending.entries@.len() == 0
    }

    /// A new session. Unless it waits for `content_loaded`, negotiation
    /// starts at once, with `fresh_id` as the id of the first request.
    pub fn new(widget_id: String, settings: Settings, fresh_id: String) -> (r: (Session, Vec<Command>))
        ensures
            r.0.wf(),
            r.0.capabilities is None,
            !r.0.closed,
            r.0.widget_id == widget_id,
            r.0.queue@.len() == 0,
            settings.init_on_load ==> r.1@.len() == 0 && r.0.current is None && r.0.pending.entries@.len() == 0,
            !settings.init_on_load ==> {
                &&& r.1@.len() == 1
                &&& sends_request(r.1@[0], OutgoingRequest::Capabilities(CapabilitiesRequest {}), fresh_id@, widget_id@)
                &&& r.0.current == Some(InFlight::AwaitingCapabilities { request_id: fresh_id })
                &&& r.0.pending.has(fresh_id@)
            },
    {
        let mut s = Session {
            widget_id,
            settings,
            capabilities: None,
            pending: PendingTable::new(),
            queue: Vec::new(),
            current: None,
            openid_waiting: Vec::new(),
            closed: false,
        };
        let mut cmds: Vec<Command> = Vec::new();
        if !settings.init_on_load {
            s.start_negotiation(&fresh_id, &mut cmds);
        }
        (s, cmds)
    }

    /// Sends a request to the widget under `id`; `false`, with nothing sent,
    /// where that id is outstanding already.
    fn send_request(&mut self, id: &String, req: OutgoingRequest, cmds: &mut Vec<Command>) -> (r: bool)
        requires
            old(self).pending.wf(),
        ensures
            final(self).pending.wf(),
            r == !old(self).pending.has(id@),
            r ==> final(self).pending.entries@.len() == old(self).pending.entries@.len() + 1,
            r ==> final(cmds)@.len() == old(cmds)@.len() + 1,
            r ==> sends_request(final(cmds)@.last(), req, id@, old(self).widget_id@),
            r ==> final(self).pending.entries@ == old(self).pending.entries@.push(
                PendingEntry { request_id: *id, kind: req.spec_kind() },
            ),
            r ==> final(self).pending.has(id@),
            !r ==> final(self).pending == old(self).pending && final(cmds)@ == old(cmds)@,
            final(self).capabilities == old(self).capabilities,
            final(self).queue == old(self).queue,
            final(self).current == old(self).current,
            final(self).closed == old(self).closed,
            final(self).openid_waiting == old(self).openid_waiting,
            final(self).widget_id == old(self).widget_id,
            final(self).settings == old(self).settings,
            extends(final(cmds)@, old(cmds)@),
            pending_extends(final(self).pending.entries@, old(self).pending.entries@),
    {
        let kind = req.kind();
        if !self.pending.insert(id.clone(), kind) {
            assert(self.pending.entries@.subrange(0, old(self).pending.entries@.len() as int) =~= old(self).pending.entries@);
            return false;
        }
        let header = Header { request_id: id.clone(), widget_id: self.widget_id.clone() };
        assert(self.pending.entries@.subrange(0, old(self).pending.entries@.len() as int) =~= old(self).pending.entries@);
        assert(self.pending.entries@[self.pending.entries@.len() - 1].request_id@ == id@);
        cmds.push(Command::Send(Message { header, action: Action::ToWidget(req.into_action()) }));
        true
    }

    /// Asks the widget for the capabilities it wants.
    fn start_negotiation(&mut self, fresh_id: &String, cmds: &mut Vec<Command>)
        requires
            old(self).pending.wf(),
            old(self).capabilities is None,
            old(self).current is None,
        ensures
            final(self).pending.wf(),
            final(self).capabilities == old(self).capabilities,
            final(self).queue == old(self).queue,
            final(self).closed == old(self).closed,
            final(self).openid_waiting == old(self).openid_waiting,
            final(self).widget_id == old(self).widget_id,
            final(self).settings == old(self).settings,
            extends(final(cmds)@, old(cmds)@),
            pending_extends(final(self).pending.entries@, old(self).pending.entries@),
            negotiating(final(self).current) ==> final(self).capabilities is None,
            !old(self).pending.has(fresh_id@) ==> {
                &&& final(cmds)@ == old(cmds)@.push(final(cmds)@.last())
                &&& sends_request(final(cmds)@.last(), OutgoingRequest::Capabilities(CapabilitiesRequest {}), fresh_id@, old(self).widget_id@)
                &&& final(self).pending.has(fresh_id@)
                &&& final(self).current == Some(InFlight::AwaitingCapabilities { request_id: *fresh_id })
            },
            old(self).pending.has(fresh_id@) ==> final(cmds)@ == old(cmds)@ && final(self).current == old(self).current,
            awaited_grant(final(self).current) is None,
            starts_only(final(cmds)@, old(cmds)@.len() as int, old(self).capabilities is None),
    {
        let req = OutgoingRequest::Capabilities(CapabilitiesRequest {});
        let ghost c0 = cmds@;
        if self.send_request(fresh_id, req, cmds) {
            assert(cmds@ =~= c0.push(cmds@.last()));
            self.current = Some(InFlight::AwaitingCapabilities { request_id: fresh_id.clone() });
        }
    }

    /// Starts a task: answers it at once, or records what it waits for.
    fn start_task(&mut self, task: Task, fresh_id: &String, cmds: &mut Vec<Command>)
        requires
            old(self).pending.wf(),
            old(self).current is None,
        ensures
            final(self).pending.wf(),
            final(self).capabilities == old(self).capabilities,
            final(self).queue == old(self).queue,
            final(self).closed == old(self).closed,
            final(self).openid_waiting == old(self).openid_waiting,
            final(self).widget_id == old(self).widget_id,
            final(self).settings == old(self).settings,
            extends(final(cmds)@, old(cmds)@),
            pending_extends(final(self).pending.entries@, old(self).pending.entries@),
            negotiating(final(self).current) ==> final(self).capabilities is None,
            awaited_grant(final(self).current) is None,
            starts_only(final(cmds)@, old(cmds)@.len() as int, old(self).capabilities is None),
    {
        match task {
            Task::NegotiateCapabilities => {
                if self.capabilities.is_none() {
                    self.start_negotiation(fresh_id, cmds);
                }
            },
            Task::HandleIncoming(header, action) => self.start_request(header, action, fresh_id, cmds),
        }
    }

    /// Starts a widget request.
    fn start_request(&mut self, header: Header, action: FromWidgetAction, fresh_id: &String, cmds: &mut Vec<Command>)
        requires
            old(self).pending.wf(),
            old(self).current is None,
        ensures
            final(self).pending.wf(),
            final(self).capabilities == old(self).capabilities,
            final(self).queue == old(self).queue,
            final(self).closed == old(self).closed,
            final(self).openid_waiting == old(self).openid_waiting,
            final(self).widget_id == old(self).widget_id,
            final(self).settings == old(self).settings,
            extends(final(cmds)@, old(cmds)@),
            request_error(old(self).capabilities, action) is Some ==> {
                &&& final(cmds)@ == old(cmds)@.push(final(cmds)@.last())
                &&& is_error_reply(final(cmds)@.last(), header, request_error(old(self).capabilities, action)->0)
                &&& final(self).pending == old(self).pending
                &&& final(self).current is None
            },
            request_error(old(self).capabilities, action) is None ==> match action {
                FromWidgetAction::GetSupportedApiVersion(_) => {
                    &&& final(cmds)@ == old(cmds)@.push(final(cmds)@.last())
                    &&& is_versions_reply(final(cmds)@.last(), header)
                    &&& final(self).current is None
                },
                FromWidgetAction::ContentLoaded(_) => {
                    &&& final(cmds)@.len() > old(cmds)@.len()
                    &&& is_loaded_reply(final(cmds)@[old(cmds)@.len() as int], header)
                    &&& !old(self).settings.init_on_load ==> final(cmds)@.len() == old(cmds)@.len() + 1
                        && final(self).current is None
                    &&& old(self).settings.init_on_load && !old(self).pending.has(fresh_id@) ==> {
                        &&& final(cmds)@.len() == old(cmds)@.len() + 2
                        &&& sends_request(final(cmds)@.last(), OutgoingRequest::Capabilities(CapabilitiesRequest {}), fresh_id@, old(self).widget_id@)
                &&& final(self).pending.has(fresh_id@)
                        &&& final(self).current == Some(InFlight::AwaitingCapabilities { request_id: *fresh_id })
                    }
                },
                FromWidgetAction::GetOpenId(b) => {
                    &&& final(cmds)@ == old(cmds)@.push(Command::RequestToken(header.request_id))
                    &&& final(self).current == Some(InFlight::AwaitingToken { header, body: b })
                },
                FromWidgetAction::ReadEvent(b) => {
                    &&& final(cmds)@ == old(cmds)@.push(Command::Read(b.request))
                    &&& final(self).current == Some(InFlight::AwaitingRead { header, body: b })
                },
                FromWidgetAction::SendEvent(b) => {
                    &&& final(cmds)@ == old(cmds)@.push(Command::Publish(b.request))
                    &&& final(self).current == Some(InFlight::AwaitingPublish { header, body: b })
                },
            },
            pending_extends(final(self).pending.entries@, old(self).pending.entries@),
            negotiating(final(self).current) ==> final(self).capabilities is None,
            awaited_grant(final(self).current) is None,
            starts_only(final(cmds)@, old(cmds)@.len() as int, old(self).capabilities is None),
    {
        match action {
            FromWidgetAction::GetSupportedApiVersion(b) => {
                let a = FromWidgetAction::GetSupportedApiVersion(
                    b.get_response_message(SupportedApiVersionsResponse::new()),
                );
                cmds.push(reply(header, a));
            },
            FromWidgetAction::ContentLoaded(b) => {
                if self.capabilities.is_some() {
                    let a = fail(FromWidgetAction::ContentLoaded(b), String::from_str("Already loaded"));
                    cmds.push(reply(header, a));
                } else {
                    let a = FromWidgetAction::ContentLoaded(b.get_response_message(WidgetMessageEmptyData {}));
                    cmds.push(reply(header, a));
                    if self.settings.init_on_load {
                        self.start_negotiation(fresh_id, cmds);
                    }
                }
            },
            FromWidgetAction::GetOpenId(body) => {
                cmds.push(Command::RequestToken(header.request_id.clone()));
                self.current = Some(InFlight::AwaitingToken { header, body });
            },
            FromWidgetAction::ReadEvent(body) => {
                match &self.capabilities {
                    None => {
                        let a = fail(FromWidgetAction::ReadEvent(body), String::from_str("Capabilities have not been negotiated"));
                        cmds.push(reply(header, a));
                    },
                    Some(c) => match &c.reader {
                        None => {
                            let a = fail(FromWidgetAction::ReadEvent(body), String::from_str("No permissions to read events"));
                            cmds.push(reply(header, a));
                        },
                        Some(_) => {
                            cmds.push(Command::Read(body.request.copy()));
                            self.current = Some(InFlight::AwaitingRead { header, body });
                        },
                    },
                }
            },
            FromWidgetAction::SendEvent(body) => {
                match &self.capabilities {
                    None => {
                        let a = fail(FromWidgetAction::SendEvent(body), String::from_str("Capabilities have not been negotiated"));
                        cmds.push(reply(header, a));
                    },
                    Some(c) => match &c.sender {
                        None => {
                            let a = fail(FromWidgetAction::SendEvent(body), String::from_str("No permissions to send events"));
                            cmds.push(reply(header, a));
                        },
                        Some(filters) => {
                            let input = body.request.filter_input();
                            if crate::filter::allow(filters, &input) {
                                cmds.push(Command::Publish(body.request.copy()));
                                self.current = Some(InFlight::AwaitingPublish { header, body });
                            } else {
                                let msg = denied_message(&body.request);
                                let a = fail(FromWidgetAction::SendEvent(body), msg);
                                cmds.push(reply(header, a));
                            }
                        },
                    },
                }
            },
        }
    }

    /// While nothing is in progress, starts the queued tasks in order.
    fn run_queue(&mut self, fresh_id: &String, cmds: &mut Vec<Command>)
        requires
            old(self).pending.wf(),
        ensures
            final(self).pending.wf(),
            final(self).current is None ==> final(self).queue@.len() == 0,
            old(self).current is Some ==> *final(self) == *old(self) && final(cmds)@ == old(cmds)@,
            old(self).queue@.len() == 0 ==> *final(self) == *old(self) && final(cmds)@ == old(cmds)@,
            exists|k: int| 0 <= k <= old(self).queue@.len() && final(self).queue@ == old(self).queue@.subrange(k, old(self).queue@.len() as int),
            final(self).capabilities == old(self).capabilities,
            final(self).closed == old(self).closed,
            final(self).openid_waiting == old(self).openid_waiting,
            final(self).widget_id == old(self).widget_id,
            final(self).settings == old(self).settings,
            extends(final(cmds)@, old(cmds)@),
            pending_extends(final(self).pending.entries@, old(self).pending.entries@),
            negotiating(old(self).current) ==> old(self).capabilities is None ==> negotiating(final(self).current) ==> final(self).capabilities is None,
            !negotiating(old(self).current) ==> negotiating(final(self).current) ==> final(self).capabilities is None,
            awaited_grant(final(self).current) is None || final(self).current == old(self).current,
            starts_only(final(cmds)@, old(cmds)@.len() as int, old(self).capabilities is None),
            old(self).current is None && old(self).queue@.len() > 0 ==> final(self).queue@.len() < old(self).queue@.len(),
    {
        let ghost q0 = self.queue@;
        let ghost k: int = 0;
        while self.current.is_none() && self.queue.len() > 0
            invariant
                self.pending.wf(),
                0 <= k <= q0.len(),
                self.queue@ == q0.subrange(k, q0.len() as int),
                self.capabilities == old(self).capabilities,
                self.closed == old(self).closed,
                self.openid_waiting == old(self).openid_waiting,
                self.widget_id == old(self).widget_id,
                self.settings == old(self).settings,
                old(self).current is Some ==> *self == *old(self) && cmds@ == old(cmds)@,
                old(self).queue@.len() == 0 ==> *self == *old(self) && cmds@ == old(cmds)@,
                awaited_grant(self.current) is None || self.current == old(self).current,
                extends(cmds@, old(cmds)@),
                starts_only(cmds@, old(cmds)@.len() as int, old(self).capabilities is None),
                old(self).current is None && q0.len() > 0 && k == 0 ==> self.current is None,
                pending_extends(self.pending.entries@, old(self).pending.entries@),
                self.current is Some ==> *self == *old(self) || (negotiating(self.current) ==> self.capabilities is None),
                negotiating(old(self).current) ==> old(self).capabilities is None ==> negotiating(self.current) ==> self.capabilities is None,
            decreases self.queue@.len(),
        {
            let task = self.queue.remove(0);
            proof {
                k = k + 1;
                assert(self.queue@ =~= q0.subrange(k, q0.len() as int));
            }
            self.start_task(task, fresh_id, cmds);
        }
    }
}

/// `new` is what remains of `all` after dropping some of its first items.
pub open spec fn is_suffix(new: Seq<Task>, all: Seq<Task>) -> bool {
    &&& new.len() <= all.len()
    &&& new == all.subrange(all.len() - new.len(), all.len() as int)
}

/// The tasks that an event adds to the queue.
pub open spec fn incoming_tasks(e: Event) -> Seq<Task> {
    match e {
        Event::Incoming(h, a) => if a is GetSupportedApiVersion {
            Seq::empty()
        } else {
            seq![Task::HandleIncoming(h, a)]
        },
        _ => Seq::empty(),
    }
}

/// Whether an event can end what the task in progress waits for.
pub open spec fn ends(cur: InFlight, e: Event) -> bool {
    match e {
        Event::Disconnected => true,
        Event::Reply(h, _) => match cur {
            InFlight::AwaitingCapabilities { request_id } => h.request_id@ == request_id@,
            InFlight::AwaitingUpdateAck { request_id } => h.request_id@ == request_id@,
            _ => false,
        },
        Event::PermissionsGranted(_) => cur is AwaitingGrant,
        Event::Token(_) => cur is AwaitingToken,
        Event::EventsRead(_) => cur is AwaitingRead,
        Event::EventSent(_) => cur is AwaitingPublish,
        _ => false,
    }
}

/// The header of the `get_openid` request in progress, if any.
pub open spec fn awaited_token(cur: Option<InFlight>) -> Option<Header> {
    match cur {
        Some(InFlight::AwaitingToken { header, .. }) => Some(header),
        _ => None,
    }
}

pub open spec fn token_state(st: TokenStatus) -> crate::messages::OpenIdState {
    match st {
        TokenStatus::Resolved(d) => d.spec_state(),
        TokenStatus::Pending => crate::messages::OpenIdState::PendingUserConfirmation,
    }
}

/// A frame that answers `get_openid` with the given state.
pub open spec fn is_openid_reply(c: Command, header: Header, state: crate::messages::OpenIdState) -> bool {
    match c {
        Command::Send(m) => m.header == header && match m.action {
            Action::FromWidget(FromWidgetAction::GetOpenId(b)) => match b.response {
                Some(Response::Response(r)) => r.state == state,
                _ => false,
            },
            _ => false,
        },
        _ => false,
    }
}

/// An unsolicited `openid_credentials` frame for the given request.
pub open spec fn is_credentials_update(
    c: Command,
    original: String,
    state: crate::messages::OpenIdState,
    id: Seq<char>,
    widget_id: Seq<char>,
) -> bool {
    match c {
        Command::Send(m) => m.header.request_id@ == id && m.header.widget_id@ == widget_id && match m.action {
            Action::ToWidget(ToWidgetAction::OpenIdCredentialsUpdate(b)) => {
                &&& b.request.original_request_id == original
                &&& b.request.state == state
                &&& b.response is None
            },
            _ => false,
        },
        _ => false,
    }
}

/// The position of an id among the ids waiting for a token.
pub open spec fn waiting_index(w: Seq<String>, id: Seq<char>) -> int {
    choose|i: int| 0 <= i < w.len() && #[trigger] w[i]@ == id
}

pub open spec fn is_waiting(w: Seq<String>, id: Seq<char>) -> bool {
    exists|i: int| 0 <= i < w.len() && #[trigger] w[i]@ == id
}

fn find_waiting(w: &Vec<String>, id: &String) -> (r: Option<usize>)
    ensures
        r is Some <==> is_waiting(w@, id@),
        r matches Some(i) ==> i < w@.len() && w@[i as int]@ == id@,
{
    let mut i: usize = 0;
    while i < w.len()
        invariant
            i <= w@.len(),
            forall|j: int| 0 <= j < i ==> (#[trigger] w@[j])@ != id@,
        decreases w@.len() - i,
    {
        if w[i] == *id {
            return Some(i);
        }
        i = i + 1;
    }
    None
}

impl Session {
    /// Ends the task in progress and starts the queued ones.
    fn finish(&mut self, fresh_id: &String, cmds: &mut Vec<Command>)
        requires
            old(self).pending.wf(),
        ensures
            final(self).pending.wf(),
            final(self).current is None ==> final(self).queue@.len() == 0,
            exists|k: int| 0 <= k <= old(self).queue@.len() && final(self).queue@ == old(self).queue@.subrange(k, old(self).queue@.len() as int),
            final(self).capabilities == old(self).capabilities,
            final(self).closed == old(self).closed,
            final(self).openid_waiting == old(self).openid_waiting,
            final(self).widget_id == old(self).widget_id,
            final(self).settings == old(self).settings,
            extends(final(cmds)@, old(cmds)@),
            pending_extends(final(self).pending.entries@, old(self).pending.entries@),
            negotiating(final(self).current) ==> final(self).capabilities is None,
            awaited_grant(final(self).current) is None,
            starts_only(final(cmds)@, old(cmds)@.len() as int, old(self).capabilities is None),
            moved_on(*old(self), *final(self)),
    {
        self.current = None;
        self.run_queue(fresh_id, cmds);
    }

    fn on_reply(&mut self, header: Header, action: ToWidgetAction, fresh_id: &String, cmds: &mut Vec<Command>)
        requires
            old(self).wf(),
            !old(self).closed,
        ensures
            final(self).wf(),
            !old(self).pending.has(header.request_id@) ==> *final(self) == *old(self) && final(cmds)@ == old(cmds)@,
            old(self).pending.has(header.request_id@) ==> pending_extends(
                final(self).pending.entries@,
                old(self).pending.entries@.remove(old(self).pending.index_of(header.request_id@)),
            ),
            old(self).current is Some && !ends(old(self).current->0, Event::Reply(header, action)) ==> final(self).current == old(self).current,
            exists|k: int| 0 <= k <= old(self).queue@.len() && final(self).queue@ == old(self).queue@.subrange(k, old(self).queue@.len() as int),
            final(self).closed == old(self).closed,
            final(self).capabilities == old(self).capabilities,
            final(self).openid_waiting == old(self).openid_waiting,
            extends(final(cmds)@, old(cmds)@),
            awaited_capabilities(old(self).current) == Some(header.request_id@) && old(self).pending.has(header.request_id@) ==> {
                let kind = old(self).pending.entries@[old(self).pending.index_of(header.request_id@)].kind;
                match spec_extract(kind, action) {
                    Ok(OutgoingResponse::Capabilities(c)) => match decode_tokens(strings_view(c.capabilities@)) {
                        Some(d) => {
                            &&& final(cmds)@ == old(cmds)@.push(final(cmds)@.last())
                            &&& acquires(final(cmds)@.last(), d)
                            &&& final(self).current == Some(InFlight::AwaitingGrant { requested: c.capabilities })
                        },
                        None => aborted(*old(self), *final(self), old(cmds)@, final(cmds)@),
                    },
                    _ => aborted(*old(self), *final(self), old(cmds)@, final(cmds)@),
                }
            },
            awaited_update(old(self).current) == Some(header.request_id@) && old(self).pending.has(header.request_id@)
                ==> moved_on(*old(self), *final(self)) && starts_only(final(cmds)@, old(cmds)@.len() as int, old(self).capabilities is None),
            quiet_negotiation(final(cmds)@, old(cmds)@.len() as int, old(self).capabilities is None),
    {
        proof {
            assert(old(self).queue@.subrange(0, old(self).queue@.len() as int) =~= old(self).queue@);
        }
        let kind = match self.pending.take(header.request_id.as_str()) {
            None => return,
            Some(k) => k,
        };
        let is_caps = match &self.current {
            Some(InFlight::AwaitingCapabilities { request_id }) => *request_id == header.request_id,
            _ => false,
        };
        let is_ack = match &self.current {
            Some(InFlight::AwaitingUpdateAck { request_id }) => *request_id == header.request_id,
            _ => false,
        };
        let resp = extract_response(kind, action);
        if is_caps {
            match resp {
                Ok(OutgoingResponse::Capabilities(c)) => match Options::from_capability_list(&c.capabilities) {
                    Ok(desired) => {
                        cmds.push(Command::AcquirePermissions(desired));
                        self.current = Some(InFlight::AwaitingGrant { requested: c.capabilities });
                    },
                    Err(_) => self.finish(fresh_id, cmds),
                },
                _ => self.finish(fresh_id, cmds),
            }
        } else if is_ack {
            self.finish(fresh_id, cmds);
        }
    }

    fn on_granted(&mut self, granted: Options, fresh_id: &String, cmds: &mut Vec<Command>)
        requires
            old(self).wf(),
            !old(self).closed,
        ensures
            final(self).wf(),
            !(old(self).current matches Some(InFlight::AwaitingGrant { .. })) ==> *final(self) == *old(self) && final(cmds)@ == old(cmds)@,
            old(self).current matches Some(InFlight::AwaitingGrant { .. }) ==> final(self).capabilities matches Some(c) && c.spec_approved().send == facet_filters(facet_of(granted@.send)) && c.spec_approved().read == facet_filters(facet_of(granted@.read)),
            exists|k: int| 0 <= k <= old(self).queue@.len() && final(self).queue@ == old(self).queue@.subrange(k, old(self).queue@.len() as int),
            final(self).closed == old(self).closed,
            final(self).openid_waiting == old(self).openid_waiting,
            extends(final(cmds)@, old(cmds)@),
            awaited_grant(old(self).current) is Some && !old(self).pending.has(fresh_id@) ==> {
                &&& final(self).current == Some(InFlight::AwaitingUpdateAck { request_id: *fresh_id })
                &&& final(cmds)@.len() == old(cmds)@.len() + if final(self).capabilities->0.listener is Some { 2int } else { 1int }
                &&& is_notify(
                    final(cmds)@.last(),
                    awaited_grant(old(self).current)->0,
                    encode_options(final(self).capabilities->0.spec_approved()),
                    fresh_id@,
                    old(self).widget_id@,
                )
                &&& final(self).capabilities->0.listener is Some ==> final(cmds)@[old(cmds)@.len() as int] == Command::Subscribe
                &&& final(self).pending.has(fresh_id@)
            },
            awaited_grant(old(self).current) is Some ==> {
                &&& final(self).capabilities is Some
                &&& facet_view(final(self).capabilities->0.listener) == facet_of(granted@.read)
                &&& facet_view(final(self).capabilities->0.reader) == facet_of(granted@.read)
                &&& facet_view(final(self).capabilities->0.sender) == facet_of(granted@.send)
            },
            quiet_negotiation(final(cmds)@, old(cmds)@.len() as int, old(self).capabilities is None),
    {
        proof {
            assert(old(self).queue@.subrange(0, old(self).queue@.len() as int) =~= old(self).queue@);
        }
        match self.current.take() {
            Some(InFlight::AwaitingGrant { requested }) => {
                let caps = Capabilities::new(&granted);
                let approved = caps.approved().to_capability_list();
                let listening = caps.listener.is_some();
                self.capabilities = Some(caps);
                if listening {
                    cmds.push(Command::Subscribe);
                }
                let update = CapabilitiesUpdatedRequest { requested, approved };
                let req = OutgoingRequest::Update(CapabilitiesUpdate(update));
                if self.send_request(fresh_id, req, cmds) {
                    self.current = Some(InFlight::AwaitingUpdateAck { request_id: fresh_id.clone() });
                } else {
                    self.run_queue(fresh_id, cmds);
                }
            },
            other => {
                self.current = other;
            },
        }
    }

    fn on_token(&mut self, status: TokenStatus, fresh_id: &String, cmds: &mut Vec<Command>)
        requires
            old(self).wf(),
            !old(self).closed,
        ensures
            final(self).wf(),
            !(old(self).current matches Some(InFlight::AwaitingToken { .. })) ==> *final(self) == *old(self) && final(cmds)@ == old(cmds)@,
            old(self).current matches Some(InFlight::AwaitingToken { header, .. }) ==> {
                &&& final(cmds)@.len() > old(cmds)@.len()
                &&& is_openid_reply(
                    final(cmds)@[old(cmds)@.len() as int],
                    header,
                    match status {
                        TokenStatus::Resolved(d) => d.spec_state(),
                        TokenStatus::Pending => crate::messages::OpenIdState::PendingUserConfirmation,
                    },
                )
                &&& final(self).openid_waiting@ == match status {
                    TokenStatus::Resolved(_) => old(self).openid_waiting@,
                    TokenStatus::Pending => old(self).openid_waiting@.push(header.request_id),
                }
            },
            exists|k: int| 0 <= k <= old(self).queue@.len() && final(self).queue@ == old(self).queue@.subrange(k, old(self).queue@.len() as int),
            final(self).closed == old(self).closed,
            final(self).capabilities == old(self).capabilities,
            final(self).pending == old(self).pending || old(self).current matches Some(InFlight::AwaitingToken { .. }),
            extends(final(cmds)@, old(cmds)@),
            awaited_token(old(self).current) is Some ==> moved_on(*old(self), *final(self))
                && starts_only(final(cmds)@, old(cmds)@.len() + 1int, old(self).capabilities is None),
            quiet_negotiation(final(cmds)@, old(cmds)@.len() as int, old(self).capabilities is None),
    {
        proof {
            assert(old(self).queue@.subrange(0, old(self).queue@.len() as int) =~= old(self).queue@);
        }
        match self.current.take() {
            Some(InFlight::AwaitingToken { header, body }) => {
                let id = header.request_id.clone();
                match status {
                    TokenStatus::Resolved(d) => {
                        let r = GetOpenIdResponse::from_decision(d);
                        cmds.push(reply(header, FromWidgetAction::GetOpenId(body.get_response_message(r))));
                    },
                    TokenStatus::Pending => {
                        let r = GetOpenIdResponse::pending();
                        cmds.push(reply(header, FromWidgetAction::GetOpenId(body.get_response_message(r))));
                        self.openid_waiting.push(id);
                    },
                }
                self.run_queue(fresh_id, cmds);
            },
            other => {
                self.current = other;
            },
        }
    }

    fn on_token_resolved(&mut self, id: String, decision: OpenIdDecision, fresh_id: &String, cmds: &mut Vec<Command>)
        requires
            old(self).wf(),
            !old(self).closed,
        ensures
            final(self).wf(),
            !is_waiting(old(self).openid_waiting@, id@) ==> *final(self) == *old(self) && final(cmds)@ == old(cmds)@,
            is_waiting(old(self).openid_waiting@, id@) ==> {
                &&& final(self).openid_waiting@.len() == old(self).openid_waiting@.len() - 1
                &&& !old(self).pending.has(fresh_id@) ==> final(cmds)@ == old(cmds)@.push(final(cmds)@.last())
                    && is_credentials_update(final(cmds)@.last(), id, decision.spec_state(), fresh_id@, old(self).widget_id@)
                    && final(self).pending.has(fresh_id@)
            },
            final(self).current == old(self).current,
            final(self).queue == old(self).queue,
            final(self).closed == old(self).closed,
            final(self).capabilities == old(self).capabilities,
            extends(final(cmds)@, old(cmds)@),
            quiet_negotiation(final(cmds)@, old(cmds)@.len() as int, old(self).capabilities is None),
    {
        match find_waiting(&self.openid_waiting, &id) {
            None => {},
            Some(i) => {
                self.openid_waiting.remove(i);
                let update = OpenIdCredentialsRequest::new(id, decision);
                let req = OutgoingRequest::OpenId(OpenIDUpdated(update));
                let ghost c0 = cmds@;
                if self.send_request(fresh_id, req, cmds) {
                    assert(cmds@ =~= c0.push(cmds@.last()));
                }
            },
        }
    }

    fn on_events_read(&mut self, result: Result<Vec<MatrixEvent>, String>, fresh_id: &String, cmds: &mut Vec<Command>)
        requires
            old(self).wf(),
            !old(self).closed,
        ensures
            final(self).wf(),
            !(old(self).current matches Some(InFlight::AwaitingRead { .. })) ==> *final(self) == *old(self) && final(cmds)@ == old(cmds)@,
            exists|k: int| 0 <= k <= old(self).queue@.len() && final(self).queue@ == old(self).queue@.subrange(k, old(self).queue@.len() as int),
            final(self).closed == old(self).closed,
            final(self).capabilities == old(self).capabilities,
            final(self).openid_waiting == old(self).openid_waiting,
            extends(final(cmds)@, old(cmds)@),
            awaited_read(old(self).current) is Some ==> {
                &&& final(cmds)@.len() > old(cmds)@.len()
                &&& match result {
                    Ok(events) => read_reply_events(final(cmds)@[old(cmds)@.len() as int], awaited_read(old(self).current)->0)
                        == Some(kept_events(reader_filters(old(self).capabilities), events@)),
                    Err(m) => is_error_reply(final(cmds)@[old(cmds)@.len() as int], awaited_read(old(self).current)->0, m@),
                }
            },
            awaited_read(old(self).current) is Some ==> moved_on(*old(self), *final(self))
                && starts_only(final(cmds)@, old(cmds)@.len() + 1int, old(self).capabilities is None),
            quiet_negotiation(final(cmds)@, old(cmds)@.len() as int, old(self).capabilities is None),
    {
        proof {
            assert(old(self).queue@.subrange(0, old(self).queue@.len() as int) =~= old(self).queue@);
        }
        match self.current.take() {
            Some(InFlight::AwaitingRead { header, body }) => {
                let a = match result {
                    Ok(events) => {
                        let ghost all = events@;
                        proof {
                            lemma_nothing_kept(all);
                        }
                        let kept = match &self.capabilities {
                            Some(c) => match &c.reader {
                                Some(f) => keep_allowed(f, events),
                                None => Vec::new(),
                            },
                            None => Vec::new(),
                        };
                        FromWidgetAction::ReadEvent(body.get_response_message(ReadEventResponse { events: kept }))
                    },
                    Err(msg) => fail(FromWidgetAction::ReadEvent(body), msg),
                };
                cmds.push(reply(header, a));
                self.run_queue(fresh_id, cmds);
            },
            other => {
                self.current = other;
            },
        }
    }

    fn on_event_sent(&mut self, result: Result<SendEventResponse, String>, fresh_id: &String, cmds: &mut Vec<Command>)
        requires
            old(self).wf(),
            !old(self).closed,
        ensures
            final(self).wf(),
            !(old(self).current matches Some(InFlight::AwaitingPublish { .. })) ==> *final(self) == *old(self) && final(cmds)@ == old(cmds)@,
            exists|k: int| 0 <= k <= old(self).queue@.len() && final(self).queue@ == old(self).queue@.subrange(k, old(self).queue@.len() as int),
            final(self).closed == old(self).closed,
            final(self).capabilities == old(self).capabilities,
            final(self).openid_waiting == old(self).openid_waiting,
            extends(final(cmds)@, old(cmds)@),
            awaited_publish(old(self).current) is Some ==> {
                &&& final(cmds)@.len() > old(cmds)@.len()
                &&& match result {
                    Ok(r) => is_reply(
                        final(cmds)@[old(cmds)@.len() as int],
                        awaited_publish(old(self).current)->0,
                        FromWidgetAction::SendEvent(ActionBody {
                            request: awaited_publish_request(old(self).current)->0,
                            response: Some(Response::Response(r)),
                        }),
                    ),
                    Err(m) => is_error_reply(final(cmds)@[old(cmds)@.len() as int], awaited_publish(old(self).current)->0, m@),
                }
            },
            awaited_publish(old(self).current) is Some ==> moved_on(*old(self), *final(self))
                && starts_only(final(cmds)@, old(cmds)@.len() + 1int, old(self).capabilities is None),
            quiet_negotiation(final(cmds)@, old(cmds)@.len() as int, old(self).capabilities is None),
    {
        proof {
            assert(old(self).queue@.subrange(0, old(self).queue@.len() as int) =~= old(self).queue@);
        }
        match self.current.take() {
            Some(InFlight::AwaitingPublish { header, body }) => {
                let a = match result {
                    Ok(r) => FromWidgetAction::SendEvent(body.get_response_message(r)),
                    Err(msg) => fail(FromWidgetAction::SendEvent(body), msg),
                };
                cmds.push(reply(header, a));
                self.run_queue(fresh_id, cmds);
            },
            other => {
                self.current = other;
            },
        }
    }

    /// The transport closed: every outstanding request is dropped, nothing
    /// more is done, and live delivery stops.
    fn on_disconnected(&mut self, cmds: &mut Vec<Command>)
        requires
            old(self).wf(),
        ensures
            final(self).wf(),
            final(self).closed,
            final(self).queue@.len() == 0,
            final(self).current is None,
            final(self).pending.entries@.len() == 0,
            final(self).capabilities == old(self).capabilities,
            extends(final(cmds)@, old(cmds)@),
            quiet_negotiation(final(cmds)@, old(cmds)@.len() as int, old(self).capabilities is None),
            final(cmds)@ == old(cmds)@ + if old(self).capabilities matches Some(c) && c.listener is Some {
                seq![Command::Unsubscribe]
            } else {
                Seq::empty()
            },
    {
        self.closed = true;
        let _dropped = self.pending.flush();
        self.queue = Vec::new();
        self.current = None;
        self.openid_waiting = Vec::new();
        let listening = match &self.capabilities {
            Some(c) => c.listener.is_some(),
            None => false,
        };
        let ghost c0 = cmds@;
        if listening {
            cmds.push(Command::Unsubscribe);
            assert(cmds@ =~= c0 + seq![Command::Unsubscribe]);
        } else {
            assert(cmds@ =~= c0 + Seq::<Command>::empty());
        }
    }

    /// Handles one event; a request the session issues, if any, gets
    /// `fresh_id` as its id.
    pub fn handle(&mut self, event: Event, fresh_id: String) -> (cmds: Vec<Command>)
        requires
            old(self).wf(),
        ensures
            final(self).wf(),
            handles(*old(self), *final(self), event, cmds@),
            handles_with_id(*old(self), *final(self), event, cmds@, fresh_id),
    {
        let mut cmds: Vec<Command> = Vec::new();
        let ghost all = old(self).queue@ + incoming_tasks(event);
        if self.closed {
            assert(self.queue@ =~= all.subrange(all.len() - self.queue@.len(), all.len() as int));
            return cmds;
        }
        proof {
            if !(event is Incoming) {
                assert(incoming_tasks(event) =~= Seq::<Task>::empty());
                assert(all =~= old(self).queue@);
                assert(all.subrange(0, all.len() as int) =~= all);
            }
            assert(all.subrange(all.len() as int, all.len() as int) =~= Seq::<Task>::empty());
        }
        let ghost ev = event;
        match event {
            Event::Incoming(header, action) => match action {
                FromWidgetAction::GetSupportedApiVersion(b) => {
                    assert(incoming_tasks(ev) =~= Seq::<Task>::empty());
                    assert(all =~= old(self).queue@);
                    assert(all.subrange(0, all.len() as int) =~= old(self).queue@);
                    let a = FromWidgetAction::GetSupportedApiVersion(
                        b.get_response_message(SupportedApiVersionsResponse::new()),
                    );
                    cmds.push(reply(header, a));
                },
                action => {
                    let ghost t = Task::HandleIncoming(header, action);
                    assert(!(action is GetSupportedApiVersion));
                    assert(incoming_tasks(ev) =~= seq![t]);
                    if self.current.is_some() {
                        self.queue.push(Task::HandleIncoming(header, action));
                        assert(self.queue@ =~= old(self).queue@ + incoming_tasks(ev));
                        assert(self.queue@ =~= (old(self).queue@ + seq![t]).subrange(0, old(self).queue@.len() + 1 as int));
                    } else {
                        self.start_request(header, action, &fresh_id, &mut cmds);
                        assert(self.queue@ =~= (old(self).queue@ + seq![t]).subrange(1, 1));
                    }
                },
            },
            Event::Reply(header, action) => self.on_reply(header, action, &fresh_id, &mut cmds),
            Event::PermissionsGranted(granted) => self.on_granted(granted, &fresh_id, &mut cmds),
            Event::Token(status) => self.on_token(status, &fresh_id, &mut cmds),
            Event::TokenResolved(id, decision) => self.on_token_resolved(id, decision, &fresh_id, &mut cmds),
            Event::EventsRead(result) => self.on_events_read(result, &fresh_id, &mut cmds),
            Event::EventSent(result) => self.on_event_sent(result, &fresh_id, &mut cmds),
            Event::Disconnected => self.on_disconnected(&mut cmds),
        }
        assert(self.queue@ =~= all.subrange(all.len() - self.queue@.len(), all.len() as int));
        cmds
    }
}

/// What handling `event` does, whatever id a new request gets: `old` and
/// `new` are the session before and after, `cmds` the commands given.
pub open spec fn handles(old: Session, new: Session, event: Event, cmds: Seq<Command>) -> bool {
    let h = event->Incoming_0;
    let a = event->Incoming_1;
    let idle = !old.closed && old.current is None;
    &&& old.closed ==> new == old && cmds.len() == 0
    // Tasks start strictly in the order they came: the queue only grows at
    // the back and shrinks at the front.
    &&& is_suffix(new.queue@, old.queue@ + incoming_tasks(event))
    // While a task is in progress, nothing but what it waits for ends it.
    &&& old.current is Some && !ends(old.current->0, event) ==> new.current == old.current
    // `supported_api_versions` is answered at once, whatever is in progress.
    &&& event is Incoming && a is GetSupportedApiVersion && !old.closed ==> {
        &&& cmds.len() == 1
        &&& is_versions_reply(cmds[0], h)
        &&& new.queue == old.queue
        &&& new.current == old.current
        &&& new.pending == old.pending
        &&& new.capabilities == old.capabilities
    }
    // Any other request that comes while another is in progress only waits.
    &&& old.current is Some && event is Incoming && !(a is GetSupportedApiVersion) && !old.closed ==> {
        &&& new.queue@ == old.queue@ + incoming_tasks(event)
        &&& cmds.len() == 0
    }
    // A reply whose id is not outstanding changes nothing.
    &&& event is Reply && !old.pending.has(event->Reply_0.request_id@) ==> new == old && cmds.len() == 0
    // A reply consumes exactly the request with its id; the others stay, in
    // place.
    &&& event is Reply && !old.closed && old.pending.has(event->Reply_0.request_id@) ==> pending_extends(
        new.pending.entries@,
        old.pending.entries@.remove(old.pending.index_of(event->Reply_0.request_id@)),
    )
    // Capabilities change only when the host grants them, and only from
    // absent to present.
    &&& !(event is PermissionsGranted) ==> new.capabilities == old.capabilities
    &&& old.capabilities is Some ==> new.capabilities == old.capabilities
    // Once capabilities exist, negotiation never starts again.
    &&& old.capabilities is Some ==> forall|i: int| 0 <= i < cmds.len() ==> !is_negotiation_command(#[trigger] cmds[i])
    // Disconnection drops every outstanding request, stops all work, and
    // ends live delivery.
    &&& event is Disconnected && !old.closed ==> {
        &&& new.closed
        &&& new.pending.entries@.len() == 0
        &&& new.queue@.len() == 0
        &&& new.current is None
        &&& cmds == if old.capabilities matches Some(c) && c.listener is Some {
            seq![Command::Unsubscribe]
        } else {
            Seq::empty()
        }
    }
    // A second `content_loaded` after negotiation is refused and starts
    // nothing.
    &&& event is Incoming && a is ContentLoaded && idle && old.capabilities is Some ==> {
        &&& cmds.len() == 1
        &&& is_error_reply(cmds[0], h, already_loaded_message())
        &&& new.pending == old.pending
        &&& new.current is None
    }
    // A `send_event` that the sender's filters refuse is answered with an
    // error naming the type and state key, and nothing is published.
    &&& event is Incoming && idle && denied_send(old.capabilities, a) is Some ==> {
        &&& cmds.len() == 1
        &&& is_error_reply(cmds[0], h, denied_send(old.capabilities, a)->0)
        &&& new.current is None
    }
    // A request that fails before any work is answered with that error alone.
    &&& event is Incoming && idle && request_error(old.capabilities, a) is Some ==> {
        &&& cmds.len() == 1
        &&& is_error_reply(cmds[0], h, request_error(old.capabilities, a)->0)
        &&& new.pending == old.pending
        &&& new.current is None
    }
    // Otherwise each request starts its work at once.
    &&& event is Incoming && idle && request_error(old.capabilities, a) is None ==> match a {
        FromWidgetAction::GetSupportedApiVersion(_) => true,
        FromWidgetAction::ContentLoaded(_) => {
            &&& cmds.len() >= 1
            &&& is_loaded_reply(cmds[0], h)
            &&& !old.settings.init_on_load ==> cmds.len() == 1 && new.current is None
        },
        FromWidgetAction::GetOpenId(b) => {
            &&& cmds == seq![Command::RequestToken(h.request_id)]
            &&& new.current == Some(InFlight::AwaitingToken { header: h, body: b })
        },
        FromWidgetAction::ReadEvent(b) => {
            &&& cmds == seq![Command::Read(b.request)]
            &&& new.current == Some(InFlight::AwaitingRead { header: h, body: b })
        },
        FromWidgetAction::SendEvent(b) => {
            &&& cmds == seq![Command::Publish(b.request)]
            &&& new.current == Some(InFlight::AwaitingPublish { header: h, body: b })
        },
    }
    // The first answer to `get_openid` is a reply with the resolved or the
    // pending state; a pending one is remembered; the worker moves on.
    &&& event is Token && !old.closed && awaited_token(old.current) is Some ==> {
        &&& cmds.len() >= 1
        &&& is_openid_reply(cmds[0], awaited_token(old.current)->0, token_state(event->Token_0))
        &&& new.openid_waiting@ == match event->Token_0 {
            TokenStatus::Resolved(_) => old.openid_waiting@,
            TokenStatus::Pending => old.openid_waiting@.push(awaited_token(old.current)->0.request_id),
        }
        &&& moved_on(old, new)
        &&& starts_only(cmds, 1, old.capabilities is None)
    }
    // The final answer to a token request that is not pending is ignored.
    &&& event is TokenResolved && !is_waiting(old.openid_waiting@, event->TokenResolved_0@) ==> new == old && cmds.len() == 0
    &&& event is TokenResolved && !old.closed && is_waiting(old.openid_waiting@, event->TokenResolved_0@)
        ==> new.openid_waiting@.len() == old.openid_waiting@.len() - 1
    // The widget's wishes go to the host; an error or an invalid answer ends
    // the negotiation.
    &&& event is Reply && !old.closed && awaited_capabilities(old.current) == Some(event->Reply_0.request_id@)
        && old.pending.has(event->Reply_0.request_id@) ==> match spec_extract(
        old.pending.entries@[old.pending.index_of(event->Reply_0.request_id@)].kind,
        event->Reply_1,
    ) {
        Ok(OutgoingResponse::Capabilities(c)) => match decode_tokens(strings_view(c.capabilities@)) {
            Some(d) => {
                &&& cmds.len() == 1
                &&& acquires(cmds[0], d)
                &&& new.current == Some(InFlight::AwaitingGrant { requested: c.capabilities })
            },
            None => aborted(old, new, Seq::empty(), cmds),
        },
        _ => aborted(old, new, Seq::empty(), cmds),
    }
    // The widget's acknowledgement ends negotiation.
    &&& event is Reply && !old.closed && awaited_update(old.current) == Some(event->Reply_0.request_id@)
        && old.pending.has(event->Reply_0.request_id@) ==> moved_on(old, new) && starts_only(cmds, 0, old.capabilities is None)
    // The grant becomes the capabilities.
    &&& event is PermissionsGranted && !old.closed && awaited_grant(old.current) is Some ==> {
        &&& new.capabilities is Some
        &&& facet_view(new.capabilities->0.listener) == facet_of(event->PermissionsGranted_0@.read)
        &&& facet_view(new.capabilities->0.reader) == facet_of(event->PermissionsGranted_0@.read)
        &&& facet_view(new.capabilities->0.sender) == facet_of(event->PermissionsGranted_0@.send)
    }
    // A read is answered with the events its filters allow; the worker
    // moves on.
    &&& event is EventsRead && !old.closed && awaited_read(old.current) is Some ==> {
        &&& cmds.len() >= 1
        &&& match event->EventsRead_0 {
            Ok(events) => read_reply_events(cmds[0], awaited_read(old.current)->0) == Some(
                kept_events(reader_filters(old.capabilities), events@),
            ),
            Err(m) => is_error_reply(cmds[0], awaited_read(old.current)->0, m@),
        }
        &&& moved_on(old, new)
        &&& starts_only(cmds, 1, old.capabilities is None)
    }
    // A send is answered with the room and event ids, or the error; the
    // worker moves on.
    &&& event is EventSent && !old.closed && awaited_publish(old.current) is Some ==> {
        &&& cmds.len() >= 1
        &&& match event->EventSent_0 {
            Ok(r) => is_reply(
                cmds[0],
                awaited_publish(old.current)->0,
                FromWidgetAction::SendEvent(
                    ActionBody { request: awaited_publish_request(old.current)->0, response: Some(Response::Response(r)) },
                ),
            ),
            Err(m) => is_error_reply(cmds[0], awaited_publish(old.current)->0, m@),
        }
        &&& moved_on(old, new)
        &&& starts_only(cmds, 1, old.capabilities is None)
    }
}

/// What handling `event` does with `fresh_id`, where that id is not
/// outstanding: each request the session issues is sent under it and
/// registered as outstanding.
pub open spec fn handles_with_id(old: Session, new: Session, event: Event, cmds: Seq<Command>, fresh_id: String) -> bool {
    let fresh = !old.closed && !old.pending.has(fresh_id@);
    // `content_loaded`, where the widget waits for it, starts negotiation.
    &&& event is Incoming && fresh && old.current is None && request_error(old.capabilities, event->Incoming_1) is None
        && event->Incoming_1 is ContentLoaded && old.settings.init_on_load ==> {
        &&& cmds.len() == 2
        &&& sends_request(cmds[1], OutgoingRequest::Capabilities(CapabilitiesRequest {}), fresh_id@, old.widget_id@)
        &&& new.current == Some(InFlight::AwaitingCapabilities { request_id: fresh_id })
        &&& new.pending.has(fresh_id@)
    }
    // A pending token's final answer is delivered once, as one
    // `openid_credentials` request.
    &&& event is TokenResolved && fresh && is_waiting(old.openid_waiting@, event->TokenResolved_0@) ==> {
        &&& cmds.len() == 1
        &&& is_credentials_update(
            cmds[0],
            event->TokenResolved_0,
            event->TokenResolved_1.spec_state(),
            fresh_id@,
            old.widget_id@,
        )
        &&& new.pending.has(fresh_id@)
    }
    // After the grant the widget is told what it asked for and what it got,
    // with live delivery started first where the listener facet exists.
    &&& event is PermissionsGranted && fresh && awaited_grant(old.current) is Some ==> {
        &&& new.current == Some(InFlight::AwaitingUpdateAck { request_id: fresh_id })
        &&& cmds.len() == if new.capabilities->0.listener is Some { 2int } else { 1int }
        &&& is_notify(
            cmds.last(),
            awaited_grant(old.current)->0,
            encode_options(new.capabilities->0.spec_approved()),
            fresh_id@,
            old.widget_id@,
        )
        &&& new.capabilities->0.listener is Some ==> cmds[0] == Command::Subscribe
        &&& new.pending.has(fresh_id@)
    }
}

/// Relies on `uuid::Uuid::new_v4` and its `Display` form: a random id,
/// of which nothing is assumed.
#[verifier::external_body]
fn new_request_id() -> (r: String) {
    uuid::Uuid::new_v4().to_string()
}

impl Session {
    /// A new session whose requests get random ids. Unless it waits for
    /// `content_loaded`, it asks the widget for its capabilities at once.
    pub fn start(widget_id: String, settings: Settings) -> (r: (Session, Vec<Command>))
        ensures
            r.0.wf(),
            r.0.capabilities is None,
            !r.0.closed,
            r.0.widget_id == widget_id,
            r.0.queue@.len() == 0,
            settings.init_on_load ==> r.1@.len() == 0 && r.0.current is None && r.0.pending.entries@.len() == 0,
            !settings.init_on_load ==> {
                &&& awaited_capabilities(r.0.current) is Some
                &&& r.1@.len() == 1
                &&& sends_request(
                    r.1@[0],
                    OutgoingRequest::Capabilities(CapabilitiesRequest {}),
                    awaited_capabilities(r.0.current)->0,
                    widget_id@,
                )
                &&& r.0.pending.has(awaited_capabilities(r.0.current)->0)
            },
    {
        Session::new(widget_id, settings, new_request_id())
    }

    /// Handles one event; a request the session issues gets a random id.
    pub fn handle_event(&mut self, event: Event) -> (cmds: Vec<Command>)
        requires
            old(self).wf(),
        ensures
            final(self).wf(),
            handles(*old(self), *final(self), event, cmds@),
    {
        let id = new_request_id();
        self.handle(event, id)
    }

    /// Whether a live room event reaches the widget: only through the
    /// listener facet, and only where its filters allow the event.
    pub fn live_event_allowed(&self, event: &MatrixEvent) -> (r: bool)
        ensures
            r == match self.capabilities {
                Some(c) => match c.listener {
                    Some(f) => allowed_by(f@, &event.spec_filter_input()),
                    None => false,
                },
                None => false,
            },
    {
        match &self.capabilities {
            Some(c) => match &c.listener {
                Some(f) => {
                    let input = event.filter_input();
                    crate::filter::allow(f, &input)
                },
                None => false,
            },
            None => false,
        }
    }
}

} // verus!
