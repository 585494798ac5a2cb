use matrix_widget::capabilities::Options;
use matrix_widget::filter::{Filter, TimelineFilter};
use matrix_widget::messages::{
    Action, ActionBody, CapabilitiesResponse, CapabilitiesUpdatedRequest, FromWidgetAction,
    GetOpenIdResponse, Header, MatrixEvent, Message, OpenIdCredentialsRequest, OpenIdDecision,
    OpenIdState, OpenIdToken, ReadEventRequest, Response, SendEventRequest, SendEventResponse,
    ToWidgetAction, WidgetApiFromWidgetAction, WidgetApiToWidgetAction, WidgetError,
    WidgetMessageEmptyData,
};
use matrix_widget::session::{Command, Event, Session, Settings, TokenStatus};

const SEND_TEXT: &str = r#"org.matrix.msc2762.m.send.event:{"event_type":"m.room.message","msgtype":"m.text"}"#;
const READ_ALL: &str = "org.matrix.msc2762.m.receive.event";

fn header(id: &str) -> Header {
    Header::new(id, "w")
}

fn empty() -> WidgetMessageEmptyData {
    WidgetMessageEmptyData {}
}

fn incoming(id: &str, action: FromWidgetAction) -> Event {
    Event::Incoming(header(id), action)
}

fn content_loaded() -> FromWidgetAction {
    FromWidgetAction::ContentLoaded(ActionBody::new(empty()))
}

fn versions() -> FromWidgetAction {
    FromWidgetAction::GetSupportedApiVersion(ActionBody::new(empty()))
}

fn json(text: &str) -> serde_json::Value {
    serde_json::from_str(text).unwrap()
}

fn send_event(event_type: &str, content: &str) -> FromWidgetAction {
    FromWidgetAction::SendEvent(ActionBody::new(SendEventRequest::new(event_type.to_owned(), None, json(content))))
}

fn read_events(event_type: &str) -> FromWidgetAction {
    FromWidgetAction::ReadEvent(ActionBody::new(ReadEventRequest {
        event_type: event_type.to_owned(),
        state_key: None,
        limit: 10,
    }))
}

/// The id and action of a request sent to the widget.
fn request_sent(c: &Command) -> Option<(String, WidgetApiToWidgetAction)> {
    match c {
        Command::Send(Message { header, action: Action::ToWidget(a) }) => Some((header.request_id.clone(), a.kind())),
        _ => None,
    }
}

/// The id, action and error of a reply to the widget.
fn reply_sent(c: &Command) -> Option<(String, WidgetApiFromWidgetAction, Option<String>)> {
    fn err<T>(r: &Option<Response<T>>) -> Option<String> {
        match r {
            Some(Response::Error(e)) => Some(e.message()),
            _ => None,
        }
    }
    match c {
        Command::Send(Message { header, action: Action::FromWidget(a) }) => {
            let e = match a {
                FromWidgetAction::GetSupportedApiVersion(b) => err(&b.response),
                FromWidgetAction::ContentLoaded(b) => err(&b.response),
                FromWidgetAction::GetOpenId(b) => err(&b.response),
                FromWidgetAction::ReadEvent(b) => err(&b.response),
                FromWidgetAction::SendEvent(b) => err(&b.response),
            };
            Some((header.request_id.clone(), a.kind(), e))
        }
        _ => None,
    }
}

fn capabilities_answer(id: &str, tokens: &[&str]) -> Event {
    let caps = tokens.iter().map(|t| t.to_string()).collect();
    Event::Reply(
        header(id),
        ToWidgetAction::CapabilitiesRequest(ActionBody {
            request: empty(),
            response: Some(Response::Response(CapabilitiesResponse { capabilities: caps })),
        }),
    )
}

fn update_ack(id: &str) -> Event {
    Event::Reply(
        header(id),
        ToWidgetAction::CapabilitiesUpdate(ActionBody {
            request: CapabilitiesUpdatedRequest { requested: vec![], approved: vec![] },
            response: Some(Response::Response(empty())),
        }),
    )
}

/// A session that negotiated the given tokens, all granted.
fn negotiated(tokens: &[&str]) -> Session {
    let (mut s, cmds) = Session::new("w".to_owned(), Settings { init_on_load: false }, "caps-1".to_owned());
    assert_eq!(cmds.len(), 1);
    let cmds = s.handle(capabilities_answer("caps-1", tokens), "unused".to_owned());
    let desired = match cmds.into_iter().next() {
        Some(Command::AcquirePermissions(o)) => o,
        other => panic!("unexpected {other:?}"),
    };
    let cmds = s.handle(Event::PermissionsGranted(desired), "upd-1".to_owned());
    assert!(cmds.iter().any(|c| request_sent(c) == Some(("upd-1".to_owned(), WidgetApiToWidgetAction::NotifyCapabilities))));
    let cmds = s.handle(update_ack("upd-1"), "unused-2".to_owned());
    assert!(cmds.is_empty());
    assert!(s.current.is_none());
    s
}

#[test]
fn negotiation_starts_at_once_unless_waiting_for_content() {
    let (s, cmds) = Session::new("w".to_owned(), Settings { init_on_load: false }, "id-1".to_owned());
    assert_eq!(cmds.len(), 1);
    assert_eq!(request_sent(&cmds[0]), Some(("id-1".to_owned(), WidgetApiToWidgetAction::Capabilities)));
    assert!(s.pending.contains("id-1"));
    let (s, cmds) = Session::new("w".to_owned(), Settings { init_on_load: true }, "id-2".to_owned());
    assert!(cmds.is_empty());
    assert_eq!(s.pending.len(), 0);
}

#[test]
fn negotiation_reports_what_was_requested_and_approved() {
    let (mut s, _) = Session::new("w".to_owned(), Settings { init_on_load: false }, "c".to_owned());
    let cmds = s.handle(capabilities_answer("c", &[SEND_TEXT, READ_ALL, "m.capability.screenshot"]), "x".to_owned());
    let desired = match cmds.into_iter().next() {
        Some(Command::AcquirePermissions(o)) => o,
        other => panic!("unexpected {other:?}"),
    };
    assert!(desired.screenshot);
    let mut granted = Options::new();
    granted.read_filter.push(Filter::AllowAllTimeline);
    let cmds = s.handle(Event::PermissionsGranted(granted), "u".to_owned());
    assert_eq!(cmds.len(), 2);
    assert!(matches!(cmds[0], Command::Subscribe));
    match &cmds[1] {
        Command::Send(Message { header, action: Action::ToWidget(ToWidgetAction::CapabilitiesUpdate(b)) }) => {
            assert_eq!(header.request_id, "u");
            assert_eq!(b.request.requested, vec![SEND_TEXT.to_owned(), READ_ALL.to_owned(), "m.capability.screenshot".to_owned()]);
            assert_eq!(b.request.approved, vec![READ_ALL.to_owned()]);
        }
        other => panic!("unexpected {other:?}"),
    }
    let caps = s.capabilities.as_ref().unwrap();
    assert!(caps.sender.is_none());
    assert!(caps.reader.is_some());
    assert!(caps.listener.is_some());
}

#[test]
fn requests_wait_for_negotiation_and_run_in_order() {
    let (mut s, _) = Session::new("w".to_owned(), Settings { init_on_load: false }, "c".to_owned());
    assert!(s.handle(incoming("r1", read_events("m.room.message")), "x1".to_owned()).is_empty());
    assert!(s.handle(incoming("r2", read_events("m.room.topic")), "x2".to_owned()).is_empty());
    assert_eq!(s.queue.len(), 2);
    let cmds = s.handle(capabilities_answer("c", &[READ_ALL]), "x3".to_owned());
    let desired = match cmds.into_iter().next() {
        Some(Command::AcquirePermissions(o)) => o,
        other => panic!("unexpected {other:?}"),
    };
    s.handle(Event::PermissionsGranted(desired), "u".to_owned());
    assert_eq!(s.queue.len(), 2);
    let cmds = s.handle(update_ack("u"), "x4".to_owned());
    assert_eq!(cmds.len(), 1);
    match &cmds[0] {
        Command::Read(r) => assert_eq!(r.event_type, "m.room.message"),
        other => panic!("unexpected {other:?}"),
    }
    assert_eq!(s.queue.len(), 1);
    let ev = MatrixEvent::new("m.room.message".to_owned(), "@a:x".to_owned(), "$1".to_owned(), "!r:x".to_owned(), None, 5, json("{}"));
    let cmds = s.handle(Event::EventsRead(Ok(vec![ev])), "x5".to_owned());
    assert_eq!(cmds.len(), 2);
    match &cmds[0] {
        Command::Send(Message { header, action: Action::FromWidget(FromWidgetAction::ReadEvent(b)) }) => {
            assert_eq!(header.request_id, "r1");
            match &b.response {
                Some(Response::Response(r)) => assert_eq!(r.events.len(), 1),
                other => panic!("unexpected {other:?}"),
            }
        }
        other => panic!("unexpected {other:?}"),
    }
    match &cmds[1] {
        Command::Read(r) => assert_eq!(r.event_type, "m.room.topic"),
        other => panic!("unexpected {other:?}"),
    }
    assert!(s.queue.is_empty());
}

#[test]
fn supported_versions_are_answered_during_negotiation() {
    let (mut s, _) = Session::new("w".to_owned(), Settings { init_on_load: false }, "c".to_owned());
    assert!(s.handle(incoming("r1", read_events("m.room.message")), "x1".to_owned()).is_empty());
    let cmds = s.handle(incoming("r2", versions()), "x2".to_owned());
    assert_eq!(cmds.len(), 1);
    assert_eq!(reply_sent(&cmds[0]), Some(("r2".to_owned(), WidgetApiFromWidgetAction::SupportedApiVersions, None)));
    assert_eq!(s.queue.len(), 1);
    assert!(s.current.is_some());
}

#[test]
fn new_session_asks_for_capabilities_under_the_fresh_id() {
    let (s, cmds) = Session::new("widget-9".to_owned(), Settings { init_on_load: false }, "id-7".to_owned());
    assert_eq!(cmds.len(), 1);
    match &cmds[0] {
        Command::Send(Message { header, action: Action::ToWidget(ToWidgetAction::CapabilitiesRequest(b)) }) => {
            assert_eq!(header.request_id, "id-7");
            assert_eq!(header.widget_id, "widget-9");
            assert!(b.response.is_none());
        }
        other => panic!("unexpected {other:?}"),
    }
    assert!(s.pending.contains("id-7"));
}

#[test]
fn disconnect_without_listener_gives_no_command() {
    let mut s = negotiated(&[SEND_TEXT]);
    assert!(s.handle(Event::Disconnected, "y".to_owned()).is_empty());
    assert!(s.closed);
}

#[test]
fn reply_with_unknown_id_changes_nothing() {
    let (mut s, _) = Session::new("w".to_owned(), Settings { init_on_load: false }, "c".to_owned());
    let cmds = s.handle(capabilities_answer("other", &[READ_ALL]), "x".to_owned());
    assert!(cmds.is_empty());
    assert!(s.pending.contains("c"));
    assert!(s.current.is_some());
    let cmds = s.handle(capabilities_answer("c", &[READ_ALL]), "y".to_owned());
    assert!(matches!(cmds[0], Command::AcquirePermissions(_)));
    assert!(!s.pending.contains("c"));
}

#[test]
fn widget_error_aborts_negotiation() {
    let (mut s, _) = Session::new("w".to_owned(), Settings { init_on_load: false }, "c".to_owned());
    let reply = Event::Reply(
        header("c"),
        ToWidgetAction::CapabilitiesRequest(ActionBody { request: empty(), response: Some(Response::Error(WidgetError::new("no"))) }),
    );
    assert!(s.handle(reply, "x".to_owned()).is_empty());
    assert!(s.current.is_none());
    assert!(s.capabilities.is_none());
}

#[test]
fn content_loaded_starts_negotiation_when_waiting_for_it() {
    let (mut s, _) = Session::new("w".to_owned(), Settings { init_on_load: true }, "unused".to_owned());
    let cmds = s.handle(incoming("r1", content_loaded()), "c1".to_owned());
    assert_eq!(cmds.len(), 2);
    assert_eq!(reply_sent(&cmds[0]), Some(("r1".to_owned(), WidgetApiFromWidgetAction::ContentLoaded, None)));
    assert_eq!(request_sent(&cmds[1]), Some(("c1".to_owned(), WidgetApiToWidgetAction::Capabilities)));
}

#[test]
fn second_content_loaded_is_refused() {
    let mut s = negotiated(&[READ_ALL]);
    let cmds = s.handle(incoming("r9", content_loaded()), "c9".to_owned());
    assert_eq!(cmds.len(), 1);
    assert_eq!(
        reply_sent(&cmds[0]),
        Some(("r9".to_owned(), WidgetApiFromWidgetAction::ContentLoaded, Some("Already loaded".to_owned())))
    );
    assert!(!s.pending.contains("c9"));
    assert!(s.current.is_none());
}

#[test]
fn send_event_outside_the_filters_is_refused_unpublished() {
    let mut s = negotiated(&[SEND_TEXT]);
    let cmds = s.handle(incoming("r1", send_event("m.room.message", r#"{"msgtype":"m.image"}"#)), "x".to_owned());
    assert_eq!(cmds.len(), 1);
    assert_eq!(
        reply_sent(&cmds[0]),
        Some((
            "r1".to_owned(),
            WidgetApiFromWidgetAction::SendEvent,
            Some("No capability to send event of type m.room.message with state key undefined".to_owned())
        ))
    );
    assert!(!cmds.iter().any(|c| matches!(c, Command::Publish(_))));
}

#[test]
fn send_event_inside_the_filters_is_published() {
    let mut s = negotiated(&[SEND_TEXT]);
    let cmds = s.handle(incoming("r1", send_event("m.room.message", r#"{"msgtype":"m.text","body":"hi"}"#)), "x".to_owned());
    assert_eq!(cmds.len(), 1);
    match &cmds[0] {
        Command::Publish(req) => {
            assert_eq!(req.event_type, "m.room.message");
            assert_eq!(req.content, json(r#"{"msgtype":"m.text","body":"hi"}"#));
        }
        other => panic!("unexpected {other:?}"),
    }
    let sent = SendEventResponse { room_id: "!r:x".to_owned(), event_id: "$e".to_owned() };
    let cmds = s.handle(Event::EventSent(Ok(sent)), "y".to_owned());
    match &cmds[0] {
        Command::Send(Message { header, action: Action::FromWidget(FromWidgetAction::SendEvent(b)) }) => {
            assert_eq!(header.request_id, "r1");
            match &b.response {
                Some(Response::Response(r)) => {
                    assert_eq!(r.room_id, "!r:x");
                    assert_eq!(r.event_id, "$e");
                }
                other => panic!("unexpected {other:?}"),
            }
        }
        other => panic!("unexpected {other:?}"),
    }
}

#[test]
fn requests_before_negotiation_or_without_facet_fail() {
    let (mut s, _) = Session::new("w".to_owned(), Settings { init_on_load: true }, "c".to_owned());
    let cmds = s.handle(incoming("r1", read_events("m.room.message")), "x".to_owned());
    assert_eq!(
        reply_sent(&cmds[0]),
        Some(("r1".to_owned(), WidgetApiFromWidgetAction::MSC2876ReadEvents, Some("Capabilities have not been negotiated".to_owned())))
    );
    let mut s = negotiated(&[SEND_TEXT]);
    let cmds = s.handle(incoming("r2", read_events("m.room.message")), "x".to_owned());
    assert_eq!(
        reply_sent(&cmds[0]),
        Some(("r2".to_owned(), WidgetApiFromWidgetAction::MSC2876ReadEvents, Some("No permissions to read events".to_owned())))
    );
    let mut s = negotiated(&[READ_ALL]);
    let cmds = s.handle(incoming("r3", send_event("m.room.message", "{}")), "x".to_owned());
    assert_eq!(
        reply_sent(&cmds[0]),
        Some(("r3".to_owned(), WidgetApiFromWidgetAction::SendEvent, Some("No permissions to send events".to_owned())))
    );
}

#[test]
fn read_results_pass_the_filters_again() {
    let token = r#"org.matrix.msc2762.m.receive.event:{"event_type":"m.room.message","msgtype":"m.text"}"#;
    let mut s = negotiated(&[token]);
    let cmds = s.handle(incoming("r1", read_events("m.room.message")), "x".to_owned());
    assert!(matches!(cmds[0], Command::Read(_)));
    let ev = |id: &str, content: &str| {
        MatrixEvent::new("m.room.message".to_owned(), "@a:x".to_owned(), id.to_owned(), "!r:x".to_owned(), None, 1, json(content))
    };
    let events = vec![ev("$1", r#"{"msgtype":"m.text"}"#), ev("$2", r#"{"msgtype":"m.image"}"#), ev("$3", r#"{"msgtype":"m.text"}"#)];
    let cmds = s.handle(Event::EventsRead(Ok(events)), "y".to_owned());
    match &cmds[0] {
        Command::Send(Message { action: Action::FromWidget(FromWidgetAction::ReadEvent(b)), .. }) => match &b.response {
            Some(Response::Response(r)) => {
                let ids: Vec<&str> = r.events.iter().map(|e| e.event_id.as_str()).collect();
                assert_eq!(ids, vec!["$1", "$3"]);
            }
            other => panic!("unexpected {other:?}"),
        },
        other => panic!("unexpected {other:?}"),
    }
    let cmds = s.handle(incoming("r2", read_events("m.room.message")), "z".to_owned());
    assert!(matches!(cmds[0], Command::Read(_)));
    let cmds = s.handle(Event::EventsRead(Err("timeout".to_owned())), "w".to_owned());
    assert_eq!(
        reply_sent(&cmds[0]),
        Some(("r2".to_owned(), WidgetApiFromWidgetAction::MSC2876ReadEvents, Some("timeout".to_owned())))
    );
}

fn token() -> OpenIdToken {
    OpenIdToken {
        access_token: "tok".to_owned(),
        expires_in: 3600,
        matrix_server_name: "example.org".to_owned(),
        token_type: "Bearer".to_owned(),
    }
}

fn openid_reply_state(c: &Command) -> OpenIdState {
    match c {
        Command::Send(Message { action: Action::FromWidget(FromWidgetAction::GetOpenId(b)), .. }) => match &b.response {
            Some(Response::Response(GetOpenIdResponse { state, .. })) => *state,
            other => panic!("unexpected {other:?}"),
        },
        other => panic!("unexpected {other:?}"),
    }
}

#[test]
fn pending_token_is_delivered_later_exactly_once() {
    let mut s = negotiated(&[READ_ALL]);
    let get = FromWidgetAction::GetOpenId(ActionBody::new(empty()));
    let cmds = s.handle(incoming("r5", get), "x".to_owned());
    assert!(matches!(&cmds[..], [Command::RequestToken(id)] if id == "r5"));
    let cmds = s.handle(Event::Token(TokenStatus::Pending), "x2".to_owned());
    assert_eq!(cmds.len(), 1);
    assert_eq!(openid_reply_state(&cmds[0]), OpenIdState::PendingUserConfirmation);
    assert!(s.current.is_none());
    let cmds = s.handle(Event::TokenResolved("r5".to_owned(), OpenIdDecision::Allowed(token())), "o1".to_owned());
    assert_eq!(cmds.len(), 1);
    match &cmds[0] {
        Command::Send(Message { header, action: Action::ToWidget(ToWidgetAction::OpenIdCredentialsUpdate(b)) }) => {
            assert_eq!(header.request_id, "o1");
            let OpenIdCredentialsRequest { state, original_request_id, access_token, .. } = &b.request;
            assert_eq!(*state, OpenIdState::Allowed);
            assert_eq!(original_request_id, "r5");
            assert_eq!(access_token.as_deref(), Some("tok"));
        }
        other => panic!("unexpected {other:?}"),
    }
    assert!(s.handle(Event::TokenResolved("r5".to_owned(), OpenIdDecision::Blocked), "o2".to_owned()).is_empty());
}

#[test]
fn resolved_token_is_answered_at_once() {
    let (mut s, _) = Session::new("w".to_owned(), Settings { init_on_load: true }, "c".to_owned());
    let cmds = s.handle(incoming("r1", FromWidgetAction::GetOpenId(ActionBody::new(empty()))), "x".to_owned());
    assert!(matches!(&cmds[..], [Command::RequestToken(id)] if id == "r1"));
    let cmds = s.handle(Event::Token(TokenStatus::Resolved(OpenIdDecision::Blocked)), "y".to_owned());
    assert_eq!(cmds.len(), 1);
    assert_eq!(openid_reply_state(&cmds[0]), OpenIdState::Blocked);
    assert!(s.openid_waiting.is_empty());
}

#[test]
fn disconnect_flushes_and_stops() {
    let mut s = negotiated(&[READ_ALL]);
    s.handle(incoming("r1", read_events("m.room.message")), "x".to_owned());
    let cmds = s.handle(Event::Disconnected, "y".to_owned());
    assert!(matches!(cmds[..], [Command::Unsubscribe]));
    assert!(s.closed);
    assert_eq!(s.pending.len(), 0);
    assert!(s.handle(incoming("r2", versions()), "z".to_owned()).is_empty());
}

#[test]
fn live_events_pass_the_listener_filters() {
    let token = r#"org.matrix.msc2762.m.receive.event:{"event_type":"m.room.message"}"#;
    let s = negotiated(&[token]);
    let ev = |t: &str| MatrixEvent::new(t.to_owned(), "@a:x".to_owned(), "$1".to_owned(), "!r:x".to_owned(), None, 1, json("{}"));
    assert!(s.live_event_allowed(&ev("m.room.message")));
    assert!(!s.live_event_allowed(&ev("m.reaction")));
    let (fresh, _) = Session::new("w".to_owned(), Settings { init_on_load: true }, "c".to_owned());
    assert!(!fresh.live_event_allowed(&ev("m.room.message")));
}

#[test]
fn random_request_ids_differ() {
    let (a, cmds_a) = Session::start("w".to_owned(), Settings { init_on_load: false });
    let (b, cmds_b) = Session::start("w".to_owned(), Settings { init_on_load: false });
    let id_a = request_sent(&cmds_a[0]).unwrap().0;
    let id_b = request_sent(&cmds_b[0]).unwrap().0;
    assert!(!id_a.is_empty());
    assert_ne!(id_a, id_b);
    assert!(a.pending.contains(&id_a));
    assert!(b.pending.contains(&id_b));
}

#[test]
fn handle_event_answers_versions() {
    let (mut s, _) = Session::start("w".to_owned(), Settings { init_on_load: true });
    let cmds = s.handle_event(incoming("v", versions()));
    assert_eq!(reply_sent(&cmds[0]), Some(("v".to_owned(), WidgetApiFromWidgetAction::SupportedApiVersions, None)));
    let _ = TimelineFilter { event_type: String::new(), msgtype: None };
}

#[test]
fn content_loaded_without_waiting_only_acknowledges() {
    let (mut idle, _) = Session::new("w".to_owned(), Settings { init_on_load: true }, "c".to_owned());
    idle.settings.init_on_load = false;
    let cmds = idle.handle(incoming("r1", content_loaded()), "c2".to_owned());
    assert_eq!(cmds.len(), 1);
    assert_eq!(reply_sent(&cmds[0]), Some(("r1".to_owned(), WidgetApiFromWidgetAction::ContentLoaded, None)));
    assert!(idle.current.is_none());
    assert_eq!(idle.pending.len(), 0);
}

#[test]
fn invalid_capability_tokens_abort_negotiation() {
    let (mut s, _) = Session::new("w".to_owned(), Settings { init_on_load: false }, "c".to_owned());
    let cmds = s.handle(capabilities_answer("c", &["org.matrix.msc2762.m.send.event:{oops"]), "x".to_owned());
    assert!(cmds.is_empty());
    assert!(s.current.is_none());
    assert!(s.capabilities.is_none());
    let cmds = s.handle(incoming("r1", send_event("m.room.message", "{}")), "y".to_owned());
    assert_eq!(
        reply_sent(&cmds[0]),
        Some(("r1".to_owned(), WidgetApiFromWidgetAction::SendEvent, Some("Capabilities have not been negotiated".to_owned())))
    );
}

#[test]
fn failed_publish_is_reported_to_the_widget() {
    let mut s = negotiated(&[SEND_TEXT]);
    s.handle(incoming("r1", send_event("m.room.message", r#"{"msgtype":"m.text"}"#)), "x".to_owned());
    let cmds = s.handle(Event::EventSent(Err("rate limited".to_owned())), "y".to_owned());
    assert_eq!(
        reply_sent(&cmds[0]),
        Some(("r1".to_owned(), WidgetApiFromWidgetAction::SendEvent, Some("rate limited".to_owned())))
    );
    assert!(s.current.is_none());
}
