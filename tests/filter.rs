use matrix_widget::filter::{Filter, FilterInput, StateFilter, TimelineFilter};
use matrix_widget::messages::MatrixEvent;

fn json(text: &str) -> serde_json::Value {
    serde_json::from_str(text).unwrap()
}

fn event(event_type: &str, state_key: Option<&str>, content: &str) -> MatrixEvent {
    MatrixEvent::new(
        event_type.to_owned(),
        "@alice:example.org".to_owned(),
        "$event".to_owned(),
        "!room:example.org".to_owned(),
        state_key.map(|k| k.to_owned()),
        1,
        json(content),
    )
}

fn timeline(event_type: &str, msgtype: Option<&str>) -> Filter {
    Filter::Timeline(TimelineFilter {
        event_type: event_type.to_owned(),
        msgtype: msgtype.map(|m| m.to_owned()),
    })
}

fn state(event_type: &str, state_key: Option<&str>) -> Filter {
    Filter::State(StateFilter {
        event_type: event_type.to_owned(),
        state_key: state_key.map(|k| k.to_owned()),
    })
}

fn allows(filters: Vec<Filter>, ev: &MatrixEvent) -> bool {
    matrix_widget::filter::allow(&filters, &ev.filter_input())
}

#[test]
fn timeline_filter_without_msgtype_allows_any_message() {
    let ev = event("m.room.message", None, r#"{"msgtype":"m.text"}"#);
    assert!(allows(vec![timeline("m.room.message", None)], &ev));
}

#[test]
fn timeline_filter_with_other_msgtype_refuses() {
    let ev = event("m.room.message", None, r#"{"msgtype":"m.text"}"#);
    assert!(!allows(vec![timeline("m.room.message", Some("m.image"))], &ev));
}

#[test]
fn timeline_filter_with_same_msgtype_allows() {
    let ev = event("m.room.message", None, r#"{"msgtype":"m.image"}"#);
    assert!(allows(vec![timeline("m.room.message", Some("m.image"))], &ev));
}

#[test]
fn timeline_filter_with_msgtype_refuses_content_without_msgtype() {
    let ev = event("m.room.message", None, r#"{"body":"hi"}"#);
    assert!(!allows(vec![timeline("m.room.message", Some("m.text"))], &ev));
}

#[test]
fn timeline_filter_with_msgtype_refuses_other_event_types() {
    let ev = event("m.sticker", None, r#"{"msgtype":"m.text"}"#);
    assert!(!allows(vec![timeline("m.sticker", Some("m.text"))], &ev));
    assert!(!allows(vec![timeline("m.room.message", None)], &ev));
}

#[test]
fn msgtype_that_is_not_a_string_is_absent() {
    let ev = event("m.room.message", None, r#"{"msgtype":5}"#);
    assert_eq!(ev.msgtype, None);
    let ev = event("m.room.message", None, r#"{"msgtype":"m.text"}"#);
    assert_eq!(ev.msgtype.as_deref(), Some("m.text"));
}

#[test]
fn state_filter_with_empty_key_matches_empty_key_only() {
    let filters = || vec![state("m.room.topic", Some(""))];
    assert!(allows(filters(), &event("m.room.topic", Some(""), "{}")));
    assert!(!allows(filters(), &event("m.room.topic", None, "{}")));
    assert!(!allows(filters(), &event("m.room.topic", Some("other"), "{}")));
}

#[test]
fn state_filter_without_key_allows_every_key() {
    let filters = || vec![state("m.room.topic", None)];
    assert!(allows(filters(), &event("m.room.topic", Some("a"), "{}")));
    assert!(allows(filters(), &event("m.room.topic", Some(""), "{}")));
    assert!(!allows(filters(), &event("m.room.topic", None, "{}")));
    assert!(!allows(filters(), &event("m.room.name", Some(""), "{}")));
}

#[test]
fn allow_all_filters_split_by_state_key() {
    let msg = event("m.room.message", None, "{}");
    let topic = event("m.room.topic", Some(""), "{}");
    assert!(allows(vec![Filter::AllowAllTimeline], &msg));
    assert!(!allows(vec![Filter::AllowAllTimeline], &topic));
    assert!(allows(vec![Filter::AllowAllState], &topic));
    assert!(!allows(vec![Filter::AllowAllState], &msg));
}

#[test]
fn filter_set_is_any_of_its_filters() {
    let msg = event("m.room.message", None, r#"{"msgtype":"m.text"}"#);
    assert!(!allows(vec![], &msg));
    assert!(allows(vec![state("m.room.topic", None), timeline("m.room.message", None)], &msg));
    assert!(!allows(vec![state("m.room.topic", None), Filter::AllowAllState], &msg));
}

#[test]
fn filter_input_takes_the_event_fields() {
    let input: FilterInput = event("m.room.member", Some("@bob:x"), r#"{"msgtype":"m.text"}"#).filter_input();
    assert_eq!(input.event_type, "m.room.member");
    assert_eq!(input.state_key.as_deref(), Some("@bob:x"));
    assert_eq!(input.msgtype.as_deref(), Some("m.text"));
}

#[test]
fn state_filters_are_recognised() {
    assert!(state("a", None).is_state_filter());
    assert!(Filter::AllowAllState.is_state_filter());
    assert!(!timeline("a", None).is_state_filter());
    assert!(!Filter::AllowAllTimeline.is_state_filter());
}
