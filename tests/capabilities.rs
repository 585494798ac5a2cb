use matrix_widget::capabilities::Options;
use matrix_widget::error::Error;
use matrix_widget::filter::{Filter, StateFilter, TimelineFilter};

fn strings(v: &[&str]) -> Vec<String> {
    v.iter().map(|s| s.to_string()).collect()
}

#[test]
fn encodes_flags_and_filters_in_order() {
    let mut o = Options::new();
    o.screenshot = true;
    o.requires_client = true;
    o.send_filter.push(Filter::Timeline(TimelineFilter {
        event_type: "m.room.message".to_owned(),
        msgtype: Some("m.text".to_owned()),
    }));
    o.send_filter.push(Filter::State(StateFilter { event_type: "m.room.topic".to_owned(), state_key: None }));
    o.read_filter.push(Filter::AllowAllState);
    o.read_filter.push(Filter::AllowAllTimeline);
    assert_eq!(
        o.to_capability_list(),
        strings(&[
            "m.capability.screenshot",
            "io.element.requires_client",
            r#"org.matrix.msc2762.m.send.event:{"event_type":"m.room.message","msgtype":"m.text"}"#,
            r#"org.matrix.msc2762.m.send.state_event:{"event_type":"m.room.topic"}"#,
            "org.matrix.msc2762.m.receive.state_event",
            "org.matrix.msc2762.m.receive.event",
        ])
    );
}

#[test]
fn encoding_escapes_quotes() {
    let mut o = Options::new();
    o.read_filter.push(Filter::State(StateFilter {
        event_type: "a\"b".to_owned(),
        state_key: Some("".to_owned()),
    }));
    assert_eq!(
        o.to_capability_list(),
        strings(&[r#"org.matrix.msc2762.m.receive.state_event:{"event_type":"a\"b","state_key":""}"#])
    );
}

#[test]
fn empty_options_encode_to_nothing() {
    assert!(Options::new().to_capability_list().is_empty());
}

#[test]
fn decodes_flags_and_filters() {
    let tokens = strings(&[
        "m.always_on_screen",
        r#"org.matrix.msc2762.m.send.event:{"event_type":"m.room.message","msgtype":"m.text"}"#,
        "org.matrix.msc2762.m.receive.event",
        r#"org.matrix.msc2762.m.receive.state_event:{"state_key":"","event_type":"m.room.topic"}"#,
        "org.matrix.msc2762.m.send.state_event",
        "io.element.unknown",
    ]);
    let o = Options::from_capability_list(&tokens).unwrap();
    assert!(o.always_on_screen);
    assert!(!o.screenshot);
    assert!(!o.requires_client);
    assert_eq!(o.send_filter.len(), 2);
    match &o.send_filter[0] {
        Filter::Timeline(t) => {
            assert_eq!(t.event_type, "m.room.message");
            assert_eq!(t.msgtype.as_deref(), Some("m.text"));
        }
        other => panic!("unexpected filter {other:?}"),
    }
    assert!(matches!(o.send_filter[1], Filter::AllowAllState));
    assert_eq!(o.read_filter.len(), 2);
    assert!(matches!(o.read_filter[0], Filter::AllowAllTimeline));
    match &o.read_filter[1] {
        Filter::State(s) => {
            assert_eq!(s.event_type, "m.room.topic");
            assert_eq!(s.state_key.as_deref(), Some(""));
        }
        other => panic!("unexpected filter {other:?}"),
    }
}

#[test]
fn decoding_refuses_a_body_without_event_type() {
    let tokens = strings(&[r#"org.matrix.msc2762.m.send.event:{"msgtype":"m.text"}"#]);
    match Options::from_capability_list(&tokens) {
        Err(Error::InvalidJSON(t)) => assert_eq!(t, tokens[0]),
        other => panic!("unexpected {other:?}"),
    }
}

#[test]
fn decoding_refuses_a_body_that_is_not_json() {
    let tokens = strings(&["m.capability.screenshot", "org.matrix.msc2762.m.receive.event:nonsense"]);
    assert!(matches!(Options::from_capability_list(&tokens), Err(Error::InvalidJSON(_))));
}

#[test]
fn base_token_followed_by_other_text_is_unknown() {
    let tokens = strings(&["org.matrix.msc2762.m.send.eventX", "m.capability.screenshotX"]);
    let o = Options::from_capability_list(&tokens).unwrap();
    assert!(o.send_filter.is_empty());
    assert!(!o.screenshot);
}

#[test]
fn encoded_options_decode_to_the_same_permissions() {
    let mut o = Options::new();
    o.always_on_screen = true;
    o.send_filter.push(Filter::Timeline(TimelineFilter { event_type: "x:y".to_owned(), msgtype: None }));
    o.read_filter.push(Filter::State(StateFilter {
        event_type: "m.room.name".to_owned(),
        state_key: Some("k".to_owned()),
    }));
    let back = Options::from_capability_list(&o.to_capability_list()).unwrap();
    assert!(back.always_on_screen);
    assert_eq!(back.to_capability_list(), o.to_capability_list());
}

#[test]
fn filter_extension_is_empty_for_allow_all() {
    assert_eq!(Filter::AllowAllTimeline.capability_extension(), "");
    let f = Filter::Timeline(TimelineFilter { event_type: "t".to_owned(), msgtype: None });
    assert_eq!(f.capability_extension(), r#":{"event_type":"t"}"#);
}

#[test]
fn encoding_escapes_control_characters() {
    let f = Filter::Timeline(TimelineFilter {
        event_type: "a\nb\\c".to_owned(),
        msgtype: Some("\u{1}\t".to_owned()),
    });
    assert_eq!(
        f.capability_extension(),
        r#":{"event_type":"a\nb\\c","msgtype":"\u0001\t"}"#
    );
}
