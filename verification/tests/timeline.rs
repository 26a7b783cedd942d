use avernus::matrix::timeline::{
    arrived, history_from_events, history_from_json, timeline_event, timeline_message,
    TimelineEvent,
};
use avernus::matrix::types::MatrixBridgeEvent;

fn text_event(body: &str, timestamp: u64) -> TimelineEvent {
    TimelineEvent::Text {
        sender: "@alice:example.org".to_string(),
        body: body.to_string(),
        timestamp,
        event_id: "$event:example.org".to_string(),
    }
}

fn json(msgtype: &str, body: &str) -> String {
    format!(
        r#"{{
            "content": {{"msgtype": "{msgtype}", "body": "{body}"}},
            "event_id": "$event:example.org",
            "origin_server_ts": 1,
            "sender": "@alice:example.org",
            "type": "m.room.message"
        }}"#
    )
}

#[test]
fn parses_room_sync_message_events() {
    let json = r#"{
            "content": {"msgtype": "m.text", "body": "hello"},
            "event_id": "$event:example.org",
            "origin_server_ts": 1,
            "sender": "@alice:example.org",
            "type": "m.room.message"
        }"#;

    let event = timeline_event(json).expect("sync timeline event should parse");

    match event {
        TimelineEvent::Text { sender, body, timestamp, event_id } => {
            assert_eq!(sender, "@alice:example.org");
            assert_eq!(body, "hello");
            assert_eq!(timestamp, 1);
            assert_eq!(event_id, "$event:example.org");
        }
        _ => panic!("no text"),
    }
}

#[test]
fn other_events_are_told_apart() {
    assert!(matches!(timeline_event(&json("m.notice", "a")), Some(TimelineEvent::OtherMessage)));
    assert!(timeline_event("{}").is_none());
    let topic = r#"{
        "content": {"topic": "news"},
        "event_id": "$topic:example.org",
        "origin_server_ts": 1,
        "sender": "@alice:example.org",
        "state_key": "",
        "type": "m.room.topic"
    }"#;
    assert!(matches!(timeline_event(topic), Some(TimelineEvent::Other)));
}

#[test]
fn a_history_holds_the_texts_in_their_order() {
    let history = history_from_json(
        "!room:example.org",
        vec![json("m.text", "one"), json("m.notice", "two"), "{".to_string(), json("m.text", "three")],
    );
    let bodies: Vec<&str> = history.iter().map(|message| message.body.as_str()).collect();
    assert_eq!(bodies, vec!["one", "three"]);
    assert_eq!(history[0].room_id, "!room:example.org");
    assert_eq!(history[0].event_id.as_deref(), Some("$event:example.org"));
}

#[test]
fn events_that_are_no_texts_leave_no_trace() {
    let events = vec![
        Some(TimelineEvent::OtherMessage),
        None,
        Some(text_event("a", 5)),
        Some(TimelineEvent::Other),
    ];
    let history = history_from_events("!room", events);
    assert_eq!(history.len(), 1);
    assert_eq!(history[0].timestamp, 5);
    assert!(timeline_message("!room", None).is_none());
    assert_eq!(timeline_message("!room", Some(text_event("a", 5))).unwrap().body, "a");
}

#[test]
fn an_arriving_text_is_reported_with_its_time() {
    match arrived(3, false, "!room", text_event("a", 4_999)) {
        Some(MatrixBridgeEvent::NewMessage { generation, message }) => {
            assert_eq!(generation, 3);
            assert_eq!(message.timestamp, 4_999);
            assert_eq!(message.room_id, "!room");
        }
        _ => panic!("no report"),
    }
    match arrived(3, true, "!room", text_event("a", 4_999)) {
        Some(MatrixBridgeEvent::NewMessage { message, .. }) => assert_eq!(message.timestamp, 4),
        _ => panic!("no report"),
    }
    assert!(arrived(3, true, "!room", TimelineEvent::OtherMessage).is_none());
}

#[test]
fn two_stretches_make_up_one_history() {
    let stretch = |bodies: &[&str]| -> Vec<Option<TimelineEvent>> {
        bodies.iter().map(|body| Some(text_event(body, 1))).collect()
    };
    let mut whole = stretch(&["a", "b"]);
    whole.push(None);
    whole.extend(stretch(&["c"]));
    let mut parts = history_from_events("!room", stretch(&["a", "b"]));
    parts.extend(history_from_events("!room", stretch(&["c"])));
    let history = history_from_events("!room", whole);
    assert_eq!(history.len(), parts.len());
    for (one, other) in history.iter().zip(parts.iter()) {
        assert_eq!(one.body, other.body);
    }
}
