use avernus::matrix::history::{add_message, is_known};
use avernus::matrix::store::MessageStore;
use avernus::matrix::types::{MatrixMessage, RoomInfo};
use avernus::matrix::MatrixBackend;

fn message(body: &str, timestamp: u64, event_id: Option<&str>) -> MatrixMessage {
    MatrixMessage {
        room_id: "!room:example.org".to_string(),
        sender: "@alice:example.org".to_string(),
        body: body.to_string(),
        timestamp,
        event_id: event_id.map(|id| id.to_string()),
    }
}

fn bodies(history: &Vec<MatrixMessage>) -> Vec<&str> {
    history.iter().map(|message| message.body.as_str()).collect()
}

#[test]
fn room_history_merge_deduplicates_repeated_messages() {
    let room_id = "!room:example.org".to_string();
    let message = MatrixMessage {
        room_id: room_id.clone(),
        sender: "@alice:example.org".to_string(),
        body: "hello".to_string(),
        timestamp: 123,
        event_id: None,
    };

    let mut existing = vec![message.clone()];
    MatrixBackend::merge_room_history(&mut existing, vec![message.clone(), message.clone()]);

    assert_eq!(existing.len(), 1);
    assert_eq!(existing[0].body, "hello");
}

#[test]
fn local_echo_duplicates_are_deduplicated_within_a_short_time_window() {
    let room_id = "!room:example.org".to_string();
    let first = MatrixMessage {
        room_id: room_id.clone(),
        sender: "@alice:example.org".to_string(),
        body: "s".to_string(),
        timestamp: 100,
        event_id: None,
    };
    let second = MatrixMessage {
        room_id: room_id.clone(),
        sender: "@alice:example.org".to_string(),
        body: "s".to_string(),
        timestamp: 105,
        event_id: None,
    };
    let third = MatrixMessage {
        room_id: room_id.clone(),
        sender: "@alice:example.org".to_string(),
        body: "s".to_string(),
        timestamp: 10_000,
        event_id: None,
    };

    assert!(MatrixBackend::is_same_message(&first, &second));
    assert!(!MatrixBackend::is_same_message(&first, &third));
}

#[test]
fn the_window_of_an_echo_is_five_seconds_either_way() {
    let a = message("s", 10_000, None);
    assert!(MatrixBackend::is_same_message(&a, &message("s", 15_000, Some("$1"))));
    assert!(MatrixBackend::is_same_message(&a, &message("s", 5_000, Some("$1"))));
    assert!(!MatrixBackend::is_same_message(&a, &message("s", 15_001, Some("$1"))));
    assert!(!MatrixBackend::is_same_message(&message("s", 4_999, None), &a));
}

#[test]
fn event_ids_decide_where_both_are_known() {
    let a = message("a", 0, Some("$1"));
    assert!(MatrixBackend::is_same_message(&a, &message("b", 90_000, Some("$1"))));
    assert!(!MatrixBackend::is_same_message(&a, &message("a", 0, Some("$2"))));
    let mut elsewhere = message("a", 0, Some("$1"));
    elsewhere.room_id = "!other:example.org".to_string();
    assert!(!MatrixBackend::is_same_message(&a, &elsewhere));
}

#[test]
fn a_merge_sorts_by_time_and_keeps_the_order_of_equal_times() {
    let mut history = vec![message("late", 30, Some("$3")), message("first", 10, Some("$1"))];
    MatrixBackend::merge_room_history(
        &mut history,
        vec![message("second", 10, Some("$2")), message("middle", 20, Some("$4"))],
    );
    assert_eq!(bodies(&history), vec!["first", "second", "middle", "late"]);
    let before = bodies(&history).join(" ");
    MatrixBackend::merge_room_history(&mut history, vec![message("x", 99, Some("$4"))]);
    assert_eq!(bodies(&history).join(" "), before);
}

#[test]
fn a_known_message_is_not_added_again() {
    let mut history = vec![message("a", 10, None)];
    assert!(is_known(&history, &message("a", 20, Some("$1"))));
    add_message(&mut history, message("a", 20, Some("$1")));
    assert_eq!(history.len(), 1);
    add_message(&mut history, message("b", 5, Some("$2")));
    assert_eq!(bodies(&history), vec!["a", "b"]);
}

#[test]
fn the_store_keeps_the_rooms_apart() {
    let mut store = MessageStore::new();
    assert!(store.get("!room:example.org").is_none());
    store.add(message("b", 20, Some("$2")));
    store.merge("!room:example.org".to_string(), vec![message("a", 10, Some("$1"))]);
    store.merge("!other:example.org".to_string(), Vec::new());
    assert_eq!(bodies(store.get("!room:example.org").unwrap()), vec!["a", "b"]);
    assert!(store.get("!other:example.org").unwrap().is_empty());
    store.retain_rooms(&vec![RoomInfo {
        id: "!room:example.org".to_string(),
        display_name: "Room".to_string(),
        is_direct: false,
    }]);
    assert!(store.get("!other:example.org").is_none());
    assert_eq!(store.get("!room:example.org").unwrap().len(), 2);
    store.remove("!room:example.org");
    assert!(store.get("!room:example.org").is_none());
}

#[test]
fn a_merge_leaves_no_two_messages_the_same() {
    let mut history = Vec::new();
    MatrixBackend::merge_room_history(
        &mut history,
        vec![
            message("s", 9_000, None),
            message("s", 1_000, Some("$1")),
            message("s", 5_000, None),
            message("t", 5_000, Some("$1")),
        ],
    );
    assert_eq!(bodies(&history), vec!["s", "s"]);
    for (i, one) in history.iter().enumerate() {
        for other in &history[i + 1..] {
            assert!(!MatrixBackend::is_same_message(one, other));
        }
    }
}
