use avernus::matrix::protocol::Command;
use avernus::matrix::rooms::{has_room, remove_room, JoinedRoom};
use avernus::matrix::session::{EndStep, StoreStep};
use avernus::matrix::tasks::Task;
use avernus::matrix::types::{
    MatrixBridgeEvent, MatrixMessage, PendingVerificationChallenge, PublicRoomSearchResult,
    RoomInfo, VerificationEmoji,
};
use avernus::matrix::MatrixBackend;

fn room(id: &str) -> RoomInfo {
    RoomInfo { id: id.to_string(), display_name: id.to_uppercase(), is_direct: false }
}

fn message(room_id: &str, body: &str, event_id: Option<&str>) -> MatrixMessage {
    MatrixMessage {
        room_id: room_id.to_string(),
        sender: "@alice:example.org".to_string(),
        body: body.to_string(),
        timestamp: 100,
        event_id: event_id.map(|id| id.to_string()),
    }
}

fn synced() -> MatrixBackend {
    let mut backend = MatrixBackend::new();
    assert!(backend.apply_event(MatrixBridgeEvent::SyncRooms {
        generation: 0,
        rooms: vec![room("!a"), room("!b")],
    }));
    assert!(backend.apply_event(MatrixBridgeEvent::NewMessage {
        generation: 0,
        message: message("!a", "hello", Some("$1")),
    }));
    backend
}

fn ids(backend: &MatrixBackend) -> Vec<&str> {
    backend.rooms.iter().map(|room| room.id.as_str()).collect()
}

#[test]
fn verification_challenge_tracks_emoji_data() {
    let challenge = PendingVerificationChallenge {
        user_id: "@alice:example.org".to_string(),
        flow_id: "flow-123".to_string(),
        emojis: vec![VerificationEmoji {
            symbol: "🦊".to_string(),
            description: "Fox".to_string(),
        }],
    };

    assert_eq!(challenge.user_id, "@alice:example.org");
    assert_eq!(challenge.flow_id, "flow-123");
    assert_eq!(challenge.emojis.len(), 1);
    assert_eq!(challenge.emojis[0].description, "Fox");
}

#[test]
fn a_new_client_is_offline() {
    let backend = MatrixBackend::new();
    assert_eq!(backend.connection_status, "Offline");
    assert_eq!(backend.sync_generation, 0);
    assert!(backend.rooms.is_empty());
    assert!(backend.public_rooms.is_empty());
    assert!(backend.pending_verification.is_none());
}

#[test]
fn events_of_another_generation_change_nothing() {
    let mut backend = synced();
    backend.sync_generation = 1;
    assert!(!backend.apply_event(MatrixBridgeEvent::Connected { generation: 0 }));
    assert!(!backend.apply_event(MatrixBridgeEvent::SyncRooms { generation: 0, rooms: Vec::new() }));
    assert!(!backend.apply_event(MatrixBridgeEvent::PublicRoomsDiscovered {
        generation: 0,
        rooms: vec![PublicRoomSearchResult {
            room_id: "!p".to_string(),
            name: None,
            topic: None,
            alias: None,
        }],
    }));
    assert!(!backend.apply_event(MatrixBridgeEvent::RoomHistory {
        generation: 2,
        room_id: "!a".to_string(),
        messages: vec![message("!a", "x", Some("$9"))],
    }));
    assert!(!backend.apply_event(MatrixBridgeEvent::NewMessage {
        generation: 0,
        message: message("!a", "x", Some("$9")),
    }));
    assert!(!backend.apply_event(MatrixBridgeEvent::VerificationChallenge {
        generation: 0,
        user_id: "@a:b".to_string(),
        flow_id: "f".to_string(),
        emojis: Vec::new(),
    }));
    assert!(!backend.apply_event(MatrixBridgeEvent::ConnectionFailed {
        generation: 0,
        error: "x".to_string(),
    }));
    assert_eq!(backend.connection_status, "Offline");
    assert_eq!(ids(&backend), vec!["!a", "!b"]);
    assert!(backend.public_rooms.is_empty());
    assert!(backend.pending_verification.is_none());
    assert_eq!(backend.messages.get("!a").unwrap().len(), 1);
}

#[test]
fn events_of_the_current_generation_are_taken_in() {
    let mut backend = synced();
    assert!(backend.apply_event(MatrixBridgeEvent::Connected { generation: 0 }));
    assert_eq!(backend.connection_status, "Connected");
    assert!(backend.apply_event(MatrixBridgeEvent::RoomHistory {
        generation: 0,
        room_id: "!b".to_string(),
        messages: vec![message("!b", "old", Some("$0"))],
    }));
    assert_eq!(backend.messages.get("!b").unwrap()[0].body, "old");
    assert!(backend.apply_event(MatrixBridgeEvent::VerificationChallenge {
        generation: 0,
        user_id: "@a:b".to_string(),
        flow_id: "f".to_string(),
        emojis: Vec::new(),
    }));
    assert_eq!(backend.pending_verification.as_ref().unwrap().flow_id, "f");
    assert!(backend.apply_event(MatrixBridgeEvent::PublicRoomsDiscovered {
        generation: 0,
        rooms: vec![PublicRoomSearchResult {
            room_id: "!p".to_string(),
            name: None,
            topic: None,
            alias: None,
        }],
    }));
    assert_eq!(backend.public_rooms[0].room_id, "!p");
    assert!(backend.apply_event(MatrixBridgeEvent::ConnectionFailed {
        generation: 0,
        error: "no route".to_string(),
    }));
    assert_eq!(backend.connection_status, "Error: no route");
    assert!(backend.pending_verification.is_none());
}

#[test]
fn an_event_twice_is_an_event_once() {
    let mut backend = synced();
    for _ in 0..2 {
        backend.apply_event(MatrixBridgeEvent::NewMessage {
            generation: 0,
            message: message("!a", "hello", Some("$1")),
        });
    }
    assert_eq!(backend.messages.get("!a").unwrap().len(), 1);
}

#[test]
fn a_local_echo_is_not_doubled_by_the_copy_of_the_server() {
    let mut backend = MatrixBackend::new();
    for id in [None, Some("$1")] {
        backend.apply_event(MatrixBridgeEvent::NewMessage {
            generation: 0,
            message: message("!a", "hello", id),
        });
    }
    assert_eq!(backend.messages.get("!a").unwrap().len(), 1);
}

#[test]
fn synced_rooms_are_distinct_and_others_lose_their_messages() {
    let mut backend = synced();
    backend.apply_event(MatrixBridgeEvent::SyncRooms {
        generation: 0,
        rooms: vec![room("!b"), room(" !b "), room("!c"), room("!b")],
    });
    assert_eq!(ids(&backend), vec!["!b", "!c"]);
    assert!(backend.messages.get("!a").is_none());
}

#[test]
fn rooms_are_listed_by_name_or_id() {
    let rooms = MatrixBackend::collect_joined_rooms(vec![
        JoinedRoom {
            room_id: "!a".to_string(),
            display_name: Some("Alpha".to_string()),
            is_direct: Some(true),
        },
        JoinedRoom { room_id: "!b".to_string(), display_name: None, is_direct: None },
    ]);
    assert_eq!(rooms[0].display_name, "Alpha");
    assert!(rooms[0].is_direct);
    assert_eq!(rooms[1].display_name, "!b");
    assert!(!rooms[1].is_direct);
    let mut rooms = rooms;
    assert!(has_room(&rooms, "!a"));
    remove_room(&mut rooms, "!a");
    assert!(!has_room(&rooms, "!a"));
    assert!(has_room(&rooms, "!b"));
}

#[test]
fn a_login_begins_the_next_generation() {
    let mut backend = MatrixBackend::new();
    let (flow, steps) = backend.restore_saved_session();
    assert_eq!(flow.generation, 1);
    assert!(matches!(steps[0], Command::ReadSessionFile));
    let (flow, _) = backend.start_sync("alice".to_string(), "secret".to_string());
    assert_eq!(flow.generation, 2);
    let (flow, _) = backend.start_sso_login("matrix.org".to_string());
    assert_eq!(flow.generation, 3);
    let (flow, _) = backend.search_public_rooms("rust".to_string());
    assert_eq!(flow.generation, 4);
    assert_eq!(backend.sync_generation, 4);
    backend.sync_generation = u64::MAX;
    assert_eq!(backend.restore_saved_session().0.generation, 0);
}

#[test]
fn other_tasks_keep_the_generation() {
    let backend = MatrixBackend::new();
    assert!(matches!(backend.create_direct_chat("@a:b".to_string()).0.task, Task::DirectChat { .. }));
    assert!(matches!(backend.create_room("r".to_string()).0.task, Task::NewRoom { .. }));
    assert!(matches!(
        backend.join_room_by_id_or_alias("r".to_string()).0.task,
        Task::Join { .. }
    ));
    assert!(matches!(backend.load_room_history("!r".to_string()).0.task, Task::History { .. }));
    assert!(matches!(
        backend.send_message("!r".to_string(), "t".to_string()).0.task,
        Task::SendText { .. }
    ));
    assert!(matches!(backend.verify_current_session().0.task, Task::VerifySession));
    let (flow, steps) = backend.send_attachment("!r".to_string(), "d/a.png", None);
    match flow.task {
        Task::SendFile { room_id, name, content_type, caption } => {
            assert_eq!(room_id, "!r");
            assert_eq!(name, "a.png");
            assert_eq!(content_type, "image/png");
            assert_eq!(caption, None);
        }
        _ => panic!("no file"),
    }
    assert!(matches!(steps[0], Command::TakeClient));
    let (_, steps) =
        MatrixBackend::answer_verification_request(7, "@a:b".to_string(), "f".to_string());
    assert!(matches!(&steps[0], Command::FindVerificationRequest { user_id, flow_id }
        if user_id == "@a:b" && flow_id == "f"));
    assert_eq!(backend.sync_generation, 0);
}

#[test]
fn a_file_whose_name_is_no_text_is_sent_by_its_extension() {
    let mut backend = MatrixBackend::new();
    backend.sync_generation = 4;
    for (given, shown) in [(None, "attachment"), (Some("b.png".to_string()), "b.png")] {
        let caption = Some("hi".to_string());
        let (flow, steps) = backend.send_named("!r".to_string(), given, "d/\u{fffd}.png", caption);
        assert_eq!(flow.generation, 4);
        match flow.task {
            Task::SendFile { room_id, name, content_type, caption } => {
                assert_eq!(room_id, "!r");
                assert_eq!(name, shown);
                assert_eq!(content_type, "image/png");
                assert_eq!(caption, Some("hi".to_string()));
            }
            _ => panic!("no file"),
        }
        assert!(matches!(steps[0], Command::TakeClient));
    }
}

#[test]
fn a_room_that_was_left_is_gone() {
    let mut backend = synced();
    let (flow, _) = backend.leave_room("!a".to_string());
    assert_eq!(ids(&backend), vec!["!b"]);
    assert!(backend.messages.get("!a").is_none());
    assert_eq!(backend.sync_generation, 1);
    assert_eq!(flow.generation, 1);
    assert!(!backend.apply_event(MatrixBridgeEvent::SyncRooms {
        generation: 0,
        rooms: vec![room("!a")],
    }));
    assert_eq!(ids(&backend), vec!["!b"]);
}

#[test]
fn a_logout_forgets_the_session() {
    for reset in [false, true] {
        let mut backend = synced();
        backend.apply_event(MatrixBridgeEvent::Connected { generation: 0 });
        let steps = if reset {
            backend.reset_stale_encryption_session(true)
        } else {
            backend.logout(true)
        };
        assert_eq!(steps.len(), 4);
        assert!(matches!(&steps[0], EndStep::Store { step: StoreStep::RemoveDir { path } }
            if path == "./avernus_matrix_store"));
        assert!(matches!(&steps[1], EndStep::Store { step: StoreStep::RemoveFile { path } }
            if path == "./avernus_matrix_store/session.json"));
        assert!(matches!(&steps[2], EndStep::Store { step: StoreStep::CreateDir { path } }
            if path == "./avernus_matrix_store"));
        assert!(matches!(steps[3], EndStep::DropClient));
        assert!(backend.rooms.is_empty());
        assert!(backend.messages.get("!a").is_none());
        assert_eq!(backend.connection_status, "Offline");
        assert_eq!(backend.sync_generation, 1);
    }
}

#[test]
fn an_answered_challenge_is_no_longer_pending() {
    let challenge = MatrixBridgeEvent::VerificationChallenge {
        generation: 0,
        user_id: "@a:b".to_string(),
        flow_id: "f".to_string(),
        emojis: Vec::new(),
    };
    let mut backend = MatrixBackend::new();
    backend.apply_event(challenge.clone());
    let (flow, _) = backend.confirm_verification_challenge("@a:b".to_string(), "f".to_string());
    assert!(matches!(flow.task, Task::Respond { confirm: true, .. }));
    assert!(backend.pending_verification.is_none());
    backend.apply_event(challenge.clone());
    let (flow, _) = backend.mismatch_verification_challenge("@a:b".to_string(), "f".to_string());
    assert!(matches!(flow.task, Task::Respond { confirm: false, .. }));
    assert!(backend.pending_verification.is_none());
    backend.apply_event(challenge);
    backend.dismiss_verification();
    assert!(backend.pending_verification.is_none());
}

#[test]
fn a_list_without_doubles_stays_as_it_is() {
    let rooms = MatrixBackend::dedupe_rooms(vec![room("!a"), room("!b"), room("!a ")]);
    assert_eq!(rooms.len(), 2);
    let again = MatrixBackend::dedupe_rooms(rooms.clone());
    assert_eq!(again.len(), 2);
    assert_eq!(again[0].id, rooms[0].id);
    assert_eq!(again[1].id, rooms[1].id);
}

#[test]
fn a_loaded_history_is_put_in_order() {
    let mut backend = synced();
    let mut early = message("!a", "early", Some("$0"));
    early.timestamp = 1;
    assert!(backend.apply_event(MatrixBridgeEvent::RoomHistory {
        generation: 0,
        room_id: "!a".to_string(),
        messages: vec![message("!a", "hello", Some("$1")), early],
    }));
    let history = backend.messages.get("!a").unwrap();
    assert_eq!(history.len(), 2);
    assert_eq!(history[0].body, "early");
    assert_eq!(history[1].body, "hello");
}
