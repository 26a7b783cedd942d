use avernus::matrix::protocol::{Command, Reply, StopReason};
use avernus::matrix::rooms::JoinedRoom;
use avernus::matrix::task_log::explanation;
use avernus::matrix::tasks::{echo_message, first_other_device, Task, TaskFlow};
use avernus::matrix::types::{MatrixBridgeEvent, PublicRoomSearchResult};
use avernus::matrix::MatrixBackend;

fn flag(yes: bool) -> Reply {
    Reply::Flag { yes }
}

fn begin(task: Task) -> TaskFlow {
    let (flow, steps) = TaskFlow::begin(6, task);
    assert_eq!(steps.len(), 1);
    flow
}

fn stopped(steps: &Vec<Command>) -> Option<StopReason> {
    match steps.last() {
        Some(Command::Stop { reason }) => Some(*reason),
        _ => None,
    }
}

fn found(n: usize) -> Reply {
    let rooms = (0..n)
        .map(|i| PublicRoomSearchResult {
            room_id: format!("!{i}"),
            name: None,
            topic: None,
            alias: None,
        })
        .collect();
    Reply::Found { result: Ok(rooms) }
}

fn text(body: &str) -> Task {
    Task::SendText { room_id: "!r:b".to_string(), text: body.to_string() }
}

#[test]
fn every_task_needs_a_client() {
    for task in [
        Task::NewRoom { name: "r".to_string() },
        Task::Search { query: String::new() },
        Task::VerifySession,
        text("a"),
    ] {
        assert_eq!(stopped(&begin(task).step(flag(false))), Some(StopReason::NoClient));
    }
}

#[test]
fn a_direct_chat_is_created_and_the_rooms_are_refreshed() {
    let mut flow = begin(Task::DirectChat { user_id: "@a:b".to_string() });
    let steps = flow.step(flag(true));
    assert!(matches!(&steps[0], Command::CreateRoom { name: None, is_direct: true, invite: Some(user) }
        if user == "@a:b"));
    assert!(matches!(flow.step(flag(true))[0], Command::CollectRooms));
    let steps = flow.step(Reply::Rooms {
        rooms: vec![JoinedRoom {
            room_id: "!r:b".to_string(),
            display_name: Some("R".to_string()),
            is_direct: None,
        }],
    });
    match &steps[0] {
        Command::Emit { event: MatrixBridgeEvent::SyncRooms { generation, rooms } } => {
            assert_eq!(*generation, 6);
            assert_eq!(rooms[0].display_name, "R");
        }
        _ => panic!("no rooms"),
    }
    assert_eq!(stopped(&steps), Some(StopReason::Finished));
    let mut flow = begin(Task::DirectChat { user_id: "a".to_string() });
    assert_eq!(stopped(&flow.step(flag(true))), Some(StopReason::InvalidUserId));
}

#[test]
fn a_room_is_created_by_name() {
    let mut flow = begin(Task::NewRoom { name: "News".to_string() });
    let steps = flow.step(flag(true));
    assert!(matches!(&steps[0], Command::CreateRoom { name: Some(name), is_direct: false, invite: None }
        if name == "News"));
    assert_eq!(stopped(&flow.step(flag(false))), Some(StopReason::RequestFailed));
}

#[test]
fn a_blank_search_finds_nothing() {
    let mut flow = begin(Task::Search { query: " \t".to_string() });
    let steps = flow.step(flag(true));
    assert!(matches!(&steps[0], Command::Emit { event: MatrixBridgeEvent::PublicRoomsDiscovered { generation: 6, rooms } }
        if rooms.is_empty()));
    assert_eq!(stopped(&steps), Some(StopReason::Finished));
}

#[test]
fn a_search_reports_at_most_twelve_rooms_while_it_is_current() {
    for (current, reported) in [(6, Some(12)), (7, None)] {
        let mut flow = begin(Task::Search { query: " rust ".to_string() });
        let steps = flow.step(flag(true));
        assert!(matches!(&steps[0], Command::SearchDirectory { query, batch: 10 } if query == "rust"));
        assert!(matches!(flow.step(found(13))[0], Command::ReadGeneration));
        let steps = flow.step(Reply::Generation { current });
        match (&steps[0], reported) {
            (
                Command::Emit { event: MatrixBridgeEvent::PublicRoomsDiscovered { rooms, .. } },
                Some(n),
            ) => {
                assert_eq!(rooms.len(), n);
                assert_eq!(rooms[11].room_id, "!11");
            }
            (Command::Stop { reason }, None) => assert_eq!(*reason, StopReason::Superseded),
            _ => panic!("wrong report"),
        }
    }
}

#[test]
fn a_failed_search_is_reported() {
    let mut flow = begin(Task::Search { query: "rust".to_string() });
    flow.step(flag(true));
    let steps = flow.step(Reply::Found { result: Err("no".to_string()) });
    assert!(matches!(&steps[0], Command::Emit { event: MatrixBridgeEvent::ConnectionFailed { generation: 6, error } }
        if error == "no"));
    assert_eq!(stopped(&steps), Some(StopReason::RequestFailed));
}

#[test]
fn a_room_is_joined_by_what_the_user_means() {
    let mut flow = begin(Task::Join { input: " rust ".to_string() });
    assert!(matches!(&flow.step(flag(true))[0], Command::JoinRoom { room } if room == "#rust:matrix.org"));
    assert!(matches!(flow.step(flag(true))[0], Command::CollectRooms));
    let mut flow = begin(Task::Join { input: "  ".to_string() });
    assert_eq!(stopped(&flow.step(flag(true))), Some(StopReason::EmptyRoomAlias));
    let mut flow = begin(Task::Join { input: "#rust".to_string() });
    assert_eq!(stopped(&flow.step(flag(true))), Some(StopReason::InvalidRoomAlias));
}

#[test]
fn a_history_is_loaded_from_the_timeline() {
    let mut flow = begin(Task::History { room_id: "!r:b".to_string() });
    assert!(matches!(&flow.step(flag(true))[0], Command::FindRoom { room_id } if room_id == "!r:b"));
    assert!(matches!(flow.step(flag(true))[0], Command::LoadMessages { limit: 200 }));
    let json = r#"{
        "content": {"msgtype": "m.text", "body": "hello"},
        "event_id": "$e:b",
        "origin_server_ts": 17,
        "sender": "@a:b",
        "type": "m.room.message"
    }"#;
    let steps = flow.step(Reply::Timeline { events: Some(vec![json.to_string(), "[".to_string()]) });
    match &steps[0] {
        Command::Emit { event: MatrixBridgeEvent::RoomHistory { generation, room_id, messages } } => {
            assert_eq!(*generation, 6);
            assert_eq!(room_id, "!r:b");
            assert_eq!(messages.len(), 1);
            assert_eq!(messages[0].timestamp, 17);
        }
        _ => panic!("no history"),
    }
    let mut flow = begin(Task::History { room_id: "!r:b".to_string() });
    flow.step(flag(true));
    flow.step(flag(true));
    assert_eq!(
        stopped(&flow.step(Reply::Timeline { events: None })),
        Some(StopReason::RequestFailed)
    );
}

#[test]
fn a_room_has_to_be_there() {
    let mut flow = begin(text("a"));
    flow.step(flag(true));
    assert_eq!(stopped(&flow.step(flag(false))), Some(StopReason::RoomNotFound));
    let mut flow = begin(Task::Leave { room_id: "r".to_string() });
    assert_eq!(stopped(&flow.step(flag(true))), Some(StopReason::InvalidRoomId));
}

#[test]
fn a_text_is_shown_then_sent() {
    let mut flow = begin(text("hello"));
    flow.step(flag(true));
    assert!(matches!(flow.step(flag(true))[0], Command::AskSelf));
    let steps = flow.step(Reply::Identity { user_id: Some("@me:b".to_string()), now: 99 });
    match &steps[0] {
        Command::Emit { event: MatrixBridgeEvent::NewMessage { generation, message } } => {
            assert_eq!(*generation, 6);
            assert_eq!(message.sender, "@me:b");
            assert_eq!(message.body, "hello");
            assert_eq!(message.timestamp, 99);
            assert_eq!(message.event_id, None);
        }
        _ => panic!("not shown"),
    }
    assert!(matches!(&steps[1], Command::SendText { body } if body == "hello"));
    assert_eq!(stopped(&steps), Some(StopReason::Finished));
    assert_eq!(echo_message("!r", None, "a".to_string(), 1).sender, "you");
}

#[test]
fn a_file_is_read_then_shown_then_sent() {
    let file = || Task::SendFile {
        room_id: "!r:b".to_string(),
        name: "a.png".to_string(),
        content_type: "image/png".to_string(),
        caption: Some("look".to_string()),
    };
    let mut flow = begin(file());
    flow.step(flag(true));
    assert!(matches!(flow.step(flag(true))[0], Command::ReadAttachment));
    assert!(matches!(flow.step(flag(true))[0], Command::AskSelf));
    let steps = flow.step(Reply::Identity { user_id: None, now: 1 });
    match (&steps[0], &steps[1]) {
        (
            Command::Emit { event: MatrixBridgeEvent::NewMessage { message, .. } },
            Command::SendFile { name, content_type, caption },
        ) => {
            assert_eq!(message.body, "Attachment: a.png (look)");
            assert_eq!(message.sender, "you");
            assert_eq!(name, "a.png");
            assert_eq!(content_type, "image/png");
            assert_eq!(caption.as_deref(), Some("look"));
        }
        _ => panic!("not sent"),
    }
    let mut flow = begin(file());
    flow.step(flag(true));
    flow.step(flag(true));
    assert_eq!(stopped(&flow.step(flag(false))), Some(StopReason::FileUnreadable));
}

#[test]
fn a_room_is_left() {
    let mut flow = begin(Task::Leave { room_id: "!r:b".to_string() });
    flow.step(flag(true));
    let steps = flow.step(flag(true));
    assert!(matches!(steps[0], Command::LeaveRoom));
    assert_eq!(stopped(&steps), Some(StopReason::Finished));
}

#[test]
fn a_verification_is_confirmed_or_rejected() {
    for confirm in [true, false] {
        let mut flow = begin(Task::Respond {
            user_id: "@a:b".to_string(),
            flow_id: "f".to_string(),
            confirm,
        });
        assert!(matches!(flow.step(flag(true))[0], Command::FindVerification { .. }));
        let steps = flow.step(flag(true));
        assert_eq!(matches!(steps[0], Command::ConfirmVerification), confirm);
        assert_eq!(matches!(steps[0], Command::RejectVerification), !confirm);
    }
    let mut flow = begin(Task::Respond {
        user_id: "@a:b".to_string(),
        flow_id: "f".to_string(),
        confirm: true,
    });
    flow.step(flag(true));
    assert_eq!(stopped(&flow.step(flag(false))), Some(StopReason::FlowNotFound));
}

#[test]
fn this_device_is_verified_with_the_first_other_one() {
    let mut flow = begin(Task::VerifySession);
    assert!(matches!(flow.step(flag(true))[0], Command::AskLoggedIn));
    assert!(matches!(flow.step(flag(true))[0], Command::AskUserId));
    assert!(matches!(
        flow.step(Reply::Text { text: Some("@a:b".to_string()) })[0],
        Command::AskDeviceId
    ));
    assert!(matches!(
        flow.step(Reply::Text { text: Some("OWN".to_string()) })[0],
        Command::ListDevices
    ));
    let ids = vec!["OWN".to_string(), "X".to_string(), "Y".to_string()];
    assert_eq!(first_other_device(&ids, "OWN"), Some(1));
    assert_eq!(first_other_device(&vec!["OWN".to_string()], "OWN"), None);
    assert!(matches!(
        flow.step(Reply::Devices { ids: Some(ids) })[0],
        Command::RequestVerification { device: 1 }
    ));
    let steps = flow.step(Reply::Requested { user_id: "@a:b".to_string(), flow_id: "f".to_string() });
    assert!(matches!(steps[0], Command::StartSas));
    let steps = flow.step(flag(true));
    assert!(matches!(&steps[0], Command::WatchSas { user_id, flow_id } if user_id == "@a:b" && flow_id == "f"));
}

#[test]
fn a_session_that_cannot_be_verified_says_why() {
    let reach = |n: usize| {
        let mut flow = begin(Task::VerifySession);
        flow.step(flag(true));
        if n > 0 {
            flow.step(flag(true));
        }
        if n > 1 {
            flow.step(Reply::Text { text: Some("@a:b".to_string()) });
        }
        if n > 2 {
            flow.step(Reply::Text { text: Some("OWN".to_string()) });
        }
        if n > 3 {
            flow.step(Reply::Devices { ids: Some(vec!["X".to_string()]) });
        }
        flow
    };
    assert_eq!(stopped(&reach(0).step(flag(false))), Some(StopReason::NotLoggedIn));
    assert_eq!(stopped(&reach(1).step(Reply::Text { text: None })), Some(StopReason::NoUserId));
    assert_eq!(stopped(&reach(2).step(Reply::Text { text: None })), Some(StopReason::NoDeviceId));
    assert_eq!(
        stopped(&reach(3).step(Reply::Devices { ids: None })),
        Some(StopReason::RequestFailed)
    );
    assert_eq!(
        stopped(&reach(3).step(Reply::Devices { ids: Some(vec!["OWN".to_string()]) })),
        Some(StopReason::NoOtherDevice)
    );
    assert_eq!(stopped(&reach(4).step(flag(false))), Some(StopReason::RequestFailed));
}

#[test]
fn an_open_request_of_another_device_is_answered() {
    let (mut flow, _) =
        MatrixBackend::answer_verification_request(6, "@a:b".to_string(), "f".to_string());
    let open = Reply::RequestState { done: false, cancelled: false, we_started: false };
    assert!(matches!(flow.step(open)[0], Command::AcceptVerification));
    assert!(matches!(flow.step(flag(true))[0], Command::StartSas));
    assert!(matches!(flow.step(flag(true))[0], Command::WatchSas { .. }));
}

#[test]
fn a_request_that_needs_no_answer_gets_none() {
    for i in 0..3 {
        let (mut flow, _) =
            MatrixBackend::answer_verification_request(6, "@a:b".to_string(), "f".to_string());
        let steps = flow.step(Reply::RequestState {
            done: i == 0,
            cancelled: i == 1,
            we_started: i == 2,
        });
        assert_eq!(stopped(&steps), Some(StopReason::NothingToAnswer));
    }
    let (mut flow, _) =
        MatrixBackend::answer_verification_request(6, "@a:b".to_string(), "f".to_string());
    assert_eq!(stopped(&flow.step(flag(false))), Some(StopReason::FlowNotFound));
}

#[test]
fn an_answer_to_another_question_ends_the_task() {
    let mut flow = begin(text("a"));
    assert_eq!(
        stopped(&flow.step(Reply::Generation { current: 6 })),
        Some(StopReason::Unexpected)
    );
    assert_eq!(stopped(&flow.step(flag(true))), Some(StopReason::Unexpected));
}

#[test]
fn the_log_says_why_a_task_ended() {
    let respond = |confirm| Task::Respond {
        user_id: "u".to_string(),
        flow_id: "f".to_string(),
        confirm,
    };
    let chat = || Task::DirectChat { user_id: "u".to_string() };
    let file = || Task::SendFile {
        room_id: "r".to_string(),
        name: "n".to_string(),
        content_type: "c".to_string(),
        caption: None,
    };
    let send = || Task::SendText { room_id: "r".to_string(), text: "t".to_string() };
    let leave = || Task::Leave { room_id: "r".to_string() };
    let join = || Task::Join { input: "#a".to_string() };
    let verify = || Task::VerifySession;
    for (task, reason, text) in [
        (chat(), StopReason::NoClient, Some("Client not initialized")),
        (leave(), StopReason::NoClient, None),
        (Task::History { room_id: "r".to_string() }, StopReason::NoClient, None),
        (
            respond(true),
            StopReason::NoClient,
            Some("Client not initialized while confirming verification challenge"),
        ),
        (
            respond(false),
            StopReason::NoClient,
            Some("Client not initialized while rejecting verification challenge"),
        ),
        (
            verify(),
            StopReason::NoClient,
            Some("Client not initialized while verifying session"),
        ),
        (chat(), StopReason::InvalidUserId, Some("Invalid User ID: u")),
        (
            respond(false),
            StopReason::InvalidUserId,
            Some("Invalid user ID while rejecting verification challenge: u"),
        ),
        (join(), StopReason::EmptyRoomAlias, Some("Invalid Room ID or Alias: empty input")),
        (join(), StopReason::InvalidRoomAlias, Some("Invalid Room ID or Alias: #a")),
        (send(), StopReason::InvalidRoomId, Some("Invalid Room ID: r")),
        (file(), StopReason::InvalidRoomId, Some("Invalid Room ID: r")),
        (leave(), StopReason::InvalidRoomId, None),
        (send(), StopReason::RoomNotFound, Some("Room not found for send: r")),
        (file(), StopReason::RoomNotFound, Some("Room not found for attachment send: r")),
        (
            respond(true),
            StopReason::FlowNotFound,
            Some("Verification flow not found while confirming challenge: f"),
        ),
        (
            verify(),
            StopReason::NotLoggedIn,
            Some("Cannot verify device: Matrix client is not logged in"),
        ),
        (
            verify(),
            StopReason::NoUserId,
            Some("Cannot verify session: the Matrix user ID is not available."),
        ),
        (
            verify(),
            StopReason::NoDeviceId,
            Some("Cannot verify session: the Matrix device ID is not available."),
        ),
        (chat(), StopReason::Finished, None),
    ] {
        assert_eq!(explanation(&task, reason).as_deref(), text);
    }
    assert!(explanation(&verify(), StopReason::NoOtherDevice)
        .unwrap()
        .starts_with("No other Matrix device is available for verification."));
}
