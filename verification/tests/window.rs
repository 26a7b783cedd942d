use avernus::app_layout::{
    homeserver_setting, startup, Action, AvernusApp, DialogType, Request, RoomCounts,
    RoomDetailsTab, Space,
};
use avernus::matrix::types::{
    MatrixBridgeEvent, MatrixMessage, PublicRoomSearchResult, RoomInfo, VerificationEmoji,
};
use avernus::matrix::MatrixBackend;
use avernus::screen::{Content, DetailsPane, MenuItem, Modal, VerificationPane};

fn room(id: &str, is_direct: bool) -> RoomInfo {
    RoomInfo { id: id.to_string(), display_name: format!("Name of {id}"), is_direct }
}

fn backend() -> MatrixBackend {
    let mut backend = MatrixBackend::new();
    backend.apply_event(MatrixBridgeEvent::SyncRooms {
        generation: 0,
        rooms: vec![room("!direct:example.org", true), room("!room:a.org", false)],
    });
    backend
}

fn say(backend: &mut MatrixBackend, sender: &str, body: &str) {
    backend.apply_event(MatrixBridgeEvent::NewMessage {
        generation: 0,
        message: MatrixMessage {
            room_id: "!room:a.org".to_string(),
            sender: sender.to_string(),
            body: body.to_string(),
            timestamp: 1,
            event_id: Some(format!("${body}")),
        },
    });
}

fn open(app: &mut AvernusApp, key: &str) {
    app.act(Action::OpenSidebar { key: key.to_string() });
}

fn labels(items: &Vec<MenuItem>) -> Vec<&str> {
    items.iter().map(|item| item.label.as_str()).collect()
}

fn found() -> MatrixBackend {
    let mut backend = backend();
    backend.public_rooms = vec![
        PublicRoomSearchResult {
            room_id: "!room:a.org".to_string(),
            name: None,
            topic: Some("Talk".to_string()),
            alias: Some("#room:a.org".to_string()),
        },
        PublicRoomSearchResult {
            room_id: "!new:a.org".to_string(),
            name: None,
            topic: None,
            alias: None,
        },
    ];
    backend
}

#[test]
fn a_blank_window_shows_the_menus() {
    let mut app = AvernusApp::new();
    app.joined_spaces = vec![Space {
        id: "s1".to_string(),
        name: "Space one".to_string(),
        icon: "icons/folder.svg".to_string(),
    }];
    assert!(app.can_render(&backend()));
    let screen = app.render(&backend());
    assert_eq!(labels(&screen.main_menu), vec!["Direct Messages", "Rooms"]);
    assert_eq!(labels(&screen.spaces_menu), vec!["Discover", "Space one"]);
    assert_eq!(screen.settings_item.label, "Settings");
    assert_eq!(screen.spaces_menu[1].icon.as_deref(), Some("icons/folder.svg"));
    assert!(matches!(&screen.spaces_menu[1].action, Some(Action::OpenSidebar { key }) if key == "Space: s1"));
    assert!(screen.secondary.is_none());
    assert!(matches!(screen.content, Content::Empty));
    assert!(screen.details.is_none());
    assert!(screen.modal.is_none());
}

#[test]
fn each_room_is_listed_in_its_sidebar() {
    let mut app = AvernusApp::new();
    let backend = backend();
    open(&mut app, "Direct Messages");
    let secondary = app.render(&backend).secondary.unwrap();
    assert_eq!(secondary.title, "Direct Messages (Offline)");
    assert_eq!(
        labels(&secondary.items),
        vec!["+ Start conversation", "Name of !direct:example.org (!direct:exam...)"]
    );
    assert!(matches!(&secondary.items[1].action, Some(Action::SelectRoom { room_id }) if room_id == "!direct:example.org"));
    assert!(matches!(&secondary.items[1].leave, Some(Action::LeaveRoom { room_id }) if room_id == "!direct:example.org"));
    open(&mut app, "Rooms");
    let secondary = app.render(&backend).secondary.unwrap();
    assert_eq!(labels(&secondary.items), vec!["+ New room", "Name of !room:a.org (!room:a.org)"]);
}

#[test]
fn lists_without_rooms_are_loading() {
    let mut app = AvernusApp::new();
    let backend = MatrixBackend::new();
    open(&mut app, "Direct Messages");
    let secondary = app.render(&backend).secondary.unwrap();
    assert_eq!(labels(&secondary.items), vec!["+ Start conversation", "Loading chats..."]);
    assert!(secondary.items[1].action.is_none());
    open(&mut app, "Rooms");
    let secondary = app.render(&backend).secondary.unwrap();
    assert_eq!(labels(&secondary.items), vec!["+ New room", "Loading rooms..."]);
    open(&mut app, "Space: s1");
    let secondary = app.render(&backend).secondary.unwrap();
    assert_eq!(secondary.title, "Space: s1 (Offline)");
    assert!(secondary.items.is_empty());
}

#[test]
fn the_settings_show_the_status() {
    let mut app = AvernusApp::new();
    open(&mut app, "Settings");
    let screen = app.render(&backend());
    let secondary = screen.secondary.unwrap();
    assert_eq!(secondary.title, "Settings");
    assert_eq!(labels(&secondary.items), vec!["Account Sign In"]);
    assert!(matches!(screen.content, Content::Settings { status } if status == "Logged in status: Offline"));
}

#[test]
fn the_discover_panel_lists_public_rooms() {
    let mut app = AvernusApp::new();
    open(&mut app, "Space: Discover");
    let screen = app.render(&found());
    assert!(screen.secondary.is_none());
    match screen.content {
        Content::Discover { pane } => {
            assert_eq!(pane.placeholder, "Search public rooms or paste #room:server");
            assert!(pane.notice.is_none());
            assert_eq!(pane.rooms[0].title, "#room:a.org");
            assert_eq!(pane.rooms[0].topic, "Talk");
            assert_eq!(pane.rooms[0].button, "Joined");
            assert_eq!(pane.rooms[1].title, "Public room");
            assert_eq!(pane.rooms[1].topic, "No description");
            assert_eq!(pane.rooms[1].alias, "!new:a.org");
            assert_eq!(pane.rooms[1].button, "Join");
        }
        _ => panic!("no panel"),
    }
    match app.render(&backend()).content {
        Content::Discover { pane } => {
            assert_eq!(pane.notice.as_deref(), Some("Search by room name, topic, or keyword."))
        }
        _ => panic!("no panel"),
    }
}

#[test]
fn a_room_scrolls_once_for_new_messages() {
    let mut app = AvernusApp::new();
    let mut backend = backend();
    app.act(Action::SelectRoom { room_id: "!room:a.org".to_string() });
    let pane = |app: &mut AvernusApp, backend: &MatrixBackend| match app.render(backend).content {
        Content::Room { pane } => pane,
        _ => panic!("no room"),
    };
    let empty = pane(&mut app, &backend);
    assert_eq!(empty.title, "Name of !room:a.org (!room:a.org)");
    assert_eq!(empty.notice.as_deref(), Some("No messages in this room yet."));
    assert!(!empty.scroll_to_bottom);
    say(&mut backend, "@bob:a.org", "hi");
    say(&mut backend, "you", "hello");
    let full = pane(&mut app, &backend);
    assert!(full.scroll_to_bottom);
    assert!(full.notice.is_none());
    assert_eq!(full.messages[0].sender.as_deref(), Some("@bob:a.org"));
    assert_eq!(full.messages[1].sender, None);
    assert_eq!(full.messages[1].body, "hello");
    assert!(!pane(&mut app, &backend).scroll_to_bottom);
    assert_eq!(app.last_message_count.get("!room:a.org"), Some(2));
}

#[test]
fn an_unknown_room_is_named_by_its_id() {
    let mut app = AvernusApp::new();
    app.act(Action::SelectRoom { room_id: "!x".to_string() });
    match app.render(&backend()).content {
        Content::Room { pane } => assert_eq!(pane.title, "!x (!x)"),
        _ => panic!("no room"),
    }
}

#[test]
fn an_id_that_cannot_be_cut_cannot_be_drawn() {
    let mut app = AvernusApp::new();
    app.act(Action::SelectRoom { room_id: "!ééééééé".to_string() });
    assert!(!app.can_render(&backend()));
    open(&mut app, "Settings");
    assert!(app.can_render(&backend()));
    let mut backend = backend();
    backend.rooms.push(room("!ééééééé", true));
    open(&mut app, "Direct Messages");
    assert!(!app.can_render(&backend));
    open(&mut app, "Rooms");
    assert!(app.can_render(&backend));
}

#[test]
fn details_are_shown_of_an_open_room() {
    let mut app = AvernusApp::new();
    app.act(Action::ToggleDetails);
    assert!(app.render(&backend()).details.is_none());
    app.act(Action::SelectRoom { room_id: "!room:a.org".to_string() });
    match app.render(&backend()).details {
        Some(DetailsPane::Members { heading, members }) => {
            assert_eq!(heading, "Room Members");
            assert_eq!(members[0].name, "Active User");
            assert_eq!(members[0].role, "Member");
            assert!(members[0].is_online);
        }
        _ => panic!("no members"),
    }
    app.act(Action::SelectTab { tab: RoomDetailsTab::Details });
    match app.render(&backend()).details {
        Some(DetailsPane::Details { heading, text }) => {
            assert_eq!(heading, "ENCRYPTION");
            assert_eq!(text, "🔒 End-to-End Encrypted");
        }
        _ => panic!("no details"),
    }
    app.act(Action::CloseDetails);
    assert!(app.render(&backend()).details.is_none());
    app.act(Action::ToggleDetails);
    app.act(Action::ToggleDetails);
    assert!(!app.show_room_details);
}

#[test]
fn a_verification_goes_before_a_dialog() {
    let mut app = AvernusApp::new();
    let mut backend = found();
    app.act(Action::OpenDialog { dialog: DialogType::DiscoverAndJoin });
    match app.render(&backend).modal {
        Some(Modal::Dialog { pane }) => {
            assert_eq!(pane.title, "Discover / Join Room or Space");
            assert_eq!(pane.submit, "Search");
            assert!(pane.notice.is_none());
            assert_eq!(pane.results[0].label, "#room:a.org");
            assert!(matches!(&pane.results[1].action, Action::JoinFound { room } if room == "!new:a.org"));
        }
        _ => panic!("no dialog"),
    }
    backend.apply_event(MatrixBridgeEvent::VerificationChallenge {
        generation: 0,
        user_id: "@a:b".to_string(),
        flow_id: "f".to_string(),
        emojis: vec![VerificationEmoji { symbol: "🦊".to_string(), description: "Fox".to_string() }],
    });
    match app.render(&backend).modal {
        Some(Modal::Verification { pane: VerificationPane::Challenge { title, emojis, confirm, .. } }) => {
            assert_eq!(title, "Verify this device");
            assert_eq!(emojis[0].number, 1);
            assert_eq!(emojis[0].description, "Fox");
            assert!(matches!(confirm, Action::ConfirmEmoji { flow_id, .. } if flow_id == "f"));
        }
        _ => panic!("no verification"),
    }
}

#[test]
fn a_verification_that_is_not_there_can_be_closed() {
    let app = AvernusApp::new();
    match app.render_verification_challenge_modal(&backend()) {
        VerificationPane::Unavailable { title, text, close } => {
            assert_eq!(title, "Verify device");
            assert_eq!(text, "Verification challenge is unavailable.");
            assert!(matches!(close, Action::DismissVerification));
        }
        _ => panic!("a challenge"),
    }
}

#[test]
fn each_dialog_has_its_words() {
    let mut app = AvernusApp::new();
    for (dialog, title, submit) in [
        (DialogType::StartConversation, "Start Conversation", "Start Chat"),
        (DialogType::NewRoom, "Create New Room", "Create Room"),
        (DialogType::DiscoverAndJoin, "Discover / Join Room or Space", "Search"),
        (DialogType::AccountSignIn, "Sign In with Matrix", "Open Browser to Sign In"),
    ] {
        app.act(Action::OpenDialog { dialog });
        let pane = app.render_modal_dialog(&backend());
        assert_eq!(pane.title, title);
        assert_eq!(pane.submit, submit);
        assert_eq!(pane.notice.is_some(), dialog == DialogType::DiscoverAndJoin);
    }
    app.act(Action::CancelDialog);
    assert_eq!(app.active_dialog, None);
    assert_eq!(app.render_modal_dialog(&backend()).title, "");
}

#[test]
fn a_dialog_asks_for_what_was_typed() {
    let submit = |dialog, text: &str| {
        let mut app = AvernusApp::new();
        app.act(Action::OpenDialog { dialog });
        let outcome = app.act(Action::SubmitDialog { text: text.to_string() });
        (outcome.request, app.active_dialog)
    };
    let (request, dialog) = submit(DialogType::StartConversation, " @a:b ");
    assert!(matches!(request, Some(Request::CreateDirectChat { user_id }) if user_id == "@a:b"));
    assert_eq!(dialog, None);
    let (request, dialog) = submit(DialogType::NewRoom, "News");
    assert!(matches!(request, Some(Request::CreateRoom { name }) if name == "News"));
    assert_eq!(dialog, None);
    let (request, dialog) = submit(DialogType::DiscoverAndJoin, "rust");
    assert!(matches!(request, Some(Request::Search { query }) if query == "rust"));
    assert_eq!(dialog, Some(DialogType::DiscoverAndJoin));
    for text in ["#a:b", "!a:b", "http://a", "https://a"] {
        let (request, _) = submit(DialogType::DiscoverAndJoin, text);
        assert!(matches!(request, Some(Request::Join { room }) if room == text));
    }
    let (request, dialog) = submit(DialogType::AccountSignIn, "matrix.org");
    assert!(matches!(request, Some(Request::LogInWithBrowser { homeserver }) if homeserver == "https://matrix.org"));
    assert_eq!(dialog, None);
    let (request, _) = submit(DialogType::AccountSignIn, "http://a");
    assert!(matches!(request, Some(Request::LogInWithBrowser { homeserver }) if homeserver == "http://a"));
    let (request, dialog) = submit(DialogType::NewRoom, "  ");
    assert!(request.is_none());
    assert_eq!(dialog, None);
}

#[test]
fn a_message_goes_to_the_open_room() {
    let mut app = AvernusApp::new();
    let outcome = app.act(Action::SubmitMessage { text: "hi".to_string() });
    assert!(outcome.request.is_none() && !outcome.clear_input);
    app.act(Action::SelectRoom { room_id: "!r".to_string() });
    let outcome = app.act(Action::SubmitMessage { text: " hi ".to_string() });
    assert!(outcome.clear_input);
    assert!(matches!(outcome.request, Some(Request::SendMessage { room_id, text }) if room_id == "!r" && text == "hi"));
    let outcome = app.act(Action::SubmitMessage { text: " ".to_string() });
    assert!(outcome.request.is_none() && !outcome.clear_input);
}

#[test]
fn a_file_goes_to_the_open_room() {
    let mut app = AvernusApp::new();
    assert!(app.act(Action::AttachFile { text: String::new() }).request.is_none());
    app.act(Action::SelectRoom { room_id: "!r".to_string() });
    let outcome = app.act(Action::AttachFile { text: " look ".to_string() });
    assert!(outcome.clear_input);
    assert!(matches!(outcome.request, Some(Request::SendAttachment { caption: Some(caption), .. }) if caption == "look"));
    let outcome = app.act(Action::AttachFile { text: " ".to_string() });
    assert!(matches!(outcome.request, Some(Request::SendAttachment { caption: None, .. })));
}

#[test]
fn the_discover_panel_searches_only_while_it_is_open() {
    let mut app = AvernusApp::new();
    assert!(app.act(Action::SubmitSearch { text: "rust".to_string() }).request.is_none());
    open(&mut app, "Space: Discover");
    assert!(matches!(
        app.act(Action::SubmitSearch { text: "rust".to_string() }).request,
        Some(Request::Search { .. })
    ));
    assert!(matches!(
        app.act(Action::SubmitSearch { text: "#a:b".to_string() }).request,
        Some(Request::Join { .. })
    ));
    assert!(app.act(Action::SubmitSearch { text: " ".to_string() }).request.is_none());
}

#[test]
fn a_login_needs_a_name_and_a_password() {
    let mut app = AvernusApp::new();
    let mut log_in = |username: &str, password: &str| {
        app.act(Action::LogIn { username: username.to_string(), password: password.to_string() })
            .request
    };
    assert!(matches!(log_in(" a ", " b "), Some(Request::LogIn { username, password }) if username == "a" && password == "b"));
    assert!(log_in("a", " ").is_none());
    assert!(log_in("", "b").is_none());
}

#[test]
fn actions_change_the_window() {
    let mut app = AvernusApp::new();
    app.act(Action::SelectRoom { room_id: "!r".to_string() });
    open(&mut app, "Rooms");
    assert_eq!(app.active_item, None);
    app.act(Action::SelectRoom { room_id: "!r".to_string() });
    assert!(matches!(
        app.act(Action::LeaveRoom { room_id: "!r".to_string() }).request,
        Some(Request::Leave { .. })
    ));
    assert_eq!(app.active_item.as_deref(), Some("!r"));
    app.act(Action::OpenDialog { dialog: DialogType::DiscoverAndJoin });
    assert!(matches!(
        app.act(Action::JoinFound { room: "#a:b".to_string() }).request,
        Some(Request::Join { .. })
    ));
    assert_eq!(app.active_dialog, None);
    app.act(Action::JoinListed { room: "#a:b".to_string() });
    assert_eq!(app.active_sidebar.as_deref(), Some("Space: Discover"));
    app.act(Action::OpenDialog { dialog: DialogType::NewRoom });
    assert!(matches!(app.act(Action::LogOut).request, Some(Request::LogOut)));
    assert_eq!(app.active_sidebar.as_deref(), Some("Settings"));
    assert_eq!(app.active_item, None);
    assert_eq!(app.active_dialog, None);
    app.act(Action::OpenDialog { dialog: DialogType::NewRoom });
    assert!(matches!(
        app.act(Action::LogInWithBrowser { homeserver: "https://a".to_string() }).request,
        Some(Request::LogInWithBrowser { .. })
    ));
    assert_eq!(app.active_dialog, None);
    assert!(matches!(app.act(Action::VerifySession).request, Some(Request::VerifySession)));
    assert!(matches!(app.act(Action::ResetEncryption).request, Some(Request::ResetEncryption)));
    let ids = || ("@a:b".to_string(), "f".to_string());
    let (user_id, flow_id) = ids();
    assert!(matches!(
        app.act(Action::ConfirmEmoji { user_id, flow_id }).request,
        Some(Request::ConfirmVerification { .. })
    ));
    let (user_id, flow_id) = ids();
    assert!(matches!(
        app.act(Action::RejectEmoji { user_id, flow_id }).request,
        Some(Request::RejectVerification { .. })
    ));
    assert!(matches!(
        app.act(Action::DismissVerification).request,
        Some(Request::DismissVerification)
    ));
}

#[test]
fn spaces_are_equal_by_their_parts() {
    let space = |id: &str| Space {
        id: id.to_string(),
        name: "n".to_string(),
        icon: "i".to_string(),
    };
    assert!(space("a") == space("a").clone());
    assert!(space("a") != space("b"));
    assert_eq!(format!("{:?}", space("a")), r#"Space { id: "a", name: "n", icon: "i" }"#);
}

#[test]
fn room_counts_are_kept_per_room() {
    let mut counts = RoomCounts::new();
    assert_eq!(counts.get("a"), None);
    counts.insert("a", 1);
    counts.insert("b", 2);
    counts.insert("a", 3);
    assert_eq!(counts.get("a"), Some(3));
    assert_eq!(counts.get("b"), Some(2));
}

#[test]
fn the_program_begins_with_the_account_that_is_set_up() {
    let text = |s: &str| Some(s.to_string());
    let begun = startup(None, text("bob"), text("pw"), false);
    assert!(matches!(begun.request, Request::LogIn { username, password } if username == "bob" && password == "pw"));
    assert!(!begun.hint);
    let begun = startup(text(""), text("bob"), text("pw"), false);
    assert!(matches!(begun.request, Request::Restore));
    assert!(begun.hint);
    let begun = startup(text("alice"), None, None, true);
    assert!(matches!(begun.request, Request::Restore));
    assert!(!begun.hint);
    assert_eq!(homeserver_setting(None, None), "https://matrix.org");
    assert_eq!(homeserver_setting(None, text("b")), "b");
    assert_eq!(homeserver_setting(text("a"), text("b")), "a");
}
