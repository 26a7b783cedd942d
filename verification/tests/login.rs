use avernus::matrix::login::{Login, LoginFlow, LoginPhase};
use avernus::matrix::protocol::{Command, Reply, StopReason};
use avernus::matrix::rooms::JoinedRoom;
use avernus::matrix::session::SavedSession;
use avernus::matrix::types::MatrixBridgeEvent;
use avernus::matrix::MatrixBackend;

const STALE: &str =
    "Matrix device trust state was stale; please log in again to reset the encryption session.";
const OTHER: &str = "crypto: the account in the store doesn't match the account in the constructor";

fn ok() -> Reply {
    Reply::Outcome { result: Ok(()) }
}

fn failed(error: &str) -> Reply {
    Reply::Outcome { result: Err(error.to_string()) }
}

fn flag(yes: bool) -> Reply {
    Reply::Flag { yes }
}

fn generation(current: u64) -> Reply {
    Reply::Generation { current }
}

fn rooms() -> Reply {
    Reply::Rooms {
        rooms: vec![JoinedRoom {
            room_id: "!a".to_string(),
            display_name: None,
            is_direct: Some(true),
        }],
    }
}

fn described(steps: &Vec<Command>) -> Vec<String> {
    steps
        .iter()
        .map(|step| match step {
            Command::ReadSessionFile => "read session file".to_string(),
            Command::BuildClient { server_name } => format!("build at {server_name}"),
            Command::ResetStore => "reset store".to_string(),
            Command::ClearSession => "clear session".to_string(),
            Command::SetSessionCallbacks => "set callbacks".to_string(),
            Command::RestoreSession { session } => format!("restore {}", session.user_id),
            Command::AskLoggedIn => "logged in?".to_string(),
            Command::LogIn { localpart, password, device_name } => {
                format!("log in {localpart} {password} {device_name}")
            }
            Command::LogInWithBrowser { device_name } => format!("browser {device_name}"),
            Command::AskCrossSigning => "cross-signing?".to_string(),
            Command::BootstrapCrossSigning => "bootstrap".to_string(),
            Command::LogOut => "log out".to_string(),
            Command::HandleVerificationRequests => "handle requests".to_string(),
            Command::PersistSession => "persist".to_string(),
            Command::KeepClient => "keep client".to_string(),
            Command::ListenForMessages { in_seconds } => format!("listen {in_seconds}"),
            Command::ReadGeneration => "generation?".to_string(),
            Command::CollectRooms => "collect rooms".to_string(),
            Command::Emit { event } => match event {
                MatrixBridgeEvent::Connected { generation } => format!("connected {generation}"),
                MatrixBridgeEvent::SyncRooms { generation, rooms } => {
                    format!("rooms {generation} {}", rooms.len())
                }
                MatrixBridgeEvent::ConnectionFailed { generation, error } => {
                    format!("failed {generation} {error}")
                }
                _ => "other event".to_string(),
            },
            Command::SyncOnce => "sync".to_string(),
            Command::Sleep { seconds } => format!("sleep {seconds}"),
            Command::Stop { reason } => format!("stop {reason:?}"),
            _ => "other".to_string(),
        })
        .collect()
}

fn session_text() -> String {
    MatrixBackend::persist_session(Some(SavedSession {
        user_id: "@alice:example.org".to_string(),
        device_id: "DEVICE".to_string(),
        access_token: "token".to_string(),
        refresh_token: None,
    }))
    .unwrap()
}

fn trusted_password_flow() -> (LoginFlow, Vec<Command>) {
    let (mut flow, _) = LoginFlow::with_password(4, "@alice:example.org", "secret".to_string());
    flow.step(ok());
    flow.step(flag(true));
    let steps = flow.step(flag(false));
    (flow, steps)
}

#[test]
fn a_password_login_runs_to_a_synced_session() {
    let (mut flow, steps) =
        LoginFlow::with_password(4, "@alice:example.org", "secret".to_string());
    assert_eq!(described(&steps), vec!["build at example.org"]);
    assert_eq!(described(&flow.step(ok())), vec!["set callbacks", "logged in?"]);
    assert_eq!(described(&flow.step(flag(false))), vec!["log in alice secret Avernus GPUI"]);
    assert_eq!(described(&flow.step(ok())), vec!["logged in?"]);
    assert_eq!(described(&flow.step(flag(true))), vec!["cross-signing?"]);
    assert_eq!(
        described(&flow.step(flag(true))),
        vec!["handle requests", "persist", "listen false", "keep client", "generation?"]
    );
    assert_eq!(described(&flow.step(generation(4))), vec!["collect rooms"]);
    assert_eq!(described(&flow.step(rooms())), vec!["generation?"]);
    assert_eq!(
        described(&flow.step(generation(4))),
        vec!["rooms 4 1", "connected 4", "generation?"]
    );
    assert_eq!(described(&flow.step(generation(4))), vec!["sync"]);
    assert_eq!(described(&flow.step(flag(false))), vec!["sleep 5", "generation?"]);
    assert_eq!(described(&flow.step(generation(4))), vec!["sync"]);
    assert_eq!(described(&flow.step(flag(true))), vec!["collect rooms"]);
    assert_eq!(described(&flow.step(rooms())), vec!["generation?"]);
    assert_eq!(described(&flow.step(generation(4))), vec!["rooms 4 1", "generation?"]);
    assert_eq!(described(&flow.step(generation(5))), vec!["stop Superseded"]);
    assert!(matches!(flow.phase, LoginPhase::Stopped));
}

#[test]
fn a_client_that_is_logged_in_does_not_log_in_again() {
    let (mut flow, _) = LoginFlow::with_password(4, "alice", "secret".to_string());
    flow.step(ok());
    assert_eq!(described(&flow.step(flag(true))), vec!["logged in?"]);
}

#[test]
fn a_restored_session_is_set_up_from_the_file() {
    let (mut flow, steps) = LoginFlow::restore(2);
    assert_eq!(described(&steps), vec!["read session file"]);
    assert_eq!(
        described(&flow.step(Reply::Text { text: Some(session_text()) })),
        vec!["build at example.org"]
    );
    assert_eq!(
        described(&flow.step(ok())),
        vec!["set callbacks", "restore @alice:example.org"]
    );
    assert_eq!(described(&flow.step(ok())), vec!["logged in?"]);
    assert_eq!(
        described(&flow.step(flag(false))),
        vec!["handle requests", "persist", "keep client", "listen true", "generation?"]
    );
    assert!(matches!(flow.login, Login::Restored));
}

#[test]
fn without_a_saved_session_nothing_happens() {
    for text in [None, Some("{}".to_string())] {
        let (mut flow, _) = LoginFlow::restore(2);
        assert_eq!(described(&flow.step(Reply::Text { text })), vec!["stop NoSession"]);
    }
}

#[test]
fn a_stale_saved_session_is_cleared() {
    let (mut flow, _) = LoginFlow::restore(2);
    flow.step(Reply::Text { text: Some(session_text()) });
    flow.step(ok());
    assert_eq!(
        described(&flow.step(failed("gone"))),
        vec![
            "clear session",
            "failed 2 Saved Matrix session is stale or invalid: gone",
            "stop ConnectionFailed",
        ]
    );
}

#[test]
fn a_restored_session_never_resets_the_store() {
    let (mut flow, _) = LoginFlow::restore(2);
    flow.step(Reply::Text { text: Some(session_text()) });
    assert_eq!(
        described(&flow.step(failed(OTHER))),
        vec![format!("failed 2 {OTHER}"), "stop ConnectionFailed".to_string()]
    );
}

#[test]
fn the_store_of_another_account_is_reset_once() {
    let (mut flow, _) = LoginFlow::with_browser(3, "https://example.org/");
    assert_eq!(
        described(&flow.step(failed(OTHER))),
        vec!["reset store", "build at example.org"]
    );
    assert_eq!(
        described(&flow.step(failed(OTHER))),
        vec![format!("failed 3 {OTHER}"), "stop ConnectionFailed".to_string()]
    );
}

#[test]
fn another_failure_does_not_reset_the_store() {
    let (mut flow, _) = LoginFlow::with_password(3, "alice", "secret".to_string());
    assert_eq!(
        described(&flow.step(failed("no route"))),
        vec!["failed 3 no route", "stop ConnectionFailed"]
    );
}

#[test]
fn a_browser_login_opens_the_browser_only_while_it_is_current() {
    let (mut flow, steps) = LoginFlow::with_browser(3, "https://example.org");
    assert_eq!(described(&steps), vec!["build at example.org"]);
    assert_eq!(described(&flow.step(ok())), vec!["set callbacks", "generation?"]);
    assert_eq!(described(&flow.step(generation(3))), vec!["browser Avernus GPUI"]);
    assert_eq!(described(&flow.step(ok())), vec!["logged in?"]);
    assert_eq!(
        described(&flow.step(flag(false))),
        vec!["persist", "keep client", "listen false", "generation?"]
    );
    let (mut flow, _) = LoginFlow::with_browser(3, "https://example.org");
    flow.step(ok());
    assert_eq!(described(&flow.step(generation(4))), vec!["stop Superseded"]);
}

#[test]
fn a_failed_login_is_reported() {
    let (mut flow, _) = LoginFlow::with_password(3, "alice", "secret".to_string());
    flow.step(ok());
    flow.step(flag(false));
    assert_eq!(
        described(&flow.step(failed("wrong password"))),
        vec!["failed 3 wrong password", "stop ConnectionFailed"]
    );
}

#[test]
fn a_login_that_names_no_account_fails_at_once() {
    let (_, steps) = LoginFlow::with_password(3, "@alice", "secret".to_string());
    assert_eq!(
        described(&steps),
        vec![
            "failed 3 Invalid user ID format: required colon is missing",
            "stop ConnectionFailed",
        ]
    );
    let (_, steps) = LoginFlow::with_browser(3, "http://");
    assert_eq!(
        described(&steps),
        vec![
            "failed 3 Invalid homeserver URL. Use https://matrix.org or another Matrix server.",
            "stop ConnectionFailed",
        ]
    );
}

#[test]
fn a_device_that_cannot_be_trusted_undoes_the_login() {
    let (mut flow, _) = LoginFlow::with_password(3, "alice", "secret".to_string());
    flow.step(ok());
    flow.step(flag(true));
    flow.step(flag(true));
    assert_eq!(described(&flow.step(flag(false))), vec!["bootstrap"]);
    assert_eq!(
        described(&flow.step(flag(false))),
        vec![
            "log out".to_string(),
            "clear session".to_string(),
            format!("failed 3 {STALE}"),
            "stop ConnectionFailed".to_string(),
        ]
    );
}

#[test]
fn cross_signing_that_can_be_set_up_is_enough() {
    let (mut flow, _) = LoginFlow::with_password(3, "alice", "secret".to_string());
    flow.step(ok());
    flow.step(flag(true));
    flow.step(flag(true));
    flow.step(flag(false));
    assert_eq!(flow.step(flag(true)).len(), 5);
    assert!(matches!(flow.phase, LoginPhase::RoomsGate));
}

#[test]
fn every_gate_ends_an_outdated_session() {
    let (mut flow, _) = trusted_password_flow();
    assert_eq!(described(&flow.step(generation(5))), vec!["stop Superseded"]);
    let (mut flow, _) = trusted_password_flow();
    flow.step(generation(4));
    flow.step(rooms());
    assert_eq!(described(&flow.step(generation(5))), vec!["stop Superseded"]);
}

#[test]
fn an_answer_to_another_question_ends_the_session() {
    let (mut flow, _) = trusted_password_flow();
    let steps = flow.step(flag(true));
    assert!(matches!(steps[0], Command::Stop { reason: StopReason::Unexpected }));
    let steps = flow.step(ok());
    assert_eq!(steps.len(), 1);
    assert!(matches!(flow.phase, LoginPhase::Stopped));
}
