use avernus::matrix::session::{SavedSession, StoreStep};
use avernus::matrix::MatrixBackend;

fn session(refresh_token: Option<&str>) -> SavedSession {
    SavedSession {
        user_id: "@alice:example.org".to_string(),
        device_id: "DEVICE".to_string(),
        access_token: "opaque \"quoted\"\n".to_string(),
        refresh_token: refresh_token.map(|token| token.to_string()),
    }
}

fn described(steps: Vec<StoreStep>) -> Vec<String> {
    steps
        .into_iter()
        .map(|step| match step {
            StoreStep::RemoveDir { path } => format!("remove dir {path}"),
            StoreStep::RemoveFile { path } => format!("remove file {path}"),
            StoreStep::CreateDir { path } => format!("create dir {path}"),
        })
        .collect()
}

#[test]
fn a_session_is_read_back_as_it_was_written() {
    for token in [None, Some("refresh")] {
        let text = MatrixBackend::persist_session(Some(session(token))).unwrap();
        let read = MatrixBackend::load_session(Some(text.clone())).unwrap();
        assert_eq!(read.user_id, "@alice:example.org");
        assert_eq!(read.device_id, "DEVICE");
        assert_eq!(read.access_token, "opaque \"quoted\"\n");
        assert_eq!(read.refresh_token.as_deref(), token);
        let tokens = MatrixBackend::reload_tokens(&text).ok().unwrap();
        assert_eq!(tokens.access_token, "opaque \"quoted\"\n");
        assert_eq!(tokens.refresh_token.as_deref(), token);
    }
}

#[test]
fn a_session_is_written_as_json() {
    let text = MatrixBackend::persist_session(Some(session(None))).unwrap();
    let value: serde_json::Value = serde_json::from_str(&text).unwrap();
    assert_eq!(value["user_id"], "@alice:example.org");
    assert_eq!(value["device_id"], "DEVICE");
    assert_eq!(value.get("refresh_token"), None);
}

#[test]
fn there_is_nothing_to_persist_without_a_session() {
    assert_eq!(
        MatrixBackend::persist_session(None),
        Err("No active Matrix session to persist".to_string())
    );
}

#[test]
fn a_session_needs_a_valid_user_id() {
    let mut broken = session(None);
    broken.user_id = "alice".to_string();
    assert_eq!(
        MatrixBackend::persist_session(Some(broken)),
        Err("leading sigil is incorrect or missing".to_string())
    );
}

#[test]
fn an_unreadable_session_is_none() {
    assert!(MatrixBackend::load_session(None).is_none());
    assert!(MatrixBackend::load_session(Some("{}".to_string())).is_none());
    let error = MatrixBackend::reload_tokens("{").err().unwrap();
    assert!(error.contains("EOF"));
}

#[test]
fn the_session_file_lies_in_the_store() {
    assert_eq!(MatrixBackend::store_dir_path(), "./avernus_matrix_store");
    assert_eq!(MatrixBackend::session_file_path(), "./avernus_matrix_store/session.json");
}

#[test]
fn clearing_makes_the_store_anew() {
    assert_eq!(
        described(MatrixBackend::clear_session_state(true)),
        vec![
            "remove dir ./avernus_matrix_store",
            "remove file ./avernus_matrix_store/session.json",
            "create dir ./avernus_matrix_store",
        ]
    );
    assert_eq!(MatrixBackend::clear_session_state(false).len(), 2);
}

#[test]
fn resetting_makes_the_store_anew() {
    assert_eq!(
        described(MatrixBackend::reset_store_for_account("./avernus_matrix_store", true)),
        vec![
            "remove dir ./avernus_matrix_store",
            "create dir ./avernus_matrix_store",
            "remove file ./avernus_matrix_store/session.json",
        ]
    );
    assert_eq!(
        described(MatrixBackend::reset_store_for_account("elsewhere", false)),
        vec!["create dir elsewhere", "remove file ./avernus_matrix_store/session.json"]
    );
}
