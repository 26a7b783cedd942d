use avernus::matrix::identifiers::{
    is_room_id, is_room_or_alias_id, is_user_id, login_identity, login_identity_from,
    name_of_homeserver, normalize_room_alias, sso_server_name, sso_server_name_from,
    user_id_for_login,
};

fn identity(input: &str) -> (String, String) {
    match login_identity(input) {
        Ok(identity) => (identity.server_name, identity.localpart),
        Err(error) => panic!("{error}"),
    }
}

fn refusal(input: &str) -> String {
    match login_identity(input) {
        Ok(_) => panic!("taken"),
        Err(error) => error,
    }
}

#[test]
fn a_bare_name_logs_in_at_matrix_org() {
    assert_eq!(identity("alice"), ("matrix.org".to_string(), "alice".to_string()));
    assert_eq!(user_id_for_login("alice"), "@alice:matrix.org");
}

#[test]
fn a_user_id_logs_in_at_its_server() {
    assert_eq!(
        identity("@alice:example.org:8448"),
        ("example.org:8448".to_string(), "alice".to_string())
    );
    assert_eq!(identity("@bob:[::1]"), ("[::1]".to_string(), "bob".to_string()));
    assert_eq!(user_id_for_login("@bob:example.org"), "@bob:example.org");
}

#[test]
fn a_refused_login_says_why() {
    assert_eq!(refusal("@alice"), "Invalid user ID format: required colon is missing");
    assert_eq!(
        refusal("@alice:exa mple"),
        "Invalid user ID format: server name is not a valid IP address or domain name"
    );
    assert_eq!(
        refusal("@al\0ice:example.org"),
        "Invalid user ID format: identifier contains invalid characters"
    );
    assert_eq!(
        refusal("alice:example.org"),
        "Invalid username format: server name is not a valid IP address or domain name"
    );
    assert_eq!(
        refusal("al\0ice"),
        "Invalid username format: identifier contains invalid characters"
    );
}

#[test]
fn a_login_follows_what_its_user_id_parses_to() {
    let taken = login_identity_from("@alice:example.org", Ok(())).ok().unwrap();
    assert_eq!(taken.server_name, "example.org");
    assert_eq!(taken.localpart, "alice");
    let refused = login_identity_from("alice", Err("no".to_string())).err().unwrap();
    assert_eq!(refused, "Invalid username format: no");
}

#[test]
fn user_ids_are_checked() {
    assert!(is_user_id("@alice:example.org"));
    assert!(is_user_id("@:example.org"));
    assert!(!is_user_id(""));
    assert!(!is_user_id("alice:example.org"));
    assert!(!is_user_id("@alice:"));
}

#[test]
fn room_ids_are_checked() {
    assert!(is_room_id("!room:example.org"));
    assert!(is_room_id("!room"));
    assert!(!is_room_id("#room:example.org"));
    assert!(!is_room_id("!ro\0om"));
    assert!(!is_room_id(""));
    assert!(is_room_or_alias_id("!room"));
    assert!(is_room_or_alias_id("#room:example.org"));
    assert!(!is_room_or_alias_id("#room"));
    assert!(!is_room_or_alias_id("@room:example.org"));
}

#[test]
fn a_homeserver_url_names_a_server() {
    for url in ["https://matrix.org", "http://matrix.org/", "matrix.org//", "https://http://matrix.org"] {
        assert_eq!(name_of_homeserver(url), "matrix.org");
        assert_eq!(sso_server_name(url), Ok("matrix.org".to_string()));
    }
    assert_eq!(sso_server_name("https://[::1]:80"), Ok("[::1]:80".to_string()));
}

#[test]
fn a_bad_homeserver_url_is_refused() {
    assert_eq!(
        sso_server_name("https://"),
        Err("Invalid homeserver URL. Use https://matrix.org or another Matrix server.".to_string())
    );
    assert_eq!(
        sso_server_name("https://matrix.org/path"),
        Err("Invalid homeserver URL: server name is not a valid IP address or domain name".to_string())
    );
    assert_eq!(
        sso_server_name_from("https://a b", Err("no".to_string())),
        Err("Invalid homeserver URL: no".to_string())
    );
    assert_eq!(sso_server_name_from("https://a", Ok(())), Ok("a".to_string()));
}

#[test]
fn room_aliases_are_completed() {
    for (text, alias) in [
        ("", ""),
        ("  \t", ""),
        (" rust ", "#rust:matrix.org"),
        ("rust.lang", "#rust.lang:matrix.org"),
        ("rust:example.org", "#rust:example.org"),
        ("#rust:example.org", "#rust:example.org"),
        ("!id:example.org", "!id:example.org"),
        ("https://matrix.to/#/#rust:example.org", "#rust:example.org"),
        ("http://matrix.to/#/!id:example.org", "!id:example.org"),
        ("https://matrix.to/#/rust:example.org", "#rust:example.org"),
        ("https://matrix.to/#/", "#"),
        ("https://app.example/#rust:example.org", "#rust:example.org"),
        ("https://app.example/#!id:example.org", "!id:example.org"),
        ("https://app.example/room", "#https://app.example/room"),
    ] {
        assert_eq!(normalize_room_alias(text), alias);
        assert_eq!(normalize_room_alias(alias), alias);
    }
}

#[test]
fn identifiers_may_be_long() {
    let name = "a".repeat(300);
    assert!(is_user_id(&format!("@{name}:example.org")));
    assert!(is_room_id(&format!("!{name}")));
    assert!(is_room_or_alias_id(&format!("#{name}:example.org")));
}

#[test]
fn an_account_makes_up_its_user_id() {
    for id in ["@alice:example.org", "@:a", "@a b:[::1]:80"] {
        let (server_name, localpart) = identity(id);
        assert_eq!(format!("@{localpart}:{server_name}"), id);
    }
}

#[test]
fn a_server_name_has_a_host_and_a_port_or_none() {
    for name in
        ["a", "a.b-c:1", "a:65535", "a:00080", "a:+80", ":80", "1.2.3.4", "[::1]", "[::1]:80", "[1::2]:+0"]
    {
        assert!(is_user_id(&format!("@u:{name}")), "{name}");
        assert_eq!(sso_server_name(name), Ok(name.to_string()));
    }
    for name in
        ["a:", "a:65536", "a:+", "a:++1", "a:-1", "a:8x", "a:1:2", "a_b", "é", "[::1", "[a]", "[]", "[::1]80", "[::1]:", "x[::1]"]
    {
        assert!(!is_user_id(&format!("@u:{name}")), "{name}");
        assert!(sso_server_name(name).is_err(), "{name}");
    }
}

#[test]
fn a_name_with_a_colon_is_no_account() {
    for name in ["alice:example.org", ":", "alice:80", "a:[::1]", "a:[::1]:80", "a:1]"] {
        assert_eq!(
            refusal(name),
            "Invalid username format: server name is not a valid IP address or domain name"
        );
    }
}
