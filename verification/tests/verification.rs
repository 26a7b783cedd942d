use avernus::matrix::types::{MatrixBridgeEvent, VerificationEmoji};
use avernus::matrix::verification::{SasState, TrustQuestion, TrustStep};
use avernus::matrix::MatrixBackend;

fn fox() -> Vec<VerificationEmoji> {
    vec![VerificationEmoji { symbol: "🦊".to_string(), description: "Fox".to_string() }]
}

#[test]
fn ensure_cross_signing_bootstrapped_skips_logged_out_clients() {
    let runtime = tokio::runtime::Builder::new_current_thread().enable_all().build().unwrap();
    let client = runtime
        .block_on(matrix_sdk::Client::builder().homeserver_url("https://matrix.org").build())
        .expect("client should build without a live session");

    assert_eq!(
        MatrixBackend::ensure_cross_signing_bootstrapped(
            TrustQuestion::LoggedIn,
            client.matrix_auth().logged_in()
        ),
        TrustStep::Trusted
    );
}

#[test]
fn a_device_is_trusted_unless_cross_signing_cannot_be_set_up() {
    for logged_in in [false, true] {
        for complete in [false, true] {
            for bootstrapped in [false, true] {
                let mut question = TrustQuestion::LoggedIn;
                let verdict = loop {
                    let yes = match question {
                        TrustQuestion::LoggedIn => logged_in,
                        TrustQuestion::Complete => complete,
                        TrustQuestion::Bootstrapped => bootstrapped,
                    };
                    match MatrixBackend::ensure_cross_signing_bootstrapped(question, yes) {
                        TrustStep::Ask { question: next } => question = next,
                        verdict => break verdict,
                    }
                };
                let trusted = !logged_in || complete || bootstrapped;
                assert_eq!(verdict == TrustStep::Trusted, trusted);
                assert_eq!(verdict == TrustStep::Untrusted, !trusted);
            }
        }
    }
}

#[test]
fn emoji_make_a_challenge() {
    match MatrixBackend::emit_sas_challenge(5, "@a:b", "f", Some(fox())) {
        Some(MatrixBridgeEvent::VerificationChallenge { generation, user_id, flow_id, emojis }) => {
            assert_eq!(generation, 5);
            assert_eq!(user_id, "@a:b");
            assert_eq!(flow_id, "f");
            assert_eq!(emojis, fox());
        }
        _ => panic!("no challenge"),
    }
    assert!(MatrixBackend::emit_sas_challenge(5, "@a:b", "f", None).is_none());
}

#[test]
fn a_watch_ends_with_the_emoji_or_the_comparison() {
    let turn = |first, state| MatrixBackend::wait_for_sas_challenge(5, "@a:b", "f", first, state);
    for first in [true, false] {
        let known = turn(first, SasState::KeysExchanged { emojis: Some(fox()) });
        assert!(known.over && known.event.is_some());
        let hidden = turn(first, SasState::KeysExchanged { emojis: None });
        assert!(hidden.over && hidden.event.is_none());
        assert_eq!(turn(first, SasState::Cancelled).over, !first);
        assert_eq!(turn(first, SasState::Done).over, !first);
        let waiting = turn(first, SasState::Other);
        assert!(!waiting.over && waiting.event.is_none());
    }
}
