//! The connection lifecycle.
use rocketsocket::model::protocol::{ClientMessage, ServerMessage};
use rocketsocket::realtime::session::{Action, Fatal, Phase, Session};

fn decode(text: &str) -> ServerMessage {
    ServerMessage::parse(text).expect("frame must decode")
}

fn session() -> Session {
    let mut session = Session::new("1");
    assert!(matches!(session.connect(), Action::Send(ClientMessage::Connect { .. })));
    session
}

#[test]
fn the_happy_path_walks_disconnected_to_ready() {
    let mut session = Session::new("1");
    assert_eq!(session.phase(), Phase::Disconnected);

    session.connect();
    assert_eq!(session.phase(), Phase::Handshaking);

    let actions =
        session.handle(&decode(r#"{"msg":"connected","session":"6f8Kf4iAaLQ2sJyN9"}"#));
    assert_eq!(actions, vec![Action::Login]);
    assert_eq!(session.phase(), Phase::Authenticating);
    assert_eq!(session.session_id(), Some("6f8Kf4iAaLQ2sJyN9"));

    session.expect_login("m1");
    let actions = session
        .handle(&decode(r#"{"msg":"result","id":"m1","result":{"id":"u1","token":"tok"}}"#));
    assert_eq!(actions, vec![Action::Resubscribe]);
    assert_eq!(session.phase(), Phase::Ready);
}

#[test]
fn both_greeting_frames_are_ignored_rather_than_disturbing_the_handshake() {
    // Meteor <= 2.2 greeted with a frame that has no `msg` at all; the EE ddp-streamer
    // still sends one tagged `server_id`. Neither is an error and neither is a protocol
    // violation.
    let mut session = session();
    for greeting in [r#"{"server_id":"0"}"#, r#"{"msg":"server_id","server_id":"0"}"#] {
        let actions = session.handle(&decode(greeting));
        assert!(actions.is_empty(), "{greeting} should be ignored");
        assert_eq!(session.phase(), Phase::Handshaking);
    }
}

#[test]
fn a_ping_is_answered_and_echoes_the_id() {
    let mut session = session();
    assert_eq!(
        session.handle(&decode(r#"{"msg":"ping"}"#)),
        vec![Action::Send(ClientMessage::Pong { id: None })]
    );
    assert_eq!(
        session.handle(&decode(r#"{"msg":"ping","id":"h7"}"#)),
        vec![Action::Send(ClientMessage::Pong { id: Some("h7".to_owned()) })]
    );
}

#[test]
fn a_ping_is_answered_even_before_login() {
    // Liveness must not depend on lifecycle: a server whose ping goes unanswered closes
    // the socket, and the handshake would never complete.
    let mut session = Session::new("1");
    assert_eq!(session.phase(), Phase::Disconnected);
    assert_eq!(
        session.handle(&decode(r#"{"msg":"ping"}"#)),
        vec![Action::Send(ClientMessage::Pong { id: None })]
    );
}

#[test]
fn version_negotiation_failure_is_terminal() {
    // The server closes the socket after `failed`; proposing the same version again
    // fails identically, so retrying is a hot loop.
    let mut session = session();
    let actions = session.handle(&decode(r#"{"msg":"failed","version":"1"}"#));
    assert_eq!(
        actions,
        vec![Action::Fatal(Fatal::VersionMismatch {
            version: "1".to_owned(),
            offered: "1".to_owned()
        })]
    );
    assert!(session.is_fatal());
}

#[test]
fn a_dead_resume_token_is_terminal_and_named_as_such() {
    // Both wordings, and note ddp-streamer drops the trailing full stop, which is why
    // the model matches on a substring.
    for reason in [
        "You've been logged out by the server. Please log in again.",
        "You've been logged out by the server. Please log in again",
        "Your session has expired. Please log in again.",
    ] {
        let mut session = session();
        session.handle(&decode(r#"{"msg":"connected","session":"s"}"#));
        session.expect_login("m1");

        let frame = format!(r#"{{"msg": "result", "id": "m1", "error": {{"error": 403, "reason": "{}", "errorType": "Meteor.Error"}}}}"#, reason);

        let actions = session.handle(&decode(&frame));
        assert!(
            matches!(actions.as_slice(), [Action::Fatal(Fatal::SessionExpired(_))]),
            "{reason} should be classified as an expired session, got {actions:?}"
        );
        assert!(session.is_fatal());
    }
}

#[test]
fn an_ordinary_login_rejection_is_terminal_but_distinguishable() {
    let mut session = session();
    session.handle(&decode(r#"{"msg":"connected","session":"s"}"#));
    session.expect_login("m1");

    let actions = session.handle(&decode(
        r#"{"msg":"result","id":"m1","error":{"error":403,"reason":"Incorrect password"}}"#,
    ));
    assert_eq!(
        actions,
        vec![Action::Fatal(Fatal::LoginRejected("Incorrect password".to_owned()))]
    );
}

#[test]
fn a_result_for_someone_elses_call_does_not_move_the_lifecycle() {
    let mut session = session();
    session.handle(&decode(r#"{"msg":"connected","session":"s"}"#));
    session.expect_login("m1");

    let actions = session.handle(&decode(r#"{"msg":"result","id":"m2","result":true}"#));
    assert!(actions.is_empty());
    assert_eq!(session.phase(), Phase::Authenticating);
}

#[test]
fn a_malformed_frame_is_surfaced_instead_of_being_swallowed() {
    // Absorbed by the untagged catch-all, so nothing else would ever report it, and the
    // call it was answering would hang forever.
    let mut session = session();
    let actions = session.handle(&decode(r#"{"msg":"result","id":"1","error":{"m":"x"}}"#));
    assert_eq!(actions, vec![Action::ProtocolViolation { msg: Some("result".to_owned()) }]);
    // Reporting it must not derail the lifecycle.
    assert_eq!(session.phase(), Phase::Handshaking);
}

#[test]
fn a_genuinely_unknown_frame_is_not_reported_as_a_violation() {
    let mut session = session();
    assert!(session.handle(&decode(r#"{"msg":"someFutureFrame","x":1}"#)).is_empty());
}

#[test]
fn reconnecting_clears_the_old_session_and_replays_subscriptions() {
    let mut session = session();
    session.handle(&decode(r#"{"msg":"connected","session":"first"}"#));
    session.expect_login("m1");
    session.handle(&decode(r#"{"msg":"result","id":"m1","result":{}}"#));
    assert_eq!(session.phase(), Phase::Ready);

    session.disconnected();
    assert_eq!(session.phase(), Phase::Disconnected);
    assert_eq!(session.session_id(), None);

    session.connect();
    session.handle(&decode(r#"{"msg":"connected","session":"second"}"#));
    assert_eq!(session.session_id(), Some("second"));
    session.expect_login("m2");

    // The server remembers no subscriptions across connections, so every reconnect must
    // replay them or the bot goes silent while looking healthy.
    let actions = session.handle(&decode(r#"{"msg":"result","id":"m2","result":{}}"#));
    assert_eq!(actions, vec![Action::Resubscribe]);
}

#[test]
fn a_stale_login_result_after_reconnect_is_ignored() {
    // The correlator tags calls with a connection epoch, but the lifecycle must not
    // depend on that: a late result from the previous socket must not authenticate the
    // new one.
    let mut session = session();
    session.handle(&decode(r#"{"msg":"connected","session":"first"}"#));
    session.expect_login("m1");
    session.disconnected();
    session.connect();
    session.handle(&decode(r#"{"msg":"connected","session":"second"}"#));

    let actions = session.handle(&decode(r#"{"msg":"result","id":"m1","result":{}}"#));
    assert!(actions.is_empty(), "a login from the dead socket must not make us Ready");
    assert_eq!(session.phase(), Phase::Authenticating);
}

#[test]
fn a_fatal_phase_survives_a_subsequent_disconnect() {
    let mut session = session();
    session.handle(&decode(r#"{"msg":"failed","version":"2"}"#));
    assert!(session.is_fatal());
    session.disconnected();
    assert!(session.is_fatal(), "a terminal failure must not decay into a retryable one");
}
