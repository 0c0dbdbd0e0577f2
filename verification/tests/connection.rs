//! Driving a connection, without a socket: what the runner does with each thing that happens.
use core::time::Duration;
use rocketsocket::model::json::Json;
use rocketsocket::model::protocol::{ClientMessage, ServerMessage};
use rocketsocket::model::text::parse_json;
use rocketsocket::realtime::connection::{
    call_outcome, frame_excerpt, open_failure, reply_or_lost, subscription_outcome, Ask, Command,
    Config, ConnectionState, Credential, Event, Frame, Mark, Move, Notice, Outcome, Progress,
    Registered, Runner, Step,
};
use rocketsocket::realtime::correlate::CallError;
use rocketsocket::realtime::session::Fatal;
use std::time::Instant;
use tokio::sync::oneshot;

fn json(text: &str) -> Json {
    parse_json(text).expect("fixture")
}

fn config() -> Config {
    Config::new("ws://localhost/websocket", Credential::Resume("tok".to_owned()))
}

fn text(frame: &str) -> Step {
    Step::Frame(Frame::Text(frame.to_owned()))
}

/// Everything that can be written now.
fn written(runner: &mut Runner) -> Vec<ClientMessage> {
    let mut frames = Vec::new();
    while let Some(outbound) = runner.next_write() {
        runner.wrote(outbound.mark);
        frames.push(outbound.frame);
    }
    frames
}

fn states(notices: &[Notice]) -> Vec<ConnectionState> {
    let mut out = Vec::new();
    for notice in notices {
        if let Notice::State(state) = notice {
            out.push(*state);
        }
    }
    out
}

fn events(notices: Vec<Notice>) -> Vec<Event> {
    let mut out = Vec::new();
    for notice in notices {
        if let Notice::Event(event) = notice {
            out.push(event);
        }
    }
    out
}

/// A runner whose socket is open and whose opening frame is written.
fn open(now: Instant) -> Runner {
    let mut runner = Runner::new(config(), now);
    runner.begin_wait();
    runner.begin_attempt();
    runner.begin_session(now);
    let frames = written(&mut runner);
    assert!(matches!(frames.as_slice(), [ClientMessage::Connect { .. }]));
    runner.flushed();
    runner
}

/// A runner that is logged in.
fn ready(now: Instant) -> Runner {
    let mut runner = open(now);
    assert!(runner.step(text(r#"{"msg":"connected","session":"session-1"}"#), now).is_none());
    let login = written(&mut runner);
    runner.flushed();
    match login.as_slice() {
        [ClientMessage::Method { id, method, params }] => {
            assert_eq!(id, "m0");
            assert_eq!(method, "login");
            assert_eq!(params, &vec![json(r#"{"resume":"tok"}"#)]);
        }
        other => panic!("expected a login, got {other:?}"),
    }
    assert!(runner.step(text(r#"{"msg":"result","id":"m0","result":{"id":"u1"}}"#), now).is_none());
    assert_eq!(runner.state(), ConnectionState::Ready);
    runner.take_notices();
    tell(&mut runner);
    runner
}

/// Hands the callers what they wait for.
fn tell(runner: &mut Runner) {
    for ack in runner.take_acks() {
        let heard = ack.to.send(ack.registered).is_ok();
        runner.acknowledged(ack.request, heard);
    }
    for delivery in runner.take_replies() {
        let _ = delivery.to.send(delivery.reply);
    }
}

fn call(runner: &mut Runner, method: &str) -> Registered {
    let (ack, registered) = oneshot::channel();
    runner.handle_command(Command::Call { method: method.to_owned(), params: vec![], ack });
    tell(runner);
    registered.blocking_recv().expect("registered")
}

#[test]
fn a_credential_never_prints_its_secret() {
    let resume = Credential::Resume("super-secret".into()).debug_text();
    assert!(!resume.contains("super-secret"), "{resume}");

    let password =
        Credential::Password { user: "bot".into(), password: "hunter2".into() }.debug_text();
    assert!(!password.contains("hunter2"), "{password}");
    assert!(password.contains("bot"));
    assert_eq!(resume, "Credential::Resume(<redacted>)");
    assert_eq!(password, "Credential::Password { user: \"bot\", .. }");
}

#[test]
fn a_credential_becomes_the_parameters_of_the_login() {
    assert_eq!(
        Credential::Resume("tok".into()).params(),
        vec![json(r#"{"resume":"tok"}"#)]
    );
    let password = Credential::Password { user: "bot".into(), password: "pw".into() }.params();
    assert_eq!(password.len(), 1);
    assert_eq!(password[0].get("user"), Some(&json(r#"{"username":"bot"}"#)));
    assert_eq!(password[0].get("password"), Some(&json(r#""pw""#)));
}

#[test]
fn the_default_limits_are_the_documented_ones() {
    let config = config();
    assert_eq!(config.url, "ws://localhost/websocket");
    assert_eq!(config.connect_timeout, Duration::from_secs(15));
    assert_eq!(config.handshake_timeout, Duration::from_secs(20));
    assert_eq!(config.ping_after, Duration::from_secs(25));
    assert_eq!(config.dead_after, Duration::from_secs(45));
    assert_eq!(config.command_capacity, 64);
    assert_eq!(config.outbox_capacity, 256);
    assert_eq!(config.event_capacity, 1024);
    assert_eq!(config.backoff_base, Duration::from_secs(1));
    assert_eq!(config.backoff_cap, Duration::from_secs(64));
    assert!(config.is_usable());
    let mut hasty = config.clone();
    hasty.dead_after = hasty.ping_after;
    assert!(!hasty.is_usable());
    assert!(Runner::try_new(hasty, Instant::now()).is_none());
    assert!(Runner::try_new(config, Instant::now()).is_some());
}

#[test]
fn the_happy_path_reaches_ready() {
    let now = Instant::now();
    let mut runner = open(now);
    assert_eq!(
        states(&runner.take_notices()),
        [ConnectionState::Connecting, ConnectionState::Handshaking]
    );

    runner.step(text(r#"{"msg":"connected","session":"session-1"}"#), now);
    let notices = runner.take_notices();
    assert_eq!(states(&notices), [ConnectionState::Authenticating]);
    assert!(matches!(
        events(notices).as_slice(),
        [Event::Connected { session }] if session == "session-1"
    ));

    runner.step(text(r#"{"msg":"result","id":"m0","result":{"id":"u1"}}"#), now);
    let notices = runner.take_notices();
    // The state comes before the events.
    assert!(matches!(notices[0], Notice::State(ConnectionState::Ready)));
    match events(notices).as_slice() {
        [Event::Ready { epoch }, Event::Resubscribe { epoch: again }] => assert_eq!(epoch, again),
        other => panic!("{other:?}"),
    }
}

#[test]
fn a_server_that_never_answers_the_handshake_is_dropped_and_retried() {
    let now = Instant::now();
    let mut runner = open(now);
    let late = now + Duration::from_secs(20);
    assert!(runner.step(Step::Deadline, now + Duration::from_secs(19)).is_none());
    let outcome = runner.step(Step::Deadline, late).expect("the handshake took too long");
    assert_eq!(
        outcome,
        Outcome::Closed("the handshake did not complete within 20s".to_owned())
    );
    runner.take_notices();
    assert!(runner.end(outcome), "it is retried");
    assert_eq!(runner.state(), ConnectionState::Disconnected);
    assert!(matches!(
        events(runner.take_notices()).as_slice(),
        [Event::Disconnected { reason }] if reason.contains("20s")
    ));
}

#[test]
fn a_version_mismatch_ends_the_stream_without_retrying() {
    let now = Instant::now();
    let mut runner = open(now);
    let outcome = runner.step(text(r#"{"msg":"failed","version":"2"}"#), now).expect("fatal");
    let fatal = Fatal::VersionMismatch { version: "1".to_owned(), offered: "2".to_owned() };
    assert_eq!(outcome, Outcome::Fatal(fatal.clone()));
    assert_eq!(fatal.to_text(), "server does not support DDP version 1, it offered 2");
    assert!(!runner.end(outcome), "it is not retried");
    assert_eq!(runner.state(), ConnectionState::Fatal);
    runner.finish();
    assert_eq!(runner.state(), ConnectionState::Fatal, "the state says why");
    assert!(matches!(events(runner.take_notices()).last(), Some(Event::Fatal(_))));
}

#[test]
fn an_expired_resume_token_ends_the_stream_without_retrying() {
    let now = Instant::now();
    let mut runner = open(now);
    runner.step(text(r#"{"msg":"connected","session":"s"}"#), now);
    let outcome = runner
        .step(
            text(r#"{"msg":"result","id":"m0","error":{"error":403,"reason":"Your session has expired. Please log in again."}}"#),
            now,
        )
        .expect("fatal");
    assert!(matches!(outcome, Outcome::Fatal(Fatal::SessionExpired(_))));
    assert!(!runner.end(outcome));
}

#[test]
fn an_in_flight_call_is_abandoned_not_reported_as_unsent() {
    let now = Instant::now();
    let mut runner = ready(now);
    let registered = call(&mut runner, "slow");
    assert_eq!(written(&mut runner).len(), 1);
    runner.flushed();
    assert!(!runner.needs_flush());
    runner.end(Outcome::Closed("gone".to_owned()));
    tell(&mut runner);
    assert_eq!(
        registered.reply.blocking_recv().unwrap().unwrap_err(),
        CallError::Abandoned { id: registered.id }
    );
}

#[test]
fn a_call_that_never_reached_the_wire_is_reported_as_not_sent() {
    let now = Instant::now();
    let mut runner = ready(now);
    // Taken by the socket, but never flushed.
    let registered = call(&mut runner, "lost");
    assert_eq!(written(&mut runner).len(), 1);
    assert!(runner.needs_flush());
    runner.end(Outcome::Closed("gone".to_owned()));
    tell(&mut runner);
    assert_eq!(registered.reply.blocking_recv().unwrap().unwrap_err(), CallError::NotSent);
}

#[test]
fn a_server_ping_is_answered_with_a_pong_echoing_the_id() {
    let now = Instant::now();
    let mut runner = ready(now);
    runner.step(text(r#"{"msg":"ping","id":"h7"}"#), now);
    assert_eq!(written(&mut runner), [ClientMessage::Pong { id: Some("h7".to_owned()) }]);
}

#[test]
fn a_ping_is_answered_even_while_application_traffic_is_held_back() {
    let now = Instant::now();
    let mut runner = open(now);
    let _waiting = call(&mut runner, "early");
    runner.step(text(r#"{"msg":"ping"}"#), now);
    assert_eq!(written(&mut runner), [ClientMessage::Pong { id: None }]);
    assert!(!runner.has_write(), "the call waits for the login");
}

#[test]
fn an_unexpected_close_is_followed_by_a_reconnect_on_a_new_epoch() {
    let now = Instant::now();
    let mut runner = ready(now);
    let outcome = runner
        .step(Step::Frame(Frame::Close(Some((1001, "bye".to_owned())))), now)
        .expect("closed");
    assert_eq!(outcome, Outcome::Closed("the server closed with 1001: bye".to_owned()));
    assert!(runner.end(outcome));
    runner.take_notices();
    // Right after a login the first retry is immediate.
    assert_eq!(runner.begin_wait(), Duration::ZERO);
    runner.begin_attempt();
    assert!(matches!(
        events(runner.take_notices()).as_slice(),
        [Event::Connecting { attempt: 0 }]
    ));
    runner.begin_session(now);
    runner.step(text(r#"{"msg":"connected","session":"second"}"#), now);
    let frames = written(&mut runner);
    assert!(
        matches!(frames.as_slice(), [ClientMessage::Connect { .. }, ClientMessage::Method { id, .. }] if id == "m1")
    );
}

#[test]
fn a_stream_event_reaches_a_consumer() {
    let now = Instant::now();
    let mut runner = ready(now);
    let frame = r#"{"msg":"changed","collection":"stream-room-messages","id":"id","fields":{"eventName":"GENERAL","args":[]}}"#;
    assert!(runner.step(text(frame), now).is_none());
    match events(runner.take_notices()).as_slice() {
        [Event::Frame(message)] => assert_eq!(Some(message.clone()), ServerMessage::parse(frame)),
        other => panic!("{other:?}"),
    }
}

#[test]
fn a_malformed_frame_is_logged_loudly_and_does_not_derail_the_connection() {
    let now = Instant::now();
    let mut runner = ready(now);
    assert!(runner.step(text(r#"{"msg":"result","id":"1","error":{"m":"x"}}"#), now).is_none());
    assert!(runner.step(text("not json"), now).is_none());
    let long = format!("[{}", "x".repeat(300));
    assert!(runner.step(text(&long), now).is_none());
    match runner.take_notices().as_slice() {
        [Notice::Violation(Some(msg)), Notice::Undecodable(short), Notice::Undecodable(cut)] => {
            assert_eq!(msg, "result");
            assert_eq!(short, "not json");
            assert_eq!(frame_excerpt(short), "not json");
            assert_eq!(cut, &long);
            let cut = frame_excerpt(cut);
            assert_eq!(cut.len(), 256 + '\u{2026}'.len_utf8());
            assert!(cut.ends_with('\u{2026}'));
        }
        other => panic!("{other:?}"),
    }
    assert_eq!(runner.state(), ConnectionState::Ready);
}

#[test]
fn dropping_every_handle_shuts_the_runner_down_and_ends_the_stream() {
    let now = Instant::now();
    let mut runner = ready(now);
    let outcome = runner.step(Step::HandlesDropped, now).expect("over");
    assert_eq!(outcome, Outcome::Shutdown);
    assert!(!runner.end(outcome));
    assert_eq!(runner.state(), ConnectionState::Closed);

    let mut idle = Runner::new(config(), now);
    idle.handles_dropped();
    assert!(idle.is_shutdown());
    idle.finish();
    assert_eq!(idle.state(), ConnectionState::Closed);
}

#[test]
fn a_silent_connection_is_probed_and_then_declared_dead() {
    let now = Instant::now();
    let mut runner = ready(now);
    assert_eq!(runner.due(now), Some(now + Duration::from_secs(25)));
    assert!(runner.step(Step::Deadline, now + Duration::from_secs(25)).is_none());
    assert_eq!(written(&mut runner), [ClientMessage::Ping { id: None }]);
    assert_eq!(runner.due(now), Some(now + Duration::from_secs(45)));
    assert_eq!(
        runner.step(Step::Deadline, now + Duration::from_secs(45)),
        Some(Outcome::Closed(
            "no traffic for 45s; assuming the connection is dead".to_owned()
        ))
    );
}

#[test]
fn any_frame_counts_as_traffic() {
    let now = Instant::now();
    let mut runner = ready(now);
    let later = now + Duration::from_secs(24);
    assert!(runner.step(Step::Frame(Frame::Other), later).is_none());
    assert!(runner.step(Step::Deadline, now + Duration::from_secs(48)).is_none());
    assert!(!runner.has_write(), "nothing was silent long enough to be probed");
}

#[test]
fn the_timer_is_due_at_the_handshake_limit_where_that_comes_first() {
    let now = Instant::now();
    let runner = open(now);
    assert_eq!(runner.due(now), Some(now + Duration::from_secs(20)));
}

#[test]
fn the_timer_is_due_at_the_next_probe_where_that_comes_first() {
    let now = Instant::now();
    let mut limits = config();
    limits.handshake_timeout = Duration::from_secs(60);
    let mut runner = Runner::new(limits, now);
    runner.begin_session(now);
    assert_eq!(runner.due(now), Some(now + Duration::from_secs(25)));
    // Overdue already: now.
    let late = now + Duration::from_secs(30);
    assert_eq!(runner.due(late), Some(late));
}

#[test]
fn a_limit_that_the_clock_cannot_express_is_none() {
    let now = Instant::now();
    let mut limits = config();
    limits.handshake_timeout = Duration::MAX;
    limits.dead_after = Duration::MAX;
    let mut runner = Runner::new(limits.clone(), now);
    runner.begin_session(now);
    assert_eq!(runner.due(now), Some(now + Duration::from_secs(25)));
    assert!(runner.step(Step::Deadline, now + Duration::from_secs(25)).is_none());
    assert_eq!(runner.due(now), None, "probed, and given up at no time that there is");

    limits.handshake_timeout = Duration::from_secs(60);
    limits.ping_after = Duration::MAX - Duration::from_nanos(1);
    let mut patient = Runner::new(limits, now);
    patient.begin_session(now);
    assert_eq!(patient.due(now), Some(now + Duration::from_secs(60)));
}

#[test]
fn a_socket_that_ends_or_fails_closes_the_connection() {
    let now = Instant::now();
    assert_eq!(
        ready(now).step(Step::Eof, now),
        Some(Outcome::Closed("the server closed the socket".to_owned()))
    );
    assert_eq!(
        ready(now).step(Step::Failed("reset".to_owned()), now),
        Some(Outcome::Closed("socket error: reset".to_owned()))
    );
    assert_eq!(
        ready(now).step(Step::Frame(Frame::Close(None)), now),
        Some(Outcome::Closed("the server sent a close frame".to_owned()))
    );
}

#[test]
fn replies_reach_their_callers_and_a_batch_reaches_all_of_them() {
    let now = Instant::now();
    let mut runner = ready(now);
    let first = call(&mut runner, "get");
    runner.step(text(&format!(r#"{{"msg":"result","id":"{}"}}"#, first.id)), now);
    tell(&mut runner);
    assert_eq!(first.reply.blocking_recv().unwrap(), Ok(Json::Null));

    let mut waiting = Vec::new();
    for name in ["stream-a", "stream-b"] {
        let (ack, registered) = oneshot::channel();
        runner.handle_command(Command::Subscribe {
            name: name.to_owned(),
            params: vec![json("\"x\"")],
            ack,
        });
        tell(&mut runner);
        waiting.push(registered.blocking_recv().expect("registered"));
    }
    let frames = written(&mut runner);
    assert!(matches!(&frames[1], ClientMessage::Sub { name, .. } if name == "stream-a"));
    runner.step(
        text(&format!(r#"{{"msg":"ready","subs":["{}","{}"]}}"#, waiting[0].id, waiting[1].id)),
        now,
    );
    tell(&mut runner);
    for registered in waiting {
        assert_eq!(registered.reply.blocking_recv().unwrap(), Ok(Json::Null));
    }
}

#[test]
fn a_refused_subscription_is_answered_with_the_error() {
    let now = Instant::now();
    let mut runner = ready(now);
    let (ack, registered) = oneshot::channel();
    runner.handle_command(Command::Subscribe { name: "stream-x".to_owned(), params: vec![], ack });
    tell(&mut runner);
    let registered = registered.blocking_recv().expect("registered");
    runner.step(
        text(&format!(
            r#"{{"msg":"nosub","id":"{}","error":{{"error":"error-not-allowed"}}}}"#,
            registered.id
        )),
        now,
    );
    tell(&mut runner);
    let reply = registered.reply.blocking_recv().ok();
    assert!(matches!(
        subscription_outcome(registered.id, reply),
        Err(CallError::Server(error)) if error.error.is("error-not-allowed")
    ));
}

#[test]
fn a_caller_that_vanished_leaves_no_frame_behind() {
    let now = Instant::now();
    let mut runner = ready(now);
    let (ack, registered) = oneshot::channel::<Registered>();
    drop(registered);
    runner.handle_command(Command::Call { method: "gone".to_owned(), params: vec![], ack });
    tell(&mut runner);
    assert!(!runner.has_write());
    // Its id is not used again.
    assert_eq!(call(&mut runner, "next").id, "m2");
}

#[test]
fn a_cancelled_subscription_is_told_to_the_server() {
    let now = Instant::now();
    let mut runner = ready(now);
    runner.handle_command(Command::Unsubscribe { id: "s0".to_owned() });
    let outbound = runner.next_write().expect("queued");
    assert_eq!(outbound.frame, ClientMessage::Unsub { id: "s0".to_owned() });
    assert_eq!(outbound.mark, None);
    assert_eq!(call(&mut runner, "x").id, "m1");
    assert_eq!(
        runner.next_write().expect("queued").mark,
        Some(Mark::Method("m1".to_owned()))
    );
}

#[test]
fn a_shutdown_command_ends_the_connection() {
    let now = Instant::now();
    let mut runner = ready(now);
    assert_eq!(runner.step(Step::Command(Command::Shutdown), now), Some(Outcome::Shutdown));
    assert!(runner.is_shutdown());
}

#[test]
fn commands_are_held_back_while_too_many_frames_wait() {
    let now = Instant::now();
    let mut limits = config();
    limits.outbox_capacity = 1;
    let mut runner = Runner::new(limits, now);
    assert!(runner.accepts_commands());
    let _waiting = call(&mut runner, "one");
    assert!(!runner.accepts_commands());
}

#[test]
fn reading_and_commands_take_turns() {
    let mut runner = Runner::new(config(), Instant::now());
    for first in [Ask::Read, Ask::Commands, Ask::Read] {
        let mut progress = Progress::new();
        assert_eq!(runner.ask(&mut progress), first);
        progress.read_asked = true;
        progress.commands_asked = true;
        assert_eq!(runner.ask(&mut progress), Ask::Timer, "deadlines come last");
        progress.timer_asked = true;
        assert_eq!(runner.ask(&mut progress), Ask::Rest);
    }
}

#[test]
fn writes_and_flushes_come_before_everything_else() {
    let now = Instant::now();
    let mut runner = ready(now);
    let _waiting = call(&mut runner, "x");
    let mut progress = Progress::new();
    assert_eq!(runner.ask(&mut progress), Ask::Write);
    let outbound = runner.next_write().expect("queued");
    runner.wrote(outbound.mark);
    assert_eq!(runner.ask(&mut progress), Ask::Flush);
    progress.flush_asked = true;
    assert_ne!(runner.ask(&mut progress), Ask::Flush);
    // A socket that takes nothing now is not asked again.
    let _another = call(&mut runner, "y");
    progress.blocked = true;
    assert_ne!(runner.ask(&mut progress), Ask::Write);
}

#[test]
fn a_poll_that_ends_while_writing_costs_nobody_their_turn() {
    let now = Instant::now();
    let mut runner = ready(now);
    let _waiting = call(&mut runner, "x");
    let mut failed = Progress::new();
    assert_eq!(runner.ask(&mut failed), Ask::Write);
    let outbound = runner.next_write().expect("queued");
    runner.wrote(outbound.mark);
    assert_eq!(runner.ask(&mut failed), Ask::Flush);
    runner.flushed();
    // Nothing was read and no command taken, so it is still the socket's turn.
    let mut next = Progress::new();
    assert_eq!(runner.ask(&mut next), Ask::Read);
    assert_eq!(runner.ask(&mut next), Ask::Read, "one poll takes one turn");
    assert_eq!(runner.ask(&mut Progress::new()), Ask::Commands);
}

#[test]
fn full_lanes_hold_commands_back_in_a_poll() {
    let now = Instant::now();
    let mut limits = config();
    limits.outbox_capacity = 0;
    let mut runner = Runner::new(limits, now);
    assert_eq!(runner.ask(&mut Progress::new()), Ask::Read);
    // It would be the callers' turn.
    let mut progress = Progress::new();
    assert_eq!(runner.ask(&mut progress), Ask::Read);
    progress.read_asked = true;
    assert_eq!(runner.ask(&mut progress), Ask::Timer);
}

#[test]
fn a_caller_is_handed_its_call_before_the_frame_is_queued() {
    let now = Instant::now();
    let mut runner = ready(now);
    let (ack, registered) = oneshot::channel();
    runner.handle_command(Command::Call { method: "get".to_owned(), params: vec![], ack });
    assert!(!runner.has_write(), "the caller has not heard its id");
    let mut acks = runner.take_acks();
    let ack = acks.pop().expect("one");
    assert!(acks.is_empty());
    assert_eq!(ack.registered.id, "m1");
    let heard = ack.to.send(ack.registered).is_ok();
    runner.acknowledged(ack.request, heard);
    assert!(matches!(
        written(&mut runner).as_slice(),
        [ClientMessage::Method { id, method, .. }] if id == "m1" && method == "get"
    ));
    runner.step(text(r#"{"msg":"result","id":"m1","result":5}"#), now);
    let mut replies = runner.take_replies();
    let reply = replies.pop().expect("one");
    assert!(replies.is_empty());
    assert_eq!((reply.id.as_str(), &reply.reply), ("m1", &Ok(json("5"))));
    reply.to.send(reply.reply).expect("the caller waits");
    let registered = registered.blocking_recv().expect("registered");
    assert_eq!(registered.reply.blocking_recv().unwrap(), Ok(json("5")));
}

#[test]
fn a_frame_that_repeats_a_member_is_a_violation() {
    let now = Instant::now();
    let mut runner = open(now);
    runner.take_notices();
    assert!(runner
        .step(text(r#"{"msg":"connected","session":"a","session":"b"}"#), now)
        .is_none());
    assert!(matches!(
        runner.take_notices().as_slice(),
        [Notice::Violation(Some(msg))] if msg == "connected"
    ));
    assert_eq!(runner.state(), ConnectionState::Handshaking);
}

#[test]
fn the_life_of_a_connection_goes_round_until_it_is_stopped() {
    let now = Instant::now();
    let mut runner = Runner::new(config(), now);
    assert!(matches!(runner.resume(), Move::Open), "the first attempt is immediate");
    match runner.open_failed("refused") {
        Move::Sleep(delay) => {
            assert!(delay <= Duration::from_secs(1));
            assert!(matches!(runner.waited(), Move::Open));
        }
        Move::Open => {}
        other => panic!("{other:?}"),
    }
    assert!(matches!(runner.opened(now), Move::Serve));
    let lost = Outcome::Closed("gone".to_owned());
    assert!(!lost.says_goodbye());
    assert!(matches!(runner.served(lost), Move::Sleep(_) | Move::Open));
    runner.handles_dropped();
    assert!(matches!(runner.waited(), Move::Stop));
    assert!(matches!(runner.resume(), Move::Stop));
    assert_eq!(runner.state(), ConnectionState::Closed);

    let mut failed = ready(now);
    let fatal = Outcome::Fatal(Fatal::LoginRejected("no".to_owned()));
    assert!(fatal.says_goodbye());
    assert!(matches!(failed.served(fatal), Move::Stop));
    assert_eq!(failed.state(), ConnectionState::Fatal);
}

#[test]
fn failed_attempts_are_counted_and_waited_for() {
    let now = Instant::now();
    let mut runner = Runner::new(config(), now);
    assert_eq!(runner.begin_wait(), Duration::ZERO);
    runner.begin_attempt();
    runner.disconnected(&open_failure(None));
    let delay = runner.begin_wait();
    assert!(delay <= Duration::from_secs(1));
    runner.begin_attempt();
    let events = events(runner.take_notices());
    assert!(matches!(
        &events[1],
        Event::Disconnected { reason } if reason == "websocket handshake timed out"
    ));
    assert!(matches!(events[2], Event::Connecting { attempt: 1 }));
    assert_eq!(open_failure(Some("refused")), "websocket handshake failed: refused");
}

#[test]
fn an_absent_result_is_null_and_a_lost_reply_was_not_sent() {
    assert_eq!(call_outcome(None, None).unwrap(), Json::Null);
    assert_eq!(call_outcome(Some(Json::Bool(true)), None).unwrap(), Json::Bool(true));
    assert_eq!(reply_or_lost(None), Err(CallError::NotSent));
    assert_eq!(reply_or_lost(Some(Ok(Json::Null))), Ok(Json::Null));
    assert_eq!(subscription_outcome("s0".to_owned(), None), Err(CallError::NotSent));
    assert_eq!(
        subscription_outcome("s0".to_owned(), Some(Ok(Json::Null))),
        Ok("s0".to_owned())
    );
}

#[test]
fn a_stray_reply_changes_nothing() {
    let now = Instant::now();
    let mut runner = ready(now);
    assert!(runner.step(text(r#"{"msg":"result","id":"nobody","result":1}"#), now).is_none());
    assert!(runner.step(text(r#"{"msg":"nosub","id":"nobody"}"#), now).is_none());
    match runner.take_notices().as_slice() {
        [Notice::Stray { id: a, tag: "result", stale: false }, Notice::Stray { id: b, tag: "nosub", stale: false }] =>
        {
            assert_eq!(a, "nobody");
            assert_eq!(b, "nobody");
        }
        other => panic!("{other:?}"),
    }
    assert!(runner.take_replies().is_empty());
    assert_eq!(runner.state(), ConnectionState::Ready);
}
