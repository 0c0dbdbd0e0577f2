//! Subscriptions across reconnects, and waiting for events.
use rocketsocket::model::event::StreamEvent;
use rocketsocket::model::json::Json;
use rocketsocket::model::protocol::ServerMessage;
use rocketsocket::model::text::parse_json;
use rocketsocket::realtime::client::{
    observe, remember, stream_key_of, subscription_params, ClientEvent, Directive, Replay,
};
use rocketsocket::realtime::connection::Event;
use rocketsocket::realtime::correlate::{CallError, Epoch};
use rocketsocket::realtime::session::Fatal;
use rocketsocket::realtime::standby::{wait_outcome, Canceled, Standby};
use rocketsocket::realtime::subscription::{Registry, StreamKey, SubState};
use tokio::sync::oneshot;

type Predicate = Box<dyn Fn(&ClientEvent) -> bool>;

fn json(text: &str) -> Json {
    parse_json(text).expect("fixture")
}

fn frame(text: &str) -> ServerMessage {
    ServerMessage::parse(text).expect("fixture")
}

fn subscribed(registry: &mut Registry, id: &str, stream: &str, event: &str) -> StreamKey {
    let key = StreamKey::new(stream, event);
    let params = subscription_params(&key);
    remember(registry, key, params, Ok(id.to_owned())).expect("acknowledged")
}

#[test]
fn a_subscription_asks_for_no_collection() {
    let params = subscription_params(&StreamKey::new("room-messages", "GENERAL"));
    assert_eq!(params.len(), 2);
    assert_eq!(params[0], json("\"GENERAL\""));
    assert_eq!(params[1].get("useCollection"), Some(&Json::Bool(false)));
    assert_eq!(params[1].get("args"), Some(&json("[]")));
}

#[test]
fn only_an_acknowledged_subscription_is_remembered() {
    let mut registry = Registry::new();
    let key = StreamKey::new("room-messages", "secret");
    let refused = remember(&mut registry, key, vec![], Err(CallError::NotSent));
    assert_eq!(refused.unwrap_err(), CallError::NotSent);
    assert!(registry.is_empty());
    let key = subscribed(&mut registry, "s1", "room-messages", "GENERAL");
    assert_eq!(key.publication(), "stream-room-messages");
    assert_eq!(registry.len(), 1);
}

#[test]
fn a_subscription_is_replayed_under_a_fresh_id_after_a_reconnect() {
    let mut registry = Registry::new();
    subscribed(&mut registry, "s0", "room-messages", "GENERAL");
    subscribed(&mut registry, "s1", "notify-user", "u1/message");
    registry.mark_ready("s0");

    let lost = observe(&mut registry, Event::Disconnected { reason: "gone".to_owned() });
    assert!(matches!(lost, Directive::Forward { last: false, .. }));
    assert_eq!(registry.state("s0"), Some(SubState::Inactive));

    let epoch = Epoch::first().next();
    let asked = observe(&mut registry, Event::Resubscribe { epoch });
    assert!(matches!(asked, Directive::Replay { epoch: e } if e == epoch));

    let mut replay = Replay::begin(&registry, epoch);
    let (publication, params) = replay.next().expect("the first");
    assert_eq!(publication, "stream-room-messages");
    assert_eq!(params[0], json("\"GENERAL\""));
    replay.answered(&mut registry, Ok("s2".to_owned()));
    let (publication, _) = replay.next().expect("the second");
    assert_eq!(publication, "stream-notify-user");
    replay.answered(&mut registry, Ok("s3".to_owned()));
    assert!(replay.next().is_none());
    assert!(matches!(
        replay.finished(),
        ClientEvent::Resubscribed { epoch: e, restored: 2 } if e == epoch
    ));
    assert_eq!(registry.state("s0"), None);
    assert_eq!(registry.subscribers(&StreamKey::new("room-messages", "GENERAL")), ["s2"]);
    assert_eq!(registry.state("s3"), Some(SubState::Pending));
}

#[test]
fn a_subscription_the_server_refuses_on_replay_is_forgotten() {
    let mut registry = Registry::new();
    subscribed(&mut registry, "s0", "room-messages", "kept");
    subscribed(&mut registry, "s1", "room-messages", "refused");
    let mut replay = Replay::begin(&registry, Epoch::first());
    replay.answered(&mut registry, Ok("s2".to_owned()));
    replay.answered(&mut registry, Err(CallError::NotSent));
    assert!(matches!(replay.finished(), ClientEvent::Resubscribed { restored: 1, .. }));
    assert_eq!(registry.len(), 1);
    assert!(registry.subscribers(&StreamKey::new("room-messages", "refused")).is_empty());
}

#[test]
fn a_stream_frame_is_decoded_and_another_is_passed_through() {
    let mut registry = Registry::new();
    let stream = frame(
        r#"{"msg":"changed","collection":"stream-notify-room","id":"id","fields":{"eventName":"GENERAL/typing","args":["bot",true]}}"#,
    );
    assert_eq!(stream_key_of(&stream), Some(StreamKey::new("notify-room", "GENERAL/typing")));
    match observe(&mut registry, Event::Frame(stream)) {
        Directive::Forward { event: ClientEvent::Stream { key, event, args }, last: false } => {
            assert_eq!(key, StreamKey::new("notify-room", "GENERAL/typing"));
            assert!(matches!(event, StreamEvent::Typing { typing: true, .. }));
            assert_eq!(args, [json("\"bot\""), json("true")]);
        }
        other => panic!("{other:?}"),
    }
    let plain = frame(r#"{"msg":"added","collection":"users","id":"u1"}"#);
    assert_eq!(stream_key_of(&plain), None);
    assert!(matches!(
        observe(&mut registry, Event::Frame(plain)),
        Directive::Forward { event: ClientEvent::Connection(Event::Frame(_)), last: false }
    ));
}

#[test]
fn a_stream_event_reaches_the_application_after_a_replay() {
    let mut registry = Registry::new();
    subscribed(&mut registry, "s0", "room-messages", "GENERAL");
    observe(&mut registry, Event::Disconnected { reason: "restart".to_owned() });
    let mut replay = Replay::begin(&registry, Epoch::first().next());
    replay.answered(&mut registry, Ok("s1".to_owned()));
    let stream = frame(
        r#"{"msg":"changed","collection":"stream-room-messages","id":"id","fields":{"eventName":"GENERAL","args":[{"_id":"m1","rid":"GENERAL","msg":"hi","ts":{"$date":1},"_updatedAt":{"$date":1},"u":{"_id":"u1"}}]}}"#,
    );
    match observe(&mut registry, Event::Frame(stream)) {
        Directive::Forward { event: ClientEvent::Stream { key, event, .. }, .. } => {
            assert_eq!(registry.subscribers(&key), ["s1"]);
            assert!(matches!(event, StreamEvent::RoomMessage { message, .. } if message.msg == "hi"));
        }
        other => panic!("{other:?}"),
    }
}

#[test]
fn a_terminal_failure_ends_the_application_stream() {
    let mut registry = Registry::new();
    let fatal = Event::Fatal(Fatal::LoginRejected("no".to_owned()));
    assert!(matches!(
        observe(&mut registry, fatal),
        Directive::Forward { event: ClientEvent::Connection(Event::Fatal(_)), last: true }
    ));
    assert!(matches!(
        observe(&mut registry, Event::Connecting { attempt: 0 }),
        Directive::Forward { last: false, .. }
    ));
}

fn stream_event(stream: &str, event: &str) -> ClientEvent {
    ClientEvent::Stream {
        key: StreamKey::new(stream, event),
        event: StreamEvent::decode(stream, event, &[]),
        args: Vec::new(),
    }
}

fn wait_for(
    standby: &mut Standby<Predicate>,
    predicate: impl Fn(&ClientEvent) -> bool + 'static,
) -> oneshot::Receiver<ClientEvent> {
    let (sender, receiver) = oneshot::channel();
    standby.wait_for(Box::new(predicate), sender);
    receiver
}

/// Offers an event to those who still wait, and hands it to the one it is for.
fn process(standby: &mut Standby<Predicate>, event: &ClientEvent) -> bool {
    let mut gone = Vec::new();
    for at in 0..standby.pending() {
        gone.push(standby.sender(at).is_closed());
    }
    match standby.offer(event.clone(), &gone) {
        Some((to, event)) => to.send(event).is_ok(),
        None => false,
    }
}

fn is_general(event: &ClientEvent) -> bool {
    matches!(event, ClientEvent::Stream { key, .. } if key.event == "GENERAL")
}

#[test]
fn a_matching_event_resolves_the_waiter() {
    let mut standby: Standby<Predicate> = Standby::new();
    let waiting = wait_for(&mut standby, is_general);

    assert!(process(&mut standby, &stream_event("room-messages", "GENERAL")));
    let event = wait_outcome(waiting.blocking_recv().ok()).expect("should have resolved");
    assert!(matches!(event, ClientEvent::Stream { key, .. } if key.event == "GENERAL"));
    assert_eq!(standby.pending(), 0);
}

#[test]
fn a_non_matching_event_leaves_the_waiter_pending() {
    let mut standby: Standby<Predicate> = Standby::new();
    let _waiting = wait_for(&mut standby, is_general);

    assert!(!process(&mut standby, &stream_event("room-messages", "random")));
    assert_eq!(standby.pending(), 1);
}

#[test]
fn only_the_first_matching_waiter_consumes_an_event() {
    // Two flows waiting on overlapping predicates must not both consume one event.
    let mut standby: Standby<Predicate> = Standby::new();
    let first = wait_for(&mut standby, |_| true);
    let _second = wait_for(&mut standby, |_| true);

    assert!(process(&mut standby, &stream_event("room-messages", "GENERAL")));
    assert_eq!(standby.pending(), 1, "the second waiter must still be waiting");
    first.blocking_recv().expect("the first waiter should have won");
}

#[test]
fn an_abandoned_waiter_is_reaped_rather_than_scanned_forever() {
    let mut standby: Standby<Predicate> = Standby::new();
    drop(wait_for(&mut standby, |_| false));
    assert_eq!(standby.pending(), 1);

    // The first event after the caller went away clears it.
    process(&mut standby, &stream_event("room-messages", "GENERAL"));
    assert_eq!(standby.pending(), 0);
}

#[test]
fn dropping_the_registry_cancels_outstanding_waiters() {
    let mut standby: Standby<Predicate> = Standby::new();
    let waiting = wait_for(&mut standby, |_| false);
    drop(standby);
    assert_eq!(wait_outcome(waiting.blocking_recv().ok()).unwrap_err(), Canceled::Dropped);
    assert_eq!(
        Canceled::Dropped.to_text(),
        "no matching event arrived before the stream ended"
    );
}

#[test]
fn the_others_keep_their_order_when_one_is_served() {
    let mut standby: Standby<Predicate> = Standby::new();
    let first = wait_for(&mut standby, |_| true);
    let general = wait_for(&mut standby, is_general);
    let third = wait_for(&mut standby, |_| true);
    drop(first);
    assert!(process(&mut standby, &stream_event("room-messages", "other")));
    third.blocking_recv().expect("the first live match");
    assert!(process(&mut standby, &stream_event("room-messages", "GENERAL")));
    general.blocking_recv().expect("still waiting");
}
