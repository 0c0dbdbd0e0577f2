//! What is subscribed to, across connections.
use rocketsocket::model::json::Json;
use rocketsocket::model::text::parse_json;
use rocketsocket::realtime::subscription::{Registry, StreamKey, SubState};

fn json(text: &str) -> Json {
    parse_json(text).expect("fixture")
}

fn key(stream: &str, event: &str) -> StreamKey {
    StreamKey::new(stream, event)
}

#[test]
fn a_key_renders_its_publication_name() {
    assert_eq!(key("room-messages", "GENERAL").publication(), "stream-room-messages");
    assert_eq!(key("notify-user", "u1/message").publication(), "stream-notify-user");
}

#[test]
fn a_subscription_walks_pending_to_ready() {
    let mut registry = Registry::new();
    registry.insert("s0", key("room-messages", "GENERAL"), vec![json(r#""GENERAL""#)]);

    assert_eq!(registry.state("s0"), Some(SubState::Pending));
    assert!(registry.mark_ready("s0"));
    assert_eq!(registry.state("s0"), Some(SubState::Ready));
}

#[test]
fn marking_an_unknown_id_ready_is_reported_not_fatal() {
    let mut registry = Registry::new();
    assert!(!registry.mark_ready("nope"));
}

#[test]
fn events_route_by_stream_and_event_name() {
    let mut registry = Registry::new();
    registry.insert("s0", key("room-messages", "GENERAL"), vec![]);
    registry.insert("s1", key("room-messages", "random"), vec![]);

    assert_eq!(registry.subscribers(&key("room-messages", "GENERAL")), ["s0"]);
    assert_eq!(registry.subscribers(&key("room-messages", "random")), ["s1"]);
    assert!(registry.subscribers(&key("room-messages", "other")).is_empty());
}

#[test]
fn two_subscriptions_to_the_same_key_both_receive() {
    // Every subscription to one stream shares a collection and the document id "id",
    // so the frame cannot distinguish them and the server does not de-duplicate.
    let mut registry = Registry::new();
    registry.insert("s0", key("notify-room", "GENERAL/deleteMessage"), vec![]);
    registry.insert("s1", key("notify-room", "GENERAL/deleteMessage"), vec![]);

    assert_eq!(
        registry.subscribers(&key("notify-room", "GENERAL/deleteMessage")),
        ["s0", "s1"]
    );
}

#[test]
fn a_disconnect_keeps_intent_but_drops_liveness() {
    let mut registry = Registry::new();
    registry.insert("s0", key("room-messages", "__my_messages__"), vec![json(r#""x""#)]);
    registry.mark_ready("s0");

    registry.connection_lost();

    assert_eq!(registry.state("s0"), Some(SubState::Inactive));
    assert_eq!(registry.len(), 1, "intent must survive so the reconnect can replay it");
}

#[test]
fn replay_reproduces_every_subscription_with_its_original_id_and_params() {
    let mut registry = Registry::new();
    registry.insert(
        "s0",
        key("room-messages", "GENERAL"),
        vec![json(r#""GENERAL""#), json(r#"false"#)],
    );
    registry.insert("s1", key("notify-user", "u1/message"), vec![json(r#""u1/message""#)]);
    registry.mark_ready("s0");
    registry.connection_lost();

    let replay = registry.to_replay();
    assert_eq!(replay.len(), 2);
    assert_eq!(replay[0].0, "s0");
    assert_eq!(replay[0].1, key("room-messages", "GENERAL"));
    assert_eq!(replay[0].2, vec![json(r#""GENERAL""#), json(r#"false"#)]);
    assert_eq!(replay[1].0, "s1");

    registry.mark_replayed();
    assert_eq!(registry.state("s0"), Some(SubState::Pending));
    assert_eq!(registry.state("s1"), Some(SubState::Pending));
}

#[test]
fn a_refused_subscription_is_forgotten_so_it_is_not_retried_forever() {
    let mut registry = Registry::new();
    registry.insert("s0", key("room-messages", "secret"), vec![]);

    assert!(registry.remove("s0"));
    assert_eq!(registry.state("s0"), None);
    assert!(registry.to_replay().is_empty(), "a stream the server refuses must not replay");
    assert!(registry.subscribers(&key("room-messages", "secret")).is_empty());
}

#[test]
fn removing_one_of_two_subscribers_leaves_the_other_routable() {
    let mut registry = Registry::new();
    registry.insert("s0", key("notify-room", "GENERAL/typing"), vec![]);
    registry.insert("s1", key("notify-room", "GENERAL/typing"), vec![]);

    registry.remove("s0");
    assert_eq!(registry.subscribers(&key("notify-room", "GENERAL/typing")), ["s1"]);
}

#[test]
fn removing_an_unknown_id_is_reported_not_fatal() {
    let mut registry = Registry::new();
    assert!(!registry.remove("nope"));
}

#[test]
fn an_empty_registry_replays_nothing() {
    let registry = Registry::new();
    assert!(registry.is_empty());
    assert!(registry.to_replay().is_empty());
}

#[test]
fn rekey_moves_a_subscription_onto_its_replay_id_without_disturbing_routing() {
    // A replay must use a fresh id -- the server silently drops a `sub` re-using an
    // outstanding one -- so the registry has to follow the id, not fix it.
    let mut registry = Registry::new();
    registry.insert("s0", key("room-messages", "GENERAL"), vec![json(r#""GENERAL""#)]);
    registry.mark_ready("s0");
    registry.connection_lost();

    assert!(registry.rekey("s0", "s7"));

    assert_eq!(registry.state("s0"), None);
    assert_eq!(registry.state("s7"), Some(SubState::Pending));
    assert_eq!(registry.subscribers(&key("room-messages", "GENERAL")), ["s7"]);
    assert_eq!(registry.to_replay()[0].2, vec![json(r#""GENERAL""#)], "params must survive");
}

#[test]
fn rekey_only_moves_the_entry_it_names() {
    let mut registry = Registry::new();
    registry.insert("s0", key("notify-room", "GENERAL/typing"), vec![]);
    registry.insert("s1", key("notify-room", "GENERAL/typing"), vec![]);

    registry.rekey("s0", "s9");

    let mut subscribers = registry.subscribers(&key("notify-room", "GENERAL/typing")).to_vec();
    subscribers.sort();
    assert_eq!(subscribers, ["s1", "s9"]);
}

#[test]
fn rekeying_an_unknown_id_is_reported_not_fatal() {
    let mut registry = Registry::new();
    assert!(!registry.rekey("nope", "s1"));
}
