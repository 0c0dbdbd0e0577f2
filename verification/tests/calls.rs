//! Matching calls with their replies.
use rocketsocket::model::json::Json;
use rocketsocket::model::protocol::DdpError;
use rocketsocket::model::text::parse_json;
use rocketsocket::model::wire::Decode;
use rocketsocket::realtime::correlate::{
    Answer, CallError, Correlator, Delivery, Epoch, Reply, Resolution,
};

fn json(text: &str) -> Json {
    parse_json(text).expect("fixture")
}

/// Sends a reply, saying whether its caller was still there.
fn send(delivery: Delivery) -> bool {
    delivery.to.send(delivery.reply).is_ok()
}

/// Sends what an answer says to send, and says what became of it.
fn settle(answer: Answer) -> Resolution {
    let told = answer.resolution(true);
    let missed = answer.resolution(false);
    match answer {
        Answer::Deliver(delivery) => {
            if send(delivery) {
                told
            } else {
                missed
            }
        }
        Answer::Unknown | Answer::Stale => told,
    }
}

#[test]
fn a_reply_reaches_its_caller() {
    let mut correlator = Correlator::new("m");
    let (id, receiver) = correlator.register();
    correlator.mark_sent(&id);

    assert_eq!(settle(correlator.resolve(&id, Ok(json(r#"{"ok": true}"#)))), Resolution::Delivered);
    assert_eq!(receiver.blocking_recv().unwrap().unwrap(), json(r#"{"ok": true}"#));
    assert_eq!(correlator.pending(), 0);
}

#[test]
fn ids_are_unique_and_prefixed_so_calls_and_subs_cannot_collide() {
    let mut methods = Correlator::new("m");
    let mut subs = Correlator::new("s");

    let (first, _a) = methods.register();
    let (second, _b) = methods.register();
    let (sub, _c) = subs.register();

    assert_ne!(first, second);
    assert!(first.starts_with('m') && sub.starts_with('s'));
    // A nosub answering a sub must never be able to settle a method's waiter.
    assert_ne!(first, sub);
}

#[test]
fn an_unknown_reply_is_reported_but_never_fatal() {
    // siderite tears the whole connection down here; a stray frame must not cost us the
    // socket.
    let mut correlator = Correlator::new("m");
    assert_eq!(settle(correlator.resolve("nope", Ok(json(r#"1"#)))), Resolution::Unknown);
}

#[test]
fn a_duplicate_reply_is_unknown_rather_than_a_panic() {
    let mut correlator = Correlator::new("m");
    let (id, _receiver) = correlator.register();
    assert_eq!(settle(correlator.resolve(&id, Ok(json(r#"1"#)))), Resolution::Delivered);
    assert_eq!(settle(correlator.resolve(&id, Ok(json(r#"1"#)))), Resolution::Unknown);
}

#[test]
fn disconnect_distinguishes_sent_from_unsent_calls() {
    // This decides whether retrying re-posts a message. It has to be right.
    let mut correlator = Correlator::new("m");
    let (sent_id, sent_rx) = correlator.register();
    let (_unsent_id, unsent_rx) = correlator.register();
    correlator.mark_sent(&sent_id);

    let fates = correlator.disconnect();
    assert_eq!(fates.len(), 2);
    for fate in fates {
        assert!(send(fate));
    }

    match sent_rx.blocking_recv().unwrap().unwrap_err() {
        CallError::Abandoned { id } => assert_eq!(id, sent_id),
        other => panic!("expected Abandoned, got {other:?}"),
    }
    assert_eq!(unsent_rx.blocking_recv().unwrap().unwrap_err(), CallError::NotSent);
}

#[test]
fn nothing_is_left_pending_after_a_disconnect() {
    let mut correlator = Correlator::new("m");
    let (_id, _rx) = correlator.register();
    correlator.disconnect();
    assert_eq!(correlator.pending(), 0, "a waiter left pending hangs its caller forever");
}

#[test]
fn a_late_reply_from_a_superseded_socket_cannot_settle_a_new_call() {
    let mut correlator = Correlator::new("m");
    let (id, _dead_rx) = correlator.register();
    correlator.mark_sent(&id);
    correlator.disconnect();

    // The new connection happens to hand out the same id shape; the epoch is what saves
    // us. Re-register so an entry exists under a *new* epoch.
    let (new_id, new_rx) = correlator.register();
    assert_eq!(settle(correlator.resolve(&new_id, Ok(json(r#""fresh""#)))), Resolution::Delivered);
    assert_eq!(new_rx.blocking_recv().unwrap().unwrap(), json(r#""fresh""#));
}

#[test]
fn a_caller_that_stopped_waiting_is_reported_not_panicked_on() {
    let mut correlator = Correlator::new("m");
    let (id, receiver) = correlator.register();
    drop(receiver);
    assert_eq!(settle(correlator.resolve(&id, Ok(json(r#"1"#)))), Resolution::CallerGone);
}

#[test]
fn a_server_error_reaches_the_caller_as_such() {
    let mut correlator = Correlator::new("m");
    let (id, receiver) = correlator.register();
    let error = DdpError::decode(&json(r#"{"error":"error-not-allowed","reason":"Not allowed"}"#)).unwrap();

    assert_eq!(settle(correlator.resolve(&id, Err(error.clone()))), Resolution::Delivered);
    assert_eq!(receiver.blocking_recv().unwrap().unwrap_err(), CallError::Server(error));
}

#[test]
fn an_answer_names_its_caller_and_its_reply() {
    let mut correlator = Correlator::new("m");
    let (id, receiver) = correlator.register();
    match correlator.resolve(&id, Ok(json("7"))) {
        Answer::Deliver(delivery) => {
            assert_eq!(delivery.id, id);
            assert_eq!(delivery.reply, Ok(json("7")));
            assert!(send(delivery), "the caller waits");
        }
        other => panic!("{other:?}"),
    }
    assert_eq!(receiver.blocking_recv().unwrap(), Ok(json("7")));
    assert!(matches!(correlator.resolve(&id, Ok(json("7"))), Answer::Unknown));
}

#[test]
fn every_waiter_is_told_its_own_fate_once() {
    let mut correlator = Correlator::new("m");
    let mut waiting = Vec::new();
    for sent in [true, false, true] {
        let (id, receiver) = correlator.register();
        if sent {
            correlator.mark_sent(&id);
        }
        waiting.push((id, sent, receiver));
    }
    let mut fates = Vec::new();
    for fate in correlator.disconnect() {
        fates.push(fate.id.clone());
        assert!(send(fate));
    }
    fates.sort();
    assert_eq!(fates, ["m0", "m1", "m2"]);
    assert!(correlator.disconnect().is_empty(), "nobody is told twice");
    for (id, sent, receiver) in waiting {
        let told: Reply = receiver.blocking_recv().expect("told");
        let expected = if sent { CallError::Abandoned { id } } else { CallError::NotSent };
        assert_eq!(told, Err(expected));
    }
}

#[test]
fn a_cancelled_call_is_forgotten() {
    let mut correlator = Correlator::new("s");
    let (id, _receiver) = correlator.register();
    correlator.cancel(&id);
    assert_eq!(correlator.pending(), 0);
    assert_eq!(settle(correlator.resolve(&id, Ok(Json::Null))), Resolution::Unknown);
    assert_eq!(correlator.register().0, "s1", "ids are not used again");
}

#[test]
fn every_connection_has_its_own_epoch() {
    let mut correlator = Correlator::new("m");
    assert_eq!(correlator.epoch(), Epoch::first());
    correlator.disconnect();
    assert_eq!(correlator.epoch(), Epoch::first().next());
    assert_ne!(Epoch::first(), Epoch::first().next());
    assert_eq!(Epoch::default(), Epoch::first());
}

#[test]
fn a_call_error_prints_what_happened() {
    assert_eq!(CallError::NotSent.to_text(), "connection closed before the call was sent");
    assert_eq!(
        CallError::Abandoned { id: "m0".to_owned() }.to_text(),
        "connection closed after the call was sent; it may have been executed"
    );
    let error = DdpError::decode(&json(r#"{"error":403,"reason":"no"}"#)).unwrap();
    assert_eq!(CallError::Server(error).to_text(), "no [403]");
}
