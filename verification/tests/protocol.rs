//! The frames of the protocol: reading, writing, and what stream events are made of.
use core::time::Duration;
use rocketsocket::model::json::{Json, JsonMap};
use rocketsocket::model::protocol::{
    ClientMessage, DdpError, ErrorCode, ServerMessage, StreamFields, UnknownMessage,
    STREAM_DOCUMENT_ID,
};
use rocketsocket::model::text::parse_json;
use rocketsocket::model::wire::{Decode, Encode};

fn parse(text: &str) -> ServerMessage {
    ServerMessage::parse(text).expect("every DDP frame must decode")
}

fn json(text: &str) -> Json {
    parse_json(text).expect("fixture")
}

fn object(text: &str) -> JsonMap {
    match json(text) {
        Json::Object(map) => map,
        other => panic!("not an object: {other:?}"),
    }
}

fn fields(args: Json) -> JsonMap {
    let mut map = JsonMap::new();
    map.insert("eventName".to_owned(), Json::string("user-status"));
    map.insert("args".to_owned(), args);
    map
}

#[test]
fn connect_serializes_without_a_session_member() {
    let written = ClientMessage::connect().encode();
    assert_eq!(written, json(r#"{"msg": "connect", "version": "1", "support": ["1"]}"#));
    assert!(written.get("session").is_none());
}

#[test]
fn handshake_pair_round_trips() {
    let connected = parse(r#"{"msg":"connected","session":"2CLZHwFBM6qGyPB7A"}"#);
    assert_eq!(connected, ServerMessage::Connected { session: "2CLZHwFBM6qGyPB7A".into() });

    let failed = parse(r#"{"msg":"failed","version":"1"}"#);
    assert_eq!(failed, ServerMessage::Failed { version: "1".into() });
}

#[test]
fn empty_params_are_omitted() {
    let method = ClientMessage::method("42".to_owned(), "getServerInfo".to_owned(), vec![]);
    assert_eq!(
        method.encode(),
        json(r#"{"msg": "method", "id": "42", "method": "getServerInfo"}"#)
    );

    let sub = ClientMessage::sub("1".to_owned(), "activeUsers".to_owned(), vec![]);
    assert_eq!(
        sub.encode(),
        json(r#"{"msg": "sub", "id": "1", "name": "activeUsers"}"#)
    );
}

#[test]
fn present_params_are_kept_as_an_array() {
    let method = ClientMessage::method("3".to_owned(), "login".to_owned(), vec![json(r#"{"resume": "tok"}"#)]);
    let value = method.encode();
    assert_eq!(
        value,
        json(r#"{"msg": "method", "id": "3", "method": "login", "params": [{"resume": "tok"}]}"#)
    );
    // The server's `check()` rejects a non-array `params`.
    assert!(value.get("params").and_then(Json::as_array).is_some());
}

#[test]
fn id_less_ping_and_pong_omit_the_id() {
    assert_eq!(
        (ClientMessage::Pong { id: None }).encode(),
        json(r#"{"msg":"pong"}"#)
    );
    assert_eq!(
        (ClientMessage::Ping { id: Some("7".into()) }).encode(),
        json(r#"{"msg":"ping","id":"7"}"#)
    );
}

#[test]
fn client_messages_round_trip() {
    for message in [
        ClientMessage::connect(),
        ClientMessage::method("1".to_owned(), "sendMessage".to_owned(), vec![json(r#"{"rid": "GENERAL"}"#)]),
        ClientMessage::sub("2".to_owned(), "stream-room-messages".to_owned(), vec![json(r#""GENERAL""#), json(r#"false"#)]),
        ClientMessage::Unsub { id: "2".into() },
        ClientMessage::Ping { id: None },
        ClientMessage::Pong { id: Some("x".into()) },
    ] {
        assert_eq!(ClientMessage::decode(&message.encode()).unwrap(), message);
    }
}

#[test]
fn client_correlation_ids() {
    assert_eq!(ClientMessage::connect().id(), None);
    assert_eq!(ClientMessage::method("9".to_owned(), "m".to_owned(), vec![]).id(), Some("9"));
    assert_eq!(ClientMessage::Ping { id: None }.id(), None);
}

#[test]
fn ready_batches_several_subscriptions() {
    let frame = parse(r#"{"msg":"ready","subs":["1","2","3"]}"#);
    let ServerMessage::Ready { subs } = frame else { panic!("expected ready") };
    assert_eq!(subs, ["1", "2", "3"]);
}

#[test]
fn updated_batches_several_methods() {
    let frame = parse(r#"{"msg":"updated","methods":["4","5"]}"#);
    assert_eq!(frame, ServerMessage::Updated { methods: vec!["4".into(), "5".into()] });
}

#[test]
fn nosub_without_error_is_an_unsubscribe_acknowledgement() {
    let frame = parse(r#"{"msg":"nosub","id":"2"}"#);
    let ServerMessage::Nosub { id, error } = frame else { panic!("expected nosub") };
    assert_eq!(id, "2");
    assert!(error.is_none());
}

#[test]
fn nosub_with_error_is_a_rejected_subscription() {
    let frame = parse(
        r#"{"msg":"nosub","id":"2","error":{"isClientSafe":true,"error":"error-not-allowed",
            "reason":"Not allowed","message":"Not allowed [error-not-allowed]",
            "errorType":"Meteor.Error"}}"#,
    );
    let ServerMessage::Nosub { error: Some(error), .. } = frame else {
        panic!("expected nosub with error")
    };
    assert!(error.error.is("error-not-allowed"));
    assert_eq!(error.reason.as_deref(), Some("Not allowed"));
    assert_eq!(error.error_type.as_deref(), Some("Meteor.Error"));
    assert_eq!(error.is_client_safe, Some(true));
    assert_eq!(error.to_text(), "Not allowed [error-not-allowed]");
}

#[test]
fn changed_may_carry_cleared_and_no_fields_at_all() {
    // stringifyDDP deletes `fields` once every key has moved into `cleared`.
    let frame = parse(r#"{"msg":"changed","collection":"c","id":"i","cleared":["a"]}"#);
    let ServerMessage::Changed { collection, id, fields, cleared } = frame else {
        panic!("expected changed")
    };
    assert_eq!(collection, "c");
    assert_eq!(id, "i");
    assert!(fields.is_none());
    assert_eq!(cleared.unwrap(), ["a"]);
}

#[test]
fn added_and_removed_decode() {
    let added = parse(
        r#"{"msg":"added","collection":"users","id":"rocket.cat","fields":{"username":"rocket.cat"}}"#,
    );
    let ServerMessage::Added { collection, id, fields } = added else {
        panic!("expected added")
    };
    assert_eq!(collection, "users");
    assert_eq!(id, "rocket.cat");
    assert_eq!(fields.unwrap().get("username"), Some(&json(r#""rocket.cat""#)));

    // A document with no fields beyond `_id` arrives without `fields`.
    let bare = parse(r#"{"msg":"added","collection":"users","id":"x"}"#);
    assert_eq!(
        bare,
        ServerMessage::Added { collection: "users".into(), id: "x".into(), fields: None }
    );

    let removed = parse(r#"{"msg":"removed","collection":"users","id":"x"}"#);
    assert_eq!(removed, ServerMessage::Removed { collection: "users".into(), id: "x".into() });
}

#[test]
fn ordered_frames_parse_even_though_no_server_emits_them() {
    let added_before = parse(
        r#"{"msg":"addedBefore","collection":"c","id":"b","fields":{"n":1},"before":"a"}"#,
    );
    assert_eq!(
        added_before,
        ServerMessage::AddedBefore {
            collection: "c".into(),
            id: "b".into(),
            fields: Some(object(r#"{"n":1}"#)),
            before: Some("a".into()),
        }
    );

    // `before: null` means "at the end" and must not be confused with an absent member.
    let moved_before =
        parse(r#"{"msg":"movedBefore","collection":"c","id":"b","before":null}"#);
    assert_eq!(
        moved_before,
        ServerMessage::MovedBefore { collection: "c".into(), id: "b".into(), before: None }
    );
}

#[test]
fn protocol_error_frame_has_no_id() {
    let frame = parse(
        r#"{"msg":"error","reason":"Bad request","offendingMessage":{"msg":"method","id":1}}"#,
    );
    let ServerMessage::Error { reason, offending_message } = &frame else {
        panic!("expected error")
    };
    assert_eq!(reason, "Bad request");
    assert_eq!(offending_message.as_ref().unwrap().get("id"), Some(&json(r#"1"#)));
    // There is no id to correlate this with; a client must not wait for one.
    assert_eq!(frame.correlation_id(), None);

    // Unparseable input produces the frame without `offendingMessage`.
    let bare = parse(r#"{"msg":"error","reason":"Malformed DDP"}"#);
    assert_eq!(
        bare,
        ServerMessage::Error { reason: "Malformed DDP".into(), offending_message: None }
    );
}

#[test]
fn server_ping_and_pong_decode_with_and_without_an_id() {
    assert_eq!(parse(r#"{"msg":"ping"}"#), ServerMessage::Ping { id: None });
    assert_eq!(
        parse(r#"{"msg":"pong","id":"9"}"#),
        ServerMessage::Pong { id: Some("9".into()) }
    );
    assert_eq!(parse(r#"{"msg":"ping","id":"9"}"#).correlation_id(), Some("9"));
}

#[test]
fn result_without_a_result_member() {
    // The monolith omits `result` for `undefined`; ddp-streamer omits it for anything
    // falsy, so `false` and "no value" are the same frame.
    let frame = parse(r#"{"msg":"result","id":"1"}"#);
    assert_eq!(frame, ServerMessage::Result { id: "1".into(), result: None, error: None });
    assert_eq!(frame.correlation_id(), Some("1"));
}

#[test]
fn result_with_a_value() {
    let frame = parse(r#"{"msg":"result","id":"1","result":{"id":"u1","token":"t"}}"#);
    let ServerMessage::Result { result: Some(result), .. } = frame else {
        panic!("expected a result")
    };
    assert_eq!(result.get("token"), Some(&json(r#""t""#)));
}

#[test]
fn numeric_error_codes_decode() {
    // A failed login arrives with the bare number 403, not a string.
    let frame = parse(
        r#"{"msg":"result","id":"1","error":{"isClientSafe":true,"error":403,
            "reason":"User not found","message":"User not found [403]",
            "errorType":"Meteor.Error"}}"#,
    );
    let ServerMessage::Result { error: Some(error), .. } = frame else {
        panic!("expected an error")
    };
    assert_eq!(error.error, ErrorCode::Number(403));
    assert_eq!(error.error.as_number(), Some(403));
    assert_eq!(error.error.as_str(), None);
    assert!(error.error.is("403"));
    assert!(!error.error.is("error-not-allowed"));
    assert_eq!(error.error.to_text(), "403");
}

#[test]
fn string_error_codes_decode() {
    let error = DdpError::decode(&json(r#"{"isClientSafe":true,"error":"error-not-allowed","reason":"Not allowed",
            "message":"Not allowed [error-not-allowed]","errorType":"Meteor.Error",
            "details":{"method":"sendMessage"}}"#)).unwrap();
    assert_eq!(error.error, ErrorCode::String("error-not-allowed".into()));
    assert_eq!(error.error.as_str(), Some("error-not-allowed"));
    assert_eq!(error.error.as_number(), None);
    assert_eq!(error.details.as_ref().unwrap().get("method"), Some(&json(r#""sendMessage""#)));
}

#[test]
fn error_display_falls_back_when_message_is_missing() {
    let error = DdpError::decode(&json(r#"{"error":"error-invalid-room","reason":"Invalid room"}"#)).unwrap();
    assert_eq!(error.to_text(), "Invalid room [error-invalid-room]");
    assert_eq!(error.describe(), "Invalid room");

    let bare = DdpError::decode(&json(r#"{"error":500}"#)).unwrap();
    assert_eq!(bare.to_text(), "500");
    assert_eq!(bare.describe(), "500");

}

#[test]
fn unknown_error_members_survive_a_round_trip() {
    let error = DdpError::decode(&json(r#"{"error":"x","futureMember":{"a":1}}"#)).unwrap();
    assert_eq!(error.extra.get("futureMember"), Some(&json(r#"{"a": 1}"#)));
    assert_eq!(
        error.encode(),
        json(r#"{"error": "x", "futureMember": {"a": 1}}"#)
    );
}

#[test]
fn retry_after_reads_time_to_reset_in_milliseconds() {
    let error = DdpError::decode(&json(r#"{"isClientSafe":true,"error":"too-many-requests",
            "reason":"Error, too many requests. Please slow down. You must wait 10 seconds before trying again.",
            "details":{"timeToReset":10000,"seconds":10},
            "errorType":"Meteor.Error"}"#)).unwrap();
    assert!(error.is_too_many_requests());
    assert_eq!(error.retry_after(), Some(Duration::from_millis(10_000)));

    // No details at all -> no advice.
    let other = DdpError::decode(&json(r#"{"error":"too-many-requests"}"#)).unwrap();
    assert!(other.is_too_many_requests());
    assert_eq!(other.retry_after(), None);

    // Details without the member, and a nonsensical value, both stay non-fatal.
    let empty = DdpError::decode(&json(r#"{"error":"too-many-requests","details":{}}"#)).unwrap();
    assert_eq!(empty.retry_after(), None);
    let negative = DdpError::decode(&json(r#"{"error":"x","details":{"timeToReset":-5}}"#)).unwrap();
    assert_eq!(negative.retry_after(), Some(Duration::ZERO));
}

#[test]
fn expired_session_reasons_are_recognised() {
    let logged_out = DdpError::decode(&json(r#"{"isClientSafe":true,"error":403,
            "reason":"You've been logged out by the server. Please log in again.",
            "message":"You've been logged out by the server. Please log in again. [403]",
            "errorType":"Meteor.Error"}"#)).unwrap();
    assert!(logged_out.is_expired_session());

    let expired = DdpError::decode(&json(r#"{"isClientSafe":true,"error":403,
            "reason":"Your session has expired. Please log in again.",
            "errorType":"Meteor.Error"}"#)).unwrap();
    assert!(expired.is_expired_session());

    // The typographic apostrophe variant must match too — that is why the check is a
    // substring and skips the `You've` prefix.
    let curly = DdpError::decode(&json("{\"error\":403,\"reason\":\"You\u{2019}ve been logged out by the server. Please log in again.\"}")).unwrap();
    assert!(curly.is_expired_session());

    // A retryable failure must not be mistaken for a dead token.
    let wrong_password = DdpError::decode(&json(r#"{"isClientSafe":true,"error":403,"reason":"Incorrect password"}"#)).unwrap();
    assert!(!wrong_password.is_expired_session());
    assert!(!wrong_password.is_too_many_requests());
}

#[test]
fn a_frame_with_no_msg_member_decodes_to_unknown() {
    // Meteor <= 2.2 greeted every socket with this before `connect`.
    let frame = parse(r#"{"server_id":"0"}"#);
    let ServerMessage::Unknown(unknown) = &frame else {
        panic!("expected unknown, got {frame:?}")
    };
    assert_eq!(unknown.msg, None);
    assert_eq!(unknown.rest.get("server_id"), Some(&json(r#""0""#)));
    assert_eq!(frame.encode(), json(r#"{"server_id": "0"}"#));
}

#[test]
fn the_ddp_streamer_server_id_greeting_decodes_to_unknown() {
    let frame = parse(r#"{"msg":"server_id","server_id":"0"}"#);
    let ServerMessage::Unknown(unknown) = &frame else {
        panic!("expected unknown, got {frame:?}")
    };
    assert_eq!(unknown.msg.as_deref(), Some("server_id"));
    assert_eq!(unknown.rest.get("server_id"), Some(&json(r#""0""#)));
    assert_eq!(
        frame.encode(),
        json(r#"{"msg": "server_id", "server_id": "0"}"#)
    );
}

#[test]
fn an_unrecognised_msg_keeps_its_payload() {
    let frame = parse(r#"{"msg":"someFutureFrame","a":1,"b":[true,null]}"#);
    let ServerMessage::Unknown(unknown) = &frame else { panic!("expected unknown") };
    assert_eq!(unknown.msg.as_deref(), Some("someFutureFrame"));
    assert_eq!(unknown.rest.get("a"), Some(&json(r#"1"#)));
    assert_eq!(unknown.rest.get("b"), Some(&json(r#"[true, null]"#)));
    assert_eq!(
        frame.encode(),
        json(r#"{"msg": "someFutureFrame", "a": 1, "b": [true, null]}"#)
    );
    assert_eq!(frame.correlation_id(), None);
}

#[test]
fn an_empty_object_decodes_to_unknown() {
    assert_eq!(parse("{}"), ServerMessage::Unknown(UnknownMessage::default()));
}

#[test]
fn a_non_string_msg_decodes_to_unknown_rather_than_failing() {
    // Not something a server sends, but the catch-all variant must never be the thing
    // that makes decoding fail. The odd value stays in `rest` and round-trips.
    for frame_json in [r#"{"msg":7,"x":1}"#, r#"{"msg":null,"x":1}"#, r#"{"msg":{"a":1}}"#] {
        let frame = parse(frame_json);
        let ServerMessage::Unknown(unknown) = &frame else {
            panic!("expected unknown for {frame_json}")
        };
        assert_eq!(unknown.msg, None);
        assert!(unknown.rest.get("msg").is_some());
        assert_eq!(
            frame.encode(),
            json(frame_json)
        );
    }
}

#[test]
fn a_stream_event_is_a_changed_frame_on_a_fake_collection() {
    let frame = parse(
        r#"{"msg":"changed","collection":"stream-room-messages","id":"id",
            "fields":{"eventName":"GENERAL","args":[{"_id":"m1","msg":"hi"}]}}"#,
    );
    let event = frame.as_stream_event().expect("a stream event");
    assert_eq!(event.stream, "room-messages");
    assert_eq!(event.collection(), "stream-room-messages");
    assert_eq!(event.event_name, "GENERAL");
    assert_eq!(event.arity(), 1);
    assert_eq!(event.arg(0).unwrap().get("msg"), Some(&json(r#""hi""#)));

    // The document id is a constant and carries no information.
    let ServerMessage::Changed { id, .. } = &frame else { panic!("expected changed") };
    assert_eq!(id, STREAM_DOCUMENT_ID);
}

#[test]
fn two_subscriptions_to_one_stream_are_told_apart_by_event_name_only() {
    let subscriptions = parse(
        r#"{"msg":"changed","collection":"stream-notify-user","id":"id",
            "fields":{"eventName":"uid1/subscriptions-changed","args":["updated",{"rid":"r"}]}}"#,
    );
    let rooms = parse(
        r#"{"msg":"changed","collection":"stream-notify-user","id":"id",
            "fields":{"eventName":"uid1/rooms-changed","args":["updated",{"_id":"r"}]}}"#,
    );

    let a = subscriptions.as_stream_event().unwrap();
    let b = rooms.as_stream_event().unwrap();
    // Same collection, same document id: only the event name separates them.
    assert_eq!(a.stream, b.stream);
    assert_ne!(a.event_name, b.event_name);
    assert_eq!(a.arg_str(0), Some("updated"));
}

#[test]
fn user_presence_uses_the_uid_as_both_id_and_event_name() {
    // stream-user-presence ignores the `"id"` convention entirely. Because dispatch is
    // keyed on (collection, eventName) and never on the document id, this needs no
    // special case.
    let frame = parse(
        r#"{"msg":"changed","collection":"stream-user-presence","id":"YHz2Xn9aEqSDkrgLM",
            "fields":{"eventName":"YHz2Xn9aEqSDkrgLM",
                      "args":[["YHz2Xn9aEqSDkrgLM","rocket.cat",1,"Away for lunch"]]}}"#,
    );
    let event = frame.as_stream_event().expect("a stream event");
    assert_eq!(event.stream, "user-presence");
    assert_eq!(event.event_name, "YHz2Xn9aEqSDkrgLM");
    let ServerMessage::Changed { id, .. } = &frame else { panic!("expected changed") };
    assert_eq!(id, event.event_name);
    assert_ne!(id, STREAM_DOCUMENT_ID);

    let inner = event.arg(0).unwrap().as_array().unwrap();
    assert_eq!(inner[1], json(r#""rocket.cat""#));
}

#[test]
fn stream_args_are_positional_and_variable_arity() {
    // `user-status` shipped as 3, then 6, then 8 elements. All must decode.
    for args in [
        json(r#"[["uid", "user", 1, "text"]]"#),
        json(r#"[["uid", "user", 1, "text", "name", 0]]"#),
        json(r#"[["uid", "user", 1, "text", "name", 0, null, {"extra": true}]]"#),
    ] {
        let frame = ServerMessage::Changed {
            collection: "stream-notify-logged".into(),
            id: STREAM_DOCUMENT_ID.into(),
            fields: Some(fields(args.clone())),
            cleared: None,
        };
        let event = frame.as_stream_event().unwrap();
        assert_eq!(event.event_name, "user-status");
        assert!(event.arg(0).unwrap().as_array().is_some());
    }
}

#[test]
fn null_holes_in_args_are_treated_as_absent_but_still_reachable() {
    // EJSON writes an `undefined` array element as null.
    let frame = parse(
        r#"{"msg":"changed","collection":"stream-notify-room","id":"id",
            "fields":{"eventName":"GENERAL/typing","args":["rocket.cat",null,true]}}"#,
    );
    let event = frame.as_stream_event().unwrap();
    assert_eq!(event.arity(), 3);
    assert_eq!(event.arg_str(0), Some("rocket.cat"));
    assert_eq!(event.arg(1), None);
    assert_eq!(event.arg_raw(1), Some(&Json::Null));
    assert_eq!(event.arg_bool(2), Some(true));
    assert_eq!(event.arg(9), None);
    assert_eq!(event.arg_raw(9), None);
    assert_eq!(event.arg_i64(0), None);
    assert_eq!(event.arg_as::<String>(0).as_deref(), Some("rocket.cat"));
    assert_eq!(event.arg_as::<i64>(0), None);
}

#[test]
fn a_stream_frame_without_args_is_still_an_event() {
    let frame = parse(
        r#"{"msg":"changed","collection":"stream-notify-all","id":"id",
            "fields":{"eventName":"public-settings-changed"}}"#,
    );
    let event = frame.as_stream_event().unwrap();
    assert_eq!(event.arity(), 0);
    assert!(event.args.is_empty());
}

#[test]
fn non_stream_frames_are_not_stream_events() {
    // A real collection.
    assert!(
        parse(r#"{"msg":"changed","collection":"users","id":"u","fields":{"a":1}}"#)
            .as_stream_event()
            .is_none()
    );
    // A stream collection but no eventName.
    assert!(
        parse(r#"{"msg":"changed","collection":"stream-x","id":"id","fields":{"args":[]}}"#)
            .as_stream_event()
            .is_none()
    );
    // A stream collection with no fields at all.
    assert!(
        parse(r#"{"msg":"changed","collection":"stream-x","id":"id","cleared":["a"]}"#)
            .as_stream_event()
            .is_none()
    );
    // A different frame type entirely.
    assert!(parse(r#"{"msg":"ready","subs":["1"]}"#).as_stream_event().is_none());
}

#[test]
fn stream_fields_deserialize_on_their_own() {
    let fields = StreamFields::decode(&json(r#"{"eventName":"GENERAL","args":[1,"two"]}"#)).unwrap();
    assert_eq!(fields.event_name, "GENERAL");
    assert_eq!(fields.args, vec![json(r#"1"#), json(r#""two""#)]);

    // `args` is absent on some notify streams.
    let bare = StreamFields::decode(&json(r#"{"eventName":"x"}"#)).unwrap();
    assert!(bare.args.is_empty());
}

#[test]
fn borrowed_raw_value_cannot_work_inside_an_internally_tagged_enum() {
    assert!(matches!(
        parse(r#"{"msg":"result","id":"1","result":{"a":1}}"#),
        ServerMessage::Result { result: Some(_), .. }
    ));
}

#[test]
fn every_known_frame_round_trips_through_json() {
    let frames = [
        r#"{"msg":"connected","session":"s"}"#,
        r#"{"msg":"failed","version":"1"}"#,
        r#"{"msg":"ping"}"#,
        r#"{"msg":"pong","id":"1"}"#,
        r#"{"msg":"result","id":"1","result":[1,2]}"#,
        r#"{"msg":"result","id":"1","error":{"error":403,"reason":"nope"}}"#,
        r#"{"msg":"updated","methods":["1"]}"#,
        r#"{"msg":"nosub","id":"1"}"#,
        r#"{"msg":"ready","subs":["1","2"]}"#,
        r#"{"msg":"added","collection":"c","id":"i","fields":{"a":1}}"#,
        r#"{"msg":"changed","collection":"c","id":"i","cleared":["a"]}"#,
        r#"{"msg":"removed","collection":"c","id":"i"}"#,
        r#"{"msg":"addedBefore","collection":"c","id":"i","before":"j"}"#,
        r#"{"msg":"movedBefore","collection":"c","id":"i","before":"j"}"#,
        r#"{"msg":"error","reason":"Bad request"}"#,
        r#"{"msg":"server_id","server_id":"0"}"#,
        r#"{"server_id":"0"}"#,
    ];

    for frame in frames {
        let decoded = parse(frame);
        let written = decoded.encode();
        let again = ServerMessage::decode(&written).expect("every DDP frame must decode");
        assert_eq!(again, decoded, "round trip changed {frame}");
        assert_eq!(
            written,
            json(frame),
            "re-encoding {frame} lost or invented members"
        );
    }
}

#[test]
fn a_repeated_member_of_its_own_makes_a_frame_malformed() {
    for (text, tag) in [
        (r#"{"msg":"connected","session":"a","session":"b"}"#, "connected"),
        (r#"{"msg":"ping","msg":"connected","session":"a"}"#, "connected"),
        (r#"{"msg":"result","id":"1","id":"1","result":1}"#, "result"),
        (r#"{"msg":"result","id":"1","error":{"error":1},"error":null}"#, "result"),
        (r#"{"msg":"result","id":"1","error":{"error":1,"reason":"a","reason":"b"}}"#, "result"),
        (r#"{"msg":"nosub","id":"1","error":{"error":1,"error":1}}"#, "nosub"),
        (r#"{"msg":"ready","subs":[],"subs":["s0"]}"#, "ready"),
        (r#"{"msg":"changed","collection":"c","id":"i","cleared":[],"cleared":[]}"#, "changed"),
        // A name may be spelled in more than one way.
        (r#"{"msg":"connected","session":"a","\u0073ession":"b"}"#, "connected"),
        (r#"{ "msg" : "connected" , "session" : "a" , "session" : "b" }"#, "connected"),
    ] {
        let frame = parse(text);
        assert!(frame.is_malformed(), "{text}");
        match frame {
            ServerMessage::Unknown(unknown) => assert_eq!(unknown.msg.as_deref(), Some(tag)),
            other => panic!("{other:?}"),
        }
    }
    // What is kept is the last of each name.
    match parse(r#"{"msg":"connected","session":"a","session":"b"}"#) {
        ServerMessage::Unknown(unknown) => {
            assert_eq!(unknown.rest.get("session"), Some(&json("\"b\"")));
        }
        other => panic!("{other:?}"),
    }
}

#[test]
fn a_repeated_member_that_no_frame_has_costs_nothing() {
    assert_eq!(
        parse(r#"{"msg":"connected","session":"a","x":1,"x":2,"id":"1","id":"2"}"#),
        ServerMessage::Connected { session: "a".to_owned() }
    );
    assert_eq!(
        parse(r#"{"msg":"added","collection":"c","id":"i","fields":{"id":1,"id":2,"msg":"a","msg":"b"}}"#),
        ServerMessage::Added {
            collection: "c".to_owned(),
            id: "i".to_owned(),
            fields: Some(object(r#"{"id":2,"msg":"b"}"#)),
        }
    );
    match parse(r#"{"msg":"result","id":"1","error":{"error":1,"x":1,"x":2,"details":{"error":1,"error":2}}}"#) {
        ServerMessage::Result { error: Some(error), .. } => {
            assert_eq!(error.extra.get("x"), Some(&json("2")));
        }
        other => panic!("{other:?}"),
    }
    // A name in a value is no member.
    assert_eq!(
        parse(r#"{"msg":"error","reason":"\"reason\":","offendingMessage":["reason","reason"]}"#),
        ServerMessage::Error {
            reason: "\"reason\":".to_owned(),
            offending_message: Some(json(r#"["reason","reason"]"#)),
        }
    );
}

#[test]
fn a_frame_spelled_as_a_list_repeats_only_the_members_of_its_error() {
    assert!(matches!(
        ServerMessage::parse(r#"["nosub","s1",{"error":1,"x":1,"x":2}]"#),
        Some(ServerMessage::Nosub { error: Some(_), .. })
    ));
    assert_eq!(ServerMessage::parse(r#"["nosub","s1",{"error":1,"error":2}]"#), None);
    assert!(matches!(
        ServerMessage::parse(r#"["result","m1",{"error":1,"error":2},{"error":1}]"#),
        Some(ServerMessage::Result { error: Some(_), .. })
    ));
    assert_eq!(
        ServerMessage::parse(r#"["result","m1",null,{"reason":"a","error":1,"reason":"b"}]"#),
        None
    );
}
