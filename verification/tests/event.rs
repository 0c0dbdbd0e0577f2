//! Stream events: what each stream and event name decodes to.
use rocketsocket::model::catalog;
use rocketsocket::model::catalog::KeyPattern;
use rocketsocket::model::datetime::Timestamp;
use rocketsocket::model::entity::{PresenceSource, PresenceStatus, RoomType};
use rocketsocket::model::event::{
    Activity, ClientAction, MyMessageMeta, RoleChangeKind, StreamEvent, SubscriptionChange,
};
use rocketsocket::model::id::{MessageId, RoleId, RoomId, UserId};
use rocketsocket::model::json::Json;
use rocketsocket::model::protocol;
use rocketsocket::model::text::parse_json;

fn json(text: &str) -> Json {
    parse_json(text).expect("fixture")
}

/// A message document with the fields a `stream-room-messages` frame actually carries.
///
/// Shaped after a real frame: `md` (the parsed message AST) and the empty `urls` /
/// `mentions` / `channels` arrays are always present and are exactly the kind of field a
/// stricter model would choke on.
fn message() -> Json {
    json(r#"{"_id": "7aDSXtjMA3KPLxLjt", "rid": "GENERAL", "msg": "hello there", "ts": {"$date": 1755518400000}, "_updatedAt": {"$date": 1755518400000}, "u": {"_id": "rocket.cat", "username": "rocket.cat", "name": "Rocket.Cat"}, "urls": [], "mentions": [], "channels": [], "md": [{"type": "PARAGRAPH", "value": [{"type": "PLAIN_TEXT", "value": "hello there"}]}]}"#)
}

fn args(values: &[Json]) -> Vec<Json> {
    values.to_vec()
}

#[test]
fn a_room_message_takes_its_room_from_the_event_key() {
    let event = StreamEvent::decode("stream-room-messages", "GENERAL", &args(&[message()]));
    let StreamEvent::RoomMessage { room, message } = event else {
        panic!("expected RoomMessage, got {event:?}");
    };
    assert_eq!(room.as_str(), "GENERAL");
    assert_eq!(message.msg, "hello there");
    assert_eq!(message.u.username.as_deref(), Some("rocket.cat"));
}

#[test]
fn the_stream_prefix_is_optional() {
    let with = StreamEvent::decode("stream-room-messages", "GENERAL", &args(&[message()]));
    let without = StreamEvent::decode("room-messages", "GENERAL", &args(&[message()]));
    assert_eq!(with, without);
    assert!(!with.is_unknown());
}

#[test]
fn an_event_that_is_not_decoded_keeps_the_name_it_came_with() {
    let values = args(&[json("null"), json("1")]);
    for stream in ["notify-room", "stream-notify-room"] {
        assert_eq!(
            StreamEvent::decode(stream, "GENERAL/other/x", &values),
            StreamEvent::Unknown {
                stream: stream.to_owned(),
                event: "GENERAL/other/x".to_owned(),
                args: values.clone(),
            }
        );
    }
    // The prefix is taken off once.
    assert!(StreamEvent::decode("stream-stream-room-messages", "GENERAL", &args(&[message()]))
        .is_unknown());
}

/// The divergence that motivates the whole module: `streams.ts` declares `[IMessage]`,
/// the emit site sends `[...args, allowed]`.
#[test]
fn my_messages_carries_the_trailing_element_the_declared_type_does_not_show() {
    assert_eq!(
        catalog::event("room-messages", "__my_messages__").map(|spec| spec.arities),
        Some(vec![1_usize]),
        "streams.ts still declares a single argument",
    );

    let event = StreamEvent::decode(
        "stream-room-messages",
        "__my_messages__",
        &args(&[
            message(),
            json(r#"{"roomParticipant": true, "roomType": "c", "roomName": "general"}"#),
        ]),
    );
    let StreamEvent::MyMessage { message, meta } = event else {
        panic!("expected MyMessage, got {event:?}");
    };
    assert_eq!(message.rid.as_str(), "GENERAL");
    assert_eq!(meta.room_participant, Some(true));
    assert_eq!(meta.room_type, Some(RoomType::Channel));
    assert_eq!(meta.room_name.as_deref(), Some("general"));
}

#[test]
fn my_messages_survives_a_missing_or_reshaped_trailing_element() {
    // The declared arity, from a server old enough not to append it.
    let bare = StreamEvent::decode("stream-room-messages", "__my_messages__", &args(&[message()]));
    assert!(matches!(&bare, StreamEvent::MyMessage { meta, .. } if *meta == MyMessageMeta::default()));

    // The authorization hook is documented as returning `true` on some paths. Losing the
    // annotation is acceptable; losing the message is not.
    let reshaped = StreamEvent::decode(
        "stream-room-messages",
        "__my_messages__",
        &args(&[message(), json(r#"true"#)]),
    );
    let StreamEvent::MyMessage { message, meta } = reshaped else {
        panic!("a reshaped trailing element must not cost us the message");
    };
    assert_eq!(message.id.as_str(), "7aDSXtjMA3KPLxLjt");
    assert_eq!(meta, MyMessageMeta::default());
}

#[test]
fn a_direct_message_room_has_no_room_name() {
    let event = StreamEvent::decode(
        "stream-room-messages",
        "__my_messages__",
        &args(&[message(), json(r#"{"roomParticipant": true, "roomType": "d"}"#)]),
    );
    let StreamEvent::MyMessage { meta, .. } = event else { panic!("expected MyMessage") };
    assert_eq!(meta.room_type, Some(RoomType::Direct));
    assert_eq!(meta.room_name, None);
}

#[test]
fn typing_starts_with_an_activity_and_stops_with_an_empty_list() {
    let start = StreamEvent::decode(
        "stream-notify-room",
        "GENERAL/user-activity",
        &args(&[json(r#""Rocket.Cat""#), json(r#"["user-typing"]"#)]),
    );
    let StreamEvent::UserActivity { room, user, activities } = start else {
        panic!("expected UserActivity");
    };
    assert_eq!(room.as_str(), "GENERAL");
    assert_eq!(user, "Rocket.Cat");
    assert_eq!(activities, vec![Activity::UserTyping]);

    // There is no stop event; the server re-sends the same key with an empty list.
    let stop = StreamEvent::decode(
        "stream-notify-room",
        "GENERAL/user-activity",
        &args(&[json(r#""Rocket.Cat""#), json(r#"[]"#)]),
    );
    let StreamEvent::UserActivity { activities, .. } = stop else {
        panic!("expected UserActivity");
    };
    assert!(activities.is_empty(), "an empty activity list is the stop signal");
}

#[test]
fn an_unknown_activity_round_trips_instead_of_failing() {
    let event = StreamEvent::decode(
        "stream-notify-room",
        "r1/user-activity",
        &args(&[json(r#""bot""#), json(r#"["user-typing", "user-thinking", null, 7]"#)]),
    );
    let StreamEvent::UserActivity { activities, .. } = event else {
        panic!("expected UserActivity");
    };
    assert_eq!(
        activities,
        vec![Activity::UserTyping, Activity::Unknown("user-thinking".to_owned())],
        "unknown strings survive; null holes and non-strings are skipped",
    );
}

/// The client-to-server direction sends a third element the server type does not declare.
#[test]
fn extra_trailing_arguments_are_ignored() {
    let event = StreamEvent::decode(
        "stream-notify-room",
        "GENERAL/user-activity",
        &args(&[json(r#""bot""#), json(r#"["user-typing"]"#), json(r#"{"extras": 1}"#), json(r#""future""#)]),
    );
    assert!(matches!(event, StreamEvent::UserActivity { .. }));
}

#[test]
fn the_legacy_typing_key_still_decodes() {
    let event = StreamEvent::decode(
        "stream-notify-room",
        "GENERAL/typing",
        &args(&[json(r#""rocket.cat""#), json(r#"true"#)]),
    );
    assert_eq!(
        event,
        StreamEvent::Typing {
            room: RoomId::new("GENERAL"),
            user: "rocket.cat".to_owned(),
            typing: true,
        }
    );
}

#[test]
fn a_message_deletion_names_the_room_and_the_message() {
    let event = StreamEvent::decode(
        "stream-notify-room",
        "GENERAL/deleteMessage",
        &args(&[json(r#"{"_id": "7aDSXtjMA3KPLxLjt"}"#)]),
    );
    assert_eq!(
        event,
        StreamEvent::MessageDeleted {
            room: RoomId::new("GENERAL"),
            message: MessageId::new("7aDSXtjMA3KPLxLjt"),
        }
    );
}

#[test]
fn a_bulk_deletion_is_a_query_not_a_list() {
    let event = StreamEvent::decode(
        "stream-notify-room",
        "GENERAL/deleteMessageBulk",
        &args(&[json(r#"{"rid": "GENERAL", "excludePinned": false, "ignoreDiscussion": true, "ts": {"$gt": {"$date": 1700000000000}, "$lt": {"$date": 1755518400000}}, "users": [], "filesOnly": false}"#)]),
    );
    let StreamEvent::MessagesDeletedBulk { room, bulk } = event else {
        panic!("expected MessagesDeletedBulk");
    };
    assert_eq!(room.as_str(), "GENERAL");
    assert_eq!(bulk.rid.as_str(), "GENERAL");
    assert_eq!(bulk.ids, None, "no id list — the recipient must run the query");
    let ts = bulk.ts.expect("range present");
    assert_eq!(ts.entries.len(), 2);
    assert_eq!(ts.get("$gt").unwrap().unix_millis(), 1_700_000_000_000);
    assert_eq!(bulk.exclude_pinned, Some(false));
    assert_eq!(bulk.ignore_discussion, Some(true));
}

#[test]
fn an_ephemeral_message_is_addressed_to_a_uid_not_a_room() {
    let event = StreamEvent::decode(
        "stream-notify-user",
        "YHz2Xn9aEqSDkrgLM/message",
        &args(&[message()]),
    );
    let StreamEvent::EphemeralMessage { user, message } = event else {
        panic!("expected EphemeralMessage");
    };
    assert_eq!(user.as_str(), "YHz2Xn9aEqSDkrgLM");
    assert_eq!(message.rid.as_str(), "GENERAL", "the room lives in the document");
}

#[test]
fn a_desktop_notification_decodes_with_the_empty_ids_omnichannel_leaves_behind() {
    let event = StreamEvent::decode(
        "stream-notify-user",
        "uid1/notification",
        &args(&[json(r##"{"title": "#general", "text": "rocket.cat: hello there", "payload": {"_id": "", "rid": "", "tmid": "", "sender": {"_id": "rocket.cat", "username": "rocket.cat"}, "type": "c", "message": {"msg": "hello there"}, "name": "general"}}"##)]),
    );
    let StreamEvent::Notification { user, notification } = event else {
        panic!("expected Notification");
    };
    assert_eq!(user.as_str(), "uid1");
    assert_eq!(notification.title, "#general");
    assert_eq!(notification.payload.id.as_str(), "", "omnichannel leaves these empty");
    assert_eq!(notification.payload.room_type, Some(RoomType::Channel));
    assert_eq!(
        notification.payload.message.and_then(|m| m.t),
        None,
        "an ordinary user message has no system type",
    );
}

#[test]
fn rooms_changed_carries_a_verb_and_a_room() {
    let event = StreamEvent::decode(
        "stream-notify-user",
        "uid1/rooms-changed",
        &args(&[
            json(r#""updated""#),
            json(r#"{"_id": "GENERAL", "_updatedAt": {"$date": 1755518400000}, "t": "c", "name": "general", "msgs": 42}"#),
        ]),
    );
    let StreamEvent::RoomsChanged { user, action, room } = event else {
        panic!("expected RoomsChanged");
    };
    assert_eq!(user.as_str(), "uid1");
    assert_eq!(action, ClientAction::Updated);
    assert_eq!(room.name.as_deref(), Some("general"));
}

fn subscription_doc() -> Json {
    json(r#"{"_id": "5v9NNcvVXvSFvBJ9y", "_updatedAt": {"$date": 1755518400000}, "rid": "GENERAL", "u": {"_id": "uid1", "username": "bot"}, "t": "c", "ts": {"$date": 1755000000000}, "name": "general", "open": true, "unread": 3, "userMentions": 1, "groupMentions": 0, "alert": true}"#)
}

#[test]
fn subscriptions_changed_accepts_the_full_document() {
    let event = StreamEvent::decode(
        "stream-notify-user",
        "uid1/subscriptions-changed",
        &args(&[json(r#""updated""#), subscription_doc()]),
    );
    let StreamEvent::SubscriptionsChanged { action, subscription, .. } = event else {
        panic!("expected SubscriptionsChanged");
    };
    assert_eq!(action, ClientAction::Updated);
    assert_eq!(subscription.id().as_str(), "5v9NNcvVXvSFvBJ9y");
    assert_eq!(subscription.room().map(RoomId::as_str), Some("GENERAL"));
    assert_eq!(subscription.full().map(|s| s.unread), Some(3));
}

/// `streams.ts` declares a reduced document for `removed`; every emit path sends the whole
/// one. Both have to work, and the full form must not be mistaken for the reduced one.
#[test]
fn subscriptions_changed_accepts_the_reduced_removal_document() {
    let removal = StreamEvent::decode(
        "stream-notify-user",
        "uid1/subscriptions-changed",
        &args(&[
            json(r#""removed""#),
            json(r#"{"_id": "5v9NNcvVXvSFvBJ9y", "rid": "GENERAL", "t": "c", "u": {"_id": "uid1", "username": "bot"}}"#),
        ]),
    );
    let StreamEvent::SubscriptionsChanged { action, subscription, .. } = removal else {
        panic!("a removal must not be dropped — it is how a bot learns it left a room");
    };
    assert_eq!(action, ClientAction::Removed);
    assert!(matches!(*subscription, SubscriptionChange::Stub(_)));
    assert_eq!(subscription.room().map(RoomId::as_str), Some("GENERAL"));
    assert!(subscription.full().is_none());

    let full = StreamEvent::decode(
        "stream-notify-user",
        "uid1/subscriptions-changed",
        &args(&[json(r#""removed""#), subscription_doc()]),
    );
    let StreamEvent::SubscriptionsChanged { subscription, .. } = full else {
        panic!("expected SubscriptionsChanged");
    };
    assert!(matches!(*subscription, SubscriptionChange::Full(_)), "prefer the full form");
}

#[test]
fn user_data_updates_carry_a_partial_document() {
    let event = StreamEvent::decode(
        "stream-notify-user",
        "uid1/userData",
        &args(&[json(r#"{"type": "updated", "id": "uid1", "diff": {"status": "away", "statusText": "lunch"}, "unset": {"statusSource": 1}}"#)]),
    );
    let StreamEvent::UserData { user, event } = event else { panic!("expected UserData") };
    assert_eq!(user.as_str(), "uid1");
    assert_eq!(event.action, ClientAction::Updated);
    assert_eq!(event.data, None);
    assert_eq!(event.diff.as_ref().and_then(|d| d.get("status")), Some(&json(r#""away""#)));
    assert!(event.unset.is_some_and(|u| u.get("statusSource").is_some()));
}

#[test]
fn a_user_data_verb_this_crate_has_never_seen_does_not_lose_the_event() {
    let event = StreamEvent::decode(
        "stream-notify-user",
        "uid1/userData",
        &args(&[json(r#"{"type": "reconciled", "id": "uid1"}"#)]),
    );
    let StreamEvent::UserData { event, .. } = event else { panic!("expected UserData") };
    assert_eq!(event.action, ClientAction::Unknown("reconciled".to_owned()));
}

#[test]
fn force_logout_treats_an_absent_session_as_a_value_not_an_error() {
    for payload in [args(&[]), args(&[Json::Null])] {
        let event = StreamEvent::decode("stream-notify-user", "uid1/force_logout", &payload);
        assert_eq!(
            event,
            StreamEvent::ForceLogout { user: UserId::new("uid1"), session: None },
            "`ISession['sessionId'] | undefined` — absent is legal",
        );
    }

    let event = StreamEvent::decode(
        "stream-notify-user",
        "uid1/force_logout",
        &args(&[json(r#""sess-1""#)]),
    );
    assert!(matches!(event, StreamEvent::ForceLogout { session: Some(s), .. } if s == "sess-1"));
}

/// The tuple grew 3 → 6 → 8 across releases, and it is nested one array deep.
#[test]
fn user_status_decodes_at_three_six_and_eight_elements() {
    let three = StreamEvent::decode(
        "stream-notify-logged",
        "user-status",
        &args(&[json(r#"[["uid1", "john", 1]]"#).as_array().unwrap()[0].clone()]),
    );
    let StreamEvent::UserStatusChanged(status) = three else {
        panic!("3-element form must decode — servers in the support window still send it");
    };
    assert_eq!(status.user.as_str(), "uid1");
    assert_eq!(status.username.as_deref(), Some("john"));
    assert_eq!(status.status, PresenceStatus::Online);
    assert_eq!(status.status_text, None);
    assert!(status.roles.is_empty());
    assert_eq!(status.status_expires_at, None);

    let six = StreamEvent::decode(
        "stream-notify-logged",
        "user-status",
        &args(&[json(r#"["uid1", "john", 2, "Away for lunch", "John Doe", ["user", "bot"]]"#)]),
    );
    let StreamEvent::UserStatusChanged(status) = six else { panic!("expected UserStatusChanged") };
    assert_eq!(status.status, PresenceStatus::Away);
    assert_eq!(status.status_text.as_deref(), Some("Away for lunch"));
    assert_eq!(status.name.as_deref(), Some("John Doe"));
    assert_eq!(status.roles, vec![RoleId::new("user"), RoleId::new("bot")]);
    assert_eq!(status.status_source, None);

    let eight = StreamEvent::decode(
        "stream-notify-logged",
        "user-status",
        &args(&[json(r#"["uid1", "john", 3, "In a meeting", "John Doe", ["user"], "manual", {"$date": 1755518400000}]"#)]),
    );
    let StreamEvent::UserStatusChanged(status) = eight else {
        panic!("expected UserStatusChanged")
    };
    assert_eq!(status.status, PresenceStatus::Busy);
    assert_eq!(status.status_source, Some(PresenceSource::Manual));
    assert_eq!(status.status_expires_at.map(Timestamp::unix_millis), Some(1_755_518_400_000));
}

/// EJSON writes an `undefined` array element as `null`, so the tuple arrives with holes.
#[test]
fn user_status_tolerates_null_holes_in_the_middle_of_the_tuple() {
    let event = StreamEvent::decode(
        "stream-notify-logged",
        "user-status",
        &args(&[json(r#"["uid1", "john", 0, null, "John Doe", null, null, null]"#)]),
    );
    let StreamEvent::UserStatusChanged(status) = event else {
        panic!("a null hole is absence, not a decode failure");
    };
    assert_eq!(status.status, PresenceStatus::Offline);
    assert_eq!(status.status_text, None);
    assert_eq!(status.name.as_deref(), Some("John Doe"));
    assert!(status.roles.is_empty());
    assert_eq!(status.status_source, None);
}

#[test]
fn roles_that_are_not_a_list_are_none() {
    for roles in [r#""admin""#, "7", "true", r#"{"admin":true}"#] {
        let event = StreamEvent::decode(
            "stream-notify-logged",
            "user-status",
            &args(&[json(&format!(r#"["uid1", "john", 1, null, null, {roles}]"#))]),
        );
        let StreamEvent::UserStatusChanged(status) = event else {
            panic!("the roles never cost the event: {roles}");
        };
        assert_eq!(status.user, UserId::new("uid1"));
        assert_eq!(status.username.as_deref(), Some("john"));
        assert_eq!(status.status, PresenceStatus::Online);
        assert_eq!(status.status_text, None);
        assert_eq!(status.name, None);
        assert!(status.roles.is_empty());
        assert_eq!(status.status_source, None);
        assert_eq!(status.status_expires_at, None);
    }
}

#[test]
fn a_presence_code_this_crate_does_not_know_still_decodes() {
    let event = StreamEvent::decode(
        "stream-notify-logged",
        "user-status",
        &args(&[json(r#"["uid1", "john", 9]"#)]),
    );
    let StreamEvent::UserStatusChanged(status) = event else {
        panic!("expected UserStatusChanged")
    };
    assert_eq!(status.status, PresenceStatus::Unknown(9));
}

#[test]
fn user_status_without_the_nesting_is_unknown() {
    // `[uid, username, code]` rather than `[[uid, username, code]]`.
    let event = StreamEvent::decode(
        "stream-notify-logged",
        "user-status",
        &args(&[json(r#""uid1""#), json(r#""john""#), json(r#"1"#)]),
    );
    assert!(event.is_unknown(), "the payload is one nested array, not three arguments");
}

#[test]
fn a_name_change_carries_only_the_three_projected_fields() {
    let event = StreamEvent::decode(
        "stream-notify-logged",
        "Users:NameChanged",
        &args(&[json(r#"{"_id": "uid1", "name": "John Doe", "username": "john"}"#)]),
    );
    assert_eq!(
        event,
        StreamEvent::UserNameChanged {
            user: UserId::new("uid1"),
            username: Some("john".to_owned()),
            name: Some("John Doe".to_owned()),
        }
    );

    // `IUser.name` and `IUser.username` are both optional at source.
    let sparse = StreamEvent::decode(
        "stream-notify-logged",
        "Users:NameChanged",
        &args(&[json(r#"{"_id": "uid1"}"#)]),
    );
    assert!(matches!(sparse, StreamEvent::UserNameChanged { username: None, name: None, .. }));
}

#[test]
fn a_role_change_is_spelled_added_not_inserted() {
    let event = StreamEvent::decode(
        "stream-notify-logged",
        "roles-change",
        &args(&[json(r#"{"type": "added", "_id": "owner", "u": {"_id": "uid1", "username": "john"}, "scope": "GENERAL"}"#)]),
    );
    let StreamEvent::RolesChanged(change) = event else { panic!("expected RolesChanged") };
    assert_eq!(change.action, RoleChangeKind::Added);
    assert_eq!(change.id.as_str(), "owner");
    assert_eq!(change.scope.as_deref(), Some("GENERAL"), "room-scoped role");
    assert_eq!(change.u.and_then(|u| u.username), Some("john".to_owned()));
}

#[test]
fn an_unknown_stream_keeps_everything() {
    let payload = args(&[json(r#"{"appId": "abc", "status": "manually_enabled"}"#)]);
    let event = StreamEvent::decode("stream-apps", "app/statusUpdate", &payload);
    assert_eq!(
        event,
        StreamEvent::Unknown {
            stream: "stream-apps".to_owned(),
            event: "app/statusUpdate".to_owned(),
            args: payload,
        },
        "the stream name is preserved verbatim, prefix included",
    );
}

#[test]
fn an_unknown_key_on_a_known_stream_is_unknown_with_the_key_unsplit() {
    let payload = args(&[json(r#"{"until": {"$date": 1755518400000}}"#)]);
    let event = StreamEvent::decode("stream-notify-room", "GENERAL/messagesRead", &payload);
    let StreamEvent::Unknown { stream, event: key, args } = event else {
        panic!("expected Unknown");
    };
    assert_eq!(stream, "stream-notify-room");
    assert_eq!(key, "GENERAL/messagesRead", "composite keys are not split in Unknown");
    assert_eq!(args, payload);
}

#[test]
fn a_known_event_with_garbage_arguments_lands_in_unknown_without_panicking() {
    let cases: [(&str, &str, Vec<Json>); 6] = [
        // A number where the message document belongs.
        ("stream-room-messages", "GENERAL", args(&[json(r#"42"#)])),
        // A message missing `rid`, which the model requires.
        (
            "stream-room-messages",
            "__my_messages__",
            args(&[json(r#"{"_id": "m1", "msg": "x"}"#)]),
        ),
        // The username slot holds an object.
        (
            "stream-notify-room",
            "GENERAL/user-activity",
            args(&[json(r#"{"nope": true}"#), json(r#"["user-typing"]"#)]),
        ),
        // The activity list is not a list.
        (
            "stream-notify-room",
            "GENERAL/user-activity",
            args(&[json(r#""bot""#), json(r#""user-typing""#)]),
        ),
        // A deletion with no `_id`.
        ("stream-notify-room", "GENERAL/deleteMessage", args(&[json(r#"{}"#)])),
        // A composite key with an empty prefix.
        ("stream-notify-user", "/message", args(&[message()])),
    ];

    for (stream, key, payload) in cases {
        let event = StreamEvent::decode(stream, key, &payload);
        assert!(
            event.is_unknown(),
            "{stream} {key} should have fallen back to Unknown, got {event:?}",
        );
        let StreamEvent::Unknown { args: kept, .. } = event else { unreachable!() };
        assert_eq!(kept, payload, "the raw arguments must survive the fallback");
    }
}

#[test]
fn an_empty_argument_array_never_panics() {
    let streams = [
        ("stream-room-messages", "GENERAL"),
        ("stream-room-messages", "__my_messages__"),
        ("stream-notify-room", "GENERAL/user-activity"),
        ("stream-notify-room", "GENERAL/typing"),
        ("stream-notify-room", "GENERAL/deleteMessage"),
        ("stream-notify-room", "GENERAL/deleteMessageBulk"),
        ("stream-notify-user", "uid1/message"),
        ("stream-notify-user", "uid1/notification"),
        ("stream-notify-user", "uid1/rooms-changed"),
        ("stream-notify-user", "uid1/subscriptions-changed"),
        ("stream-notify-user", "uid1/userData"),
        ("stream-notify-logged", "user-status"),
        ("stream-notify-logged", "Users:NameChanged"),
        ("stream-notify-logged", "roles-change"),
        ("stream-notify-logged", "banner-changed"),
        ("stream-does-not-exist", ""),
        ("", ""),
    ];
    for (stream, key) in streams {
        let event = StreamEvent::decode(stream, key, &[]);
        assert!(
            event.is_unknown() || matches!(event, StreamEvent::ForceLogout { .. }),
            "{stream} {key} produced {event:?}",
        );
    }

    // `force_logout` is the one event whose only argument is legitimately absent.
    assert!(!StreamEvent::decode("stream-notify-user", "uid1/force_logout", &[]).is_unknown());
}

#[test]
fn a_whole_ddp_frame_decodes_end_to_end() {
    let frame = protocol::ServerMessage::parse(
        r#"{"msg":"changed","collection":"stream-notify-room","id":"id",
            "fields":{"eventName":"GENERAL/user-activity",
                      "args":["Rocket.Cat",["user-typing"]]}}"#,
    )
    .expect("frame decodes");
    let raw = frame.as_stream_event().expect("it is a stream event");
    assert_eq!(raw.stream, "notify-room", "the protocol layer strips the prefix");

    let event = StreamEvent::from(raw);
    assert!(matches!(event, StreamEvent::UserActivity { .. }));
    assert_eq!(event, StreamEvent::decode_raw(raw));
    assert_eq!(event.room().map(RoomId::as_str), Some("GENERAL"));
}

#[test]
fn room_reports_the_room_even_when_it_is_not_in_the_event_key() {
    let keyed = StreamEvent::decode("room-messages", "GENERAL", &args(&[message()]));
    let mine = StreamEvent::decode("room-messages", "__my_messages__", &args(&[message()]));
    assert_eq!(keyed.room().map(RoomId::as_str), Some("GENERAL"));
    assert_eq!(mine.room().map(RoomId::as_str), Some("GENERAL"), "taken from the document");
    assert_eq!(
        StreamEvent::decode("stream-notify-logged", "user-status", &args(&[json(r#"["u", "n", 1]"#)]))
            .room(),
        None,
    );
}

/// Every `(stream, event key)` this module types, as a concrete key the catalog can match.
const TYPED: &[(&str, &str)] = &[
    ("room-messages", "__my_messages__"),
    ("room-messages", "GENERAL"),
    ("notify-room", "GENERAL/user-activity"),
    ("notify-room", "GENERAL/typing"),
    ("notify-room", "GENERAL/deleteMessage"),
    ("notify-room", "GENERAL/deleteMessageBulk"),
    ("notify-user", "uid1/message"),
    ("notify-user", "uid1/notification"),
    ("notify-user", "uid1/rooms-changed"),
    ("notify-user", "uid1/subscriptions-changed"),
    ("notify-user", "uid1/userData"),
    ("notify-user", "uid1/force_logout"),
    ("notify-logged", "user-status"),
    ("notify-logged", "Users:NameChanged"),
    ("notify-logged", "roles-change"),
];

/// The point of generating the catalog: if Rocket.Chat drops or renames one of these, the
/// build fails here instead of the bot quietly never receiving the event again.
#[test]
fn every_typed_event_still_exists_upstream() {
    for (stream, key) in TYPED {
        assert!(
            catalog::event(stream, key).is_some(),
            "`{stream}` / `{key}` is typed here but no longer declared in streams.ts",
        );
    }
}

#[test]
fn the_catalog_matches_what_the_generator_reported() {
    assert_eq!(catalog::streams().len(), catalog::STREAM_COUNT);
    assert_eq!(catalog::STREAM_COUNT, 17);
    assert_eq!(
        catalog::streams().iter().map(|s| s.events.len()).sum::<usize>(),
        catalog::EVENT_COUNT,
    );
    assert_eq!(catalog::EVENT_COUNT, 80);
    assert_eq!(catalog::UPSTREAM_VERSION, "8.8.0-develop");
}

#[test]
fn catalog_lookup_respects_declaration_order() {
    let stream = catalog::stream("stream-room-messages").expect("declared");
    assert_eq!(stream.name, "room-messages");
    assert_eq!(
        stream.event("__my_messages__").map(|spec| spec.key),
        Some(catalog::KeyPattern::Literal("__my_messages__")),
        "the literal key must win over the catch-all room-id key that follows it",
    );
    assert_eq!(
        stream.event("GENERAL").map(|spec| spec.key),
        Some(catalog::KeyPattern::Any),
    );
}

#[test]
fn key_patterns_split_on_the_first_slash_only() {
    assert!(KeyPattern::Suffix("user-activity").matches("GENERAL/user-activity"));
    assert!(!KeyPattern::Suffix("user-activity").matches("/user-activity"));
    assert!(!KeyPattern::Suffix("user-activity").matches("user-activity"));
    assert!(KeyPattern::Suffix("e2e.keyRequest").matches("rid/e2e.keyRequest"));
    assert!(KeyPattern::Prefix("department").matches("department/sales"));
    assert!(!KeyPattern::Prefix("department").matches("department/"));
    assert!(KeyPattern::Any.matches(""));
}

#[test]
fn the_catalog_records_the_arities_this_module_relies_on() {
    let user_status = catalog::event("notify-logged", "user-status").expect("declared");
    assert_eq!(user_status.arities, [1], "one argument, which is itself an 8-slot array");
    assert!(user_status.args.contains("statusExpiresAt"));

    let license = catalog::event("notify-all", "license").expect("declared");
    assert_eq!(license.arities, [0, 1], "a union of tuples of differing length");

    let broadcast = catalog::event("local", "broadcast").expect("declared");
    assert!(broadcast.variadic, "`any[]`, not a fixed tuple");
}
