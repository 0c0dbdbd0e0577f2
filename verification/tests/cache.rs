//! What the cache keeps, merges, replaces and drops.
use rocketsocket::cache::config::{DEFAULT_MESSAGE_CACHE_SIZE, DEFAULT_USER_CACHE_SIZE};
use rocketsocket::cache::merge::merge_documents;
use rocketsocket::cache::{Cache, CacheStats, Config, NonZeroSize, ResourceType, TombstonePolicy};
use rocketsocket::model::entity::{Message, Room, Subscription, User};
use rocketsocket::model::id::{MessageId, RoomId, UserId};
use rocketsocket::model::json::Json;
use rocketsocket::model::text::parse_json;
use rocketsocket::model::wire::{Decode, Encode};

fn json(text: &str) -> Json {
    parse_json(text).expect("fixture")
}

fn room(value: Json) -> Room {
    Room::decode(&value).expect("fixture")
}

fn user(value: Json) -> User {
    User::decode(&value).expect("fixture")
}

fn subscription(value: Json) -> Subscription {
    Subscription::decode(&value).expect("fixture")
}

fn message(value: Json) -> Message {
    Message::decode(&value).expect("fixture")
}

/// The names that a document carries, in order.
fn carried_fields<T: Encode>(value: &T) -> Vec<String> {
    let mut names = Vec::new();
    if let Json::Object(map) = value.encode() {
        for (name, _) in &map.entries {
            names.push(name.clone());
        }
    }
    names.sort();
    names
}

fn assert_shareable<T: Send + Sync + 'static>() {}

/// A minimally-populated message, the shape `stream-room-messages` delivers.
fn plain_message(id: &str, rid: &str, body: &str) -> Message {
    message(json(&format!(r#"{{"_id": "{}", "_updatedAt": {{"$date": 1}}, "rid": "{}", "msg": "{}", "ts": {{"$date": 1}}, "u": {{"_id": "u1", "username": "alice"}}}}"#, id, rid, body)))
}

fn room_id(id: &str) -> RoomId {
    RoomId::new(id)
}

fn user_id(id: &str) -> UserId {
    UserId::new(id)
}

fn message_id(id: &str) -> MessageId {
    MessageId::new(id)
}

#[test]
fn inserts_and_reads_back_every_kind() {
    let mut cache = Cache::new();

    cache.update(&room(json(r#"{"_id": "r1", "_updatedAt": {"$date": 1}, "t": "c", "name": "general"}"#)));
    cache.update(&user(json(r#"{"_id": "u1", "username": "alice", "name": "Alice"}"#)));
    cache.update(&subscription(json(r#"{"_id": "s1", "_updatedAt": {"$date": 1}, "rid": "r1", "t": "c", "ts": {"$date": 1}, "name": "general", "open": true, "unread": 3, "userMentions": 1, "groupMentions": 0, "u": {"_id": "u1", "username": "alice"}}"#)));
    cache.update(&plain_message("m1", "r1", "hello"));
    cache.set_current_user(user(json(r#"{"_id": "me", "username": "bot"}"#)));

    assert_eq!(cache.room(&room_id("r1")).unwrap().name.as_deref(), Some("general"));
    assert_eq!(cache.room_id_by_name("general"), Some(room_id("r1")));
    assert_eq!(cache.room_by_name("general").unwrap().id, room_id("r1"));
    assert_eq!(cache.user(&user_id("u1")).unwrap().name.as_deref(), Some("Alice"));
    assert_eq!(cache.user_id_by_username("alice"), Some(user_id("u1")));
    assert_eq!(cache.user_by_username("alice").unwrap().id, user_id("u1"));
    assert_eq!(cache.subscription(&room_id("r1")).unwrap().unread, 3);
    assert_eq!(cache.message(&message_id("m1")).unwrap().msg, "hello");
    assert_eq!(cache.room_message_ids(&room_id("r1")), vec![message_id("m1")]);
    assert_eq!(cache.newest_message_id(&room_id("r1")), Some(message_id("m1")));
    assert_eq!(cache.current_user().unwrap().username.as_deref(), Some("bot"));
    assert_eq!(cache.current_user_id(), Some(user_id("me")));

    let stats = cache.stats();
    assert_eq!(stats.rooms, 1);
    assert_eq!(stats.subscriptions, 1);
    assert_eq!(stats.messages, 1);
    assert_eq!(stats.rooms_with_messages, 1);
    // `alice` plus the current user, which is stored in the users map as well.
    assert_eq!(stats.users, 2);
}

#[test]
fn reference_derefs_and_clones_out() {
    let mut cache = Cache::new();
    cache.update(&room(json(r#"{"_id": "r1", "_updatedAt": {"$date": 1}, "t": "c", "name": "general"}"#)));

    let reference = cache.room(&room_id("r1")).unwrap();
    assert_eq!(reference.key(), &room_id("r1"));
    assert_eq!(reference.value().name.as_deref(), Some("general"));
    assert_eq!(reference.pair().0, &room_id("r1"));
    // Deref
    assert_eq!(reference.name.as_deref(), Some("general"));

    let owned = reference.cloned();
    drop(reference);
    assert_eq!(owned.name.as_deref(), Some("general"));
}

#[test]
fn slices_options_and_vecs_apply_elementwise() {
    let mut cache = Cache::new();
    let rooms = vec![
        room(json(r#"{"_id": "r1", "_updatedAt": {"$date": 1}, "t": "c"}"#)),
        room(json(r#"{"_id": "r2", "_updatedAt": {"$date": 1}, "t": "p"}"#)),
    ];

    cache.update(&rooms);
    cache.update(&Some(room(json(r#"{"_id": "r3", "_updatedAt": {"$date": 1}, "t": "d"}"#))));
    cache.update(&None::<Room>);
    cache.update(&rooms[..]);

    assert_eq!(cache.stats().rooms, 3);
    assert_eq!(cache.room_ids().len(), 3);
}

#[test]
fn a_partial_update_does_not_blank_known_fields() {
    let mut cache = Cache::new();

    cache.update(&room(json(r#"{"_id": "r1", "_updatedAt": {"$date": 1}, "t": "c", "name": "general", "topic": "the topic", "description": "the description", "usersCount": 12, "ro": true}"#)));

    // The projection `stream-notify-user` uses carries almost nothing.
    cache.merge_room(room(json(r#"{"_id": "r1", "_updatedAt": {"$date": 2}, "t": "c", "usersCount": 13}"#)));

    let cached = cache.room(&room_id("r1")).unwrap();
    assert_eq!(cached.name.as_deref(), Some("general"), "name was blanked by a projection");
    assert_eq!(cached.topic.as_deref(), Some("the topic"));
    assert_eq!(cached.description.as_deref(), Some("the description"));
    assert_eq!(cached.ro, Some(true));
    assert_eq!(cached.users_count, Some(13), "a carried field must win");
    assert_eq!(cached.updated_at.unix_millis(), 2);
}

#[test]
fn a_partial_update_does_not_blank_known_fields_on_any_kind() {
    let mut cache = Cache::new();

    cache.update(&user(json(r#"{"_id": "u1", "username": "alice", "name": "Alice", "roles": ["admin"], "status": "online"}"#)));
    // `Users:NameChanged` carries exactly Pick<IUser, '_id'|'name'|'username'>.
    cache.update(&user(json(r#"{"_id": "u1", "username": "alice", "name": "Alicia"}"#)));

    let cached = cache.user(&user_id("u1")).unwrap();
    assert_eq!(cached.name.as_deref(), Some("Alicia"));
    assert!(cached.has_role("admin"), "roles were blanked by a name change");
    assert!(cached.status.is_some());
    drop(cached);

    cache.update(&subscription(json(r#"{"_id": "s1", "_updatedAt": {"$date": 1}, "rid": "r1", "t": "c", "ts": {"$date": 1}, "name": "general", "open": true, "unread": 0, "userMentions": 0, "groupMentions": 0, "u": {"_id": "u1"}, "roles": ["owner"], "f": true}"#)));
    // A subscription always carries its name; what a projection leaves out is the rest.
    cache.update(&subscription(json(r#"{"_id": "s1", "_updatedAt": {"$date": 2}, "rid": "r1", "t": "c", "ts": {"$date": 1}, "name": "general", "open": true, "unread": 5, "userMentions": 0, "groupMentions": 0, "u": {"_id": "u1"}}"#)));

    let cached = cache.subscription(&room_id("r1")).unwrap();
    assert_eq!(cached.unread, 5);
    assert_eq!(cached.name, "general");
    assert!(cached.has_role("owner"));
    assert_eq!(cached.f, Some(true));
    // Laid over the cached document, one without the name leaves it as it was.
    match (cached.encode(), json(r#"{"_id": "s1", "unread": 6}"#)) {
        (Json::Object(mut base), Json::Object(top)) => {
            base.overlay(&top);
            let merged = subscription(Json::Object(base));
            assert_eq!(merged.name, "general");
            assert_eq!(merged.unread, 6);
        }
        other => panic!("{other:?}"),
    }
    drop(cached);

    cache.update(&message(json(r#"{"_id": "m1", "_updatedAt": {"$date": 1}, "rid": "r1", "msg": "hi", "ts": {"$date": 1}, "u": {"_id": "u1", "username": "alice"}, "attachments": [{"text": "a"}], "pinned": true}"#)));
    cache.merge_message(message(json(r#"{"_id": "m1", "_updatedAt": {"$date": 2}, "rid": "r1", "msg": "hi there", "ts": {"$date": 1}, "u": {"_id": "u1", "username": "alice"}, "editedAt": {"$date": 2}}"#)));

    let cached = cache.message(&message_id("m1")).unwrap();
    assert_eq!(cached.msg, "hi there");
    assert!(cached.attachments.is_some(), "an edit blanked the attachments");
    assert_eq!(cached.pinned, Some(true));
    assert!(cached.is_edited());
}

#[test]
fn replace_stores_the_payload_as_the_whole_truth() {
    let mut cache = Cache::new();

    cache.update(&room(json(r#"{"_id": "r1", "_updatedAt": {"$date": 1}, "t": "c", "name": "general", "topic": "the topic"}"#)));

    // A complete document from REST, in which an absent topic means the topic was unset.
    let previous = cache.replace_room(room(json(r#"{"_id": "r1", "_updatedAt": {"$date": 2}, "t": "c", "name": "general"}"#)));

    assert_eq!(previous.unwrap().topic.as_deref(), Some("the topic"));
    assert_eq!(cache.room(&room_id("r1")).unwrap().topic, None);
}

#[test]
fn replace_keeps_the_indices_consistent() {
    let mut cache = Cache::new();

    cache.update(&room(json(r#"{"_id": "r1", "_updatedAt": {"$date": 1}, "t": "c", "name": "general"}"#)));
    cache.replace_room(room(json(r#"{"_id": "r1", "_updatedAt": {"$date": 2}, "t": "c", "name": "renamed"}"#)));

    assert_eq!(cache.room_id_by_name("general"), None);
    assert_eq!(cache.room_id_by_name("renamed"), Some(room_id("r1")));

    cache.update(&user(json(r#"{"_id": "u1", "username": "alice"}"#)));
    cache.replace_user(user(json(r#"{"_id": "u1", "username": "alicia"}"#)));

    assert_eq!(cache.user_id_by_username("alice"), None);
    assert_eq!(cache.user_id_by_username("alicia"), Some(user_id("u1")));

    cache.update(&plain_message("m1", "r1", "one"));
    cache.replace_message(message(json(r#"{"_id": "m1", "_updatedAt": {"$date": 9}, "rid": "r1", "msg": "two", "ts": {"$date": 1}, "u": {"_id": "u1"}}"#)));

    assert_eq!(cache.message(&message_id("m1")).unwrap().msg, "two");
    assert_eq!(cache.room_message_ids(&room_id("r1")), vec![message_id("m1")], "ring duplicated");
}

#[test]
fn resource_gating_prevents_the_write_not_just_the_read() {
    let mut cache = Cache::builder().resource_types(ResourceType::room()).build();

    cache.update(&room(json(r#"{"_id": "r1", "_updatedAt": {"$date": 1}, "t": "c", "name": "general"}"#)));
    cache.update(&user(json(r#"{"_id": "u1", "username": "alice"}"#)));
    cache.update(&subscription(json(r#"{"_id": "s1", "_updatedAt": {"$date": 1}, "rid": "r1", "t": "c", "ts": {"$date": 1}, "name": "general", "open": true, "unread": 0, "userMentions": 0, "groupMentions": 0, "u": {"_id": "u1"}}"#)));
    cache.update(&plain_message("m1", "r1", "hello"));
    cache.set_current_user(user(json(r#"{"_id": "me", "username": "bot"}"#)));

    assert!(cache.room(&room_id("r1")).is_some());
    assert!(cache.user(&user_id("u1")).is_none());
    assert_eq!(cache.user_id_by_username("alice"), None);
    assert!(cache.subscription(&room_id("r1")).is_none());
    assert!(cache.message(&message_id("m1")).is_none());
    assert!(cache.room_message_ids(&room_id("r1")).is_empty());
    assert!(cache.current_user().is_none());

    let stats = cache.stats();
    assert_eq!(stats.rooms, 1);
    assert_eq!((stats.users, stats.subscriptions, stats.messages), (0, 0, 0));
}

#[test]
fn each_flag_gates_only_its_own_kind() {
    for (flag, present) in [
        (ResourceType::room(), "rooms"),
        (ResourceType::user(), "users"),
        (ResourceType::subscription(), "subscriptions"),
        (ResourceType::message(), "messages"),
    ] {
        let mut cache = Cache::builder().resource_types(ResourceType::all() - flag).build();

        cache.update(&room(json(r#"{"_id": "r1", "_updatedAt": {"$date": 1}, "t": "c"}"#)));
        cache.update(&user(json(r#"{"_id": "u1"}"#)));
        cache.update(&subscription(json(r#"{"_id": "s1", "_updatedAt": {"$date": 1}, "rid": "r1", "t": "c", "ts": {"$date": 1}, "name": "general", "open": true, "unread": 0, "userMentions": 0, "groupMentions": 0, "u": {"_id": "u1"}}"#)));
        cache.update(&plain_message("m1", "r1", "hello"));

        let stats = cache.stats();
        let counts = [
            ("rooms", stats.rooms),
            ("users", stats.users),
            ("subscriptions", stats.subscriptions),
            ("messages", stats.messages),
        ];
        for (name, count) in counts {
            let expected = usize::from(name != present);
            assert_eq!(count, expected, "{name} with {} cleared", flag.debug_text());
        }
    }
}

#[test]
fn the_current_user_can_be_cached_without_the_users_map() {
    let mut cache = Cache::builder().resource_types(ResourceType::current_user()).build();

    cache.set_current_user(user(json(r#"{"_id": "me", "username": "bot"}"#)));

    assert_eq!(cache.current_user_id(), Some(user_id("me")));
    assert_eq!(cache.stats().users, 0);
}

#[test]
fn a_zero_message_cache_size_stores_nothing() {
    let mut cache = Cache::builder().message_cache_size(0).build();

    cache.update(&plain_message("m1", "r1", "hello"));

    assert!(cache.message(&message_id("m1")).is_none());
    assert!(cache.room_message_ids(&room_id("r1")).is_empty());
}

#[test]
fn the_ring_bounds_at_capacity_and_evicts_oldest_first() {
    let mut cache = Cache::builder().message_cache_size(3).build();

    for index in 0..5 {
        cache.update(&plain_message(&format!("m{index}"), "r1", "hello"));
    }

    let ids = cache.room_message_ids(&room_id("r1"));
    assert_eq!(ids, vec![message_id("m4"), message_id("m3"), message_id("m2")]);

    // Evicted ids leave the message map too, or the ring bound would not bound anything.
    assert!(cache.message(&message_id("m0")).is_none());
    assert!(cache.message(&message_id("m1")).is_none());
    assert!(cache.message(&message_id("m4")).is_some());
    assert_eq!(cache.stats().messages, 3);
}

#[test]
fn rings_are_per_room() {
    let mut cache = Cache::builder().message_cache_size(2).build();

    cache.update(&plain_message("a1", "ra", "hello"));
    cache.update(&plain_message("b1", "rb", "hello"));
    cache.update(&plain_message("b2", "rb", "hello"));
    cache.update(&plain_message("b3", "rb", "hello"));

    assert_eq!(cache.room_message_ids(&room_id("ra")), vec![message_id("a1")]);
    assert_eq!(cache.room_message_ids(&room_id("rb")), vec![message_id("b3"), message_id("b2")]);
    assert_eq!(cache.stats().messages, 3);
}

#[test]
fn an_edit_updates_in_place_without_reordering_the_ring() {
    let mut cache = Cache::builder().message_cache_size(4).build();

    cache.update(&plain_message("m1", "r1", "first"));
    cache.update(&plain_message("m2", "r1", "second"));
    cache.update(&message(json(r#"{"_id": "m1", "_updatedAt": {"$date": 9}, "rid": "r1", "msg": "first, edited", "ts": {"$date": 1}, "u": {"_id": "u1"}, "editedAt": {"$date": 9}}"#)));

    assert_eq!(cache.room_message_ids(&room_id("r1")), vec![message_id("m2"), message_id("m1")]);
    assert_eq!(cache.message(&message_id("m1")).unwrap().msg, "first, edited");
    assert_eq!(cache.stats().messages, 2);
}

#[test]
fn an_explicit_deletion_removes_from_the_map_and_the_ring() {
    let mut cache = Cache::new();

    cache.update(&plain_message("m1", "r1", "one"));
    cache.update(&plain_message("m2", "r1", "two"));

    let removed = cache.remove_message(&message_id("m1"));

    assert_eq!(removed.unwrap().msg, "one");
    assert!(cache.message(&message_id("m1")).is_none());
    assert_eq!(cache.room_message_ids(&room_id("r1")), vec![message_id("m2")]);
    assert_eq!(cache.stats().messages, 1);
}

#[test]
fn remove_message_in_works_for_a_message_that_was_never_cached() {
    // The shape of a `stream-notify-room` `<rid>/deleteMessage` event: `{_id, ts}` and the
    // room id from the event key. The document itself may predate the process.
    let mut cache = Cache::new();
    cache.update(&plain_message("m1", "r1", "one"));

    assert!(cache.remove_message_in(&room_id("r1"), &message_id("unseen")).is_none());
    assert_eq!(cache.room_message_ids(&room_id("r1")), vec![message_id("m1")]);

    assert!(cache.remove_message_in(&room_id("r1"), &message_id("m1")).is_some());
    assert!(cache.room_message_ids(&room_id("r1")).is_empty());
    // An emptied ring is dropped rather than left as an empty entry.
    assert_eq!(cache.stats().rooms_with_messages, 0);
}

#[test]
fn removing_a_room_cascades_to_its_subscription_and_messages() {
    let mut cache = Cache::new();

    cache.update(&room(json(r#"{"_id": "r1", "_updatedAt": {"$date": 1}, "t": "c", "name": "general"}"#)));
    cache.update(&subscription(json(r#"{"_id": "s1", "_updatedAt": {"$date": 1}, "rid": "r1", "t": "c", "ts": {"$date": 1}, "name": "general", "open": true, "unread": 0, "userMentions": 0, "groupMentions": 0, "u": {"_id": "u1"}}"#)));
    cache.update(&plain_message("m1", "r1", "one"));
    cache.update(&plain_message("m2", "r1", "two"));
    cache.update(&plain_message("k1", "keep", "kept"));

    let removed = cache.remove_room(&room_id("r1"));

    assert!(removed.is_some());
    assert_eq!(cache.room_id_by_name("general"), None);
    assert!(cache.subscription(&room_id("r1")).is_none());
    assert!(cache.message(&message_id("m1")).is_none());
    assert!(cache.message(&message_id("m2")).is_none());
    assert!(cache.room_message_ids(&room_id("r1")).is_empty());
    assert_eq!(cache.message(&message_id("k1")).unwrap().msg, "kept");
}

#[test]
fn clear_empties_everything() {
    let mut cache = Cache::new();
    cache.update(&room(json(r#"{"_id": "r1", "_updatedAt": {"$date": 1}, "t": "c", "name": "general"}"#)));
    cache.update(&plain_message("m1", "r1", "one"));
    cache.set_current_user(user(json(r#"{"_id": "me", "username": "bot"}"#)));

    cache.clear();

    assert_eq!(cache.stats(), CacheStats::default());
    assert_eq!(cache.room_id_by_name("general"), None);
    assert!(cache.current_user().is_none());
}

fn tombstone(id: &str, rid: &str) -> Message {
    message(json(&format!(r#"{{"_id": "{}", "_updatedAt": {{"$date": 9}}, "rid": "{}", "msg": "", "ts": {{"$date": 1}}, "u": {{"_id": "u1", "username": "alice"}}, "t": "rm", "editedAt": {{"$date": 9}}, "editedBy": {{"_id": "u2"}}}}"#, id, rid)))
}

#[test]
fn the_fixture_really_is_a_tombstone() {
    assert!(tombstone("m1", "r1").is_deleted_tombstone());
}

#[test]
fn a_tombstone_replaces_the_body_instead_of_merging_into_it() {
    let mut cache = Cache::new();

    cache.update(&message(json(r#"{"_id": "m1", "_updatedAt": {"$date": 1}, "rid": "r1", "msg": "secret", "ts": {"$date": 1}, "u": {"_id": "u1", "username": "alice"}, "attachments": [{"text": "secret attachment"}], "urls": [{"url": "https://example.com/secret"}], "reactions": {":tada:": {"usernames": ["alice"]}}, "md": [{"type": "PARAGRAPH"}]}"#)));

    cache.update(&tombstone("m1", "r1"));

    let cached = cache.message(&message_id("m1")).expect("tombstone kept, not evicted");
    assert!(cached.is_deleted_tombstone());
    assert_eq!(cached.msg, "");
    assert!(cached.attachments.is_none(), "a merge resurrected the deleted attachments");
    assert!(cached.urls.is_none());
    assert!(cached.reactions.is_none());
    assert!(cached.md.is_none());
    drop(cached);

    // The document still exists server-side, so it keeps its place in the room history.
    assert_eq!(cache.room_message_ids(&room_id("r1")), vec![message_id("m1")]);
}

#[test]
fn a_tombstone_evicts_under_the_evict_policy() {
    let mut cache = Cache::builder().tombstone_policy(TombstonePolicy::Evict).build();

    cache.update(&plain_message("m1", "r1", "secret"));
    cache.update(&plain_message("m2", "r1", "kept"));

    cache.update(&tombstone("m1", "r1"));

    assert!(cache.message(&message_id("m1")).is_none());
    assert_eq!(cache.room_message_ids(&room_id("r1")), vec![message_id("m2")]);
}

#[test]
fn a_tombstone_for_an_uncached_message_does_not_resurrect_it_under_evict() {
    let mut cache = Cache::builder().tombstone_policy(TombstonePolicy::Evict).build();

    cache.update(&tombstone("m1", "r1"));

    assert!(cache.message(&message_id("m1")).is_none());
    assert!(cache.room_message_ids(&room_id("r1")).is_empty());
}

#[test]
fn the_name_index_follows_a_rename() {
    let mut cache = Cache::new();

    cache.update(&room(json(r#"{"_id": "r1", "_updatedAt": {"$date": 1}, "t": "c", "name": "general"}"#)));
    cache.update(&room(json(r#"{"_id": "r1", "_updatedAt": {"$date": 2}, "t": "c", "name": "lobby"}"#)));

    assert_eq!(cache.room_id_by_name("general"), None, "the old name still resolves");
    assert_eq!(cache.room_id_by_name("lobby"), Some(room_id("r1")));
}

#[test]
fn a_projection_without_a_name_leaves_the_name_index_alone() {
    let mut cache = Cache::new();

    cache.update(&room(json(r#"{"_id": "r1", "_updatedAt": {"$date": 1}, "t": "c", "name": "general"}"#)));
    cache.merge_room(room(json(r#"{"_id": "r1", "_updatedAt": {"$date": 2}, "t": "c"}"#)));

    assert_eq!(cache.room_id_by_name("general"), Some(room_id("r1")));
}

#[test]
fn removing_a_room_removes_its_name_index_entry() {
    let mut cache = Cache::new();
    cache.update(&room(json(r#"{"_id": "r1", "_updatedAt": {"$date": 1}, "t": "c", "name": "general"}"#)));

    cache.remove_room(&room_id("r1"));

    assert_eq!(cache.room_id_by_name("general"), None);
    assert!(cache.room_by_name("general").is_none());
}

#[test]
fn a_name_taken_over_by_another_room_is_not_stolen_back_by_a_removal() {
    let mut cache = Cache::new();

    cache.update(&room(json(r#"{"_id": "r1", "_updatedAt": {"$date": 1}, "t": "c", "name": "general"}"#)));
    // The name is freed server-side and reused; we learn about the new owner first.
    cache.update(&room(json(r#"{"_id": "r2", "_updatedAt": {"$date": 2}, "t": "c", "name": "general"}"#)));
    assert_eq!(cache.room_id_by_name("general"), Some(room_id("r2")));

    cache.remove_room(&room_id("r1"));

    assert_eq!(cache.room_id_by_name("general"), Some(room_id("r2")));
}

#[test]
fn the_username_index_follows_a_rename_and_a_removal() {
    let mut cache = Cache::new();

    cache.update(&user(json(r#"{"_id": "u1", "username": "alice"}"#)));
    cache.update(&user(json(r#"{"_id": "u1", "username": "alicia"}"#)));

    assert_eq!(cache.user_id_by_username("alice"), None);
    assert_eq!(cache.user_id_by_username("alicia"), Some(user_id("u1")));

    // The user cache projection is `{_id, roles}` — no username at all.
    cache.update(&user(json(r#"{"_id": "u1", "roles": ["admin"]}"#)));
    assert_eq!(cache.user_id_by_username("alicia"), Some(user_id("u1")));

    cache.remove_user(&user_id("u1"));
    assert_eq!(cache.user_id_by_username("alicia"), None);
    assert!(cache.user_by_username("alicia").is_none());
}

#[test]
fn a_user_update_refreshes_the_current_user() {
    let mut cache = Cache::new();
    cache.set_current_user(user(json(r#"{"_id": "me", "username": "bot", "name": "Bot", "roles": ["bot"]}"#)));

    cache.update(&user(json(r#"{"_id": "me", "name": "Bot 2"}"#)));
    cache.update(&user(json(r#"{"_id": "other", "name": "Somebody"}"#)));

    let current = cache.current_user().unwrap();
    assert_eq!(current.name.as_deref(), Some("Bot 2"));
    assert_eq!(current.username.as_deref(), Some("bot"), "the refresh blanked a field");
    assert!(current.has_role("bot"));
}

#[test]
fn the_current_user_outlives_eviction_from_the_users_map() {
    let mut cache = Cache::builder().user_cache_size(NonZeroSize::new(2)).build();
    cache.set_current_user(user(json(r#"{"_id": "me", "username": "bot"}"#)));

    for index in 0..8 {
        cache.update(&user(json(&format!(r#"{{"_id": "{}"}}"#, format!("u{index}")))));
    }

    assert!(cache.user(&user_id("me")).is_none(), "the current user should have been evicted");
    assert_eq!(cache.current_user_id(), Some(user_id("me")));
}

#[test]
fn users_are_evicted_first_in_first_out_at_capacity() {
    let mut cache = Cache::builder().user_cache_size(NonZeroSize::new(3)).build();

    for index in 0..5 {
        cache.update(&user(json(&format!(r#"{{"_id": "{}", "username": "{}"}}"#, format!("u{index}"), format!("user{index}")))));
    }

    assert_eq!(cache.stats().users, 3);
    assert!(cache.user(&user_id("u0")).is_none());
    assert!(cache.user(&user_id("u1")).is_none());
    assert!(cache.user(&user_id("u4")).is_some());
    // The username index is cleaned up with the document.
    assert_eq!(cache.user_id_by_username("user0"), None);
    assert_eq!(cache.user_id_by_username("user4"), Some(user_id("u4")));
}

#[test]
fn re_seeing_a_user_does_not_renew_its_place_in_the_queue() {
    // Documented: eviction is FIFO by first insertion, not LRU. A read-path touch would
    // mean a write lock on the hottest lookup in the crate.
    let mut cache = Cache::builder().user_cache_size(NonZeroSize::new(2)).build();

    cache.update(&user(json(r#"{"_id": "u0"}"#)));
    cache.update(&user(json(r#"{"_id": "u1"}"#)));
    cache.update(&user(json(r#"{"_id": "u0", "name": "still here"}"#)));
    cache.update(&user(json(r#"{"_id": "u2"}"#)));

    assert!(cache.user(&user_id("u0")).is_none());
    assert!(cache.user(&user_id("u1")).is_some());
    assert!(cache.user(&user_id("u2")).is_some());
}

#[test]
fn an_unbounded_user_cache_never_evicts() {
    let mut cache = Cache::builder().user_cache_size(None).build();

    for index in 0..200 {
        cache.update(&user(json(&format!(r#"{{"_id": "{}"}}"#, format!("u{index}")))));
    }

    assert_eq!(cache.stats().users, 200);
    assert!(cache.user(&user_id("u0")).is_some());
}

#[test]
fn removing_a_user_frees_its_slot_in_the_queue() {
    let mut cache = Cache::builder().user_cache_size(NonZeroSize::new(2)).build();

    cache.update(&user(json(r#"{"_id": "u0"}"#)));
    cache.update(&user(json(r#"{"_id": "u1"}"#)));
    cache.remove_user(&user_id("u0"));
    cache.update(&user(json(r#"{"_id": "u2"}"#)));

    // u1 must survive: the eviction queue must not still be holding the removed u0.
    assert!(cache.user(&user_id("u1")).is_some());
    assert!(cache.user(&user_id("u2")).is_some());
    assert_eq!(cache.stats().users, 2);
}

#[test]
fn debug_prints_the_shape_not_the_contents() {
    let mut cache = Cache::new();
    cache.update(&room(json(r#"{"_id": "r1", "_updatedAt": {"$date": 1}, "t": "c", "name": "general"}"#)));

    let rendered = cache.debug_text();

    assert!(rendered.contains("Cache"));
    assert!(rendered.contains("rooms: 1"));
    assert!(!rendered.contains("general"));
}

#[test]
fn the_cache_is_shareable_across_threads() {
    assert_shareable::<Cache>();
}

#[test]
fn a_removed_user_does_not_take_the_current_user_with_it() {
    let mut cache = Cache::new();
    cache.set_current_user(user(json(r#"{"_id": "me", "username": "bot"}"#)));

    cache.remove_user(&user_id("me"));

    assert!(cache.user(&user_id("me")).is_none());
    assert_eq!(cache.current_user_id(), Some(user_id("me")));
}

#[test]
fn absent_fields_do_not_blank_cached_ones() {
    let cached = room(json(r#"{"_id": "room1", "_updatedAt": {"$date": 1}, "t": "c", "name": "general", "topic": "the topic", "description": "the description", "usersCount": 12}"#));

    // A `stream-notify-room` projection that carries neither topic nor description.
    let incoming = room(json(r#"{"_id": "room1", "_updatedAt": {"$date": 2}, "t": "c", "name": "general", "usersCount": 13}"#));

    let merged = merge_documents(&cached, &incoming);

    assert_eq!(merged.topic.as_deref(), Some("the topic"));
    assert_eq!(merged.description.as_deref(), Some("the description"));
    assert_eq!(merged.users_count, Some(13));
    assert_eq!(merged.updated_at.unix_millis(), 2);
}

#[test]
fn carried_fields_win_even_when_they_shrink_a_value() {
    let cached = room(json(r#"{"_id": "room1", "_updatedAt": {"$date": 1}, "t": "c", "topic": "the topic"}"#));
    let incoming = room(json(r#"{"_id": "room1", "_updatedAt": {"$date": 2}, "t": "c", "topic": ""}"#));

    let merged = merge_documents(&cached, &incoming);

    assert_eq!(merged.topic.as_deref(), Some(""));
}

#[test]
fn merge_is_shallow_so_subdocuments_are_replaced() {
    // Meteor resends a whole subdocument when any part of it changes, so merging into
    // one would invent a semantics the wire does not have.
    let cached = message(json(r#"{"_id": "m1", "_updatedAt": {"$date": 1}, "rid": "r1", "msg": "hi", "ts": {"$date": 1}, "u": {"_id": "u1", "username": "alice", "name": "Alice"}}"#));

    let incoming = message(json(r#"{"_id": "m1", "_updatedAt": {"$date": 2}, "rid": "r1", "msg": "hi", "ts": {"$date": 1}, "u": {"_id": "u1"}}"#));

    let merged = merge_documents(&cached, &incoming);

    assert_eq!(merged.u.username, None);
    assert_eq!(merged.u.name, None);
}

#[test]
fn arrays_are_replaced_not_unioned() {
    let cached = room(json(r#"{"_id": "r1", "_updatedAt": {"$date": 1}, "t": "p", "usernames": ["alice", "bob"]}"#));
    let incoming = room(json(r#"{"_id": "r1", "_updatedAt": {"$date": 2}, "t": "p", "usernames": ["alice"]}"#));

    let merged = merge_documents(&cached, &incoming);

    assert_eq!(merged.usernames.as_deref(), Some(&["alice".to_owned()][..]));
}

#[test]
fn an_explicit_null_is_indistinguishable_from_an_omission() {
    // Documented limitation: the model decodes `null` to `None` exactly as it does an
    // absent key, so a merge cannot see a field being cleared.
    let cached = room(json(r#"{"_id": "r1", "_updatedAt": {"$date": 1}, "t": "c", "topic": "kept"}"#));
    let incoming = room(json(r#"{"_id": "r1", "_updatedAt": {"$date": 2}, "t": "c", "topic": null}"#));

    let merged = merge_documents(&cached, &incoming);

    assert_eq!(merged.topic.as_deref(), Some("kept"));
}

#[test]
fn every_entity_round_trips_through_json() {
    // The merge is only sound if serialize -> deserialize is lossless for the cached
    // types. If the model ever grows a field that does not round-trip, this fails here
    // rather than by silently dropping data on the next update.
    let room = room(json(r#"{"_id": "r1", "_updatedAt": {"$date": 5}, "t": "c", "name": "general", "topic": "t", "usersCount": 3, "msgs": 9, "ro": false, "u": {"_id": "u1", "username": "alice"}, "lastMessage": {"_id": "m1", "_updatedAt": {"$date": 4}, "rid": "r1", "msg": "hi", "ts": {"$date": 4}, "u": {"_id": "u1", "username": "alice"}}, "sysMes": ["uj"], "customFields": {"a": 1}}"#));
    assert_eq!(merge_documents(&room, &room), room);

    let user = user(json(r#"{"_id": "u1", "username": "alice", "name": "Alice", "roles": ["admin", "user"], "status": "online", "statusText": "hi", "utcOffset": 1.5, "emails": [{"address": "a@example.com", "verified": true}]}"#));
    assert_eq!(merge_documents(&user, &user), user);

    let subscription = subscription(json(r#"{"_id": "s1", "_updatedAt": {"$date": 1}, "rid": "r1", "t": "c", "ts": {"$date": 1}, "name": "general", "open": true, "unread": 2, "userMentions": 1, "groupMentions": 0, "u": {"_id": "u1", "username": "alice"}, "roles": ["owner"], "ls": {"$date": 2}}"#));
    assert_eq!(merge_documents(&subscription, &subscription), subscription);

    let message = message(json(r#"{"_id": "m1", "_updatedAt": {"$date": 1}, "rid": "r1", "msg": "hi", "ts": {"$date": 1}, "u": {"_id": "u1", "username": "alice"}, "reactions": {":tada:": {"usernames": ["alice"]}}, "starred": [{"_id": "u1"}], "pinned": true, "editedAt": {"$date": 3}, "urls": [{"url": "https://example.com"}], "attachments": [{"text": "a"}]}"#));
    assert_eq!(merge_documents(&message, &message), message);
}

#[test]
fn optional_fields_never_serialize_a_key() {
    // The invariant the whole module rests on.
    let sparse = room(json(r#"{"_id": "r1", "_updatedAt": {"$date": 1}, "t": "c"}"#));

    assert!(matches!(sparse.encode(), Json::Object(_)));
    assert_eq!(carried_fields(&sparse), vec!["_id", "_updatedAt", "t"]);
}

#[test]
fn default_is_all() {
    assert_eq!(ResourceType::default(), ResourceType::all());
    assert!(ResourceType::all().contains(ResourceType::message()));
}

#[test]
fn set_algebra() {
    let set = ResourceType::room() | ResourceType::user();

    assert!(set.contains(ResourceType::room()));
    assert!(!set.contains(ResourceType::message()));
    assert!(set.intersects(ResourceType::user() | ResourceType::message()));
    assert_eq!(set - ResourceType::room(), ResourceType::user());
    assert!(ResourceType::empty().is_empty());
    assert!((set & ResourceType::message()).is_empty());
    assert!(!(!set).contains(ResourceType::room()));
    assert!((!set).contains(ResourceType::message()));
}

#[test]
fn unknown_bits_are_dropped() {
    assert_eq!(ResourceType::from_bits_truncate(u32::MAX), ResourceType::all());
    assert_eq!(ResourceType::from_bits_truncate(1 << 31), ResourceType::empty());
}

#[test]
fn debug_names_the_flags() {
    let set = ResourceType::room() | ResourceType::message();

    assert_eq!(set.debug_text(), "ResourceType(ROOM | MESSAGE)");
    assert_eq!(ResourceType::empty().debug_text(), "ResourceType(empty)");
}

#[test]
fn defaults_are_the_documented_ones() {
    let config = Config::default();

    assert_eq!(config.resource_types(), ResourceType::all());
    assert_eq!(config.message_cache_size(), DEFAULT_MESSAGE_CACHE_SIZE);
    assert_eq!(config.message_cache_size(), 100);
    assert_eq!(config.user_cache_size(), NonZeroSize::new(DEFAULT_USER_CACHE_SIZE));
    assert_eq!(config.tombstone_policy(), TombstonePolicy::Replace);
}

#[test]
fn equal_sets_of_resources_are_equal() {
    assert_eq!(
        ResourceType::room() | ResourceType::user(),
        ResourceType::user() | ResourceType::room()
    );
    assert_ne!(ResourceType::room(), ResourceType::user());
    assert_eq!(ResourceType::all() - ResourceType::room() | ResourceType::room(), ResourceType::all());
}
