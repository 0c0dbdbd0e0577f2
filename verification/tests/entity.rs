//! The documents: their fields, their derived facts, and what survives JSON.
use rocketsocket::cache::merge::merge_documents;
use rocketsocket::cache::{Cache, NonZeroSize, ResourceType, TombstonePolicy};
use rocketsocket::model::entity::{
    Message, MessageType, PresenceStatus, Reaction, Room, RoomType, Subscription, SysMes, User,
    UserRef, UserStatus,
};
use rocketsocket::model::event::{Activity, StreamEvent};
use rocketsocket::model::id::{MessageId, RoomId, UserId};
use rocketsocket::model::json::{Json, JsonMap, Number};
use rocketsocket::model::text::parse_json;
use rocketsocket::model::wire::{Decode, Duplicate, Encode};

fn json(text: &str) -> Json {
    parse_json(text).expect("fixture")
}

fn message(extra: &str) -> Message {
    Message::decode(&json(&format!(
        r#"{{"_id":"m1","rid":"r1","msg":"hi","ts":{{"$date":1}},"_updatedAt":{{"$date":1}},"u":{{"_id":"u1"}}{extra}}}"#
    )))
    .expect("fixture")
}

fn room(extra: &str) -> Room {
    Room::decode(&json(&format!(r#"{{"_id":"r1","_updatedAt":{{"$date":1}},"t":"d"{extra}}}"#)))
        .expect("fixture")
}

fn subscription(extra: &str) -> Subscription {
    Subscription::decode(&json(&format!(
        r#"{{"_id":"s1","_updatedAt":{{"$date":1}},"rid":"r1","u":{{"_id":"u1"}},"t":"c","ts":{{"$date":1}},"name":"general","open":true,"unread":0,"userMentions":0,"groupMentions":0{extra}}}"#
    )))
    .expect("fixture")
}

fn user(extra: &str) -> User {
    User::decode(&json(&format!(r#"{{"_id":"u1"{extra}}}"#))).expect("fixture")
}

#[test]
fn a_message_reports_what_it_is() {
    let plain = message("");
    assert!(!plain.is_system() && !plain.is_edited() && !plain.is_pinned());
    assert!(!plain.is_thread_reply() && !plain.is_thread_main() && !plain.is_discussion_parent());
    assert!(!plain.is_starred_by(&UserId::new("u1")));
    assert!(plain.reaction(":tada:").is_none());

    let busy = message(
        r#","t":"uj","editedAt":{"$date":2},"pinned":true,"tmid":"m0","tcount":1,"drid":"r2","starred":[{"_id":"u9"}],"reactions":{":tada:":{"usernames":["a","b"]}}"#,
    );
    assert!(busy.is_system() && busy.is_edited() && busy.is_pinned());
    assert!(busy.is_thread_reply() && busy.is_thread_main() && busy.is_discussion_parent());
    assert!(busy.is_starred_by(&UserId::new("u9")) && !busy.is_starred_by(&UserId::new("u1")));
    let reaction = busy.reaction(":tada:").expect("reacted");
    assert_eq!(reaction.count(), 2);
    assert!(reaction.contains("b") && !reaction.contains("c"));
    assert!(!busy.is_deleted_tombstone(), "an edit is not a deletion");
    assert!(!message(r#","tcount":0"#).is_thread_main());
    assert!(!message(r#","t":"rm""#).is_deleted_tombstone(), "not edited");
    assert!(message(r#","t":"rm","editedAt":{"$date":2}"#).is_deleted_tombstone());
    assert_eq!(Reaction::default().count(), 0);
}

#[test]
fn a_room_reports_what_it_is() {
    assert!(room("").is_direct() && !room("").is_multi_user_direct());
    assert!(room(r#","uids":["a","b","c"]"#).is_multi_user_direct());
    assert!(!room(r#","uids":["a","b"]"#).is_multi_user_direct());
    assert!(room(r#","teamMain":true"#).is_team() && !room("").is_team());
    assert!(room(r#","prid":"r0""#).is_discussion());
    assert_eq!(room(r#","name":"n","fname":"N""#).display_name(), Some("N"));
    assert_eq!(room(r#","name":"n""#).display_name(), Some("n"));
    assert_eq!(room("").display_name(), None);
    assert!(RoomType::Channel.is_public() && RoomType::Private.is_private());
    assert!(RoomType::Omnichannel.is_omnichannel() && RoomType::Channel.is_group());
    assert!(!RoomType::Direct.is_group());
}

#[test]
fn hidden_system_messages_are_a_switch_or_a_list() {
    let all = room(r#","sysMes":false"#).sys_mes.expect("set");
    assert!(all.hides(&MessageType::Uj) && all.hidden_types().is_none());
    let none = room(r#","sysMes":true"#).sys_mes.expect("set");
    assert!(!none.hides(&MessageType::Uj));
    let some = room(r#","sysMes":["uj","new-thing"]"#).sys_mes.expect("set");
    assert!(some.hides(&MessageType::Uj) && !some.hides(&MessageType::Ul));
    assert!(some.hides(&MessageType::Unknown("new-thing".to_owned())));
    assert_eq!(some.hidden_types().expect("listed").len(), 2);
    assert_eq!(SysMes::decode(&some.encode()), Some(some));
    assert!(SysMes::decode(&json("7")).is_none());
}

#[test]
fn a_subscription_reports_its_badges() {
    let quiet = subscription("");
    assert!(!quiet.has_unread() && !quiet.is_favorite());
    assert!(!quiet.hides_unread_status() && !quiet.hides_mention_status());
    assert_eq!(quiet.display_name(), "general");
    let loud = subscription(
        r#","fname":"General","f":true,"hideUnreadStatus":true,"hideMentionStatus":true,"roles":["owner"]"#,
    );
    assert!(loud.is_favorite() && loud.hides_unread_status() && loud.hides_mention_status());
    assert_eq!(loud.display_name(), "General");
    assert!(loud.has_role("owner") && !loud.has_role("leader"));
    let mut mentioned = subscription("");
    mentioned.user_mentions = i64::MAX;
    mentioned.group_mentions = 1;
    assert_eq!(mentioned.total_mentions(), i64::MAX, "saturates");
    assert!(mentioned.has_unread());
}

#[test]
fn a_user_reports_presence_and_name() {
    let named = user(r#","name":"Ann","username":"ann","status":"busy","roles":["bot"]"#);
    assert_eq!(named.display_name(true), Some("Ann"));
    assert_eq!(named.display_name(false), Some("ann"));
    assert!(named.is_connected() && named.has_role("bot"));
    let bare = user(r#","username":"ann","status":"offline""#);
    assert_eq!(bare.display_name(true), Some("ann"));
    assert!(!bare.is_connected() && !bare.has_role("bot"));
    let stub = UserRef::decode(&json(r#"{"_id":"u","name":"N"}"#)).expect("fixture");
    assert_eq!(stub.display_name(false), Some("N"));
}

#[test]
fn an_unknown_value_survives_unchanged() {
    for text in ["c", "d", "zz", ""] {
        let value = RoomType::decode(&json(&format!("\"{text}\""))).expect("any text");
        assert_eq!(value.as_str(), text);
        assert_eq!(value.encode(), json(&format!("\"{text}\"")));
    }
    assert!(RoomType::parse("zz").is_unknown() && !RoomType::parse("c").is_unknown());
    assert_eq!(RoomType::parse("c"), RoomType::Channel);
    assert_eq!(UserStatus::parse("away"), UserStatus::Away);
    assert_eq!(Activity::parse("user-typing"), Activity::UserTyping);
    assert!(RoomType::decode(&json("1")).is_none());
}

#[test]
fn every_presence_code_survives() {
    for code in 0..=255u8 {
        let status = PresenceStatus::from(code);
        assert_eq!(status.code(), code);
        assert_eq!(PresenceStatus::decode(&status.encode()), Some(status));
        assert_eq!(status.is_unknown(), code > 3);
        assert_eq!(status.as_user_status().is_some(), code <= 3);
    }
    assert_eq!(PresenceStatus::from(2).as_user_status(), Some(UserStatus::Away));
    assert!(PresenceStatus::decode(&json("256")).is_none());
    assert!(PresenceStatus::decode(&json("-1")).is_none());
}

#[test]
fn a_written_document_reads_back_the_same() {
    let full = message(
        r#","t":"uj","tmid":"m0","attachments":[{"a":1}],"mentions":[{"_id":"all","type":"user"}],"urls":[{"url":"u","meta":{"x":1}}],"reactions":{":a:":{"usernames":[]}}"#,
    );
    assert_eq!(Message::decode(&full.encode()), Some(full.dup()));
    let room = room(r#","u":{"_id":"x"},"sysMes":["uj"],"customFields":{"k":[1,null]}"#);
    assert_eq!(Room::decode(&room.encode()), Some(room.dup()));
    let subscription = subscription(r#","ls":{"$date":5},"roles":["owner"]"#);
    assert_eq!(Subscription::decode(&subscription.encode()), Some(subscription.dup()));
    let user = user(r#","utcOffset":1.5,"roles":["a"],"emails":[{"address":"a@b"}]"#);
    assert_eq!(User::decode(&user.encode()), Some(user.dup()));
    // The one thing that does not: a free-form member that is null reads as absent.
    let mut odd = user.dup();
    odd.settings = Some(Json::Null);
    assert_eq!(User::decode(&odd.encode()).expect("reads").settings, None);
}

#[test]
fn null_reads_as_absent_and_a_wrong_type_is_refused() {
    assert_eq!(user(r#","name":null"#), user(""));
    assert!(User::decode(&json(r#"{"_id":"u","name":7}"#)).is_none());
    assert!(User::decode(&json(r#"{"name":"x"}"#)).is_none(), "the id is required");
    assert!(User::decode(&json("null")).is_none());
}

#[test]
fn a_document_can_come_as_a_list() {
    let positional = UserRef::decode(&json(r#"["u1","ann"]"#)).expect("by position");
    assert_eq!(positional, UserRef::decode(&json(r#"{"_id":"u1","username":"ann"}"#)).unwrap());
    assert!(UserRef::decode(&json(r#"["u1","ann","Ann","extra"]"#)).is_none());
}

#[test]
fn numbers_keep_their_kind() {
    assert_eq!(json("7").as_i64(), Some(7));
    assert_eq!(json("-7").as_i64(), Some(-7));
    assert_eq!(json("-7").as_u64(), None);
    assert_eq!(json("18446744073709551615").as_u64(), Some(u64::MAX));
    assert_eq!(json("18446744073709551615").as_i64(), None);
    assert_eq!(json("1.5").as_i64(), None);
    assert_eq!(json("1.5"), Json::Number(Number::Float(1.5_f64.to_bits())));
    assert_eq!(json("1e3"), Json::Number(Number::Float(1000_f64.to_bits())));
    assert!(parse_json("{").is_none() && parse_json("1 2").is_none());
}

#[test]
fn an_object_keeps_one_member_per_name() {
    let mut map = JsonMap::new();
    map.insert("a".to_owned(), json("1"));
    map.insert("a".to_owned(), json("2"));
    assert_eq!(map.get("a"), Some(&json("2")));
    assert_eq!(map.get("b"), None);
    assert_eq!(json(r#"{"a":1,"a":2}"#).get("a"), Some(&json("2")));
    assert_eq!(Json::Object(map).as_object().expect("object").entries.len(), 1);
}

#[test]
fn the_order_of_members_does_not_count() {
    let mut one = JsonMap::new();
    one.insert("a".to_owned(), json("1"));
    one.insert("b".to_owned(), json("[2,{}]"));
    let mut other = JsonMap::new();
    other.insert("b".to_owned(), json("[2,{}]"));
    other.insert("a".to_owned(), json("1"));
    assert_eq!(one, other);
    other.insert("c".to_owned(), Json::Null);
    assert_ne!(one, other);
    assert_ne!(json("[1,2]"), json("[2,1]"));
    assert_ne!(json("1"), json("1.0"));
}

#[test]
fn a_merge_takes_what_came_and_keeps_the_rest() {
    let cached = room(r#","name":"n","topic":"t","usernames":["a","b"]"#);
    let incoming = room(r#","topic":"new","usernames":["c"]"#);
    let merged = merge_documents(&cached, &incoming);
    assert_eq!(merged.name.as_deref(), Some("n"));
    assert_eq!(merged.topic.as_deref(), Some("new"));
    assert_eq!(merged.usernames, Some(vec!["c".to_owned()]));
    assert_eq!(merge_documents(&cached, &cached), cached);
}

#[test]
fn whole_documents_replace_and_partial_ones_merge() {
    let mut cache = Cache::new();
    cache.update(&room(r#","name":"general","topic":"hi""#));
    // Room frames arrive whole: this one carries no topic, so the topic was cleared.
    cache.update(&room(r#","name":"general""#));
    let id = cache.room_id_by_name("general").expect("cached");
    assert_eq!(cache.room(&id).unwrap().topic, None);
    // A projected payload must not blank what it omits.
    cache.update(&room(r#","name":"general","topic":"hi""#));
    cache.merge_room(room(""));
    assert_eq!(cache.room(&id).unwrap().topic.as_deref(), Some("hi"));

    cache.update(&message(r#","reactions":{":a:":{"usernames":["x"]}}"#));
    cache.update(&message(""));
    assert!(cache.message(&MessageId::new("m1")).unwrap().reactions.is_none());

    cache.update(&subscription(r#","fname":"General""#));
    cache.update(&subscription(""));
    assert_eq!(cache.subscription(&id).unwrap().display_name(), "General");
    cache.replace_subscription(subscription(""));
    assert_eq!(cache.subscription(&id).unwrap().display_name(), "general");
    assert!(cache.remove_subscription(&id).is_some());
    assert!(cache.remove_subscription(&id).is_none());
}

#[test]
fn only_wanted_kinds_are_reported_as_wanted() {
    let cache = Cache::builder()
        .resource_types(ResourceType::room() | ResourceType::subscription())
        .build();
    assert!(!cache.wants(ResourceType::message()));
    assert!(cache.wants(ResourceType::room()));
    assert_eq!(cache.config().tombstone_policy(), TombstonePolicy::Replace);
    assert_eq!(NonZeroSize::new(0), None);
}

#[test]
fn users_are_listed_and_rings_list_what_is_cached() {
    let mut cache = Cache::builder().message_cache_size(2).build();
    cache.update(&user(""));
    assert_eq!(cache.user_ids(), vec![UserId::new("u1")]);
    for n in 0..4 {
        let mut next = message("");
        next.id = MessageId::new(&format!("m{n}"));
        cache.update(&next);
    }
    let listed = cache.room_message_ids(&RoomId::new("r1"));
    assert_eq!(listed.len(), 2);
    for id in &listed {
        assert!(cache.message(id).is_some(), "a ring lists only what is cached");
    }
    assert_eq!(cache.stats().messages, 2);
    cache.remove_room(&RoomId::new("r1"));
    assert_eq!(cache.stats().messages, 0);
}

#[test]
fn an_event_names_its_room_and_keeps_what_it_cannot_read() {
    let unread = StreamEvent::decode("notify-room", "GENERAL/typing", &[json("7")]);
    assert!(unread.is_unknown());
    assert_eq!(unread.room(), None);
    let typing = StreamEvent::decode("notify-room", "GENERAL/typing", &[json("\"a\""), json("true")]);
    assert_eq!(typing.room().map(RoomId::as_str), Some("GENERAL"));
}

#[test]
fn the_string_valued_fields_are_ordered_and_hashed() {
    assert!(RoomType::Channel < RoomType::Private);
    assert!(MessageType::E2e < MessageType::Unknown("x".to_owned()));
    let mut seen = std::collections::HashSet::new();
    assert!(seen.insert(UserStatus::Online));
    assert!(!seen.insert(UserStatus::Online));
    assert!(seen.insert(UserStatus::Unknown("online".to_owned())));
    let mut activities = vec![Activity::Unknown("b".to_owned()), Activity::Unknown("a".to_owned())];
    activities.sort();
    assert_eq!(activities[0].as_str(), "a");
}
