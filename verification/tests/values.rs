//! Ids and timestamps.
use core::cmp::Ordering;
use rocketsocket::model::datetime::{read_date, Timestamp};
use rocketsocket::model::id::{Id, MessageId, MessageMarker, RoomId, UserId};
use rocketsocket::model::json::Json;
use rocketsocket::model::text::parse_json;
use rocketsocket::model::wire::{Decode, Encode};

fn json(text: &str) -> Json {
    parse_json(text).expect("fixture")
}

fn parse(text: &str) -> Timestamp {
    Timestamp::decode(&json(text)).unwrap()
}

/// The expiry of a login: a date that may be absent or null.
fn token_expires(text: &str) -> Option<Timestamp> {
    match json(text).get("token_expires") {
        Some(value) => read_date(value).unwrap(),
        None => None,
    }
}

#[test]
fn accepts_the_ejson_date_form() {
    assert_eq!(parse(r#"{"$date":1688421337724}"#).unix_millis(), 1_688_421_337_724);
}

#[test]
fn accepts_an_rfc3339_string_from_rest() {
    // REST responses and DDP `error.details` use ISO strings, not `$date`.
    assert_eq!(parse(r#""2019-12-31T22:05:22.159Z""#).unix_millis(), 1_577_829_922_159);
}

#[test]
fn accepts_bare_millis_from_legacy_documents() {
    assert_eq!(parse("1688421337724").unix_millis(), 1_688_421_337_724);
}

#[test]
fn ignores_unknown_siblings_of_dollar_date() {
    assert_eq!(parse(r#"{"$date":42,"$whatever":true}"#).unix_millis(), 42);
}

#[test]
fn serializes_to_the_ejson_form() {
    let ts = Timestamp::from_unix_millis(1_688_421_337_724).unwrap();
    assert_eq!(ts.encode(), json(r#"{"$date":1688421337724}"#));
}

#[test]
fn round_trips() {
    let ts = Timestamp::from_unix_millis(1_688_421_337_724).unwrap();
    assert_eq!(Timestamp::decode(&ts.encode()).unwrap(), ts);
}

#[test]
fn pre_epoch_millis_floor_consistently() {
    let ts = Timestamp::from_unix_millis(-1).unwrap();
    assert_eq!(ts.unix_millis(), -1);
}

#[test]
fn rejects_a_null_date_when_the_field_is_required() {
    assert!(Timestamp::decode(&json(r#"{"$date":null}"#)).is_none());
    assert!(Timestamp::decode(&json("null")).is_none());
}

#[test]
fn missing_dollar_date_key_is_an_error() {
    assert!(Timestamp::decode(&json(r#"{"other":1}"#)).is_none());
}

#[test]
fn option_adapter_accepts_the_personal_access_token_shape() {
    // A personal access token has no `when`, so the server reports no expiry.
    assert_eq!(token_expires(r#"{"token_expires":{"$date":null}}"#), None);
    assert_eq!(token_expires(r#"{"token_expires":null}"#), None);
    assert_eq!(token_expires("{}"), None);
    assert_eq!(token_expires(r#"{"token_expires":{"$date":5}}"#).unwrap().unix_millis(), 5);
}

#[test]
fn option_adapter_round_trips() {
    for value in [None, Timestamp::from_unix_millis(7)] {
        let written = match value {
            Some(ts) => ts.encode(),
            None => Json::Null,
        };
        assert_eq!(read_date(&written).unwrap(), value);
    }
}

#[test]
fn decodes_from_a_value_as_well_as_from_a_string() {
    let from_value = Timestamp::from_unix_millis(1_755_529_012_345).unwrap();
    let from_text = parse(r#"{"$date": 1755529012345}"#);
    assert_eq!(Timestamp::decode(&from_value.encode()).unwrap(), from_text);
    assert_eq!(from_text.unix_millis(), 1_755_529_012_345);
}

#[test]
fn the_option_adapter_also_works_from_a_value() {
    assert_eq!(read_date(&json(r#"{"$date": null}"#)).unwrap(), None);
    assert_eq!(read_date(&json(r#"{"$date": 5}"#)).unwrap().unwrap().unix_millis(), 5);
}

#[test]
fn round_trips_as_a_bare_string() {
    let id: MessageId = Id::new("7aDSXtjMA3KPLxLjt");
    let written = id.encode();
    assert_eq!(written, json("\"7aDSXtjMA3KPLxLjt\""));
    assert_eq!(MessageId::decode(&written).unwrap(), id);
}

#[test]
fn a_real_rocket_chat_id_does_not_allocate() {
    // Random.id() is 17 chars; CompactString inlines up to 24 bytes.
    let id: RoomId = Id::new("7aDSXtjMA3KPLxLjt");
    assert!(!id.into_inner().is_heap_allocated());
}

#[test]
fn cast_preserves_the_value() {
    let room: RoomId = Id::new("GENERAL");
    assert_eq!(room.clone().cast::<MessageMarker>().as_str(), room.as_str());
}

#[test]
fn compares_against_str() {
    let id: UserId = Id::new("rocket.cat");
    assert_eq!(id, "rocket.cat");
}

struct NotSend(std::rc::Rc<()>);

fn assert_send_sync<T: Send + Sync>() {}

#[test]
fn is_send_and_sync_even_for_a_non_send_marker() {
    // The marker is phantom, so auto traits must not depend on it.
    let marker = NotSend(std::rc::Rc::new(()));
    assert_eq!(std::rc::Rc::strong_count(&marker.0), 1);
    assert_send_sync::<Id<NotSend>>();
}

#[test]
fn a_date_beyond_what_can_be_expressed_is_rejected() {
    assert_eq!(Timestamp::from_unix_millis(i64::MAX), None);
    assert!(Timestamp::decode(&json("9223372036854775807")).is_none());
    assert!(Timestamp::decode(&json(r#""yesterday""#)).is_none());
}

#[test]
fn a_timestamp_prints_as_rfc3339() {
    let ts = Timestamp::from_unix_millis(1_577_829_922_159).unwrap();
    assert_eq!(ts.to_text(), "2019-12-31T22:05:22.159Z");
    let parsed = parse(r#""2019-12-31T23:05:22.159+01:00""#);
    assert_eq!(parsed.unix_millis(), 1_577_829_922_159);
    assert_eq!(parsed.to_text(), "2019-12-31T23:05:22.159+01:00");
}

#[test]
fn the_current_time_is_after_2020() {
    assert!(Timestamp::now().unix_millis() > 1_577_836_800_000);
}

#[test]
fn ids_and_timestamps_are_ordered() {
    assert_eq!(RoomId::new("a").ordering_to(&RoomId::new("b")), Ordering::Less);
    assert_eq!(RoomId::new("b").ordering_to(&RoomId::new("b")), Ordering::Equal);
    assert_eq!(RoomId::new("ab").ordering_to(&RoomId::new("a")), Ordering::Greater);
    let first = parse(r#"{"$date":1}"#);
    let second = parse(r#"{"$date":2}"#);
    assert_eq!(first.ordering_to(second), Ordering::Less);
    assert_eq!(second.ordering_to(first), Ordering::Greater);
    // The same moment, whatever the offset it is written with.
    assert_eq!(
        parse("\"2026-01-01T01:00:00+01:00\"").ordering_to(parse("\"2026-01-01T00:00:00Z\"")),
        Ordering::Equal
    );
}

#[test]
fn an_id_is_shown_as_a_bare_string() {
    assert_eq!(RoomId::new("GENERAL").debug_text(), "\"GENERAL\"");
    assert_eq!(RoomId::new("a\"b").debug_text(), "\"a\\\"b\"");
}

#[test]
fn a_timestamp_is_a_date_and_time_in_its_offset() {
    let second = 1_000_000_000_i128;
    let last = 253_402_300_800 * second - 1;
    assert!(Timestamp::from_parts(last, 0).is_some());
    assert!(Timestamp::from_parts(last + 1, 0).is_none());
    // What counts is the time that the clock shows there.
    assert!(Timestamp::from_parts(last + 3600 * second, -3600).is_some());
    assert!(Timestamp::from_parts(last, 1).is_none());
    let first = -377_705_116_800 * second;
    assert!(Timestamp::from_parts(first, 0).is_some());
    assert!(Timestamp::from_parts(first - 1, 0).is_none());
    assert!(Timestamp::from_parts(0, 93_599).is_some());
    assert!(Timestamp::from_parts(0, 93_600).is_none());
    assert!(Timestamp::from_parts(0, -93_600).is_none());
    let edge = parse("\"9999-12-31T23:59:59-01:00\"");
    assert_eq!(edge.parts(), (last + 1 - second + 3600 * second, -3600));
}
