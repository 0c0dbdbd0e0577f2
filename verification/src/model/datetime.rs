//! EJSON timestamps.
//!
//! A DDP frame encodes every date as `{"$date": <epoch millis>}`. The same logical field
//! arriving over REST is usually an ISO-8601 string instead, and a handful of legacy
//! documents store a bare number. [`Timestamp`] accepts all three and always writes the
//! `$date` form.
use crate::model::json::{
    float_finite, float_trunc_i64, integer, is_finite, lemma_object_finite, trunc_i64, Json,
    JsonMap, JsonView, Number,
};
use crate::text::{decimal_i64, decimal_text};
use core::cmp::Ordering;
use time::format_description::well_known::Rfc3339;
use time::{OffsetDateTime, UtcOffset};
use vstd::prelude::*;
use vstd::string::*;

verus! {

/// Nanoseconds in a millisecond.
pub const NANOS_PER_MILLI: i128 = 1_000_000;

/// Nanoseconds in a second.
pub const NANOS_PER_SECOND: i128 = 1_000_000_000;

/// The first second of the year -9999, in seconds since the Unix epoch.
pub const MIN_SECOND: i128 = -377_705_116_800;

/// The last second of the year 9999, in seconds since the Unix epoch.
pub const MAX_SECOND: i128 = 253_402_300_799;

/// The largest UTC offset, in seconds: one below 26 hours.
pub const MAX_OFFSET: i32 = 93_599;

/// Whether a clock in a UTC offset, in seconds, shows a time in the years -9999 to 9999 at an
/// instant, in nanoseconds since the Unix epoch.
pub open spec fn is_date_time(nanos: int, offset: int) -> bool {
    &&& -MAX_OFFSET <= offset <= MAX_OFFSET
    &&& MIN_SECOND * NANOS_PER_SECOND <= nanos + offset * NANOS_PER_SECOND < (MAX_SECOND + 1)
        * NANOS_PER_SECOND
}

/// A point in time, wire-encoded as EJSON `{"$date": <millis>}`.
#[derive(Debug, Clone, Copy)]
pub struct Timestamp {
    nanos: i128,
    offset: i32,
}

/// The instant, in nanoseconds since the Unix epoch, and the UTC offset in seconds, that an
/// RFC 3339 text denotes; none where the text is not RFC 3339.
pub uninterp spec fn rfc3339_moment(text: Seq<char>) -> Option<(i128, i32)>;

/// The RFC 3339 text of a local time, in nanoseconds since the local start of the year 1970, in a
/// UTC offset given in seconds; none where the format cannot express it.
pub uninterp spec fn rfc3339_text(local: i128, offset: i32) -> Option<Seq<char>>;

/// `OffsetDateTime::from_unix_timestamp_nanos`: it succeeds exactly on the instants of the
/// years -9999 to 9999 in UTC.
#[verifier::external_body]
fn representable(nanos: i128) -> (r: bool)
    ensures
        r == (MIN_SECOND * NANOS_PER_SECOND <= nanos < (MAX_SECOND + 1) * NANOS_PER_SECOND),
{
    OffsetDateTime::from_unix_timestamp_nanos(nanos).is_ok()
}

/// `OffsetDateTime::parse` with the RFC 3339 format: the instant and the UTC offset that the
/// text denotes, which are those of a date and time that the type can express.
#[verifier::external_body]
fn parse_rfc3339(text: &str) -> (r: Option<(i128, i32)>)
    ensures
        r == rfc3339_moment(text@),
        r matches Some(m) ==> is_date_time(m.0 as int, m.1 as int),
{
    let moment = OffsetDateTime::parse(text, &Rfc3339).ok()?;
    Some((moment.unix_timestamp_nanos(), moment.offset().whole_seconds()))
}

/// `OffsetDateTime::format` with the RFC 3339 format, on the local time in the UTC offset.
#[verifier::external_body]
fn format_rfc3339(local: i128, offset: i32) -> (r: Option<String>)
    ensures
        r is Some <==> rfc3339_text(local, offset) is Some,
        r matches Some(s) ==> rfc3339_text(local, offset) == Some(s@),
{
    let local = OffsetDateTime::from_unix_timestamp_nanos(local).ok()?;
    let offset = UtcOffset::from_whole_seconds(offset).ok()?;
    local.replace_offset(offset).format(&Rfc3339).ok()
}

/// `OffsetDateTime::now_utc`: the clock's instant, which lies within the years that the type
/// can express.
#[verifier::external_body]
fn now_nanos() -> (r: i128)
    ensures
        is_date_time(r as int, 0),
{
    OffsetDateTime::now_utc().unix_timestamp_nanos()
}

impl Timestamp {
    /// The instant, in nanoseconds since the Unix epoch.
    pub closed spec fn instant(self) -> i128 {
        self.nanos
    }

    /// The UTC offset, in seconds, that the instant is shown in.
    pub closed spec fn utc_offset(self) -> i32 {
        self.offset
    }

    #[verifier::type_invariant]
    closed spec fn shown(self) -> bool {
        is_date_time(self.nanos as int, self.offset as int)
    }

    /// The instant in whole milliseconds, rounded towards negative infinity.
    pub open spec fn millis(self) -> int {
        self.instant() as int / 1_000_000
    }

    /// The instant as a clock in the UTC offset shows it, in nanoseconds since the local start of
    /// the year 1970.
    pub open spec fn local(self) -> int {
        self.instant() + self.utc_offset() * NANOS_PER_SECOND
    }

    /// The instant, in nanoseconds since the Unix epoch, and the UTC offset, in seconds.
    pub fn parts(self) -> (r: (i128, i32))
        ensures
            r == (self.instant(), self.utc_offset()),
    {
        (self.nanos, self.offset)
    }

    /// A timestamp of an instant, in nanoseconds since the Unix epoch, and a UTC offset, in
    /// seconds; none where a clock in that offset shows no time in the years -9999 to 9999.
    pub fn from_parts(nanos: i128, offset: i32) -> (r: Option<Timestamp>)
        ensures
            r is Some <==> is_date_time(nanos as int, offset as int),
            r matches Some(t) ==> t.instant() == nanos && t.utc_offset() == offset,
    {
        if offset < -MAX_OFFSET || offset > MAX_OFFSET {
            return None;
        }
        let shift: i128 = offset as i128 * NANOS_PER_SECOND;
        if MIN_SECOND * NANOS_PER_SECOND - shift <= nanos && nanos < (MAX_SECOND + 1)
            * NANOS_PER_SECOND - shift {
            Some(Timestamp { nanos, offset })
        } else {
            None
        }
    }

    /// How two timestamps are ordered, as their instants are.
    pub fn ordering_to(self, other: Timestamp) -> (r: Ordering)
        ensures
            r == (if self.instant() < other.instant() {
                Ordering::Less
            } else if self.instant() == other.instant() {
                Ordering::Equal
            } else {
                Ordering::Greater
            }),
    {
        if self.nanos < other.nanos {
            Ordering::Less
        } else if self.nanos == other.nanos {
            Ordering::Equal
        } else {
            Ordering::Greater
        }
    }

    /// The current time.
    pub fn now() -> (r: Timestamp)
        ensures
            r.utc_offset() == 0,
    {
        Timestamp { nanos: now_nanos(), offset: 0 }
    }

    /// Builds a timestamp from milliseconds since the Unix epoch.
    ///
    /// Returns `None` if the value is outside the representable range.
    pub fn from_unix_millis(millis: i64) -> (r: Option<Timestamp>)
        ensures
            r is Some <==> millis_in_range(millis as int),
            r matches Some(t) ==> t.instant() == millis * NANOS_PER_MILLI && t.utc_offset() == 0,
    {
        let nanos: i128 = millis as i128 * NANOS_PER_MILLI;
        if representable(nanos) {
            Some(Timestamp { nanos, offset: 0 })
        } else {
            None
        }
    }

    /// Milliseconds since the Unix epoch, rounded towards negative infinity.
    pub fn unix_millis(self) -> (r: i64)
        ensures
            r == self.millis(),
    {
        proof {
            use_type_invariant(self);
        }
        let nanos: i128 = self.nanos;
        if nanos >= 0 {
            (nanos / NANOS_PER_MILLI) as i64
        } else {
            let up: i128 = -nanos + (NANOS_PER_MILLI - 1);
            let q: i128 = up / NANOS_PER_MILLI;
            (-q) as i64
        }
    }

    /// The instant as RFC 3339 text, or in decimal milliseconds where that cannot express it.
    pub fn to_text(self) -> (r: String)
        ensures
            r@ == (match rfc3339_text(self.local() as i128, self.utc_offset()) {
                Some(text) => text,
                None => decimal_text(self.millis()),
            }),
    {
        proof {
            use_type_invariant(self);
        }
        let local: i128 = self.nanos + self.offset as i128 * NANOS_PER_SECOND;
        match format_rfc3339(local, self.offset) {
            Some(text) => text,
            None => decimal_i64(self.unix_millis()),
        }
    }
}

impl PartialEq for Timestamp {
    /// Two timestamps are equal when they are the same instant, in whatever offset.
    fn eq(&self, other: &Timestamp) -> (r: bool) {
        self.nanos == other.nanos
    }
}

impl vstd::std_specs::cmp::PartialEqSpecImpl for Timestamp {
    open spec fn obeys_eq_spec() -> bool {
        true
    }

    open spec fn eq_spec(&self, other: &Timestamp) -> bool {
        self.instant() == other.instant()
    }
}

impl Eq for Timestamp {

}

/// Whether an epoch in milliseconds lies within the years -9999 to 9999.
pub open spec fn millis_in_range(millis: int) -> bool {
    -377_705_116_800_000 <= millis <= 253_402_300_799_999
}

/// The instant and UTC offset of an epoch in milliseconds.
pub open spec fn millis_moment(millis: int) -> Option<Option<(i128, i32)>> {
    if millis_in_range(millis) {
        Some(Some(((millis * 1_000_000) as i128, 0i32)))
    } else {
        None
    }
}

/// What a value denotes as a date: nothing where it is not a date at all, `Some(None)` for the
/// explicitly-null forms `null` and `{"$date": null}`, and else the instant and UTC offset.
pub open spec fn date_of(j: JsonView) -> Option<Option<(i128, i32)>>
    decreases j,
{
    match j {
        JsonView::Null => Some(None),
        JsonView::Number(Number::Unsigned(n)) => millis_moment(n as int),
        JsonView::Number(Number::Negative(n)) => millis_moment(n as int),
        JsonView::Number(Number::Float(bits)) => if float_finite(bits) {
            millis_moment(float_trunc_i64(bits) as int)
        } else {
            None
        },
        JsonView::String(s) => match rfc3339_moment(s) {
            Some(m) => Some(Some(m)),
            None => None,
        },
        JsonView::Object(map) => if map.dom().contains("$date"@) {
            date_of(map["$date"@])
        } else {
            None
        },
        _ => None,
    }
}

/// Whether an optional timestamp is the given instant and UTC offset.
pub open spec fn is_moment(t: Option<Timestamp>, m: Option<(i128, i32)>) -> bool {
    match (t, m) {
        (Some(t), Some(m)) => t.instant() == m.0 && t.utc_offset() == m.1,
        (None, None) => true,
        _ => false,
    }
}

/// Reads a date that may be explicitly null: `null`, `{"$date": null}`, `{"$date": millis}`, an
/// RFC 3339 string, or bare epoch millis.
pub fn read_date(j: &Json) -> (r: Option<Option<Timestamp>>)
    ensures
        r is Some <==> date_of(j@) is Some,
        r matches Some(t) ==> is_moment(t, date_of(j@)->0),
    decreases j@,
{
    match j {
        Json::Null => Some(None),
        Json::Number(n) => {
            let millis: i64 = match n {
                Number::Unsigned(u) => {
                    if *u > 0x7fff_ffff_ffff_ffff {
                        return None;
                    }
                    *u as i64
                },
                Number::Negative(n) => *n,
                Number::Float(bits) => {
                    if !is_finite(*bits) {
                        return None;
                    }
                    trunc_i64(*bits)
                },
            };
            match Timestamp::from_unix_millis(millis) {
                Some(t) => Some(Some(t)),
                None => None,
            }
        },
        Json::String(s) => match parse_rfc3339(s.as_str()) {
            Some((nanos, offset)) => Some(Some(Timestamp { nanos, offset })),
            None => None,
        },
        Json::Object(map) => match map.get("$date") {
            Some(inner) => {
                proof {
                    lemma_object_finite(map.entries@);
                }
                assert(decreases_to!(j@ => map@));
                assert(decreases_to!(map@ => map@["$date"@]));
                read_date(inner)
            },
            None => None,
        },
        _ => None,
    }
}

/// A timestamp as the wire carries it.
pub open spec fn date_doc(millis: int) -> JsonView {
    JsonView::Object(Map::empty().insert("$date"@, JsonView::Number(integer(millis))))
}

/// Writes a timestamp as `{"$date": millis}`.
pub fn write_date(t: Timestamp) -> (r: Json)
    ensures
        r@ == date_doc(t.millis()),
{
    let mut map = JsonMap::new();
    map.insert("$date".to_owned(), Json::from_i64(t.unix_millis()));
    Json::Object(map)
}

/// Writing a whole number of milliseconds and reading it back gives the same instant.
pub proof fn law_date_round_trip(millis: int)
    requires
        millis_in_range(millis),
    ensures
        date_of(date_doc(millis)) == Some(Some(((millis * 1_000_000) as i128, 0i32))),
{
    reveal_with_fuel(date_of, 2);
    let map = Map::<Seq<char>, JsonView>::empty().insert(
        "$date"@,
        JsonView::Number(integer(millis)),
    );
    assert(map["$date"@] == JsonView::Number(integer(millis)));
}

/// A date is written as an object with the one member `$date`, in whole milliseconds.
pub proof fn law_a_date_is_written_in_milliseconds(t: Timestamp)
    ensures
        t.millis() * 1_000_000 <= t.instant() < (t.millis() + 1) * 1_000_000,
        date_doc(t.millis()) == JsonView::Object(
            map!["$date"@ => JsonView::Number(integer(t.millis()))],
        ),
        t.local() == t.instant() + t.utc_offset() * 1_000_000_000,
{
}

/// A date is read from the member `$date` of an object, from a text, or from a number of
/// milliseconds; a `null` is no date, and nothing else is read.
pub proof fn law_what_reads_as_a_date(
    map: Map<Seq<char>, JsonView>,
    millis: int,
    text: Seq<char>,
    bits: u64,
    items: Seq<JsonView>,
)
    requires
        i64::MIN <= millis <= u64::MAX,
    ensures
        map.dom().contains("$date"@) ==> date_of(JsonView::Object(map)) == date_of(map["$date"@]),
        !map.dom().contains("$date"@) ==> date_of(JsonView::Object(map)) is None,
        -377_705_116_800_000 <= millis <= 253_402_300_799_999 ==> date_of(
            JsonView::Number(integer(millis)),
        ) == Some(Some(((millis * 1_000_000) as i128, 0i32))),
        !(-377_705_116_800_000 <= millis <= 253_402_300_799_999) ==> date_of(
            JsonView::Number(integer(millis)),
        ) is None,
        float_finite(bits) ==> date_of(JsonView::Number(Number::Float(bits))) == date_of(
            JsonView::Number(integer(float_trunc_i64(bits) as int)),
        ),
        !float_finite(bits) ==> date_of(JsonView::Number(Number::Float(bits))) is None,
        rfc3339_moment(text) matches Some(m) ==> date_of(JsonView::String(text)) == Some(Some(m)),
        rfc3339_moment(text) is None ==> date_of(JsonView::String(text)) is None,
        date_of(JsonView::Null) == Some(None::<(i128, i32)>),
        date_of(JsonView::Bool(true)) is None,
        date_of(JsonView::Array(items)) is None,
{
    reveal_with_fuel(date_of, 2);
}

} // verus!
