//! Reading typed values out of JSON and writing them back.
//!
//! A document is read from an object by member name, or from an array by position. A member
//! that is absent or `null` leaves an optional field unset; an unknown member is ignored.
use crate::model::datetime::{
    date_doc, date_of, is_moment, read_date, write_date, Timestamp,
};
use crate::model::id::Id;
use crate::model::json::{
    array_view, integer, json_view, lemma_array_view, lemma_object_has, lemma_object_view, view_i64, Json,
    JsonMap, JsonView, Number,
};
use crate::text::str_eq;
use vstd::prelude::*;
use vstd::string::*;

verus! {

/// A type that can be read from JSON.
pub trait Decode: Sized {
    /// Whether a value can be read as this type.
    spec fn accepts(j: JsonView) -> bool;

    /// Whether this is what the value reads as.
    spec fn read_from(&self, j: JsonView) -> bool;

    /// Reads a value.
    fn decode(j: &Json) -> (r: Option<Self>)
        ensures
            r is Some <==> Self::accepts(j@),
            r matches Some(v) ==> v.read_from(j@),
    ;
}

/// A type that can be written as JSON.
pub trait Encode: Sized {
    /// What the value is written as.
    spec fn doc(&self) -> JsonView;

    /// Writes the value.
    fn encode(&self) -> (r: Json)
        ensures
            r@ == self.doc(),
    ;

}

/// A type whose values can be copied.
pub trait Duplicate: Encode {
    /// Whether another value holds the same.
    spec fn alike(&self, other: &Self) -> bool;

    /// A copy.
    fn dup(&self) -> (r: Self)
        ensures
            r.alike(self),
            r.doc() == self.doc(),
    ;
}

impl Decode for String {
    open spec fn accepts(j: JsonView) -> bool {
        j is String
    }

    open spec fn read_from(&self, j: JsonView) -> bool {
        j == JsonView::String(self@)
    }

    fn decode(j: &Json) -> (r: Option<String>) {
        match j {
            Json::String(s) => Some(s.clone()),
            _ => None,
        }
    }
}

impl Encode for String {
    open spec fn doc(&self) -> JsonView {
        JsonView::String(self@)
    }

    fn encode(&self) -> (r: Json) {
        Json::String(self.clone())
    }
}

impl Duplicate for String {
    open spec fn alike(&self, other: &String) -> bool {
        self@ == other@
    }

    fn dup(&self) -> (r: String) {
        self.clone()
    }
}

impl Decode for bool {
    open spec fn accepts(j: JsonView) -> bool {
        j is Bool
    }

    open spec fn read_from(&self, j: JsonView) -> bool {
        j == JsonView::Bool(*self)
    }

    fn decode(j: &Json) -> (r: Option<bool>) {
        j.as_bool()
    }
}

impl Encode for bool {
    open spec fn doc(&self) -> JsonView {
        JsonView::Bool(*self)
    }

    fn encode(&self) -> (r: Json) {
        Json::Bool(*self)
    }
}

impl Duplicate for bool {
    open spec fn alike(&self, other: &bool) -> bool {
        *self == *other
    }

    fn dup(&self) -> (r: bool) {
        *self
    }
}

impl Decode for i64 {
    open spec fn accepts(j: JsonView) -> bool {
        view_i64(j) is Some
    }

    open spec fn read_from(&self, j: JsonView) -> bool {
        view_i64(j) == Some(*self)
    }

    fn decode(j: &Json) -> (r: Option<i64>) {
        j.as_i64()
    }
}

impl Encode for i64 {
    open spec fn doc(&self) -> JsonView {
        JsonView::Number(integer(*self as int))
    }

    fn encode(&self) -> (r: Json) {
        Json::from_i64(*self)
    }
}

impl Duplicate for i64 {
    open spec fn alike(&self, other: &i64) -> bool {
        *self == *other
    }

    fn dup(&self) -> (r: i64) {
        *self
    }
}

impl Decode for Json {
    open spec fn accepts(j: JsonView) -> bool {
        true
    }

    open spec fn read_from(&self, j: JsonView) -> bool {
        self@ == j
    }

    fn decode(j: &Json) -> (r: Option<Json>) {
        Some(j.dup())
    }
}

impl Encode for Json {
    open spec fn doc(&self) -> JsonView {
        self@
    }

    fn encode(&self) -> (r: Json) {
        self.dup()
    }
}

impl Duplicate for Json {
    open spec fn alike(&self, other: &Json) -> bool {
        self@ == other@
    }

    fn dup(&self) -> (r: Json) {
        Json::dup(self)
    }
}

impl Decode for JsonMap {
    open spec fn accepts(j: JsonView) -> bool {
        j is Object
    }

    open spec fn read_from(&self, j: JsonView) -> bool {
        j == JsonView::Object(self@)
    }

    fn decode(j: &Json) -> (r: Option<JsonMap>) {
        match j {
            Json::Object(map) => Some(map.dup()),
            _ => None,
        }
    }
}

impl Encode for JsonMap {
    open spec fn doc(&self) -> JsonView {
        JsonView::Object(self@)
    }

    fn encode(&self) -> (r: Json) {
        Json::Object(JsonMap::dup(self))
    }
}

impl Duplicate for JsonMap {
    open spec fn alike(&self, other: &JsonMap) -> bool {
        self@ == other@
    }

    fn dup(&self) -> (r: JsonMap) {
        JsonMap::dup(self)
    }
}

impl Decode for Number {
    open spec fn accepts(j: JsonView) -> bool {
        j is Number
    }

    open spec fn read_from(&self, j: JsonView) -> bool {
        j == JsonView::Number(*self)
    }

    fn decode(j: &Json) -> (r: Option<Number>) {
        match j {
            Json::Number(n) => Some(*n),
            _ => None,
        }
    }
}

impl Encode for Number {
    open spec fn doc(&self) -> JsonView {
        JsonView::Number(*self)
    }

    fn encode(&self) -> (r: Json) {
        Json::Number(*self)
    }
}

impl Duplicate for Number {
    open spec fn alike(&self, other: &Number) -> bool {
        *self == *other
    }

    fn dup(&self) -> (r: Number) {
        *self
    }
}

impl<T> Decode for Id<T> {
    open spec fn accepts(j: JsonView) -> bool {
        j is String
    }

    open spec fn read_from(&self, j: JsonView) -> bool {
        j == JsonView::String(self@)
    }

    fn decode(j: &Json) -> (r: Option<Id<T>>) {
        match j {
            Json::String(s) => Some(Id::new(s.as_str())),
            _ => None,
        }
    }
}

impl<T> Encode for Id<T> {
    open spec fn doc(&self) -> JsonView {
        JsonView::String(self@)
    }

    fn encode(&self) -> (r: Json) {
        Json::string(self.as_str())
    }
}

impl<T> Duplicate for Id<T> {
    open spec fn alike(&self, other: &Id<T>) -> bool {
        self@ == other@
    }

    fn dup(&self) -> (r: Id<T>) {
        self.clone()
    }
}

impl Decode for Timestamp {
    open spec fn accepts(j: JsonView) -> bool {
        date_of(j) matches Some(Some(m))
    }

    open spec fn read_from(&self, j: JsonView) -> bool {
        date_of(j) == Some(Some((self.instant(), self.utc_offset())))
    }

    fn decode(j: &Json) -> (r: Option<Timestamp>) {
        match read_date(j) {
            Some(t) => t,
            None => None,
        }
    }
}

impl Encode for Timestamp {
    open spec fn doc(&self) -> JsonView {
        date_doc(self.millis())
    }

    fn encode(&self) -> (r: Json) {
        write_date(*self)
    }
}

impl Duplicate for Timestamp {
    open spec fn alike(&self, other: &Timestamp) -> bool {
        self.instant() == other.instant() && self.utc_offset() == other.utc_offset()
    }

    fn dup(&self) -> (r: Timestamp) {
        *self
    }
}

/// Whether every element can be read.
pub open spec fn all_accepted<T: Decode>(items: Seq<JsonView>) -> bool {
    forall|i: int| 0 <= i < items.len() ==> T::accepts(#[trigger] items[i])
}

/// Whether every member can be read.
pub open spec fn all_members_accepted<T: Decode>(map: Map<Seq<char>, JsonView>) -> bool {
    forall|k: Seq<char>| map.dom().contains(k) ==> T::accepts(#[trigger] map[k])
}

impl<T: Decode> Decode for Vec<T> {
    open spec fn accepts(j: JsonView) -> bool {
        match j {
            JsonView::Array(items) => all_accepted::<T>(items),
            _ => false,
        }
    }

    open spec fn read_from(&self, j: JsonView) -> bool {
        match j {
            JsonView::Array(items) => {
                &&& self@.len() == items.len()
                &&& forall|i: int|
                    0 <= i < items.len() ==> (#[trigger] self@[i]).read_from(items[i])
            },
            _ => false,
        }
    }

    #[verifier::loop_isolation(false)]
    fn decode(j: &Json) -> (r: Option<Vec<T>>) {
        match j {
            Json::Array(items) => {
                proof {
                    lemma_array_view(items@);
                }
                let mut out: Vec<T> = Vec::new();
                let mut i: usize = 0;
                while i < items.len()
                    invariant
                        j@ == JsonView::Array(array_view(items@)),
                        array_view(items@).len() == items@.len(),
                        forall|k: int|
                            0 <= k < items@.len() ==> #[trigger] array_view(items@)[k]
                                == json_view(items@[k]),
                        i <= items@.len(),
                        out@.len() == i,
                        forall|k: int| 0 <= k < i ==> T::accepts(#[trigger] array_view(items@)[k]),
                        forall|k: int|
                            0 <= k < i ==> (#[trigger] out@[k]).read_from(array_view(items@)[k]),
                    decreases items@.len() - i,
                {
                    assert(array_view(items@)[i as int] == json_view(items@[i as int]));
                    match T::decode(&items[i]) {
                        Some(v) => {
                            out.push(v);
                        },
                        None => {
                            proof {
                                assert(!T::accepts(array_view(items@)[i as int]));
                                assert(!all_accepted::<T>(array_view(items@)));
                                assert(j@ == JsonView::Array(array_view(items@)));
                                assert(!Self::accepts(j@));
                            }
                            return None;
                        },
                    }
                    i += 1;
                }
                Some(out)
            },
            _ => None,
        }
    }
}

impl<T: Encode> Encode for Vec<T> {
    open spec fn doc(&self) -> JsonView {
        JsonView::Array(Seq::new(self@.len(), |i: int| self@[i].doc()))
    }

    fn encode(&self) -> (r: Json) {
        let mut out: Vec<Json> = Vec::new();
        let mut i: usize = 0;
        while i < self.len()
            invariant
                i <= self@.len(),
                out@.len() == i,
                forall|k: int| 0 <= k < i ==> json_view(#[trigger] out@[k]) == self@[k].doc(),
            decreases self@.len() - i,
        {
            out.push(self[i].encode());
            i += 1;
        }
        proof {
            lemma_array_view(out@);
            assert(array_view(out@) =~= Seq::new(self@.len(), |i: int| self@[i].doc()));
        }
        Json::Array(out)
    }
}

impl<T: Duplicate> Duplicate for Vec<T> {
    open spec fn alike(&self, other: &Vec<T>) -> bool {
        self@.len() == other@.len() && forall|i: int|
            0 <= i < self@.len() ==> (#[trigger] self@[i]).alike(&other@[i])
    }

    fn dup(&self) -> (r: Vec<T>) {
        let mut out: Vec<T> = Vec::new();
        let mut i: usize = 0;
        while i < self.len()
            invariant
                i <= self@.len(),
                out@.len() == i,
                forall|k: int|
                    0 <= k < i ==> (#[trigger] out@[k]).alike(&self@[k]) && out@[k].doc()
                        == self@[k].doc(),
            decreases self@.len() - i,
        {
            out.push(self[i].dup());
            i += 1;
        }
        proof {
            assert(Seq::new(out@.len(), |i: int| out@[i].doc()) =~= Seq::new(
                self@.len(),
                |i: int| self@[i].doc(),
            ));
        }
        out
    }
}

impl<T: Decode> Decode for Box<T> {
    open spec fn accepts(j: JsonView) -> bool {
        T::accepts(j)
    }

    open spec fn read_from(&self, j: JsonView) -> bool {
        (**self).read_from(j)
    }

    fn decode(j: &Json) -> (r: Option<Box<T>>) {
        match T::decode(j) {
            Some(v) => Some(Box::new(v)),
            None => None,
        }
    }
}

impl<T: Encode> Encode for Box<T> {
    open spec fn doc(&self) -> JsonView {
        (**self).doc()
    }

    fn encode(&self) -> (r: Json) {
        (**self).encode()
    }
}

impl<T: Duplicate> Duplicate for Box<T> {
    open spec fn alike(&self, other: &Box<T>) -> bool {
        (**self).alike(&**other)
    }

    fn dup(&self) -> (r: Box<T>) {
        Box::new((**self).dup())
    }
}

/// Named values, as an object carries them.
#[derive(Clone, Debug, PartialEq)]
pub struct Dict<T> {
    /// Names with their values; a name occurs once.
    pub entries: Vec<(String, T)>,
}

impl<T> Dict<T> {
    /// Whether the name occurs.
    pub open spec fn has(&self, name: Seq<char>) -> bool {
        exists|i: int| 0 <= i < self.entries@.len() && (#[trigger] self.entries@[i]).0@ == name
    }

    /// Whether each name occurs once.
    pub open spec fn unique(&self) -> bool {
        forall|i: int, k: int|
            0 <= i < k < self.entries@.len() ==> (#[trigger] self.entries@[i]).0@ != (
            #[trigger] self.entries@[k]).0@
    }

    /// Whether the names are those of the members.
    pub open spec fn names(&self, map: Map<Seq<char>, JsonView>) -> bool {
        forall|k: Seq<char>| #[trigger] map.dom().contains(k) <==> self.has(k)
    }

    /// The value with a name: the first, where the name occurs more than once.
    pub fn get(&self, name: &str) -> (r: Option<&T>)
        ensures
            r is Some <==> self.has(name@),
            r matches Some(v) ==> exists|i: int|
                0 <= i < self.entries@.len() && (#[trigger] self.entries@[i]).0@ == name@
                    && self.entries@[i].1 == *v && forall|k: int|
                    0 <= k < i ==> (#[trigger] self.entries@[k]).0@ != name@,
    {
        let mut i: usize = 0;
        while i < self.entries.len()
            invariant
                i <= self.entries@.len(),
                forall|k: int| 0 <= k < i ==> (#[trigger] self.entries@[k]).0@ != name@,
            decreases self.entries@.len() - i,
        {
            if str_eq(self.entries[i].0.as_str(), name) {
                assert(self.entries@[i as int].0@ == name@);
                return Some(&self.entries[i].1);
            }
            i += 1;
        }
        None
    }
}

impl<T: Decode> Decode for Dict<T> {
    open spec fn accepts(j: JsonView) -> bool {
        match j {
            JsonView::Object(map) => all_members_accepted::<T>(map),
            _ => false,
        }
    }

    open spec fn read_from(&self, j: JsonView) -> bool {
        match j {
            JsonView::Object(map) => {
                &&& self.unique()
                &&& self.names(map)
                &&& forall|i: int|
                    0 <= i < self.entries@.len() ==> map.dom().contains(
                        (#[trigger] self.entries@[i]).0@,
                    ) && self.entries@[i].1.read_from(map[self.entries@[i].0@])
            },
            _ => false,
        }
    }

    #[verifier::loop_isolation(false)]
    fn decode(j: &Json) -> (r: Option<Dict<T>>) {
        match j {
            Json::Object(map) => {
                let mut out: Dict<T> = Dict { entries: Vec::new() };
                let mut i: usize = 0;
                while i < map.entries.len()
                    invariant
                        j@ == JsonView::Object(map@),
                        i <= map.entries@.len(),
                        out.unique(),
                        forall|k: int|
                            0 <= k < i ==> out.has(#[trigger] map.entries@[k].0@),
                        forall|k: int|
                            0 <= k < out.entries@.len() ==> map@.dom().contains(
                                (#[trigger] out.entries@[k]).0@,
                            ) && out.entries@[k].1.read_from(map@[out.entries@[k].0@])
                                && T::accepts(map@[out.entries@[k].0@]),
                    decreases map.entries@.len() - i,
                {
                    let name = map.entries[i].0.as_str();
                    if out.get(name).is_none() {
                        let ghost before = out;
                        proof {
                            assert forall|k: int| 0 <= k < i implies (#[trigger] map.entries@[k]).0@
                                != name@ by {
                                assert(out.has(map.entries@[k].0@));
                            }
                            lemma_object_view(map.entries@, name@, i as int);
                        }
                        match T::decode(&map.entries[i].1) {
                            Some(v) => {
                                out.entries.push((map.entries[i].0.clone(), v));
                                proof {
                                    let n = before.entries@.len() as int;
                                    assert(out.entries@[n].0@ == name@);
                                    assert(out.has(name@));
                                    assert forall|s: Seq<char>| before.has(s) implies out.has(
                                        s,
                                    ) by {
                                        let w = choose|w: int|
                                            0 <= w < before.entries@.len() && (
                                            #[trigger] before.entries@[w]).0@ == s;
                                        assert(out.entries@[w] == before.entries@[w]);
                                    }
                                    assert forall|a: int, b: int|
                                        0 <= a < b < out.entries@.len() implies (
                                    #[trigger] out.entries@[a]).0@ != (
                                    #[trigger] out.entries@[b]).0@ by {
                                        assert(out.entries@[a] == before.entries@[a]);
                                        if b < n {
                                            assert(out.entries@[b] == before.entries@[b]);
                                        }
                                    }
                                    assert forall|k: int| 0 <= k < i + 1 implies out.has(
                                        #[trigger] map.entries@[k].0@,
                                    ) by {
                                        if k < i {
                                            assert(before.has(map.entries@[k].0@));
                                        }
                                    }
                                }
                            },
                            None => {
                                assert(!T::accepts(map@[name@]));
                                return None;
                            },
                        }
                    }
                    i += 1;
                }
                proof {
                    assert forall|k: Seq<char>| #[trigger] map@.dom().contains(k) implies out.has(
                        k,
                    ) && T::accepts(map@[k]) by {
                        lemma_object_has(map.entries@, k);
                        let w = choose|w: int|
                            0 <= w < map.entries@.len() && (#[trigger] map.entries@[w]).0@ == k;
                        assert(out.has(map.entries@[w].0@));
                    }
                    assert forall|k: Seq<char>| out.has(k) implies #[trigger] map@.dom().contains(
                        k,
                    ) by {
                        let w = choose|w: int|
                            0 <= w < out.entries@.len() && (#[trigger] out.entries@[w]).0@ == k;
                        assert(map@.dom().contains(out.entries@[w].0@));
                    }
                }
                Some(out)
            },
            _ => None,
        }
    }
}

impl<T: Encode> Dict<T> {
    /// The members that the first `n` entries are written as.
    pub open spec fn members(&self, n: int) -> Map<Seq<char>, JsonView>
        decreases n,
    {
        if n <= 0 {
            Map::empty()
        } else {
            self.members(n - 1).insert(self.entries@[n - 1].0@, self.entries@[n - 1].1.doc())
        }
    }
}

impl<T: Encode> Encode for Dict<T> {
    open spec fn doc(&self) -> JsonView {
        JsonView::Object(self.members(self.entries@.len() as int))
    }

    fn encode(&self) -> (r: Json) {
        let mut map = JsonMap::new();
        let mut i: usize = 0;
        while i < self.entries.len()
            invariant
                i <= self.entries@.len(),
                map@ == self.members(i as int),
            decreases self.entries@.len() - i,
        {
            map.insert(self.entries[i].0.clone(), self.entries[i].1.encode());
            i += 1;
        }
        Json::Object(map)
    }
}

impl<T: Duplicate> Duplicate for Dict<T> {
    open spec fn alike(&self, other: &Dict<T>) -> bool {
        self.entries@.len() == other.entries@.len() && forall|i: int|
            0 <= i < self.entries@.len() ==> (#[trigger] self.entries@[i]).0@ == other.entries@[i].0@
                && self.entries@[i].1.alike(&other.entries@[i].1)
    }

    fn dup(&self) -> (r: Dict<T>) {
        let mut out: Dict<T> = Dict { entries: Vec::new() };
        let mut i: usize = 0;
        while i < self.entries.len()
            invariant
                i <= self.entries@.len(),
                out.entries@.len() == i,
                forall|k: int|
                    0 <= k < i ==> (#[trigger] out.entries@[k]).0@ == self.entries@[k].0@
                        && out.entries@[k].1.alike(&self.entries@[k].1)
                        && out.entries@[k].1.doc() == self.entries@[k].1.doc(),
            decreases self.entries@.len() - i,
        {
            out.entries.push((self.entries[i].0.clone(), self.entries[i].1.dup()));
            i += 1;
        }
        proof {
            lemma_same_members(out, *self, self.entries@.len() as int);
        }
        out
    }
}

proof fn lemma_same_members<T: Encode>(a: Dict<T>, b: Dict<T>, n: int)
    requires
        0 <= n <= a.entries@.len(),
        a.entries@.len() == b.entries@.len(),
        forall|k: int|
            0 <= k < n ==> (#[trigger] a.entries@[k]).0@ == b.entries@[k].0@
                && a.entries@[k].1.doc() == b.entries@[k].1.doc(),
    ensures
        a.members(n) == b.members(n),
    decreases n,
{
    if n > 0 {
        lemma_same_members(a, b, n - 1);
        assert(a.entries@[n - 1].0@ == b.entries@[n - 1].0@);
    }
}

/// The value at a field of a document: the member of an object, or the element of an array.
pub open spec fn slot(j: JsonView, key: Seq<char>, index: int) -> Option<JsonView> {
    match j {
        JsonView::Object(map) => if map.dom().contains(key) {
            Some(map[key])
        } else {
            None
        },
        JsonView::Array(items) => if 0 <= index < items.len() {
            Some(items[index])
        } else {
            None
        },
        _ => None,
    }
}

/// Whether a value can be a document with `count` fields: an object, or an array that is not
/// longer.
pub open spec fn shaped(j: JsonView, count: int) -> bool {
    match j {
        JsonView::Object(_) => true,
        JsonView::Array(items) => items.len() <= count,
        _ => false,
    }
}

/// Whether a value can be a document with `count` fields.
pub fn is_shaped(j: &Json, count: usize) -> (r: bool)
    ensures
        r == shaped(j@, count as int),
{
    match j {
        Json::Object(_) => true,
        Json::Array(items) => {
            proof {
                lemma_array_view(items@);
            }
            items.len() <= count
        },
        _ => false,
    }
}

/// The value at a field of a document.
pub fn slot_of<'a>(j: &'a Json, key: &str, index: usize) -> (r: Option<&'a Json>)
    ensures
        r is Some <==> slot(j@, key@, index as int) is Some,
        r matches Some(v) ==> slot(j@, key@, index as int) == Some(v@),
{
    match j {
        Json::Object(map) => map.get(key),
        Json::Array(items) => {
            proof {
                lemma_array_view(items@);
            }
            if index < items.len() {
                Some(&items[index])
            } else {
                None
            }
        },
        _ => None,
    }
}

/// Whether a field that must be there can be read.
pub open spec fn has_required<T: Decode>(v: Option<JsonView>) -> bool {
    v is Some && T::accepts(v->0)
}

/// Whether this is what a field that must be there reads as.
pub open spec fn is_required<T: Decode>(t: T, v: Option<JsonView>) -> bool {
    v is Some && t.read_from(v->0)
}

/// Whether a field that may be absent can be read.
pub open spec fn has_optional<T: Decode>(v: Option<JsonView>) -> bool {
    v is None || v->0 is Null || T::accepts(v->0)
}

/// Whether this is what a field that may be absent reads as.
pub open spec fn is_optional<T: Decode>(t: Option<T>, v: Option<JsonView>) -> bool {
    if v is None || v->0 is Null {
        t is None
    } else {
        t is Some && t->0.read_from(v->0)
    }
}

/// A `null` reads as absence: at an optional place it is never a failure, and it reads as what
/// an absent value reads as.
pub proof fn law_null_is_absence<T: Decode>(t: Option<T>)
    ensures
        has_optional::<T>(Some(JsonView::Null)),
        is_optional(t, Some(JsonView::Null)) <==> is_optional(t, None),
{
}

/// Whether a date that may be absent or null can be read.
pub open spec fn has_date(v: Option<JsonView>) -> bool {
    v is None || date_of(v->0) is Some
}

/// Whether this is what a date that may be absent or null reads as.
pub open spec fn is_date(t: Option<Timestamp>, v: Option<JsonView>) -> bool {
    match v {
        None => t is None,
        Some(v) => date_of(v) is Some && is_moment(t, date_of(v)->0),
    }
}

/// Reads a field that must be there.
pub fn required<T: Decode>(j: &Json, key: &str, index: usize) -> (r: Option<T>)
    ensures
        r is Some <==> has_required::<T>(slot(j@, key@, index as int)),
        r matches Some(t) ==> is_required(t, slot(j@, key@, index as int)),
{
    match slot_of(j, key, index) {
        Some(v) => T::decode(v),
        None => None,
    }
}

/// Reads a field that may be absent.
pub fn optional<T: Decode>(j: &Json, key: &str, index: usize) -> (r: Option<Option<T>>)
    ensures
        r is Some <==> has_optional::<T>(slot(j@, key@, index as int)),
        r matches Some(t) ==> is_optional(t, slot(j@, key@, index as int)),
{
    match slot_of(j, key, index) {
        Some(v) => {
            if v.is_null() {
                Some(None)
            } else {
                match T::decode(v) {
                    Some(t) => Some(Some(t)),
                    None => None,
                }
            }
        },
        None => Some(None),
    }
}

/// Reads a date that may be absent or null.
pub fn optional_date(j: &Json, key: &str, index: usize) -> (r: Option<Option<Timestamp>>)
    ensures
        r is Some <==> has_date(slot(j@, key@, index as int)),
        r matches Some(t) ==> is_date(t, slot(j@, key@, index as int)),
{
    match slot_of(j, key, index) {
        Some(v) => read_date(v),
        None => Some(None),
    }
}

/// An object with one more member.
#[verifier::opaque]
pub open spec fn with(
    map: Map<Seq<char>, JsonView>,
    key: Seq<char>,
    value: JsonView,
) -> Map<Seq<char>, JsonView> {
    map.insert(key, value)
}

/// An object with one more member, where there is a value for it.
#[verifier::opaque]
pub open spec fn with_some<T: Encode>(
    map: Map<Seq<char>, JsonView>,
    key: Seq<char>,
    value: Option<T>,
) -> Map<Seq<char>, JsonView> {
    match value {
        Some(t) => map.insert(key, t.doc()),
        None => map,
    }
}

/// Writes a member.
pub fn put<T: Encode>(map: &mut JsonMap, key: &str, value: &T)
    ensures
        final(map)@ == with(old(map)@, key@, value.doc()),
{
    reveal(with);
    map.insert(key.to_owned(), value.encode());
}

/// Writes a member, where there is a value for it.
pub fn put_some<T: Encode>(map: &mut JsonMap, key: &str, value: &Option<T>)
    ensures
        final(map)@ == with_some(old(map)@, key@, *value),
{
    reveal(with_some);
    match value {
        Some(t) => map.insert(key.to_owned(), t.encode()),
        None => {},
    }
}

/// Whether two optional values hold the same.
pub open spec fn same_some<T: Duplicate>(a: Option<T>, b: Option<T>) -> bool {
    match (a, b) {
        (Some(a), Some(b)) => a.alike(&b),
        (None, None) => true,
        _ => false,
    }
}

/// Whether two values that may be absent are written the same.
pub open spec fn same_doc<T: Encode>(a: Option<T>, b: Option<T>) -> bool {
    match (a, b) {
        (Some(a), Some(b)) => a.doc() == b.doc(),
        (None, None) => true,
        _ => false,
    }
}

/// A copy of an optional value.
pub fn dup_some<T: Duplicate>(value: &Option<T>) -> (r: Option<T>)
    ensures
        same_some(r, *value),
        same_doc(r, *value),
{
    match value {
        Some(t) => Some(t.dup()),
        None => None,
    }
}

/// Whether a field that has a default can be read.
pub open spec fn has_default<T: Decode>(v: Option<JsonView>) -> bool {
    v is None || T::accepts(v->0)
}

/// Whether this is what a field that has a default reads as.
pub open spec fn is_default<T: Decode>(t: Option<T>, v: Option<JsonView>) -> bool {
    match v {
        None => t is None,
        Some(v) => t is Some && t->0.read_from(v),
    }
}

/// Reads a field that has a default: none where it is absent.
pub fn defaulted<T: Decode>(j: &Json, key: &str, index: usize) -> (r: Option<Option<T>>)
    ensures
        r is Some <==> has_default::<T>(slot(j@, key@, index as int)),
        r matches Some(t) ==> is_default(t, slot(j@, key@, index as int)),
{
    match slot_of(j, key, index) {
        Some(v) => match T::decode(v) {
            Some(t) => Some(Some(t)),
            None => None,
        },
        None => Some(None),
    }
}

/// A field is the member of its name in an object, whatever the position, and the element at its
/// position in an array, whatever the name; nothing else has fields.
pub proof fn law_where_a_field_is_found(
    map: Map<Seq<char>, JsonView>,
    items: Seq<JsonView>,
    key: Seq<char>,
    index: int,
)
    requires
        0 <= index,
    ensures
        map.dom().contains(key) ==> slot(JsonView::Object(map), key, index) == Some(map[key]),
        !map.dom().contains(key) ==> slot(JsonView::Object(map), key, index) is None,
        index < items.len() ==> slot(JsonView::Array(items), key, index) == Some(items[index]),
        index >= items.len() ==> slot(JsonView::Array(items), key, index) is None,
        slot(JsonView::Null, key, index) is None,
        shaped(JsonView::Object(map), index),
        shaped(JsonView::Array(items), index) <==> items.len() <= index,
        !shaped(JsonView::Null, index),
{
}

/// A field that must be there is read from its value and never without one; a field that may be
/// absent is unset where there is none or a `null`; and a field with a default takes no `null`
/// for absence.
pub proof fn law_how_a_field_is_read<T: Decode>(t: T, j: JsonView)
    ensures
        is_required(t, Some(j)) <==> t.read_from(j),
        !is_required(t, None),
        has_required::<T>(Some(j)) <==> T::accepts(j),
        !has_required::<T>(None),
        is_optional::<T>(None, None),
        is_optional::<T>(None, Some(JsonView::Null)),
        j !is Null ==> (is_optional(Some(t), Some(j)) <==> t.read_from(j)),
        j !is Null ==> !is_optional::<T>(None, Some(j)),
        !is_optional(Some(t), None),
        j !is Null ==> (has_optional::<T>(Some(j)) <==> T::accepts(j)),
        has_optional::<T>(None),
        is_default(Some(t), Some(j)) <==> t.read_from(j),
        is_default::<T>(None, None),
        !is_default::<T>(None, Some(j)),
        has_default::<T>(Some(j)) <==> T::accepts(j),
        has_default::<T>(None),
{
}

/// A string, a truth value and an id are read from, and written as, the JSON value of their kind
/// and no other; a free-form value is itself.
pub proof fn law_plain_values<T>(j: JsonView, text: String, truth: bool, id: Id<T>, free: Json)
    ensures
        String::accepts(j) <==> j is String,
        text.read_from(j) <==> j == JsonView::String(text@),
        text.doc() == JsonView::String(text@),
        bool::accepts(j) <==> j is Bool,
        truth.read_from(j) <==> j == JsonView::Bool(truth),
        truth.doc() == JsonView::Bool(truth),
        Id::<T>::accepts(j) <==> j is String,
        id.read_from(j) <==> j == JsonView::String(id@),
        id.doc() == JsonView::String(id@),
        Json::accepts(j),
        free.read_from(j) <==> free@ == j,
        free.doc() == free@,
{
}

/// An integer is read from a JSON integer that fits, and written as the one that it is.
pub proof fn law_whole_numbers(j: JsonView, n: i64)
    ensures
        n >= 0 ==> n.doc() == JsonView::Number(Number::Unsigned(n as u64)),
        n < 0 ==> n.doc() == JsonView::Number(Number::Negative(n)),
        j matches JsonView::Number(Number::Unsigned(u)) ==> (i64::accepts(j) <==> u <= i64::MAX)
            && (n.read_from(j) <==> n == u),
        j matches JsonView::Number(Number::Negative(m)) ==> i64::accepts(j) && (n.read_from(j)
            <==> n == m),
        j matches JsonView::Number(Number::Float(_)) ==> !i64::accepts(j),
        j !is Number ==> !i64::accepts(j),
{
}

/// A list is read element by element, in order, and one element that cannot be read spoils it.
pub proof fn law_lists_are_read_in_order<T: Decode>(
    list: Vec<T>,
    items: Seq<JsonView>,
    j: JsonView,
    i: int,
)
    ensures
        list.read_from(JsonView::Array(items)) ==> list@.len() == items.len(),
        list.read_from(JsonView::Array(items)) && 0 <= i < items.len() ==> list@[i].read_from(
            items[i],
        ),
        Vec::<T>::accepts(JsonView::Array(items)) && 0 <= i < items.len() ==> T::accepts(items[i]),
        Vec::<T>::accepts(JsonView::Array(Seq::empty())),
        j !is Array ==> !Vec::<T>::accepts(j),
{
}

/// A list is written element by element, in order.
pub proof fn law_lists_are_written_in_order<T: Encode>(list: Vec<T>, i: int)
    ensures
        list.doc() is Array,
        list.doc()->Array_0.len() == list@.len(),
        0 <= i < list@.len() ==> list.doc()->Array_0[i] == list@[i].doc(),
{
}

/// Named values have the names of the members, and each value is that of the member of its name.
pub proof fn law_named_values_are_read_by_name<T: Decode>(
    dict: Dict<T>,
    map: Map<Seq<char>, JsonView>,
    j: JsonView,
    name: Seq<char>,
    i: int,
)
    requires
        dict.read_from(JsonView::Object(map)),
    ensures
        map.dom().contains(name) <==> dict.has(name),
        0 <= i < dict.entries@.len() ==> map.dom().contains(dict.entries@[i].0@)
            && dict.entries@[i].1.read_from(map[dict.entries@[i].0@]),
        j !is Object ==> !Dict::<T>::accepts(j),
{
    if 0 <= i < dict.entries@.len() {
        assert(dict.entries@[i].0@ == dict.entries@[i].0@);
    }
}

} // verus!
