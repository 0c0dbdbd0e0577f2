//! Reading is a function of the document: whatever reads it gets the same value.
//!
//! Two values are the same where every field is; named values are the same where the same names
//! have the same values, whatever their order.
pub mod entity;
pub mod enums;
pub mod event;
pub mod payload;
use crate::model::datetime::Timestamp;
use crate::model::id::Id;
use crate::model::json::{Json, JsonMap, JsonView, Number};
use crate::model::wire::{is_date, is_optional, is_required, Decode, Dict};
use vstd::prelude::*;

verus! {

/// A type of which a document is read as one value only.
pub trait Determined: Decode {
    /// Whether another value holds the same.
    spec fn agrees(&self, other: &Self) -> bool;

    /// Two values that a document is read as are the same.
    proof fn law_determined(&self, other: &Self, j: JsonView)
        requires
            self.read_from(j),
            other.read_from(j),
        ensures
            self.agrees(other),
    ;
}

impl Determined for String {
    open spec fn agrees(&self, other: &String) -> bool {
        self@ == other@
    }

    proof fn law_determined(&self, other: &String, j: JsonView) {
    }
}

impl Determined for bool {
    open spec fn agrees(&self, other: &bool) -> bool {
        *self == *other
    }

    proof fn law_determined(&self, other: &bool, j: JsonView) {
    }
}

impl Determined for i64 {
    open spec fn agrees(&self, other: &i64) -> bool {
        *self == *other
    }

    proof fn law_determined(&self, other: &i64, j: JsonView) {
    }
}

impl Determined for Number {
    open spec fn agrees(&self, other: &Number) -> bool {
        *self == *other
    }

    proof fn law_determined(&self, other: &Number, j: JsonView) {
    }
}

impl Determined for Json {
    open spec fn agrees(&self, other: &Json) -> bool {
        self@ == other@
    }

    proof fn law_determined(&self, other: &Json, j: JsonView) {
    }
}

impl Determined for JsonMap {
    open spec fn agrees(&self, other: &JsonMap) -> bool {
        self@ == other@
    }

    proof fn law_determined(&self, other: &JsonMap, j: JsonView) {
    }
}

impl<T> Determined for Id<T> {
    open spec fn agrees(&self, other: &Id<T>) -> bool {
        self@ == other@
    }

    proof fn law_determined(&self, other: &Id<T>, j: JsonView) {
    }
}

impl Determined for Timestamp {
    open spec fn agrees(&self, other: &Timestamp) -> bool {
        self.instant() == other.instant() && self.utc_offset() == other.utc_offset()
    }

    proof fn law_determined(&self, other: &Timestamp, j: JsonView) {
    }
}

impl<T: Determined> Determined for Vec<T> {
    open spec fn agrees(&self, other: &Vec<T>) -> bool {
        self@.len() == other@.len() && forall|i: int|
            0 <= i < self@.len() ==> (#[trigger] self@[i]).agrees(&other@[i])
    }

    proof fn law_determined(&self, other: &Vec<T>, j: JsonView) {
        let items = j->Array_0;
        assert forall|i: int| 0 <= i < self@.len() implies (#[trigger] self@[i]).agrees(
            &other@[i],
        ) by {
            assert(other@[i].read_from(items[i]));
            self@[i].law_determined(&other@[i], items[i]);
        }
    }
}

impl<T: Determined> Determined for Box<T> {
    open spec fn agrees(&self, other: &Box<T>) -> bool {
        (**self).agrees(&**other)
    }

    proof fn law_determined(&self, other: &Box<T>, j: JsonView) {
        (**self).law_determined(&**other, j);
    }
}

impl<T: Determined> Determined for Dict<T> {
    open spec fn agrees(&self, other: &Dict<T>) -> bool {
        &&& forall|name: Seq<char>| #[trigger] self.has(name) <==> other.has(name)
        &&& forall|i: int, k: int|
            0 <= i < self.entries@.len() && 0 <= k < other.entries@.len() && (
            #[trigger] self.entries@[i]).0@ == (#[trigger] other.entries@[k]).0@
                ==> self.entries@[i].1.agrees(&other.entries@[k].1)
    }

    proof fn law_determined(&self, other: &Dict<T>, j: JsonView) {
        let map = j->Object_0;
        assert forall|name: Seq<char>| #[trigger] self.has(name) <==> other.has(name) by {
            assert(map.dom().contains(name) <==> self.has(name));
        }
        assert forall|i: int, k: int|
            0 <= i < self.entries@.len() && 0 <= k < other.entries@.len() && (
            #[trigger] self.entries@[i]).0@ == (#[trigger] other.entries@[k]).0@ implies self.entries@[i].1.agrees(
        &other.entries@[k].1) by {
            self.entries@[i].1.law_determined(&other.entries@[k].1, map[self.entries@[i].0@]);
        }
    }
}

/// Whether two values that may be absent are the same.
pub open spec fn agree_option<T: Determined>(a: Option<T>, b: Option<T>) -> bool {
    match (a, b) {
        (Some(a), Some(b)) => a.agrees(&b),
        (None, None) => true,
        _ => false,
    }
}

/// A field that must be there reads as one value only.
pub proof fn lemma_required<T: Determined>(a: T, b: T, v: Option<JsonView>)
    requires
        is_required(a, v),
        is_required(b, v),
    ensures
        a.agrees(&b),
{
    a.law_determined(&b, v->0);
}

/// A field that may be absent reads as one value only.
pub proof fn lemma_optional<T: Determined>(a: Option<T>, b: Option<T>, v: Option<JsonView>)
    requires
        is_optional(a, v),
        is_optional(b, v),
    ensures
        agree_option(a, b),
{
    match (a, b) {
        (Some(a), Some(b)) => a.law_determined(&b, v->0),
        _ => {},
    }
}

/// A date reads as one moment only.
pub proof fn lemma_date(a: Option<Timestamp>, b: Option<Timestamp>, v: Option<JsonView>)
    requires
        is_date(a, v),
        is_date(b, v),
    ensures
        agree_option(a, b),
{
}

} // verus!
