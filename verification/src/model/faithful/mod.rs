//! What is written can be read back.
//!
//! A document that is written and read again is written the same: nothing that a type carries is
//! lost on the way. The exceptions are named by [`RoundTrip::writable`]: a free-form member that
//! is `null` reads back as absent, and a moment that lies beyond what a date can express cannot
//! be read at all.
pub mod enums;
pub mod frames;
pub mod message;
pub mod parts;
pub mod payload;
pub mod room;
pub mod subscription;
pub mod user;
use crate::model::datetime::{
    law_date_round_trip, millis_in_range, Timestamp,
};
use crate::model::id::Id;
use crate::model::json::{Json, JsonMap, JsonView, Number};
use crate::model::wire::{
    all_accepted, all_members_accepted, has_date, has_default, has_optional, has_required, is_date,
    is_optional, is_required, same_doc, with, with_some, Decode, Dict, Encode,
};
use vstd::prelude::*;

verus! {

/// A type whose values survive being written and read back.
pub trait RoundTrip: Decode + Encode {
    /// Whether everything that the value holds can be read back.
    spec fn writable(&self) -> bool;

    /// What is written can be read, and what is read back is written the same.
    proof fn law_round_trip(&self, back: &Self)
        requires
            self.writable(),
        ensures
            Self::accepts(self.doc()),
            back.read_from(self.doc()) ==> back.doc() == self.doc(),
    ;
}

/// A type whose values are written exactly as they were read.
pub trait Verbatim: Decode + Encode {
    /// What was read is written back unchanged, whether or not it was recognised.
    proof fn law_verbatim(&self, j: JsonView)
        requires
            self.read_from(j),
        ensures
            self.doc() == j,
    ;
}

impl Verbatim for String {
    proof fn law_verbatim(&self, j: JsonView) {
    }
}

impl<T> Verbatim for Id<T> {
    proof fn law_verbatim(&self, j: JsonView) {
    }
}

/// Whether a value that may be absent can be read back: a `null` would read as absent.
pub open spec fn opt_writable<T: RoundTrip>(value: Option<T>) -> bool {
    value matches Some(t) ==> t.writable() && t.doc() !is Null
}

impl RoundTrip for String {
    open spec fn writable(&self) -> bool {
        true
    }

    proof fn law_round_trip(&self, back: &String) {
    }
}

impl RoundTrip for bool {
    open spec fn writable(&self) -> bool {
        true
    }

    proof fn law_round_trip(&self, back: &bool) {
    }
}

impl RoundTrip for i64 {
    open spec fn writable(&self) -> bool {
        true
    }

    proof fn law_round_trip(&self, back: &i64) {
    }
}

impl RoundTrip for Number {
    open spec fn writable(&self) -> bool {
        true
    }

    proof fn law_round_trip(&self, back: &Number) {
    }
}

impl RoundTrip for Json {
    open spec fn writable(&self) -> bool {
        true
    }

    proof fn law_round_trip(&self, back: &Json) {
    }
}

impl RoundTrip for JsonMap {
    open spec fn writable(&self) -> bool {
        true
    }

    proof fn law_round_trip(&self, back: &JsonMap) {
    }
}

impl<T> RoundTrip for Id<T> {
    open spec fn writable(&self) -> bool {
        true
    }

    proof fn law_round_trip(&self, back: &Id<T>) {
    }
}

impl RoundTrip for Timestamp {
    open spec fn writable(&self) -> bool {
        millis_in_range(self.millis())
    }

    proof fn law_round_trip(&self, back: &Timestamp) {
        law_date_round_trip(self.millis());
    }
}

impl<T: RoundTrip> RoundTrip for Box<T> {
    open spec fn writable(&self) -> bool {
        (**self).writable()
    }

    proof fn law_round_trip(&self, back: &Box<T>) {
        (**self).law_round_trip(&**back);
    }
}

impl<T: RoundTrip> RoundTrip for Vec<T> {
    open spec fn writable(&self) -> bool {
        forall|i: int| 0 <= i < self@.len() ==> (#[trigger] self@[i]).writable()
    }

    proof fn law_round_trip(&self, back: &Vec<T>) {
        let items = Seq::new(self@.len(), |i: int| self@[i].doc());
        assert forall|i: int| 0 <= i < items.len() implies T::accepts(#[trigger] items[i]) by {
            assert(self@[i].writable());
            self@[i].law_round_trip(&self@[i]);
        }
        assert(all_accepted::<T>(items));
        if back.read_from(self.doc()) {
            assert forall|i: int| 0 <= i < items.len() implies back@[i].doc() == items[i] by {
                assert(self@[i].writable());
                assert(back@[i].read_from(items[i]));
                self@[i].law_round_trip(&back@[i]);
            }
            assert(Seq::new(back@.len(), |i: int| back@[i].doc()) =~= items);
        }
    }
}

/// Each member that entries are written as is the value of one of them, and each entry's name is
/// a member.
proof fn lemma_members<T: Encode>(d: Dict<T>, n: int)
    requires
        0 <= n <= d.entries@.len(),
    ensures
        forall|k: Seq<char>| #[trigger]
            d.members(n).dom().contains(k) ==> exists|i: int|
                0 <= i < n && (#[trigger] d.entries@[i]).0@ == k && d.entries@[i].1.doc()
                    == d.members(n)[k],
        forall|i: int|
            0 <= i < n ==> d.members(n).dom().contains((#[trigger] d.entries@[i]).0@),
    decreases n,
{
    if n > 0 {
        lemma_members(d, n - 1);
        let before = d.members(n - 1);
        assert forall|k: Seq<char>| #[trigger] d.members(n).dom().contains(k) implies exists|
            i: int,
        |
            0 <= i < n && (#[trigger] d.entries@[i]).0@ == k && d.entries@[i].1.doc()
                == d.members(n)[k] by {
            if k == d.entries@[n - 1].0@ {
                assert(d.entries@[n - 1].0@ == k);
            } else {
                assert(before.dom().contains(k));
                let i = choose|i: int|
                    0 <= i < n - 1 && (#[trigger] d.entries@[i]).0@ == k && d.entries@[i].1.doc()
                        == before[k];
                assert(d.entries@[i].0@ == k);
            }
        }
    }
}

impl<T: RoundTrip> RoundTrip for Dict<T> {
    open spec fn writable(&self) -> bool {
        forall|i: int| 0 <= i < self.entries@.len() ==> (#[trigger] self.entries@[i]).1.writable()
    }

    proof fn law_round_trip(&self, back: &Dict<T>) {
        let n = self.entries@.len() as int;
        let map = self.members(n);
        lemma_members(*self, n);
        assert forall|k: Seq<char>| map.dom().contains(k) implies T::accepts(#[trigger] map[k]) by {
            let i = choose|i: int|
                0 <= i < n && (#[trigger] self.entries@[i]).0@ == k && self.entries@[i].1.doc()
                    == map[k];
            assert(self.entries@[i].1.writable());
            self.entries@[i].1.law_round_trip(&self.entries@[i].1);
        }
        assert(all_members_accepted::<T>(map));
        if back.read_from(self.doc()) {
            let count = back.entries@.len() as int;
            lemma_members(*back, count);
            assert(self.doc() == JsonView::Object(map));
            assert(back.names(map));
            assert forall|j: int| 0 <= j < count implies (#[trigger] back.entries@[j]).1.doc()
                == map[back.entries@[j].0@] by {
                let k = back.entries@[j].0@;
                assert(map.dom().contains(k));
                let i = choose|i: int|
                    0 <= i < n && (#[trigger] self.entries@[i]).0@ == k && self.entries@[i].1.doc()
                        == map[k];
                assert(self.entries@[i].1.writable());
                self.entries@[i].1.law_round_trip(&back.entries@[j].1);
            }
            assert forall|k: Seq<char>| #[trigger]
                back.members(count).dom().contains(k) <==> map.dom().contains(k) by {
                if map.dom().contains(k) {
                    assert(back.has(k));
                    let j = choose|j: int| 0 <= j < count && (#[trigger] back.entries@[j]).0@ == k;
                    assert(back.members(count).dom().contains(back.entries@[j].0@));
                }
                if back.members(count).dom().contains(k) {
                    let j = choose|j: int|
                        0 <= j < count && (#[trigger] back.entries@[j]).0@ == k
                            && back.entries@[j].1.doc() == back.members(count)[k];
                    assert(map.dom().contains(back.entries@[j].0@));
                }
            }
            assert forall|k: Seq<char>| #[trigger] map.dom().contains(k) implies back.members(
                count,
            )[k] == map[k] by {
                assert(back.members(count).dom().contains(k));
                let j = choose|j: int|
                    0 <= j < count && (#[trigger] back.entries@[j]).0@ == k
                        && back.entries@[j].1.doc() == back.members(count)[k];
                assert(back.entries@[j].1.doc() == map[back.entries@[j].0@]);
            }
            assert(back.members(count) =~= map);
        }
    }
}

/// What a value that may be absent is written as.
pub open spec fn opt_doc<T: Encode>(value: Option<T>) -> Option<JsonView> {
    match value {
        Some(t) => Some(t.doc()),
        None => None,
    }
}

/// A field that may be absent can be read back.
pub proof fn lemma_optional<T: RoundTrip>(value: Option<T>, back: Option<T>)
    requires
        opt_writable(value),
    ensures
        has_optional::<T>(opt_doc(value)),
        is_optional(back, opt_doc(value)) ==> same_doc(back, value),
{
    if let Some(t) = value {
        match back {
            Some(b) => t.law_round_trip(&b),
            None => t.law_round_trip(&t),
        }
    }
}

/// A field that must be there can be read back.
pub proof fn lemma_required<T: RoundTrip>(value: T, back: T)
    requires
        value.writable(),
    ensures
        has_required::<T>(Some(value.doc())),
        is_required(back, Some(value.doc())) ==> back.doc() == value.doc(),
{
    value.law_round_trip(&back);
}

/// A date that may be absent can be read back.
pub proof fn lemma_date(value: Option<Timestamp>, back: Option<Timestamp>)
    requires
        opt_writable(value),
    ensures
        has_date(opt_doc(value)),
        is_date(back, opt_doc(value)) ==> same_doc(back, value),
{
    if let Some(t) = value {
        law_date_round_trip(t.millis());
    }
}

/// A member of an object, if it has it.
pub open spec fn member(map: Map<Seq<char>, JsonView>, key: Seq<char>) -> Option<JsonView> {
    if map.dom().contains(key) {
        Some(map[key])
    } else {
        None
    }
}

/// Whether one object is another with one more member, or the same where there is no value.
pub closed spec fn grows(
    map: Map<Seq<char>, JsonView>,
    key: Seq<char>,
    value: Option<JsonView>,
    next: Map<Seq<char>, JsonView>,
) -> bool {
    next == (match value {
        Some(v) => map.insert(key, v),
        None => map,
    })
}

/// Writing a member makes the object grow by it.
pub proof fn lemma_with(map: Map<Seq<char>, JsonView>, key: Seq<char>, value: JsonView)
    ensures
        grows(map, key, Some(value), with(map, key, value)),
{
    reveal(with);
}

/// Writing a member that may be absent makes the object grow by it.
pub proof fn lemma_with_some<T: Encode>(
    map: Map<Seq<char>, JsonView>,
    key: Seq<char>,
    value: Option<T>,
)
    ensures
        grows(map, key, opt_doc(value), with_some(map, key, value)),
{
    reveal(with_some);
}

/// Whether the first `n` of a document's names have their values, and the others none yet.
pub closed spec fn holds(
    map: Map<Seq<char>, JsonView>,
    key: spec_fn(int) -> Seq<char>,
    value: spec_fn(int) -> Option<JsonView>,
    count: int,
    n: int,
) -> bool {
    forall|i: int|
        0 <= i < count ==> member(map, #[trigger] key(i)) == (if i < n {
            value(i)
        } else {
            None
        })
}

/// Whether the first `n` names can be told apart.
pub closed spec fn placed(
    key: spec_fn(int) -> Seq<char>,
    position: spec_fn(Seq<char>) -> int,
    n: int,
) -> bool {
    forall|i: int| 0 <= i < n ==> position(#[trigger] key(i)) == i
}

/// No names can be told apart.
pub proof fn lemma_placed_none(
    key: spec_fn(int) -> Seq<char>,
    position: spec_fn(Seq<char>) -> int,
)
    ensures
        placed(key, position, 0),
{
}

/// One more name can be told apart.
pub proof fn lemma_placed_more(
    key: spec_fn(int) -> Seq<char>,
    position: spec_fn(Seq<char>) -> int,
    n: int,
)
    requires
        placed(key, position, n),
        position(key(n)) == n,
    ensures
        placed(key, position, n + 1),
{
}

/// An empty object holds nothing yet.
pub proof fn lemma_holds_none(
    key: spec_fn(int) -> Seq<char>,
    value: spec_fn(int) -> Option<JsonView>,
    count: int,
)
    ensures
        holds(Map::<Seq<char>, JsonView>::empty(), key, value, count, 0),
{
}

/// An object that grows by the next member holds one more.
pub proof fn lemma_holds_more(
    map: Map<Seq<char>, JsonView>,
    key: spec_fn(int) -> Seq<char>,
    value: spec_fn(int) -> Option<JsonView>,
    position: spec_fn(Seq<char>) -> int,
    count: int,
    n: int,
    next: Map<Seq<char>, JsonView>,
)
    requires
        placed(key, position, count),
        holds(map, key, value, count, n),
        0 <= n < count,
        grows(map, key(n), value(n), next),
    ensures
        holds(next, key, value, count, n + 1),
{
    assert(position(key(n)) == n);
    assert(member(map, key(n)) is None);
    assert forall|i: int| 0 <= i < count implies member(next, #[trigger] key(i)) == (if i < n + 1 {
        value(i)
    } else {
        None
    }) by {
        assert(position(key(i)) == i);
        if i != n {
            assert(key(i) != key(n));
        }
    }
}

/// An object that holds all members has each of them.
pub proof fn lemma_held(
    map: Map<Seq<char>, JsonView>,
    key: spec_fn(int) -> Seq<char>,
    value: spec_fn(int) -> Option<JsonView>,
    count: int,
    i: int,
)
    requires
        holds(map, key, value, count, count),
        0 <= i < count,
    ensures
        member(map, key(i)) == value(i),
{
}

/// A number that tells names apart: their length, and their characters at three positions.
pub open spec fn tag(s: Seq<char>, p: int, q: int, r: int) -> int {
    s.len() + 1_000 * code_at(s, p) + 1_000_000 * code_at(s, q) + 1_000_000_000 * code_at(s, r)
}

/// The code of the character at a position, or zero past the end.
pub open spec fn code_at(s: Seq<char>, at: int) -> int {
    if 0 <= at < s.len() {
        s[at] as int
    } else {
        0
    }
}

/// Named values that are written only where there are some.
pub open spec fn dict_member<T>(d: Dict<T>) -> Option<Dict<T>> {
    if d.entries@.len() == 0 {
        None
    } else {
        Some(d)
    }
}

/// Named values that are written only where there are some can be read back.
pub proof fn lemma_dict<T: RoundTrip>(d: Dict<T>, back: Dict<T>)
    requires
        d.writable(),
    ensures
        has_default::<Dict<T>>(opt_doc(dict_member(d))),
        (if d.entries@.len() == 0 {
            back.entries@.len() == 0
        } else {
            back.read_from(d.doc())
        }) ==> same_doc(dict_member(back), dict_member(d)),
{
    if d.entries@.len() > 0 {
        d.law_round_trip(&back);
        let n = d.entries@.len() as int;
        lemma_members(d, n);
        assert(d.members(n).dom().contains(d.entries@[0].0@));
        assert(back.members(0) == Map::<Seq<char>, JsonView>::empty());
    }
}

/// Members that are written the same leave the same document.
pub proof fn lemma_same_some<T: Encode>(
    map: Map<Seq<char>, JsonView>,
    key: Seq<char>,
    a: Option<T>,
    b: Option<T>,
)
    requires
        same_doc(a, b),
    ensures
        with_some(map, key, a) == with_some(map, key, b),
{
    reveal(with_some);
}

} // verus!
