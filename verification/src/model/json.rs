//! JSON values, as the wire carries them.
//!
//! [`Json`] is a plain tree. Text is read and written by `serde_json`; everything that looks
//! inside a value is verified.
use crate::text::str_eq;
use vstd::arithmetic::div_mod::lemma_div_denominator;
use vstd::arithmetic::power2::{lemma2_to64, lemma_pow2_pos, lemma_pow2_unfold, pow2};
use vstd::prelude::*;
use vstd::string::*;

verus! {

/// A number. The three forms are those that `serde_json` tells apart.
#[derive(Clone, Copy, Debug, PartialEq, Eq, Structural)]
pub enum Number {
    /// A non-negative integer.
    Unsigned(u64),
    /// A negative integer.
    Negative(i64),
    /// A number written with a fraction or an exponent: its IEEE 754 double-precision bits.
    Float(u64),
}

/// The biased exponent of a double.
pub open spec fn float_exponent(bits: u64) -> int {
    bits as int / 0x10_0000_0000_0000 % 0x800
}

/// The significand of a double, as an integer.
pub open spec fn float_significand(bits: u64) -> nat {
    let fraction = bits as int % 0x10_0000_0000_0000;
    (if float_exponent(bits) == 0 {
        fraction
    } else {
        fraction + 0x10_0000_0000_0000
    }) as nat
}

/// The power of two that scales the significand.
pub open spec fn float_scale(bits: u64) -> int {
    (if float_exponent(bits) == 0 {
        1
    } else {
        float_exponent(bits)
    }) - 1075
}

/// Whether a double is neither an infinity nor a NaN.
pub open spec fn float_finite(bits: u64) -> bool {
    float_exponent(bits) != 0x7ff
}

/// Whether the sign of a double is minus.
pub open spec fn float_negative(bits: u64) -> bool {
    bits >= 0x8000_0000_0000_0000
}

/// `m` times two to the `n`.
pub open spec fn doubled(m: nat, n: nat) -> nat
    decreases n,
{
    if n == 0 {
        m
    } else {
        2 * doubled(m, (n - 1) as nat)
    }
}

/// `m` divided by two to the `n`, rounded down.
pub open spec fn halved(m: nat, n: nat) -> nat
    decreases n,
{
    if n == 0 {
        m
    } else {
        halved(m, (n - 1) as nat) / 2
    }
}

/// The magnitude of a finite double, rounded down to an integer.
pub open spec fn float_whole(bits: u64) -> nat {
    let scale = float_scale(bits);
    if scale >= 0 {
        doubled(float_significand(bits), scale as nat)
    } else {
        halved(float_significand(bits), (-scale) as nat)
    }
}

/// The magnitude rounded down to an integer, and clamped to `u64`.
pub open spec fn float_whole_u64(bits: u64) -> u64 {
    if float_whole(bits) > u64::MAX {
        u64::MAX
    } else {
        float_whole(bits) as u64
    }
}

/// The double rounded toward zero, and clamped to `i64`.
pub open spec fn float_trunc_i64(bits: u64) -> i64 {
    let n = float_whole(bits) as int;
    if float_negative(bits) {
        if n > 0x8000_0000_0000_0000 {
            i64::MIN
        } else {
            (-n) as i64
        }
    } else if n > i64::MAX {
        i64::MAX
    } else {
        n as i64
    }
}

proof fn lemma_doubled_grows(m: nat, a: nat, b: nat)
    requires
        a <= b,
    ensures
        doubled(m, a) <= doubled(m, b),
    decreases b,
{
    if a < b {
        lemma_doubled_grows(m, a, (b - 1) as nat);
    }
}

/// The magnitude of a double rounded down to an integer, and clamped to `u64`.
fn whole_u64(bits: u64) -> (r: u64)
    ensures
        r == float_whole_u64(bits),
{
    let exponent: u64 = bits / 0x10_0000_0000_0000 % 0x800;
    let fraction: u64 = bits % 0x10_0000_0000_0000;
    let mut value: u64 = if exponent == 0 {
        fraction
    } else {
        fraction + 0x10_0000_0000_0000
    };
    let power: u64 = if exponent == 0 {
        1
    } else {
        exponent
    };
    let ghost m = float_significand(bits);
    if power >= 1075 {
        let scale: u64 = power - 1075;
        let mut i: u64 = 0;
        while i < scale
            invariant
                i <= scale,
                scale == float_scale(bits),
                m == float_significand(bits),
                value == doubled(m, i as nat),
            decreases scale - i,
        {
            if value > 0x7fff_ffff_ffff_ffff {
                proof {
                    lemma_doubled_grows(m, (i + 1) as nat, scale as nat);
                }
                return 0xffff_ffff_ffff_ffff;
            }
            value = value * 2;
            i += 1;
        }
        value
    } else {
        let scale: u64 = 1075 - power;
        let mut i: u64 = 0;
        while i < scale
            invariant
                i <= scale,
                scale == -float_scale(bits),
                m == float_significand(bits),
                value == halved(m, i as nat),
            decreases scale - i,
        {
            value = value / 2;
            i += 1;
        }
        value
    }
}

/// A double rounded toward zero, and clamped to `i64`.
pub fn trunc_i64(bits: u64) -> (r: i64)
    ensures
        r == float_trunc_i64(bits),
{
    let n: u64 = whole_u64(bits);
    if bits >= 0x8000_0000_0000_0000 {
        if n >= 0x8000_0000_0000_0000 {
            i64::MIN
        } else {
            -(n as i64)
        }
    } else if n > 0x7fff_ffff_ffff_ffff {
        i64::MAX
    } else {
        n as i64
    }
}

/// A double rounded toward zero and clamped to `u64`; zero where it is negative or not finite.
pub fn trunc_u64(bits: u64) -> (r: u64)
    ensures
        r == (if float_negative(bits) || !float_finite(bits) {
            0
        } else {
            float_whole_u64(bits)
        }),
{
    if bits >= 0x8000_0000_0000_0000 || bits / 0x10_0000_0000_0000 % 0x800 == 0x7ff {
        0
    } else {
        whole_u64(bits)
    }
}

/// Whether a double is neither an infinity nor a NaN.
pub fn is_finite(bits: u64) -> (r: bool)
    ensures
        r == float_finite(bits),
{
    bits / 0x10_0000_0000_0000 % 0x800 != 0x7ff
}

impl Number {
    /// The number an `i64` is written as.
    pub fn from_i64(n: i64) -> (r: Number)
        ensures
            r == integer(n as int),
    {
        if n < 0 {
            Number::Negative(n)
        } else {
            Number::Unsigned(n as u64)
        }
    }
}

/// The form an integer is written in.
pub open spec fn integer(n: int) -> Number {
    if n < 0 {
        Number::Negative(n as i64)
    } else {
        Number::Unsigned(n as u64)
    }
}

/// A JSON value.
#[derive(Debug)]
pub enum Json {
    Null,
    Bool(bool),
    Number(Number),
    String(String),
    Array(Vec<Json>),
    Object(JsonMap),
}

/// The members of a JSON object. Where a key occurs twice, the first occurrence counts.
#[derive(Debug)]
pub struct JsonMap {
    /// Keys with their values.
    pub entries: Vec<(String, Json)>,
}

/// What a [`Json`] value is.
pub enum JsonView {
    Null,
    Bool(bool),
    Number(Number),
    String(Seq<char>),
    Array(Seq<JsonView>),
    Object(Map<Seq<char>, JsonView>),
}

impl View for Json {
    type V = JsonView;

    open spec fn view(&self) -> JsonView {
        json_view(*self)
    }
}

impl View for JsonMap {
    type V = Map<Seq<char>, JsonView>;

    open spec fn view(&self) -> Map<Seq<char>, JsonView> {
        object_view(self.entries@)
    }
}

/// The value of a tree.
pub open spec fn json_view(j: Json) -> JsonView
    decreases j,
{
    match j {
        Json::Null => JsonView::Null,
        Json::Bool(b) => JsonView::Bool(b),
        Json::Number(n) => JsonView::Number(n),
        Json::String(s) => JsonView::String(s@),
        Json::Array(items) => JsonView::Array(array_view(items@)),
        Json::Object(map) => JsonView::Object(object_view(map.entries@)),
    }
}

/// The values of a list of trees.
pub open spec fn array_view(items: Seq<Json>) -> Seq<JsonView>
    decreases items,
{
    if items.len() == 0 {
        seq![]
    } else {
        seq![json_view(items[0])] + array_view(items.subrange(1, items.len() as int))
    }
}

/// The members of a list of entries.
pub open spec fn object_view(entries: Seq<(String, Json)>) -> Map<Seq<char>, JsonView>
    decreases entries,
{
    if entries.len() == 0 {
        Map::empty()
    } else {
        object_view(entries.subrange(1, entries.len() as int)).insert(
            entries[0].0@,
            json_view(entries[0].1),
        )
    }
}

/// The value of a list is the list of the values.
pub proof fn lemma_array_view(items: Seq<Json>)
    ensures
        array_view(items).len() == items.len(),
        forall|i: int|
            0 <= i < items.len() ==> #[trigger] array_view(items)[i] == json_view(items[i]),
    decreases items.len(),
{
    if items.len() > 0 {
        let rest = items.subrange(1, items.len() as int);
        lemma_array_view(rest);
        assert forall|i: int| 0 <= i < items.len() implies #[trigger] array_view(items)[i]
            == json_view(items[i]) by {
            if i > 0 {
                assert(array_view(items)[i] == array_view(rest)[i - 1]);
                assert(rest[i - 1] == items[i]);
            }
        }
    }
}

/// Where no earlier entry has the key, an entry gives its value; where no entry has it, the
/// object does not have it.
pub proof fn lemma_object_view(entries: Seq<(String, Json)>, key: Seq<char>, at: int)
    requires
        0 <= at <= entries.len(),
        forall|i: int| 0 <= i < at ==> (#[trigger] entries[i]).0@ != key,
        at < entries.len() ==> entries[at].0@ == key,
    ensures
        object_view(entries).dom().contains(key) <==> at < entries.len(),
        at < entries.len() ==> object_view(entries)[key] == json_view(entries[at].1),
    decreases entries.len(),
{
    if entries.len() > 0 && at > 0 {
        let rest = entries.subrange(1, entries.len() as int);
        assert forall|i: int| 0 <= i < at - 1 implies (#[trigger] rest[i]).0@ != key by {
            assert(rest[i] == entries[i + 1]);
        }
        assert(at < entries.len() ==> rest[at - 1] == entries[at]);
        assert(entries[0].0@ != key);
        lemma_object_view(rest, key, at - 1);
    }
}

/// A member of an object is one of the entries.
pub proof fn lemma_object_has(entries: Seq<(String, Json)>, key: Seq<char>)
    ensures
        object_view(entries).dom().contains(key) <==> exists|i: int|
            0 <= i < entries.len() && (#[trigger] entries[i]).0@ == key,
    decreases entries.len(),
{
    if entries.len() > 0 {
        let rest = entries.subrange(1, entries.len() as int);
        lemma_object_has(rest, key);
        if exists|i: int| 0 <= i < rest.len() && (#[trigger] rest[i]).0@ == key {
            let i = choose|i: int| 0 <= i < rest.len() && (#[trigger] rest[i]).0@ == key;
            assert(entries[i + 1] == rest[i]);
        }
        if exists|i: int| 0 <= i < entries.len() && (#[trigger] entries[i]).0@ == key {
            let i = choose|i: int| 0 <= i < entries.len() && (#[trigger] entries[i]).0@ == key;
            if i > 0 {
                assert(rest[i - 1] == entries[i]);
            }
        }
        if entries[0].0@ == key {
            assert(entries[0].0@ == key);
        }
    }
}

/// An object has finitely many members.
pub proof fn lemma_object_finite(entries: Seq<(String, Json)>)
    ensures
        object_view(entries).dom().finite(),
    decreases entries.len(),
{
    if entries.len() > 0 {
        lemma_object_finite(entries.subrange(1, entries.len() as int));
    }
}

/// Appending an entry with a fresh key inserts it.
pub proof fn lemma_object_push(entries: Seq<(String, Json)>, entry: (String, Json))
    requires
        !object_view(entries).dom().contains(entry.0@),
    ensures
        object_view(entries.push(entry)) == object_view(entries).insert(
            entry.0@,
            json_view(entry.1),
        ),
    decreases entries.len(),
{
    let all = entries.push(entry);
    if entries.len() > 0 {
        let rest = entries.subrange(1, entries.len() as int);
        assert(all.subrange(1, all.len() as int) =~= rest.push(entry));
        lemma_object_push(rest, entry);
        assert(all[0] == entries[0]);
        assert(object_view(entries) == object_view(rest).insert(
            entries[0].0@,
            json_view(entries[0].1),
        ));
        assert(entries[0].0@ != entry.0@);
        assert(object_view(all) == object_view(rest.push(entry)).insert(
            entries[0].0@,
            json_view(entries[0].1),
        ));
        assert(object_view(all) =~= object_view(entries).insert(entry.0@, json_view(entry.1)));
    } else {
        assert(all.subrange(1, all.len() as int) =~= entries);
        assert(object_view(entries) == Map::<Seq<char>, JsonView>::empty());
        assert(object_view(all) =~= object_view(entries).insert(entry.0@, json_view(entry.1)));
    }
}

/// Changing the value of the first entry with a key updates the object.
pub proof fn lemma_object_update(entries: Seq<(String, Json)>, at: int, entry: (String, Json))
    requires
        0 <= at < entries.len(),
        entries[at].0@ == entry.0@,
        forall|i: int| 0 <= i < at ==> (#[trigger] entries[i]).0@ != entry.0@,
    ensures
        object_view(entries.update(at, entry)) == object_view(entries).insert(
            entry.0@,
            json_view(entry.1),
        ),
    decreases entries.len(),
{
    let all = entries.update(at, entry);
    let rest = entries.subrange(1, entries.len() as int);
    if at == 0 {
        assert(all.subrange(1, all.len() as int) =~= rest);
        assert(object_view(all) =~= object_view(entries).insert(entry.0@, json_view(entry.1)));
    } else {
        assert(all.subrange(1, all.len() as int) =~= rest.update(at - 1, entry));
        assert forall|i: int| 0 <= i < at - 1 implies (#[trigger] rest[i]).0@ != entry.0@ by {
            assert(rest[i] == entries[i + 1]);
        }
        lemma_object_update(rest, at - 1, entry);
        assert(entries[0].0@ != entry.0@);
        assert(object_view(all) =~= object_view(entries).insert(entry.0@, json_view(entry.1)));
    }
}

impl JsonMap {
    /// An object without members.
    pub fn new() -> (r: JsonMap)
        ensures
            r@ == Map::<Seq<char>, JsonView>::empty(),
    {
        JsonMap { entries: Vec::new() }
    }

    /// Position of the first entry with the key, or the number of entries.
    fn find(&self, key: &str) -> (r: usize)
        ensures
            r <= self.entries@.len(),
            forall|i: int| 0 <= i < r ==> (#[trigger] self.entries@[i]).0@ != key@,
            r < self.entries@.len() ==> self.entries@[r as int].0@ == key@,
    {
        let mut i: usize = 0;
        while i < self.entries.len()
            invariant
                i <= self.entries@.len(),
                forall|k: int| 0 <= k < i ==> (#[trigger] self.entries@[k]).0@ != key@,
            decreases self.entries@.len() - i,
        {
            if str_eq(self.entries[i].0.as_str(), key) {
                return i;
            }
            i += 1;
        }
        i
    }

    /// The value of a member.
    pub fn get(&self, key: &str) -> (r: Option<&Json>)
        ensures
            r is Some <==> self@.dom().contains(key@),
            r matches Some(j) ==> j@ == self@[key@],
    {
        let at: usize = self.find(key);
        proof {
            lemma_object_view(self.entries@, key@, at as int);
        }
        if at < self.entries.len() {
            Some(&self.entries[at].1)
        } else {
            None
        }
    }

    /// Sets a member, replacing its earlier value.
    pub fn insert(&mut self, key: String, value: Json)
        ensures
            final(self)@ == old(self)@.insert(key@, value@),
    {
        let at: usize = self.find(key.as_str());
        proof {
            lemma_object_view(self.entries@, key@, at as int);
        }
        if at < self.entries.len() {
            proof {
                lemma_object_update(self.entries@, at as int, (key, value));
            }
            self.entries.set(at, (key, value));
        } else {
            proof {
                lemma_object_push(self.entries@, (key, value));
            }
            self.entries.push((key, value));
        }
    }

    /// Takes a member out.
    pub fn remove(&mut self, key: &str) -> (r: Option<Json>)
        ensures
            final(self)@ == old(self)@.remove(key@),
            r is Some <==> old(self)@.dom().contains(key@),
            r matches Some(j) ==> j@ == old(self)@[key@],
    {
        let mut kept: Vec<(String, Json)> = Vec::new();
        let mut found: Option<Json> = None;
        let ghost all = self.entries@;
        let mut rest: Vec<(String, Json)> = Vec::new();
        core::mem::swap(&mut rest, &mut self.entries);
        assert(rest@ == all);
        while rest.len() > 0
            invariant
                rest@.len() <= all.len(),
                rest@ == all.subrange(0, rest@.len() as int),
                object_view(kept@.reverse()) == object_view(
                    all.subrange(rest@.len() as int, all.len() as int),
                ).remove(key@),
                found is Some <==> object_view(
                    all.subrange(rest@.len() as int, all.len() as int),
                ).dom().contains(key@),
                found matches Some(j) ==> json_view(j) == object_view(
                    all.subrange(rest@.len() as int, all.len() as int),
                )[key@],
            decreases rest@.len(),
        {
            let ghost n = rest@.len() as int;
            let ghost tail = all.subrange(n, all.len() as int);
            let ghost more = all.subrange(n - 1, all.len() as int);
            let ghost before = kept@;
            match rest.pop() {
                Some(entry) => {
                    proof {
                        assert(entry == all[n - 1]);
                        assert(rest@ =~= all.subrange(0, n - 1));
                        assert(more.subrange(1, more.len() as int) =~= tail);
                        assert(more[0] == entry);
                    }
                    if str_eq(entry.0.as_str(), key) {
                        found = Some(entry.1);
                        proof {
                            assert(object_view(more).remove(key@) =~= object_view(tail).remove(
                                key@,
                            ));
                        }
                    } else {
                        kept.push(entry);
                        proof {
                            let front = kept@.reverse();
                            assert(front[0] == entry);
                            assert(front.subrange(1, front.len() as int) =~= before.reverse());
                            assert(object_view(front) =~= object_view(more).remove(key@));
                        }
                    }
                },
                None => {},
            }
        }
        let mut out: Vec<(String, Json)> = Vec::new();
        let ghost backward = kept@;
        while kept.len() > 0
            invariant
                kept@.len() + out@.len() == backward.len(),
                kept@ == backward.subrange(0, kept@.len() as int),
                out@ == backward.reverse().subrange(0, out@.len() as int),
            decreases kept@.len(),
        {
            let ghost n = kept@.len() as int;
            let ghost before = out@;
            match kept.pop() {
                Some(entry) => {
                    out.push(entry);
                    proof {
                        assert(kept@ =~= backward.subrange(0, n - 1));
                        assert(entry == backward[n - 1]);
                        assert(out@ =~= backward.reverse().subrange(0, out@.len() as int));
                    }
                },
                None => {},
            }
        }
        proof {
            assert(out@ =~= backward.reverse());
            assert(all.subrange(0, all.len() as int) =~= all);
        }
        self.entries = out;
        found
    }

    /// Sets every member of another object, replacing earlier values.
    pub fn overlay(&mut self, top: &JsonMap)
        ensures
            final(self)@ == old(self)@.union_prefer_right(top@),
    {
        let ghost base = self@;
        let mut i: usize = top.entries.len();
        proof {
            assert(top.entries@.subrange(i as int, i as int) =~= Seq::<(String, Json)>::empty());
            assert(self@ =~= base.union_prefer_right(object_view(Seq::<(String, Json)>::empty())));
        }
        while i > 0
            invariant
                i <= top.entries@.len(),
                self@ == base.union_prefer_right(
                    object_view(top.entries@.subrange(i as int, top.entries@.len() as int)),
                ),
            decreases i,
        {
            let ghost rest = top.entries@.subrange(i as int, top.entries@.len() as int);
            i -= 1;
            self.insert(top.entries[i].0.clone(), top.entries[i].1.dup());
            proof {
                let more = top.entries@.subrange(i as int, top.entries@.len() as int);
                assert(more.subrange(1, more.len() as int) =~= rest);
                assert(more[0] == top.entries@[i as int]);
                assert(self@ =~= base.union_prefer_right(object_view(more)));
            }
        }
        proof {
            assert(top.entries@.subrange(0, top.entries@.len() as int) =~= top.entries@);
        }
    }

    /// A copy.
    pub fn dup(&self) -> (r: JsonMap)
        ensures
            r@ == self@,
        decreases self,
    {
        let mut entries: Vec<(String, Json)> = Vec::new();
        let mut i: usize = 0;
        while i < self.entries.len()
            invariant
                i <= self.entries@.len(),
                entries@.len() == i,
                forall|k: int|
                    0 <= k < i ==> (#[trigger] entries@[k]).0@ == self.entries@[k].0@ && json_view(
                        entries@[k].1,
                    ) == json_view(self.entries@[k].1),
            decreases self.entries@.len() - i,
        {
            let ghost pair = self.entries@[i as int];
            assert(decreases_to!(self.entries@ => pair));
            let entry = (self.entries[i].0.clone(), self.entries[i].1.dup());
            entries.push(entry);
            i += 1;
        }
        proof {
            lemma_same_object(entries@, self.entries@);
        }
        JsonMap { entries }
    }
}

/// Two lists of entries with equal keys and values are the same object.
pub proof fn lemma_same_object(a: Seq<(String, Json)>, b: Seq<(String, Json)>)
    requires
        a.len() == b.len(),
        forall|k: int|
            0 <= k < a.len() ==> (#[trigger] a[k]).0@ == b[k].0@ && json_view(a[k].1) == json_view(
                b[k].1,
            ),
    ensures
        object_view(a) == object_view(b),
    decreases a.len(),
{
    if a.len() > 0 {
        let x = a.subrange(1, a.len() as int);
        let y = b.subrange(1, b.len() as int);
        assert forall|k: int| 0 <= k < x.len() implies (#[trigger] x[k]).0@ == y[k].0@ && json_view(
            x[k].1,
        ) == json_view(y[k].1) by {
            assert(x[k] == a[k + 1]);
            assert(y[k] == b[k + 1]);
        }
        lemma_same_object(x, y);
        assert(a[0].0@ == b[0].0@);
    }
}

impl Json {
    /// A string value.
    pub fn string(s: &str) -> (r: Json)
        ensures
            r@ == JsonView::String(s@),
    {
        Json::String(s.to_owned())
    }

    /// An integer value.
    pub fn from_i64(n: i64) -> (r: Json)
        ensures
            r@ == JsonView::Number(integer(n as int)),
    {
        Json::Number(Number::from_i64(n))
    }

    /// Whether the value is `null`.
    pub fn is_null(&self) -> (r: bool)
        ensures
            r == (self@ is Null),
    {
        match self {
            Json::Null => true,
            _ => false,
        }
    }

    /// The text of a string.
    pub fn as_str(&self) -> (r: Option<&str>)
        ensures
            r is Some <==> self@ is String,
            r matches Some(s) ==> s@ == self@->String_0,
    {
        match self {
            Json::String(s) => Some(s.as_str()),
            _ => None,
        }
    }

    /// A boolean.
    pub fn as_bool(&self) -> (r: Option<bool>)
        ensures
            r == (match self@ {
                JsonView::Bool(b) => Some(b),
                _ => None,
            }),
    {
        match self {
            Json::Bool(b) => Some(*b),
            _ => None,
        }
    }

    /// An integer that fits an `i64`. A number with a fraction or an exponent is none.
    pub fn as_i64(&self) -> (r: Option<i64>)
        ensures
            r == view_i64(self@),
    {
        match self {
            Json::Number(Number::Unsigned(n)) => if *n <= 0x7fff_ffff_ffff_ffff {
                Some(*n as i64)
            } else {
                None
            },
            Json::Number(Number::Negative(n)) => Some(*n),
            _ => None,
        }
    }

    /// A non-negative integer.
    pub fn as_u64(&self) -> (r: Option<u64>)
        ensures
            r == view_u64(self@),
    {
        match self {
            Json::Number(Number::Unsigned(n)) => Some(*n),
            Json::Number(Number::Negative(n)) => if *n >= 0 {
                Some(*n as u64)
            } else {
                None
            },
            _ => None,
        }
    }

    /// The elements of an array.
    pub fn as_array(&self) -> (r: Option<&Vec<Json>>)
        ensures
            r is Some <==> self@ is Array,
            r matches Some(items) ==> array_view(items@) == self@->Array_0,
    {
        match self {
            Json::Array(items) => Some(items),
            _ => None,
        }
    }

    /// The members of an object.
    pub fn as_object(&self) -> (r: Option<&JsonMap>)
        ensures
            r is Some <==> self@ is Object,
            r matches Some(map) ==> map@ == self@->Object_0,
    {
        match self {
            Json::Object(map) => Some(map),
            _ => None,
        }
    }

    /// A member of an object.
    pub fn get(&self, key: &str) -> (r: Option<&Json>)
        ensures
            r is Some <==> view_get(self@, key@) is Some,
            r matches Some(j) ==> view_get(self@, key@) == Some(j@),
    {
        match self {
            Json::Object(map) => map.get(key),
            _ => None,
        }
    }

    /// A copy.
    pub fn dup(&self) -> (r: Json)
        ensures
            r@ == self@,
        decreases self,
    {
        match self {
            Json::Null => Json::Null,
            Json::Bool(b) => Json::Bool(*b),
            Json::Number(n) => Json::Number(*n),
            Json::String(s) => Json::String(s.clone()),
            Json::Array(items) => Json::Array(dup_list(items)),
            Json::Object(map) => Json::Object(map.dup()),
        }
    }
}

/// Whether two lists hold the same values.
fn same_list(a: &Vec<Json>, b: &Vec<Json>) -> (r: bool)
    ensures
        r == (array_view(a@) == array_view(b@)),
    decreases a,
{
    proof {
        lemma_array_view(a@);
        lemma_array_view(b@);
    }
    if a.len() != b.len() {
        return false;
    }
    let mut i: usize = 0;
    while i < a.len()
        invariant
            a@.len() == b@.len(),
            i <= a@.len(),
            array_view(a@).len() == a@.len(),
            array_view(b@).len() == b@.len(),
            forall|k: int| 0 <= k < a@.len() ==> #[trigger] array_view(a@)[k] == json_view(a@[k]),
            forall|k: int| 0 <= k < b@.len() ==> #[trigger] array_view(b@)[k] == json_view(b@[k]),
            forall|k: int| 0 <= k < i ==> #[trigger] array_view(a@)[k] == array_view(b@)[k],
        decreases a@.len() - i,
    {
        assert(decreases_to!(*a => a[i as int]));
        if !a[i].same(&b[i]) {
            assert(array_view(a@)[i as int] != array_view(b@)[i as int]);
            return false;
        }
        assert(array_view(a@)[i as int] == array_view(b@)[i as int]);
        i += 1;
    }
    assert(array_view(a@) =~= array_view(b@));
    true
}

impl JsonMap {
    /// Whether two objects have the same members, in whatever order.
    pub fn same(&self, other: &JsonMap) -> (r: bool)
        ensures
            r == (self@ == other@),
        decreases self,
    {
        let mut i: usize = 0;
        while i < self.entries.len()
            invariant
                i <= self.entries@.len(),
                forall|k: int|
                    0 <= k < i ==> agree(
                        object_view(self.entries@),
                        object_view(other.entries@),
                        (#[trigger] self.entries@[k]).0@,
                    ),
            decreases self.entries@.len() - i,
        {
            let ghost pair = self.entries@[i as int];
            assert(decreases_to!(self.entries@ => pair));
            let ghost key = pair.0@;
            let first: usize = self.find(self.entries[i].0.as_str());
            let at: usize = other.find(self.entries[i].0.as_str());
            proof {
                lemma_object_view(self.entries@, key, first as int);
                lemma_object_view(other.entries@, key, at as int);
            }
            if at >= other.entries.len() {
                assert(!agree(self@, other@, key));
                return false;
            }
            if first == i && !self.entries[i].1.same(&other.entries[at].1) {
                assert(!agree(self@, other@, key));
                return false;
            }
            proof {
                if first < i {
                    assert(agree(
                        object_view(self.entries@),
                        object_view(other.entries@),
                        self.entries@[first as int].0@,
                    ));
                }
            }
            i += 1;
        }
        let mut j: usize = 0;
        while j < other.entries.len()
            invariant
                j <= other.entries@.len(),
                forall|k: int|
                    0 <= k < j ==> object_view(self.entries@).dom().contains(
                        (#[trigger] other.entries@[k]).0@,
                    ),
            decreases other.entries@.len() - j,
        {
            let ghost key = other.entries@[j as int].0@;
            let at: usize = self.find(other.entries[j].0.as_str());
            proof {
                lemma_object_view(self.entries@, key, at as int);
                lemma_object_has(other.entries@, key);
            }
            if at >= self.entries.len() {
                assert(other@.dom().contains(key));
                return false;
            }
            j += 1;
        }
        proof {
            assert forall|key: Seq<char>| #[trigger]
                self@.dom().contains(key) <==> other@.dom().contains(key) by {
                lemma_object_has(self.entries@, key);
                lemma_object_has(other.entries@, key);
                if self@.dom().contains(key) {
                    let k = choose|k: int|
                        0 <= k < self.entries@.len() && (#[trigger] self.entries@[k]).0@ == key;
                    assert(agree(self@, other@, self.entries@[k].0@));
                }
                if other@.dom().contains(key) {
                    let k = choose|k: int|
                        0 <= k < other.entries@.len() && (#[trigger] other.entries@[k]).0@ == key;
                    assert(self@.dom().contains(other.entries@[k].0@));
                }
            }
            assert forall|key: Seq<char>| #[trigger] self@.dom().contains(key) implies self@[key]
                == other@[key] by {
                lemma_object_has(self.entries@, key);
                let k = choose|k: int|
                    0 <= k < self.entries@.len() && (#[trigger] self.entries@[k]).0@ == key;
                assert(agree(self@, other@, self.entries@[k].0@));
            }
            assert(self@ =~= other@);
        }
        true
    }
}

/// Whether two objects have the same member with a name that the first has.
pub open spec fn agree(
    a: Map<Seq<char>, JsonView>,
    b: Map<Seq<char>, JsonView>,
    key: Seq<char>,
) -> bool {
    a.dom().contains(key) && b.dom().contains(key) && a[key] == b[key]
}

impl Json {
    /// Whether two values are the same. The order of members does not count.
    pub fn same(&self, other: &Json) -> (r: bool)
        ensures
            r == (self@ == other@),
        decreases self,
    {
        match (self, other) {
            (Json::Null, Json::Null) => true,
            (Json::Bool(a), Json::Bool(b)) => *a == *b,
            (Json::Number(a), Json::Number(b)) => *a == *b,
            (Json::String(a), Json::String(b)) => str_eq(a.as_str(), b.as_str()),
            (Json::Array(a), Json::Array(b)) => same_list(a, b),
            (Json::Object(a), Json::Object(b)) => a.same(b),
            _ => false,
        }
    }
}

impl PartialEq for Json {
    fn eq(&self, other: &Json) -> (r: bool) {
        self.same(other)
    }
}

impl vstd::std_specs::cmp::PartialEqSpecImpl for Json {
    open spec fn obeys_eq_spec() -> bool {
        true
    }

    open spec fn eq_spec(&self, other: &Json) -> bool {
        self@ == other@
    }
}

impl Eq for Json {

}

impl PartialEq for JsonMap {
    fn eq(&self, other: &JsonMap) -> (r: bool) {
        self.same(other)
    }
}

impl vstd::std_specs::cmp::PartialEqSpecImpl for JsonMap {
    open spec fn obeys_eq_spec() -> bool {
        true
    }

    open spec fn eq_spec(&self, other: &JsonMap) -> bool {
        self@ == other@
    }
}

impl Eq for JsonMap {

}

impl Clone for Json {
    fn clone(&self) -> (r: Json)
        ensures
            r@ == self@,
    {
        self.dup()
    }
}

impl Clone for JsonMap {
    fn clone(&self) -> (r: JsonMap)
        ensures
            r@ == self@,
    {
        self.dup()
    }
}

/// A copy of a list of values.
pub fn dup_list(items: &Vec<Json>) -> (r: Vec<Json>)
    ensures
        array_view(r@) == array_view(items@),
    decreases items,
{
    let mut out: Vec<Json> = Vec::new();
    let mut i: usize = 0;
    while i < items.len()
        invariant
            i <= items@.len(),
            out@.len() == i,
            forall|k: int| 0 <= k < i ==> json_view(#[trigger] out@[k]) == json_view(items@[k]),
        decreases items@.len() - i,
    {
        assert(decreases_to!(*items => items[i as int]));
        out.push(items[i].dup());
        i += 1;
    }
    proof {
        lemma_array_view(out@);
        lemma_array_view(items@);
        assert(array_view(out@) =~= array_view(items@));
    }
    out
}

/// A copy of a stretch of values.
pub fn dup_slice(items: &[Json]) -> (r: Vec<Json>)
    ensures
        array_view(r@) == array_view(items@),
{
    let mut out: Vec<Json> = Vec::new();
    let mut i: usize = 0;
    while i < items.len()
        invariant
            i <= items@.len(),
            out@.len() == i,
            forall|k: int| 0 <= k < i ==> json_view(#[trigger] out@[k]) == json_view(items@[k]),
        decreases items@.len() - i,
    {
        out.push(items[i].dup());
        i += 1;
    }
    proof {
        lemma_array_view(out@);
        lemma_array_view(items@);
        assert(array_view(out@) =~= array_view(items@));
    }
    out
}

/// The `i64` that a value is, if any.
pub open spec fn view_i64(j: JsonView) -> Option<i64> {
    match j {
        JsonView::Number(Number::Unsigned(n)) => if n <= i64::MAX {
            Some(n as i64)
        } else {
            None
        },
        JsonView::Number(Number::Negative(n)) => Some(n),
        _ => None,
    }
}

/// The `u64` that a value is, if any.
pub open spec fn view_u64(j: JsonView) -> Option<u64> {
    match j {
        JsonView::Number(Number::Unsigned(n)) => Some(n),
        JsonView::Number(Number::Negative(n)) => if n >= 0 {
            Some(n as u64)
        } else {
            None
        },
        _ => None,
    }
}

/// A member of an object, if the value is an object that has it.
pub open spec fn view_get(j: JsonView, key: Seq<char>) -> Option<JsonView> {
    match j {
        JsonView::Object(map) => if map.dom().contains(key) {
            Some(map[key])
        } else {
            None
        },
        _ => None,
    }
}

/// A list of values is viewed value by value, in order.
pub proof fn law_elements_keep_their_order(items: Seq<Json>, i: int)
    ensures
        array_view(items).len() == items.len(),
        0 <= i < items.len() ==> array_view(items)[i] == items[i]@,
{
    lemma_array_view(items);
}

/// The member of a name is the first entry of that name; without such an entry there is none.
pub proof fn law_the_first_entry_of_a_name_counts(
    entries: Seq<(String, Json)>,
    key: Seq<char>,
    at: int,
)
    requires
        0 <= at < entries.len(),
        entries[at].0@ == key,
        forall|i: int| 0 <= i < at ==> (#[trigger] entries[i]).0@ != key,
    ensures
        object_view(entries).dom().contains(key),
        object_view(entries)[key] == entries[at].1@,
{
    lemma_object_view(entries, key, at);
}

/// An object has no members but its entries.
pub proof fn law_no_member_without_an_entry(entries: Seq<(String, Json)>, key: Seq<char>)
    requires
        forall|i: int| 0 <= i < entries.len() ==> (#[trigger] entries[i]).0@ != key,
    ensures
        !object_view(entries).dom().contains(key),
{
    lemma_object_has(entries, key);
}

/// A member is looked up by its name in an object, and nowhere else.
pub proof fn law_members_are_looked_up_by_name(
    j: JsonView,
    map: Map<Seq<char>, JsonView>,
    key: Seq<char>,
)
    ensures
        map.dom().contains(key) ==> view_get(JsonView::Object(map), key) == Some(map[key]),
        !map.dom().contains(key) ==> view_get(JsonView::Object(map), key) is None,
        j !is Object ==> view_get(j, key) is None,
{
}

/// An integer is read as itself where it fits, and a value of another kind is no integer.
pub proof fn law_integers_are_read_as_themselves(u: u64, n: i64, bits: u64)
    ensures
        u <= i64::MAX ==> view_i64(JsonView::Number(Number::Unsigned(u))) == Some(u as i64),
        u > i64::MAX ==> view_i64(JsonView::Number(Number::Unsigned(u))) is None,
        view_i64(JsonView::Number(Number::Negative(n))) == Some(n),
        view_u64(JsonView::Number(Number::Unsigned(u))) == Some(u),
        n < 0 ==> view_u64(JsonView::Number(Number::Negative(n))) is None,
        view_i64(JsonView::Number(Number::Float(bits))) is None,
        view_u64(JsonView::Number(Number::Float(bits))) is None,
        view_i64(JsonView::Null) is None,
        view_u64(JsonView::Null) is None,
        integer(u as int) == Number::Unsigned(u),
        n < 0 ==> integer(n as int) == Number::Negative(n),
{
}

/// Doubling `n` times is multiplying by the `n`th power of two, and halving is dividing by it.
proof fn lemma_powers(m: nat, n: nat)
    ensures
        doubled(m, n) == m * pow2(n),
        halved(m, n) == m / pow2(n),
    decreases n,
{
    lemma2_to64();
    lemma_pow2_pos(n);
    if n == 0 {
        assert(m * 1 == m);
        assert(m / 1 == m);
    } else {
        let k = (n - 1) as nat;
        lemma_powers(m, k);
        lemma_pow2_pos(k);
        lemma_pow2_unfold(n);
        let p = pow2(k);
        assert(2 * (m * p) == m * (2 * p)) by (nonlinear_arith);
        lemma_div_denominator(m as int, p as int, 2);
        assert(p * 2 == 2 * p);
    }
}

/// A double is its sign, its exponent and its fraction: the magnitude is the significand, with its
/// hidden bit where the exponent is not zero, times the power of two that the exponent names,
/// rounded down.
pub proof fn law_what_a_double_is(sign: bool, exponent: nat, fraction: nat, bits: u64)
    requires
        exponent < 0x800,
        fraction < 0x10_0000_0000_0000,
        bits == (if sign {
            0x8000_0000_0000_0000int
        } else {
            0
        }) + exponent * 0x10_0000_0000_0000 + fraction,
    ensures
        float_negative(bits) <==> sign,
        float_finite(bits) <==> exponent != 0x7ff,
        exponent >= 1075 ==> float_whole(bits) == (fraction + 0x10_0000_0000_0000) * pow2(
            (exponent - 1075) as nat,
        ),
        0 < exponent < 1075 ==> float_whole(bits) == (fraction + 0x10_0000_0000_0000) / pow2(
            (1075 - exponent) as nat,
        ),
        exponent == 0 ==> float_whole(bits) == fraction / pow2(1074),
{
    assert(bits as int % 0x10_0000_0000_0000 == fraction);
    assert(bits as int / 0x10_0000_0000_0000 == exponent + (if sign {
        0x800int
    } else {
        0
    }));
    assert(float_exponent(bits) == exponent);
    if exponent >= 1075 {
        lemma_powers((fraction + 0x10_0000_0000_0000) as nat, (exponent - 1075) as nat);
    } else if exponent > 0 {
        lemma_powers((fraction + 0x10_0000_0000_0000) as nat, (1075 - exponent) as nat);
    } else {
        lemma_powers(fraction, 1074);
    }
}

/// A double becomes an integer by dropping its fraction, and the nearest bound where it does not
/// fit.
pub proof fn law_how_a_double_is_cut(bits: u64)
    ensures
        float_whole(bits) <= u64::MAX ==> float_whole_u64(bits) == float_whole(bits),
        float_whole(bits) > u64::MAX ==> float_whole_u64(bits) == u64::MAX,
        !float_negative(bits) && float_whole(bits) <= i64::MAX ==> float_trunc_i64(bits)
            == float_whole(bits),
        !float_negative(bits) && float_whole(bits) > i64::MAX ==> float_trunc_i64(bits)
            == i64::MAX,
        float_negative(bits) && float_whole(bits) <= 0x8000_0000_0000_0000 ==> float_trunc_i64(
            bits,
        ) == -float_whole(bits),
        float_negative(bits) && float_whole(bits) > 0x8000_0000_0000_0000 ==> float_trunc_i64(
            bits,
        ) == i64::MIN,
{
}

} // verus!
