//! Typed, opaque Rocket.Chat identifiers.
//!
//! Rocket.Chat ids are short alphanumeric strings, so [`Id`] is backed by a `CompactString`
//! and is allocation-free for every id the server emits.
//!
//! The marker parameter is phantom: it exists to stop a room id being passed where a user id
//! is wanted. Use [`Id::cast`] for the rare legitimate re-marking.
use crate::assoc::{before, comes_before};
use crate::text::{debug_quoted, quote_debug, str_eq};
use compact_str::CompactString;
use core::cmp::Ordering;
use core::marker::PhantomData;
use core::sync::atomic::AtomicPtr;
use vstd::prelude::*;
use vstd::string::*;

verus! {

/// A shared pointer. It only stands in a marker: it can be sent and shared between threads
/// whatever it points to, and so can an id, whatever it is the id of.
#[verifier::external_type_specification]
#[verifier::external_body]
#[verifier::reject_recursive_types(T)]
pub struct ExAtomicPtr<T>(AtomicPtr<T>);

/// The string type that ids are stored in. It is opaque here: [`compact_chars`] says what it
/// holds.
#[verifier::external_type_specification]
#[verifier::external_body]
pub struct ExCompactString(CompactString);

/// The characters that a `CompactString` holds.
pub uninterp spec fn compact_chars(s: CompactString) -> Seq<char>;

/// `CompactString::new`: the string holds the given characters.
#[verifier::external_body]
fn compact_new(s: &str) -> (r: CompactString)
    ensures
        compact_chars(r) == s@,
{
    CompactString::new(s)
}

/// `CompactString::as_str`: the characters that the string holds.
#[verifier::external_body]
fn compact_as_str(s: &CompactString) -> (r: &str)
    ensures
        r@ == compact_chars(*s),
{
    s.as_str()
}

/// `CompactString::clone`: a string with the same characters.
#[verifier::external_body]
fn compact_clone(s: &CompactString) -> (r: CompactString)
    ensures
        compact_chars(r) == compact_chars(*s),
{
    s.clone()
}

/// Marker for a message id.
#[derive(Debug, Clone, Copy, PartialEq, Eq, Hash)]
pub struct MessageMarker;

/// Marker for a room id.
#[derive(Debug, Clone, Copy, PartialEq, Eq, Hash)]
pub struct RoomMarker;

/// Marker for a user id.
#[derive(Debug, Clone, Copy, PartialEq, Eq, Hash)]
pub struct UserMarker;

/// Marker for a subscription document id.
#[derive(Debug, Clone, Copy, PartialEq, Eq, Hash)]
pub struct SubscriptionMarker;

/// Marker for a role id.
#[derive(Debug, Clone, Copy, PartialEq, Eq, Hash)]
pub struct RoleMarker;

/// Marker for an upload / file id.
#[derive(Debug, Clone, Copy, PartialEq, Eq, Hash)]
pub struct UploadMarker;

/// An opaque Rocket.Chat identifier, tagged with a phantom `T`.
#[derive(Debug, Hash)]
#[verifier::reject_recursive_types(T)]
pub struct Id<T> {
    value: CompactString,
    marker: PhantomData<AtomicPtr<T>>,
}

impl<T> View for Id<T> {
    type V = Seq<char>;

    closed spec fn view(&self) -> Seq<char> {
        compact_chars(self.value)
    }
}

impl<T> Id<T> {
    /// Wraps an already-known id string.
    pub fn new(value: &str) -> (r: Id<T>)
        ensures
            r@ == value@,
    {
        Id { value: compact_new(value), marker: PhantomData }
    }

    /// The id as a string slice.
    pub fn as_str(&self) -> (r: &str)
        ensures
            r@ == self@,
    {
        compact_as_str(&self.value)
    }

    /// Consumes the id, returning the backing string.
    pub fn into_inner(self) -> (r: CompactString)
        ensures
            compact_chars(r) == self@,
    {
        self.value
    }

    /// Re-tags this id with a different marker.
    ///
    /// Rocket.Chat reuses id values across entity kinds in a few places: a discussion's
    /// `drid` is both a message id and a room id. This makes those conversions explicit
    /// rather than silent.
    pub fn cast<U>(self) -> (r: Id<U>)
        ensures
            r@ == self@,
    {
        Id { value: self.value, marker: PhantomData }
    }

    /// The id as a log line shows it: the bare string, quoted. The marker is visible in the type.
    pub fn debug_text(&self) -> (r: String)
        ensures
            r@ == debug_quoted(self@),
    {
        quote_debug(self.as_str())
    }

    /// How two ids are ordered, as their strings are.
    pub fn ordering_to(&self, other: &Id<T>) -> (r: Ordering)
        ensures
            r == (if self@ == other@ {
                Ordering::Equal
            } else if before(self@, other@) {
                Ordering::Less
            } else {
                Ordering::Greater
            }),
    {
        if self.same(other) {
            Ordering::Equal
        } else if comes_before(self.as_str(), other.as_str()) {
            Ordering::Less
        } else {
            Ordering::Greater
        }
    }

    /// Whether two ids are the same string.
    pub fn same(&self, other: &Id<T>) -> (r: bool)
        ensures
            r == (self@ == other@),
    {
        str_eq(self.as_str(), other.as_str())
    }
}

impl<T> Clone for Id<T> {
    fn clone(&self) -> (r: Id<T>)
        ensures
            r@ == self@,
    {
        Id { value: compact_clone(&self.value), marker: PhantomData }
    }
}

impl<T> PartialEq for Id<T> {
    fn eq(&self, other: &Id<T>) -> (r: bool) {
        self.same(other)
    }
}

impl<T> vstd::std_specs::cmp::PartialEqSpecImpl for Id<T> {
    open spec fn obeys_eq_spec() -> bool {
        true
    }

    open spec fn eq_spec(&self, other: &Id<T>) -> bool {
        self@ == other@
    }
}

impl<T> Eq for Id<T> {

}

impl<'a, T> PartialEq<&'a str> for Id<T> {
    fn eq(&self, other: &&'a str) -> (r: bool) {
        str_eq(self.as_str(), *other)
    }
}

impl<'a, T> vstd::std_specs::cmp::PartialEqSpecImpl<&'a str> for Id<T> {
    open spec fn obeys_eq_spec() -> bool {
        true
    }

    open spec fn eq_spec(&self, other: &&'a str) -> bool {
        self@ == other@
    }
}

impl<T> PartialEq<str> for Id<T> {
    fn eq(&self, other: &str) -> (r: bool) {
        str_eq(self.as_str(), other)
    }
}

impl<T> vstd::std_specs::cmp::PartialEqSpecImpl<str> for Id<T> {
    open spec fn obeys_eq_spec() -> bool {
        true
    }

    open spec fn eq_spec(&self, other: &str) -> bool {
        self@ == other@
    }
}

impl<'a, T> From<&'a str> for Id<T> {
    fn from(s: &'a str) -> (r: Id<T>)
        ensures
            r@ == s@,
    {
        Id::new(s)
    }
}

impl<'a, T> vstd::std_specs::convert::FromSpecImpl<&'a str> for Id<T> {
    open spec fn obeys_from_spec() -> bool {
        false
    }

    open spec fn from_spec(s: &'a str) -> Id<T> {
        arbitrary()
    }
}

impl<T> From<String> for Id<T> {
    fn from(s: String) -> (r: Id<T>)
        ensures
            r@ == s@,
    {
        Id::new(s.as_str())
    }
}

impl<T> vstd::std_specs::convert::FromSpecImpl<String> for Id<T> {
    open spec fn obeys_from_spec() -> bool {
        false
    }

    open spec fn from_spec(s: String) -> Id<T> {
        arbitrary()
    }
}

impl<T> AsRef<str> for Id<T> {
    fn as_ref(&self) -> (r: &str)
        ensures
            r@ == self@,
    {
        self.as_str()
    }
}

impl<T> core::str::FromStr for Id<T> {
    type Err = core::convert::Infallible;

    fn from_str(s: &str) -> (r: Result<Id<T>, core::convert::Infallible>)
        ensures
            r matches Ok(id) && id@ == s@,
    {
        Ok(Id::new(s))
    }
}

/// Id of a message.
pub type MessageId = Id<MessageMarker>;

/// Id of a room.
pub type RoomId = Id<RoomMarker>;

/// Id of a user.
pub type UserId = Id<UserMarker>;

/// Id of a subscription document.
pub type SubscriptionId = Id<SubscriptionMarker>;

/// Id of a role.
pub type RoleId = Id<RoleMarker>;

/// Id of an upload.
pub type UploadId = Id<UploadMarker>;

} // verus!
