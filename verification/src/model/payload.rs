//! The payloads of the stream events.
use crate::model::datetime::Timestamp;
use crate::model::entity::{
    MessageType, PresenceSource, PresenceStatus, RoomType, Subscription, User, UserRef,
};
use crate::model::id::{MessageId, RoleId, RoomId, SubscriptionId, UserId};
use crate::model::json::{Json, JsonMap, JsonView};
use crate::model::names::{
    lemma_activity_apart, lemma_client_action_apart, lemma_role_change_kind_apart,
};
use crate::model::wire::{
    defaulted, has_default, has_optional, has_required, is_optional, is_required, is_shaped,
    optional, put, put_some, required, shaped, slot, with, with_some, Decode, Dict, Encode,
};
use crate::text::str_eq;
use vstd::prelude::*;
use vstd::string::*;

verus! {

/// What a user is doing in a room, as reported by `<rid>/user-activity`.
#[derive(Clone, Debug, PartialEq, Eq, Hash, PartialOrd, Ord)]
pub enum Activity {
    /// Composing a message.
    UserTyping,
    /// Recording audio or video.
    UserRecording,
    /// Uploading a file.
    UserUploading,
    /// A value this library does not know about. It is written back unchanged.
    Unknown(String),
}

impl Activity {
    /// The value as it appears on the wire.
    pub open spec fn wire(&self) -> Seq<char> {
        match *self {
            Activity::UserTyping => "user-typing"@,
            Activity::UserRecording => "user-recording"@,
            Activity::UserUploading => "user-uploading"@,
            Activity::Unknown(other) => other@,
        }
    }

    /// Whether a wire value has a variant of its own.
    pub open spec fn known(value: Seq<char>) -> bool {
        ||| value == "user-typing"@
        ||| value == "user-recording"@
        ||| value == "user-uploading"@
    }

    /// Whether two values are the same.
    pub open spec fn same_as(&self, other: &Activity) -> bool {
        self.wire() == other.wire() && (*self is Unknown <==> *other is Unknown)
    }

    /// The value as it appears on the wire.
    pub fn as_str(&self) -> (r: &str)
        ensures
            r@ == self.wire(),
    {
        match self {
            Activity::UserTyping => "user-typing",
            Activity::UserRecording => "user-recording",
            Activity::UserUploading => "user-uploading",
            Activity::Unknown(other) => other.as_str(),
        }
    }

    /// Whether this value was not recognised by this version of the library.
    pub fn is_unknown(&self) -> (r: bool)
        ensures
            r == (*self is Unknown),
    {
        match self {
            Activity::Unknown(_) => true,
            _ => false,
        }
    }

    /// Reads a wire value.
    pub fn parse(value: &str) -> (r: Activity)
        ensures
            value@ == "user-typing"@ <==> r is UserTyping,
            value@ == "user-recording"@ <==> r is UserRecording,
            value@ == "user-uploading"@ <==> r is UserUploading,
            r matches Activity::Unknown(other) ==> other@ == value@,
            r.wire() == value@,
            r is Unknown <==> !Activity::known(value@),
    {
        proof {
            lemma_activity_apart();
        }
        if str_eq(value, "user-typing") {
            Activity::UserTyping
        } else if str_eq(value, "user-recording") {
            Activity::UserRecording
        } else if str_eq(value, "user-uploading") {
            Activity::UserUploading
        } else {
            Activity::Unknown(value.to_owned())
        }
    }

    /// Whether two values are the same.
    pub fn same(&self, other: &Activity) -> (r: bool)
        ensures
            r == self.same_as(other),
    {
        str_eq(self.as_str(), other.as_str()) && self.is_unknown() == other.is_unknown()
    }
}

impl<'a> From<&'a str> for Activity {
    fn from(value: &'a str) -> (r: Activity)
        ensures
            r.wire() == value@,
            r is Unknown <==> !Activity::known(value@),
    {
        Activity::parse(value)
    }
}

impl<'a> vstd::std_specs::convert::FromSpecImpl<&'a str> for Activity {
    open spec fn obeys_from_spec() -> bool {
        false
    }

    open spec fn from_spec(value: &'a str) -> Activity {
        arbitrary()
    }
}

impl From<String> for Activity {
    fn from(value: String) -> (r: Activity)
        ensures
            r.wire() == value@,
            r is Unknown <==> !Activity::known(value@),
    {
        Activity::parse(value.as_str())
    }
}

impl vstd::std_specs::convert::FromSpecImpl<String> for Activity {
    open spec fn obeys_from_spec() -> bool {
        false
    }

    open spec fn from_spec(value: String) -> Activity {
        arbitrary()
    }
}

impl From<Activity> for String {
    fn from(value: Activity) -> (r: String)
        ensures
            r@ == value.wire(),
    {
        value.as_str().to_owned()
    }
}

impl vstd::std_specs::convert::FromSpecImpl<Activity> for String {
    open spec fn obeys_from_spec() -> bool {
        false
    }

    open spec fn from_spec(value: Activity) -> String {
        arbitrary()
    }
}

impl AsRef<str> for Activity {
    fn as_ref(&self) -> (r: &str)
        ensures
            r@ == self.wire(),
    {
        self.as_str()
    }
}

impl Decode for Activity {
    open spec fn accepts(j: JsonView) -> bool {
        j is String
    }

    open spec fn read_from(&self, j: JsonView) -> bool {
        j == JsonView::String(self.wire()) && (*self is Unknown <==> !Activity::known(self.wire()))
    }

    fn decode(j: &Json) -> (r: Option<Activity>) {
        match j {
            Json::String(s) => Some(Activity::parse(s.as_str())),
            _ => None,
        }
    }
}

impl Encode for Activity {
    open spec fn doc(&self) -> JsonView {
        JsonView::String(self.wire())
    }

    fn encode(&self) -> (r: Json) {
        Json::string(self.as_str())
    }
}

/// What happened to a document, on the streams that carry a change verb.
#[derive(Clone, Debug, PartialEq, Eq, Hash, PartialOrd, Ord)]
pub enum ClientAction {
    /// The document was created.
    Inserted,
    /// The document was modified.
    Updated,
    /// The document was deleted.
    Removed,
    /// A generic change, used where the server does not distinguish insert from update.
    Changed,
    /// A value this library does not know about. It is written back unchanged.
    Unknown(String),
}

impl ClientAction {
    /// The value as it appears on the wire.
    pub open spec fn wire(&self) -> Seq<char> {
        match *self {
            ClientAction::Inserted => "inserted"@,
            ClientAction::Updated => "updated"@,
            ClientAction::Removed => "removed"@,
            ClientAction::Changed => "changed"@,
            ClientAction::Unknown(other) => other@,
        }
    }

    /// Whether a wire value has a variant of its own.
    pub open spec fn known(value: Seq<char>) -> bool {
        ||| value == "inserted"@
        ||| value == "updated"@
        ||| value == "removed"@
        ||| value == "changed"@
    }

    /// Whether two values are the same.
    pub open spec fn same_as(&self, other: &ClientAction) -> bool {
        self.wire() == other.wire() && (*self is Unknown <==> *other is Unknown)
    }

    /// The value as it appears on the wire.
    pub fn as_str(&self) -> (r: &str)
        ensures
            r@ == self.wire(),
    {
        match self {
            ClientAction::Inserted => "inserted",
            ClientAction::Updated => "updated",
            ClientAction::Removed => "removed",
            ClientAction::Changed => "changed",
            ClientAction::Unknown(other) => other.as_str(),
        }
    }

    /// Whether this value was not recognised by this version of the library.
    pub fn is_unknown(&self) -> (r: bool)
        ensures
            r == (*self is Unknown),
    {
        match self {
            ClientAction::Unknown(_) => true,
            _ => false,
        }
    }

    /// Reads a wire value.
    pub fn parse(value: &str) -> (r: ClientAction)
        ensures
            value@ == "inserted"@ <==> r is Inserted,
            value@ == "updated"@ <==> r is Updated,
            value@ == "removed"@ <==> r is Removed,
            value@ == "changed"@ <==> r is Changed,
            r matches ClientAction::Unknown(other) ==> other@ == value@,
            r.wire() == value@,
            r is Unknown <==> !ClientAction::known(value@),
    {
        proof {
            lemma_client_action_apart();
        }
        if str_eq(value, "inserted") {
            ClientAction::Inserted
        } else if str_eq(value, "updated") {
            ClientAction::Updated
        } else if str_eq(value, "removed") {
            ClientAction::Removed
        } else if str_eq(value, "changed") {
            ClientAction::Changed
        } else {
            ClientAction::Unknown(value.to_owned())
        }
    }

    /// Whether two values are the same.
    pub fn same(&self, other: &ClientAction) -> (r: bool)
        ensures
            r == self.same_as(other),
    {
        str_eq(self.as_str(), other.as_str()) && self.is_unknown() == other.is_unknown()
    }
}

impl<'a> From<&'a str> for ClientAction {
    fn from(value: &'a str) -> (r: ClientAction)
        ensures
            r.wire() == value@,
            r is Unknown <==> !ClientAction::known(value@),
    {
        ClientAction::parse(value)
    }
}

impl<'a> vstd::std_specs::convert::FromSpecImpl<&'a str> for ClientAction {
    open spec fn obeys_from_spec() -> bool {
        false
    }

    open spec fn from_spec(value: &'a str) -> ClientAction {
        arbitrary()
    }
}

impl From<String> for ClientAction {
    fn from(value: String) -> (r: ClientAction)
        ensures
            r.wire() == value@,
            r is Unknown <==> !ClientAction::known(value@),
    {
        ClientAction::parse(value.as_str())
    }
}

impl vstd::std_specs::convert::FromSpecImpl<String> for ClientAction {
    open spec fn obeys_from_spec() -> bool {
        false
    }

    open spec fn from_spec(value: String) -> ClientAction {
        arbitrary()
    }
}

impl From<ClientAction> for String {
    fn from(value: ClientAction) -> (r: String)
        ensures
            r@ == value.wire(),
    {
        value.as_str().to_owned()
    }
}

impl vstd::std_specs::convert::FromSpecImpl<ClientAction> for String {
    open spec fn obeys_from_spec() -> bool {
        false
    }

    open spec fn from_spec(value: ClientAction) -> String {
        arbitrary()
    }
}

impl AsRef<str> for ClientAction {
    fn as_ref(&self) -> (r: &str)
        ensures
            r@ == self.wire(),
    {
        self.as_str()
    }
}

impl Decode for ClientAction {
    open spec fn accepts(j: JsonView) -> bool {
        j is String
    }

    open spec fn read_from(&self, j: JsonView) -> bool {
        j == JsonView::String(self.wire()) && (*self is Unknown <==> !ClientAction::known(self.wire()))
    }

    fn decode(j: &Json) -> (r: Option<ClientAction>) {
        match j {
            Json::String(s) => Some(ClientAction::parse(s.as_str())),
            _ => None,
        }
    }
}

impl Encode for ClientAction {
    open spec fn doc(&self) -> JsonView {
        JsonView::String(self.wire())
    }

    fn encode(&self) -> (r: Json) {
        Json::string(self.as_str())
    }
}

/// What happened to a role assignment on `notify-logged` / `roles-change`.
#[derive(Clone, Debug, PartialEq, Eq, Hash, PartialOrd, Ord)]
pub enum RoleChangeKind {
    /// The role was granted.
    Added,
    /// The role was revoked.
    Removed,
    /// The role document itself changed.
    Changed,
    /// A value this library does not know about. It is written back unchanged.
    Unknown(String),
}

impl RoleChangeKind {
    /// The value as it appears on the wire.
    pub open spec fn wire(&self) -> Seq<char> {
        match *self {
            RoleChangeKind::Added => "added"@,
            RoleChangeKind::Removed => "removed"@,
            RoleChangeKind::Changed => "changed"@,
            RoleChangeKind::Unknown(other) => other@,
        }
    }

    /// Whether a wire value has a variant of its own.
    pub open spec fn known(value: Seq<char>) -> bool {
        ||| value == "added"@
        ||| value == "removed"@
        ||| value == "changed"@
    }

    /// Whether two values are the same.
    pub open spec fn same_as(&self, other: &RoleChangeKind) -> bool {
        self.wire() == other.wire() && (*self is Unknown <==> *other is Unknown)
    }

    /// The value as it appears on the wire.
    pub fn as_str(&self) -> (r: &str)
        ensures
            r@ == self.wire(),
    {
        match self {
            RoleChangeKind::Added => "added",
            RoleChangeKind::Removed => "removed",
            RoleChangeKind::Changed => "changed",
            RoleChangeKind::Unknown(other) => other.as_str(),
        }
    }

    /// Whether this value was not recognised by this version of the library.
    pub fn is_unknown(&self) -> (r: bool)
        ensures
            r == (*self is Unknown),
    {
        match self {
            RoleChangeKind::Unknown(_) => true,
            _ => false,
        }
    }

    /// Reads a wire value.
    pub fn parse(value: &str) -> (r: RoleChangeKind)
        ensures
            value@ == "added"@ <==> r is Added,
            value@ == "removed"@ <==> r is Removed,
            value@ == "changed"@ <==> r is Changed,
            r matches RoleChangeKind::Unknown(other) ==> other@ == value@,
            r.wire() == value@,
            r is Unknown <==> !RoleChangeKind::known(value@),
    {
        proof {
            lemma_role_change_kind_apart();
        }
        if str_eq(value, "added") {
            RoleChangeKind::Added
        } else if str_eq(value, "removed") {
            RoleChangeKind::Removed
        } else if str_eq(value, "changed") {
            RoleChangeKind::Changed
        } else {
            RoleChangeKind::Unknown(value.to_owned())
        }
    }

    /// Whether two values are the same.
    pub fn same(&self, other: &RoleChangeKind) -> (r: bool)
        ensures
            r == self.same_as(other),
    {
        str_eq(self.as_str(), other.as_str()) && self.is_unknown() == other.is_unknown()
    }
}

impl<'a> From<&'a str> for RoleChangeKind {
    fn from(value: &'a str) -> (r: RoleChangeKind)
        ensures
            r.wire() == value@,
            r is Unknown <==> !RoleChangeKind::known(value@),
    {
        RoleChangeKind::parse(value)
    }
}

impl<'a> vstd::std_specs::convert::FromSpecImpl<&'a str> for RoleChangeKind {
    open spec fn obeys_from_spec() -> bool {
        false
    }

    open spec fn from_spec(value: &'a str) -> RoleChangeKind {
        arbitrary()
    }
}

impl From<String> for RoleChangeKind {
    fn from(value: String) -> (r: RoleChangeKind)
        ensures
            r.wire() == value@,
            r is Unknown <==> !RoleChangeKind::known(value@),
    {
        RoleChangeKind::parse(value.as_str())
    }
}

impl vstd::std_specs::convert::FromSpecImpl<String> for RoleChangeKind {
    open spec fn obeys_from_spec() -> bool {
        false
    }

    open spec fn from_spec(value: String) -> RoleChangeKind {
        arbitrary()
    }
}

impl From<RoleChangeKind> for String {
    fn from(value: RoleChangeKind) -> (r: String)
        ensures
            r@ == value.wire(),
    {
        value.as_str().to_owned()
    }
}

impl vstd::std_specs::convert::FromSpecImpl<RoleChangeKind> for String {
    open spec fn obeys_from_spec() -> bool {
        false
    }

    open spec fn from_spec(value: RoleChangeKind) -> String {
        arbitrary()
    }
}

impl AsRef<str> for RoleChangeKind {
    fn as_ref(&self) -> (r: &str)
        ensures
            r@ == self.wire(),
    {
        self.as_str()
    }
}

impl Decode for RoleChangeKind {
    open spec fn accepts(j: JsonView) -> bool {
        j is String
    }

    open spec fn read_from(&self, j: JsonView) -> bool {
        j == JsonView::String(self.wire()) && (*self is Unknown <==> !RoleChangeKind::known(self.wire()))
    }

    fn decode(j: &Json) -> (r: Option<RoleChangeKind>) {
        match j {
            Json::String(s) => Some(RoleChangeKind::parse(s.as_str())),
            _ => None,
        }
    }
}

impl Encode for RoleChangeKind {
    open spec fn doc(&self) -> JsonView {
        JsonView::String(self.wire())
    }

    fn encode(&self) -> (r: Json) {
        Json::string(self.as_str())
    }
}

/// The trailing element appended to every `room-messages` / `__my_messages__` event.
#[derive(Clone, Debug, PartialEq)]
pub struct MyMessageMeta {
    /// Whether the recipient has a subscription to the room, as opposed to merely being
    /// permitted to read it.
    pub room_participant: Option<bool>,
    /// Kind of the room the message was posted in.
    pub room_type: Option<RoomType>,
    /// Name of the room.
    pub room_name: Option<String>,
}

impl Default for MyMessageMeta {
    fn default() -> (r: MyMessageMeta)
        ensures
            r == (MyMessageMeta { room_participant: None, room_type: None, room_name: None }),
    {
        MyMessageMeta { room_participant: None, room_type: None, room_name: None }
    }
}

impl Decode for MyMessageMeta {
    open spec fn accepts(j: JsonView) -> bool {
        &&& shaped(j, 3)
        &&& has_optional::<bool>(slot(j, "roomParticipant"@, 0))
        &&& has_optional::<RoomType>(slot(j, "roomType"@, 1))
        &&& has_optional::<String>(slot(j, "roomName"@, 2))
    }

    open spec fn read_from(&self, j: JsonView) -> bool {
        &&& is_optional(self.room_participant, slot(j, "roomParticipant"@, 0))
        &&& is_optional(self.room_type, slot(j, "roomType"@, 1))
        &&& is_optional(self.room_name, slot(j, "roomName"@, 2))
    }

    fn decode(j: &Json) -> (r: Option<MyMessageMeta>) {
        if !is_shaped(j, 3) {
            return None;
        }
        let room_participant: Option<bool> = match optional(j, "roomParticipant", 0) {
            Some(v) => v,
            None => {
                return None;
            },
        };
        let room_type: Option<RoomType> = match optional(j, "roomType", 1) {
            Some(v) => v,
            None => {
                return None;
            },
        };
        let room_name: Option<String> = match optional(j, "roomName", 2) {
            Some(v) => v,
            None => {
                return None;
            },
        };
        Some(
            MyMessageMeta {
                room_participant,
                room_type,
                room_name,
            },
        )
    }
}

impl Encode for MyMessageMeta {
    open spec fn doc(&self) -> JsonView {
        let m = Map::empty();
        let m = with_some(m, "roomParticipant"@, self.room_participant);
        let m = with_some(m, "roomType"@, self.room_type);
        let m = with_some(m, "roomName"@, self.room_name);
        JsonView::Object(m)
    }

    fn encode(&self) -> (r: Json) {
        let mut map = JsonMap::new();
        put_some(&mut map, "roomParticipant", &self.room_participant);
        put_some(&mut map, "roomType", &self.room_type);
        put_some(&mut map, "roomName", &self.room_name);
        Json::Object(map)
    }
}

/// The payload of `notify-room` / `<rid>/deleteMessageBulk`.
#[derive(Clone, Debug, PartialEq)]
pub struct BulkDelete {
    /// Room the deletion applies to.
    pub rid: RoomId,
    /// Message ids, when the server chose to enumerate them.
    pub ids: Option<Vec<MessageId>>,
    /// Mongo range query over `ts`, keyed by operator (`$gt`, `$lt`, …).
    pub ts: Option<Dict<Timestamp>>,
    /// Restrict the deletion to messages by these usernames.
    pub users: Option<Vec<String>>,
    /// Whether pinned messages survive.
    pub exclude_pinned: Option<bool>,
    /// Whether messages that started a discussion survive.
    pub ignore_discussion: Option<bool>,
    /// Whether the deleted messages leave `rm` tombstones behind.
    pub show_deleted_status: Option<bool>,
    /// Whether only messages carrying a file are affected.
    pub files_only: Option<bool>,
}

impl Decode for BulkDelete {
    open spec fn accepts(j: JsonView) -> bool {
        &&& shaped(j, 8)
        &&& has_required::<RoomId>(slot(j, "rid"@, 0))
        &&& has_optional::<Vec<MessageId>>(slot(j, "ids"@, 1))
        &&& has_optional::<Dict<Timestamp>>(slot(j, "ts"@, 2))
        &&& has_optional::<Vec<String>>(slot(j, "users"@, 3))
        &&& has_optional::<bool>(slot(j, "excludePinned"@, 4))
        &&& has_optional::<bool>(slot(j, "ignoreDiscussion"@, 5))
        &&& has_optional::<bool>(slot(j, "showDeletedStatus"@, 6))
        &&& has_optional::<bool>(slot(j, "filesOnly"@, 7))
    }

    open spec fn read_from(&self, j: JsonView) -> bool {
        &&& is_required(self.rid, slot(j, "rid"@, 0))
        &&& is_optional(self.ids, slot(j, "ids"@, 1))
        &&& is_optional(self.ts, slot(j, "ts"@, 2))
        &&& is_optional(self.users, slot(j, "users"@, 3))
        &&& is_optional(self.exclude_pinned, slot(j, "excludePinned"@, 4))
        &&& is_optional(self.ignore_discussion, slot(j, "ignoreDiscussion"@, 5))
        &&& is_optional(self.show_deleted_status, slot(j, "showDeletedStatus"@, 6))
        &&& is_optional(self.files_only, slot(j, "filesOnly"@, 7))
    }

    fn decode(j: &Json) -> (r: Option<BulkDelete>) {
        if !is_shaped(j, 8) {
            return None;
        }
        let rid: RoomId = match required(j, "rid", 0) {
            Some(v) => v,
            None => {
                return None;
            },
        };
        let ids: Option<Vec<MessageId>> = match optional(j, "ids", 1) {
            Some(v) => v,
            None => {
                return None;
            },
        };
        let ts: Option<Dict<Timestamp>> = match optional(j, "ts", 2) {
            Some(v) => v,
            None => {
                return None;
            },
        };
        let users: Option<Vec<String>> = match optional(j, "users", 3) {
            Some(v) => v,
            None => {
                return None;
            },
        };
        let exclude_pinned: Option<bool> = match optional(j, "excludePinned", 4) {
            Some(v) => v,
            None => {
                return None;
            },
        };
        let ignore_discussion: Option<bool> = match optional(j, "ignoreDiscussion", 5) {
            Some(v) => v,
            None => {
                return None;
            },
        };
        let show_deleted_status: Option<bool> = match optional(j, "showDeletedStatus", 6) {
            Some(v) => v,
            None => {
                return None;
            },
        };
        let files_only: Option<bool> = match optional(j, "filesOnly", 7) {
            Some(v) => v,
            None => {
                return None;
            },
        };
        Some(
            BulkDelete {
                rid,
                ids,
                ts,
                users,
                exclude_pinned,
                ignore_discussion,
                show_deleted_status,
                files_only,
            },
        )
    }
}

impl Encode for BulkDelete {
    open spec fn doc(&self) -> JsonView {
        let m = Map::empty();
        let m = with(m, "rid"@, self.rid.doc());
        let m = with_some(m, "ids"@, self.ids);
        let m = with_some(m, "ts"@, self.ts);
        let m = with_some(m, "users"@, self.users);
        let m = with_some(m, "excludePinned"@, self.exclude_pinned);
        let m = with_some(m, "ignoreDiscussion"@, self.ignore_discussion);
        let m = with_some(m, "showDeletedStatus"@, self.show_deleted_status);
        let m = with_some(m, "filesOnly"@, self.files_only);
        JsonView::Object(m)
    }

    fn encode(&self) -> (r: Json) {
        let mut map = JsonMap::new();
        put(&mut map, "rid", &self.rid);
        put_some(&mut map, "ids", &self.ids);
        put_some(&mut map, "ts", &self.ts);
        put_some(&mut map, "users", &self.users);
        put_some(&mut map, "excludePinned", &self.exclude_pinned);
        put_some(&mut map, "ignoreDiscussion", &self.ignore_discussion);
        put_some(&mut map, "showDeletedStatus", &self.show_deleted_status);
        put_some(&mut map, "filesOnly", &self.files_only);
        Json::Object(map)
    }
}

/// A desktop notification pushed to one user on `notify-user` / `<uid>/notification`.
#[derive(Clone, Debug, PartialEq)]
pub struct DesktopNotification {
    /// Notification title, usually the room name.
    pub title: String,
    /// Notification body, already rendered to plain text.
    pub text: String,
    /// Icon URL.
    pub icon: Option<String>,
    /// How long the client should display it, in seconds.
    pub duration: Option<i64>,
    /// What the notification is about.
    pub payload: NotificationPayload,
}

impl Decode for DesktopNotification {
    open spec fn accepts(j: JsonView) -> bool {
        &&& shaped(j, 5)
        &&& has_required::<String>(slot(j, "title"@, 0))
        &&& has_required::<String>(slot(j, "text"@, 1))
        &&& has_optional::<String>(slot(j, "icon"@, 2))
        &&& has_optional::<i64>(slot(j, "duration"@, 3))
        &&& has_required::<NotificationPayload>(slot(j, "payload"@, 4))
    }

    open spec fn read_from(&self, j: JsonView) -> bool {
        &&& is_required(self.title, slot(j, "title"@, 0))
        &&& is_required(self.text, slot(j, "text"@, 1))
        &&& is_optional(self.icon, slot(j, "icon"@, 2))
        &&& is_optional(self.duration, slot(j, "duration"@, 3))
        &&& is_required(self.payload, slot(j, "payload"@, 4))
    }

    fn decode(j: &Json) -> (r: Option<DesktopNotification>) {
        if !is_shaped(j, 5) {
            return None;
        }
        let title: String = match required(j, "title", 0) {
            Some(v) => v,
            None => {
                return None;
            },
        };
        let text: String = match required(j, "text", 1) {
            Some(v) => v,
            None => {
                return None;
            },
        };
        let icon: Option<String> = match optional(j, "icon", 2) {
            Some(v) => v,
            None => {
                return None;
            },
        };
        let duration: Option<i64> = match optional(j, "duration", 3) {
            Some(v) => v,
            None => {
                return None;
            },
        };
        let payload: NotificationPayload = match required(j, "payload", 4) {
            Some(v) => v,
            None => {
                return None;
            },
        };
        Some(
            DesktopNotification {
                title,
                text,
                icon,
                duration,
                payload,
            },
        )
    }
}

impl Encode for DesktopNotification {
    open spec fn doc(&self) -> JsonView {
        let m = Map::empty();
        let m = with(m, "title"@, self.title.doc());
        let m = with(m, "text"@, self.text.doc());
        let m = with_some(m, "icon"@, self.icon);
        let m = with_some(m, "duration"@, self.duration);
        let m = with(m, "payload"@, self.payload.doc());
        JsonView::Object(m)
    }

    fn encode(&self) -> (r: Json) {
        let mut map = JsonMap::new();
        put(&mut map, "title", &self.title);
        put(&mut map, "text", &self.text);
        put_some(&mut map, "icon", &self.icon);
        put_some(&mut map, "duration", &self.duration);
        put(&mut map, "payload", &self.payload);
        Json::Object(map)
    }
}

/// The `payload` of a `DesktopNotification`.
#[derive(Clone, Debug, PartialEq)]
pub struct NotificationPayload {
    /// Id of the message that triggered the notification.
    pub id: MessageId,
    /// Room the message was posted in.
    pub rid: RoomId,
    /// Thread the message belongs to, if any.
    pub tmid: Option<MessageId>,
    /// Author stub.
    pub sender: Option<UserRef>,
    /// Kind of the room.
    pub room_type: Option<RoomType>,
    /// Display name of the room as the recipient sees it.
    pub name: Option<String>,
    /// A cut-down copy of the message.
    pub message: Option<NotificationMessage>,
    /// Sound the client should play.
    pub audio_notification_value: Option<String>,
}

impl Decode for NotificationPayload {
    open spec fn accepts(j: JsonView) -> bool {
        &&& shaped(j, 8)
        &&& has_required::<MessageId>(slot(j, "_id"@, 0))
        &&& has_required::<RoomId>(slot(j, "rid"@, 1))
        &&& has_optional::<MessageId>(slot(j, "tmid"@, 2))
        &&& has_optional::<UserRef>(slot(j, "sender"@, 3))
        &&& has_optional::<RoomType>(slot(j, "type"@, 4))
        &&& has_optional::<String>(slot(j, "name"@, 5))
        &&& has_optional::<NotificationMessage>(slot(j, "message"@, 6))
        &&& has_optional::<String>(slot(j, "audioNotificationValue"@, 7))
    }

    open spec fn read_from(&self, j: JsonView) -> bool {
        &&& is_required(self.id, slot(j, "_id"@, 0))
        &&& is_required(self.rid, slot(j, "rid"@, 1))
        &&& is_optional(self.tmid, slot(j, "tmid"@, 2))
        &&& is_optional(self.sender, slot(j, "sender"@, 3))
        &&& is_optional(self.room_type, slot(j, "type"@, 4))
        &&& is_optional(self.name, slot(j, "name"@, 5))
        &&& is_optional(self.message, slot(j, "message"@, 6))
        &&& is_optional(self.audio_notification_value, slot(j, "audioNotificationValue"@, 7))
    }

    fn decode(j: &Json) -> (r: Option<NotificationPayload>) {
        if !is_shaped(j, 8) {
            return None;
        }
        let id: MessageId = match required(j, "_id", 0) {
            Some(v) => v,
            None => {
                return None;
            },
        };
        let rid: RoomId = match required(j, "rid", 1) {
            Some(v) => v,
            None => {
                return None;
            },
        };
        let tmid: Option<MessageId> = match optional(j, "tmid", 2) {
            Some(v) => v,
            None => {
                return None;
            },
        };
        let sender: Option<UserRef> = match optional(j, "sender", 3) {
            Some(v) => v,
            None => {
                return None;
            },
        };
        let room_type: Option<RoomType> = match optional(j, "type", 4) {
            Some(v) => v,
            None => {
                return None;
            },
        };
        let name: Option<String> = match optional(j, "name", 5) {
            Some(v) => v,
            None => {
                return None;
            },
        };
        let message: Option<NotificationMessage> = match optional(j, "message", 6) {
            Some(v) => v,
            None => {
                return None;
            },
        };
        let audio_notification_value: Option<String> = match optional(j, "audioNotificationValue", 7) {
            Some(v) => v,
            None => {
                return None;
            },
        };
        Some(
            NotificationPayload {
                id,
                rid,
                tmid,
                sender,
                room_type,
                name,
                message,
                audio_notification_value,
            },
        )
    }
}

impl Encode for NotificationPayload {
    open spec fn doc(&self) -> JsonView {
        let m = Map::empty();
        let m = with(m, "_id"@, self.id.doc());
        let m = with(m, "rid"@, self.rid.doc());
        let m = with_some(m, "tmid"@, self.tmid);
        let m = with_some(m, "sender"@, self.sender);
        let m = with_some(m, "type"@, self.room_type);
        let m = with_some(m, "name"@, self.name);
        let m = with_some(m, "message"@, self.message);
        let m = with_some(m, "audioNotificationValue"@, self.audio_notification_value);
        JsonView::Object(m)
    }

    fn encode(&self) -> (r: Json) {
        let mut map = JsonMap::new();
        put(&mut map, "_id", &self.id);
        put(&mut map, "rid", &self.rid);
        put_some(&mut map, "tmid", &self.tmid);
        put_some(&mut map, "sender", &self.sender);
        put_some(&mut map, "type", &self.room_type);
        put_some(&mut map, "name", &self.name);
        put_some(&mut map, "message", &self.message);
        put_some(&mut map, "audioNotificationValue", &self.audio_notification_value);
        Json::Object(map)
    }
}

/// The message excerpt embedded in a `NotificationPayload`.
#[derive(Clone, Debug, PartialEq)]
pub struct NotificationMessage {
    /// Message body.
    pub msg: String,
    /// System-message discriminator, when the notification is about one.
    pub t: Option<MessageType>,
    /// End-to-end ciphertext, when the room is encrypted.
    pub content: Option<Json>,
}

impl Default for NotificationMessage {
    fn default() -> (r: NotificationMessage)
        ensures
            r.msg@ == ""@,
            r.t is None,
            r.content is None,
    {
        NotificationMessage { msg: "".to_owned(), t: None, content: None }
    }
}

impl Decode for NotificationMessage {
    open spec fn accepts(j: JsonView) -> bool {
        &&& shaped(j, 3)
        &&& has_default::<String>(slot(j, "msg"@, 0))
        &&& has_optional::<MessageType>(slot(j, "t"@, 1))
        &&& has_optional::<Json>(slot(j, "content"@, 2))
    }

    open spec fn read_from(&self, j: JsonView) -> bool {
        &&& if slot(j, "msg"@, 0) is None {
            self.msg@.len() == 0
        } else {
            self.msg.read_from(slot(j, "msg"@, 0)->0)
        }
        &&& is_optional(self.t, slot(j, "t"@, 1))
        &&& is_optional(self.content, slot(j, "content"@, 2))
    }

    fn decode(j: &Json) -> (r: Option<NotificationMessage>) {
        if !is_shaped(j, 3) {
            return None;
        }
        let msg: String = match defaulted(j, "msg", 0) {
            Some(Some(v)) => v,
            Some(None) => String::new(),
            None => {
                return None;
            },
        };
        let t: Option<MessageType> = match optional(j, "t", 1) {
            Some(v) => v,
            None => {
                return None;
            },
        };
        let content: Option<Json> = match optional(j, "content", 2) {
            Some(v) => v,
            None => {
                return None;
            },
        };
        Some(
            NotificationMessage {
                msg,
                t,
                content,
            },
        )
    }
}

impl Encode for NotificationMessage {
    open spec fn doc(&self) -> JsonView {
        let m = Map::empty();
        let m = with(m, "msg"@, self.msg.doc());
        let m = with_some(m, "t"@, self.t);
        let m = with_some(m, "content"@, self.content);
        JsonView::Object(m)
    }

    fn encode(&self) -> (r: Json) {
        let mut map = JsonMap::new();
        put(&mut map, "msg", &self.msg);
        put_some(&mut map, "t", &self.t);
        put_some(&mut map, "content", &self.content);
        Json::Object(map)
    }
}

/// The payload of `notify-user` / `<uid>/userData`.
#[derive(Clone, Debug, PartialEq)]
pub struct UserDataEvent {
    /// The user the change applies to.
    pub id: Option<UserId>,
    /// What happened.
    pub action: ClientAction,
    /// The full document, on `inserted`.
    pub data: Option<Box<User>>,
    /// The changed fields, on `updated`.
    pub diff: Option<JsonMap>,
    /// The fields cleared by this update, as `{field: 1}`.
    pub unset: Option<JsonMap>,
}

impl Decode for UserDataEvent {
    open spec fn accepts(j: JsonView) -> bool {
        &&& shaped(j, 5)
        &&& has_optional::<UserId>(slot(j, "id"@, 0))
        &&& has_required::<ClientAction>(slot(j, "type"@, 1))
        &&& has_optional::<Box<User>>(slot(j, "data"@, 2))
        &&& has_optional::<JsonMap>(slot(j, "diff"@, 3))
        &&& has_optional::<JsonMap>(slot(j, "unset"@, 4))
    }

    open spec fn read_from(&self, j: JsonView) -> bool {
        &&& is_optional(self.id, slot(j, "id"@, 0))
        &&& is_required(self.action, slot(j, "type"@, 1))
        &&& is_optional(self.data, slot(j, "data"@, 2))
        &&& is_optional(self.diff, slot(j, "diff"@, 3))
        &&& is_optional(self.unset, slot(j, "unset"@, 4))
    }

    fn decode(j: &Json) -> (r: Option<UserDataEvent>) {
        if !is_shaped(j, 5) {
            return None;
        }
        let id: Option<UserId> = match optional(j, "id", 0) {
            Some(v) => v,
            None => {
                return None;
            },
        };
        let action: ClientAction = match required(j, "type", 1) {
            Some(v) => v,
            None => {
                return None;
            },
        };
        let data: Option<Box<User>> = match optional(j, "data", 2) {
            Some(v) => v,
            None => {
                return None;
            },
        };
        let diff: Option<JsonMap> = match optional(j, "diff", 3) {
            Some(v) => v,
            None => {
                return None;
            },
        };
        let unset: Option<JsonMap> = match optional(j, "unset", 4) {
            Some(v) => v,
            None => {
                return None;
            },
        };
        Some(
            UserDataEvent {
                id,
                action,
                data,
                diff,
                unset,
            },
        )
    }
}

impl Encode for UserDataEvent {
    open spec fn doc(&self) -> JsonView {
        let m = Map::empty();
        let m = with_some(m, "id"@, self.id);
        let m = with(m, "type"@, self.action.doc());
        let m = with_some(m, "data"@, self.data);
        let m = with_some(m, "diff"@, self.diff);
        let m = with_some(m, "unset"@, self.unset);
        JsonView::Object(m)
    }

    fn encode(&self) -> (r: Json) {
        let mut map = JsonMap::new();
        put_some(&mut map, "id", &self.id);
        put(&mut map, "type", &self.action);
        put_some(&mut map, "data", &self.data);
        put_some(&mut map, "diff", &self.diff);
        put_some(&mut map, "unset", &self.unset);
        Json::Object(map)
    }
}

/// The reduced subscription document `streams.ts` declares for a removal.
#[derive(Clone, Debug, PartialEq)]
pub struct SubscriptionStub {
    /// Subscription id.
    pub id: SubscriptionId,
    /// The room, when present.
    pub rid: Option<RoomId>,
    /// The subscribing user, when present.
    pub u: Option<UserRef>,
    /// Kind of the room, when present.
    pub t: Option<RoomType>,
}

impl Decode for SubscriptionStub {
    open spec fn accepts(j: JsonView) -> bool {
        &&& shaped(j, 4)
        &&& has_required::<SubscriptionId>(slot(j, "_id"@, 0))
        &&& has_optional::<RoomId>(slot(j, "rid"@, 1))
        &&& has_optional::<UserRef>(slot(j, "u"@, 2))
        &&& has_optional::<RoomType>(slot(j, "t"@, 3))
    }

    open spec fn read_from(&self, j: JsonView) -> bool {
        &&& is_required(self.id, slot(j, "_id"@, 0))
        &&& is_optional(self.rid, slot(j, "rid"@, 1))
        &&& is_optional(self.u, slot(j, "u"@, 2))
        &&& is_optional(self.t, slot(j, "t"@, 3))
    }

    fn decode(j: &Json) -> (r: Option<SubscriptionStub>) {
        if !is_shaped(j, 4) {
            return None;
        }
        let id: SubscriptionId = match required(j, "_id", 0) {
            Some(v) => v,
            None => {
                return None;
            },
        };
        let rid: Option<RoomId> = match optional(j, "rid", 1) {
            Some(v) => v,
            None => {
                return None;
            },
        };
        let u: Option<UserRef> = match optional(j, "u", 2) {
            Some(v) => v,
            None => {
                return None;
            },
        };
        let t: Option<RoomType> = match optional(j, "t", 3) {
            Some(v) => v,
            None => {
                return None;
            },
        };
        Some(
            SubscriptionStub {
                id,
                rid,
                u,
                t,
            },
        )
    }
}

impl Encode for SubscriptionStub {
    open spec fn doc(&self) -> JsonView {
        let m = Map::empty();
        let m = with(m, "_id"@, self.id.doc());
        let m = with_some(m, "rid"@, self.rid);
        let m = with_some(m, "u"@, self.u);
        let m = with_some(m, "t"@, self.t);
        JsonView::Object(m)
    }

    fn encode(&self) -> (r: Json) {
        let mut map = JsonMap::new();
        put(&mut map, "_id", &self.id);
        put_some(&mut map, "rid", &self.rid);
        put_some(&mut map, "u", &self.u);
        put_some(&mut map, "t", &self.t);
        Json::Object(map)
    }
}

/// The payload of `notify-logged` / `roles-change`.
#[derive(Clone, Debug, PartialEq)]
pub struct RoleChange {
    /// Whether the role was granted, revoked, or itself edited.
    pub action: RoleChangeKind,
    /// The role.
    pub id: RoleId,
    /// The user the role was granted to or revoked from.
    pub u: Option<UserRef>,
    /// Room id, for a room-scoped role such as `owner` or `moderator`.
    pub scope: Option<String>,
}

impl Decode for RoleChange {
    open spec fn accepts(j: JsonView) -> bool {
        &&& shaped(j, 4)
        &&& has_required::<RoleChangeKind>(slot(j, "type"@, 0))
        &&& has_required::<RoleId>(slot(j, "_id"@, 1))
        &&& has_optional::<UserRef>(slot(j, "u"@, 2))
        &&& has_optional::<String>(slot(j, "scope"@, 3))
    }

    open spec fn read_from(&self, j: JsonView) -> bool {
        &&& is_required(self.action, slot(j, "type"@, 0))
        &&& is_required(self.id, slot(j, "_id"@, 1))
        &&& is_optional(self.u, slot(j, "u"@, 2))
        &&& is_optional(self.scope, slot(j, "scope"@, 3))
    }

    fn decode(j: &Json) -> (r: Option<RoleChange>) {
        if !is_shaped(j, 4) {
            return None;
        }
        let action: RoleChangeKind = match required(j, "type", 0) {
            Some(v) => v,
            None => {
                return None;
            },
        };
        let id: RoleId = match required(j, "_id", 1) {
            Some(v) => v,
            None => {
                return None;
            },
        };
        let u: Option<UserRef> = match optional(j, "u", 2) {
            Some(v) => v,
            None => {
                return None;
            },
        };
        let scope: Option<String> = match optional(j, "scope", 3) {
            Some(v) => v,
            None => {
                return None;
            },
        };
        Some(
            RoleChange {
                action,
                id,
                u,
                scope,
            },
        )
    }
}

impl Encode for RoleChange {
    open spec fn doc(&self) -> JsonView {
        let m = Map::empty();
        let m = with(m, "type"@, self.action.doc());
        let m = with(m, "_id"@, self.id.doc());
        let m = with_some(m, "u"@, self.u);
        let m = with_some(m, "scope"@, self.scope);
        JsonView::Object(m)
    }

    fn encode(&self) -> (r: Json) {
        let mut map = JsonMap::new();
        put(&mut map, "type", &self.action);
        put(&mut map, "_id", &self.id);
        put_some(&mut map, "u", &self.u);
        put_some(&mut map, "scope", &self.scope);
        Json::Object(map)
    }
}

/// The document of a subscription change: whole, or only what a removal leaves.
#[derive(Clone, Debug, PartialEq)]
pub enum SubscriptionChange {
    /// The whole document.
    Full(Box<Subscription>),
    /// The reduced document of a removal.
    Stub(SubscriptionStub),
}

impl SubscriptionChange {
    /// The id of the document.
    pub fn id(&self) -> (r: &SubscriptionId)
        ensures
            *r == (match *self {
                SubscriptionChange::Full(subscription) => subscription.id,
                SubscriptionChange::Stub(stub) => stub.id,
            }),
    {
        match self {
            SubscriptionChange::Full(subscription) => &subscription.id,
            SubscriptionChange::Stub(stub) => &stub.id,
        }
    }

    /// The room, where the document names it.
    pub fn room(&self) -> (r: Option<&RoomId>)
        ensures
            match *self {
                SubscriptionChange::Full(subscription) => r == Some(&subscription.rid),
                SubscriptionChange::Stub(stub) => match stub.rid {
                    Some(rid) => r == Some(&rid),
                    None => r is None,
                },
            },
    {
        match self {
            SubscriptionChange::Full(subscription) => Some(&subscription.rid),
            SubscriptionChange::Stub(stub) => stub.rid.as_ref(),
        }
    }

    /// The whole document, where there is one.
    pub fn full(&self) -> (r: Option<&Subscription>)
        ensures
            match *self {
                SubscriptionChange::Full(subscription) => r == Some(&*subscription),
                SubscriptionChange::Stub(_) => r is None,
            },
    {
        match self {
            SubscriptionChange::Full(subscription) => Some(&**subscription),
            SubscriptionChange::Stub(_) => None,
        }
    }
}

impl Decode for SubscriptionChange {
    open spec fn accepts(j: JsonView) -> bool {
        Subscription::accepts(j) || SubscriptionStub::accepts(j)
    }

    open spec fn read_from(&self, j: JsonView) -> bool {
        match *self {
            SubscriptionChange::Full(subscription) => Subscription::accepts(j)
                && subscription.read_from(j),
            SubscriptionChange::Stub(stub) => !Subscription::accepts(j) && stub.read_from(j),
        }
    }

    fn decode(j: &Json) -> (r: Option<SubscriptionChange>) {
        match Subscription::decode(j) {
            Some(subscription) => Some(SubscriptionChange::Full(Box::new(subscription))),
            None => match SubscriptionStub::decode(j) {
                Some(stub) => Some(SubscriptionChange::Stub(stub)),
                None => None,
            },
        }
    }
}

impl Encode for SubscriptionChange {
    open spec fn doc(&self) -> JsonView {
        match *self {
            SubscriptionChange::Full(subscription) => subscription.doc(),
            SubscriptionChange::Stub(stub) => stub.doc(),
        }
    }

    fn encode(&self) -> (r: Json) {
        match self {
            SubscriptionChange::Full(subscription) => subscription.encode(),
            SubscriptionChange::Stub(stub) => stub.encode(),
        }
    }
}

/// A change of a user's presence.
#[derive(Clone, Debug, PartialEq)]
pub struct UserStatusChange {
    /// The user.
    pub user: UserId,
    /// The username.
    pub username: Option<String>,
    /// The presence.
    pub status: PresenceStatus,
    /// The status message.
    pub status_text: Option<String>,
    /// The display name.
    pub name: Option<String>,
    /// The roles that were listed. Empty where the slot is absent, `null`, or not a list.
    pub roles: Vec<RoleId>,
    /// Where the status came from.
    pub status_source: Option<PresenceSource>,
    /// When the status ends by itself.
    pub status_expires_at: Option<Timestamp>,
}

/// A change of a subscription is read as a whole document where it is one, and as a stub only
/// where it is not.
pub proof fn law_a_whole_subscription_is_preferred(change: SubscriptionChange, j: JsonView)
    requires
        change.read_from(j),
    ensures
        Subscription::accepts(j) <==> change is Full,
        change matches SubscriptionChange::Full(subscription) ==> subscription.read_from(j),
        change matches SubscriptionChange::Stub(stub) ==> stub.read_from(j),
        SubscriptionChange::accepts(j) <==> Subscription::accepts(j) || SubscriptionStub::accepts(
            j,
        ),
{
}

} // verus!
