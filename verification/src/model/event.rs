//! Typed stream events.
//!
//! An event arrives as a stream, an event name and positional arguments. Decoding never fails:
//! what this library does not type, or cannot read, is handed on whole as
//! [`StreamEvent::Unknown`].
use crate::model::datetime::Timestamp;
use crate::model::entity::{Message, PresenceSource, PresenceStatus, Room};
use crate::model::id::{MessageId, RoleId, RoomId, UserId};
use crate::model::json::{array_view, dup_slice, json_view, lemma_array_view, Json, JsonView};
use crate::model::protocol;
use crate::model::wire::{has_optional, is_optional, is_shaped, optional, required, Decode};
use crate::model::wire::{has_required, is_required, shaped, slot};
use crate::text::{after_prefix, halves, split_once, str_eq, strip_prefix};
use vstd::prelude::*;
use vstd::string::*;

pub use crate::model::payload::{
    Activity, BulkDelete, ClientAction, DesktopNotification, MyMessageMeta, NotificationMessage,
    NotificationPayload, RoleChange, RoleChangeKind, SubscriptionChange, SubscriptionStub,
    UserDataEvent, UserStatusChange,
};

verus! {

/// A stream event.
#[derive(Clone, Debug, PartialEq)]
pub enum StreamEvent {
    /// A message was sent or changed in a room that is subscribed to.
    RoomMessage { room: RoomId, message: Box<Message> },
    /// A message was sent or changed in any room the user is in.
    MyMessage { message: Box<Message>, meta: MyMessageMeta },
    /// What a user is doing in a room; an empty list means that they stopped.
    UserActivity { room: RoomId, user: String, activities: Vec<Activity> },
    /// The older typing notice.
    Typing { room: RoomId, user: String, typing: bool },
    /// A message was deleted.
    MessageDeleted { room: RoomId, message: MessageId },
    /// Many messages were deleted at once.
    MessagesDeletedBulk { room: RoomId, bulk: Box<BulkDelete> },
    /// A message that only this user sees.
    EphemeralMessage { user: UserId, message: Box<Message> },
    /// A desktop notification.
    Notification { user: UserId, notification: Box<DesktopNotification> },
    /// One of the user's rooms changed.
    RoomsChanged { user: UserId, action: ClientAction, room: Box<Room> },
    /// One of the user's subscriptions changed.
    SubscriptionsChanged {
        user: UserId,
        action: ClientAction,
        subscription: Box<SubscriptionChange>,
    },
    /// The user's own document changed.
    UserData { user: UserId, event: Box<UserDataEvent> },
    /// The server ended a session of the user.
    ForceLogout { user: UserId, session: Option<String> },
    /// A user's presence changed.
    UserStatusChanged(Box<UserStatusChange>),
    /// A user was renamed.
    UserNameChanged { user: UserId, username: Option<String>, name: Option<String> },
    /// A role was granted, revoked or changed.
    RolesChanged(Box<RoleChange>),
    /// Anything else, whole.
    Unknown { stream: String, event: String, args: Vec<Json> },
}

/// Which event a stream and an event name denote, with the id that the name carries.
pub enum Kind {
    RoomMessage(Seq<char>),
    MyMessage,
    UserActivity(Seq<char>),
    Typing(Seq<char>),
    MessageDeleted(Seq<char>),
    MessagesDeletedBulk(Seq<char>),
    EphemeralMessage(Seq<char>),
    Notification(Seq<char>),
    RoomsChanged(Seq<char>),
    SubscriptionsChanged(Seq<char>),
    UserData(Seq<char>),
    ForceLogout(Seq<char>),
    UserStatusChanged,
    UserNameChanged,
    RolesChanged,
    Other,
}

/// A stream's name without the collection prefix.
pub open spec fn bare(stream: Seq<char>) -> Seq<char> {
    match after_prefix(stream, "stream-"@) {
        Some(rest) => rest,
        None => stream,
    }
}

/// The id and the rest of a composite event name: what stands before and after the first
/// slash, where something stands before it.
pub open spec fn key_parts(event: Seq<char>) -> Option<(Seq<char>, Seq<char>)> {
    match halves(event, '/') {
        Some((id, key)) => if id.len() == 0 {
            None
        } else {
            Some((id, key))
        },
        None => None,
    }
}

/// Which event a name on the room stream denotes.
pub open spec fn room_kind(event: Seq<char>) -> Kind {
    match key_parts(event) {
        Some((id, key)) => if key == "user-activity"@ {
            Kind::UserActivity(id)
        } else if key == "typing"@ {
            Kind::Typing(id)
        } else if key == "deleteMessage"@ {
            Kind::MessageDeleted(id)
        } else if key == "deleteMessageBulk"@ {
            Kind::MessagesDeletedBulk(id)
        } else {
            Kind::Other
        },
        None => Kind::Other,
    }
}

/// Which event a name on the user stream denotes.
pub open spec fn user_kind(event: Seq<char>) -> Kind {
    match key_parts(event) {
        Some((id, key)) => if key == "message"@ {
            Kind::EphemeralMessage(id)
        } else if key == "notification"@ {
            Kind::Notification(id)
        } else if key == "rooms-changed"@ {
            Kind::RoomsChanged(id)
        } else if key == "subscriptions-changed"@ {
            Kind::SubscriptionsChanged(id)
        } else if key == "userData"@ {
            Kind::UserData(id)
        } else if key == "force_logout"@ {
            Kind::ForceLogout(id)
        } else {
            Kind::Other
        },
        None => Kind::Other,
    }
}

/// Which event a name on the stream for every logged-in user denotes.
pub open spec fn logged_kind(event: Seq<char>) -> Kind {
    if event == "user-status"@ {
        Kind::UserStatusChanged
    } else if event == "Users:NameChanged"@ {
        Kind::UserNameChanged
    } else if event == "roles-change"@ {
        Kind::RolesChanged
    } else {
        Kind::Other
    }
}

/// Which event a name on the message stream denotes.
pub open spec fn message_kind(event: Seq<char>) -> Kind {
    if event == "__my_messages__"@ {
        Kind::MyMessage
    } else if event.len() == 0 {
        Kind::Other
    } else {
        Kind::RoomMessage(event)
    }
}

/// Which event a stream and an event name denote.
pub open spec fn kind_of(stream: Seq<char>, event: Seq<char>) -> Kind {
    let stream = bare(stream);
    if stream == "room-messages"@ {
        message_kind(event)
    } else if stream == "notify-room"@ {
        room_kind(event)
    } else if stream == "notify-user"@ {
        user_kind(event)
    } else if stream == "notify-logged"@ {
        logged_kind(event)
    } else {
        Kind::Other
    }
}

/// The argument at a position.
pub open spec fn at(args: Seq<JsonView>, index: int) -> Option<JsonView> {
    if 0 <= index < args.len() {
        Some(args[index])
    } else {
        None
    }
}

/// Whether an argument that must be there can be read.
pub open spec fn has_arg<T: Decode>(args: Seq<JsonView>, index: int) -> bool {
    at(args, index) matches Some(v) && v !is Null && T::accepts(v)
}

/// Whether this is what an argument that must be there reads as.
pub open spec fn is_arg<T: Decode>(t: T, args: Seq<JsonView>, index: int) -> bool {
    at(args, index) matches Some(v) && t.read_from(v)
}

/// The strings of a list; other elements are passed over.
pub open spec fn strings_of(items: Seq<JsonView>) -> Seq<Seq<char>>
    decreases items.len(),
{
    if items.len() == 0 {
        seq![]
    } else {
        match items.last() {
            JsonView::String(s) => strings_of(items.drop_last()).push(s),
            _ => strings_of(items.drop_last()),
        }
    }
}

/// The strings of an argument: none where it is absent or `null`.
pub open spec fn strings_arg(args: Seq<JsonView>, index: int) -> Option<Seq<Seq<char>>> {
    match at(args, index) {
        None => Some(seq![]),
        Some(JsonView::Null) => Some(seq![]),
        Some(JsonView::Array(items)) => Some(strings_of(items)),
        Some(_) => None,
    }
}

/// The strings of an argument that may be anything: none where it is not a list.
pub open spec fn strings_or_none(args: Seq<JsonView>, index: int) -> Seq<Seq<char>> {
    match strings_arg(args, index) {
        Some(texts) => texts,
        None => seq![],
    }
}

/// Whether a list holds these strings, in order.
pub open spec fn spells(list: Seq<String>, texts: Seq<Seq<char>>) -> bool {
    list.len() == texts.len() && forall|i: int|
        0 <= i < list.len() ==> (#[trigger] list[i])@ == texts[i]
}

/// Whether a list of activities is these strings, in order.
pub open spec fn are_activities(list: Seq<Activity>, texts: Seq<Seq<char>>) -> bool {
    list.len() == texts.len() && forall|i: int|
        0 <= i < list.len() ==> (#[trigger] list[i]).wire() == texts[i] && (list[i] is Unknown
            <==> !Activity::known(texts[i]))
}

/// Whether a list of roles is these strings, in order.
pub open spec fn are_roles(list: Seq<RoleId>, texts: Seq<Seq<char>>) -> bool {
    list.len() == texts.len() && forall|i: int|
        0 <= i < list.len() ==> (#[trigger] list[i])@ == texts[i]
}

/// The tuple of a presence event: its only argument is a list.
pub open spec fn status_tuple(args: Seq<JsonView>) -> Option<Seq<JsonView>> {
    match at(args, 0) {
        Some(JsonView::Array(items)) => Some(items),
        _ => None,
    }
}

/// Whether a presence tuple can be read. Trailing positions may be missing, and the roles may be
/// anything.
pub open spec fn status_fits(tuple: Seq<JsonView>) -> bool {
    &&& at(tuple, 0) matches Some(JsonView::String(user)) && user.len() > 0
    &&& has_optional::<String>(at(tuple, 1))
    &&& has_arg::<PresenceStatus>(tuple, 2)
    &&& has_optional::<String>(at(tuple, 3))
    &&& has_optional::<String>(at(tuple, 4))
    &&& has_optional::<PresenceSource>(at(tuple, 6))
    &&& has_optional::<Timestamp>(at(tuple, 7))
}

/// Whether this is what a presence tuple reads as.
pub open spec fn is_status(change: UserStatusChange, tuple: Seq<JsonView>) -> bool {
    &&& at(tuple, 0) == Some(JsonView::String(change.user@))
    &&& is_optional(change.username, at(tuple, 1))
    &&& is_arg(change.status, tuple, 2)
    &&& is_optional(change.status_text, at(tuple, 3))
    &&& is_optional(change.name, at(tuple, 4))
    &&& are_roles(change.roles@, strings_or_none(tuple, 5))
    &&& is_optional(change.status_source, at(tuple, 6))
    &&& is_optional(change.status_expires_at, at(tuple, 7))
}

/// Whether the annotation of a message of one's own is what an argument reads as. One that
/// cannot be read counts as empty, so that it never costs the message.
pub open spec fn is_meta(meta: MyMessageMeta, args: Seq<JsonView>) -> bool {
    if has_arg::<MyMessageMeta>(args, 1) {
        is_arg(meta, args, 1)
    } else {
        meta.room_participant is None && meta.room_type is None && meta.room_name is None
    }
}

/// The document that names a deleted message.
pub struct DeletedMessage {
    /// The message.
    pub id: MessageId,
}

impl Decode for DeletedMessage {
    open spec fn accepts(j: JsonView) -> bool {
        shaped(j, 1) && has_required::<MessageId>(slot(j, "_id"@, 0))
    }

    open spec fn read_from(&self, j: JsonView) -> bool {
        is_required(self.id, slot(j, "_id"@, 0))
    }

    fn decode(j: &Json) -> (r: Option<DeletedMessage>) {
        if !is_shaped(j, 1) {
            return None;
        }
        match required(j, "_id", 0) {
            Some(id) => Some(DeletedMessage { id }),
            None => None,
        }
    }
}

/// The document of a renamed user.
pub struct NameChanged {
    /// The user.
    pub id: UserId,
    /// The new username.
    pub username: Option<String>,
    /// The new display name.
    pub name: Option<String>,
}

impl Decode for NameChanged {
    open spec fn accepts(j: JsonView) -> bool {
        &&& shaped(j, 3)
        &&& has_required::<UserId>(slot(j, "_id"@, 0))
        &&& has_optional::<String>(slot(j, "username"@, 1))
        &&& has_optional::<String>(slot(j, "name"@, 2))
    }

    open spec fn read_from(&self, j: JsonView) -> bool {
        &&& is_required(self.id, slot(j, "_id"@, 0))
        &&& is_optional(self.username, slot(j, "username"@, 1))
        &&& is_optional(self.name, slot(j, "name"@, 2))
    }

    fn decode(j: &Json) -> (r: Option<NameChanged>) {
        if !is_shaped(j, 3) {
            return None;
        }
        match (required(j, "_id", 0), optional(j, "username", 1), optional(j, "name", 2)) {
            (Some(id), Some(username), Some(name)) => Some(NameChanged { id, username, name }),
            _ => None,
        }
    }
}

/// Whether the arguments of an event can be read. Arguments beyond those that are read are
/// ignored.
pub open spec fn fits(kind: Kind, args: Seq<JsonView>) -> bool {
    match kind {
        Kind::RoomMessage(_) => has_arg::<Message>(args, 0),
        Kind::MyMessage => has_arg::<Message>(args, 0),
        Kind::UserActivity(_) => at(args, 0) matches Some(JsonView::String(_)) && strings_arg(
            args,
            1,
        ) is Some,
        Kind::Typing(_) => at(args, 0) matches Some(JsonView::String(_)) && at(
            args,
            1,
        ) matches Some(JsonView::Bool(_)),
        Kind::MessageDeleted(_) => has_arg::<DeletedMessage>(args, 0),
        Kind::MessagesDeletedBulk(_) => has_arg::<BulkDelete>(args, 0),
        Kind::EphemeralMessage(_) => has_arg::<Message>(args, 0),
        Kind::Notification(_) => has_arg::<DesktopNotification>(args, 0),
        Kind::RoomsChanged(_) => has_arg::<ClientAction>(args, 0) && has_arg::<Room>(args, 1),
        Kind::SubscriptionsChanged(_) => has_arg::<ClientAction>(args, 0) && has_arg::<
            SubscriptionChange,
        >(args, 1),
        Kind::UserData(_) => has_arg::<UserDataEvent>(args, 0),
        Kind::ForceLogout(_) => has_optional::<String>(at(args, 0)),
        Kind::UserStatusChanged => status_tuple(args) matches Some(tuple) && status_fits(tuple),
        Kind::UserNameChanged => has_arg::<NameChanged>(args, 0),
        Kind::RolesChanged => has_arg::<RoleChange>(args, 0),
        Kind::Other => false,
    }
}

/// Whether this is what a stream, an event name and arguments that can be read decode to.
pub open spec fn is_event(e: StreamEvent, kind: Kind, args: Seq<JsonView>) -> bool {
    match kind {
        Kind::RoomMessage(id) => e matches StreamEvent::RoomMessage { room, message } && room@ == id
            && is_arg(*message, args, 0),
        Kind::MyMessage => e matches StreamEvent::MyMessage { message, meta } && is_arg(
            *message,
            args,
            0,
        ) && is_meta(meta, args),
        Kind::UserActivity(id) => e matches StreamEvent::UserActivity { room, user, activities }
            && room@ == id && at(args, 0) == Some(JsonView::String(user@)) && are_activities(
            activities@,
            strings_arg(args, 1)->0,
        ),
        Kind::Typing(id) => e matches StreamEvent::Typing { room, user, typing } && room@ == id
            && at(args, 0) == Some(JsonView::String(user@)) && at(args, 1) == Some(
            JsonView::Bool(typing),
        ),
        Kind::MessageDeleted(id) => e matches StreamEvent::MessageDeleted { room, message } && room@
            == id && is_arg((DeletedMessage { id: message }), args, 0),
        Kind::MessagesDeletedBulk(id) => e matches StreamEvent::MessagesDeletedBulk { room, bulk }
            && room@ == id && is_arg(*bulk, args, 0),
        Kind::EphemeralMessage(id) => e matches StreamEvent::EphemeralMessage { user, message }
            && user@ == id && is_arg(*message, args, 0),
        Kind::Notification(id) => e matches StreamEvent::Notification { user, notification }
            && user@ == id && is_arg(*notification, args, 0),
        Kind::RoomsChanged(id) => e matches StreamEvent::RoomsChanged { user, action, room }
            && user@ == id && is_arg(action, args, 0) && is_arg(*room, args, 1),
        Kind::SubscriptionsChanged(id) => e matches StreamEvent::SubscriptionsChanged {
            user,
            action,
            subscription,
        } && user@ == id && is_arg(action, args, 0) && is_arg(*subscription, args, 1),
        Kind::UserData(id) => e matches StreamEvent::UserData { user, event } && user@ == id
            && is_arg(*event, args, 0),
        Kind::ForceLogout(id) => e matches StreamEvent::ForceLogout { user, session } && user@ == id
            && is_optional(session, at(args, 0)),
        Kind::UserStatusChanged => e matches StreamEvent::UserStatusChanged(change) && is_status(
            *change,
            status_tuple(args)->0,
        ),
        Kind::UserNameChanged => e matches StreamEvent::UserNameChanged { user, username, name }
            && is_arg((NameChanged { id: user, username, name }), args, 0),
        Kind::RolesChanged => e matches StreamEvent::RolesChanged(change) && is_arg(
            *change,
            args,
            0,
        ),
        Kind::Other => false,
    }
}

/// Splits a composite event name at its first slash, where something stands before it.
fn split_key<'a>(event_name: &'a str) -> (r: Option<(&'a str, &'a str)>)
    ensures
        match r {
            Some((id, key)) => key_parts(event_name@) == Some((id@, key@)),
            None => key_parts(event_name@) is None,
        },
{
    match split_once(event_name, '/') {
        Some((id, key)) => if id.is_empty() {
            None
        } else {
            Some((id, key))
        },
        None => None,
    }
}

/// The argument at a position.
fn arg_at<'a>(args: &'a [Json], index: usize) -> (r: Option<&'a Json>)
    ensures
        r is Some <==> at(array_view(args@), index as int) is Some,
        r matches Some(j) ==> at(array_view(args@), index as int) == Some(j@),
{
    proof {
        lemma_array_view(args@);
    }
    if index < args.len() {
        Some(&args[index])
    } else {
        None
    }
}

/// Reads an argument that may be absent or `null`.
fn opt<T: Decode>(args: &[Json], index: usize) -> (r: Option<Option<T>>)
    ensures
        r is Some <==> has_optional::<T>(at(array_view(args@), index as int)),
        r matches Some(t) ==> is_optional(t, at(array_view(args@), index as int)),
{
    match arg_at(args, index) {
        Some(j) => {
            if j.is_null() {
                Some(None)
            } else {
                match T::decode(j) {
                    Some(t) => Some(Some(t)),
                    None => None,
                }
            }
        },
        None => Some(None),
    }
}

/// Reads an argument that must be there.
fn req<T: Decode>(args: &[Json], index: usize) -> (r: Option<T>)
    ensures
        r is Some <==> has_arg::<T>(array_view(args@), index as int),
        r matches Some(t) ==> is_arg(t, array_view(args@), index as int),
{
    match opt(args, index) {
        Some(t) => t,
        None => None,
    }
}

/// The string at a position.
fn str_at<'a>(args: &'a [Json], index: usize) -> (r: Option<&'a str>)
    ensures
        r is Some <==> at(array_view(args@), index as int) matches Some(JsonView::String(_)),
        r matches Some(s) ==> at(array_view(args@), index as int) == Some(JsonView::String(s@)),
{
    match arg_at(args, index) {
        Some(j) => j.as_str(),
        None => None,
    }
}

/// The strings at a position.
fn strings_at(args: &[Json], index: usize) -> (r: Option<Vec<String>>)
    ensures
        r is Some <==> strings_arg(array_view(args@), index as int) is Some,
        r matches Some(list) ==> spells(list@, strings_arg(array_view(args@), index as int)->0),
{
    match arg_at(args, index) {
        None => Some(Vec::new()),
        Some(Json::Null) => Some(Vec::new()),
        Some(Json::Array(items)) => {
            let ghost all = array_view(items@);
            proof {
                lemma_array_view(items@);
            }
            let mut out: Vec<String> = Vec::new();
            let mut i: usize = 0;
            while i < items.len()
                invariant
                    all == array_view(items@),
                    all.len() == items@.len(),
                    forall|k: int| 0 <= k < items@.len() ==> #[trigger] all[k] == json_view(items@[k]),
                    i <= items@.len(),
                    spells(out@, strings_of(all.subrange(0, i as int))),
                decreases items@.len() - i,
            {
                proof {
                    let part = all.subrange(0, i + 1);
                    assert(part.drop_last() =~= all.subrange(0, i as int));
                    assert(part.last() == all[i as int]);
                }
                match items[i].as_str() {
                    Some(s) => {
                        out.push(s.to_owned());
                    },
                    None => {},
                }
                i += 1;
            }
            proof {
                assert(all.subrange(0, all.len() as int) =~= all);
            }
            Some(out)
        },
        Some(_) => None,
    }
}

/// Reads each string as an activity.
fn activities_of(texts: &Vec<String>) -> (r: Vec<Activity>)
    ensures
        r@.len() == texts@.len(),
        forall|i: int|
            0 <= i < r@.len() ==> (#[trigger] r@[i]).wire() == texts@[i]@ && (r@[i] is Unknown
                <==> !Activity::known(texts@[i]@)),
{
    let mut out: Vec<Activity> = Vec::new();
    let mut i: usize = 0;
    while i < texts.len()
        invariant
            i <= texts@.len(),
            out@.len() == i,
            forall|k: int|
                0 <= k < i ==> (#[trigger] out@[k]).wire() == texts@[k]@ && (out@[k] is Unknown
                    <==> !Activity::known(texts@[k]@)),
        decreases texts@.len() - i,
    {
        out.push(Activity::parse(texts[i].as_str()));
        i += 1;
    }
    out
}

/// Reads each string as a role.
fn roles_of(texts: &Vec<String>) -> (r: Vec<RoleId>)
    ensures
        r@.len() == texts@.len(),
        forall|i: int| 0 <= i < r@.len() ==> (#[trigger] r@[i])@ == texts@[i]@,
{
    let mut out: Vec<RoleId> = Vec::new();
    let mut i: usize = 0;
    while i < texts.len()
        invariant
            i <= texts@.len(),
            out@.len() == i,
            forall|k: int| 0 <= k < i ==> (#[trigger] out@[k])@ == texts@[k]@,
        decreases texts@.len() - i,
    {
        out.push(RoleId::new(texts[i].as_str()));
        i += 1;
    }
    out
}

/// Whether this is what a stream, an event name and arguments decode to. What cannot be read as
/// a typed event is handed on whole.
pub open spec fn decodes_to(
    stream: Seq<char>,
    event_name: Seq<char>,
    args: Seq<JsonView>,
    e: StreamEvent,
) -> bool {
    if fits(kind_of(stream, event_name), args) {
        is_event(e, kind_of(stream, event_name), args)
    } else {
        e matches StreamEvent::Unknown { stream: s, event: n, args: a } && s@ == stream && n@
            == event_name && array_view(a@) == args
    }
}

impl StreamEvent {
    /// Decodes an event. What cannot be read as a typed event is handed on whole.
    pub fn decode(stream: &str, event_name: &str, args: &[Json]) -> (r: StreamEvent)
        ensures
            decodes_to(stream@, event_name@, array_view(args@), r),
    {
        match StreamEvent::try_decode(stream, event_name, args) {
            Some(event) => event,
            None => {
                StreamEvent::Unknown {
                    stream: stream.to_owned(),
                    event: event_name.to_owned(),
                    args: dup_slice(args),
                }
            },
        }
    }

    /// Decodes the event that a frame carries.
    pub fn decode_raw(raw: protocol::StreamEvent<'_>) -> (r: StreamEvent)
        ensures
            decodes_to(raw.stream@, raw.event_name@, array_view(raw.args@), r),
    {
        StreamEvent::decode(raw.stream, raw.event_name, raw.args)
    }

    /// Whether the event was not decoded.
    pub fn is_unknown(&self) -> (r: bool)
        ensures
            r == (*self is Unknown),
    {
        match self {
            StreamEvent::Unknown { .. } => true,
            _ => false,
        }
    }

    /// The room that the event is about, wherever it names it.
    pub open spec fn about(&self) -> Option<RoomId> {
        match *self {
            StreamEvent::RoomMessage { room, .. } => Some(room),
            StreamEvent::UserActivity { room, .. } => Some(room),
            StreamEvent::Typing { room, .. } => Some(room),
            StreamEvent::MessageDeleted { room, .. } => Some(room),
            StreamEvent::MessagesDeletedBulk { room, .. } => Some(room),
            StreamEvent::MyMessage { message, .. } => Some(message.rid),
            StreamEvent::EphemeralMessage { message, .. } => Some(message.rid),
            _ => None,
        }
    }

    /// The room that the event is about, wherever it names it.
    pub fn room(&self) -> (r: Option<&RoomId>)
        ensures
            match r {
                Some(room) => self.about() == Some(*room),
                None => self.about() is None,
            },
    {
        match self {
            StreamEvent::RoomMessage { room, .. } => Some(room),
            StreamEvent::UserActivity { room, .. } => Some(room),
            StreamEvent::Typing { room, .. } => Some(room),
            StreamEvent::MessageDeleted { room, .. } => Some(room),
            StreamEvent::MessagesDeletedBulk { room, .. } => Some(room),
            StreamEvent::MyMessage { message, .. } => Some(&message.rid),
            StreamEvent::EphemeralMessage { message, .. } => Some(&message.rid),
            _ => None,
        }
    }

    fn try_decode(stream: &str, event_name: &str, args: &[Json]) -> (r: Option<StreamEvent>)
        ensures
            r is Some <==> fits(kind_of(stream@, event_name@), array_view(args@)),
            r matches Some(e) ==> is_event(
                e,
                kind_of(stream@, event_name@),
                array_view(args@),
            ),
    {
        let name = match strip_prefix(stream, "stream-") {
            Some(rest) => rest,
            None => stream,
        };
        if str_eq(name, "room-messages") {
            StreamEvent::room_messages(event_name, args)
        } else if str_eq(name, "notify-room") {
            StreamEvent::notify_room(event_name, args)
        } else if str_eq(name, "notify-user") {
            StreamEvent::notify_user(event_name, args)
        } else if str_eq(name, "notify-logged") {
            StreamEvent::notify_logged(event_name, args)
        } else {
            None
        }
    }

    fn room_messages(event_name: &str, args: &[Json]) -> (r: Option<StreamEvent>)
        ensures
            r is Some <==> fits(message_kind(event_name@), array_view(args@)),
            r matches Some(e) ==> is_event(e, message_kind(event_name@), array_view(args@)),
    {
        if str_eq(event_name, "__my_messages__") {
            let message: Message = match req(args, 0) {
                Some(message) => message,
                None => {
                    return None;
                },
            };
            // The trailing element is an authorization side-band, not the payload: if its
            // shape ever changes, losing the message would be worse than losing the note.
            let meta: MyMessageMeta = match req(args, 1) {
                Some(meta) => meta,
                None => MyMessageMeta { room_participant: None, room_type: None, room_name: None },
            };
            return Some(StreamEvent::MyMessage { message: Box::new(message), meta });
        }
        if event_name.is_empty() {
            return None;
        }
        match req(args, 0) {
            Some(message) => Some(
                StreamEvent::RoomMessage {
                    room: RoomId::new(event_name),
                    message: Box::new(message),
                },
            ),
            None => None,
        }
    }

    fn notify_room(event_name: &str, args: &[Json]) -> (r: Option<StreamEvent>)
        ensures
            r is Some <==> fits(room_kind(event_name@), array_view(args@)),
            r matches Some(e) ==> is_event(e, room_kind(event_name@), array_view(args@)),
    {
        let (id, key) = match split_key(event_name) {
            Some(parts) => parts,
            None => {
                return None;
            },
        };
        let room = RoomId::new(id);
        if str_eq(key, "user-activity") {
            match (str_at(args, 0), strings_at(args, 1)) {
                (Some(user), Some(texts)) => Some(
                    StreamEvent::UserActivity {
                        room,
                        user: user.to_owned(),
                        activities: activities_of(&texts),
                    },
                ),
                _ => None,
            }
        } else if str_eq(key, "typing") {
            match (str_at(args, 0), arg_at(args, 1)) {
                (Some(user), Some(Json::Bool(typing))) => Some(
                    StreamEvent::Typing { room, user: user.to_owned(), typing: *typing },
                ),
                _ => None,
            }
        } else if str_eq(key, "deleteMessage") {
            let deleted: DeletedMessage = match req(args, 0) {
                Some(deleted) => deleted,
                None => {
                    return None;
                },
            };
            Some(StreamEvent::MessageDeleted { room, message: deleted.id })
        } else if str_eq(key, "deleteMessageBulk") {
            match req(args, 0) {
                Some(bulk) => Some(
                    StreamEvent::MessagesDeletedBulk { room, bulk: Box::new(bulk) },
                ),
                None => None,
            }
        } else {
            None
        }
    }

    fn notify_user(event_name: &str, args: &[Json]) -> (r: Option<StreamEvent>)
        ensures
            r is Some <==> fits(user_kind(event_name@), array_view(args@)),
            r matches Some(e) ==> is_event(e, user_kind(event_name@), array_view(args@)),
    {
        let (id, key) = match split_key(event_name) {
            Some(parts) => parts,
            None => {
                return None;
            },
        };
        let user = UserId::new(id);
        if str_eq(key, "message") {
            match req(args, 0) {
                Some(message) => Some(
                    StreamEvent::EphemeralMessage { user, message: Box::new(message) },
                ),
                None => None,
            }
        } else if str_eq(key, "notification") {
            match req(args, 0) {
                Some(notification) => Some(
                    StreamEvent::Notification { user, notification: Box::new(notification) },
                ),
                None => None,
            }
        } else if str_eq(key, "rooms-changed") {
            match (req(args, 0), req(args, 1)) {
                (Some(action), Some(room)) => Some(
                    StreamEvent::RoomsChanged { user, action, room: Box::new(room) },
                ),
                _ => None,
            }
        } else if str_eq(key, "subscriptions-changed") {
            match (req(args, 0), req(args, 1)) {
                (Some(action), Some(subscription)) => Some(
                    StreamEvent::SubscriptionsChanged {
                        user,
                        action,
                        subscription: Box::new(subscription),
                    },
                ),
                _ => None,
            }
        } else if str_eq(key, "userData") {
            match req(args, 0) {
                Some(event) => Some(StreamEvent::UserData { user, event: Box::new(event) }),
                None => None,
            }
        } else if str_eq(key, "force_logout") {
            // The absent session is a value here, not a failure.
            match opt(args, 0) {
                Some(session) => Some(StreamEvent::ForceLogout { user, session }),
                None => None,
            }
        } else {
            None
        }
    }

    fn notify_logged(event_name: &str, args: &[Json]) -> (r: Option<StreamEvent>)
        ensures
            r is Some <==> fits(logged_kind(event_name@), array_view(args@)),
            r matches Some(e) ==> is_event(e, logged_kind(event_name@), array_view(args@)),
    {
        if str_eq(event_name, "user-status") {
            // The tuple is nested: the arguments are one list.
            let tuple = match arg_at(args, 0) {
                Some(Json::Array(items)) => items.as_slice(),
                _ => {
                    return None;
                },
            };
            let user = match str_at(tuple, 0) {
                Some(user) => user,
                None => {
                    return None;
                },
            };
            if user.is_empty() {
                return None;
            }
            let roles: Vec<RoleId> = match strings_at(tuple, 5) {
                Some(texts) => roles_of(&texts),
                None => Vec::new(),
            };
            match (
                opt(tuple, 1),
                req(tuple, 2),
                opt(tuple, 3),
                opt(tuple, 4),
                opt(tuple, 6),
                opt(tuple, 7),
            ) {
                (
                    Some(username),
                    Some(status),
                    Some(status_text),
                    Some(name),
                    Some(status_source),
                    Some(status_expires_at),
                ) => Some(
                    StreamEvent::UserStatusChanged(
                        Box::new(
                            UserStatusChange {
                                user: UserId::new(user),
                                username,
                                status,
                                status_text,
                                name,
                                roles,
                                status_source,
                                status_expires_at,
                            },
                        ),
                    ),
                ),
                _ => None,
            }
        } else if str_eq(event_name, "Users:NameChanged") {
            let changed: NameChanged = match req(args, 0) {
                Some(changed) => changed,
                None => {
                    return None;
                },
            };
            Some(
                StreamEvent::UserNameChanged {
                    user: changed.id,
                    username: changed.username,
                    name: changed.name,
                },
            )
        } else if str_eq(event_name, "roles-change") {
            match req(args, 0) {
                Some(change) => Some(StreamEvent::RolesChanged(Box::new(change))),
                None => None,
            }
        } else {
            None
        }
    }
}

impl<'a> From<protocol::StreamEvent<'a>> for StreamEvent {
    fn from(raw: protocol::StreamEvent<'a>) -> (r: StreamEvent)
        ensures
            decodes_to(raw.stream@, raw.event_name@, array_view(raw.args@), r),
    {
        StreamEvent::decode_raw(raw)
    }
}

impl<'a> vstd::std_specs::convert::FromSpecImpl<protocol::StreamEvent<'a>> for StreamEvent {
    open spec fn obeys_from_spec() -> bool {
        false
    }

    open spec fn from_spec(raw: protocol::StreamEvent<'a>) -> StreamEvent {
        arbitrary()
    }
}

/// Arguments beyond the declared ones never change how an event decodes.
pub proof fn law_extra_arguments_are_ignored(kind: Kind, args: Seq<JsonView>, extra: JsonView)
    requires
        kind !is UserStatusChanged ==> args.len() >= 2,
        kind is UserStatusChanged ==> args.len() >= 1,
    ensures
        fits(kind, args.push(extra)) == fits(kind, args),
        forall|e: StreamEvent| is_event(e, kind, args.push(extra)) <==> #[trigger] is_event(
            e,
            kind,
            args,
        ),
{
    let more = args.push(extra);
    assert(at(more, 0) == at(args, 0));
    if kind !is UserStatusChanged {
        assert(at(more, 1) == at(args, 1));
    }
}

/// A stream named with and without its collection prefix denotes the same events.
pub proof fn law_stream_prefix_is_optional(stream: Seq<char>, event: Seq<char>)
    requires
        after_prefix(stream, "stream-"@) is None,
    ensures
        kind_of("stream-"@ + stream, event) == kind_of(stream, event),
{
    let full = "stream-"@ + stream;
    let p = "stream-"@;
    assert(full.subrange(0, p.len() as int) =~= p);
    assert(full.subrange(p.len() as int, full.len() as int) =~= stream);
}

/// Which room an event is about: the one of its name, or the one of its message.
pub proof fn law_which_room_an_event_is_about(e: StreamEvent)
    ensures
        e matches StreamEvent::RoomMessage { room, .. } ==> e.about() == Some(room),
        e matches StreamEvent::UserActivity { room, .. } ==> e.about() == Some(room),
        e matches StreamEvent::Typing { room, .. } ==> e.about() == Some(room),
        e matches StreamEvent::MessageDeleted { room, .. } ==> e.about() == Some(room),
        e matches StreamEvent::MessagesDeletedBulk { room, .. } ==> e.about() == Some(room),
        e matches StreamEvent::MyMessage { message, .. } ==> e.about() == Some(message.rid),
        e matches StreamEvent::EphemeralMessage { message, .. } ==> e.about() == Some(message.rid),
        e is Notification || e is RoomsChanged || e is SubscriptionsChanged || e is UserData || e
            is ForceLogout || e is UserStatusChanged || e is UserNameChanged || e is RolesChanged
            || e is Unknown ==> e.about() is None,
{
}

/// A deleted message is named by the member `_id`; and a changed name comes with the user's id,
/// username and name.
pub proof fn law_what_names_a_change(
    deleted: DeletedMessage,
    changed: NameChanged,
    map: Map<Seq<char>, JsonView>,
)
    ensures
        deleted.read_from(JsonView::Object(map)) ==> map.dom().contains("_id"@) && map["_id"@]
            == JsonView::String(deleted.id@),
        changed.read_from(JsonView::Object(map)) ==> {
            &&& map.dom().contains("_id"@) && map["_id"@] == JsonView::String(changed.id@)
            &&& changed.username matches Some(text) ==> map.dom().contains("username"@)
                && map["username"@] == JsonView::String(text@)
            &&& changed.username is None ==> !map.dom().contains("username"@) || map["username"@]
                is Null
            &&& changed.name matches Some(text) ==> map.dom().contains("name"@) && map["name"@]
                == JsonView::String(text@)
            &&& changed.name is None ==> !map.dom().contains("name"@) || map["name"@] is Null
        },
{
}

} // verus!
