//! Which event each stream and event name denotes, and what its arguments say.
use crate::model::datetime::Timestamp;
use crate::model::entity::enums::{PresenceSource, PresenceStatus};
use crate::model::entity::{Message, Room};
use crate::model::event::{
    bare, decodes_to, fits, is_event, key_parts, kind_of, strings_arg, strings_of, DeletedMessage,
    Kind, NameChanged, StreamEvent,
};
use crate::model::json::{array_view, JsonView};
use crate::model::payload::{
    BulkDelete, ClientAction, DesktopNotification, MyMessageMeta, RoleChange, SubscriptionChange,
    UserDataEvent,
};
use crate::model::wire::Decode;
use crate::text::{law_a_text_is_split_at_the_first_occurrence, stands_at};
use vstd::prelude::*;
use vstd::string::*;

verus! {

/// The names of the streams differ.
proof fn lemma_streams_differ()
    ensures
        "room-messages"@.len() == 13 && "room-messages"@[0] == 'r',
        "notify-room"@.len() == 11 && "notify-room"@[7] == 'r' && "notify-room"@[0] == 'n',
        "notify-user"@.len() == 11 && "notify-user"@[7] == 'u' && "notify-user"@[0] == 'n',
        "notify-logged"@.len() == 13 && "notify-logged"@[0] == 'n',
        "stream-"@.len() == 7 && "stream-"@[0] == 's',
{
    reveal_strlit("room-messages");
    reveal_strlit("notify-room");
    reveal_strlit("notify-user");
    reveal_strlit("notify-logged");
    reveal_strlit("stream-");
}

/// The stream names stand for themselves: none of them starts with the collection prefix.
proof fn lemma_bare_streams()
    ensures
        bare("room-messages"@) == "room-messages"@,
        bare("notify-room"@) == "notify-room"@,
        bare("notify-user"@) == "notify-user"@,
        bare("notify-logged"@) == "notify-logged"@,
{
    lemma_streams_differ();
    lemma_bare("room-messages"@);
    lemma_bare("notify-room"@);
    lemma_bare("notify-user"@);
    lemma_bare("notify-logged"@);
}

proof fn lemma_bare(s: Seq<char>)
    requires
        s.len() >= 7,
        s[0] != 's',
    ensures
        bare(s) == s,
{
    lemma_streams_differ();
    if stands_at(s, "stream-"@, 0) {
        assert(s.subrange(0, 7)[0] == s[0]);
    }
}

/// A composite name of an id without a slash and a key has these two parts.
proof fn lemma_composite(id: Seq<char>, key: Seq<char>)
    requires
        id.len() > 0,
        !id.contains('/'),
    ensures
        key_parts(id + seq!['/'] + key) == Some((id, key)),
{
    law_a_text_is_split_at_the_first_occurrence(id, key, '/');
}

/// On the message stream the event name is the room, but for the one that stands for all of the
/// user's own rooms.
pub proof fn law_the_message_stream(room: Seq<char>)
    ensures
        kind_of("room-messages"@, "__my_messages__"@) == Kind::MyMessage,
        room.len() > 0 && room != "__my_messages__"@ ==> kind_of("room-messages"@, room)
            == Kind::RoomMessage(room),
        room.len() == 0 && room != "__my_messages__"@ ==> kind_of("room-messages"@, room)
            == Kind::Other,
{
    lemma_bare_streams();
}

/// On the room stream the event name is the room, a slash and what happened.
pub proof fn law_the_room_stream(room: Seq<char>, key: Seq<char>)
    requires
        room.len() > 0,
        !room.contains('/'),
    ensures
        kind_of("notify-room"@, room + seq!['/'] + "user-activity"@) == Kind::UserActivity(room),
        kind_of("notify-room"@, room + seq!['/'] + "typing"@) == Kind::Typing(room),
        kind_of("notify-room"@, room + seq!['/'] + "deleteMessage"@) == Kind::MessageDeleted(room),
        kind_of("notify-room"@, room + seq!['/'] + "deleteMessageBulk"@)
            == Kind::MessagesDeletedBulk(room),
        key != "user-activity"@ && key != "typing"@ && key != "deleteMessage"@ && key
            != "deleteMessageBulk"@ ==> kind_of("notify-room"@, room + seq!['/'] + key)
            == Kind::Other,
        kind_of("notify-room"@, room) == Kind::Other,
{
    lemma_streams_differ();
    lemma_bare_streams();
    lemma_composite(room, "user-activity"@);
    lemma_composite(room, "typing"@);
    lemma_composite(room, "deleteMessage"@);
    lemma_composite(room, "deleteMessageBulk"@);
    lemma_composite(room, key);
    law_a_text_is_split_at_the_first_occurrence(room, key, '/');
    reveal_strlit("user-activity");
    reveal_strlit("typing");
    reveal_strlit("deleteMessage");
    reveal_strlit("deleteMessageBulk");
    assert("user-activity"@.len() == 13 && "user-activity"@[0] == 'u');
    assert("typing"@.len() == 6);
    assert("deleteMessage"@.len() == 13 && "deleteMessage"@[0] == 'd');
    assert("deleteMessageBulk"@.len() == 17);
}

/// On the user stream the event name is the user, a slash and what happened.
pub proof fn law_the_user_stream(user: Seq<char>, key: Seq<char>)
    requires
        user.len() > 0,
        !user.contains('/'),
    ensures
        kind_of("notify-user"@, user + seq!['/'] + "message"@) == Kind::EphemeralMessage(user),
        kind_of("notify-user"@, user + seq!['/'] + "notification"@) == Kind::Notification(user),
        kind_of("notify-user"@, user + seq!['/'] + "rooms-changed"@) == Kind::RoomsChanged(user),
        kind_of("notify-user"@, user + seq!['/'] + "subscriptions-changed"@)
            == Kind::SubscriptionsChanged(user),
        kind_of("notify-user"@, user + seq!['/'] + "userData"@) == Kind::UserData(user),
        kind_of("notify-user"@, user + seq!['/'] + "force_logout"@) == Kind::ForceLogout(user),
        key != "message"@ && key != "notification"@ && key != "rooms-changed"@ && key
            != "subscriptions-changed"@ && key != "userData"@ && key != "force_logout"@ ==> kind_of(
            "notify-user"@,
            user + seq!['/'] + key,
        ) == Kind::Other,
        kind_of("notify-user"@, user) == Kind::Other,
{
    lemma_streams_differ();
    lemma_bare_streams();
    lemma_composite(user, "message"@);
    lemma_composite(user, "notification"@);
    lemma_composite(user, "rooms-changed"@);
    lemma_composite(user, "subscriptions-changed"@);
    lemma_composite(user, "userData"@);
    lemma_composite(user, "force_logout"@);
    lemma_composite(user, key);
    law_a_text_is_split_at_the_first_occurrence(user, key, '/');
    reveal_strlit("message");
    reveal_strlit("notification");
    reveal_strlit("rooms-changed");
    reveal_strlit("subscriptions-changed");
    reveal_strlit("userData");
    reveal_strlit("force_logout");
    assert("message"@.len() == 7);
    assert("notification"@.len() == 12 && "notification"@[0] == 'n');
    assert("rooms-changed"@.len() == 13);
    assert("subscriptions-changed"@.len() == 21);
    assert("userData"@.len() == 8);
    assert("force_logout"@.len() == 12 && "force_logout"@[0] == 'f');
}

/// The stream for every logged-in user has three events, and every other stream has none that is
/// typed.
pub proof fn law_the_other_streams(stream: Seq<char>, event: Seq<char>)
    ensures
        kind_of("notify-logged"@, "user-status"@) == Kind::UserStatusChanged,
        kind_of("notify-logged"@, "Users:NameChanged"@) == Kind::UserNameChanged,
        kind_of("notify-logged"@, "roles-change"@) == Kind::RolesChanged,
        event != "user-status"@ && event != "Users:NameChanged"@ && event != "roles-change"@
            ==> kind_of("notify-logged"@, event) == Kind::Other,
        bare(stream) != "room-messages"@ && bare(stream) != "notify-room"@ && bare(stream)
            != "notify-user"@ && bare(stream) != "notify-logged"@ ==> kind_of(stream, event)
            == Kind::Other,
{
    lemma_streams_differ();
    lemma_bare_streams();
    reveal_strlit("user-status");
    reveal_strlit("Users:NameChanged");
    reveal_strlit("roles-change");
    assert("user-status"@.len() == 11);
    assert("Users:NameChanged"@.len() == 17);
    assert("roles-change"@.len() == 12);
}

/// A name without something before its slash carries no id, and denotes no event of a room or a
/// user.
pub proof fn law_an_id_is_never_empty(key: Seq<char>)
    ensures
        kind_of("notify-room"@, seq!['/'] + key) == Kind::Other,
        kind_of("notify-user"@, seq!['/'] + key) == Kind::Other,
{
    lemma_streams_differ();
    lemma_bare_streams();
    let none: Seq<char> = Seq::empty();
    law_a_text_is_split_at_the_first_occurrence(none, key, '/');
    assert(none + seq!['/'] + key =~= seq!['/'] + key);
}

/// Where the arguments go: what each argument of an event that is decoded says.
pub proof fn law_arguments_are_read_by_position(
    id: Seq<char>,
    args: Seq<JsonView>,
    event: StreamEvent,
)
    ensures
        is_event(event, Kind::RoomMessage(id), args) ==> (event matches StreamEvent::RoomMessage {
            room,
            message,
        } && room@ == id && args.len() > 0 && message.read_from(args[0])),
        is_event(event, Kind::MyMessage, args) ==> (event matches StreamEvent::MyMessage {
            message,
            ..
        } && args.len() > 0 && message.read_from(args[0])),
        is_event(event, Kind::Typing(id), args) ==> (event matches StreamEvent::Typing {
            room,
            user,
            typing,
        } && room@ == id && args.len() > 1 && args[0] == JsonView::String(user@) && args[1]
            == JsonView::Bool(typing)),
        is_event(event, Kind::UserActivity(id), args) ==> (event matches StreamEvent::UserActivity {
            room,
            user,
            ..
        } && room@ == id && args.len() > 0 && args[0] == JsonView::String(user@)),
        is_event(event, Kind::EphemeralMessage(id), args) ==> (
        event matches StreamEvent::EphemeralMessage { user, message } && user@ == id && args.len()
            > 0 && message.read_from(args[0])),
        is_event(event, Kind::MessageDeleted(id), args) ==> (
        event matches StreamEvent::MessageDeleted { room, message } && room@ == id && args.len()
            > 0 && (args[0] matches JsonView::Object(map) ==> map.dom().contains("_id"@)
            && map["_id"@] == JsonView::String(message@))),
        is_event(event, Kind::RoomsChanged(id), args) ==> (
        event matches StreamEvent::RoomsChanged { user, action, room } && user@ == id && args.len()
            > 1 && action.read_from(args[0]) && room.read_from(args[1])),
        is_event(event, Kind::SubscriptionsChanged(id), args) ==> (
        event matches StreamEvent::SubscriptionsChanged { user, action, subscription } && user@
            == id && args.len() > 1 && action.read_from(args[0]) && subscription.read_from(
            args[1],
        )),
        is_event(event, Kind::Notification(id), args) ==> (
        event matches StreamEvent::Notification { user, notification } && user@ == id && args.len()
            > 0 && notification.read_from(args[0])),
        is_event(event, Kind::UserData(id), args) ==> (event matches StreamEvent::UserData {
            user,
            event: data,
        } && user@ == id && args.len() > 0 && data.read_from(args[0])),
        is_event(event, Kind::MessagesDeletedBulk(id), args) ==> (
        event matches StreamEvent::MessagesDeletedBulk { room, bulk } && room@ == id && args.len()
            > 0 && bulk.read_from(args[0])),
        is_event(event, Kind::RolesChanged, args) ==> (event matches StreamEvent::RolesChanged(
            change,
        ) && args.len() > 0 && change.read_from(args[0])),
        is_event(event, Kind::ForceLogout(id), args) ==> (event matches StreamEvent::ForceLogout {
            user,
            session,
        } && user@ == id && (session matches Some(s) ==> args.len() > 0 && args[0]
            == JsonView::String(s@)) && (session is None ==> args.len() == 0 || args[0] is Null)),
{
}

/// The presence tuple: which position says what.
pub proof fn law_the_presence_tuple(args: Seq<JsonView>, event: StreamEvent)
    requires
        fits(Kind::UserStatusChanged, args),
        is_event(event, Kind::UserStatusChanged, args),
    ensures
        args.len() > 0,
        args[0] is Array,
        event is UserStatusChanged,
        ({
            let tuple = args[0]->Array_0;
            let change = event->UserStatusChanged_0;
            &&& tuple.len() > 2
            &&& tuple[0] == JsonView::String(change.user@)
            &&& change.user@.len() > 0
            &&& change.username matches Some(s) ==> tuple[1] == JsonView::String(s@)
            &&& change.username is None ==> tuple[1] is Null
            &&& change.status.read_from(tuple[2])
            &&& change.status_text matches Some(s) ==> tuple.len() > 3 && tuple[3]
                == JsonView::String(s@)
            &&& change.name matches Some(s) ==> tuple.len() > 4 && tuple[4] == JsonView::String(s@)
            &&& change.status_source matches Some(s) ==> tuple.len() > 6 && s.read_from(tuple[6])
            &&& change.status_expires_at matches Some(t) ==> tuple.len() > 7 && t.read_from(
                tuple[7],
            )
            &&& tuple.len() <= 5 ==> change.roles@.len() == 0
            &&& tuple.len() > 5 && tuple[5] !is Array ==> change.roles@.len() == 0
        }),
{
}

/// Of a list that should hold strings, the strings are kept in order, and nothing else.
pub proof fn law_strings_are_kept_in_order(items: Seq<JsonView>, item: JsonView)
    ensures
        strings_of(Seq::empty()) == Seq::<Seq<char>>::empty(),
        item matches JsonView::String(s) ==> strings_of(items.push(item)) == strings_of(
            items,
        ).push(s),
        item !is String ==> strings_of(items.push(item)) == strings_of(items),
        strings_arg(seq![item], 0) == (match item {
            JsonView::Array(list) => Some(strings_of(list)),
            JsonView::Null => Some(Seq::<Seq<char>>::empty()),
            _ => None,
        }),
        strings_arg(Seq::empty(), 0) == Some(Seq::<Seq<char>>::empty()),
{
    assert(items.push(item).drop_last() =~= items);
}

/// What cannot be decoded is handed on whole: the stream and the event as they were named, and the
/// arguments as they came.
pub proof fn law_what_is_not_decoded_is_kept(
    stream: Seq<char>,
    name: Seq<char>,
    args: Seq<JsonView>,
    event: StreamEvent,
)
    requires
        decodes_to(stream, name, args, event),
    ensures
        event matches StreamEvent::Unknown { stream: s, event: n, args: a } ==> s@ == stream && n@
            == name && array_view(a@) == args,
        kind_of(stream, name) == Kind::Other ==> event is Unknown,
        (kind_of(stream, name) matches Kind::RoomMessage(_)) && args.len() > 0 && args[0] is Object
            && Message::accepts(args[0]) ==> event is RoomMessage,
{
}

/// When an event is decoded: where the arguments that it needs are there and can be read. More
/// arguments than it needs never keep it from being decoded.
pub proof fn law_when_the_arguments_fit(id: Seq<char>, args: Seq<JsonView>)
    ensures
        fits(Kind::RoomMessage(id), args) <==> args.len() > 0 && args[0] !is Null
            && Message::accepts(args[0]),
        fits(Kind::MyMessage, args) <==> args.len() > 0 && args[0] !is Null && Message::accepts(
            args[0],
        ),
        fits(Kind::EphemeralMessage(id), args) <==> args.len() > 0 && args[0] !is Null
            && Message::accepts(args[0]),
        fits(Kind::UserActivity(id), args) <==> args.len() > 0 && args[0] is String && (args.len()
            == 1 || args[1] is Null || args[1] is Array),
        fits(Kind::Typing(id), args) <==> args.len() > 1 && args[0] is String && args[1] is Bool,
        fits(Kind::MessageDeleted(id), args) <==> args.len() > 0 && args[0] !is Null
            && DeletedMessage::accepts(args[0]),
        fits(Kind::MessagesDeletedBulk(id), args) <==> args.len() > 0 && args[0] !is Null
            && BulkDelete::accepts(args[0]),
        fits(Kind::Notification(id), args) <==> args.len() > 0 && args[0] !is Null
            && DesktopNotification::accepts(args[0]),
        fits(Kind::RoomsChanged(id), args) <==> args.len() > 1 && args[0] !is Null
            && ClientAction::accepts(args[0]) && args[1] !is Null && Room::accepts(args[1]),
        fits(Kind::SubscriptionsChanged(id), args) <==> args.len() > 1 && args[0] !is Null
            && ClientAction::accepts(args[0]) && args[1] !is Null && SubscriptionChange::accepts(
            args[1],
        ),
        fits(Kind::UserData(id), args) <==> args.len() > 0 && args[0] !is Null
            && UserDataEvent::accepts(args[0]),
        fits(Kind::ForceLogout(id), args) <==> args.len() == 0 || args[0] is Null || args[0]
            is String,
        fits(Kind::UserNameChanged, args) <==> args.len() > 0 && args[0] !is Null
            && NameChanged::accepts(args[0]),
        fits(Kind::RolesChanged, args) <==> args.len() > 0 && args[0] !is Null
            && RoleChange::accepts(args[0]),
        !fits(Kind::Other, args),
{
}

/// When a presence tuple is decoded: it names a user and a status, and what else it says can be
/// read or is left out. A longer tuple is decoded all the same.
pub proof fn law_when_a_presence_tuple_fits(args: Seq<JsonView>, tuple: Seq<JsonView>)
    requires
        args.len() > 0,
        args[0] == JsonView::Array(tuple),
    ensures
        fits(Kind::UserStatusChanged, args) <==> {
            &&& tuple.len() > 2
            &&& tuple[0] is String && tuple[0]->String_0.len() > 0
            &&& tuple[1] is Null || tuple[1] is String
            &&& tuple[2] !is Null && PresenceStatus::accepts(tuple[2])
            &&& tuple.len() <= 3 || tuple[3] is Null || tuple[3] is String
            &&& tuple.len() <= 4 || tuple[4] is Null || tuple[4] is String
            &&& tuple.len() <= 6 || tuple[6] is Null || PresenceSource::accepts(tuple[6])
            &&& tuple.len() <= 7 || tuple[7] is Null || Timestamp::accepts(tuple[7])
        },
{
}

/// Every event that fits is decoded as its kind, with its arguments.
pub proof fn law_what_fits_is_decoded(
    stream: Seq<char>,
    name: Seq<char>,
    args: Seq<JsonView>,
    event: StreamEvent,
)
    requires
        decodes_to(stream, name, args, event),
    ensures
        fits(kind_of(stream, name), args) ==> is_event(event, kind_of(stream, name), args),
        !fits(kind_of(stream, name), args) ==> event is Unknown,
{
}

/// What else the arguments say: the activities are those of the list, in order; what is known of a
/// message of one's own comes second; and a changed name comes with its user.
pub proof fn law_what_else_the_arguments_say(
    id: Seq<char>,
    args: Seq<JsonView>,
    event: StreamEvent,
    list: Seq<JsonView>,
    i: int,
)
    ensures
        is_event(event, Kind::UserActivity(id), args) && args.len() > 1 && args[1]
            == JsonView::Array(list) ==> event->activities@.len() == strings_of(list).len() && (0
            <= i < strings_of(list).len() ==> event->activities@[i].wire() == strings_of(list)[i]),
        is_event(event, Kind::UserActivity(id), args) && (args.len() <= 1 || args[1] is Null)
            ==> event->activities@.len() == 0,
        is_event(event, Kind::MyMessage, args) && args.len() > 1 && args[1] !is Null
            && MyMessageMeta::accepts(args[1]) ==> event->meta.read_from(args[1]),
        is_event(event, Kind::MyMessage, args) && !(args.len() > 1 && args[1] !is Null
            && MyMessageMeta::accepts(args[1])) ==> event->meta.room_participant is None
            && event->meta.room_type is None && event->meta.room_name is None,
        is_event(event, Kind::UserNameChanged, args) ==> args.len() > 0 && (
        event matches StreamEvent::UserNameChanged { user, username, name } && (NameChanged {
            id: user,
            username,
            name,
        }).read_from(args[0])),
        is_event(event, Kind::UserStatusChanged, args) && args.len() > 0 && (
        args[0] matches JsonView::Array(tuple) && tuple.len() > 5 && tuple[5] == JsonView::Array(
            list,
        )) ==> event->UserStatusChanged_0.roles@.len() == strings_of(list).len() && (0 <= i
            < strings_of(list).len() ==> event->UserStatusChanged_0.roles@[i]@ == strings_of(
            list,
        )[i]),
{
}

} // verus!
