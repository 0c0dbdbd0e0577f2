//! An event decodes to one value only, with and without the collection prefix.
use crate::model::determined::{agree_option, lemma_optional, Determined};
use crate::model::event::{
    at, bare, decodes_to, fits, has_arg, is_arg, is_event, kind_of, law_stream_prefix_is_optional,
    status_tuple, Kind, StreamEvent,
};
use crate::model::json::{array_view, JsonView};
use crate::model::payload::{MyMessageMeta, UserStatusChange};
use crate::model::wire::slot;
use crate::text::after_prefix;
use vstd::prelude::*;
use vstd::string::*;

verus! {

/// Whether two presence changes hold the same.
pub open spec fn agree_status(a: UserStatusChange, b: UserStatusChange) -> bool {
    &&& a.user.agrees(&b.user)
    &&& agree_option(a.username, b.username)
    &&& a.status.agrees(&b.status)
    &&& agree_option(a.status_text, b.status_text)
    &&& agree_option(a.name, b.name)
    &&& a.roles.agrees(&b.roles)
    &&& agree_option(a.status_source, b.status_source)
    &&& agree_option(a.status_expires_at, b.status_expires_at)
}

/// Whether two typed events hold the same.
pub open spec fn agree_event(x: StreamEvent, y: StreamEvent) -> bool {
    match (x, y) {
        (
            StreamEvent::RoomMessage { room: r, message: m },
            StreamEvent::RoomMessage { room, message },
        ) => r.agrees(&room) && m.agrees(&message),
        (
            StreamEvent::MyMessage { message: m, meta: t },
            StreamEvent::MyMessage { message, meta },
        ) => m.agrees(&message) && t.agrees(&meta),
        (
            StreamEvent::UserActivity { room: r, user: u, activities: a },
            StreamEvent::UserActivity { room, user, activities },
        ) => r.agrees(&room) && u.agrees(&user) && a.agrees(&activities),
        (
            StreamEvent::Typing { room: r, user: u, typing: t },
            StreamEvent::Typing { room, user, typing },
        ) => r.agrees(&room) && u.agrees(&user) && t == typing,
        (
            StreamEvent::MessageDeleted { room: r, message: m },
            StreamEvent::MessageDeleted { room, message },
        ) => r.agrees(&room) && m.agrees(&message),
        (
            StreamEvent::MessagesDeletedBulk { room: r, bulk: b },
            StreamEvent::MessagesDeletedBulk { room, bulk },
        ) => r.agrees(&room) && b.agrees(&bulk),
        (
            StreamEvent::EphemeralMessage { user: u, message: m },
            StreamEvent::EphemeralMessage { user, message },
        ) => u.agrees(&user) && m.agrees(&message),
        (
            StreamEvent::Notification { user: u, notification: n },
            StreamEvent::Notification { user, notification },
        ) => u.agrees(&user) && n.agrees(&notification),
        (
            StreamEvent::RoomsChanged { user: u, action: a, room: r },
            StreamEvent::RoomsChanged { user, action, room },
        ) => u.agrees(&user) && a.agrees(&action) && r.agrees(&room),
        (
            StreamEvent::SubscriptionsChanged { user: u, action: a, subscription: s },
            StreamEvent::SubscriptionsChanged { user, action, subscription },
        ) => u.agrees(&user) && a.agrees(&action) && s.agrees(&subscription),
        (
            StreamEvent::UserData { user: u, event: e },
            StreamEvent::UserData { user, event },
        ) => u.agrees(&user) && e.agrees(&event),
        (
            StreamEvent::ForceLogout { user: u, session: s },
            StreamEvent::ForceLogout { user, session },
        ) => u.agrees(&user) && agree_option(s, session),
        (StreamEvent::UserStatusChanged(a), StreamEvent::UserStatusChanged(b)) => agree_status(
            *a,
            *b,
        ),
        (
            StreamEvent::UserNameChanged { user: u, username: n, name: d },
            StreamEvent::UserNameChanged { user, username, name },
        ) => u.agrees(&user) && agree_option(n, username) && agree_option(d, name),
        (StreamEvent::RolesChanged(a), StreamEvent::RolesChanged(b)) => a.agrees(&b),
        _ => false,
    }
}

/// Whether an event is handed on whole: the stream as it was named, the event name unsplit, and
/// the arguments as they came.
pub open spec fn is_whole(
    x: StreamEvent,
    stream: Seq<char>,
    event_name: Seq<char>,
    args: Seq<JsonView>,
) -> bool {
    x matches StreamEvent::Unknown { stream: s, event: n, args: a } && s@ == stream && n@
        == event_name && array_view(a@) == args
}

/// An argument that must be there reads as one value only.
proof fn lemma_arg<T: Determined>(a: T, b: T, args: Seq<JsonView>, index: int)
    requires
        is_arg(a, args, index),
        is_arg(b, args, index),
    ensures
        a.agrees(&b),
{
    a.law_determined(&b, args[index]);
}

/// A typed event is one value only: what two readings of it give holds the same.
pub proof fn law_a_typed_event_is_determined(
    kind: Kind,
    args: Seq<JsonView>,
    x: StreamEvent,
    y: StreamEvent,
)
    requires
        fits(kind, args),
        is_event(x, kind, args),
        is_event(y, kind, args),
    ensures
        agree_event(x, y),
{
    match (x, y) {
        (
            StreamEvent::RoomMessage { message: m, .. },
            StreamEvent::RoomMessage { message, .. },
        ) => lemma_arg(*m, *message, args, 0),
        (
            StreamEvent::MyMessage { message: m, meta: t },
            StreamEvent::MyMessage { message, meta },
        ) => {
            lemma_arg(*m, *message, args, 0);
            if has_arg::<MyMessageMeta>(args, 1) {
                lemma_arg(t, meta, args, 1);
            }
        },
        (
            StreamEvent::MessageDeleted { message: m, .. },
            StreamEvent::MessageDeleted { message, .. },
        ) => m.law_determined(&message, slot(args[0], "_id"@, 0)->0),
        (
            StreamEvent::MessagesDeletedBulk { bulk: b, .. },
            StreamEvent::MessagesDeletedBulk { bulk, .. },
        ) => lemma_arg(*b, *bulk, args, 0),
        (
            StreamEvent::EphemeralMessage { message: m, .. },
            StreamEvent::EphemeralMessage { message, .. },
        ) => lemma_arg(*m, *message, args, 0),
        (
            StreamEvent::Notification { notification: n, .. },
            StreamEvent::Notification { notification, .. },
        ) => lemma_arg(*n, *notification, args, 0),
        (
            StreamEvent::RoomsChanged { action: a, room: r, .. },
            StreamEvent::RoomsChanged { action, room, .. },
        ) => {
            lemma_arg(a, action, args, 0);
            lemma_arg(*r, *room, args, 1);
        },
        (
            StreamEvent::SubscriptionsChanged { action: a, subscription: s, .. },
            StreamEvent::SubscriptionsChanged { action, subscription, .. },
        ) => {
            lemma_arg(a, action, args, 0);
            lemma_arg(*s, *subscription, args, 1);
        },
        (
            StreamEvent::UserData { event: e, .. },
            StreamEvent::UserData { event, .. },
        ) => lemma_arg(*e, *event, args, 0),
        (
            StreamEvent::ForceLogout { session: s, .. },
            StreamEvent::ForceLogout { session, .. },
        ) => lemma_optional(s, session, at(args, 0)),
        (StreamEvent::UserStatusChanged(a), StreamEvent::UserStatusChanged(b)) => {
            let tuple = status_tuple(args)->0;
            lemma_optional(a.username, b.username, at(tuple, 1));
            lemma_arg(a.status, b.status, tuple, 2);
            lemma_optional(a.status_text, b.status_text, at(tuple, 3));
            lemma_optional(a.name, b.name, at(tuple, 4));
            lemma_optional(a.status_source, b.status_source, at(tuple, 6));
            lemma_optional(a.status_expires_at, b.status_expires_at, at(tuple, 7));
        },
        (
            StreamEvent::UserNameChanged { user: u, username: n, name: d },
            StreamEvent::UserNameChanged { user, username, name },
        ) => {
            lemma_optional(n, username, slot(args[0], "username"@, 1));
            lemma_optional(d, name, slot(args[0], "name"@, 2));
        },
        (StreamEvent::RolesChanged(a), StreamEvent::RolesChanged(b)) => lemma_arg(*a, *b, args, 0),
        _ => {},
    }
}

/// Decoding is a function of the stream, the event name and the arguments.
pub proof fn law_an_event_decodes_to_one_value(
    stream: Seq<char>,
    event_name: Seq<char>,
    args: Seq<JsonView>,
    x: StreamEvent,
    y: StreamEvent,
)
    requires
        decodes_to(stream, event_name, args, x),
        decodes_to(stream, event_name, args, y),
    ensures
        agree_event(x, y) || (is_whole(x, stream, event_name, args) && is_whole(
            y,
            stream,
            event_name,
            args,
        )),
{
    if fits(kind_of(stream, event_name), args) {
        law_a_typed_event_is_determined(kind_of(stream, event_name), args, x, y);
    }
}

/// The collection prefix makes no difference to what is decoded: with and without it, an event
/// is the same typed event, or handed on whole under the name that it came with. The prefix is
/// taken off once, so this leaves out a stream that already carries it and decodes.
pub proof fn law_the_prefix_makes_no_difference(
    stream: Seq<char>,
    event_name: Seq<char>,
    args: Seq<JsonView>,
    x: StreamEvent,
    y: StreamEvent,
)
    requires
        after_prefix(stream, "stream-"@) is None || !fits(kind_of(stream, event_name), args),
        decodes_to(stream, event_name, args, x),
        decodes_to("stream-"@ + stream, event_name, args, y),
    ensures
        fits(kind_of(stream, event_name), args) ==> agree_event(x, y) && x !is Unknown
            && y !is Unknown,
        !fits(kind_of(stream, event_name), args) ==> is_whole(x, stream, event_name, args)
            && is_whole(y, "stream-"@ + stream, event_name, args),
{
    if after_prefix(stream, "stream-"@) is None {
        law_stream_prefix_is_optional(stream, event_name);
        if fits(kind_of(stream, event_name), args) {
            law_a_typed_event_is_determined(kind_of(stream, event_name), args, x, y);
        }
    } else {
        let long = "stream-"@ + stream;
        reveal_strlit("stream-");
        reveal_strlit("room-messages");
        reveal_strlit("notify-room");
        reveal_strlit("notify-user");
        reveal_strlit("notify-logged");
        assert(long.subrange(0, 7) =~= "stream-"@);
        assert(long.subrange(7, long.len() as int) =~= stream);
        assert(bare(long) == stream);
        assert(stream.subrange(0, 7)[0] == 's');
        assert("room-messages"@[0] == 'r');
        assert("notify-room"@[0] == 'n');
        assert("notify-user"@[0] == 'n');
        assert("notify-logged"@[0] == 'n');
        assert(kind_of(long, event_name) is Other);
    }
}

} // verus!
