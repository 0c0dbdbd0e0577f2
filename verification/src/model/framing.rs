//! How frames are spelled: which tag and members each one has.
use crate::model::json::{Json, JsonMap, JsonView};
use crate::model::members::MemberModel;
use crate::model::protocol::{
    clash, modelled, own_member, says_expired, server_typed, ClientMessage, DdpError, ErrorCode,
    ServerMessage,
};
use crate::model::wire::{with, with_some, Decode, Encode};
use crate::text::holds;
use vstd::prelude::*;
use vstd::string::*;

verus! {

/// Whether an object has a member with a value.
pub open spec fn has_member(
    map: Map<Seq<char>, JsonView>,
    name: Seq<char>,
    value: JsonView,
) -> bool {
    map.dom().contains(name) && map[name] == value
}

/// Whether an object has a string as a member, or lacks it, as an optional string says.
pub open spec fn has_text(
    map: Map<Seq<char>, JsonView>,
    name: Seq<char>,
    text: Option<String>,
) -> bool {
    match text {
        Some(s) => has_member(map, name, JsonView::String(s@)),
        None => !map.dom().contains(name) || map[name] is Null,
    }
}

/// Whether an object has a value as a member, or lacks it, as an optional value says.
pub open spec fn has_value(
    map: Map<Seq<char>, JsonView>,
    name: Seq<char>,
    value: Option<Json>,
) -> bool {
    match value {
        Some(v) => has_member(map, name, v@),
        None => !map.dom().contains(name) || map[name] is Null,
    }
}

/// Whether an object has an object as a member, or lacks it, as an optional object says.
pub open spec fn has_object(
    map: Map<Seq<char>, JsonView>,
    name: Seq<char>,
    object: Option<JsonMap>,
) -> bool {
    match object {
        Some(o) => has_member(map, name, JsonView::Object(o@)),
        None => !map.dom().contains(name) || map[name] is Null,
    }
}

/// Whether an object has a list of strings as a member.
pub open spec fn has_texts(
    map: Map<Seq<char>, JsonView>,
    name: Seq<char>,
    list: Seq<String>,
) -> bool {
    map.dom().contains(name) && (map[name] matches JsonView::Array(items) && items.len()
        == list.len() && forall|i: int|
        0 <= i < list.len() ==> (#[trigger] items[i]) == JsonView::String(list[i]@))
}

/// Whether an object has an error as a member, or lacks it, as an optional error says.
pub open spec fn has_error(
    map: Map<Seq<char>, JsonView>,
    name: Seq<char>,
    error: Option<DdpError>,
) -> bool {
    match error {
        Some(e) => map.dom().contains(name) && e.read_from(map[name]),
        None => !map.dom().contains(name) || map[name] is Null,
    }
}

/// A frame that is read has the tag of its kind, and each of its parts is the member of that name.
pub proof fn law_server_frames_are_read_by_name(
    map: Map<Seq<char>, JsonView>,
    message: ServerMessage,
)
    requires
        message.read_from(JsonView::Object(map)),
    ensures
        match message {
            ServerMessage::Connected { session } => {
                &&& has_member(map, "msg"@, JsonView::String("connected"@))
                &&& has_member(map, "session"@, JsonView::String(session@))
            },
            ServerMessage::Failed { version } => {
                &&& has_member(map, "msg"@, JsonView::String("failed"@))
                &&& has_member(map, "version"@, JsonView::String(version@))
            },
            ServerMessage::Ping { id } => {
                &&& has_member(map, "msg"@, JsonView::String("ping"@))
                &&& has_text(map, "id"@, id)
            },
            ServerMessage::Pong { id } => {
                &&& has_member(map, "msg"@, JsonView::String("pong"@))
                &&& has_text(map, "id"@, id)
            },
            ServerMessage::Result { id, result, error } => {
                &&& has_member(map, "msg"@, JsonView::String("result"@))
                &&& has_member(map, "id"@, JsonView::String(id@))
                &&& has_value(map, "result"@, result)
                &&& has_error(map, "error"@, error)
            },
            ServerMessage::Updated { methods } => {
                &&& has_member(map, "msg"@, JsonView::String("updated"@))
                &&& has_texts(map, "methods"@, methods@)
            },
            ServerMessage::Nosub { id, error } => {
                &&& has_member(map, "msg"@, JsonView::String("nosub"@))
                &&& has_member(map, "id"@, JsonView::String(id@))
                &&& has_error(map, "error"@, error)
            },
            ServerMessage::Ready { subs } => {
                &&& has_member(map, "msg"@, JsonView::String("ready"@))
                &&& has_texts(map, "subs"@, subs@)
            },
            ServerMessage::Added { collection, id, fields } => {
                &&& has_member(map, "msg"@, JsonView::String("added"@))
                &&& has_member(map, "collection"@, JsonView::String(collection@))
                &&& has_member(map, "id"@, JsonView::String(id@))
                &&& has_object(map, "fields"@, fields)
            },
            ServerMessage::Changed { collection, id, fields, cleared } => {
                &&& has_member(map, "msg"@, JsonView::String("changed"@))
                &&& has_member(map, "collection"@, JsonView::String(collection@))
                &&& has_member(map, "id"@, JsonView::String(id@))
                &&& has_object(map, "fields"@, fields)
                &&& match cleared {
                    Some(list) => has_texts(map, "cleared"@, list@),
                    None => !map.dom().contains("cleared"@) || map["cleared"@] is Null,
                }
            },
            ServerMessage::Removed { collection, id } => {
                &&& has_member(map, "msg"@, JsonView::String("removed"@))
                &&& has_member(map, "collection"@, JsonView::String(collection@))
                &&& has_member(map, "id"@, JsonView::String(id@))
            },
            ServerMessage::AddedBefore { collection, id, fields, before } => {
                &&& has_member(map, "msg"@, JsonView::String("addedBefore"@))
                &&& has_member(map, "collection"@, JsonView::String(collection@))
                &&& has_member(map, "id"@, JsonView::String(id@))
                &&& has_object(map, "fields"@, fields)
                &&& has_text(map, "before"@, before)
            },
            ServerMessage::MovedBefore { collection, id, before } => {
                &&& has_member(map, "msg"@, JsonView::String("movedBefore"@))
                &&& has_member(map, "collection"@, JsonView::String(collection@))
                &&& has_member(map, "id"@, JsonView::String(id@))
                &&& has_text(map, "before"@, before)
            },
            ServerMessage::Error { reason, offending_message } => {
                &&& has_member(map, "msg"@, JsonView::String("error"@))
                &&& has_member(map, "reason"@, JsonView::String(reason@))
                &&& has_value(map, "offendingMessage"@, offending_message)
            },
            ServerMessage::Unknown(unknown) => {
                &&& match unknown.msg {
                    Some(msg) => has_member(map, "msg"@, JsonView::String(msg@))
                        && unknown.rest@ == map.remove("msg"@),
                    None => !(map.dom().contains("msg"@) && map["msg"@] is String)
                        && unknown.rest@ == map,
                }
            },
        },
{
    match message {
        ServerMessage::Updated { methods } => {
            lemma_texts(map, "methods"@, methods);
        },
        ServerMessage::Ready { subs } => {
            lemma_texts(map, "subs"@, subs);
        },
        ServerMessage::Changed { cleared: Some(list), .. } => {
            lemma_texts(map, "cleared"@, list);
        },
        _ => {},
    }
}

proof fn lemma_texts(map: Map<Seq<char>, JsonView>, name: Seq<char>, list: Vec<String>)
    requires
        map.dom().contains(name),
        list.read_from(map[name]),
    ensures
        has_texts(map, name, list@),
{
    let items = map[name]->Array_0;
    assert forall|i: int| 0 <= i < list@.len() implies (#[trigger] items[i]) == JsonView::String(
        list@[i]@,
    ) by {
        assert(list@[i].read_from(items[i]));
    }
}

/// Whether a member is absent, or one that can be passed over.
pub open spec fn lacks(map: Map<Seq<char>, JsonView>, name: Seq<char>) -> bool {
    !map.dom().contains(name) || map[name] is Null
}

/// Whether a member is a string.
pub open spec fn is_text(map: Map<Seq<char>, JsonView>, name: Seq<char>) -> bool {
    map.dom().contains(name) && map[name] is String
}

/// A frame whose members are of the right kinds is read as the frame that its tag names, and not
/// as an unknown one.
pub proof fn law_a_fitting_frame_is_typed(map: Map<Seq<char>, JsonView>, message: ServerMessage)
    requires
        message.read_from(JsonView::Object(map)),
        map.dom().contains("msg"@),
    ensures
        map["msg"@] == JsonView::String("connected"@) && is_text(map, "session"@)
            ==> message is Connected,
        map["msg"@] == JsonView::String("failed"@) && is_text(map, "version"@)
            ==> message is Failed,
        map["msg"@] == JsonView::String("ping"@) && (is_text(map, "id"@) || lacks(map, "id"@))
            ==> message is Ping,
        map["msg"@] == JsonView::String("pong"@) && (is_text(map, "id"@) || lacks(map, "id"@))
            ==> message is Pong,
        map["msg"@] == JsonView::String("result"@) && is_text(map, "id"@) && (lacks(
            map,
            "error"@,
        ) || DdpError::accepts(map["error"@])) ==> message is Result,
        map["msg"@] == JsonView::String("nosub"@) && is_text(map, "id"@) && (lacks(map, "error"@)
            || DdpError::accepts(map["error"@])) ==> message is Nosub,
        map["msg"@] == JsonView::String("removed"@) && is_text(map, "collection"@) && is_text(
            map,
            "id"@,
        ) ==> message is Removed,
        map["msg"@] == JsonView::String("added"@) && is_text(map, "collection"@) && is_text(
            map,
            "id"@,
        ) && (lacks(map, "fields"@) || map["fields"@] is Object) ==> message is Added,
        map["msg"@] == JsonView::String("changed"@) && is_text(map, "collection"@) && is_text(
            map,
            "id"@,
        ) && (lacks(map, "fields"@) || map["fields"@] is Object) && lacks(map, "cleared"@)
            ==> message is Changed,
        map["msg"@] == JsonView::String("addedBefore"@) && is_text(map, "collection"@) && is_text(
            map,
            "id"@,
        ) && (lacks(map, "fields"@) || map["fields"@] is Object) && (is_text(map, "before"@)
            || lacks(map, "before"@)) ==> message is AddedBefore,
        map["msg"@] == JsonView::String("movedBefore"@) && is_text(map, "collection"@) && is_text(
            map,
            "id"@,
        ) && (is_text(map, "before"@) || lacks(map, "before"@)) ==> message is MovedBefore,
        map["msg"@] == JsonView::String("error"@) && is_text(map, "reason"@) ==> message is Error,
        map["msg"@] == JsonView::String("ready"@) && map.dom().contains("subs"@) && Vec::<
            String,
        >::accepts(map["subs"@]) ==> message is Ready,
        map["msg"@] == JsonView::String("updated"@) && map.dom().contains("methods"@) && Vec::<
            String,
        >::accepts(map["methods"@]) ==> message is Updated,
{
    lemma_tags_differ();
    let j = JsonView::Object(map);
    assert(message is Unknown ==> !server_typed(j));
}

/// The tags differ: by their length, or by a character.
proof fn lemma_tags_differ()
    ensures
        "connected"@.len() == 9,
        "failed"@.len() == 6,
        "ping"@.len() == 4 && "ping"@[1] == 'i',
        "pong"@.len() == 4 && "pong"@[1] == 'o',
        "result"@.len() == 6 && "result"@[0] == 'r',
        "failed"@[0] == 'f',
        "updated"@.len() == 7 && "updated"@[0] == 'u',
        "nosub"@.len() == 5 && "nosub"@[0] == 'n',
        "ready"@.len() == 5 && "ready"@[0] == 'r',
        "added"@.len() == 5 && "added"@[0] == 'a',
        "error"@.len() == 5 && "error"@[0] == 'e',
        "changed"@.len() == 7 && "changed"@[0] == 'c',
        "removed"@.len() == 7 && "removed"@[0] == 'r',
        "addedBefore"@.len() == 11 && "addedBefore"@[0] == 'a',
        "movedBefore"@.len() == 11 && "movedBefore"@[0] == 'm',
{
    reveal_strlit("connected");
    reveal_strlit("failed");
    reveal_strlit("ping");
    reveal_strlit("pong");
    reveal_strlit("result");
    reveal_strlit("updated");
    reveal_strlit("nosub");
    reveal_strlit("ready");
    reveal_strlit("added");
    reveal_strlit("error");
    reveal_strlit("changed");
    reveal_strlit("removed");
    reveal_strlit("addedBefore");
    reveal_strlit("movedBefore");
}

/// The modelled tags are these fourteen and no others.
pub proof fn law_the_modelled_tags(tag: Seq<char>)
    ensures
        modelled(tag) <==> (tag == "connected"@ || tag == "failed"@ || tag == "ping"@ || tag
            == "pong"@ || tag == "result"@ || tag == "updated"@ || tag == "nosub"@ || tag
            == "ready"@ || tag == "added"@ || tag == "changed"@ || tag == "removed"@ || tag
            == "addedBefore"@ || tag == "movedBefore"@ || tag == "error"@),
{
}

/// What the client sends: the tag and the members of each frame, and no others.
pub proof fn law_client_frames_are_spelled(message: ClientMessage)
    ensures
        message.doc() is Object,
        ({
            let map = message.doc()->Object_0;
            match message {
                ClientMessage::Connect { version, support } => {
                    &&& has_member(map, "msg"@, JsonView::String("connect"@))
                    &&& has_member(map, "version"@, JsonView::String(version@))
                    &&& has_texts(map, "support"@, support@)
                },
                ClientMessage::Method { id, method, params } => {
                    &&& has_member(map, "msg"@, JsonView::String("method"@))
                    &&& has_member(map, "id"@, JsonView::String(id@))
                    &&& has_member(map, "method"@, JsonView::String(method@))
                    &&& map.dom().contains("params"@) <==> params@.len() > 0
                    &&& params@.len() > 0 ==> map["params"@] == params.doc()
                },
                ClientMessage::Sub { id, name, params } => {
                    &&& has_member(map, "msg"@, JsonView::String("sub"@))
                    &&& has_member(map, "id"@, JsonView::String(id@))
                    &&& has_member(map, "name"@, JsonView::String(name@))
                    &&& map.dom().contains("params"@) <==> params@.len() > 0
                    &&& params@.len() > 0 ==> map["params"@] == params.doc()
                },
                ClientMessage::Unsub { id } => {
                    &&& has_member(map, "msg"@, JsonView::String("unsub"@))
                    &&& has_member(map, "id"@, JsonView::String(id@))
                },
                ClientMessage::Ping { id } => {
                    &&& has_member(map, "msg"@, JsonView::String("ping"@))
                    &&& has_text(map, "id"@, id)
                },
                ClientMessage::Pong { id } => {
                    &&& has_member(map, "msg"@, JsonView::String("pong"@))
                    &&& has_text(map, "id"@, id)
                },
            }
        }),
{
    reveal(with);
    reveal(with_some);
    reveal_strlit("msg");
    reveal_strlit("version");
    reveal_strlit("support");
    reveal_strlit("id");
    reveal_strlit("method");
    reveal_strlit("name");
    reveal_strlit("params");
    assert("msg"@.len() == 3 && "id"@.len() == 2 && "name"@.len() == 4);
    assert("version"@.len() == 7 && "version"@[0] == 'v');
    assert("support"@.len() == 7 && "support"@[0] == 's');
    assert("method"@.len() == 6 && "method"@[0] == 'm');
    assert("params"@.len() == 6 && "params"@[0] == 'p');
}

/// Which members of an error say what.
pub proof fn law_errors_are_read_by_name(map: Map<Seq<char>, JsonView>, error: DdpError)
    requires
        error.read_from(JsonView::Object(map)),
    ensures
        map.dom().contains("error"@),
        match error.error {
            ErrorCode::String(s) => map["error"@] == JsonView::String(s@),
            ErrorCode::Number(_) => map["error"@] is Number,
        },
        has_text(map, "reason"@, error.reason),
        has_text(map, "message"@, error.message),
        has_text(map, "errorType"@, error.error_type),
        match error.is_client_safe {
            Some(b) => has_member(map, "isClientSafe"@, JsonView::Bool(b)),
            None => lacks(map, "isClientSafe"@),
        },
        has_value(map, "details"@, error.details),
{
}

/// A text says that the session is over where it contains one of the server's two phrases.
pub proof fn law_what_says_expired(text: String)
    ensures
        says_expired(Some(text)) <==> (holds(text@, "been logged out by the server"@) || holds(
            text@,
            "session has expired"@,
        )),
        !says_expired(None),
{
}

/// The tags of the frames that are modelled are all different.
proof fn lemma_tags_apart()
    ensures
        "connected"@ != "failed"@,
        "connected"@ != "ping"@,
        "connected"@ != "pong"@,
        "connected"@ != "result"@,
        "connected"@ != "updated"@,
        "connected"@ != "nosub"@,
        "connected"@ != "ready"@,
        "connected"@ != "added"@,
        "connected"@ != "changed"@,
        "connected"@ != "removed"@,
        "connected"@ != "addedBefore"@,
        "connected"@ != "movedBefore"@,
        "connected"@ != "error"@,
        "failed"@ != "ping"@,
        "failed"@ != "pong"@,
        "failed"@ != "result"@,
        "failed"@ != "updated"@,
        "failed"@ != "nosub"@,
        "failed"@ != "ready"@,
        "failed"@ != "added"@,
        "failed"@ != "changed"@,
        "failed"@ != "removed"@,
        "failed"@ != "addedBefore"@,
        "failed"@ != "movedBefore"@,
        "failed"@ != "error"@,
        "ping"@ != "pong"@,
        "ping"@ != "result"@,
        "ping"@ != "updated"@,
        "ping"@ != "nosub"@,
        "ping"@ != "ready"@,
        "ping"@ != "added"@,
        "ping"@ != "changed"@,
        "ping"@ != "removed"@,
        "ping"@ != "addedBefore"@,
        "ping"@ != "movedBefore"@,
        "ping"@ != "error"@,
        "pong"@ != "result"@,
        "pong"@ != "updated"@,
        "pong"@ != "nosub"@,
        "pong"@ != "ready"@,
        "pong"@ != "added"@,
        "pong"@ != "changed"@,
        "pong"@ != "removed"@,
        "pong"@ != "addedBefore"@,
        "pong"@ != "movedBefore"@,
        "pong"@ != "error"@,
        "result"@ != "updated"@,
        "result"@ != "nosub"@,
        "result"@ != "ready"@,
        "result"@ != "added"@,
        "result"@ != "changed"@,
        "result"@ != "removed"@,
        "result"@ != "addedBefore"@,
        "result"@ != "movedBefore"@,
        "result"@ != "error"@,
        "updated"@ != "nosub"@,
        "updated"@ != "ready"@,
        "updated"@ != "added"@,
        "updated"@ != "changed"@,
        "updated"@ != "removed"@,
        "updated"@ != "addedBefore"@,
        "updated"@ != "movedBefore"@,
        "updated"@ != "error"@,
        "nosub"@ != "ready"@,
        "nosub"@ != "added"@,
        "nosub"@ != "changed"@,
        "nosub"@ != "removed"@,
        "nosub"@ != "addedBefore"@,
        "nosub"@ != "movedBefore"@,
        "nosub"@ != "error"@,
        "ready"@ != "added"@,
        "ready"@ != "changed"@,
        "ready"@ != "removed"@,
        "ready"@ != "addedBefore"@,
        "ready"@ != "movedBefore"@,
        "ready"@ != "error"@,
        "added"@ != "changed"@,
        "added"@ != "removed"@,
        "added"@ != "addedBefore"@,
        "added"@ != "movedBefore"@,
        "added"@ != "error"@,
        "changed"@ != "removed"@,
        "changed"@ != "addedBefore"@,
        "changed"@ != "movedBefore"@,
        "changed"@ != "error"@,
        "removed"@ != "addedBefore"@,
        "removed"@ != "movedBefore"@,
        "removed"@ != "error"@,
        "addedBefore"@ != "movedBefore"@,
        "addedBefore"@ != "error"@,
        "movedBefore"@ != "error"@,
{
    reveal_strlit("connected");
    assert("connected"@.len() == 9);
    reveal_strlit("failed");
    assert("failed"@.len() == 6);
    reveal_strlit("ping");
    assert("ping"@.len() == 4);
    reveal_strlit("pong");
    assert("pong"@.len() == 4);
    reveal_strlit("result");
    assert("result"@.len() == 6);
    reveal_strlit("updated");
    assert("updated"@.len() == 7);
    reveal_strlit("nosub");
    assert("nosub"@.len() == 5);
    reveal_strlit("ready");
    assert("ready"@.len() == 5);
    reveal_strlit("added");
    assert("added"@.len() == 5);
    reveal_strlit("changed");
    assert("changed"@.len() == 7);
    reveal_strlit("removed");
    assert("removed"@.len() == 7);
    reveal_strlit("addedBefore");
    assert("addedBefore"@.len() == 11);
    reveal_strlit("movedBefore");
    assert("movedBefore"@.len() == 11);
    reveal_strlit("error");
    assert("error"@.len() == 5);
    assert("failed"@[0] != "result"@[0]);
    assert("ping"@[1] != "pong"@[1]);
    assert("updated"@[0] != "changed"@[0]);
    assert("updated"@[0] != "removed"@[0]);
    assert("nosub"@[0] != "ready"@[0]);
    assert("nosub"@[0] != "added"@[0]);
    assert("nosub"@[0] != "error"@[0]);
    assert("ready"@[0] != "added"@[0]);
    assert("ready"@[0] != "error"@[0]);
    assert("added"@[0] != "error"@[0]);
    assert("changed"@[0] != "removed"@[0]);
    assert("addedBefore"@[0] != "movedBefore"@[0]);
}

/// The members that a frame has for itself, by its tag; none of them may stand twice.
pub proof fn law_which_members_a_frame_has(name: Seq<char>)
    ensures
        own_member("connected"@, name) <==> (name == "msg"@ || name == "session"@),
        own_member("failed"@, name) <==> (name == "msg"@ || name == "version"@),
        own_member("ping"@, name) <==> (name == "msg"@ || name == "id"@),
        own_member("pong"@, name) <==> (name == "msg"@ || name == "id"@),
        own_member("result"@, name) <==> (name == "msg"@ || name == "id"@ || name == "result"@ || name == "error"@),
        own_member("updated"@, name) <==> (name == "msg"@ || name == "methods"@),
        own_member("nosub"@, name) <==> (name == "msg"@ || name == "id"@ || name == "error"@),
        own_member("ready"@, name) <==> (name == "msg"@ || name == "subs"@),
        own_member("added"@, name) <==> (name == "msg"@ || name == "collection"@ || name == "id"@ || name == "fields"@),
        own_member("changed"@, name) <==> (name == "msg"@ || name == "collection"@ || name == "id"@ || name == "fields"@ || name == "cleared"@),
        own_member("removed"@, name) <==> (name == "msg"@ || name == "collection"@ || name == "id"@),
        own_member("addedBefore"@, name) <==> (name == "msg"@ || name == "collection"@ || name == "id"@ || name == "fields"@ || name == "before"@),
        own_member("movedBefore"@, name) <==> (name == "msg"@ || name == "collection"@ || name == "id"@ || name == "before"@),
        own_member("error"@, name) <==> (name == "msg"@ || name == "reason"@ || name == "offendingMessage"@),
{
    lemma_tags_apart();
}

/// Two members clash where they have the same name and both belong to the frame, or both to the
/// error that it carries.
pub proof fn law_which_members_clash(
    j: JsonView,
    tag: Seq<char>,
    a: MemberModel,
    b: MemberModel,
)
    ensures
        clash(j, tag, a, b) ==> a.name == b.name && a.inner == b.inner,
        a.name == b.name && !a.inner && !b.inner ==> (clash(j, tag, a, b) <==> own_member(
            tag,
            a.name,
        )),
        a.name == b.name && a.inner && b.inner && a.parent == "error"@ && b.parent == "error"@
            && j is Object && (tag == "result"@ || tag == "nosub"@) ==> (clash(j, tag, a, b) <==> (
        a.name == "error"@ || a.name == "reason"@ || a.name == "message"@ || a.name
            == "errorType"@ || a.name == "isClientSafe"@ || a.name == "details"@)),
        a.inner && tag != "result"@ && tag != "nosub"@ ==> !clash(j, tag, a, b),
{
    lemma_tags_apart();
}

} // verus!
