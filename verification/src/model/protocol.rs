//! The frames of Meteor's Distributed Data Protocol, as Rocket.Chat speaks it.
use crate::model::json::{
    array_view, trunc_u64, view_get, view_i64, view_u64, Json, JsonMap, JsonView, Number,
};
use crate::model::json::{float_finite, float_negative, float_whole_u64, lemma_array_view};
use crate::model::members::{member_views, members, members_of, Member, MemberModel};
use crate::model::text::{parse_json, text_value};
use crate::model::wire::{
    has_default, has_optional, has_required, is_optional, is_required, is_shaped,
    optional, put, put_some, required, shaped, slot, slot_of, with, with_some, defaulted, Decode,
    Encode,
};
use crate::realtime::clock::{duration_nanos, from_millis};
use crate::text::{
    after_prefix, concat, contains, decimal_i64, decimal_text, holds, parse_i64, parsed_i64,
    str_eq, strip_prefix,
};
use core::time::Duration;
use vstd::prelude::*;
use vstd::string::*;

verus! {

/// The prefix of every stream's pseudo-collection.
pub const STREAM_PREFIX: &'static str = "stream-";

/// The document id that every stream event carries, except for presence.
pub const STREAM_DOCUMENT_ID: &'static str = "id";

/// The protocol version this library speaks.
pub const DDP_VERSION: &'static str = "1";

/// The tag of a frame: its `msg` member, where that is a string.
pub open spec fn tag_of(j: JsonView) -> Option<Seq<char>> {
    match slot(j, "msg"@, 0) {
        Some(JsonView::String(s)) => Some(s),
        _ => None,
    }
}

/// Whether this is what a list that may be absent reads as.
pub open spec fn is_list(list: Vec<Json>, v: Option<JsonView>) -> bool {
    match v {
        None => list@.len() == 0,
        Some(v) => list.read_from(v),
    }
}

/// Reads a list that may be absent.
fn list(j: &Json, key: &str, index: usize) -> (r: Option<Vec<Json>>)
    ensures
        r is Some <==> has_default::<Vec<Json>>(slot(j@, key@, index as int)),
        r matches Some(v) ==> is_list(v, slot(j@, key@, index as int)),
{
    match defaulted::<Vec<Json>>(j, key, index) {
        Some(Some(v)) => Some(v),
        Some(None) => Some(Vec::new()),
        None => None,
    }
}

/// An object with one more member, where the list is not empty.
pub open spec fn with_list(
    map: Map<Seq<char>, JsonView>,
    key: Seq<char>,
    list: Vec<Json>,
) -> Map<Seq<char>, JsonView> {
    if list@.len() == 0 {
        map
    } else {
        map.insert(key, list.doc())
    }
}

/// Writes a member, where the list is not empty.
fn put_list(map: &mut JsonMap, key: &str, list: &Vec<Json>)
    ensures
        final(map)@ == with_list(old(map)@, key@, *list),
{
    if list.len() > 0 {
        map.insert(key.to_owned(), list.encode());
    }
}

/// A frame that the client sends.
#[derive(Clone, Debug, PartialEq)]
pub enum ClientMessage {
    /// Opens a session, proposing a protocol version.
    Connect { version: String, support: Vec<String> },
    /// Calls a method.
    Method { id: String, method: String, params: Vec<Json> },
    /// Subscribes to a publication.
    Sub { id: String, name: String, params: Vec<Json> },
    /// Cancels a subscription.
    Unsub { id: String },
    /// Asks the server to answer.
    Ping { id: Option<String> },
    /// Answers the server's ping, echoing its id.
    Pong { id: Option<String> },
}

/// Whether a value is one of the modelled frames, with a payload that fits.
pub open spec fn client_typed(j: JsonView) -> bool {
    let tag = tag_of(j);
    if tag == Some("connect"@) {
        shaped(j, 3)
            && has_required::<String>(slot(j, "version"@, 1))
            && has_required::<Vec<String>>(slot(j, "support"@, 2))
    } else if tag == Some("method"@) {
        shaped(j, 4)
            && has_required::<String>(slot(j, "id"@, 1))
            && has_required::<String>(slot(j, "method"@, 2))
            && has_default::<Vec<Json>>(slot(j, "params"@, 3))
    } else if tag == Some("sub"@) {
        shaped(j, 4)
            && has_required::<String>(slot(j, "id"@, 1))
            && has_required::<String>(slot(j, "name"@, 2))
            && has_default::<Vec<Json>>(slot(j, "params"@, 3))
    } else if tag == Some("unsub"@) {
        shaped(j, 2)
            && has_required::<String>(slot(j, "id"@, 1))
    } else if tag == Some("ping"@) {
        shaped(j, 2)
            && has_optional::<String>(slot(j, "id"@, 1))
    } else if tag == Some("pong"@) {
        shaped(j, 2)
            && has_optional::<String>(slot(j, "id"@, 1))
    } else {
        false
    }
}

impl Decode for ClientMessage {
    open spec fn accepts(j: JsonView) -> bool {
        client_typed(j)
    }

    open spec fn read_from(&self, j: JsonView) -> bool {
        match *self {
            ClientMessage::Connect { version, support } => {
                &&& tag_of(j) == Some("connect"@)
                &&& client_typed(j)
                &&& is_required(version, slot(j, "version"@, 1))
                &&& is_required(support, slot(j, "support"@, 2))
            },
            ClientMessage::Method { id, method, params } => {
                &&& tag_of(j) == Some("method"@)
                &&& client_typed(j)
                &&& is_required(id, slot(j, "id"@, 1))
                &&& is_required(method, slot(j, "method"@, 2))
                &&& is_list(params, slot(j, "params"@, 3))
            },
            ClientMessage::Sub { id, name, params } => {
                &&& tag_of(j) == Some("sub"@)
                &&& client_typed(j)
                &&& is_required(id, slot(j, "id"@, 1))
                &&& is_required(name, slot(j, "name"@, 2))
                &&& is_list(params, slot(j, "params"@, 3))
            },
            ClientMessage::Unsub { id } => {
                &&& tag_of(j) == Some("unsub"@)
                &&& client_typed(j)
                &&& is_required(id, slot(j, "id"@, 1))
            },
            ClientMessage::Ping { id } => {
                &&& tag_of(j) == Some("ping"@)
                &&& client_typed(j)
                &&& is_optional(id, slot(j, "id"@, 1))
            },
            ClientMessage::Pong { id } => {
                &&& tag_of(j) == Some("pong"@)
                &&& client_typed(j)
                &&& is_optional(id, slot(j, "id"@, 1))
            },
        }
    }

    #[verifier::rlimit(60)]
    fn decode(j: &Json) -> (r: Option<ClientMessage>) {
        match ClientMessage::decode_typed(j) {
            Some(m) => Some(m),
            None => None,
        }
    }
}

impl ClientMessage {
    /// Reads one of the modelled frames.
    #[verifier::rlimit(60)]
    fn decode_typed(j: &Json) -> (r: Option<ClientMessage>)
        ensures
            r is Some <==> client_typed(j@),
            r matches Some(m) ==> m.read_from(j@),
    {
        let tag = match slot_of(j, "msg", 0) {
            Some(Json::String(s)) => s.as_str(),
            _ => {
                return None;
            },
        };
        if str_eq(tag, "connect") {
            ClientMessage::decode_connect(j)
        } else if str_eq(tag, "method") {
            ClientMessage::decode_method(j)
        } else if str_eq(tag, "sub") {
            ClientMessage::decode_sub(j)
        } else if str_eq(tag, "unsub") {
            ClientMessage::decode_unsub(j)
        } else if str_eq(tag, "ping") {
            ClientMessage::decode_ping(j)
        } else if str_eq(tag, "pong") {
            ClientMessage::decode_pong(j)
        } else {
            None
        }
    }

    fn decode_connect(j: &Json) -> (r: Option<ClientMessage>)
        requires
            tag_of(j@) == Some("connect"@),
        ensures
            r is Some <==> (shaped(j@, 3) && has_required::<String>(slot(j@, "version"@, 1)) && has_required::<Vec<String>>(slot(j@, "support"@, 2))),
            r matches Some(m) ==> m is Connect,
            r matches Some(ClientMessage::Connect { version, support }) ==> is_required(version, slot(j@, "version"@, 1)) && is_required(support, slot(j@, "support"@, 2)),
    {
        if !is_shaped(j, 3) {
            return None;
        }
        let version: String = match required(j, "version", 1) {
            Some(v) => v,
            None => {
                return None;
            },
        };
        let support: Vec<String> = match required(j, "support", 2) {
            Some(v) => v,
            None => {
                return None;
            },
        };
        Some(ClientMessage::Connect { version, support })
    }

    fn decode_method(j: &Json) -> (r: Option<ClientMessage>)
        requires
            tag_of(j@) == Some("method"@),
        ensures
            r is Some <==> (shaped(j@, 4) && has_required::<String>(slot(j@, "id"@, 1)) && has_required::<String>(slot(j@, "method"@, 2)) && has_default::<Vec<Json>>(slot(j@, "params"@, 3))),
            r matches Some(m) ==> m is Method,
            r matches Some(ClientMessage::Method { id, method, params }) ==> is_required(id, slot(j@, "id"@, 1)) && is_required(method, slot(j@, "method"@, 2)) && is_list(params, slot(j@, "params"@, 3)),
    {
        if !is_shaped(j, 4) {
            return None;
        }
        let id: String = match required(j, "id", 1) {
            Some(v) => v,
            None => {
                return None;
            },
        };
        let method: String = match required(j, "method", 2) {
            Some(v) => v,
            None => {
                return None;
            },
        };
        let params: Vec<Json> = match list(j, "params", 3) {
            Some(v) => v,
            None => {
                return None;
            },
        };
        Some(ClientMessage::Method { id, method, params })
    }

    fn decode_sub(j: &Json) -> (r: Option<ClientMessage>)
        requires
            tag_of(j@) == Some("sub"@),
        ensures
            r is Some <==> (shaped(j@, 4) && has_required::<String>(slot(j@, "id"@, 1)) && has_required::<String>(slot(j@, "name"@, 2)) && has_default::<Vec<Json>>(slot(j@, "params"@, 3))),
            r matches Some(m) ==> m is Sub,
            r matches Some(ClientMessage::Sub { id, name, params }) ==> is_required(id, slot(j@, "id"@, 1)) && is_required(name, slot(j@, "name"@, 2)) && is_list(params, slot(j@, "params"@, 3)),
    {
        if !is_shaped(j, 4) {
            return None;
        }
        let id: String = match required(j, "id", 1) {
            Some(v) => v,
            None => {
                return None;
            },
        };
        let name: String = match required(j, "name", 2) {
            Some(v) => v,
            None => {
                return None;
            },
        };
        let params: Vec<Json> = match list(j, "params", 3) {
            Some(v) => v,
            None => {
                return None;
            },
        };
        Some(ClientMessage::Sub { id, name, params })
    }

    fn decode_unsub(j: &Json) -> (r: Option<ClientMessage>)
        requires
            tag_of(j@) == Some("unsub"@),
        ensures
            r is Some <==> (shaped(j@, 2) && has_required::<String>(slot(j@, "id"@, 1))),
            r matches Some(m) ==> m is Unsub,
            r matches Some(ClientMessage::Unsub { id }) ==> is_required(id, slot(j@, "id"@, 1)),
    {
        if !is_shaped(j, 2) {
            return None;
        }
        let id: String = match required(j, "id", 1) {
            Some(v) => v,
            None => {
                return None;
            },
        };
        Some(ClientMessage::Unsub { id })
    }

    fn decode_ping(j: &Json) -> (r: Option<ClientMessage>)
        requires
            tag_of(j@) == Some("ping"@),
        ensures
            r is Some <==> (shaped(j@, 2) && has_optional::<String>(slot(j@, "id"@, 1))),
            r matches Some(m) ==> m is Ping,
            r matches Some(ClientMessage::Ping { id }) ==> is_optional(id, slot(j@, "id"@, 1)),
    {
        if !is_shaped(j, 2) {
            return None;
        }
        let id: Option<String> = match optional(j, "id", 1) {
            Some(v) => v,
            None => {
                return None;
            },
        };
        Some(ClientMessage::Ping { id })
    }

    fn decode_pong(j: &Json) -> (r: Option<ClientMessage>)
        requires
            tag_of(j@) == Some("pong"@),
        ensures
            r is Some <==> (shaped(j@, 2) && has_optional::<String>(slot(j@, "id"@, 1))),
            r matches Some(m) ==> m is Pong,
            r matches Some(ClientMessage::Pong { id }) ==> is_optional(id, slot(j@, "id"@, 1)),
    {
        if !is_shaped(j, 2) {
            return None;
        }
        let id: Option<String> = match optional(j, "id", 1) {
            Some(v) => v,
            None => {
                return None;
            },
        };
        Some(ClientMessage::Pong { id })
    }

}

impl Encode for ClientMessage {
    open spec fn doc(&self) -> JsonView {
        match *self {
            ClientMessage::Connect { version, support } => {
                let m = with(Map::empty(), "msg"@, JsonView::String("connect"@));
                let m = with(m, "version"@, version.doc());
                let m = with(m, "support"@, support.doc());
                JsonView::Object(m)
            },
            ClientMessage::Method { id, method, params } => {
                let m = with(Map::empty(), "msg"@, JsonView::String("method"@));
                let m = with(m, "id"@, id.doc());
                let m = with(m, "method"@, method.doc());
                let m = with_list(m, "params"@, params);
                JsonView::Object(m)
            },
            ClientMessage::Sub { id, name, params } => {
                let m = with(Map::empty(), "msg"@, JsonView::String("sub"@));
                let m = with(m, "id"@, id.doc());
                let m = with(m, "name"@, name.doc());
                let m = with_list(m, "params"@, params);
                JsonView::Object(m)
            },
            ClientMessage::Unsub { id } => {
                let m = with(Map::empty(), "msg"@, JsonView::String("unsub"@));
                let m = with(m, "id"@, id.doc());
                JsonView::Object(m)
            },
            ClientMessage::Ping { id } => {
                let m = with(Map::empty(), "msg"@, JsonView::String("ping"@));
                let m = with_some(m, "id"@, id);
                JsonView::Object(m)
            },
            ClientMessage::Pong { id } => {
                let m = with(Map::empty(), "msg"@, JsonView::String("pong"@));
                let m = with_some(m, "id"@, id);
                JsonView::Object(m)
            },
        }
    }

    fn encode(&self) -> (r: Json) {
        reveal(with);
        let mut map = JsonMap::new();
        match self {
            ClientMessage::Connect { version, support } => {
                map.insert("msg".to_owned(), Json::string("connect"));
                put(&mut map, "version", version);
                put(&mut map, "support", support);
            },
            ClientMessage::Method { id, method, params } => {
                map.insert("msg".to_owned(), Json::string("method"));
                put(&mut map, "id", id);
                put(&mut map, "method", method);
                put_list(&mut map, "params", params);
            },
            ClientMessage::Sub { id, name, params } => {
                map.insert("msg".to_owned(), Json::string("sub"));
                put(&mut map, "id", id);
                put(&mut map, "name", name);
                put_list(&mut map, "params", params);
            },
            ClientMessage::Unsub { id } => {
                map.insert("msg".to_owned(), Json::string("unsub"));
                put(&mut map, "id", id);
            },
            ClientMessage::Ping { id } => {
                map.insert("msg".to_owned(), Json::string("ping"));
                put_some(&mut map, "id", id);
            },
            ClientMessage::Pong { id } => {
                map.insert("msg".to_owned(), Json::string("pong"));
                put_some(&mut map, "id", id);
            },
        }
        Json::Object(map)
    }
}

/// A frame that the server sends.
#[derive(Clone, Debug, PartialEq)]
pub enum ServerMessage {
    /// The handshake succeeded.
    Connected { session: String },
    /// The proposed version is refused; another is offered.
    Failed { version: String },
    /// Asks for a pong with the same id.
    Ping { id: Option<String> },
    /// Answers a ping.
    Pong { id: Option<String> },
    /// The outcome of a method call.
    Result { id: String, result: Option<Json>, error: Option<DdpError> },
    /// The writes of these methods have been sent.
    Updated { methods: Vec<String> },
    /// A subscription ended: refused where there is an error, cancelled where there is
    /// none.
    Nosub { id: String, error: Option<DdpError> },
    /// These subscriptions are established.
    Ready { subs: Vec<String> },
    /// A document appeared.
    Added { collection: String, id: String, fields: Option<JsonMap> },
    /// A document changed. Every stream event arrives as one of these.
    Changed { collection: String, id: String, fields: Option<JsonMap>, cleared: Option<Vec<String>> },
    /// A document disappeared.
    Removed { collection: String, id: String },
    /// A document appeared in an ordered collection.
    AddedBefore { collection: String, id: String, fields: Option<JsonMap>, before: Option<String> },
    /// A document moved in an ordered collection.
    MovedBefore { collection: String, id: String, before: Option<String> },
    /// The server could not make sense of a frame.
    Error { reason: String, offending_message: Option<Json> },
    /// Any other frame, kept whole.
    Unknown(UnknownMessage),
}

/// Whether a value is one of the modelled frames, with a payload that fits.
pub open spec fn server_typed(j: JsonView) -> bool {
    let tag = tag_of(j);
    if tag == Some("connected"@) {
        shaped(j, 2)
            && has_required::<String>(slot(j, "session"@, 1))
    } else if tag == Some("failed"@) {
        shaped(j, 2)
            && has_required::<String>(slot(j, "version"@, 1))
    } else if tag == Some("ping"@) {
        shaped(j, 2)
            && has_optional::<String>(slot(j, "id"@, 1))
    } else if tag == Some("pong"@) {
        shaped(j, 2)
            && has_optional::<String>(slot(j, "id"@, 1))
    } else if tag == Some("result"@) {
        shaped(j, 4)
            && has_required::<String>(slot(j, "id"@, 1))
            && has_optional::<Json>(slot(j, "result"@, 2))
            && has_optional::<DdpError>(slot(j, "error"@, 3))
    } else if tag == Some("updated"@) {
        shaped(j, 2)
            && has_required::<Vec<String>>(slot(j, "methods"@, 1))
    } else if tag == Some("nosub"@) {
        shaped(j, 3)
            && has_required::<String>(slot(j, "id"@, 1))
            && has_optional::<DdpError>(slot(j, "error"@, 2))
    } else if tag == Some("ready"@) {
        shaped(j, 2)
            && has_required::<Vec<String>>(slot(j, "subs"@, 1))
    } else if tag == Some("added"@) {
        shaped(j, 4)
            && has_required::<String>(slot(j, "collection"@, 1))
            && has_required::<String>(slot(j, "id"@, 2))
            && has_optional::<JsonMap>(slot(j, "fields"@, 3))
    } else if tag == Some("changed"@) {
        shaped(j, 5)
            && has_required::<String>(slot(j, "collection"@, 1))
            && has_required::<String>(slot(j, "id"@, 2))
            && has_optional::<JsonMap>(slot(j, "fields"@, 3))
            && has_optional::<Vec<String>>(slot(j, "cleared"@, 4))
    } else if tag == Some("removed"@) {
        shaped(j, 3)
            && has_required::<String>(slot(j, "collection"@, 1))
            && has_required::<String>(slot(j, "id"@, 2))
    } else if tag == Some("addedBefore"@) {
        shaped(j, 5)
            && has_required::<String>(slot(j, "collection"@, 1))
            && has_required::<String>(slot(j, "id"@, 2))
            && has_optional::<JsonMap>(slot(j, "fields"@, 3))
            && has_optional::<String>(slot(j, "before"@, 4))
    } else if tag == Some("movedBefore"@) {
        shaped(j, 4)
            && has_required::<String>(slot(j, "collection"@, 1))
            && has_required::<String>(slot(j, "id"@, 2))
            && has_optional::<String>(slot(j, "before"@, 3))
    } else if tag == Some("error"@) {
        shaped(j, 3)
            && has_required::<String>(slot(j, "reason"@, 1))
            && has_optional::<Json>(slot(j, "offendingMessage"@, 2))
    } else {
        false
    }
}

impl Decode for ServerMessage {
    open spec fn accepts(j: JsonView) -> bool {
        server_typed(j) || j is Object
    }

    open spec fn read_from(&self, j: JsonView) -> bool {
        match *self {
            ServerMessage::Connected { session } => {
                &&& tag_of(j) == Some("connected"@)
                &&& server_typed(j)
                &&& is_required(session, slot(j, "session"@, 1))
            },
            ServerMessage::Failed { version } => {
                &&& tag_of(j) == Some("failed"@)
                &&& server_typed(j)
                &&& is_required(version, slot(j, "version"@, 1))
            },
            ServerMessage::Ping { id } => {
                &&& tag_of(j) == Some("ping"@)
                &&& server_typed(j)
                &&& is_optional(id, slot(j, "id"@, 1))
            },
            ServerMessage::Pong { id } => {
                &&& tag_of(j) == Some("pong"@)
                &&& server_typed(j)
                &&& is_optional(id, slot(j, "id"@, 1))
            },
            ServerMessage::Result { id, result, error } => {
                &&& tag_of(j) == Some("result"@)
                &&& server_typed(j)
                &&& is_required(id, slot(j, "id"@, 1))
                &&& is_optional(result, slot(j, "result"@, 2))
                &&& is_optional(error, slot(j, "error"@, 3))
            },
            ServerMessage::Updated { methods } => {
                &&& tag_of(j) == Some("updated"@)
                &&& server_typed(j)
                &&& is_required(methods, slot(j, "methods"@, 1))
            },
            ServerMessage::Nosub { id, error } => {
                &&& tag_of(j) == Some("nosub"@)
                &&& server_typed(j)
                &&& is_required(id, slot(j, "id"@, 1))
                &&& is_optional(error, slot(j, "error"@, 2))
            },
            ServerMessage::Ready { subs } => {
                &&& tag_of(j) == Some("ready"@)
                &&& server_typed(j)
                &&& is_required(subs, slot(j, "subs"@, 1))
            },
            ServerMessage::Added { collection, id, fields } => {
                &&& tag_of(j) == Some("added"@)
                &&& server_typed(j)
                &&& is_required(collection, slot(j, "collection"@, 1))
                &&& is_required(id, slot(j, "id"@, 2))
                &&& is_optional(fields, slot(j, "fields"@, 3))
            },
            ServerMessage::Changed { collection, id, fields, cleared } => {
                &&& tag_of(j) == Some("changed"@)
                &&& server_typed(j)
                &&& is_required(collection, slot(j, "collection"@, 1))
                &&& is_required(id, slot(j, "id"@, 2))
                &&& is_optional(fields, slot(j, "fields"@, 3))
                &&& is_optional(cleared, slot(j, "cleared"@, 4))
            },
            ServerMessage::Removed { collection, id } => {
                &&& tag_of(j) == Some("removed"@)
                &&& server_typed(j)
                &&& is_required(collection, slot(j, "collection"@, 1))
                &&& is_required(id, slot(j, "id"@, 2))
            },
            ServerMessage::AddedBefore { collection, id, fields, before } => {
                &&& tag_of(j) == Some("addedBefore"@)
                &&& server_typed(j)
                &&& is_required(collection, slot(j, "collection"@, 1))
                &&& is_required(id, slot(j, "id"@, 2))
                &&& is_optional(fields, slot(j, "fields"@, 3))
                &&& is_optional(before, slot(j, "before"@, 4))
            },
            ServerMessage::MovedBefore { collection, id, before } => {
                &&& tag_of(j) == Some("movedBefore"@)
                &&& server_typed(j)
                &&& is_required(collection, slot(j, "collection"@, 1))
                &&& is_required(id, slot(j, "id"@, 2))
                &&& is_optional(before, slot(j, "before"@, 3))
            },
            ServerMessage::Error { reason, offending_message } => {
                &&& tag_of(j) == Some("error"@)
                &&& server_typed(j)
                &&& is_required(reason, slot(j, "reason"@, 1))
                &&& is_optional(offending_message, slot(j, "offendingMessage"@, 2))
            },
            ServerMessage::Unknown(unknown) => !server_typed(j) && unknown.read_from(j),
        }
    }

    #[verifier::rlimit(60)]
    fn decode(j: &Json) -> (r: Option<ServerMessage>) {
        match ServerMessage::decode_typed(j) {
            Some(m) => Some(m),
            None => match UnknownMessage::decode(j) {
                Some(unknown) => Some(ServerMessage::Unknown(unknown)),
                None => None,
            },
        }
    }
}

impl ServerMessage {
    /// Reads one of the modelled frames.
    #[verifier::rlimit(60)]
    fn decode_typed(j: &Json) -> (r: Option<ServerMessage>)
        ensures
            r is Some <==> server_typed(j@),
            r matches Some(m) ==> m.read_from(j@) && m !is Unknown,
    {
        let tag = match slot_of(j, "msg", 0) {
            Some(Json::String(s)) => s.as_str(),
            _ => {
                return None;
            },
        };
        if str_eq(tag, "connected") {
            ServerMessage::decode_connected(j)
        } else if str_eq(tag, "failed") {
            ServerMessage::decode_failed(j)
        } else if str_eq(tag, "ping") {
            ServerMessage::decode_ping(j)
        } else if str_eq(tag, "pong") {
            ServerMessage::decode_pong(j)
        } else if str_eq(tag, "result") {
            ServerMessage::decode_result(j)
        } else if str_eq(tag, "updated") {
            ServerMessage::decode_updated(j)
        } else if str_eq(tag, "nosub") {
            ServerMessage::decode_nosub(j)
        } else if str_eq(tag, "ready") {
            ServerMessage::decode_ready(j)
        } else if str_eq(tag, "added") {
            ServerMessage::decode_added(j)
        } else if str_eq(tag, "changed") {
            ServerMessage::decode_changed(j)
        } else if str_eq(tag, "removed") {
            ServerMessage::decode_removed(j)
        } else if str_eq(tag, "addedBefore") {
            ServerMessage::decode_added_before(j)
        } else if str_eq(tag, "movedBefore") {
            ServerMessage::decode_moved_before(j)
        } else if str_eq(tag, "error") {
            ServerMessage::decode_error(j)
        } else {
            None
        }
    }

    fn decode_connected(j: &Json) -> (r: Option<ServerMessage>)
        requires
            tag_of(j@) == Some("connected"@),
        ensures
            r is Some <==> (shaped(j@, 2) && has_required::<String>(slot(j@, "session"@, 1))),
            r matches Some(m) ==> m is Connected,
            r matches Some(ServerMessage::Connected { session }) ==> is_required(session, slot(j@, "session"@, 1)),
    {
        if !is_shaped(j, 2) {
            return None;
        }
        let session: String = match required(j, "session", 1) {
            Some(v) => v,
            None => {
                return None;
            },
        };
        Some(ServerMessage::Connected { session })
    }

    fn decode_failed(j: &Json) -> (r: Option<ServerMessage>)
        requires
            tag_of(j@) == Some("failed"@),
        ensures
            r is Some <==> (shaped(j@, 2) && has_required::<String>(slot(j@, "version"@, 1))),
            r matches Some(m) ==> m is Failed,
            r matches Some(ServerMessage::Failed { version }) ==> is_required(version, slot(j@, "version"@, 1)),
    {
        if !is_shaped(j, 2) {
            return None;
        }
        let version: String = match required(j, "version", 1) {
            Some(v) => v,
            None => {
                return None;
            },
        };
        Some(ServerMessage::Failed { version })
    }

    fn decode_ping(j: &Json) -> (r: Option<ServerMessage>)
        requires
            tag_of(j@) == Some("ping"@),
        ensures
            r is Some <==> (shaped(j@, 2) && has_optional::<String>(slot(j@, "id"@, 1))),
            r matches Some(m) ==> m is Ping,
            r matches Some(ServerMessage::Ping { id }) ==> is_optional(id, slot(j@, "id"@, 1)),
    {
        if !is_shaped(j, 2) {
            return None;
        }
        let id: Option<String> = match optional(j, "id", 1) {
            Some(v) => v,
            None => {
                return None;
            },
        };
        Some(ServerMessage::Ping { id })
    }

    fn decode_pong(j: &Json) -> (r: Option<ServerMessage>)
        requires
            tag_of(j@) == Some("pong"@),
        ensures
            r is Some <==> (shaped(j@, 2) && has_optional::<String>(slot(j@, "id"@, 1))),
            r matches Some(m) ==> m is Pong,
            r matches Some(ServerMessage::Pong { id }) ==> is_optional(id, slot(j@, "id"@, 1)),
    {
        if !is_shaped(j, 2) {
            return None;
        }
        let id: Option<String> = match optional(j, "id", 1) {
            Some(v) => v,
            None => {
                return None;
            },
        };
        Some(ServerMessage::Pong { id })
    }

    fn decode_result(j: &Json) -> (r: Option<ServerMessage>)
        requires
            tag_of(j@) == Some("result"@),
        ensures
            r is Some <==> (shaped(j@, 4) && has_required::<String>(slot(j@, "id"@, 1)) && has_optional::<Json>(slot(j@, "result"@, 2)) && has_optional::<DdpError>(slot(j@, "error"@, 3))),
            r matches Some(m) ==> m is Result,
            r matches Some(ServerMessage::Result { id, result, error }) ==> is_required(id, slot(j@, "id"@, 1)) && is_optional(result, slot(j@, "result"@, 2)) && is_optional(error, slot(j@, "error"@, 3)),
    {
        if !is_shaped(j, 4) {
            return None;
        }
        let id: String = match required(j, "id", 1) {
            Some(v) => v,
            None => {
                return None;
            },
        };
        let result: Option<Json> = match optional(j, "result", 2) {
            Some(v) => v,
            None => {
                return None;
            },
        };
        let error: Option<DdpError> = match optional(j, "error", 3) {
            Some(v) => v,
            None => {
                return None;
            },
        };
        Some(ServerMessage::Result { id, result, error })
    }

    fn decode_updated(j: &Json) -> (r: Option<ServerMessage>)
        requires
            tag_of(j@) == Some("updated"@),
        ensures
            r is Some <==> (shaped(j@, 2) && has_required::<Vec<String>>(slot(j@, "methods"@, 1))),
            r matches Some(m) ==> m is Updated,
            r matches Some(ServerMessage::Updated { methods }) ==> is_required(methods, slot(j@, "methods"@, 1)),
    {
        if !is_shaped(j, 2) {
            return None;
        }
        let methods: Vec<String> = match required(j, "methods", 1) {
            Some(v) => v,
            None => {
                return None;
            },
        };
        Some(ServerMessage::Updated { methods })
    }

    fn decode_nosub(j: &Json) -> (r: Option<ServerMessage>)
        requires
            tag_of(j@) == Some("nosub"@),
        ensures
            r is Some <==> (shaped(j@, 3) && has_required::<String>(slot(j@, "id"@, 1)) && has_optional::<DdpError>(slot(j@, "error"@, 2))),
            r matches Some(m) ==> m is Nosub,
            r matches Some(ServerMessage::Nosub { id, error }) ==> is_required(id, slot(j@, "id"@, 1)) && is_optional(error, slot(j@, "error"@, 2)),
    {
        if !is_shaped(j, 3) {
            return None;
        }
        let id: String = match required(j, "id", 1) {
            Some(v) => v,
            None => {
                return None;
            },
        };
        let error: Option<DdpError> = match optional(j, "error", 2) {
            Some(v) => v,
            None => {
                return None;
            },
        };
        Some(ServerMessage::Nosub { id, error })
    }

    fn decode_ready(j: &Json) -> (r: Option<ServerMessage>)
        requires
            tag_of(j@) == Some("ready"@),
        ensures
            r is Some <==> (shaped(j@, 2) && has_required::<Vec<String>>(slot(j@, "subs"@, 1))),
            r matches Some(m) ==> m is Ready,
            r matches Some(ServerMessage::Ready { subs }) ==> is_required(subs, slot(j@, "subs"@, 1)),
    {
        if !is_shaped(j, 2) {
            return None;
        }
        let subs: Vec<String> = match required(j, "subs", 1) {
            Some(v) => v,
            None => {
                return None;
            },
        };
        Some(ServerMessage::Ready { subs })
    }

    fn decode_added(j: &Json) -> (r: Option<ServerMessage>)
        requires
            tag_of(j@) == Some("added"@),
        ensures
            r is Some <==> (shaped(j@, 4) && has_required::<String>(slot(j@, "collection"@, 1)) && has_required::<String>(slot(j@, "id"@, 2)) && has_optional::<JsonMap>(slot(j@, "fields"@, 3))),
            r matches Some(m) ==> m is Added,
            r matches Some(ServerMessage::Added { collection, id, fields }) ==> is_required(collection, slot(j@, "collection"@, 1)) && is_required(id, slot(j@, "id"@, 2)) && is_optional(fields, slot(j@, "fields"@, 3)),
    {
        if !is_shaped(j, 4) {
            return None;
        }
        let collection: String = match required(j, "collection", 1) {
            Some(v) => v,
            None => {
                return None;
            },
        };
        let id: String = match required(j, "id", 2) {
            Some(v) => v,
            None => {
                return None;
            },
        };
        let fields: Option<JsonMap> = match optional(j, "fields", 3) {
            Some(v) => v,
            None => {
                return None;
            },
        };
        Some(ServerMessage::Added { collection, id, fields })
    }

    fn decode_changed(j: &Json) -> (r: Option<ServerMessage>)
        requires
            tag_of(j@) == Some("changed"@),
        ensures
            r is Some <==> (shaped(j@, 5) && has_required::<String>(slot(j@, "collection"@, 1)) && has_required::<String>(slot(j@, "id"@, 2)) && has_optional::<JsonMap>(slot(j@, "fields"@, 3)) && has_optional::<Vec<String>>(slot(j@, "cleared"@, 4))),
            r matches Some(m) ==> m is Changed,
            r matches Some(ServerMessage::Changed { collection, id, fields, cleared }) ==> is_required(collection, slot(j@, "collection"@, 1)) && is_required(id, slot(j@, "id"@, 2)) && is_optional(fields, slot(j@, "fields"@, 3)) && is_optional(cleared, slot(j@, "cleared"@, 4)),
    {
        if !is_shaped(j, 5) {
            return None;
        }
        let collection: String = match required(j, "collection", 1) {
            Some(v) => v,
            None => {
                return None;
            },
        };
        let id: String = match required(j, "id", 2) {
            Some(v) => v,
            None => {
                return None;
            },
        };
        let fields: Option<JsonMap> = match optional(j, "fields", 3) {
            Some(v) => v,
            None => {
                return None;
            },
        };
        let cleared: Option<Vec<String>> = match optional(j, "cleared", 4) {
            Some(v) => v,
            None => {
                return None;
            },
        };
        Some(ServerMessage::Changed { collection, id, fields, cleared })
    }

    fn decode_removed(j: &Json) -> (r: Option<ServerMessage>)
        requires
            tag_of(j@) == Some("removed"@),
        ensures
            r is Some <==> (shaped(j@, 3) && has_required::<String>(slot(j@, "collection"@, 1)) && has_required::<String>(slot(j@, "id"@, 2))),
            r matches Some(m) ==> m is Removed,
            r matches Some(ServerMessage::Removed { collection, id }) ==> is_required(collection, slot(j@, "collection"@, 1)) && is_required(id, slot(j@, "id"@, 2)),
    {
        if !is_shaped(j, 3) {
            return None;
        }
        let collection: String = match required(j, "collection", 1) {
            Some(v) => v,
            None => {
                return None;
            },
        };
        let id: String = match required(j, "id", 2) {
            Some(v) => v,
            None => {
                return None;
            },
        };
        Some(ServerMessage::Removed { collection, id })
    }

    fn decode_added_before(j: &Json) -> (r: Option<ServerMessage>)
        requires
            tag_of(j@) == Some("addedBefore"@),
        ensures
            r is Some <==> (shaped(j@, 5) && has_required::<String>(slot(j@, "collection"@, 1)) && has_required::<String>(slot(j@, "id"@, 2)) && has_optional::<JsonMap>(slot(j@, "fields"@, 3)) && has_optional::<String>(slot(j@, "before"@, 4))),
            r matches Some(m) ==> m is AddedBefore,
            r matches Some(ServerMessage::AddedBefore { collection, id, fields, before }) ==> is_required(collection, slot(j@, "collection"@, 1)) && is_required(id, slot(j@, "id"@, 2)) && is_optional(fields, slot(j@, "fields"@, 3)) && is_optional(before, slot(j@, "before"@, 4)),
    {
        if !is_shaped(j, 5) {
            return None;
        }
        let collection: String = match required(j, "collection", 1) {
            Some(v) => v,
            None => {
                return None;
            },
        };
        let id: String = match required(j, "id", 2) {
            Some(v) => v,
            None => {
                return None;
            },
        };
        let fields: Option<JsonMap> = match optional(j, "fields", 3) {
            Some(v) => v,
            None => {
                return None;
            },
        };
        let before: Option<String> = match optional(j, "before", 4) {
            Some(v) => v,
            None => {
                return None;
            },
        };
        Some(ServerMessage::AddedBefore { collection, id, fields, before })
    }

    fn decode_moved_before(j: &Json) -> (r: Option<ServerMessage>)
        requires
            tag_of(j@) == Some("movedBefore"@),
        ensures
            r is Some <==> (shaped(j@, 4) && has_required::<String>(slot(j@, "collection"@, 1)) && has_required::<String>(slot(j@, "id"@, 2)) && has_optional::<String>(slot(j@, "before"@, 3))),
            r matches Some(m) ==> m is MovedBefore,
            r matches Some(ServerMessage::MovedBefore { collection, id, before }) ==> is_required(collection, slot(j@, "collection"@, 1)) && is_required(id, slot(j@, "id"@, 2)) && is_optional(before, slot(j@, "before"@, 3)),
    {
        if !is_shaped(j, 4) {
            return None;
        }
        let collection: String = match required(j, "collection", 1) {
            Some(v) => v,
            None => {
                return None;
            },
        };
        let id: String = match required(j, "id", 2) {
            Some(v) => v,
            None => {
                return None;
            },
        };
        let before: Option<String> = match optional(j, "before", 3) {
            Some(v) => v,
            None => {
                return None;
            },
        };
        Some(ServerMessage::MovedBefore { collection, id, before })
    }

    fn decode_error(j: &Json) -> (r: Option<ServerMessage>)
        requires
            tag_of(j@) == Some("error"@),
        ensures
            r is Some <==> (shaped(j@, 3) && has_required::<String>(slot(j@, "reason"@, 1)) && has_optional::<Json>(slot(j@, "offendingMessage"@, 2))),
            r matches Some(m) ==> m is Error,
            r matches Some(ServerMessage::Error { reason, offending_message }) ==> is_required(reason, slot(j@, "reason"@, 1)) && is_optional(offending_message, slot(j@, "offendingMessage"@, 2)),
    {
        if !is_shaped(j, 3) {
            return None;
        }
        let reason: String = match required(j, "reason", 1) {
            Some(v) => v,
            None => {
                return None;
            },
        };
        let offending_message: Option<Json> = match optional(j, "offendingMessage", 2) {
            Some(v) => v,
            None => {
                return None;
            },
        };
        Some(ServerMessage::Error { reason, offending_message })
    }

}

impl Encode for ServerMessage {
    open spec fn doc(&self) -> JsonView {
        match *self {
            ServerMessage::Connected { session } => {
                let m = with(Map::empty(), "msg"@, JsonView::String("connected"@));
                let m = with(m, "session"@, session.doc());
                JsonView::Object(m)
            },
            ServerMessage::Failed { version } => {
                let m = with(Map::empty(), "msg"@, JsonView::String("failed"@));
                let m = with(m, "version"@, version.doc());
                JsonView::Object(m)
            },
            ServerMessage::Ping { id } => {
                let m = with(Map::empty(), "msg"@, JsonView::String("ping"@));
                let m = with_some(m, "id"@, id);
                JsonView::Object(m)
            },
            ServerMessage::Pong { id } => {
                let m = with(Map::empty(), "msg"@, JsonView::String("pong"@));
                let m = with_some(m, "id"@, id);
                JsonView::Object(m)
            },
            ServerMessage::Result { id, result, error } => {
                let m = with(Map::empty(), "msg"@, JsonView::String("result"@));
                let m = with(m, "id"@, id.doc());
                let m = with_some(m, "result"@, result);
                let m = with_some(m, "error"@, error);
                JsonView::Object(m)
            },
            ServerMessage::Updated { methods } => {
                let m = with(Map::empty(), "msg"@, JsonView::String("updated"@));
                let m = with(m, "methods"@, methods.doc());
                JsonView::Object(m)
            },
            ServerMessage::Nosub { id, error } => {
                let m = with(Map::empty(), "msg"@, JsonView::String("nosub"@));
                let m = with(m, "id"@, id.doc());
                let m = with_some(m, "error"@, error);
                JsonView::Object(m)
            },
            ServerMessage::Ready { subs } => {
                let m = with(Map::empty(), "msg"@, JsonView::String("ready"@));
                let m = with(m, "subs"@, subs.doc());
                JsonView::Object(m)
            },
            ServerMessage::Added { collection, id, fields } => {
                let m = with(Map::empty(), "msg"@, JsonView::String("added"@));
                let m = with(m, "collection"@, collection.doc());
                let m = with(m, "id"@, id.doc());
                let m = with_some(m, "fields"@, fields);
                JsonView::Object(m)
            },
            ServerMessage::Changed { collection, id, fields, cleared } => {
                let m = with(Map::empty(), "msg"@, JsonView::String("changed"@));
                let m = with(m, "collection"@, collection.doc());
                let m = with(m, "id"@, id.doc());
                let m = with_some(m, "fields"@, fields);
                let m = with_some(m, "cleared"@, cleared);
                JsonView::Object(m)
            },
            ServerMessage::Removed { collection, id } => {
                let m = with(Map::empty(), "msg"@, JsonView::String("removed"@));
                let m = with(m, "collection"@, collection.doc());
                let m = with(m, "id"@, id.doc());
                JsonView::Object(m)
            },
            ServerMessage::AddedBefore { collection, id, fields, before } => {
                let m = with(Map::empty(), "msg"@, JsonView::String("addedBefore"@));
                let m = with(m, "collection"@, collection.doc());
                let m = with(m, "id"@, id.doc());
                let m = with_some(m, "fields"@, fields);
                let m = with_some(m, "before"@, before);
                JsonView::Object(m)
            },
            ServerMessage::MovedBefore { collection, id, before } => {
                let m = with(Map::empty(), "msg"@, JsonView::String("movedBefore"@));
                let m = with(m, "collection"@, collection.doc());
                let m = with(m, "id"@, id.doc());
                let m = with_some(m, "before"@, before);
                JsonView::Object(m)
            },
            ServerMessage::Error { reason, offending_message } => {
                let m = with(Map::empty(), "msg"@, JsonView::String("error"@));
                let m = with(m, "reason"@, reason.doc());
                let m = with_some(m, "offendingMessage"@, offending_message);
                JsonView::Object(m)
            },
            ServerMessage::Unknown(unknown) => unknown.doc(),
        }
    }

    fn encode(&self) -> (r: Json) {
        reveal(with);
        let mut map = JsonMap::new();
        match self {
            ServerMessage::Connected { session } => {
                map.insert("msg".to_owned(), Json::string("connected"));
                put(&mut map, "session", session);
            },
            ServerMessage::Failed { version } => {
                map.insert("msg".to_owned(), Json::string("failed"));
                put(&mut map, "version", version);
            },
            ServerMessage::Ping { id } => {
                map.insert("msg".to_owned(), Json::string("ping"));
                put_some(&mut map, "id", id);
            },
            ServerMessage::Pong { id } => {
                map.insert("msg".to_owned(), Json::string("pong"));
                put_some(&mut map, "id", id);
            },
            ServerMessage::Result { id, result, error } => {
                map.insert("msg".to_owned(), Json::string("result"));
                put(&mut map, "id", id);
                put_some(&mut map, "result", result);
                put_some(&mut map, "error", error);
            },
            ServerMessage::Updated { methods } => {
                map.insert("msg".to_owned(), Json::string("updated"));
                put(&mut map, "methods", methods);
            },
            ServerMessage::Nosub { id, error } => {
                map.insert("msg".to_owned(), Json::string("nosub"));
                put(&mut map, "id", id);
                put_some(&mut map, "error", error);
            },
            ServerMessage::Ready { subs } => {
                map.insert("msg".to_owned(), Json::string("ready"));
                put(&mut map, "subs", subs);
            },
            ServerMessage::Added { collection, id, fields } => {
                map.insert("msg".to_owned(), Json::string("added"));
                put(&mut map, "collection", collection);
                put(&mut map, "id", id);
                put_some(&mut map, "fields", fields);
            },
            ServerMessage::Changed { collection, id, fields, cleared } => {
                map.insert("msg".to_owned(), Json::string("changed"));
                put(&mut map, "collection", collection);
                put(&mut map, "id", id);
                put_some(&mut map, "fields", fields);
                put_some(&mut map, "cleared", cleared);
            },
            ServerMessage::Removed { collection, id } => {
                map.insert("msg".to_owned(), Json::string("removed"));
                put(&mut map, "collection", collection);
                put(&mut map, "id", id);
            },
            ServerMessage::AddedBefore { collection, id, fields, before } => {
                map.insert("msg".to_owned(), Json::string("addedBefore"));
                put(&mut map, "collection", collection);
                put(&mut map, "id", id);
                put_some(&mut map, "fields", fields);
                put_some(&mut map, "before", before);
            },
            ServerMessage::MovedBefore { collection, id, before } => {
                map.insert("msg".to_owned(), Json::string("movedBefore"));
                put(&mut map, "collection", collection);
                put(&mut map, "id", id);
                put_some(&mut map, "before", before);
            },
            ServerMessage::Error { reason, offending_message } => {
                map.insert("msg".to_owned(), Json::string("error"));
                put(&mut map, "reason", reason);
                put_some(&mut map, "offendingMessage", offending_message);
            },
            ServerMessage::Unknown(unknown) => {
                return unknown.encode();
            },
        }
        Json::Object(map)
    }
}

impl ClientMessage {
    /// The opening frame.
    pub fn connect() -> (r: ClientMessage)
        ensures
            r matches ClientMessage::Connect { version, support } && version@ == "1"@
                && support@.len() == 1 && support@[0]@ == "1"@,
    {
        let mut support: Vec<String> = Vec::new();
        support.push(DDP_VERSION.to_owned());
        ClientMessage::Connect { version: DDP_VERSION.to_owned(), support }
    }

    /// A method call.
    pub fn method(id: String, method: String, params: Vec<Json>) -> (r: ClientMessage)
        ensures
            r == (ClientMessage::Method { id, method, params }),
    {
        ClientMessage::Method { id, method, params }
    }

    /// A subscription.
    pub fn sub(id: String, name: String, params: Vec<Json>) -> (r: ClientMessage)
        ensures
            r == (ClientMessage::Sub { id, name, params }),
    {
        ClientMessage::Sub { id, name, params }
    }

    /// The id that the server's answer will carry.
    pub open spec fn answer_id(&self) -> Option<Seq<char>> {
        match *self {
            ClientMessage::Method { id, .. } => Some(id@),
            ClientMessage::Sub { id, .. } => Some(id@),
            ClientMessage::Unsub { id } => Some(id@),
            ClientMessage::Ping { id: Some(id) } => Some(id@),
            ClientMessage::Pong { id: Some(id) } => Some(id@),
            _ => None,
        }
    }

    /// The id that the server's answer will carry.
    pub fn id(&self) -> (r: Option<&str>)
        ensures
            match r {
                Some(id) => self.answer_id() == Some(id@),
                None => self.answer_id() is None,
            },
    {
        match self {
            ClientMessage::Method { id, .. } => Some(id.as_str()),
            ClientMessage::Sub { id, .. } => Some(id.as_str()),
            ClientMessage::Unsub { id } => Some(id.as_str()),
            ClientMessage::Ping { id: Some(id) } => Some(id.as_str()),
            ClientMessage::Pong { id: Some(id) } => Some(id.as_str()),
            _ => None,
        }
    }
}

/// A frame that no other variant describes.
#[derive(Clone, Debug, PartialEq)]
pub struct UnknownMessage {
    /// The tag, where the frame has one that is a string.
    pub msg: Option<String>,
    /// Every other member.
    pub rest: JsonMap,
}

/// Two objects one over the other: the second's members win.
pub open spec fn over(
    base: Map<Seq<char>, JsonView>,
    top: Map<Seq<char>, JsonView>,
) -> Map<Seq<char>, JsonView> {
    base.union_prefer_right(top)
}

impl Default for UnknownMessage {
    fn default() -> (r: UnknownMessage)
        ensures
            r.msg is None,
            r.rest@ == Map::<Seq<char>, JsonView>::empty(),
    {
        UnknownMessage { msg: None, rest: JsonMap::new() }
    }
}

impl Decode for UnknownMessage {
    open spec fn accepts(j: JsonView) -> bool {
        j is Object
    }

    open spec fn read_from(&self, j: JsonView) -> bool {
        match j {
            JsonView::Object(map) => match view_get(j, "msg"@) {
                Some(JsonView::String(s)) => self.msg is Some && self.msg->0@ == s && self.rest@
                    == map.remove("msg"@),
                _ => self.msg is None && self.rest@ == map,
            },
            _ => false,
        }
    }

    fn decode(j: &Json) -> (r: Option<UnknownMessage>) {
        match j {
            Json::Object(map) => {
                let mut rest = map.dup();
                match map.get("msg") {
                    Some(Json::String(s)) => {
                        let msg = s.clone();
                        let _ = rest.remove("msg");
                        Some(UnknownMessage { msg: Some(msg), rest })
                    },
                    _ => Some(UnknownMessage { msg: None, rest }),
                }
            },
            _ => None,
        }
    }
}

impl Encode for UnknownMessage {
    open spec fn doc(&self) -> JsonView {
        JsonView::Object(
            over(
                match self.msg {
                    Some(msg) => Map::empty().insert("msg"@, JsonView::String(msg@)),
                    None => Map::empty(),
                },
                self.rest@,
            ),
        )
    }

    fn encode(&self) -> (r: Json) {
        let mut map = self.rest.dup();
        match &self.msg {
            Some(msg) => {
                if map.get("msg").is_none() {
                    map.insert("msg".to_owned(), Json::string(msg.as_str()));
                }
            },
            None => {},
        }
        proof {
            assert(map@ =~= (self.doc()->Object_0));
        }
        Json::Object(map)
    }
}

/// Whether a tag is one of the modelled frames.
pub open spec fn modelled(tag: Seq<char>) -> bool {
    ||| tag == "connected"@
    ||| tag == "failed"@
    ||| tag == "ping"@
    ||| tag == "pong"@
    ||| tag == "result"@
    ||| tag == "updated"@
    ||| tag == "nosub"@
    ||| tag == "ready"@
    ||| tag == "added"@
    ||| tag == "changed"@
    ||| tag == "removed"@
    ||| tag == "addedBefore"@
    ||| tag == "movedBefore"@
    ||| tag == "error"@
}

/// Whether a frame with that tag has a member of that name.
pub open spec fn own_member(tag: Seq<char>, name: Seq<char>) -> bool {
    ||| name == "msg"@
    ||| if tag == "connected"@ {
        name == "session"@
    } else if tag == "failed"@ {
        name == "version"@
    } else if tag == "ping"@ || tag == "pong"@ {
        name == "id"@
    } else if tag == "result"@ {
        name == "id"@ || name == "result"@ || name == "error"@
    } else if tag == "updated"@ {
        name == "methods"@
    } else if tag == "nosub"@ {
        name == "id"@ || name == "error"@
    } else if tag == "ready"@ {
        name == "subs"@
    } else if tag == "added"@ {
        name == "collection"@ || name == "id"@ || name == "fields"@
    } else if tag == "changed"@ {
        name == "collection"@ || name == "id"@ || name == "fields"@ || name == "cleared"@
    } else if tag == "removed"@ {
        name == "collection"@ || name == "id"@
    } else if tag == "addedBefore"@ {
        name == "collection"@ || name == "id"@ || name == "fields"@ || name == "before"@
    } else if tag == "movedBefore"@ {
        name == "collection"@ || name == "id"@ || name == "before"@
    } else if tag == "error"@ {
        name == "reason"@ || name == "offendingMessage"@
    } else {
        false
    }
}

/// Whether a frame with that tag has a member of that name.
fn is_own_member(tag: &str, name: &str) -> (r: bool)
    ensures
        r == own_member(tag@, name@),
{
    if str_eq(name, "msg") {
        true
    } else if str_eq(tag, "connected") {
        str_eq(name, "session")
    } else if str_eq(tag, "failed") {
        str_eq(name, "version")
    } else if str_eq(tag, "ping") || str_eq(tag, "pong") {
        str_eq(name, "id")
    } else if str_eq(tag, "result") {
        str_eq(name, "id") || str_eq(name, "result") || str_eq(name, "error")
    } else if str_eq(tag, "updated") {
        str_eq(name, "methods")
    } else if str_eq(tag, "nosub") {
        str_eq(name, "id") || str_eq(name, "error")
    } else if str_eq(tag, "ready") {
        str_eq(name, "subs")
    } else if str_eq(tag, "added") {
        str_eq(name, "collection") || str_eq(name, "id") || str_eq(name, "fields")
    } else if str_eq(tag, "changed") {
        str_eq(name, "collection") || str_eq(name, "id") || str_eq(name, "fields") || str_eq(
            name,
            "cleared",
        )
    } else if str_eq(tag, "removed") {
        str_eq(name, "collection") || str_eq(name, "id")
    } else if str_eq(tag, "addedBefore") {
        str_eq(name, "collection") || str_eq(name, "id") || str_eq(name, "fields") || str_eq(
            name,
            "before",
        )
    } else if str_eq(tag, "movedBefore") {
        str_eq(name, "collection") || str_eq(name, "id") || str_eq(name, "before")
    } else if str_eq(tag, "error") {
        str_eq(name, "reason") || str_eq(name, "offendingMessage")
    } else {
        false
    }
}

/// Whether a member is one of an error's own, in the slot where a frame with that tag has its
/// error: the member of that name, or a place in the list.
pub open spec fn of_error(j: JsonView, tag: Seq<char>, m: MemberModel) -> bool {
    &&& m.inner
    &&& m.name == "error"@ || m.name == "reason"@ || m.name == "message"@ || m.name
        == "errorType"@ || m.name == "isClientSafe"@ || m.name == "details"@
    &&& if tag == "result"@ {
        if j is Array {
            m.index == 3
        } else {
            m.parent == "error"@
        }
    } else if tag == "nosub"@ {
        if j is Array {
            m.index == 2
        } else {
            m.parent == "error"@
        }
    } else {
        false
    }
}

/// Whether a member is one of an error's own.
fn is_of_error(j: &Json, tag: &str, m: &Member) -> (r: bool)
    ensures
        r == of_error(j@, tag@, m@),
{
    let name = m.name.as_str();
    let place: usize = if str_eq(tag, "result") {
        3
    } else if str_eq(tag, "nosub") {
        2
    } else {
        return false;
    };
    let placed = match j {
        Json::Array(_) => m.index == place,
        _ => str_eq(m.parent.as_str(), "error"),
    };
    m.inner && placed && (str_eq(name, "error") || str_eq(name, "reason") || str_eq(
        name,
        "message",
    ) || str_eq(name, "errorType") || str_eq(name, "isClientSafe") || str_eq(name, "details"))
}

/// Whether two members cannot both stand in a frame with that tag: they give the frame, or its
/// error, one of its own members twice.
pub open spec fn clash(j: JsonView, tag: Seq<char>, a: MemberModel, b: MemberModel) -> bool {
    &&& a.name == b.name
    &&& {
        ||| !a.inner && !b.inner && own_member(tag, a.name)
        ||| of_error(j, tag, a) && of_error(j, tag, b)
    }
}

/// Whether some two of the members clash.
pub open spec fn some_clash(j: JsonView, tag: Seq<char>, members: Seq<MemberModel>) -> bool {
    exists|a: int, b: int|
        0 <= a < b < members.len() && #[trigger] clash(j, tag, members[a], members[b])
}

/// Whether a text gives a modelled frame, or its error, one of its own members twice.
pub open spec fn repeats(text: Seq<char>, j: JsonView) -> bool {
    tag_of(j) matches Some(tag) && some_clash(j, tag, members_of(text))
}

/// Whether a text gives a modelled frame, or its error, one of its own members twice.
fn is_repeating(text: &str, j: &Json) -> (r: bool)
    ensures
        r == repeats(text@, j@),
{
    let tag = match slot_of(j, "msg", 0) {
        Some(Json::String(s)) => s.as_str(),
        _ => {
            return false;
        },
    };
    let all = members(text);
    let ghost seen = member_views(all@);
    let n: usize = all.len();
    let mut b: usize = 0;
    while b < n
        invariant
            n == all@.len(),
            b <= n,
            seen == member_views(all@),
            seen == members_of(text@),
            tag_of(j@) == Some(tag@),
            forall|x: int, y: int|
                0 <= x < y < b ==> !#[trigger] clash(j@, tag@, seen[x], seen[y]),
        decreases n - b,
    {
        let mut a: usize = 0;
        while a < b
            invariant
                n == all@.len(),
                a <= b < n,
                seen == member_views(all@),
                seen == members_of(text@),
                tag_of(j@) == Some(tag@),
                forall|x: int|
                    0 <= x < a ==> !#[trigger] clash(j@, tag@, seen[x], seen[b as int]),
            decreases b - a,
        {
            let first = &all[a];
            let second = &all[b];
            proof {
                assert(seen[a as int] == first@ && seen[b as int] == second@);
            }
            if str_eq(first.name.as_str(), second.name.as_str()) && ((!first.inner && !second.inner
                && is_own_member(tag, first.name.as_str())) || (is_of_error(j, tag, first)
                && is_of_error(j, tag, second))) {
                proof {
                    assert(clash(j@, tag@, seen[a as int], seen[b as int]));
                }
                return true;
            }
            a += 1;
        }
        b += 1;
    }
    false
}

impl ServerMessage {
    /// Whether a text is a frame: a JSON object, or a list that spells one of the modelled
    /// frames and repeats no member of its error.
    pub open spec fn readable(text: Seq<char>) -> bool {
        text_value(text) matches Some(j) && (j is Object || (server_typed(j) && !repeats(text, j)))
    }

    /// Whether a text spells the frame. One that gives a modelled frame a member of its own twice
    /// is no longer that frame.
    pub open spec fn spelled_by(&self, text: Seq<char>) -> bool {
        text_value(text) matches Some(j) && if repeats(text, j) {
            *self matches ServerMessage::Unknown(unknown) && unknown.read_from(j)
        } else {
            self.read_from(j)
        }
    }

    /// Reads a frame from its text; none where the text is not a JSON object, nor a list that
    /// spells one of the modelled frames. A text that gives a modelled frame, or its error, one of
    /// its own members twice does not fit that frame.
    pub fn parse(text: &str) -> (r: Option<ServerMessage>)
        ensures
            r is Some <==> ServerMessage::readable(text@),
            r matches Some(m) ==> m.spelled_by(text@),
    {
        let j = match parse_json(text) {
            Some(j) => j,
            None => {
                return None;
            },
        };
        if is_repeating(text, &j) {
            return match UnknownMessage::decode(&j) {
                Some(unknown) => Some(ServerMessage::Unknown(unknown)),
                None => None,
            };
        }
        ServerMessage::decode(&j)
    }

    /// Whether the frame names a tag that this library models, but its payload did not fit.
    pub open spec fn malformed(&self) -> bool {
        *self matches ServerMessage::Unknown(unknown) && unknown.msg is Some && modelled(
            unknown.msg->0@,
        )
    }

    /// Whether the frame names a tag that this library models, but its payload did not fit.
    pub fn is_malformed(&self) -> (r: bool)
        ensures
            r == self.malformed(),
    {
        match self {
            ServerMessage::Unknown(unknown) => match &unknown.msg {
                Some(msg) => {
                    let tag = msg.as_str();
                    str_eq(tag, "connected") || str_eq(tag, "failed") || str_eq(tag, "ping")
                        || str_eq(tag, "pong") || str_eq(tag, "result") || str_eq(tag, "updated")
                        || str_eq(tag, "nosub") || str_eq(tag, "ready") || str_eq(tag, "added")
                        || str_eq(tag, "changed") || str_eq(tag, "removed") || str_eq(
                        tag,
                        "addedBefore",
                    ) || str_eq(tag, "movedBefore") || str_eq(tag, "error")
                },
                None => false,
            },
            _ => false,
        }
    }

    /// The id of the call, subscription or ping that the frame answers.
    pub open spec fn answers(&self) -> Option<Seq<char>> {
        match *self {
            ServerMessage::Result { id, .. } => Some(id@),
            ServerMessage::Nosub { id, .. } => Some(id@),
            ServerMessage::Ping { id: Some(id) } => Some(id@),
            ServerMessage::Pong { id: Some(id) } => Some(id@),
            _ => None,
        }
    }

    /// The id of the call, subscription or ping that the frame answers.
    pub fn correlation_id(&self) -> (r: Option<&str>)
        ensures
            match r {
                Some(id) => self.answers() == Some(id@),
                None => self.answers() is None,
            },
    {
        match self {
            ServerMessage::Result { id, .. } => Some(id.as_str()),
            ServerMessage::Nosub { id, .. } => Some(id.as_str()),
            ServerMessage::Ping { id: Some(id) } => Some(id.as_str()),
            ServerMessage::Pong { id: Some(id) } => Some(id.as_str()),
            _ => None,
        }
    }

    /// The stream event that the frame carries: the stream, the event name and the arguments.
    pub open spec fn carried(&self) -> Option<(Seq<char>, Seq<char>, Seq<JsonView>)> {
        match *self {
            ServerMessage::Changed { collection, fields: Some(fields), .. } => match (
                after_prefix(collection@, "stream-"@),
                view_get(JsonView::Object(fields@), "eventName"@),
            ) {
                (Some(stream), Some(JsonView::String(name))) => Some(
                    (
                        stream,
                        name,
                        match view_get(JsonView::Object(fields@), "args"@) {
                            Some(JsonView::Array(args)) => args,
                            _ => Seq::empty(),
                        },
                    ),
                ),
                _ => None,
            },
            _ => None,
        }
    }

    /// The stream event that the frame carries. Only a change of a stream's collection that
    /// names an event is one; arguments that are missing or not a list count as none.
    pub fn as_stream_event(&self) -> (r: Option<StreamEvent<'_>>)
        ensures
            match r {
                Some(e) => self.carried() == Some((e.stream@, e.event_name@, array_view(e.args@))),
                None => self.carried() is None,
            },
    {
        match self {
            ServerMessage::Changed { collection, fields: Some(fields), .. } => {
                let stream = match strip_prefix(collection.as_str(), STREAM_PREFIX) {
                    Some(stream) => stream,
                    None => {
                        return None;
                    },
                };
                let event_name = match fields.get("eventName") {
                    Some(Json::String(name)) => name.as_str(),
                    _ => {
                        return None;
                    },
                };
                match fields.get("args") {
                    Some(Json::Array(args)) => Some(
                        StreamEvent { stream, event_name, args: args.as_slice() },
                    ),
                    _ => {
                        let none: &[Json] = &[];
                        proof {
                            lemma_array_view(none@);
                            assert(array_view(none@) =~= Seq::<JsonView>::empty());
                        }
                        Some(StreamEvent { stream, event_name, args: none })
                    },
                }
            },
            _ => None,
        }
    }
}

/// A frame that gives a modelled tag a member of its own twice is malformed: it names the tag, and
/// its payload does not fit.
pub proof fn law_a_repeated_member_is_malformed(text: Seq<char>, message: ServerMessage)
    requires
        text_value(text) matches Some(j) && j is Object && repeats(text, j) && modelled(
            tag_of(j)->0,
        ),
        message.spelled_by(text),
    ensures
        message.malformed(),
{
}

/// The members of a stream event's document.
#[derive(Clone, Debug, PartialEq)]
pub struct StreamFields {
    /// The event name.
    pub event_name: String,
    /// The positional arguments.
    pub args: Vec<Json>,
}

impl Default for StreamFields {
    fn default() -> (r: StreamFields)
        ensures
            r.event_name@ == ""@,
            r.args@.len() == 0,
    {
        StreamFields { event_name: "".to_owned(), args: Vec::new() }
    }
}

impl Decode for StreamFields {
    open spec fn accepts(j: JsonView) -> bool {
        &&& shaped(j, 2)
        &&& has_required::<String>(slot(j, "eventName"@, 0))
        &&& has_default::<Vec<Json>>(slot(j, "args"@, 1))
    }

    open spec fn read_from(&self, j: JsonView) -> bool {
        &&& is_required(self.event_name, slot(j, "eventName"@, 0))
        &&& is_list(self.args, slot(j, "args"@, 1))
    }

    fn decode(j: &Json) -> (r: Option<StreamFields>) {
        if !is_shaped(j, 2) {
            return None;
        }
        match (required(j, "eventName", 0), list(j, "args", 1)) {
            (Some(event_name), Some(args)) => Some(StreamFields { event_name, args }),
            _ => None,
        }
    }
}

impl Encode for StreamFields {
    open spec fn doc(&self) -> JsonView {
        let m = with(Map::empty(), "eventName"@, self.event_name.doc());
        JsonView::Object(with(m, "args"@, self.args.doc()))
    }

    fn encode(&self) -> (r: Json) {
        let mut map = JsonMap::new();
        put(&mut map, "eventName", &self.event_name);
        put(&mut map, "args", &self.args);
        Json::Object(map)
    }
}

/// A stream event, borrowed from the frame that carries it.
#[derive(Clone, Copy, Debug, PartialEq)]
pub struct StreamEvent<'a> {
    /// The stream, without the collection prefix.
    pub stream: &'a str,
    /// The event name.
    pub event_name: &'a str,
    /// The positional arguments.
    pub args: &'a [Json],
}

impl<'a> StreamEvent<'a> {
    /// The argument at a position; none where it is `null`.
    pub open spec fn argument(&self, index: int) -> Option<JsonView> {
        if 0 <= index < self.args@.len() && self.args@[index]@ !is Null {
            Some(self.args@[index]@)
        } else {
            None
        }
    }

    /// The collection that the event arrived on.
    pub fn collection(&self) -> (r: String)
        ensures
            r@ == "stream-"@ + self.stream@,
    {
        concat(STREAM_PREFIX, self.stream)
    }

    /// How many positional arguments there are, `null` ones included.
    pub fn arity(&self) -> (r: usize)
        ensures
            r == self.args@.len(),
    {
        self.args.len()
    }

    /// The argument at a position, `null` or not.
    pub fn arg_raw(&self, index: usize) -> (r: Option<&'a Json>)
        ensures
            r is Some <==> index < self.args@.len(),
            r matches Some(j) ==> *j == self.args@[index as int],
    {
        if index < self.args.len() {
            Some(&self.args[index])
        } else {
            None
        }
    }

    /// The argument at a position. A `null` counts as absent.
    pub fn arg(&self, index: usize) -> (r: Option<&'a Json>)
        ensures
            r is Some <==> self.argument(index as int) is Some,
            r matches Some(j) ==> *j == self.args@[index as int],
    {
        if index < self.args.len() && !self.args[index].is_null() {
            Some(&self.args[index])
        } else {
            None
        }
    }

    /// The string at a position.
    pub fn arg_str(&self, index: usize) -> (r: Option<&'a str>)
        ensures
            r is Some <==> self.argument(index as int) matches Some(JsonView::String(_)),
            r matches Some(s) ==> self.argument(index as int) == Some(JsonView::String(s@)),
    {
        match self.arg(index) {
            Some(j) => j.as_str(),
            None => None,
        }
    }

    /// The integer at a position.
    pub fn arg_i64(&self, index: usize) -> (r: Option<i64>)
        ensures
            r == (match self.argument(index as int) {
                Some(j) => view_i64(j),
                None => None,
            }),
    {
        match self.arg(index) {
            Some(j) => j.as_i64(),
            None => None,
        }
    }

    /// The boolean at a position.
    pub fn arg_bool(&self, index: usize) -> (r: Option<bool>)
        ensures
            r == (match self.argument(index as int) {
                Some(JsonView::Bool(b)) => Some(b),
                _ => None,
            }),
    {
        match self.arg(index) {
            Some(j) => j.as_bool(),
            None => None,
        }
    }

    /// The argument at a position, read as a type.
    pub fn arg_as<T: Decode>(&self, index: usize) -> (r: Option<T>)
        ensures
            r is Some <==> (self.argument(index as int) matches Some(j) && T::accepts(j)),
            r matches Some(t) ==> t.read_from(self.argument(index as int)->0),
    {
        match self.arg(index) {
            Some(j) => T::decode(j),
            None => None,
        }
    }
}

/// An error code: Rocket.Chat uses numbers and strings alike.
#[derive(Clone, Debug, PartialEq, Eq, Hash)]
pub enum ErrorCode {
    /// A numeric code, as Meteor's own errors carry.
    Number(i64),
    /// A named code.
    String(String),
}

impl ErrorCode {
    /// The code as text.
    pub open spec fn text(&self) -> Seq<char> {
        match *self {
            ErrorCode::Number(n) => decimal_text(n as int),
            ErrorCode::String(s) => s@,
        }
    }

    /// The code, where it is a string.
    pub fn as_str(&self) -> (r: Option<&str>)
        ensures
            match *self {
                ErrorCode::String(s) => r is Some && r->0@ == s@,
                ErrorCode::Number(_) => r is None,
            },
    {
        match self {
            ErrorCode::String(code) => Some(code.as_str()),
            ErrorCode::Number(_) => None,
        }
    }

    /// The code, where it is a number.
    pub fn as_number(&self) -> (r: Option<i64>)
        ensures
            r == (match *self {
                ErrorCode::Number(n) => Some(n),
                ErrorCode::String(_) => None,
            }),
    {
        match self {
            ErrorCode::Number(code) => Some(*code),
            ErrorCode::String(_) => None,
        }
    }

    /// Whether the code is the given one, written as text.
    pub open spec fn spelled(&self, code: Seq<char>) -> bool {
        match *self {
            ErrorCode::String(s) => s@ == code,
            ErrorCode::Number(n) => parsed_i64(code) == Some(n),
        }
    }

    /// Whether the code is the given one, written as text.
    pub fn is(&self, code: &str) -> (r: bool)
        ensures
            r == self.spelled(code@),
    {
        match self {
            ErrorCode::String(value) => str_eq(value.as_str(), code),
            ErrorCode::Number(value) => match parse_i64(code) {
                Some(parsed) => parsed == *value,
                None => false,
            },
        }
    }

    /// The code as text.
    pub fn to_text(&self) -> (r: String)
        ensures
            r@ == self.text(),
    {
        match self {
            ErrorCode::Number(n) => decimal_i64(*n),
            ErrorCode::String(s) => s.clone(),
        }
    }
}

impl From<i64> for ErrorCode {
    fn from(value: i64) -> (r: ErrorCode) {
        ErrorCode::Number(value)
    }
}

impl vstd::std_specs::convert::FromSpecImpl<i64> for ErrorCode {
    open spec fn obeys_from_spec() -> bool {
        true
    }

    open spec fn from_spec(value: i64) -> ErrorCode {
        ErrorCode::Number(value)
    }
}

impl From<String> for ErrorCode {
    fn from(value: String) -> (r: ErrorCode) {
        ErrorCode::String(value)
    }
}

impl vstd::std_specs::convert::FromSpecImpl<String> for ErrorCode {
    open spec fn obeys_from_spec() -> bool {
        true
    }

    open spec fn from_spec(value: String) -> ErrorCode {
        ErrorCode::String(value)
    }
}

impl<'a> From<&'a str> for ErrorCode {
    fn from(value: &'a str) -> (r: ErrorCode)
        ensures
            r matches ErrorCode::String(s) && s@ == value@,
    {
        ErrorCode::String(value.to_owned())
    }
}

impl<'a> vstd::std_specs::convert::FromSpecImpl<&'a str> for ErrorCode {
    open spec fn obeys_from_spec() -> bool {
        false
    }

    open spec fn from_spec(value: &'a str) -> ErrorCode {
        arbitrary()
    }
}

impl Decode for ErrorCode {
    open spec fn accepts(j: JsonView) -> bool {
        view_i64(j) is Some || j is String
    }

    open spec fn read_from(&self, j: JsonView) -> bool {
        match *self {
            ErrorCode::Number(n) => view_i64(j) == Some(n),
            ErrorCode::String(s) => j == JsonView::String(s@),
        }
    }

    fn decode(j: &Json) -> (r: Option<ErrorCode>) {
        match j {
            Json::String(s) => Some(ErrorCode::String(s.clone())),
            _ => match j.as_i64() {
                Some(n) => Some(ErrorCode::Number(n)),
                None => None,
            },
        }
    }
}

impl Encode for ErrorCode {
    open spec fn doc(&self) -> JsonView {
        match *self {
            ErrorCode::Number(n) => n.doc(),
            ErrorCode::String(s) => s.doc(),
        }
    }

    fn encode(&self) -> (r: Json) {
        match self {
            ErrorCode::Number(n) => n.encode(),
            ErrorCode::String(s) => s.encode(),
        }
    }
}

/// An error that the server reports for a call or a subscription.
#[derive(Clone, Debug, PartialEq)]
pub struct DdpError {
    /// The code.
    pub error: ErrorCode,
    /// Why, for a human.
    pub reason: Option<String>,
    /// The reason and the code together.
    pub message: Option<String>,
    /// The class of the error.
    pub error_type: Option<String>,
    /// Whether the server considers the text fit to show.
    pub is_client_safe: Option<bool>,
    /// Anything else, such as how long the rate limiter wants the client to wait.
    pub details: Option<Json>,
    /// Members that this library does not model.
    pub extra: JsonMap,
}

/// The members of an error that this library does not model.
pub open spec fn unmodelled(map: Map<Seq<char>, JsonView>) -> Map<Seq<char>, JsonView> {
    map.remove("error"@).remove("reason"@).remove("message"@).remove("errorType"@).remove(
        "isClientSafe"@,
    ).remove("details"@)
}

impl Decode for DdpError {
    open spec fn accepts(j: JsonView) -> bool {
        &&& j is Object
        &&& has_required::<ErrorCode>(slot(j, "error"@, 0))
        &&& has_optional::<String>(slot(j, "reason"@, 1))
        &&& has_optional::<String>(slot(j, "message"@, 2))
        &&& has_optional::<String>(slot(j, "errorType"@, 3))
        &&& has_optional::<bool>(slot(j, "isClientSafe"@, 4))
        &&& has_optional::<Json>(slot(j, "details"@, 5))
    }

    open spec fn read_from(&self, j: JsonView) -> bool {
        &&& j is Object
        &&& is_required(self.error, slot(j, "error"@, 0))
        &&& is_optional(self.reason, slot(j, "reason"@, 1))
        &&& is_optional(self.message, slot(j, "message"@, 2))
        &&& is_optional(self.error_type, slot(j, "errorType"@, 3))
        &&& is_optional(self.is_client_safe, slot(j, "isClientSafe"@, 4))
        &&& is_optional(self.details, slot(j, "details"@, 5))
        &&& self.extra@ == unmodelled(j->Object_0)
    }

    fn decode(j: &Json) -> (r: Option<DdpError>) {
        let mut extra = match j {
            Json::Object(map) => map.dup(),
            _ => {
                return None;
            },
        };
        let _ = extra.remove("error");
        let _ = extra.remove("reason");
        let _ = extra.remove("message");
        let _ = extra.remove("errorType");
        let _ = extra.remove("isClientSafe");
        let _ = extra.remove("details");
        let error: ErrorCode = match required(j, "error", 0) {
            Some(v) => v,
            None => {
                return None;
            },
        };
        let reason: Option<String> = match optional(j, "reason", 1) {
            Some(v) => v,
            None => {
                return None;
            },
        };
        let message: Option<String> = match optional(j, "message", 2) {
            Some(v) => v,
            None => {
                return None;
            },
        };
        let error_type: Option<String> = match optional(j, "errorType", 3) {
            Some(v) => v,
            None => {
                return None;
            },
        };
        let is_client_safe: Option<bool> = match optional(j, "isClientSafe", 4) {
            Some(v) => v,
            None => {
                return None;
            },
        };
        let details: Option<Json> = match optional(j, "details", 5) {
            Some(v) => v,
            None => {
                return None;
            },
        };
        Some(DdpError { error, reason, message, error_type, is_client_safe, details, extra })
    }
}

impl DdpError {
    /// The modelled members.
    pub open spec fn members(&self) -> Map<Seq<char>, JsonView> {
        let m = with(Map::empty(), "error"@, self.error.doc());
        let m = with_some(m, "reason"@, self.reason);
        let m = with_some(m, "message"@, self.message);
        let m = with_some(m, "errorType"@, self.error_type);
        let m = with_some(m, "isClientSafe"@, self.is_client_safe);
        with_some(m, "details"@, self.details)
    }
}

impl Encode for DdpError {
    open spec fn doc(&self) -> JsonView {
        JsonView::Object(over(self.members(), self.extra@))
    }

    fn encode(&self) -> (r: Json) {
        let mut map = JsonMap::new();
        put(&mut map, "error", &self.error);
        put_some(&mut map, "reason", &self.reason);
        put_some(&mut map, "message", &self.message);
        put_some(&mut map, "errorType", &self.error_type);
        put_some(&mut map, "isClientSafe", &self.is_client_safe);
        put_some(&mut map, "details", &self.details);
        map.overlay(&self.extra);
        Json::Object(map)
    }
}

/// Whether a text says that a resume token is dead.
pub open spec fn says_expired(text: Option<String>) -> bool {
    text matches Some(text) && (holds(text@, "been logged out by the server"@) || holds(
        text@,
        "session has expired"@,
    ))
}

/// Milliseconds to wait, as an error's details give them.
pub open spec fn reset_millis(details: Option<Json>) -> Option<u64> {
    match details {
        Some(details) => match view_get(details@, "timeToReset"@) {
            Some(JsonView::Number(n)) => match view_u64(JsonView::Number(n)) {
                Some(millis) => Some(millis),
                None => match n {
                    Number::Float(bits) => if float_negative(bits) || !float_finite(bits) {
                        Some(0)
                    } else {
                        Some(float_whole_u64(bits))
                    },
                    _ => Some(0),
                },
            },
            _ => None,
        },
        None => None,
    }
}

fn text_expired(text: &Option<String>) -> (r: bool)
    ensures
        r == says_expired(*text),
{
    match text {
        Some(text) => contains(text.as_str(), "been logged out by the server") || contains(
            text.as_str(),
            "session has expired",
        ),
        None => false,
    }
}

impl DdpError {
    /// Whether this is the rate limiter refusing the call.
    pub fn is_too_many_requests(&self) -> (r: bool)
        ensures
            r == self.error.spelled("too-many-requests"@),
    {
        self.error.is("too-many-requests")
    }

    /// How long the server wants the client to wait before retrying: the milliseconds of
    /// `details.timeToReset`. A number that is not positive yields zero; anything that is not
    /// a number yields nothing.
    pub fn retry_after(&self) -> (r: Option<Duration>)
        ensures
            r is Some <==> reset_millis(self.details) is Some,
            r matches Some(d) ==> duration_nanos(d) == reset_millis(self.details)->0 * 1_000_000,
    {
        let details = match &self.details {
            Some(details) => details,
            None => {
                return None;
            },
        };
        match details.get("timeToReset") {
            Some(value) => match value.as_u64() {
                Some(millis) => Some(from_millis(millis)),
                None => match value {
                    Json::Number(Number::Float(bits)) => Some(from_millis(trunc_u64(*bits))),
                    Json::Number(_) => Some(from_millis(0)),
                    _ => None,
                },
            },
            None => None,
        }
    }

    /// Whether the error means that the resume token is dead, so that retrying it is pointless.
    pub fn is_expired_session(&self) -> (r: bool)
        ensures
            r == (says_expired(self.reason) || says_expired(self.message)),
    {
        text_expired(&self.reason) || text_expired(&self.message)
    }

    /// The most specific text there is: the message, else the reason, else the code.
    pub fn describe(&self) -> (r: String)
        ensures
            r@ == (match (self.message, self.reason) {
                (Some(message), _) => message@,
                (None, Some(reason)) => reason@,
                (None, None) => self.error.text(),
            }),
    {
        match (&self.message, &self.reason) {
            (Some(message), _) => message.clone(),
            (None, Some(reason)) => reason.clone(),
            (None, None) => self.error.to_text(),
        }
    }

    /// The error for a log line: the message, else the reason and the code, else the code.
    pub fn to_text(&self) -> (r: String)
        ensures
            r@ == (match (self.message, self.reason) {
                (Some(message), _) => message@,
                (None, Some(reason)) => reason@ + " ["@ + self.error.text() + "]"@,
                (None, None) => self.error.text(),
            }),
    {
        match (&self.message, &self.reason) {
            (Some(message), _) => message.clone(),
            (None, Some(reason)) => {
                let mut out = concat(reason.as_str(), " [");
                out.append(self.error.to_text().as_str());
                out.append("]");
                out
            },
            (None, None) => self.error.to_text(),
        }
    }
}

/// A stream event is a changed document of a collection that starts with `stream-`, whose fields
/// name the event; its arguments are those that the fields list, or none.
pub proof fn law_what_carries_a_stream_event(message: ServerMessage)
    ensures
        message.carried() is Some <==> (message matches ServerMessage::Changed {
            collection,
            fields: Some(fields),
            ..
        } && collection@.len() >= 7 && collection@.subrange(0, 7) == "stream-"@
            && fields@.dom().contains("eventName"@) && fields@["eventName"@] is String),
        message.carried() matches Some((stream, name, args)) ==> (message matches
            ServerMessage::Changed { collection, fields: Some(fields), .. } && collection@
            == "stream-"@ + stream && fields@["eventName"@] == JsonView::String(name)
            && if fields@.dom().contains("args"@) && fields@["args"@] is Array {
            fields@["args"@] == JsonView::Array(args)
        } else {
            args.len() == 0
        }),
{
    reveal_strlit("stream-");
    if let ServerMessage::Changed { collection, .. } = message {
        assert("stream-"@.len() == 7);
        if collection@.len() >= 7 && collection@.subrange(0, 7) == "stream-"@ {
            assert(collection@ =~= "stream-"@ + collection@.subrange(7, collection@.len() as int));
        }
    }
}

/// Which call or subscription a frame is about: the one whose id it has.
pub proof fn law_which_call_a_frame_is_about(
    id: String,
    ids: Vec<String>,
    name: String,
    params: Vec<Json>,
    result: Option<Json>,
    error: Option<DdpError>,
)
    ensures
        (ServerMessage::Result { id, result, error }).answers() == Some(id@),
        (ServerMessage::Nosub { id, error }).answers() == Some(id@),
        (ServerMessage::Ping { id: Some(id) }).answers() == Some(id@),
        (ServerMessage::Pong { id: Some(id) }).answers() == Some(id@),
        (ServerMessage::Ping { id: None }).answers() is None,
        (ServerMessage::Connected { session: id }).answers() is None,
        (ServerMessage::Ready { subs: ids }).answers() is None,
        (ServerMessage::Updated { methods: ids }).answers() is None,
        (ClientMessage::Method { id, method: name, params }).answer_id() == Some(id@),
        (ClientMessage::Sub { id, name, params }).answer_id() == Some(id@),
        (ClientMessage::Unsub { id }).answer_id() == Some(id@),
        (ClientMessage::Ping { id: Some(id) }).answer_id() == Some(id@),
        (ClientMessage::Pong { id: Some(id) }).answer_id() == Some(id@),
        (ClientMessage::Ping { id: None }).answer_id() is None,
        (ClientMessage::Connect { version: name, support: ids }).answer_id() is None,
{
}

/// An argument is the one at its position, where there is one and it is not `null`.
pub proof fn law_arguments_are_counted_from_the_first<'a>(event: StreamEvent<'a>, index: int)
    requires
        0 <= index,
    ensures
        index < event.args@.len() && event.args@[index]@ !is Null ==> event.argument(index)
            == Some(event.args@[index]@),
        index < event.args@.len() && event.args@[index]@ is Null ==> event.argument(index)
            is None,
        index >= event.args@.len() ==> event.argument(index) is None,
{
}

/// A code reads as its text, or as its decimal digits; it is spelled by that text, and a number
/// by any text that parses to it.
pub proof fn law_how_an_error_code_reads(n: i64, s: String, code: Seq<char>, j: JsonView)
    ensures
        ErrorCode::Number(n).text() == decimal_text(n as int),
        ErrorCode::String(s).text() == s@,
        ErrorCode::String(s).spelled(code) <==> code == s@,
        ErrorCode::Number(n).spelled(code) <==> parsed_i64(code) == Some(n),
        ErrorCode::String(s).read_from(j) <==> j == JsonView::String(s@),
        ErrorCode::Number(n).read_from(j) <==> view_i64(j) == Some(n),
        ErrorCode::String(s).doc() == JsonView::String(s@),
        ErrorCode::accepts(j) <==> j is String || view_i64(j) is Some,
{
}

/// How long a limit lasts is the number `timeToReset` of the details: a fraction is dropped, and
/// what is negative or not finite is no wait.
pub proof fn law_how_long_a_limit_lasts(details: Json, map: Map<Seq<char>, JsonView>)
    requires
        details@ == JsonView::Object(map),
    ensures
        reset_millis(None) is None,
        !map.dom().contains("timeToReset"@) ==> reset_millis(Some(details)) is None,
        map.dom().contains("timeToReset"@) ==> match map["timeToReset"@] {
            JsonView::Number(Number::Unsigned(n)) => reset_millis(Some(details)) == Some(n),
            JsonView::Number(Number::Negative(n)) => n < 0 ==> reset_millis(Some(details)) == Some(
                0u64,
            ),
            JsonView::Number(Number::Float(bits)) => reset_millis(Some(details)) == Some(
                if float_negative(bits) || !float_finite(bits) {
                    0u64
                } else {
                    float_whole_u64(bits)
                },
            ),
            _ => reset_millis(Some(details)) is None,
        },
{
}

/// An error keeps what it does not model: every member but the six that it has fields for.
pub proof fn law_an_error_keeps_its_other_members(
    error: DdpError,
    map: Map<Seq<char>, JsonView>,
    name: Seq<char>,
)
    requires
        error.read_from(JsonView::Object(map)),
    ensures
        ({
            let own = name == "error"@ || name == "reason"@ || name == "message"@ || name
                == "errorType"@ || name == "isClientSafe"@ || name == "details"@;
            &&& error.extra@.dom().contains(name) <==> map.dom().contains(name) && !own
            &&& error.extra@.dom().contains(name) ==> error.extra@[name] == map[name]
        }),
{
}

/// A frame that is not modelled keeps its tag and every other member.
pub proof fn law_an_unknown_frame_is_kept(
    unknown: UnknownMessage,
    map: Map<Seq<char>, JsonView>,
    name: Seq<char>,
)
    requires
        unknown.read_from(JsonView::Object(map)),
    ensures
        unknown.msg is Some <==> map.dom().contains("msg"@) && map["msg"@] is String,
        unknown.msg matches Some(tag) ==> map["msg"@] == JsonView::String(tag@),
        name != "msg"@ ==> (unknown.rest@.dom().contains(name) <==> map.dom().contains(name)),
        name != "msg"@ && map.dom().contains(name) ==> unknown.rest@[name] == map[name],
{
}

} // verus!
