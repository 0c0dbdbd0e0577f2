//! Frames come back as they were.
use crate::model::faithful::{
    lemma_optional, lemma_required, opt_doc, opt_writable, RoundTrip,
};
use crate::model::json::{Json, JsonView};
use crate::model::protocol::{
    is_list, server_typed, unmodelled, ClientMessage,
    DdpError, ErrorCode, ServerMessage, StreamFields, UnknownMessage,
};
use crate::model::wire::{has_default, slot, with, with_some, Decode, Encode};
use vstd::prelude::*;
use vstd::string::*;

verus! {

/// A list that is written only where it is not empty.
pub open spec fn list_member(list: Vec<Json>) -> Option<Vec<Json>> {
    if list@.len() == 0 {
        None
    } else {
        Some(list)
    }
}

/// A list that is written only where it is not empty can be read back.
proof fn lemma_list(list: Vec<Json>, back: Vec<Json>)
    ensures
        has_default::<Vec<Json>>(opt_doc(list_member(list))),
        is_list(back, opt_doc(list_member(list))) ==> back@.len() == list@.len() && back.doc()
            == list.doc(),
{
    list.law_round_trip(&back);
    if list@.len() == 0 && back@.len() == 0 {
        assert(back.doc()->Array_0 =~= list.doc()->Array_0);
    }
}

impl RoundTrip for ErrorCode {
    open spec fn writable(&self) -> bool {
        true
    }

    proof fn law_round_trip(&self, back: &ErrorCode) {
    }
}

impl RoundTrip for DdpError {
    open spec fn writable(&self) -> bool {
        &&& opt_writable(self.details)
        &&& unmodelled(self.extra@) == self.extra@
    }

    proof fn law_round_trip(&self, back: &DdpError) {
        reveal(with);
        reveal(with_some);
        reveal_strlit("error");
        reveal_strlit("reason");
        reveal_strlit("message");
        reveal_strlit("errorType");
        reveal_strlit("isClientSafe");
        reveal_strlit("details");
        assert("error"@.len() == 5);
        assert("reason"@.len() == 6);
        assert("message"@.len() == 7 && "message"@[0] == 'm');
        assert("details"@.len() == 7 && "details"@[0] == 'd');
        assert("errorType"@.len() == 9);
        assert("isClientSafe"@.len() == 12);
        let j = self.doc();
        let extra = self.extra@;
        assert(!extra.dom().contains("error"@)) by {
            assert(!unmodelled(extra).dom().contains("error"@));
        }
        assert(!extra.dom().contains("reason"@)) by {
            assert(!unmodelled(extra).dom().contains("reason"@));
        }
        assert(!extra.dom().contains("message"@)) by {
            assert(!unmodelled(extra).dom().contains("message"@));
        }
        assert(!extra.dom().contains("errorType"@)) by {
            assert(!unmodelled(extra).dom().contains("errorType"@));
        }
        assert(!extra.dom().contains("isClientSafe"@)) by {
            assert(!unmodelled(extra).dom().contains("isClientSafe"@));
        }
        assert(!extra.dom().contains("details"@)) by {
            assert(!unmodelled(extra).dom().contains("details"@));
        }
        assert(slot(j, "error"@, 0) == Some(self.error.doc()));
        assert(slot(j, "reason"@, 1) == opt_doc(self.reason));
        assert(slot(j, "message"@, 2) == opt_doc(self.message));
        assert(slot(j, "errorType"@, 3) == opt_doc(self.error_type));
        assert(slot(j, "isClientSafe"@, 4) == opt_doc(self.is_client_safe));
        assert(slot(j, "details"@, 5) == opt_doc(self.details));
        lemma_required(self.error, back.error);
        lemma_optional(self.reason, back.reason);
        lemma_optional(self.message, back.message);
        lemma_optional(self.error_type, back.error_type);
        lemma_optional(self.is_client_safe, back.is_client_safe);
        lemma_optional(self.details, back.details);
        assert(unmodelled(j->Object_0) =~= extra);
    }
}

impl RoundTrip for StreamFields {
    open spec fn writable(&self) -> bool {
        true
    }

    proof fn law_round_trip(&self, back: &StreamFields) {
        reveal(with);
        reveal_strlit("eventName");
        reveal_strlit("args");
        assert("args"@.len() == 4);
        assert("eventName"@.len() == 9);
        let j = self.doc();
        assert(slot(j, "eventName"@, 0) == Some(self.event_name.doc()));
        assert(slot(j, "args"@, 1) == Some(self.args.doc()));
        lemma_required(self.event_name, back.event_name);
        lemma_required(self.args, back.args);
    }
}

impl RoundTrip for UnknownMessage {
    /// The tag stands apart only where it is a string, and then it is not among the rest.
    open spec fn writable(&self) -> bool {
        match self.msg {
            Some(_) => !self.rest@.dom().contains("msg"@),
            None => self.rest@.dom().contains("msg"@) ==> self.rest@["msg"@] !is String,
        }
    }

    proof fn law_round_trip(&self, back: &UnknownMessage) {
        let map = self.doc()->Object_0;
        match self.msg {
            Some(_) => {
                assert(map.remove("msg"@) =~= self.rest@);
            },
            None => {
                assert(map =~= self.rest@);
            },
        }
        if back.read_from(self.doc()) {
            assert(back.doc()->Object_0 =~= map);
        }
    }
}

/// The tags are different.
proof fn lemma_client_tags()
    ensures
        "connect"@ != "method"@,
        "connect"@ != "sub"@,
        "connect"@ != "unsub"@,
        "connect"@ != "ping"@,
        "connect"@ != "pong"@,
        "method"@ != "sub"@,
        "method"@ != "unsub"@,
        "method"@ != "ping"@,
        "method"@ != "pong"@,
        "sub"@ != "unsub"@,
        "sub"@ != "ping"@,
        "sub"@ != "pong"@,
        "unsub"@ != "ping"@,
        "unsub"@ != "pong"@,
        "ping"@ != "pong"@,
{
    reveal_strlit("connect");
    reveal_strlit("method");
    reveal_strlit("sub");
    reveal_strlit("unsub");
    reveal_strlit("ping");
    reveal_strlit("pong");
    assert("sub"@.len() == 3);
    assert("ping"@.len() == 4 && "ping"@[1] == 'i');
    assert("pong"@.len() == 4 && "pong"@[1] == 'o');
    assert("unsub"@.len() == 5);
    assert("method"@.len() == 6);
    assert("connect"@.len() == 7);
}

proof fn lemma_client_connect(x: ClientMessage, back: ClientMessage)
    requires
        x is Connect,
        x.writable(),
    ensures
        ClientMessage::accepts(x.doc()),
        back.read_from(x.doc()) ==> back.doc() == x.doc(),
{
    reveal(with);
    reveal(with_some);
    lemma_client_tags();
    reveal_strlit("msg");
    reveal_strlit("version");
    reveal_strlit("support");
    assert("msg"@.len() == 3);
    assert("version"@.len() == 7 && "version"@[0] == 'v');
    assert("support"@.len() == 7 && "support"@[0] == 's');
    let j = x.doc();
    if let ClientMessage::Connect { version, support } = x {
        assert(slot(j, "msg"@, 0) == Some(JsonView::String("connect"@)));
        assert(slot(j, "version"@, 1) == Some(version.doc()));
        assert(slot(j, "support"@, 2) == Some(support.doc()));
        lemma_required(version, version);
        lemma_required(support, support);
        if let ClientMessage::Connect { version: other_version, support: other_support } = back {
            lemma_required(version, other_version);
            lemma_required(support, other_support);
        }
    }
}

proof fn lemma_client_method(x: ClientMessage, back: ClientMessage)
    requires
        x is Method,
        x.writable(),
    ensures
        ClientMessage::accepts(x.doc()),
        back.read_from(x.doc()) ==> back.doc() == x.doc(),
{
    reveal(with);
    reveal(with_some);
    lemma_client_tags();
    reveal_strlit("msg");
    reveal_strlit("id");
    reveal_strlit("method");
    reveal_strlit("params");
    assert("id"@.len() == 2);
    assert("msg"@.len() == 3);
    assert("method"@.len() == 6 && "method"@[0] == 'm');
    assert("params"@.len() == 6 && "params"@[0] == 'p');
    let j = x.doc();
    if let ClientMessage::Method { id, method, params } = x {
        assert(slot(j, "msg"@, 0) == Some(JsonView::String("method"@)));
        assert(slot(j, "id"@, 1) == Some(id.doc()));
        assert(slot(j, "method"@, 2) == Some(method.doc()));
        assert(slot(j, "params"@, 3) == opt_doc(list_member(params)));
        lemma_required(id, id);
        lemma_required(method, method);
        lemma_list(params, params);
        if let ClientMessage::Method { id: other_id, method: other_method, params: other_params } = back {
            lemma_required(id, other_id);
            lemma_required(method, other_method);
            lemma_list(params, other_params);
        }
    }
}

proof fn lemma_client_sub(x: ClientMessage, back: ClientMessage)
    requires
        x is Sub,
        x.writable(),
    ensures
        ClientMessage::accepts(x.doc()),
        back.read_from(x.doc()) ==> back.doc() == x.doc(),
{
    reveal(with);
    reveal(with_some);
    lemma_client_tags();
    reveal_strlit("msg");
    reveal_strlit("id");
    reveal_strlit("name");
    reveal_strlit("params");
    assert("id"@.len() == 2);
    assert("msg"@.len() == 3);
    assert("name"@.len() == 4);
    assert("params"@.len() == 6);
    let j = x.doc();
    if let ClientMessage::Sub { id, name, params } = x {
        assert(slot(j, "msg"@, 0) == Some(JsonView::String("sub"@)));
        assert(slot(j, "id"@, 1) == Some(id.doc()));
        assert(slot(j, "name"@, 2) == Some(name.doc()));
        assert(slot(j, "params"@, 3) == opt_doc(list_member(params)));
        lemma_required(id, id);
        lemma_required(name, name);
        lemma_list(params, params);
        if let ClientMessage::Sub { id: other_id, name: other_name, params: other_params } = back {
            lemma_required(id, other_id);
            lemma_required(name, other_name);
            lemma_list(params, other_params);
        }
    }
}

proof fn lemma_client_unsub(x: ClientMessage, back: ClientMessage)
    requires
        x is Unsub,
        x.writable(),
    ensures
        ClientMessage::accepts(x.doc()),
        back.read_from(x.doc()) ==> back.doc() == x.doc(),
{
    reveal(with);
    reveal(with_some);
    lemma_client_tags();
    reveal_strlit("msg");
    reveal_strlit("id");
    assert("id"@.len() == 2);
    assert("msg"@.len() == 3);
    let j = x.doc();
    if let ClientMessage::Unsub { id } = x {
        assert(slot(j, "msg"@, 0) == Some(JsonView::String("unsub"@)));
        assert(slot(j, "id"@, 1) == Some(id.doc()));
        lemma_required(id, id);
        if let ClientMessage::Unsub { id: other_id } = back {
            lemma_required(id, other_id);
        }
    }
}

proof fn lemma_client_ping(x: ClientMessage, back: ClientMessage)
    requires
        x is Ping,
        x.writable(),
    ensures
        ClientMessage::accepts(x.doc()),
        back.read_from(x.doc()) ==> back.doc() == x.doc(),
{
    reveal(with);
    reveal(with_some);
    lemma_client_tags();
    reveal_strlit("msg");
    reveal_strlit("id");
    assert("id"@.len() == 2);
    assert("msg"@.len() == 3);
    let j = x.doc();
    if let ClientMessage::Ping { id } = x {
        assert(slot(j, "msg"@, 0) == Some(JsonView::String("ping"@)));
        assert(slot(j, "id"@, 1) == opt_doc(id));
        lemma_optional(id, id);
        if let ClientMessage::Ping { id: other_id } = back {
            lemma_optional(id, other_id);
        }
    }
}

proof fn lemma_client_pong(x: ClientMessage, back: ClientMessage)
    requires
        x is Pong,
        x.writable(),
    ensures
        ClientMessage::accepts(x.doc()),
        back.read_from(x.doc()) ==> back.doc() == x.doc(),
{
    reveal(with);
    reveal(with_some);
    lemma_client_tags();
    reveal_strlit("msg");
    reveal_strlit("id");
    assert("id"@.len() == 2);
    assert("msg"@.len() == 3);
    let j = x.doc();
    if let ClientMessage::Pong { id } = x {
        assert(slot(j, "msg"@, 0) == Some(JsonView::String("pong"@)));
        assert(slot(j, "id"@, 1) == opt_doc(id));
        lemma_optional(id, id);
        if let ClientMessage::Pong { id: other_id } = back {
            lemma_optional(id, other_id);
        }
    }
}

impl RoundTrip for ClientMessage {
    open spec fn writable(&self) -> bool {
        match *self {
            ClientMessage::Connect { version, support } => version.writable() && support.writable(),
            ClientMessage::Method { id, method, params } => id.writable() && method.writable() && params.writable(),
            ClientMessage::Sub { id, name, params } => id.writable() && name.writable() && params.writable(),
            ClientMessage::Unsub { id } => id.writable(),
            ClientMessage::Ping { id } => opt_writable(id),
            ClientMessage::Pong { id } => opt_writable(id),
        }
    }

    proof fn law_round_trip(&self, back: &ClientMessage) {
        match *self {
            ClientMessage::Connect { .. } => lemma_client_connect(*self, *back),
            ClientMessage::Method { .. } => lemma_client_method(*self, *back),
            ClientMessage::Sub { .. } => lemma_client_sub(*self, *back),
            ClientMessage::Unsub { .. } => lemma_client_unsub(*self, *back),
            ClientMessage::Ping { .. } => lemma_client_ping(*self, *back),
            ClientMessage::Pong { .. } => lemma_client_pong(*self, *back),
        }
    }
}

/// The tags are different.
proof fn lemma_server_tags()
    ensures
        "connected"@ != "failed"@,
        "connected"@ != "ping"@,
        "connected"@ != "pong"@,
        "connected"@ != "result"@,
        "connected"@ != "updated"@,
        "connected"@ != "nosub"@,
        "connected"@ != "ready"@,
        "connected"@ != "added"@,
        "connected"@ != "changed"@,
        "connected"@ != "removed"@,
        "connected"@ != "addedBefore"@,
        "connected"@ != "movedBefore"@,
        "connected"@ != "error"@,
        "failed"@ != "ping"@,
        "failed"@ != "pong"@,
        "failed"@ != "result"@,
        "failed"@ != "updated"@,
        "failed"@ != "nosub"@,
        "failed"@ != "ready"@,
        "failed"@ != "added"@,
        "failed"@ != "changed"@,
        "failed"@ != "removed"@,
        "failed"@ != "addedBefore"@,
        "failed"@ != "movedBefore"@,
        "failed"@ != "error"@,
        "ping"@ != "pong"@,
        "ping"@ != "result"@,
        "ping"@ != "updated"@,
        "ping"@ != "nosub"@,
        "ping"@ != "ready"@,
        "ping"@ != "added"@,
        "ping"@ != "changed"@,
        "ping"@ != "removed"@,
        "ping"@ != "addedBefore"@,
        "ping"@ != "movedBefore"@,
        "ping"@ != "error"@,
        "pong"@ != "result"@,
        "pong"@ != "updated"@,
        "pong"@ != "nosub"@,
        "pong"@ != "ready"@,
        "pong"@ != "added"@,
        "pong"@ != "changed"@,
        "pong"@ != "removed"@,
        "pong"@ != "addedBefore"@,
        "pong"@ != "movedBefore"@,
        "pong"@ != "error"@,
        "result"@ != "updated"@,
        "result"@ != "nosub"@,
        "result"@ != "ready"@,
        "result"@ != "added"@,
        "result"@ != "changed"@,
        "result"@ != "removed"@,
        "result"@ != "addedBefore"@,
        "result"@ != "movedBefore"@,
        "result"@ != "error"@,
        "updated"@ != "nosub"@,
        "updated"@ != "ready"@,
        "updated"@ != "added"@,
        "updated"@ != "changed"@,
        "updated"@ != "removed"@,
        "updated"@ != "addedBefore"@,
        "updated"@ != "movedBefore"@,
        "updated"@ != "error"@,
        "nosub"@ != "ready"@,
        "nosub"@ != "added"@,
        "nosub"@ != "changed"@,
        "nosub"@ != "removed"@,
        "nosub"@ != "addedBefore"@,
        "nosub"@ != "movedBefore"@,
        "nosub"@ != "error"@,
        "ready"@ != "added"@,
        "ready"@ != "changed"@,
        "ready"@ != "removed"@,
        "ready"@ != "addedBefore"@,
        "ready"@ != "movedBefore"@,
        "ready"@ != "error"@,
        "added"@ != "changed"@,
        "added"@ != "removed"@,
        "added"@ != "addedBefore"@,
        "added"@ != "movedBefore"@,
        "added"@ != "error"@,
        "changed"@ != "removed"@,
        "changed"@ != "addedBefore"@,
        "changed"@ != "movedBefore"@,
        "changed"@ != "error"@,
        "removed"@ != "addedBefore"@,
        "removed"@ != "movedBefore"@,
        "removed"@ != "error"@,
        "addedBefore"@ != "movedBefore"@,
        "addedBefore"@ != "error"@,
        "movedBefore"@ != "error"@,
{
    reveal_strlit("connected");
    reveal_strlit("failed");
    reveal_strlit("ping");
    reveal_strlit("pong");
    reveal_strlit("result");
    reveal_strlit("updated");
    reveal_strlit("nosub");
    reveal_strlit("ready");
    reveal_strlit("added");
    reveal_strlit("changed");
    reveal_strlit("removed");
    reveal_strlit("addedBefore");
    reveal_strlit("movedBefore");
    reveal_strlit("error");
    assert("ping"@.len() == 4 && "ping"@[1] == 'i');
    assert("pong"@.len() == 4 && "pong"@[1] == 'o');
    assert("nosub"@.len() == 5 && "nosub"@[0] == 'n');
    assert("ready"@.len() == 5 && "ready"@[0] == 'r');
    assert("added"@.len() == 5 && "added"@[0] == 'a');
    assert("error"@.len() == 5 && "error"@[0] == 'e');
    assert("failed"@.len() == 6 && "failed"@[0] == 'f');
    assert("result"@.len() == 6 && "result"@[0] == 'r');
    assert("updated"@.len() == 7 && "updated"@[0] == 'u');
    assert("changed"@.len() == 7 && "changed"@[0] == 'c');
    assert("removed"@.len() == 7 && "removed"@[0] == 'r');
    assert("connected"@.len() == 9);
    assert("addedBefore"@.len() == 11 && "addedBefore"@[0] == 'a');
    assert("movedBefore"@.len() == 11 && "movedBefore"@[0] == 'm');
}

proof fn lemma_server_connected(x: ServerMessage, back: ServerMessage)
    requires
        x is Connected,
        x.writable(),
    ensures
        ServerMessage::accepts(x.doc()),
        back.read_from(x.doc()) ==> back.doc() == x.doc(),
{
    reveal(with);
    reveal(with_some);
    lemma_server_tags();
    reveal_strlit("msg");
    reveal_strlit("session");
    assert("msg"@.len() == 3);
    assert("session"@.len() == 7);
    let j = x.doc();
    if let ServerMessage::Connected { session } = x {
        assert(slot(j, "msg"@, 0) == Some(JsonView::String("connected"@)));
        assert(slot(j, "session"@, 1) == Some(session.doc()));
        lemma_required(session, session);
        if let ServerMessage::Connected { session: other_session } = back {
            lemma_required(session, other_session);
        }
    }
}

proof fn lemma_server_failed(x: ServerMessage, back: ServerMessage)
    requires
        x is Failed,
        x.writable(),
    ensures
        ServerMessage::accepts(x.doc()),
        back.read_from(x.doc()) ==> back.doc() == x.doc(),
{
    reveal(with);
    reveal(with_some);
    lemma_server_tags();
    reveal_strlit("msg");
    reveal_strlit("version");
    assert("msg"@.len() == 3);
    assert("version"@.len() == 7);
    let j = x.doc();
    if let ServerMessage::Failed { version } = x {
        assert(slot(j, "msg"@, 0) == Some(JsonView::String("failed"@)));
        assert(slot(j, "version"@, 1) == Some(version.doc()));
        lemma_required(version, version);
        if let ServerMessage::Failed { version: other_version } = back {
            lemma_required(version, other_version);
        }
    }
}

proof fn lemma_server_ping(x: ServerMessage, back: ServerMessage)
    requires
        x is Ping,
        x.writable(),
    ensures
        ServerMessage::accepts(x.doc()),
        back.read_from(x.doc()) ==> back.doc() == x.doc(),
{
    reveal(with);
    reveal(with_some);
    lemma_server_tags();
    reveal_strlit("msg");
    reveal_strlit("id");
    assert("id"@.len() == 2);
    assert("msg"@.len() == 3);
    let j = x.doc();
    if let ServerMessage::Ping { id } = x {
        assert(slot(j, "msg"@, 0) == Some(JsonView::String("ping"@)));
        assert(slot(j, "id"@, 1) == opt_doc(id));
        lemma_optional(id, id);
        if let ServerMessage::Ping { id: other_id } = back {
            lemma_optional(id, other_id);
        }
    }
}

proof fn lemma_server_pong(x: ServerMessage, back: ServerMessage)
    requires
        x is Pong,
        x.writable(),
    ensures
        ServerMessage::accepts(x.doc()),
        back.read_from(x.doc()) ==> back.doc() == x.doc(),
{
    reveal(with);
    reveal(with_some);
    lemma_server_tags();
    reveal_strlit("msg");
    reveal_strlit("id");
    assert("id"@.len() == 2);
    assert("msg"@.len() == 3);
    let j = x.doc();
    if let ServerMessage::Pong { id } = x {
        assert(slot(j, "msg"@, 0) == Some(JsonView::String("pong"@)));
        assert(slot(j, "id"@, 1) == opt_doc(id));
        lemma_optional(id, id);
        if let ServerMessage::Pong { id: other_id } = back {
            lemma_optional(id, other_id);
        }
    }
}

proof fn lemma_server_result(x: ServerMessage, back: ServerMessage)
    requires
        x is Result,
        x.writable(),
    ensures
        ServerMessage::accepts(x.doc()),
        back.read_from(x.doc()) ==> back.doc() == x.doc(),
{
    reveal(with);
    reveal(with_some);
    lemma_server_tags();
    reveal_strlit("msg");
    reveal_strlit("id");
    reveal_strlit("result");
    reveal_strlit("error");
    assert("id"@.len() == 2);
    assert("msg"@.len() == 3);
    assert("error"@.len() == 5);
    assert("result"@.len() == 6);
    let j = x.doc();
    if let ServerMessage::Result { id, result, error } = x {
        assert(slot(j, "msg"@, 0) == Some(JsonView::String("result"@)));
        assert(slot(j, "id"@, 1) == Some(id.doc()));
        assert(slot(j, "result"@, 2) == opt_doc(result));
        assert(slot(j, "error"@, 3) == opt_doc(error));
        lemma_required(id, id);
        lemma_optional(result, result);
        lemma_optional(error, error);
        if let ServerMessage::Result { id: other_id, result: other_result, error: other_error } = back {
            lemma_required(id, other_id);
            lemma_optional(result, other_result);
            lemma_optional(error, other_error);
        }
    }
}

proof fn lemma_server_updated(x: ServerMessage, back: ServerMessage)
    requires
        x is Updated,
        x.writable(),
    ensures
        ServerMessage::accepts(x.doc()),
        back.read_from(x.doc()) ==> back.doc() == x.doc(),
{
    reveal(with);
    reveal(with_some);
    lemma_server_tags();
    reveal_strlit("msg");
    reveal_strlit("methods");
    assert("msg"@.len() == 3);
    assert("methods"@.len() == 7);
    let j = x.doc();
    if let ServerMessage::Updated { methods } = x {
        assert(slot(j, "msg"@, 0) == Some(JsonView::String("updated"@)));
        assert(slot(j, "methods"@, 1) == Some(methods.doc()));
        lemma_required(methods, methods);
        if let ServerMessage::Updated { methods: other_methods } = back {
            lemma_required(methods, other_methods);
        }
    }
}

proof fn lemma_server_nosub(x: ServerMessage, back: ServerMessage)
    requires
        x is Nosub,
        x.writable(),
    ensures
        ServerMessage::accepts(x.doc()),
        back.read_from(x.doc()) ==> back.doc() == x.doc(),
{
    reveal(with);
    reveal(with_some);
    lemma_server_tags();
    reveal_strlit("msg");
    reveal_strlit("id");
    reveal_strlit("error");
    assert("id"@.len() == 2);
    assert("msg"@.len() == 3);
    assert("error"@.len() == 5);
    let j = x.doc();
    if let ServerMessage::Nosub { id, error } = x {
        assert(slot(j, "msg"@, 0) == Some(JsonView::String("nosub"@)));
        assert(slot(j, "id"@, 1) == Some(id.doc()));
        assert(slot(j, "error"@, 2) == opt_doc(error));
        lemma_required(id, id);
        lemma_optional(error, error);
        if let ServerMessage::Nosub { id: other_id, error: other_error } = back {
            lemma_required(id, other_id);
            lemma_optional(error, other_error);
        }
    }
}

proof fn lemma_server_ready(x: ServerMessage, back: ServerMessage)
    requires
        x is Ready,
        x.writable(),
    ensures
        ServerMessage::accepts(x.doc()),
        back.read_from(x.doc()) ==> back.doc() == x.doc(),
{
    reveal(with);
    reveal(with_some);
    lemma_server_tags();
    reveal_strlit("msg");
    reveal_strlit("subs");
    assert("msg"@.len() == 3);
    assert("subs"@.len() == 4);
    let j = x.doc();
    if let ServerMessage::Ready { subs } = x {
        assert(slot(j, "msg"@, 0) == Some(JsonView::String("ready"@)));
        assert(slot(j, "subs"@, 1) == Some(subs.doc()));
        lemma_required(subs, subs);
        if let ServerMessage::Ready { subs: other_subs } = back {
            lemma_required(subs, other_subs);
        }
    }
}

proof fn lemma_server_added(x: ServerMessage, back: ServerMessage)
    requires
        x is Added,
        x.writable(),
    ensures
        ServerMessage::accepts(x.doc()),
        back.read_from(x.doc()) ==> back.doc() == x.doc(),
{
    reveal(with);
    reveal(with_some);
    lemma_server_tags();
    reveal_strlit("msg");
    reveal_strlit("collection");
    reveal_strlit("id");
    reveal_strlit("fields");
    assert("id"@.len() == 2);
    assert("msg"@.len() == 3);
    assert("fields"@.len() == 6);
    assert("collection"@.len() == 10);
    let j = x.doc();
    if let ServerMessage::Added { collection, id, fields } = x {
        assert(slot(j, "msg"@, 0) == Some(JsonView::String("added"@)));
        assert(slot(j, "collection"@, 1) == Some(collection.doc()));
        assert(slot(j, "id"@, 2) == Some(id.doc()));
        assert(slot(j, "fields"@, 3) == opt_doc(fields));
        lemma_required(collection, collection);
        lemma_required(id, id);
        lemma_optional(fields, fields);
        if let ServerMessage::Added { collection: other_collection, id: other_id, fields: other_fields } = back {
            lemma_required(collection, other_collection);
            lemma_required(id, other_id);
            lemma_optional(fields, other_fields);
        }
    }
}

proof fn lemma_server_changed(x: ServerMessage, back: ServerMessage)
    requires
        x is Changed,
        x.writable(),
    ensures
        ServerMessage::accepts(x.doc()),
        back.read_from(x.doc()) ==> back.doc() == x.doc(),
{
    reveal(with);
    reveal(with_some);
    lemma_server_tags();
    reveal_strlit("msg");
    reveal_strlit("collection");
    reveal_strlit("id");
    reveal_strlit("fields");
    reveal_strlit("cleared");
    assert("id"@.len() == 2);
    assert("msg"@.len() == 3);
    assert("fields"@.len() == 6);
    assert("cleared"@.len() == 7);
    assert("collection"@.len() == 10);
    let j = x.doc();
    if let ServerMessage::Changed { collection, id, fields, cleared } = x {
        assert(slot(j, "msg"@, 0) == Some(JsonView::String("changed"@)));
        assert(slot(j, "collection"@, 1) == Some(collection.doc()));
        assert(slot(j, "id"@, 2) == Some(id.doc()));
        assert(slot(j, "fields"@, 3) == opt_doc(fields));
        assert(slot(j, "cleared"@, 4) == opt_doc(cleared));
        lemma_required(collection, collection);
        lemma_required(id, id);
        lemma_optional(fields, fields);
        lemma_optional(cleared, cleared);
        if let ServerMessage::Changed { collection: other_collection, id: other_id, fields: other_fields, cleared: other_cleared } = back {
            lemma_required(collection, other_collection);
            lemma_required(id, other_id);
            lemma_optional(fields, other_fields);
            lemma_optional(cleared, other_cleared);
        }
    }
}

proof fn lemma_server_removed(x: ServerMessage, back: ServerMessage)
    requires
        x is Removed,
        x.writable(),
    ensures
        ServerMessage::accepts(x.doc()),
        back.read_from(x.doc()) ==> back.doc() == x.doc(),
{
    reveal(with);
    reveal(with_some);
    lemma_server_tags();
    reveal_strlit("msg");
    reveal_strlit("collection");
    reveal_strlit("id");
    assert("id"@.len() == 2);
    assert("msg"@.len() == 3);
    assert("collection"@.len() == 10);
    let j = x.doc();
    if let ServerMessage::Removed { collection, id } = x {
        assert(slot(j, "msg"@, 0) == Some(JsonView::String("removed"@)));
        assert(slot(j, "collection"@, 1) == Some(collection.doc()));
        assert(slot(j, "id"@, 2) == Some(id.doc()));
        lemma_required(collection, collection);
        lemma_required(id, id);
        if let ServerMessage::Removed { collection: other_collection, id: other_id } = back {
            lemma_required(collection, other_collection);
            lemma_required(id, other_id);
        }
    }
}

proof fn lemma_server_added_before(x: ServerMessage, back: ServerMessage)
    requires
        x is AddedBefore,
        x.writable(),
    ensures
        ServerMessage::accepts(x.doc()),
        back.read_from(x.doc()) ==> back.doc() == x.doc(),
{
    reveal(with);
    reveal(with_some);
    lemma_server_tags();
    reveal_strlit("msg");
    reveal_strlit("collection");
    reveal_strlit("id");
    reveal_strlit("fields");
    reveal_strlit("before");
    assert("id"@.len() == 2);
    assert("msg"@.len() == 3);
    assert("fields"@.len() == 6 && "fields"@[0] == 'f');
    assert("before"@.len() == 6 && "before"@[0] == 'b');
    assert("collection"@.len() == 10);
    let j = x.doc();
    if let ServerMessage::AddedBefore { collection, id, fields, before } = x {
        assert(slot(j, "msg"@, 0) == Some(JsonView::String("addedBefore"@)));
        assert(slot(j, "collection"@, 1) == Some(collection.doc()));
        assert(slot(j, "id"@, 2) == Some(id.doc()));
        assert(slot(j, "fields"@, 3) == opt_doc(fields));
        assert(slot(j, "before"@, 4) == opt_doc(before));
        lemma_required(collection, collection);
        lemma_required(id, id);
        lemma_optional(fields, fields);
        lemma_optional(before, before);
        if let ServerMessage::AddedBefore { collection: other_collection, id: other_id, fields: other_fields, before: other_before } = back {
            lemma_required(collection, other_collection);
            lemma_required(id, other_id);
            lemma_optional(fields, other_fields);
            lemma_optional(before, other_before);
        }
    }
}

proof fn lemma_server_moved_before(x: ServerMessage, back: ServerMessage)
    requires
        x is MovedBefore,
        x.writable(),
    ensures
        ServerMessage::accepts(x.doc()),
        back.read_from(x.doc()) ==> back.doc() == x.doc(),
{
    reveal(with);
    reveal(with_some);
    lemma_server_tags();
    reveal_strlit("msg");
    reveal_strlit("collection");
    reveal_strlit("id");
    reveal_strlit("before");
    assert("id"@.len() == 2);
    assert("msg"@.len() == 3);
    assert("before"@.len() == 6);
    assert("collection"@.len() == 10);
    let j = x.doc();
    if let ServerMessage::MovedBefore { collection, id, before } = x {
        assert(slot(j, "msg"@, 0) == Some(JsonView::String("movedBefore"@)));
        assert(slot(j, "collection"@, 1) == Some(collection.doc()));
        assert(slot(j, "id"@, 2) == Some(id.doc()));
        assert(slot(j, "before"@, 3) == opt_doc(before));
        lemma_required(collection, collection);
        lemma_required(id, id);
        lemma_optional(before, before);
        if let ServerMessage::MovedBefore { collection: other_collection, id: other_id, before: other_before } = back {
            lemma_required(collection, other_collection);
            lemma_required(id, other_id);
            lemma_optional(before, other_before);
        }
    }
}

proof fn lemma_server_error(x: ServerMessage, back: ServerMessage)
    requires
        x is Error,
        x.writable(),
    ensures
        ServerMessage::accepts(x.doc()),
        back.read_from(x.doc()) ==> back.doc() == x.doc(),
{
    reveal(with);
    reveal(with_some);
    lemma_server_tags();
    reveal_strlit("msg");
    reveal_strlit("reason");
    reveal_strlit("offendingMessage");
    assert("msg"@.len() == 3);
    assert("reason"@.len() == 6);
    assert("offendingMessage"@.len() == 16);
    let j = x.doc();
    if let ServerMessage::Error { reason, offending_message } = x {
        assert(slot(j, "msg"@, 0) == Some(JsonView::String("error"@)));
        assert(slot(j, "reason"@, 1) == Some(reason.doc()));
        assert(slot(j, "offendingMessage"@, 2) == opt_doc(offending_message));
        lemma_required(reason, reason);
        lemma_optional(offending_message, offending_message);
        if let ServerMessage::Error { reason: other_reason, offending_message: other_offending_message } = back {
            lemma_required(reason, other_reason);
            lemma_optional(offending_message, other_offending_message);
        }
    }
}

impl RoundTrip for ServerMessage {
    open spec fn writable(&self) -> bool {
        match *self {
            ServerMessage::Connected { session } => session.writable(),
            ServerMessage::Failed { version } => version.writable(),
            ServerMessage::Ping { id } => opt_writable(id),
            ServerMessage::Pong { id } => opt_writable(id),
            ServerMessage::Result { id, result, error } => id.writable() && opt_writable(result) && opt_writable(error),
            ServerMessage::Updated { methods } => methods.writable(),
            ServerMessage::Nosub { id, error } => id.writable() && opt_writable(error),
            ServerMessage::Ready { subs } => subs.writable(),
            ServerMessage::Added { collection, id, fields } => collection.writable() && id.writable() && opt_writable(fields),
            ServerMessage::Changed { collection, id, fields, cleared } => collection.writable() && id.writable() && opt_writable(fields) && opt_writable(cleared),
            ServerMessage::Removed { collection, id } => collection.writable() && id.writable(),
            ServerMessage::AddedBefore { collection, id, fields, before } => collection.writable() && id.writable() && opt_writable(fields) && opt_writable(before),
            ServerMessage::MovedBefore { collection, id, before } => collection.writable() && id.writable() && opt_writable(before),
            ServerMessage::Error { reason, offending_message } => reason.writable() && opt_writable(offending_message),
            ServerMessage::Unknown(unknown) => !server_typed(unknown.doc()) && unknown.writable(),
        }
    }

    proof fn law_round_trip(&self, back: &ServerMessage) {
        match *self {
            ServerMessage::Connected { .. } => lemma_server_connected(*self, *back),
            ServerMessage::Failed { .. } => lemma_server_failed(*self, *back),
            ServerMessage::Ping { .. } => lemma_server_ping(*self, *back),
            ServerMessage::Pong { .. } => lemma_server_pong(*self, *back),
            ServerMessage::Result { .. } => lemma_server_result(*self, *back),
            ServerMessage::Updated { .. } => lemma_server_updated(*self, *back),
            ServerMessage::Nosub { .. } => lemma_server_nosub(*self, *back),
            ServerMessage::Ready { .. } => lemma_server_ready(*self, *back),
            ServerMessage::Added { .. } => lemma_server_added(*self, *back),
            ServerMessage::Changed { .. } => lemma_server_changed(*self, *back),
            ServerMessage::Removed { .. } => lemma_server_removed(*self, *back),
            ServerMessage::AddedBefore { .. } => lemma_server_added_before(*self, *back),
            ServerMessage::MovedBefore { .. } => lemma_server_moved_before(*self, *back),
            ServerMessage::Error { .. } => lemma_server_error(*self, *back),
            ServerMessage::Unknown(unknown) => {
                if let ServerMessage::Unknown(other) = *back {
                    unknown.law_round_trip(&other);
                }
            },
        }
    }
}

} // verus!
