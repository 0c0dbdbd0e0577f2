//! The payloads of events come back as they were.
use crate::model::payload::{
    Activity, BulkDelete, ClientAction, DesktopNotification, MyMessageMeta, NotificationMessage,
    NotificationPayload, RoleChange, RoleChangeKind, SubscriptionChange, SubscriptionStub,
    UserDataEvent,
};
use crate::model::entity::subscription::Subscription;
use crate::model::faithful::{
    lemma_held, lemma_holds_more, lemma_holds_none, lemma_optional, lemma_placed_more,
    lemma_placed_none, lemma_required, lemma_same_some, lemma_with, lemma_with_some, opt_doc,
    opt_writable, placed, tag, RoundTrip, Verbatim,
};
use crate::model::json::JsonView;
use crate::model::wire::{is_required, same_doc, slot, with, with_some, Decode, Encode};
use vstd::prelude::*;
use vstd::string::*;

verus! {

impl Verbatim for Activity {
    proof fn law_verbatim(&self, j: JsonView) {
    }
}

impl RoundTrip for Activity {
    open spec fn writable(&self) -> bool {
        true
    }

    proof fn law_round_trip(&self, back: &Activity) {
    }
}

impl Verbatim for ClientAction {
    proof fn law_verbatim(&self, j: JsonView) {
    }
}

impl RoundTrip for ClientAction {
    open spec fn writable(&self) -> bool {
        true
    }

    proof fn law_round_trip(&self, back: &ClientAction) {
    }
}

impl Verbatim for RoleChangeKind {
    proof fn law_verbatim(&self, j: JsonView) {
    }
}

impl RoundTrip for RoleChangeKind {
    open spec fn writable(&self) -> bool {
        true
    }

    proof fn law_round_trip(&self, back: &RoleChangeKind) {
    }
}

/// The names of the members of a [`MyMessageMeta`], in order.
spec fn my_message_meta_key(i: int) -> Seq<char> {
    if i == 0 {
        "roomParticipant"@
    } else if i == 1 {
        "roomType"@
    } else if i == 2 {
        "roomName"@
    } else {
        Seq::empty()
    }
}

/// What each member of a [`MyMessageMeta`] is written as.
spec fn my_message_meta_value(x: MyMessageMeta, i: int) -> Option<JsonView> {
    if i == 0 {
        opt_doc(x.room_participant)
    } else if i == 1 {
        opt_doc(x.room_type)
    } else if i == 2 {
        opt_doc(x.room_name)
    } else {
        None
    }
}

/// The position of a name.
spec fn my_message_meta_position(s: Seq<char>) -> int {
    let t = tag(s, 0, 1, 4);
    if t == 80111114015 {
        0
    } else if t == 84111114008 {
        1
    } else if t == 78111114008 {
        2
    } else {
        -1
    }
}

proof fn lemma_my_message_meta_keys()
    ensures
        placed(|i: int| my_message_meta_key(i), |s: Seq<char>| my_message_meta_position(s), 3),
{
    let key = |i: int| my_message_meta_key(i);
    let position = |s: Seq<char>| my_message_meta_position(s);
    lemma_placed_none(key, position);
    assert(my_message_meta_position("roomParticipant"@) == 0) by {
        reveal_strlit("roomParticipant");
        assert("roomParticipant"@.len() == 15);
        assert("roomParticipant"@[0] == 'r');
        assert("roomParticipant"@[1] == 'o');
        assert("roomParticipant"@[4] == 'P');
    }
    lemma_placed_more(key, position, 0);
    assert(my_message_meta_position("roomType"@) == 1) by {
        reveal_strlit("roomType");
        assert("roomType"@.len() == 8);
        assert("roomType"@[0] == 'r');
        assert("roomType"@[1] == 'o');
        assert("roomType"@[4] == 'T');
    }
    lemma_placed_more(key, position, 1);
    assert(my_message_meta_position("roomName"@) == 2) by {
        reveal_strlit("roomName");
        assert("roomName"@.len() == 8);
        assert("roomName"@[0] == 'r');
        assert("roomName"@[1] == 'o');
        assert("roomName"@[4] == 'N');
    }
    lemma_placed_more(key, position, 2);
}

/// Each member of a written [`MyMessageMeta`] is what its field is written as: a field that is unset has no
/// member.
pub proof fn law_my_message_meta_members(x: MyMessageMeta)
    ensures
        slot(x.doc(), "roomParticipant"@, 0) == opt_doc(x.room_participant),
        slot(x.doc(), "roomType"@, 1) == opt_doc(x.room_type),
        slot(x.doc(), "roomName"@, 2) == opt_doc(x.room_name),
{
    lemma_my_message_meta_keys();
    let key = |i: int| my_message_meta_key(i);
    let value = |i: int| my_message_meta_value(x, i);
    let position = |s: Seq<char>| my_message_meta_position(s);
    let m0 = Map::<Seq<char>, JsonView>::empty();
    lemma_holds_none(key, value, 3);
    let m1 = with_some(m0, "roomParticipant"@, x.room_participant);
    lemma_with_some(m0, "roomParticipant"@, x.room_participant);
    lemma_holds_more(m0, key, value, position, 3, 0, m1);
    let m2 = with_some(m1, "roomType"@, x.room_type);
    lemma_with_some(m1, "roomType"@, x.room_type);
    lemma_holds_more(m1, key, value, position, 3, 1, m2);
    let m3 = with_some(m2, "roomName"@, x.room_name);
    lemma_with_some(m2, "roomName"@, x.room_name);
    lemma_holds_more(m2, key, value, position, 3, 2, m3);
    lemma_held(m3, key, value, 3, 0);
    lemma_held(m3, key, value, 3, 1);
    lemma_held(m3, key, value, 3, 2);
    assert(x.doc() == JsonView::Object(m3));
}

/// A written [`MyMessageMeta`] can be read.
proof fn lemma_my_message_meta_accepted(x: MyMessageMeta)
    requires
        x.writable(),
    ensures
        MyMessageMeta::accepts(x.doc()),
{
    law_my_message_meta_members(x);
    lemma_optional(x.room_participant, x.room_participant);
    lemma_optional(x.room_type, x.room_type);
    lemma_optional(x.room_name, x.room_name);
}

/// Two [`MyMessageMeta`]s whose fields are written the same are written the same.
pub proof fn lemma_my_message_meta_same(x: MyMessageMeta, y: MyMessageMeta)
    requires
        same_doc(x.room_participant, y.room_participant),
        same_doc(x.room_type, y.room_type),
        same_doc(x.room_name, y.room_name),
    ensures
        x.doc() == y.doc(),
{
    let m0 = Map::<Seq<char>, JsonView>::empty();
    let m1 = with_some(m0, "roomParticipant"@, x.room_participant);
    lemma_same_some(m0, "roomParticipant"@, x.room_participant, y.room_participant);
    let m2 = with_some(m1, "roomType"@, x.room_type);
    lemma_same_some(m1, "roomType"@, x.room_type, y.room_type);
    let m3 = with_some(m2, "roomName"@, x.room_name);
    lemma_same_some(m2, "roomName"@, x.room_name, y.room_name);
}

impl RoundTrip for MyMessageMeta {
    open spec fn writable(&self) -> bool {
        &&& opt_writable(self.room_participant)
        &&& opt_writable(self.room_type)
        &&& opt_writable(self.room_name)
    }

    proof fn law_round_trip(&self, back: &MyMessageMeta) {
        lemma_my_message_meta_accepted(*self);
        if back.read_from(self.doc()) {
            law_my_message_meta_members(*self);
            lemma_optional(self.room_participant, back.room_participant);
            lemma_optional(self.room_type, back.room_type);
            lemma_optional(self.room_name, back.room_name);
            lemma_my_message_meta_same(*back, *self);
        }
    }
}

/// The names of the members of a [`BulkDelete`], in order.
spec fn bulk_delete_key(i: int) -> Seq<char> {
    if i == 0 {
        "rid"@
    } else if i == 1 {
        "ids"@
    } else if i == 2 {
        "ts"@
    } else if i == 3 {
        "users"@
    } else if i == 4 {
        "excludePinned"@
    } else if i == 5 {
        "ignoreDiscussion"@
    } else if i == 6 {
        "showDeletedStatus"@
    } else if i == 7 {
        "filesOnly"@
    } else {
        Seq::empty()
    }
}

/// What each member of a [`BulkDelete`] is written as.
spec fn bulk_delete_value(x: BulkDelete, i: int) -> Option<JsonView> {
    if i == 0 {
        Some(x.rid.doc())
    } else if i == 1 {
        opt_doc(x.ids)
    } else if i == 2 {
        opt_doc(x.ts)
    } else if i == 3 {
        opt_doc(x.users)
    } else if i == 4 {
        opt_doc(x.exclude_pinned)
    } else if i == 5 {
        opt_doc(x.ignore_discussion)
    } else if i == 6 {
        opt_doc(x.show_deleted_status)
    } else if i == 7 {
        opt_doc(x.files_only)
    } else {
        None
    }
}

/// The position of a name.
spec fn bulk_delete_position(s: Seq<char>) -> int {
    let t = tag(s, 0, 1, 2);
    if t == 100105114003 {
        0
    } else if t == 115100105003 {
        1
    } else if t == 115116002 {
        2
    } else if t == 101115117005 {
        3
    } else if t == 99120101013 {
        4
    } else if t == 110103105016 {
        5
    } else if t == 111104115017 {
        6
    } else if t == 108105102009 {
        7
    } else {
        -1
    }
}

proof fn lemma_bulk_delete_keys()
    ensures
        placed(|i: int| bulk_delete_key(i), |s: Seq<char>| bulk_delete_position(s), 8),
{
    let key = |i: int| bulk_delete_key(i);
    let position = |s: Seq<char>| bulk_delete_position(s);
    lemma_placed_none(key, position);
    assert(bulk_delete_position("rid"@) == 0) by {
        reveal_strlit("rid");
        assert("rid"@.len() == 3);
        assert("rid"@[0] == 'r');
        assert("rid"@[1] == 'i');
        assert("rid"@[2] == 'd');
    }
    lemma_placed_more(key, position, 0);
    assert(bulk_delete_position("ids"@) == 1) by {
        reveal_strlit("ids");
        assert("ids"@.len() == 3);
        assert("ids"@[0] == 'i');
        assert("ids"@[1] == 'd');
        assert("ids"@[2] == 's');
    }
    lemma_placed_more(key, position, 1);
    assert(bulk_delete_position("ts"@) == 2) by {
        reveal_strlit("ts");
        assert("ts"@.len() == 2);
        assert("ts"@[0] == 't');
        assert("ts"@[1] == 's');
    }
    lemma_placed_more(key, position, 2);
    assert(bulk_delete_position("users"@) == 3) by {
        reveal_strlit("users");
        assert("users"@.len() == 5);
        assert("users"@[0] == 'u');
        assert("users"@[1] == 's');
        assert("users"@[2] == 'e');
    }
    lemma_placed_more(key, position, 3);
    assert(bulk_delete_position("excludePinned"@) == 4) by {
        reveal_strlit("excludePinned");
        assert("excludePinned"@.len() == 13);
        assert("excludePinned"@[0] == 'e');
        assert("excludePinned"@[1] == 'x');
        assert("excludePinned"@[2] == 'c');
    }
    lemma_placed_more(key, position, 4);
    assert(bulk_delete_position("ignoreDiscussion"@) == 5) by {
        reveal_strlit("ignoreDiscussion");
        assert("ignoreDiscussion"@.len() == 16);
        assert("ignoreDiscussion"@[0] == 'i');
        assert("ignoreDiscussion"@[1] == 'g');
        assert("ignoreDiscussion"@[2] == 'n');
    }
    lemma_placed_more(key, position, 5);
    assert(bulk_delete_position("showDeletedStatus"@) == 6) by {
        reveal_strlit("showDeletedStatus");
        assert("showDeletedStatus"@.len() == 17);
        assert("showDeletedStatus"@[0] == 's');
        assert("showDeletedStatus"@[1] == 'h');
        assert("showDeletedStatus"@[2] == 'o');
    }
    lemma_placed_more(key, position, 6);
    assert(bulk_delete_position("filesOnly"@) == 7) by {
        reveal_strlit("filesOnly");
        assert("filesOnly"@.len() == 9);
        assert("filesOnly"@[0] == 'f');
        assert("filesOnly"@[1] == 'i');
        assert("filesOnly"@[2] == 'l');
    }
    lemma_placed_more(key, position, 7);
}

/// Each member of a written [`BulkDelete`] is what its field is written as: a field that is unset has no
/// member.
pub proof fn law_bulk_delete_members(x: BulkDelete)
    ensures
        slot(x.doc(), "rid"@, 0) == Some(x.rid.doc()),
        slot(x.doc(), "ids"@, 1) == opt_doc(x.ids),
        slot(x.doc(), "ts"@, 2) == opt_doc(x.ts),
        slot(x.doc(), "users"@, 3) == opt_doc(x.users),
        slot(x.doc(), "excludePinned"@, 4) == opt_doc(x.exclude_pinned),
        slot(x.doc(), "ignoreDiscussion"@, 5) == opt_doc(x.ignore_discussion),
        slot(x.doc(), "showDeletedStatus"@, 6) == opt_doc(x.show_deleted_status),
        slot(x.doc(), "filesOnly"@, 7) == opt_doc(x.files_only),
{
    lemma_bulk_delete_keys();
    let key = |i: int| bulk_delete_key(i);
    let value = |i: int| bulk_delete_value(x, i);
    let position = |s: Seq<char>| bulk_delete_position(s);
    let m0 = Map::<Seq<char>, JsonView>::empty();
    lemma_holds_none(key, value, 8);
    let m1 = with(m0, "rid"@, x.rid.doc());
    lemma_with(m0, "rid"@, x.rid.doc());
    lemma_holds_more(m0, key, value, position, 8, 0, m1);
    let m2 = with_some(m1, "ids"@, x.ids);
    lemma_with_some(m1, "ids"@, x.ids);
    lemma_holds_more(m1, key, value, position, 8, 1, m2);
    let m3 = with_some(m2, "ts"@, x.ts);
    lemma_with_some(m2, "ts"@, x.ts);
    lemma_holds_more(m2, key, value, position, 8, 2, m3);
    let m4 = with_some(m3, "users"@, x.users);
    lemma_with_some(m3, "users"@, x.users);
    lemma_holds_more(m3, key, value, position, 8, 3, m4);
    let m5 = with_some(m4, "excludePinned"@, x.exclude_pinned);
    lemma_with_some(m4, "excludePinned"@, x.exclude_pinned);
    lemma_holds_more(m4, key, value, position, 8, 4, m5);
    let m6 = with_some(m5, "ignoreDiscussion"@, x.ignore_discussion);
    lemma_with_some(m5, "ignoreDiscussion"@, x.ignore_discussion);
    lemma_holds_more(m5, key, value, position, 8, 5, m6);
    let m7 = with_some(m6, "showDeletedStatus"@, x.show_deleted_status);
    lemma_with_some(m6, "showDeletedStatus"@, x.show_deleted_status);
    lemma_holds_more(m6, key, value, position, 8, 6, m7);
    let m8 = with_some(m7, "filesOnly"@, x.files_only);
    lemma_with_some(m7, "filesOnly"@, x.files_only);
    lemma_holds_more(m7, key, value, position, 8, 7, m8);
    lemma_held(m8, key, value, 8, 0);
    lemma_held(m8, key, value, 8, 1);
    lemma_held(m8, key, value, 8, 2);
    lemma_held(m8, key, value, 8, 3);
    lemma_held(m8, key, value, 8, 4);
    lemma_held(m8, key, value, 8, 5);
    lemma_held(m8, key, value, 8, 6);
    lemma_held(m8, key, value, 8, 7);
    assert(x.doc() == JsonView::Object(m8));
}

/// A written [`BulkDelete`] can be read.
proof fn lemma_bulk_delete_accepted(x: BulkDelete)
    requires
        x.writable(),
    ensures
        BulkDelete::accepts(x.doc()),
{
    law_bulk_delete_members(x);
    lemma_required(x.rid, x.rid);
    lemma_optional(x.ids, x.ids);
    lemma_optional(x.ts, x.ts);
    lemma_optional(x.users, x.users);
    lemma_optional(x.exclude_pinned, x.exclude_pinned);
    lemma_optional(x.ignore_discussion, x.ignore_discussion);
    lemma_optional(x.show_deleted_status, x.show_deleted_status);
    lemma_optional(x.files_only, x.files_only);
}

/// Two [`BulkDelete`]s whose fields are written the same are written the same.
pub proof fn lemma_bulk_delete_same(x: BulkDelete, y: BulkDelete)
    requires
        x.rid.doc() == y.rid.doc(),
        same_doc(x.ids, y.ids),
        same_doc(x.ts, y.ts),
        same_doc(x.users, y.users),
        same_doc(x.exclude_pinned, y.exclude_pinned),
        same_doc(x.ignore_discussion, y.ignore_discussion),
        same_doc(x.show_deleted_status, y.show_deleted_status),
        same_doc(x.files_only, y.files_only),
    ensures
        x.doc() == y.doc(),
{
    let m0 = Map::<Seq<char>, JsonView>::empty();
    let m1 = with(m0, "rid"@, x.rid.doc());
    let m2 = with_some(m1, "ids"@, x.ids);
    lemma_same_some(m1, "ids"@, x.ids, y.ids);
    let m3 = with_some(m2, "ts"@, x.ts);
    lemma_same_some(m2, "ts"@, x.ts, y.ts);
    let m4 = with_some(m3, "users"@, x.users);
    lemma_same_some(m3, "users"@, x.users, y.users);
    let m5 = with_some(m4, "excludePinned"@, x.exclude_pinned);
    lemma_same_some(m4, "excludePinned"@, x.exclude_pinned, y.exclude_pinned);
    let m6 = with_some(m5, "ignoreDiscussion"@, x.ignore_discussion);
    lemma_same_some(m5, "ignoreDiscussion"@, x.ignore_discussion, y.ignore_discussion);
    let m7 = with_some(m6, "showDeletedStatus"@, x.show_deleted_status);
    lemma_same_some(m6, "showDeletedStatus"@, x.show_deleted_status, y.show_deleted_status);
    let m8 = with_some(m7, "filesOnly"@, x.files_only);
    lemma_same_some(m7, "filesOnly"@, x.files_only, y.files_only);
}

impl RoundTrip for BulkDelete {
    open spec fn writable(&self) -> bool {
        &&& self.rid.writable()
        &&& opt_writable(self.ids)
        &&& opt_writable(self.ts)
        &&& opt_writable(self.users)
        &&& opt_writable(self.exclude_pinned)
        &&& opt_writable(self.ignore_discussion)
        &&& opt_writable(self.show_deleted_status)
        &&& opt_writable(self.files_only)
    }

    proof fn law_round_trip(&self, back: &BulkDelete) {
        lemma_bulk_delete_accepted(*self);
        if back.read_from(self.doc()) {
            law_bulk_delete_members(*self);
            lemma_required(self.rid, back.rid);
            lemma_optional(self.ids, back.ids);
            lemma_optional(self.ts, back.ts);
            lemma_optional(self.users, back.users);
            lemma_optional(self.exclude_pinned, back.exclude_pinned);
            lemma_optional(self.ignore_discussion, back.ignore_discussion);
            lemma_optional(self.show_deleted_status, back.show_deleted_status);
            lemma_optional(self.files_only, back.files_only);
            lemma_bulk_delete_same(*back, *self);
        }
    }
}

/// The names of the members of a [`DesktopNotification`], in order.
spec fn desktop_notification_key(i: int) -> Seq<char> {
    if i == 0 {
        "title"@
    } else if i == 1 {
        "text"@
    } else if i == 2 {
        "icon"@
    } else if i == 3 {
        "duration"@
    } else if i == 4 {
        "payload"@
    } else {
        Seq::empty()
    }
}

/// What each member of a [`DesktopNotification`] is written as.
spec fn desktop_notification_value(x: DesktopNotification, i: int) -> Option<JsonView> {
    if i == 0 {
        Some(x.title.doc())
    } else if i == 1 {
        Some(x.text.doc())
    } else if i == 2 {
        opt_doc(x.icon)
    } else if i == 3 {
        opt_doc(x.duration)
    } else if i == 4 {
        Some(x.payload.doc())
    } else {
        None
    }
}

/// The position of a name.
spec fn desktop_notification_position(s: Seq<char>) -> int {
    let t = tag(s, 0, 1, 2);
    if t == 116105116005 {
        0
    } else if t == 120101116004 {
        1
    } else if t == 111099105004 {
        2
    } else if t == 114117100008 {
        3
    } else if t == 121097112007 {
        4
    } else {
        -1
    }
}

proof fn lemma_desktop_notification_keys()
    ensures
        placed(|i: int| desktop_notification_key(i), |s: Seq<char>| desktop_notification_position(s), 5),
{
    let key = |i: int| desktop_notification_key(i);
    let position = |s: Seq<char>| desktop_notification_position(s);
    lemma_placed_none(key, position);
    assert(desktop_notification_position("title"@) == 0) by {
        reveal_strlit("title");
        assert("title"@.len() == 5);
        assert("title"@[0] == 't');
        assert("title"@[1] == 'i');
        assert("title"@[2] == 't');
    }
    lemma_placed_more(key, position, 0);
    assert(desktop_notification_position("text"@) == 1) by {
        reveal_strlit("text");
        assert("text"@.len() == 4);
        assert("text"@[0] == 't');
        assert("text"@[1] == 'e');
        assert("text"@[2] == 'x');
    }
    lemma_placed_more(key, position, 1);
    assert(desktop_notification_position("icon"@) == 2) by {
        reveal_strlit("icon");
        assert("icon"@.len() == 4);
        assert("icon"@[0] == 'i');
        assert("icon"@[1] == 'c');
        assert("icon"@[2] == 'o');
    }
    lemma_placed_more(key, position, 2);
    assert(desktop_notification_position("duration"@) == 3) by {
        reveal_strlit("duration");
        assert("duration"@.len() == 8);
        assert("duration"@[0] == 'd');
        assert("duration"@[1] == 'u');
        assert("duration"@[2] == 'r');
    }
    lemma_placed_more(key, position, 3);
    assert(desktop_notification_position("payload"@) == 4) by {
        reveal_strlit("payload");
        assert("payload"@.len() == 7);
        assert("payload"@[0] == 'p');
        assert("payload"@[1] == 'a');
        assert("payload"@[2] == 'y');
    }
    lemma_placed_more(key, position, 4);
}

/// Each member of a written [`DesktopNotification`] is what its field is written as: a field that is unset has no
/// member.
pub proof fn law_desktop_notification_members(x: DesktopNotification)
    ensures
        slot(x.doc(), "title"@, 0) == Some(x.title.doc()),
        slot(x.doc(), "text"@, 1) == Some(x.text.doc()),
        slot(x.doc(), "icon"@, 2) == opt_doc(x.icon),
        slot(x.doc(), "duration"@, 3) == opt_doc(x.duration),
        slot(x.doc(), "payload"@, 4) == Some(x.payload.doc()),
{
    lemma_desktop_notification_keys();
    let key = |i: int| desktop_notification_key(i);
    let value = |i: int| desktop_notification_value(x, i);
    let position = |s: Seq<char>| desktop_notification_position(s);
    let m0 = Map::<Seq<char>, JsonView>::empty();
    lemma_holds_none(key, value, 5);
    let m1 = with(m0, "title"@, x.title.doc());
    lemma_with(m0, "title"@, x.title.doc());
    lemma_holds_more(m0, key, value, position, 5, 0, m1);
    let m2 = with(m1, "text"@, x.text.doc());
    lemma_with(m1, "text"@, x.text.doc());
    lemma_holds_more(m1, key, value, position, 5, 1, m2);
    let m3 = with_some(m2, "icon"@, x.icon);
    lemma_with_some(m2, "icon"@, x.icon);
    lemma_holds_more(m2, key, value, position, 5, 2, m3);
    let m4 = with_some(m3, "duration"@, x.duration);
    lemma_with_some(m3, "duration"@, x.duration);
    lemma_holds_more(m3, key, value, position, 5, 3, m4);
    let m5 = with(m4, "payload"@, x.payload.doc());
    lemma_with(m4, "payload"@, x.payload.doc());
    lemma_holds_more(m4, key, value, position, 5, 4, m5);
    lemma_held(m5, key, value, 5, 0);
    lemma_held(m5, key, value, 5, 1);
    lemma_held(m5, key, value, 5, 2);
    lemma_held(m5, key, value, 5, 3);
    lemma_held(m5, key, value, 5, 4);
    assert(x.doc() == JsonView::Object(m5));
}

/// A written [`DesktopNotification`] can be read.
proof fn lemma_desktop_notification_accepted(x: DesktopNotification)
    requires
        x.writable(),
    ensures
        DesktopNotification::accepts(x.doc()),
{
    law_desktop_notification_members(x);
    lemma_required(x.title, x.title);
    lemma_required(x.text, x.text);
    lemma_optional(x.icon, x.icon);
    lemma_optional(x.duration, x.duration);
    lemma_required(x.payload, x.payload);
}

/// Two [`DesktopNotification`]s whose fields are written the same are written the same.
pub proof fn lemma_desktop_notification_same(x: DesktopNotification, y: DesktopNotification)
    requires
        x.title.doc() == y.title.doc(),
        x.text.doc() == y.text.doc(),
        same_doc(x.icon, y.icon),
        same_doc(x.duration, y.duration),
        x.payload.doc() == y.payload.doc(),
    ensures
        x.doc() == y.doc(),
{
    let m0 = Map::<Seq<char>, JsonView>::empty();
    let m1 = with(m0, "title"@, x.title.doc());
    let m2 = with(m1, "text"@, x.text.doc());
    let m3 = with_some(m2, "icon"@, x.icon);
    lemma_same_some(m2, "icon"@, x.icon, y.icon);
    let m4 = with_some(m3, "duration"@, x.duration);
    lemma_same_some(m3, "duration"@, x.duration, y.duration);
    let m5 = with(m4, "payload"@, x.payload.doc());
}

impl RoundTrip for DesktopNotification {
    open spec fn writable(&self) -> bool {
        &&& self.title.writable()
        &&& self.text.writable()
        &&& opt_writable(self.icon)
        &&& opt_writable(self.duration)
        &&& self.payload.writable()
    }

    proof fn law_round_trip(&self, back: &DesktopNotification) {
        lemma_desktop_notification_accepted(*self);
        if back.read_from(self.doc()) {
            law_desktop_notification_members(*self);
            lemma_required(self.title, back.title);
            lemma_required(self.text, back.text);
            lemma_optional(self.icon, back.icon);
            lemma_optional(self.duration, back.duration);
            lemma_required(self.payload, back.payload);
            lemma_desktop_notification_same(*back, *self);
        }
    }
}

/// The names of the members of a [`NotificationPayload`], in order.
spec fn notification_payload_key(i: int) -> Seq<char> {
    if i == 0 {
        "_id"@
    } else if i == 1 {
        "rid"@
    } else if i == 2 {
        "tmid"@
    } else if i == 3 {
        "sender"@
    } else if i == 4 {
        "type"@
    } else if i == 5 {
        "name"@
    } else if i == 6 {
        "message"@
    } else if i == 7 {
        "audioNotificationValue"@
    } else {
        Seq::empty()
    }
}

/// What each member of a [`NotificationPayload`] is written as.
spec fn notification_payload_value(x: NotificationPayload, i: int) -> Option<JsonView> {
    if i == 0 {
        Some(x.id.doc())
    } else if i == 1 {
        Some(x.rid.doc())
    } else if i == 2 {
        opt_doc(x.tmid)
    } else if i == 3 {
        opt_doc(x.sender)
    } else if i == 4 {
        opt_doc(x.room_type)
    } else if i == 5 {
        opt_doc(x.name)
    } else if i == 6 {
        opt_doc(x.message)
    } else if i == 7 {
        opt_doc(x.audio_notification_value)
    } else {
        None
    }
}

/// The position of a name.
spec fn notification_payload_position(s: Seq<char>) -> int {
    let t = tag(s, 0, 1, 2);
    if t == 100105095003 {
        0
    } else if t == 100105114003 {
        1
    } else if t == 105109116004 {
        2
    } else if t == 110101115006 {
        3
    } else if t == 112121116004 {
        4
    } else if t == 109097110004 {
        5
    } else if t == 115101109007 {
        6
    } else if t == 100117097022 {
        7
    } else {
        -1
    }
}

proof fn lemma_notification_payload_keys()
    ensures
        placed(|i: int| notification_payload_key(i), |s: Seq<char>| notification_payload_position(s), 8),
{
    let key = |i: int| notification_payload_key(i);
    let position = |s: Seq<char>| notification_payload_position(s);
    lemma_placed_none(key, position);
    assert(notification_payload_position("_id"@) == 0) by {
        reveal_strlit("_id");
        assert("_id"@.len() == 3);
        assert("_id"@[0] == '_');
        assert("_id"@[1] == 'i');
        assert("_id"@[2] == 'd');
    }
    lemma_placed_more(key, position, 0);
    assert(notification_payload_position("rid"@) == 1) by {
        reveal_strlit("rid");
        assert("rid"@.len() == 3);
        assert("rid"@[0] == 'r');
        assert("rid"@[1] == 'i');
        assert("rid"@[2] == 'd');
    }
    lemma_placed_more(key, position, 1);
    assert(notification_payload_position("tmid"@) == 2) by {
        reveal_strlit("tmid");
        assert("tmid"@.len() == 4);
        assert("tmid"@[0] == 't');
        assert("tmid"@[1] == 'm');
        assert("tmid"@[2] == 'i');
    }
    lemma_placed_more(key, position, 2);
    assert(notification_payload_position("sender"@) == 3) by {
        reveal_strlit("sender");
        assert("sender"@.len() == 6);
        assert("sender"@[0] == 's');
        assert("sender"@[1] == 'e');
        assert("sender"@[2] == 'n');
    }
    lemma_placed_more(key, position, 3);
    assert(notification_payload_position("type"@) == 4) by {
        reveal_strlit("type");
        assert("type"@.len() == 4);
        assert("type"@[0] == 't');
        assert("type"@[1] == 'y');
        assert("type"@[2] == 'p');
    }
    lemma_placed_more(key, position, 4);
    assert(notification_payload_position("name"@) == 5) by {
        reveal_strlit("name");
        assert("name"@.len() == 4);
        assert("name"@[0] == 'n');
        assert("name"@[1] == 'a');
        assert("name"@[2] == 'm');
    }
    lemma_placed_more(key, position, 5);
    assert(notification_payload_position("message"@) == 6) by {
        reveal_strlit("message");
        assert("message"@.len() == 7);
        assert("message"@[0] == 'm');
        assert("message"@[1] == 'e');
        assert("message"@[2] == 's');
    }
    lemma_placed_more(key, position, 6);
    assert(notification_payload_position("audioNotificationValue"@) == 7) by {
        reveal_strlit("audioNotificationValue");
        assert("audioNotificationValue"@.len() == 22);
        assert("audioNotificationValue"@[0] == 'a');
        assert("audioNotificationValue"@[1] == 'u');
        assert("audioNotificationValue"@[2] == 'd');
    }
    lemma_placed_more(key, position, 7);
}

/// Each member of a written [`NotificationPayload`] is what its field is written as: a field that is unset has no
/// member.
pub proof fn law_notification_payload_members(x: NotificationPayload)
    ensures
        slot(x.doc(), "_id"@, 0) == Some(x.id.doc()),
        slot(x.doc(), "rid"@, 1) == Some(x.rid.doc()),
        slot(x.doc(), "tmid"@, 2) == opt_doc(x.tmid),
        slot(x.doc(), "sender"@, 3) == opt_doc(x.sender),
        slot(x.doc(), "type"@, 4) == opt_doc(x.room_type),
        slot(x.doc(), "name"@, 5) == opt_doc(x.name),
        slot(x.doc(), "message"@, 6) == opt_doc(x.message),
        slot(x.doc(), "audioNotificationValue"@, 7) == opt_doc(x.audio_notification_value),
{
    lemma_notification_payload_keys();
    let key = |i: int| notification_payload_key(i);
    let value = |i: int| notification_payload_value(x, i);
    let position = |s: Seq<char>| notification_payload_position(s);
    let m0 = Map::<Seq<char>, JsonView>::empty();
    lemma_holds_none(key, value, 8);
    let m1 = with(m0, "_id"@, x.id.doc());
    lemma_with(m0, "_id"@, x.id.doc());
    lemma_holds_more(m0, key, value, position, 8, 0, m1);
    let m2 = with(m1, "rid"@, x.rid.doc());
    lemma_with(m1, "rid"@, x.rid.doc());
    lemma_holds_more(m1, key, value, position, 8, 1, m2);
    let m3 = with_some(m2, "tmid"@, x.tmid);
    lemma_with_some(m2, "tmid"@, x.tmid);
    lemma_holds_more(m2, key, value, position, 8, 2, m3);
    let m4 = with_some(m3, "sender"@, x.sender);
    lemma_with_some(m3, "sender"@, x.sender);
    lemma_holds_more(m3, key, value, position, 8, 3, m4);
    let m5 = with_some(m4, "type"@, x.room_type);
    lemma_with_some(m4, "type"@, x.room_type);
    lemma_holds_more(m4, key, value, position, 8, 4, m5);
    let m6 = with_some(m5, "name"@, x.name);
    lemma_with_some(m5, "name"@, x.name);
    lemma_holds_more(m5, key, value, position, 8, 5, m6);
    let m7 = with_some(m6, "message"@, x.message);
    lemma_with_some(m6, "message"@, x.message);
    lemma_holds_more(m6, key, value, position, 8, 6, m7);
    let m8 = with_some(m7, "audioNotificationValue"@, x.audio_notification_value);
    lemma_with_some(m7, "audioNotificationValue"@, x.audio_notification_value);
    lemma_holds_more(m7, key, value, position, 8, 7, m8);
    lemma_held(m8, key, value, 8, 0);
    lemma_held(m8, key, value, 8, 1);
    lemma_held(m8, key, value, 8, 2);
    lemma_held(m8, key, value, 8, 3);
    lemma_held(m8, key, value, 8, 4);
    lemma_held(m8, key, value, 8, 5);
    lemma_held(m8, key, value, 8, 6);
    lemma_held(m8, key, value, 8, 7);
    assert(x.doc() == JsonView::Object(m8));
}

/// A written [`NotificationPayload`] can be read.
proof fn lemma_notification_payload_accepted(x: NotificationPayload)
    requires
        x.writable(),
    ensures
        NotificationPayload::accepts(x.doc()),
{
    law_notification_payload_members(x);
    lemma_required(x.id, x.id);
    lemma_required(x.rid, x.rid);
    lemma_optional(x.tmid, x.tmid);
    lemma_optional(x.sender, x.sender);
    lemma_optional(x.room_type, x.room_type);
    lemma_optional(x.name, x.name);
    lemma_optional(x.message, x.message);
    lemma_optional(x.audio_notification_value, x.audio_notification_value);
}

/// Two [`NotificationPayload`]s whose fields are written the same are written the same.
pub proof fn lemma_notification_payload_same(x: NotificationPayload, y: NotificationPayload)
    requires
        x.id.doc() == y.id.doc(),
        x.rid.doc() == y.rid.doc(),
        same_doc(x.tmid, y.tmid),
        same_doc(x.sender, y.sender),
        same_doc(x.room_type, y.room_type),
        same_doc(x.name, y.name),
        same_doc(x.message, y.message),
        same_doc(x.audio_notification_value, y.audio_notification_value),
    ensures
        x.doc() == y.doc(),
{
    let m0 = Map::<Seq<char>, JsonView>::empty();
    let m1 = with(m0, "_id"@, x.id.doc());
    let m2 = with(m1, "rid"@, x.rid.doc());
    let m3 = with_some(m2, "tmid"@, x.tmid);
    lemma_same_some(m2, "tmid"@, x.tmid, y.tmid);
    let m4 = with_some(m3, "sender"@, x.sender);
    lemma_same_some(m3, "sender"@, x.sender, y.sender);
    let m5 = with_some(m4, "type"@, x.room_type);
    lemma_same_some(m4, "type"@, x.room_type, y.room_type);
    let m6 = with_some(m5, "name"@, x.name);
    lemma_same_some(m5, "name"@, x.name, y.name);
    let m7 = with_some(m6, "message"@, x.message);
    lemma_same_some(m6, "message"@, x.message, y.message);
    let m8 = with_some(m7, "audioNotificationValue"@, x.audio_notification_value);
    lemma_same_some(m7, "audioNotificationValue"@, x.audio_notification_value, y.audio_notification_value);
}

impl RoundTrip for NotificationPayload {
    open spec fn writable(&self) -> bool {
        &&& self.id.writable()
        &&& self.rid.writable()
        &&& opt_writable(self.tmid)
        &&& opt_writable(self.sender)
        &&& opt_writable(self.room_type)
        &&& opt_writable(self.name)
        &&& opt_writable(self.message)
        &&& opt_writable(self.audio_notification_value)
    }

    proof fn law_round_trip(&self, back: &NotificationPayload) {
        lemma_notification_payload_accepted(*self);
        if back.read_from(self.doc()) {
            law_notification_payload_members(*self);
            lemma_required(self.id, back.id);
            lemma_required(self.rid, back.rid);
            lemma_optional(self.tmid, back.tmid);
            lemma_optional(self.sender, back.sender);
            lemma_optional(self.room_type, back.room_type);
            lemma_optional(self.name, back.name);
            lemma_optional(self.message, back.message);
            lemma_optional(self.audio_notification_value, back.audio_notification_value);
            lemma_notification_payload_same(*back, *self);
        }
    }
}

/// The names of the members of a [`NotificationMessage`], in order.
spec fn notification_message_key(i: int) -> Seq<char> {
    if i == 0 {
        "msg"@
    } else if i == 1 {
        "t"@
    } else if i == 2 {
        "content"@
    } else {
        Seq::empty()
    }
}

/// What each member of a [`NotificationMessage`] is written as.
spec fn notification_message_value(x: NotificationMessage, i: int) -> Option<JsonView> {
    if i == 0 {
        Some(x.msg.doc())
    } else if i == 1 {
        opt_doc(x.t)
    } else if i == 2 {
        opt_doc(x.content)
    } else {
        None
    }
}

/// The position of a name.
spec fn notification_message_position(s: Seq<char>) -> int {
    let t = tag(s, 0, 1, 2);
    if t == 103115109003 {
        0
    } else if t == 116001 {
        1
    } else if t == 110111099007 {
        2
    } else {
        -1
    }
}

proof fn lemma_notification_message_keys()
    ensures
        placed(|i: int| notification_message_key(i), |s: Seq<char>| notification_message_position(s), 3),
{
    let key = |i: int| notification_message_key(i);
    let position = |s: Seq<char>| notification_message_position(s);
    lemma_placed_none(key, position);
    assert(notification_message_position("msg"@) == 0) by {
        reveal_strlit("msg");
        assert("msg"@.len() == 3);
        assert("msg"@[0] == 'm');
        assert("msg"@[1] == 's');
        assert("msg"@[2] == 'g');
    }
    lemma_placed_more(key, position, 0);
    assert(notification_message_position("t"@) == 1) by {
        reveal_strlit("t");
        assert("t"@.len() == 1);
        assert("t"@[0] == 't');
    }
    lemma_placed_more(key, position, 1);
    assert(notification_message_position("content"@) == 2) by {
        reveal_strlit("content");
        assert("content"@.len() == 7);
        assert("content"@[0] == 'c');
        assert("content"@[1] == 'o');
        assert("content"@[2] == 'n');
    }
    lemma_placed_more(key, position, 2);
}

/// Each member of a written [`NotificationMessage`] is what its field is written as: a field that is unset has no
/// member.
pub proof fn law_notification_message_members(x: NotificationMessage)
    ensures
        slot(x.doc(), "msg"@, 0) == Some(x.msg.doc()),
        slot(x.doc(), "t"@, 1) == opt_doc(x.t),
        slot(x.doc(), "content"@, 2) == opt_doc(x.content),
{
    lemma_notification_message_keys();
    let key = |i: int| notification_message_key(i);
    let value = |i: int| notification_message_value(x, i);
    let position = |s: Seq<char>| notification_message_position(s);
    let m0 = Map::<Seq<char>, JsonView>::empty();
    lemma_holds_none(key, value, 3);
    let m1 = with(m0, "msg"@, x.msg.doc());
    lemma_with(m0, "msg"@, x.msg.doc());
    lemma_holds_more(m0, key, value, position, 3, 0, m1);
    let m2 = with_some(m1, "t"@, x.t);
    lemma_with_some(m1, "t"@, x.t);
    lemma_holds_more(m1, key, value, position, 3, 1, m2);
    let m3 = with_some(m2, "content"@, x.content);
    lemma_with_some(m2, "content"@, x.content);
    lemma_holds_more(m2, key, value, position, 3, 2, m3);
    lemma_held(m3, key, value, 3, 0);
    lemma_held(m3, key, value, 3, 1);
    lemma_held(m3, key, value, 3, 2);
    assert(x.doc() == JsonView::Object(m3));
}

/// A written [`NotificationMessage`] can be read.
proof fn lemma_notification_message_accepted(x: NotificationMessage)
    requires
        x.writable(),
    ensures
        NotificationMessage::accepts(x.doc()),
{
    law_notification_message_members(x);
    lemma_required(x.msg, x.msg);
    lemma_optional(x.t, x.t);
    lemma_optional(x.content, x.content);
}

/// Two [`NotificationMessage`]s whose fields are written the same are written the same.
pub proof fn lemma_notification_message_same(x: NotificationMessage, y: NotificationMessage)
    requires
        x.msg.doc() == y.msg.doc(),
        same_doc(x.t, y.t),
        same_doc(x.content, y.content),
    ensures
        x.doc() == y.doc(),
{
    let m0 = Map::<Seq<char>, JsonView>::empty();
    let m1 = with(m0, "msg"@, x.msg.doc());
    let m2 = with_some(m1, "t"@, x.t);
    lemma_same_some(m1, "t"@, x.t, y.t);
    let m3 = with_some(m2, "content"@, x.content);
    lemma_same_some(m2, "content"@, x.content, y.content);
}

impl RoundTrip for NotificationMessage {
    open spec fn writable(&self) -> bool {
        &&& self.msg.writable()
        &&& opt_writable(self.t)
        &&& opt_writable(self.content)
    }

    proof fn law_round_trip(&self, back: &NotificationMessage) {
        lemma_notification_message_accepted(*self);
        if back.read_from(self.doc()) {
            law_notification_message_members(*self);
            lemma_required(self.msg, back.msg);
            lemma_optional(self.t, back.t);
            lemma_optional(self.content, back.content);
            lemma_notification_message_same(*back, *self);
        }
    }
}

/// The names of the members of a [`UserDataEvent`], in order.
spec fn user_data_event_key(i: int) -> Seq<char> {
    if i == 0 {
        "id"@
    } else if i == 1 {
        "type"@
    } else if i == 2 {
        "data"@
    } else if i == 3 {
        "diff"@
    } else if i == 4 {
        "unset"@
    } else {
        Seq::empty()
    }
}

/// What each member of a [`UserDataEvent`] is written as.
spec fn user_data_event_value(x: UserDataEvent, i: int) -> Option<JsonView> {
    if i == 0 {
        opt_doc(x.id)
    } else if i == 1 {
        Some(x.action.doc())
    } else if i == 2 {
        opt_doc(x.data)
    } else if i == 3 {
        opt_doc(x.diff)
    } else if i == 4 {
        opt_doc(x.unset)
    } else {
        None
    }
}

/// The position of a name.
spec fn user_data_event_position(s: Seq<char>) -> int {
    let t = tag(s, 0, 1, 2);
    if t == 100105002 {
        0
    } else if t == 112121116004 {
        1
    } else if t == 116097100004 {
        2
    } else if t == 102105100004 {
        3
    } else if t == 115110117005 {
        4
    } else {
        -1
    }
}

proof fn lemma_user_data_event_keys()
    ensures
        placed(|i: int| user_data_event_key(i), |s: Seq<char>| user_data_event_position(s), 5),
{
    let key = |i: int| user_data_event_key(i);
    let position = |s: Seq<char>| user_data_event_position(s);
    lemma_placed_none(key, position);
    assert(user_data_event_position("id"@) == 0) by {
        reveal_strlit("id");
        assert("id"@.len() == 2);
        assert("id"@[0] == 'i');
        assert("id"@[1] == 'd');
    }
    lemma_placed_more(key, position, 0);
    assert(user_data_event_position("type"@) == 1) by {
        reveal_strlit("type");
        assert("type"@.len() == 4);
        assert("type"@[0] == 't');
        assert("type"@[1] == 'y');
        assert("type"@[2] == 'p');
    }
    lemma_placed_more(key, position, 1);
    assert(user_data_event_position("data"@) == 2) by {
        reveal_strlit("data");
        assert("data"@.len() == 4);
        assert("data"@[0] == 'd');
        assert("data"@[1] == 'a');
        assert("data"@[2] == 't');
    }
    lemma_placed_more(key, position, 2);
    assert(user_data_event_position("diff"@) == 3) by {
        reveal_strlit("diff");
        assert("diff"@.len() == 4);
        assert("diff"@[0] == 'd');
        assert("diff"@[1] == 'i');
        assert("diff"@[2] == 'f');
    }
    lemma_placed_more(key, position, 3);
    assert(user_data_event_position("unset"@) == 4) by {
        reveal_strlit("unset");
        assert("unset"@.len() == 5);
        assert("unset"@[0] == 'u');
        assert("unset"@[1] == 'n');
        assert("unset"@[2] == 's');
    }
    lemma_placed_more(key, position, 4);
}

/// Each member of a written [`UserDataEvent`] is what its field is written as: a field that is unset has no
/// member.
pub proof fn law_user_data_event_members(x: UserDataEvent)
    ensures
        slot(x.doc(), "id"@, 0) == opt_doc(x.id),
        slot(x.doc(), "type"@, 1) == Some(x.action.doc()),
        slot(x.doc(), "data"@, 2) == opt_doc(x.data),
        slot(x.doc(), "diff"@, 3) == opt_doc(x.diff),
        slot(x.doc(), "unset"@, 4) == opt_doc(x.unset),
{
    lemma_user_data_event_keys();
    let key = |i: int| user_data_event_key(i);
    let value = |i: int| user_data_event_value(x, i);
    let position = |s: Seq<char>| user_data_event_position(s);
    let m0 = Map::<Seq<char>, JsonView>::empty();
    lemma_holds_none(key, value, 5);
    let m1 = with_some(m0, "id"@, x.id);
    lemma_with_some(m0, "id"@, x.id);
    lemma_holds_more(m0, key, value, position, 5, 0, m1);
    let m2 = with(m1, "type"@, x.action.doc());
    lemma_with(m1, "type"@, x.action.doc());
    lemma_holds_more(m1, key, value, position, 5, 1, m2);
    let m3 = with_some(m2, "data"@, x.data);
    lemma_with_some(m2, "data"@, x.data);
    lemma_holds_more(m2, key, value, position, 5, 2, m3);
    let m4 = with_some(m3, "diff"@, x.diff);
    lemma_with_some(m3, "diff"@, x.diff);
    lemma_holds_more(m3, key, value, position, 5, 3, m4);
    let m5 = with_some(m4, "unset"@, x.unset);
    lemma_with_some(m4, "unset"@, x.unset);
    lemma_holds_more(m4, key, value, position, 5, 4, m5);
    lemma_held(m5, key, value, 5, 0);
    lemma_held(m5, key, value, 5, 1);
    lemma_held(m5, key, value, 5, 2);
    lemma_held(m5, key, value, 5, 3);
    lemma_held(m5, key, value, 5, 4);
    assert(x.doc() == JsonView::Object(m5));
}

/// A written [`UserDataEvent`] can be read.
proof fn lemma_user_data_event_accepted(x: UserDataEvent)
    requires
        x.writable(),
    ensures
        UserDataEvent::accepts(x.doc()),
{
    law_user_data_event_members(x);
    lemma_optional(x.id, x.id);
    lemma_required(x.action, x.action);
    lemma_optional(x.data, x.data);
    lemma_optional(x.diff, x.diff);
    lemma_optional(x.unset, x.unset);
}

/// Two [`UserDataEvent`]s whose fields are written the same are written the same.
pub proof fn lemma_user_data_event_same(x: UserDataEvent, y: UserDataEvent)
    requires
        same_doc(x.id, y.id),
        x.action.doc() == y.action.doc(),
        same_doc(x.data, y.data),
        same_doc(x.diff, y.diff),
        same_doc(x.unset, y.unset),
    ensures
        x.doc() == y.doc(),
{
    let m0 = Map::<Seq<char>, JsonView>::empty();
    let m1 = with_some(m0, "id"@, x.id);
    lemma_same_some(m0, "id"@, x.id, y.id);
    let m2 = with(m1, "type"@, x.action.doc());
    let m3 = with_some(m2, "data"@, x.data);
    lemma_same_some(m2, "data"@, x.data, y.data);
    let m4 = with_some(m3, "diff"@, x.diff);
    lemma_same_some(m3, "diff"@, x.diff, y.diff);
    let m5 = with_some(m4, "unset"@, x.unset);
    lemma_same_some(m4, "unset"@, x.unset, y.unset);
}

impl RoundTrip for UserDataEvent {
    open spec fn writable(&self) -> bool {
        &&& opt_writable(self.id)
        &&& self.action.writable()
        &&& opt_writable(self.data)
        &&& opt_writable(self.diff)
        &&& opt_writable(self.unset)
    }

    proof fn law_round_trip(&self, back: &UserDataEvent) {
        lemma_user_data_event_accepted(*self);
        if back.read_from(self.doc()) {
            law_user_data_event_members(*self);
            lemma_optional(self.id, back.id);
            lemma_required(self.action, back.action);
            lemma_optional(self.data, back.data);
            lemma_optional(self.diff, back.diff);
            lemma_optional(self.unset, back.unset);
            lemma_user_data_event_same(*back, *self);
        }
    }
}

/// The names of the members of a [`SubscriptionStub`], in order.
spec fn subscription_stub_key(i: int) -> Seq<char> {
    if i == 0 {
        "_id"@
    } else if i == 1 {
        "rid"@
    } else if i == 2 {
        "u"@
    } else if i == 3 {
        "t"@
    } else {
        Seq::empty()
    }
}

/// What each member of a [`SubscriptionStub`] is written as.
spec fn subscription_stub_value(x: SubscriptionStub, i: int) -> Option<JsonView> {
    if i == 0 {
        Some(x.id.doc())
    } else if i == 1 {
        opt_doc(x.rid)
    } else if i == 2 {
        opt_doc(x.u)
    } else if i == 3 {
        opt_doc(x.t)
    } else {
        None
    }
}

/// The position of a name.
spec fn subscription_stub_position(s: Seq<char>) -> int {
    let t = tag(s, 0, 1, 2);
    if t == 100105095003 {
        0
    } else if t == 100105114003 {
        1
    } else if t == 117001 {
        2
    } else if t == 116001 {
        3
    } else {
        -1
    }
}

proof fn lemma_subscription_stub_keys()
    ensures
        placed(|i: int| subscription_stub_key(i), |s: Seq<char>| subscription_stub_position(s), 4),
{
    let key = |i: int| subscription_stub_key(i);
    let position = |s: Seq<char>| subscription_stub_position(s);
    lemma_placed_none(key, position);
    assert(subscription_stub_position("_id"@) == 0) by {
        reveal_strlit("_id");
        assert("_id"@.len() == 3);
        assert("_id"@[0] == '_');
        assert("_id"@[1] == 'i');
        assert("_id"@[2] == 'd');
    }
    lemma_placed_more(key, position, 0);
    assert(subscription_stub_position("rid"@) == 1) by {
        reveal_strlit("rid");
        assert("rid"@.len() == 3);
        assert("rid"@[0] == 'r');
        assert("rid"@[1] == 'i');
        assert("rid"@[2] == 'd');
    }
    lemma_placed_more(key, position, 1);
    assert(subscription_stub_position("u"@) == 2) by {
        reveal_strlit("u");
        assert("u"@.len() == 1);
        assert("u"@[0] == 'u');
    }
    lemma_placed_more(key, position, 2);
    assert(subscription_stub_position("t"@) == 3) by {
        reveal_strlit("t");
        assert("t"@.len() == 1);
        assert("t"@[0] == 't');
    }
    lemma_placed_more(key, position, 3);
}

/// Each member of a written [`SubscriptionStub`] is what its field is written as: a field that is unset has no
/// member.
pub proof fn law_subscription_stub_members(x: SubscriptionStub)
    ensures
        slot(x.doc(), "_id"@, 0) == Some(x.id.doc()),
        slot(x.doc(), "rid"@, 1) == opt_doc(x.rid),
        slot(x.doc(), "u"@, 2) == opt_doc(x.u),
        slot(x.doc(), "t"@, 3) == opt_doc(x.t),
{
    lemma_subscription_stub_keys();
    let key = |i: int| subscription_stub_key(i);
    let value = |i: int| subscription_stub_value(x, i);
    let position = |s: Seq<char>| subscription_stub_position(s);
    let m0 = Map::<Seq<char>, JsonView>::empty();
    lemma_holds_none(key, value, 4);
    let m1 = with(m0, "_id"@, x.id.doc());
    lemma_with(m0, "_id"@, x.id.doc());
    lemma_holds_more(m0, key, value, position, 4, 0, m1);
    let m2 = with_some(m1, "rid"@, x.rid);
    lemma_with_some(m1, "rid"@, x.rid);
    lemma_holds_more(m1, key, value, position, 4, 1, m2);
    let m3 = with_some(m2, "u"@, x.u);
    lemma_with_some(m2, "u"@, x.u);
    lemma_holds_more(m2, key, value, position, 4, 2, m3);
    let m4 = with_some(m3, "t"@, x.t);
    lemma_with_some(m3, "t"@, x.t);
    lemma_holds_more(m3, key, value, position, 4, 3, m4);
    lemma_held(m4, key, value, 4, 0);
    lemma_held(m4, key, value, 4, 1);
    lemma_held(m4, key, value, 4, 2);
    lemma_held(m4, key, value, 4, 3);
    assert(x.doc() == JsonView::Object(m4));
}

/// A written [`SubscriptionStub`] can be read.
proof fn lemma_subscription_stub_accepted(x: SubscriptionStub)
    requires
        x.writable(),
    ensures
        SubscriptionStub::accepts(x.doc()),
{
    law_subscription_stub_members(x);
    lemma_required(x.id, x.id);
    lemma_optional(x.rid, x.rid);
    lemma_optional(x.u, x.u);
    lemma_optional(x.t, x.t);
}

/// Two [`SubscriptionStub`]s whose fields are written the same are written the same.
pub proof fn lemma_subscription_stub_same(x: SubscriptionStub, y: SubscriptionStub)
    requires
        x.id.doc() == y.id.doc(),
        same_doc(x.rid, y.rid),
        same_doc(x.u, y.u),
        same_doc(x.t, y.t),
    ensures
        x.doc() == y.doc(),
{
    let m0 = Map::<Seq<char>, JsonView>::empty();
    let m1 = with(m0, "_id"@, x.id.doc());
    let m2 = with_some(m1, "rid"@, x.rid);
    lemma_same_some(m1, "rid"@, x.rid, y.rid);
    let m3 = with_some(m2, "u"@, x.u);
    lemma_same_some(m2, "u"@, x.u, y.u);
    let m4 = with_some(m3, "t"@, x.t);
    lemma_same_some(m3, "t"@, x.t, y.t);
}

impl RoundTrip for SubscriptionStub {
    open spec fn writable(&self) -> bool {
        &&& self.id.writable()
        &&& opt_writable(self.rid)
        &&& opt_writable(self.u)
        &&& opt_writable(self.t)
    }

    proof fn law_round_trip(&self, back: &SubscriptionStub) {
        lemma_subscription_stub_accepted(*self);
        if back.read_from(self.doc()) {
            law_subscription_stub_members(*self);
            lemma_required(self.id, back.id);
            lemma_optional(self.rid, back.rid);
            lemma_optional(self.u, back.u);
            lemma_optional(self.t, back.t);
            lemma_subscription_stub_same(*back, *self);
        }
    }
}

/// The names of the members of a [`RoleChange`], in order.
spec fn role_change_key(i: int) -> Seq<char> {
    if i == 0 {
        "type"@
    } else if i == 1 {
        "_id"@
    } else if i == 2 {
        "u"@
    } else if i == 3 {
        "scope"@
    } else {
        Seq::empty()
    }
}

/// What each member of a [`RoleChange`] is written as.
spec fn role_change_value(x: RoleChange, i: int) -> Option<JsonView> {
    if i == 0 {
        Some(x.action.doc())
    } else if i == 1 {
        Some(x.id.doc())
    } else if i == 2 {
        opt_doc(x.u)
    } else if i == 3 {
        opt_doc(x.scope)
    } else {
        None
    }
}

/// The position of a name.
spec fn role_change_position(s: Seq<char>) -> int {
    let t = tag(s, 0, 1, 2);
    if t == 112121116004 {
        0
    } else if t == 100105095003 {
        1
    } else if t == 117001 {
        2
    } else if t == 111099115005 {
        3
    } else {
        -1
    }
}

proof fn lemma_role_change_keys()
    ensures
        placed(|i: int| role_change_key(i), |s: Seq<char>| role_change_position(s), 4),
{
    let key = |i: int| role_change_key(i);
    let position = |s: Seq<char>| role_change_position(s);
    lemma_placed_none(key, position);
    assert(role_change_position("type"@) == 0) by {
        reveal_strlit("type");
        assert("type"@.len() == 4);
        assert("type"@[0] == 't');
        assert("type"@[1] == 'y');
        assert("type"@[2] == 'p');
    }
    lemma_placed_more(key, position, 0);
    assert(role_change_position("_id"@) == 1) by {
        reveal_strlit("_id");
        assert("_id"@.len() == 3);
        assert("_id"@[0] == '_');
        assert("_id"@[1] == 'i');
        assert("_id"@[2] == 'd');
    }
    lemma_placed_more(key, position, 1);
    assert(role_change_position("u"@) == 2) by {
        reveal_strlit("u");
        assert("u"@.len() == 1);
        assert("u"@[0] == 'u');
    }
    lemma_placed_more(key, position, 2);
    assert(role_change_position("scope"@) == 3) by {
        reveal_strlit("scope");
        assert("scope"@.len() == 5);
        assert("scope"@[0] == 's');
        assert("scope"@[1] == 'c');
        assert("scope"@[2] == 'o');
    }
    lemma_placed_more(key, position, 3);
}

/// Each member of a written [`RoleChange`] is what its field is written as: a field that is unset has no
/// member.
pub proof fn law_role_change_members(x: RoleChange)
    ensures
        slot(x.doc(), "type"@, 0) == Some(x.action.doc()),
        slot(x.doc(), "_id"@, 1) == Some(x.id.doc()),
        slot(x.doc(), "u"@, 2) == opt_doc(x.u),
        slot(x.doc(), "scope"@, 3) == opt_doc(x.scope),
{
    lemma_role_change_keys();
    let key = |i: int| role_change_key(i);
    let value = |i: int| role_change_value(x, i);
    let position = |s: Seq<char>| role_change_position(s);
    let m0 = Map::<Seq<char>, JsonView>::empty();
    lemma_holds_none(key, value, 4);
    let m1 = with(m0, "type"@, x.action.doc());
    lemma_with(m0, "type"@, x.action.doc());
    lemma_holds_more(m0, key, value, position, 4, 0, m1);
    let m2 = with(m1, "_id"@, x.id.doc());
    lemma_with(m1, "_id"@, x.id.doc());
    lemma_holds_more(m1, key, value, position, 4, 1, m2);
    let m3 = with_some(m2, "u"@, x.u);
    lemma_with_some(m2, "u"@, x.u);
    lemma_holds_more(m2, key, value, position, 4, 2, m3);
    let m4 = with_some(m3, "scope"@, x.scope);
    lemma_with_some(m3, "scope"@, x.scope);
    lemma_holds_more(m3, key, value, position, 4, 3, m4);
    lemma_held(m4, key, value, 4, 0);
    lemma_held(m4, key, value, 4, 1);
    lemma_held(m4, key, value, 4, 2);
    lemma_held(m4, key, value, 4, 3);
    assert(x.doc() == JsonView::Object(m4));
}

/// A written [`RoleChange`] can be read.
proof fn lemma_role_change_accepted(x: RoleChange)
    requires
        x.writable(),
    ensures
        RoleChange::accepts(x.doc()),
{
    law_role_change_members(x);
    lemma_required(x.action, x.action);
    lemma_required(x.id, x.id);
    lemma_optional(x.u, x.u);
    lemma_optional(x.scope, x.scope);
}

/// Two [`RoleChange`]s whose fields are written the same are written the same.
pub proof fn lemma_role_change_same(x: RoleChange, y: RoleChange)
    requires
        x.action.doc() == y.action.doc(),
        x.id.doc() == y.id.doc(),
        same_doc(x.u, y.u),
        same_doc(x.scope, y.scope),
    ensures
        x.doc() == y.doc(),
{
    let m0 = Map::<Seq<char>, JsonView>::empty();
    let m1 = with(m0, "type"@, x.action.doc());
    let m2 = with(m1, "_id"@, x.id.doc());
    let m3 = with_some(m2, "u"@, x.u);
    lemma_same_some(m2, "u"@, x.u, y.u);
    let m4 = with_some(m3, "scope"@, x.scope);
    lemma_same_some(m3, "scope"@, x.scope, y.scope);
}

impl RoundTrip for RoleChange {
    open spec fn writable(&self) -> bool {
        &&& self.action.writable()
        &&& self.id.writable()
        &&& opt_writable(self.u)
        &&& opt_writable(self.scope)
    }

    proof fn law_round_trip(&self, back: &RoleChange) {
        lemma_role_change_accepted(*self);
        if back.read_from(self.doc()) {
            law_role_change_members(*self);
            lemma_required(self.action, back.action);
            lemma_required(self.id, back.id);
            lemma_optional(self.u, back.u);
            lemma_optional(self.scope, back.scope);
            lemma_role_change_same(*back, *self);
        }
    }
}

/// A reduced subscription is never taken for a whole one: it lacks what that must have.
proof fn lemma_stub_is_reduced(stub: SubscriptionStub)
    ensures
        !Subscription::accepts(stub.doc()),
        slot(stub.doc(), "open"@, 7) is None,
{
    reveal(with);
    reveal(with_some);
    reveal_strlit("_id");
    reveal_strlit("u");
    reveal_strlit("rid");
    reveal_strlit("t");
    reveal_strlit("open");
    assert("_id"@.len() == 3);
    assert("u"@.len() == 1);
    assert("rid"@.len() == 3);
    assert("t"@.len() == 1);
    assert("open"@.len() == 4);
    assert(slot(stub.doc(), "open"@, 7) is None);
}

impl RoundTrip for SubscriptionChange {
    open spec fn writable(&self) -> bool {
        match *self {
            SubscriptionChange::Full(subscription) => subscription.writable(),
            SubscriptionChange::Stub(stub) => stub.writable(),
        }
    }

    proof fn law_round_trip(&self, back: &SubscriptionChange) {
        match *self {
            SubscriptionChange::Full(subscription) => match *back {
                SubscriptionChange::Full(other) => subscription.law_round_trip(&other),
                SubscriptionChange::Stub(_) => subscription.law_round_trip(&subscription),
            },
            SubscriptionChange::Stub(stub) => {
                lemma_stub_is_reduced(stub);
                match *back {
                    SubscriptionChange::Stub(other) => stub.law_round_trip(&other),
                    SubscriptionChange::Full(other) => {
                        stub.law_round_trip(&stub);
                        assert(!is_required(other.open, slot(stub.doc(), "open"@, 7)));
                    },
                }
            },
        }
    }
}

} // verus!
