//! A payload reads as one value only.
use crate::model::determined::{Determined, lemma_optional, lemma_required, agree_option};
use crate::model::payload::{
    Activity, BulkDelete, ClientAction, DesktopNotification, MyMessageMeta, NotificationMessage,
    NotificationPayload, RoleChange, RoleChangeKind, SubscriptionChange, SubscriptionStub,
    UserDataEvent,
};
use crate::model::json::JsonView;
use crate::model::wire::slot;
use vstd::prelude::*;
use vstd::string::*;

verus! {

impl Determined for Activity {
    open spec fn agrees(&self, other: &Activity) -> bool {
        self.same_as(other)
    }

    proof fn law_determined(&self, other: &Activity, j: JsonView) {
    }
}

impl Determined for ClientAction {
    open spec fn agrees(&self, other: &ClientAction) -> bool {
        self.same_as(other)
    }

    proof fn law_determined(&self, other: &ClientAction, j: JsonView) {
    }
}

impl Determined for RoleChangeKind {
    open spec fn agrees(&self, other: &RoleChangeKind) -> bool {
        self.same_as(other)
    }

    proof fn law_determined(&self, other: &RoleChangeKind, j: JsonView) {
    }
}

impl Determined for MyMessageMeta {
    open spec fn agrees(&self, other: &MyMessageMeta) -> bool {
        &&& agree_option(self.room_participant, other.room_participant)
        &&& agree_option(self.room_type, other.room_type)
        &&& agree_option(self.room_name, other.room_name)
    }

    proof fn law_determined(&self, other: &MyMessageMeta, j: JsonView) {
        lemma_optional(self.room_participant, other.room_participant, slot(j, "roomParticipant"@, 0));
        lemma_optional(self.room_type, other.room_type, slot(j, "roomType"@, 1));
        lemma_optional(self.room_name, other.room_name, slot(j, "roomName"@, 2));
    }
}

impl Determined for BulkDelete {
    open spec fn agrees(&self, other: &BulkDelete) -> bool {
        &&& self.rid.agrees(&other.rid)
        &&& agree_option(self.ids, other.ids)
        &&& agree_option(self.ts, other.ts)
        &&& agree_option(self.users, other.users)
        &&& agree_option(self.exclude_pinned, other.exclude_pinned)
        &&& agree_option(self.ignore_discussion, other.ignore_discussion)
        &&& agree_option(self.show_deleted_status, other.show_deleted_status)
        &&& agree_option(self.files_only, other.files_only)
    }

    proof fn law_determined(&self, other: &BulkDelete, j: JsonView) {
        lemma_required(self.rid, other.rid, slot(j, "rid"@, 0));
        lemma_optional(self.ids, other.ids, slot(j, "ids"@, 1));
        lemma_optional(self.ts, other.ts, slot(j, "ts"@, 2));
        lemma_optional(self.users, other.users, slot(j, "users"@, 3));
        lemma_optional(self.exclude_pinned, other.exclude_pinned, slot(j, "excludePinned"@, 4));
        lemma_optional(self.ignore_discussion, other.ignore_discussion, slot(j, "ignoreDiscussion"@, 5));
        lemma_optional(self.show_deleted_status, other.show_deleted_status, slot(j, "showDeletedStatus"@, 6));
        lemma_optional(self.files_only, other.files_only, slot(j, "filesOnly"@, 7));
    }
}

impl Determined for DesktopNotification {
    open spec fn agrees(&self, other: &DesktopNotification) -> bool {
        &&& self.title.agrees(&other.title)
        &&& self.text.agrees(&other.text)
        &&& agree_option(self.icon, other.icon)
        &&& agree_option(self.duration, other.duration)
        &&& self.payload.agrees(&other.payload)
    }

    proof fn law_determined(&self, other: &DesktopNotification, j: JsonView) {
        lemma_required(self.title, other.title, slot(j, "title"@, 0));
        lemma_required(self.text, other.text, slot(j, "text"@, 1));
        lemma_optional(self.icon, other.icon, slot(j, "icon"@, 2));
        lemma_optional(self.duration, other.duration, slot(j, "duration"@, 3));
        lemma_required(self.payload, other.payload, slot(j, "payload"@, 4));
    }
}

impl Determined for NotificationPayload {
    open spec fn agrees(&self, other: &NotificationPayload) -> bool {
        &&& self.id.agrees(&other.id)
        &&& self.rid.agrees(&other.rid)
        &&& agree_option(self.tmid, other.tmid)
        &&& agree_option(self.sender, other.sender)
        &&& agree_option(self.room_type, other.room_type)
        &&& agree_option(self.name, other.name)
        &&& agree_option(self.message, other.message)
        &&& agree_option(self.audio_notification_value, other.audio_notification_value)
    }

    proof fn law_determined(&self, other: &NotificationPayload, j: JsonView) {
        lemma_required(self.id, other.id, slot(j, "_id"@, 0));
        lemma_required(self.rid, other.rid, slot(j, "rid"@, 1));
        lemma_optional(self.tmid, other.tmid, slot(j, "tmid"@, 2));
        lemma_optional(self.sender, other.sender, slot(j, "sender"@, 3));
        lemma_optional(self.room_type, other.room_type, slot(j, "type"@, 4));
        lemma_optional(self.name, other.name, slot(j, "name"@, 5));
        lemma_optional(self.message, other.message, slot(j, "message"@, 6));
        lemma_optional(self.audio_notification_value, other.audio_notification_value, slot(j, "audioNotificationValue"@, 7));
    }
}

impl Determined for NotificationMessage {
    open spec fn agrees(&self, other: &NotificationMessage) -> bool {
        &&& self.msg.agrees(&other.msg)
        &&& agree_option(self.t, other.t)
        &&& agree_option(self.content, other.content)
    }

    proof fn law_determined(&self, other: &NotificationMessage, j: JsonView) {
        if slot(j, "msg"@, 0) is Some {
            self.msg.law_determined(&other.msg, slot(j, "msg"@, 0)->0);
        } else {
            assert(self.msg@ =~= other.msg@);
        }
        lemma_optional(self.t, other.t, slot(j, "t"@, 1));
        lemma_optional(self.content, other.content, slot(j, "content"@, 2));
    }
}

impl Determined for UserDataEvent {
    open spec fn agrees(&self, other: &UserDataEvent) -> bool {
        &&& agree_option(self.id, other.id)
        &&& self.action.agrees(&other.action)
        &&& agree_option(self.data, other.data)
        &&& agree_option(self.diff, other.diff)
        &&& agree_option(self.unset, other.unset)
    }

    proof fn law_determined(&self, other: &UserDataEvent, j: JsonView) {
        lemma_optional(self.id, other.id, slot(j, "id"@, 0));
        lemma_required(self.action, other.action, slot(j, "type"@, 1));
        lemma_optional(self.data, other.data, slot(j, "data"@, 2));
        lemma_optional(self.diff, other.diff, slot(j, "diff"@, 3));
        lemma_optional(self.unset, other.unset, slot(j, "unset"@, 4));
    }
}

impl Determined for SubscriptionStub {
    open spec fn agrees(&self, other: &SubscriptionStub) -> bool {
        &&& self.id.agrees(&other.id)
        &&& agree_option(self.rid, other.rid)
        &&& agree_option(self.u, other.u)
        &&& agree_option(self.t, other.t)
    }

    proof fn law_determined(&self, other: &SubscriptionStub, j: JsonView) {
        lemma_required(self.id, other.id, slot(j, "_id"@, 0));
        lemma_optional(self.rid, other.rid, slot(j, "rid"@, 1));
        lemma_optional(self.u, other.u, slot(j, "u"@, 2));
        lemma_optional(self.t, other.t, slot(j, "t"@, 3));
    }
}

impl Determined for RoleChange {
    open spec fn agrees(&self, other: &RoleChange) -> bool {
        &&& self.action.agrees(&other.action)
        &&& self.id.agrees(&other.id)
        &&& agree_option(self.u, other.u)
        &&& agree_option(self.scope, other.scope)
    }

    proof fn law_determined(&self, other: &RoleChange, j: JsonView) {
        lemma_required(self.action, other.action, slot(j, "type"@, 0));
        lemma_required(self.id, other.id, slot(j, "_id"@, 1));
        lemma_optional(self.u, other.u, slot(j, "u"@, 2));
        lemma_optional(self.scope, other.scope, slot(j, "scope"@, 3));
    }
}

impl Determined for SubscriptionChange {
    open spec fn agrees(&self, other: &SubscriptionChange) -> bool {
        match (*self, *other) {
            (SubscriptionChange::Full(a), SubscriptionChange::Full(b)) => a.agrees(&b),
            (SubscriptionChange::Stub(a), SubscriptionChange::Stub(b)) => a.agrees(&b),
            _ => false,
        }
    }

    proof fn law_determined(&self, other: &SubscriptionChange, j: JsonView) {
        match (*self, *other) {
            (SubscriptionChange::Full(a), SubscriptionChange::Full(b)) => a.law_determined(&b, j),
            (SubscriptionChange::Stub(a), SubscriptionChange::Stub(b)) => a.law_determined(&b, j),
            _ => {},
        }
    }
}

} // verus!
