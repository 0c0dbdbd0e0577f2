//! A room.
use crate::model::datetime::Timestamp;
use crate::model::entity::enums::{RolePrioritiesCreated, RoomType, SysMes};
use crate::model::entity::message::Message;
use crate::model::entity::parts::{
    first_of, first_text, opt_chars, opt_str, AnnouncementDetails, UserRef,
};
use crate::model::faithful::room::lemma_room_same;
use crate::model::id::{RoomId, UserId};
use crate::model::json::{Json, JsonMap, JsonView};
use crate::model::wire::{
    dup_some, has_date, has_optional, has_required, is_date, is_optional, is_required,
    is_shaped, optional, optional_date, put, put_some, required, same_some, shaped, slot, with,
    with_some, Decode, Duplicate, Encode,
};
use vstd::prelude::*;
use vstd::string::*;

verus! {

/// A Rocket.Chat room: channel, private group, direct message or omnichannel conversation.
#[derive(Clone, Debug, PartialEq)]
pub struct Room {
    /// Room id.
    pub id: RoomId,
    /// Last write to the document.
    pub updated_at: Timestamp,
    /// Room kind.
    pub t: RoomType,
    /// URL-safe room name.
    pub name: Option<String>,
    /// Display name, which may differ from `name` when
    /// `UI_Allow_room_names_with_special_chars` is on.
    pub fname: Option<String>,
    /// Total message count.
    pub msgs: Option<i64>,
    /// Number of subscribed users.
    pub users_count: Option<i64>,
    /// The room's owner stub.
    pub u: Option<UserRef>,
    /// Participant ids.
    pub uids: Option<Vec<UserId>>,
    /// Participant usernames, for direct message rooms.
    pub usernames: Option<Vec<String>>,
    /// Whether the room is a default channel new users are auto-joined to.
    pub default: Option<bool>,
    /// Whether only privileged users may post.
    pub broadcast: Option<bool>,
    /// Whether the room is featured in the directory.
    pub featured: Option<bool>,
    /// Room topic.
    pub topic: Option<String>,
    /// Room description.
    pub description: Option<String>,
    /// Room announcement banner text.
    pub announcement: Option<String>,
    /// Styling for the announcement banner.
    pub announcement_details: Option<AnnouncementDetails>,
    /// Whether a join code is required to enter.
    pub join_code_required: Option<bool>,
    /// Whether end-to-end encryption is on.
    pub encrypted: Option<bool>,
    /// Id of the E2E key currently used by the room.
    pub e2e_key_id: Option<String>,
    /// Users still waiting to be handed the room's E2E key.
    pub users_waiting_for_e2e_keys: Option<Vec<Json>>,
    /// Read-only room.
    pub ro: Option<bool>,
    /// Whether reacting is allowed despite the room being read-only.
    pub react_when_read_only: Option<bool>,
    /// System message visibility.
    pub sys_mes: Option<SysMes>,
    /// Whether the channel is listed in search and directory (`cl`).
    pub cl: Option<bool>,
    /// Whether the room is archived.
    pub archived: Option<bool>,
    /// Muted usernames.
    pub muted: Option<Vec<String>>,
    /// Explicitly unmuted usernames, used in read-only rooms.
    pub unmuted: Option<Vec<String>>,
    /// Denormalised copy of the most recent message.
    pub last_message: Option<Box<Message>>,
    /// Timestamp of the last message.
    pub lm: Option<Timestamp>,
    /// When the room was created.
    pub ts: Option<Timestamp>,
    /// When a WebRTC call started in this room.
    pub web_rtc_call_start_time: Option<Timestamp>,
    /// Parent room id, set on discussions.
    pub prid: Option<RoomId>,
    /// Avatar cache-busting tag.
    pub avatar_etag: Option<String>,
    /// Whether this room is a team's main channel.
    pub team_main: Option<bool>,
    /// Id of the team this room belongs to.
    pub team_id: Option<String>,
    /// Whether team members auto-join this room.
    pub team_default: Option<bool>,
    /// Per-user view state merged in by some endpoints rather than stored on the room.
    pub open: Option<bool>,
    /// Per-user unread count, merged in the same way.
    pub unread: Option<i64>,
    /// Per-user alert flag.
    pub alert: Option<bool>,
    /// Per-user favourite flag.
    pub favorite: Option<bool>,
    /// Whether the unread badge is suppressed.
    pub hide_unread_status: Option<bool>,
    /// Whether the mention badge is suppressed.
    pub hide_mention_status: Option<bool>,
    /// Whether auto-translation is enabled.
    pub auto_translate: Option<bool>,
    /// Target language for auto-translation.
    pub auto_translate_language: Option<String>,
    /// Message retention policy override.
    pub retention: Option<Json>,
    /// Attribute-based access control definitions.
    pub abac_attributes: Option<Vec<Json>>,
    /// Role-priority migration state.
    pub role_priorities_created: Option<RolePrioritiesCreated>,
    /// Free-form custom fields.
    pub custom_fields: Option<Json>,
    /// Whether the room is federated (deprecated flag).
    pub federated: Option<bool>,
    /// Matrix federation metadata.
    pub federation: Option<Json>,
    /// The visitor, on an omnichannel room.
    pub v: Option<Json>,
    /// Where the conversation originated (widget, email, SMS, app, API).
    pub source: Option<Json>,
    /// The agent currently serving the conversation.
    pub served_by: Option<Json>,
    /// Department handling the conversation.
    pub department_id: Option<String>,
    /// Whether the conversation is on hold.
    pub on_hold: Option<bool>,
    /// Whether the conversation is waiting on the visitor.
    pub waiting_response: Option<Json>,
    /// When the conversation entered the queue.
    pub queued_at: Option<Timestamp>,
    /// Conversation tags.
    pub tags: Option<Vec<String>>,
    /// Custom fields collected from the visitor.
    pub livechat_data: Option<Json>,
    /// Conversation metrics (response times, durations).
    pub metrics: Option<Json>,
    /// Pending email transcript request.
    pub transcript_request: Option<Json>,
    /// Priority id.
    pub priority_id: Option<String>,
    /// Priority sort weight.
    pub priority_weight: Option<i64>,
    /// SLA id.
    pub sla_id: Option<String>,
    /// SLA due time, in minutes.
    pub estimated_waiting_time_queue: Option<i64>,
    /// Linked contact record.
    pub contact_id: Option<String>,
    /// Whether the visitor's identity was verified.
    pub verified: Option<bool>,
    /// SMS integration metadata.
    pub sms: Option<Json>,
    /// Join code / omnichannel code.
    pub code: Option<Json>,
    /// Human-readable label for the conversation.
    pub label: Option<String>,
    /// Sentiment analysis output.
    pub sentiment: Option<Json>,
}

impl Decode for Room {
    open spec fn accepts(j: JsonView) -> bool {
        &&& shaped(j, 72)
        &&& has_required::<RoomId>(slot(j, "_id"@, 0))
        &&& has_required::<Timestamp>(slot(j, "_updatedAt"@, 1))
        &&& has_required::<RoomType>(slot(j, "t"@, 2))
        &&& has_optional::<String>(slot(j, "name"@, 3))
        &&& has_optional::<String>(slot(j, "fname"@, 4))
        &&& has_optional::<i64>(slot(j, "msgs"@, 5))
        &&& has_optional::<i64>(slot(j, "usersCount"@, 6))
        &&& has_optional::<UserRef>(slot(j, "u"@, 7))
        &&& has_optional::<Vec<UserId>>(slot(j, "uids"@, 8))
        &&& has_optional::<Vec<String>>(slot(j, "usernames"@, 9))
        &&& has_optional::<bool>(slot(j, "default"@, 10))
        &&& has_optional::<bool>(slot(j, "broadcast"@, 11))
        &&& has_optional::<bool>(slot(j, "featured"@, 12))
        &&& has_optional::<String>(slot(j, "topic"@, 13))
        &&& has_optional::<String>(slot(j, "description"@, 14))
        &&& has_optional::<String>(slot(j, "announcement"@, 15))
        &&& has_optional::<AnnouncementDetails>(slot(j, "announcementDetails"@, 16))
        &&& has_optional::<bool>(slot(j, "joinCodeRequired"@, 17))
        &&& has_optional::<bool>(slot(j, "encrypted"@, 18))
        &&& has_optional::<String>(slot(j, "e2eKeyId"@, 19))
        &&& has_optional::<Vec<Json>>(slot(j, "usersWaitingForE2EKeys"@, 20))
        &&& has_optional::<bool>(slot(j, "ro"@, 21))
        &&& has_optional::<bool>(slot(j, "reactWhenReadOnly"@, 22))
        &&& has_optional::<SysMes>(slot(j, "sysMes"@, 23))
        &&& has_optional::<bool>(slot(j, "cl"@, 24))
        &&& has_optional::<bool>(slot(j, "archived"@, 25))
        &&& has_optional::<Vec<String>>(slot(j, "muted"@, 26))
        &&& has_optional::<Vec<String>>(slot(j, "unmuted"@, 27))
        &&& has_optional::<Box<Message>>(slot(j, "lastMessage"@, 28))
        &&& has_date(slot(j, "lm"@, 29))
        &&& has_date(slot(j, "ts"@, 30))
        &&& has_date(slot(j, "webRtcCallStartTime"@, 31))
        &&& has_optional::<RoomId>(slot(j, "prid"@, 32))
        &&& has_optional::<String>(slot(j, "avatarETag"@, 33))
        &&& has_optional::<bool>(slot(j, "teamMain"@, 34))
        &&& has_optional::<String>(slot(j, "teamId"@, 35))
        &&& has_optional::<bool>(slot(j, "teamDefault"@, 36))
        &&& has_optional::<bool>(slot(j, "open"@, 37))
        &&& has_optional::<i64>(slot(j, "unread"@, 38))
        &&& has_optional::<bool>(slot(j, "alert"@, 39))
        &&& has_optional::<bool>(slot(j, "favorite"@, 40))
        &&& has_optional::<bool>(slot(j, "hideUnreadStatus"@, 41))
        &&& has_optional::<bool>(slot(j, "hideMentionStatus"@, 42))
        &&& has_optional::<bool>(slot(j, "autoTranslate"@, 43))
        &&& has_optional::<String>(slot(j, "autoTranslateLanguage"@, 44))
        &&& has_optional::<Json>(slot(j, "retention"@, 45))
        &&& has_optional::<Vec<Json>>(slot(j, "abacAttributes"@, 46))
        &&& has_optional::<RolePrioritiesCreated>(slot(j, "rolePrioritiesCreated"@, 47))
        &&& has_optional::<Json>(slot(j, "customFields"@, 48))
        &&& has_optional::<bool>(slot(j, "federated"@, 49))
        &&& has_optional::<Json>(slot(j, "federation"@, 50))
        &&& has_optional::<Json>(slot(j, "v"@, 51))
        &&& has_optional::<Json>(slot(j, "source"@, 52))
        &&& has_optional::<Json>(slot(j, "servedBy"@, 53))
        &&& has_optional::<String>(slot(j, "departmentId"@, 54))
        &&& has_optional::<bool>(slot(j, "onHold"@, 55))
        &&& has_optional::<Json>(slot(j, "waitingResponse"@, 56))
        &&& has_date(slot(j, "queuedAt"@, 57))
        &&& has_optional::<Vec<String>>(slot(j, "tags"@, 58))
        &&& has_optional::<Json>(slot(j, "livechatData"@, 59))
        &&& has_optional::<Json>(slot(j, "metrics"@, 60))
        &&& has_optional::<Json>(slot(j, "transcriptRequest"@, 61))
        &&& has_optional::<String>(slot(j, "priorityId"@, 62))
        &&& has_optional::<i64>(slot(j, "priorityWeight"@, 63))
        &&& has_optional::<String>(slot(j, "slaId"@, 64))
        &&& has_optional::<i64>(slot(j, "estimatedWaitingTimeQueue"@, 65))
        &&& has_optional::<String>(slot(j, "contactId"@, 66))
        &&& has_optional::<bool>(slot(j, "verified"@, 67))
        &&& has_optional::<Json>(slot(j, "sms"@, 68))
        &&& has_optional::<Json>(slot(j, "code"@, 69))
        &&& has_optional::<String>(slot(j, "label"@, 70))
        &&& has_optional::<Json>(slot(j, "sentiment"@, 71))
    }

    open spec fn read_from(&self, j: JsonView) -> bool {
        &&& is_required(self.id, slot(j, "_id"@, 0))
        &&& is_required(self.updated_at, slot(j, "_updatedAt"@, 1))
        &&& is_required(self.t, slot(j, "t"@, 2))
        &&& is_optional(self.name, slot(j, "name"@, 3))
        &&& is_optional(self.fname, slot(j, "fname"@, 4))
        &&& is_optional(self.msgs, slot(j, "msgs"@, 5))
        &&& is_optional(self.users_count, slot(j, "usersCount"@, 6))
        &&& is_optional(self.u, slot(j, "u"@, 7))
        &&& is_optional(self.uids, slot(j, "uids"@, 8))
        &&& is_optional(self.usernames, slot(j, "usernames"@, 9))
        &&& is_optional(self.default, slot(j, "default"@, 10))
        &&& is_optional(self.broadcast, slot(j, "broadcast"@, 11))
        &&& is_optional(self.featured, slot(j, "featured"@, 12))
        &&& is_optional(self.topic, slot(j, "topic"@, 13))
        &&& is_optional(self.description, slot(j, "description"@, 14))
        &&& is_optional(self.announcement, slot(j, "announcement"@, 15))
        &&& is_optional(self.announcement_details, slot(j, "announcementDetails"@, 16))
        &&& is_optional(self.join_code_required, slot(j, "joinCodeRequired"@, 17))
        &&& is_optional(self.encrypted, slot(j, "encrypted"@, 18))
        &&& is_optional(self.e2e_key_id, slot(j, "e2eKeyId"@, 19))
        &&& is_optional(self.users_waiting_for_e2e_keys, slot(j, "usersWaitingForE2EKeys"@, 20))
        &&& is_optional(self.ro, slot(j, "ro"@, 21))
        &&& is_optional(self.react_when_read_only, slot(j, "reactWhenReadOnly"@, 22))
        &&& is_optional(self.sys_mes, slot(j, "sysMes"@, 23))
        &&& is_optional(self.cl, slot(j, "cl"@, 24))
        &&& is_optional(self.archived, slot(j, "archived"@, 25))
        &&& is_optional(self.muted, slot(j, "muted"@, 26))
        &&& is_optional(self.unmuted, slot(j, "unmuted"@, 27))
        &&& is_optional(self.last_message, slot(j, "lastMessage"@, 28))
        &&& is_date(self.lm, slot(j, "lm"@, 29))
        &&& is_date(self.ts, slot(j, "ts"@, 30))
        &&& is_date(self.web_rtc_call_start_time, slot(j, "webRtcCallStartTime"@, 31))
        &&& is_optional(self.prid, slot(j, "prid"@, 32))
        &&& is_optional(self.avatar_etag, slot(j, "avatarETag"@, 33))
        &&& is_optional(self.team_main, slot(j, "teamMain"@, 34))
        &&& is_optional(self.team_id, slot(j, "teamId"@, 35))
        &&& is_optional(self.team_default, slot(j, "teamDefault"@, 36))
        &&& is_optional(self.open, slot(j, "open"@, 37))
        &&& is_optional(self.unread, slot(j, "unread"@, 38))
        &&& is_optional(self.alert, slot(j, "alert"@, 39))
        &&& is_optional(self.favorite, slot(j, "favorite"@, 40))
        &&& is_optional(self.hide_unread_status, slot(j, "hideUnreadStatus"@, 41))
        &&& is_optional(self.hide_mention_status, slot(j, "hideMentionStatus"@, 42))
        &&& is_optional(self.auto_translate, slot(j, "autoTranslate"@, 43))
        &&& is_optional(self.auto_translate_language, slot(j, "autoTranslateLanguage"@, 44))
        &&& is_optional(self.retention, slot(j, "retention"@, 45))
        &&& is_optional(self.abac_attributes, slot(j, "abacAttributes"@, 46))
        &&& is_optional(self.role_priorities_created, slot(j, "rolePrioritiesCreated"@, 47))
        &&& is_optional(self.custom_fields, slot(j, "customFields"@, 48))
        &&& is_optional(self.federated, slot(j, "federated"@, 49))
        &&& is_optional(self.federation, slot(j, "federation"@, 50))
        &&& is_optional(self.v, slot(j, "v"@, 51))
        &&& is_optional(self.source, slot(j, "source"@, 52))
        &&& is_optional(self.served_by, slot(j, "servedBy"@, 53))
        &&& is_optional(self.department_id, slot(j, "departmentId"@, 54))
        &&& is_optional(self.on_hold, slot(j, "onHold"@, 55))
        &&& is_optional(self.waiting_response, slot(j, "waitingResponse"@, 56))
        &&& is_date(self.queued_at, slot(j, "queuedAt"@, 57))
        &&& is_optional(self.tags, slot(j, "tags"@, 58))
        &&& is_optional(self.livechat_data, slot(j, "livechatData"@, 59))
        &&& is_optional(self.metrics, slot(j, "metrics"@, 60))
        &&& is_optional(self.transcript_request, slot(j, "transcriptRequest"@, 61))
        &&& is_optional(self.priority_id, slot(j, "priorityId"@, 62))
        &&& is_optional(self.priority_weight, slot(j, "priorityWeight"@, 63))
        &&& is_optional(self.sla_id, slot(j, "slaId"@, 64))
        &&& is_optional(self.estimated_waiting_time_queue, slot(j, "estimatedWaitingTimeQueue"@, 65))
        &&& is_optional(self.contact_id, slot(j, "contactId"@, 66))
        &&& is_optional(self.verified, slot(j, "verified"@, 67))
        &&& is_optional(self.sms, slot(j, "sms"@, 68))
        &&& is_optional(self.code, slot(j, "code"@, 69))
        &&& is_optional(self.label, slot(j, "label"@, 70))
        &&& is_optional(self.sentiment, slot(j, "sentiment"@, 71))
    }

    #[verifier::rlimit(60)]
    fn decode(j: &Json) -> (r: Option<Room>) {
        if !is_shaped(j, 72) {
            return None;
        }
        let id: RoomId = match required(j, "_id", 0) {
            Some(v) => v,
            None => {
                return None;
            },
        };
        let updated_at: Timestamp = match required(j, "_updatedAt", 1) {
            Some(v) => v,
            None => {
                return None;
            },
        };
        let t: RoomType = match required(j, "t", 2) {
            Some(v) => v,
            None => {
                return None;
            },
        };
        let name: Option<String> = match optional(j, "name", 3) {
            Some(v) => v,
            None => {
                return None;
            },
        };
        let fname: Option<String> = match optional(j, "fname", 4) {
            Some(v) => v,
            None => {
                return None;
            },
        };
        let msgs: Option<i64> = match optional(j, "msgs", 5) {
            Some(v) => v,
            None => {
                return None;
            },
        };
        let users_count: Option<i64> = match optional(j, "usersCount", 6) {
            Some(v) => v,
            None => {
                return None;
            },
        };
        let u: Option<UserRef> = match optional(j, "u", 7) {
            Some(v) => v,
            None => {
                return None;
            },
        };
        let uids: Option<Vec<UserId>> = match optional(j, "uids", 8) {
            Some(v) => v,
            None => {
                return None;
            },
        };
        let usernames: Option<Vec<String>> = match optional(j, "usernames", 9) {
            Some(v) => v,
            None => {
                return None;
            },
        };
        let default: Option<bool> = match optional(j, "default", 10) {
            Some(v) => v,
            None => {
                return None;
            },
        };
        let broadcast: Option<bool> = match optional(j, "broadcast", 11) {
            Some(v) => v,
            None => {
                return None;
            },
        };
        let featured: Option<bool> = match optional(j, "featured", 12) {
            Some(v) => v,
            None => {
                return None;
            },
        };
        let topic: Option<String> = match optional(j, "topic", 13) {
            Some(v) => v,
            None => {
                return None;
            },
        };
        let description: Option<String> = match optional(j, "description", 14) {
            Some(v) => v,
            None => {
                return None;
            },
        };
        let announcement: Option<String> = match optional(j, "announcement", 15) {
            Some(v) => v,
            None => {
                return None;
            },
        };
        let announcement_details: Option<AnnouncementDetails> = match optional(j, "announcementDetails", 16) {
            Some(v) => v,
            None => {
                return None;
            },
        };
        let join_code_required: Option<bool> = match optional(j, "joinCodeRequired", 17) {
            Some(v) => v,
            None => {
                return None;
            },
        };
        let encrypted: Option<bool> = match optional(j, "encrypted", 18) {
            Some(v) => v,
            None => {
                return None;
            },
        };
        let e2e_key_id: Option<String> = match optional(j, "e2eKeyId", 19) {
            Some(v) => v,
            None => {
                return None;
            },
        };
        let users_waiting_for_e2e_keys: Option<Vec<Json>> = match optional(j, "usersWaitingForE2EKeys", 20) {
            Some(v) => v,
            None => {
                return None;
            },
        };
        let ro: Option<bool> = match optional(j, "ro", 21) {
            Some(v) => v,
            None => {
                return None;
            },
        };
        let react_when_read_only: Option<bool> = match optional(j, "reactWhenReadOnly", 22) {
            Some(v) => v,
            None => {
                return None;
            },
        };
        let sys_mes: Option<SysMes> = match optional(j, "sysMes", 23) {
            Some(v) => v,
            None => {
                return None;
            },
        };
        let cl: Option<bool> = match optional(j, "cl", 24) {
            Some(v) => v,
            None => {
                return None;
            },
        };
        let archived: Option<bool> = match optional(j, "archived", 25) {
            Some(v) => v,
            None => {
                return None;
            },
        };
        let muted: Option<Vec<String>> = match optional(j, "muted", 26) {
            Some(v) => v,
            None => {
                return None;
            },
        };
        let unmuted: Option<Vec<String>> = match optional(j, "unmuted", 27) {
            Some(v) => v,
            None => {
                return None;
            },
        };
        let last_message: Option<Box<Message>> = match optional(j, "lastMessage", 28) {
            Some(v) => v,
            None => {
                return None;
            },
        };
        let lm: Option<Timestamp> = match optional_date(j, "lm", 29) {
            Some(v) => v,
            None => {
                return None;
            },
        };
        let ts: Option<Timestamp> = match optional_date(j, "ts", 30) {
            Some(v) => v,
            None => {
                return None;
            },
        };
        let web_rtc_call_start_time: Option<Timestamp> = match optional_date(j, "webRtcCallStartTime", 31) {
            Some(v) => v,
            None => {
                return None;
            },
        };
        let prid: Option<RoomId> = match optional(j, "prid", 32) {
            Some(v) => v,
            None => {
                return None;
            },
        };
        let avatar_etag: Option<String> = match optional(j, "avatarETag", 33) {
            Some(v) => v,
            None => {
                return None;
            },
        };
        let team_main: Option<bool> = match optional(j, "teamMain", 34) {
            Some(v) => v,
            None => {
                return None;
            },
        };
        let team_id: Option<String> = match optional(j, "teamId", 35) {
            Some(v) => v,
            None => {
                return None;
            },
        };
        let team_default: Option<bool> = match optional(j, "teamDefault", 36) {
            Some(v) => v,
            None => {
                return None;
            },
        };
        let open: Option<bool> = match optional(j, "open", 37) {
            Some(v) => v,
            None => {
                return None;
            },
        };
        let unread: Option<i64> = match optional(j, "unread", 38) {
            Some(v) => v,
            None => {
                return None;
            },
        };
        let alert: Option<bool> = match optional(j, "alert", 39) {
            Some(v) => v,
            None => {
                return None;
            },
        };
        let favorite: Option<bool> = match optional(j, "favorite", 40) {
            Some(v) => v,
            None => {
                return None;
            },
        };
        let hide_unread_status: Option<bool> = match optional(j, "hideUnreadStatus", 41) {
            Some(v) => v,
            None => {
                return None;
            },
        };
        let hide_mention_status: Option<bool> = match optional(j, "hideMentionStatus", 42) {
            Some(v) => v,
            None => {
                return None;
            },
        };
        let auto_translate: Option<bool> = match optional(j, "autoTranslate", 43) {
            Some(v) => v,
            None => {
                return None;
            },
        };
        let auto_translate_language: Option<String> = match optional(j, "autoTranslateLanguage", 44) {
            Some(v) => v,
            None => {
                return None;
            },
        };
        let retention: Option<Json> = match optional(j, "retention", 45) {
            Some(v) => v,
            None => {
                return None;
            },
        };
        let abac_attributes: Option<Vec<Json>> = match optional(j, "abacAttributes", 46) {
            Some(v) => v,
            None => {
                return None;
            },
        };
        let role_priorities_created: Option<RolePrioritiesCreated> = match optional(j, "rolePrioritiesCreated", 47) {
            Some(v) => v,
            None => {
                return None;
            },
        };
        let custom_fields: Option<Json> = match optional(j, "customFields", 48) {
            Some(v) => v,
            None => {
                return None;
            },
        };
        let federated: Option<bool> = match optional(j, "federated", 49) {
            Some(v) => v,
            None => {
                return None;
            },
        };
        let federation: Option<Json> = match optional(j, "federation", 50) {
            Some(v) => v,
            None => {
                return None;
            },
        };
        let v: Option<Json> = match optional(j, "v", 51) {
            Some(v) => v,
            None => {
                return None;
            },
        };
        let source: Option<Json> = match optional(j, "source", 52) {
            Some(v) => v,
            None => {
                return None;
            },
        };
        let served_by: Option<Json> = match optional(j, "servedBy", 53) {
            Some(v) => v,
            None => {
                return None;
            },
        };
        let department_id: Option<String> = match optional(j, "departmentId", 54) {
            Some(v) => v,
            None => {
                return None;
            },
        };
        let on_hold: Option<bool> = match optional(j, "onHold", 55) {
            Some(v) => v,
            None => {
                return None;
            },
        };
        let waiting_response: Option<Json> = match optional(j, "waitingResponse", 56) {
            Some(v) => v,
            None => {
                return None;
            },
        };
        let queued_at: Option<Timestamp> = match optional_date(j, "queuedAt", 57) {
            Some(v) => v,
            None => {
                return None;
            },
        };
        let tags: Option<Vec<String>> = match optional(j, "tags", 58) {
            Some(v) => v,
            None => {
                return None;
            },
        };
        let livechat_data: Option<Json> = match optional(j, "livechatData", 59) {
            Some(v) => v,
            None => {
                return None;
            },
        };
        let metrics: Option<Json> = match optional(j, "metrics", 60) {
            Some(v) => v,
            None => {
                return None;
            },
        };
        let transcript_request: Option<Json> = match optional(j, "transcriptRequest", 61) {
            Some(v) => v,
            None => {
                return None;
            },
        };
        let priority_id: Option<String> = match optional(j, "priorityId", 62) {
            Some(v) => v,
            None => {
                return None;
            },
        };
        let priority_weight: Option<i64> = match optional(j, "priorityWeight", 63) {
            Some(v) => v,
            None => {
                return None;
            },
        };
        let sla_id: Option<String> = match optional(j, "slaId", 64) {
            Some(v) => v,
            None => {
                return None;
            },
        };
        let estimated_waiting_time_queue: Option<i64> = match optional(j, "estimatedWaitingTimeQueue", 65) {
            Some(v) => v,
            None => {
                return None;
            },
        };
        let contact_id: Option<String> = match optional(j, "contactId", 66) {
            Some(v) => v,
            None => {
                return None;
            },
        };
        let verified: Option<bool> = match optional(j, "verified", 67) {
            Some(v) => v,
            None => {
                return None;
            },
        };
        let sms: Option<Json> = match optional(j, "sms", 68) {
            Some(v) => v,
            None => {
                return None;
            },
        };
        let code: Option<Json> = match optional(j, "code", 69) {
            Some(v) => v,
            None => {
                return None;
            },
        };
        let label: Option<String> = match optional(j, "label", 70) {
            Some(v) => v,
            None => {
                return None;
            },
        };
        let sentiment: Option<Json> = match optional(j, "sentiment", 71) {
            Some(v) => v,
            None => {
                return None;
            },
        };
        Some(
            Room {
                id,
                updated_at,
                t,
                name,
                fname,
                msgs,
                users_count,
                u,
                uids,
                usernames,
                default,
                broadcast,
                featured,
                topic,
                description,
                announcement,
                announcement_details,
                join_code_required,
                encrypted,
                e2e_key_id,
                users_waiting_for_e2e_keys,
                ro,
                react_when_read_only,
                sys_mes,
                cl,
                archived,
                muted,
                unmuted,
                last_message,
                lm,
                ts,
                web_rtc_call_start_time,
                prid,
                avatar_etag,
                team_main,
                team_id,
                team_default,
                open,
                unread,
                alert,
                favorite,
                hide_unread_status,
                hide_mention_status,
                auto_translate,
                auto_translate_language,
                retention,
                abac_attributes,
                role_priorities_created,
                custom_fields,
                federated,
                federation,
                v,
                source,
                served_by,
                department_id,
                on_hold,
                waiting_response,
                queued_at,
                tags,
                livechat_data,
                metrics,
                transcript_request,
                priority_id,
                priority_weight,
                sla_id,
                estimated_waiting_time_queue,
                contact_id,
                verified,
                sms,
                code,
                label,
                sentiment,
            },
        )
    }
}

impl Encode for Room {
    open spec fn doc(&self) -> JsonView {
        let m = Map::empty();
        let m = with(m, "_id"@, self.id.doc());
        let m = with(m, "_updatedAt"@, self.updated_at.doc());
        let m = with(m, "t"@, self.t.doc());
        let m = with_some(m, "name"@, self.name);
        let m = with_some(m, "fname"@, self.fname);
        let m = with_some(m, "msgs"@, self.msgs);
        let m = with_some(m, "usersCount"@, self.users_count);
        let m = with_some(m, "u"@, self.u);
        let m = with_some(m, "uids"@, self.uids);
        let m = with_some(m, "usernames"@, self.usernames);
        let m = with_some(m, "default"@, self.default);
        let m = with_some(m, "broadcast"@, self.broadcast);
        let m = with_some(m, "featured"@, self.featured);
        let m = with_some(m, "topic"@, self.topic);
        let m = with_some(m, "description"@, self.description);
        let m = with_some(m, "announcement"@, self.announcement);
        let m = with_some(m, "announcementDetails"@, self.announcement_details);
        let m = with_some(m, "joinCodeRequired"@, self.join_code_required);
        let m = with_some(m, "encrypted"@, self.encrypted);
        let m = with_some(m, "e2eKeyId"@, self.e2e_key_id);
        let m = with_some(m, "usersWaitingForE2EKeys"@, self.users_waiting_for_e2e_keys);
        let m = with_some(m, "ro"@, self.ro);
        let m = with_some(m, "reactWhenReadOnly"@, self.react_when_read_only);
        let m = with_some(m, "sysMes"@, self.sys_mes);
        let m = with_some(m, "cl"@, self.cl);
        let m = with_some(m, "archived"@, self.archived);
        let m = with_some(m, "muted"@, self.muted);
        let m = with_some(m, "unmuted"@, self.unmuted);
        let m = with_some(m, "lastMessage"@, self.last_message);
        let m = with_some(m, "lm"@, self.lm);
        let m = with_some(m, "ts"@, self.ts);
        let m = with_some(m, "webRtcCallStartTime"@, self.web_rtc_call_start_time);
        let m = with_some(m, "prid"@, self.prid);
        let m = with_some(m, "avatarETag"@, self.avatar_etag);
        let m = with_some(m, "teamMain"@, self.team_main);
        let m = with_some(m, "teamId"@, self.team_id);
        let m = with_some(m, "teamDefault"@, self.team_default);
        let m = with_some(m, "open"@, self.open);
        let m = with_some(m, "unread"@, self.unread);
        let m = with_some(m, "alert"@, self.alert);
        let m = with_some(m, "favorite"@, self.favorite);
        let m = with_some(m, "hideUnreadStatus"@, self.hide_unread_status);
        let m = with_some(m, "hideMentionStatus"@, self.hide_mention_status);
        let m = with_some(m, "autoTranslate"@, self.auto_translate);
        let m = with_some(m, "autoTranslateLanguage"@, self.auto_translate_language);
        let m = with_some(m, "retention"@, self.retention);
        let m = with_some(m, "abacAttributes"@, self.abac_attributes);
        let m = with_some(m, "rolePrioritiesCreated"@, self.role_priorities_created);
        let m = with_some(m, "customFields"@, self.custom_fields);
        let m = with_some(m, "federated"@, self.federated);
        let m = with_some(m, "federation"@, self.federation);
        let m = with_some(m, "v"@, self.v);
        let m = with_some(m, "source"@, self.source);
        let m = with_some(m, "servedBy"@, self.served_by);
        let m = with_some(m, "departmentId"@, self.department_id);
        let m = with_some(m, "onHold"@, self.on_hold);
        let m = with_some(m, "waitingResponse"@, self.waiting_response);
        let m = with_some(m, "queuedAt"@, self.queued_at);
        let m = with_some(m, "tags"@, self.tags);
        let m = with_some(m, "livechatData"@, self.livechat_data);
        let m = with_some(m, "metrics"@, self.metrics);
        let m = with_some(m, "transcriptRequest"@, self.transcript_request);
        let m = with_some(m, "priorityId"@, self.priority_id);
        let m = with_some(m, "priorityWeight"@, self.priority_weight);
        let m = with_some(m, "slaId"@, self.sla_id);
        let m = with_some(m, "estimatedWaitingTimeQueue"@, self.estimated_waiting_time_queue);
        let m = with_some(m, "contactId"@, self.contact_id);
        let m = with_some(m, "verified"@, self.verified);
        let m = with_some(m, "sms"@, self.sms);
        let m = with_some(m, "code"@, self.code);
        let m = with_some(m, "label"@, self.label);
        let m = with_some(m, "sentiment"@, self.sentiment);
        JsonView::Object(m)
    }

    #[verifier::rlimit(60)]
    fn encode(&self) -> (r: Json) {
        let mut map = JsonMap::new();
        put(&mut map, "_id", &self.id);
        put(&mut map, "_updatedAt", &self.updated_at);
        put(&mut map, "t", &self.t);
        put_some(&mut map, "name", &self.name);
        put_some(&mut map, "fname", &self.fname);
        put_some(&mut map, "msgs", &self.msgs);
        put_some(&mut map, "usersCount", &self.users_count);
        put_some(&mut map, "u", &self.u);
        put_some(&mut map, "uids", &self.uids);
        put_some(&mut map, "usernames", &self.usernames);
        put_some(&mut map, "default", &self.default);
        put_some(&mut map, "broadcast", &self.broadcast);
        put_some(&mut map, "featured", &self.featured);
        put_some(&mut map, "topic", &self.topic);
        put_some(&mut map, "description", &self.description);
        put_some(&mut map, "announcement", &self.announcement);
        put_some(&mut map, "announcementDetails", &self.announcement_details);
        put_some(&mut map, "joinCodeRequired", &self.join_code_required);
        put_some(&mut map, "encrypted", &self.encrypted);
        put_some(&mut map, "e2eKeyId", &self.e2e_key_id);
        put_some(&mut map, "usersWaitingForE2EKeys", &self.users_waiting_for_e2e_keys);
        put_some(&mut map, "ro", &self.ro);
        put_some(&mut map, "reactWhenReadOnly", &self.react_when_read_only);
        put_some(&mut map, "sysMes", &self.sys_mes);
        put_some(&mut map, "cl", &self.cl);
        put_some(&mut map, "archived", &self.archived);
        put_some(&mut map, "muted", &self.muted);
        put_some(&mut map, "unmuted", &self.unmuted);
        put_some(&mut map, "lastMessage", &self.last_message);
        put_some(&mut map, "lm", &self.lm);
        put_some(&mut map, "ts", &self.ts);
        put_some(&mut map, "webRtcCallStartTime", &self.web_rtc_call_start_time);
        put_some(&mut map, "prid", &self.prid);
        put_some(&mut map, "avatarETag", &self.avatar_etag);
        put_some(&mut map, "teamMain", &self.team_main);
        put_some(&mut map, "teamId", &self.team_id);
        put_some(&mut map, "teamDefault", &self.team_default);
        put_some(&mut map, "open", &self.open);
        put_some(&mut map, "unread", &self.unread);
        put_some(&mut map, "alert", &self.alert);
        put_some(&mut map, "favorite", &self.favorite);
        put_some(&mut map, "hideUnreadStatus", &self.hide_unread_status);
        put_some(&mut map, "hideMentionStatus", &self.hide_mention_status);
        put_some(&mut map, "autoTranslate", &self.auto_translate);
        put_some(&mut map, "autoTranslateLanguage", &self.auto_translate_language);
        put_some(&mut map, "retention", &self.retention);
        put_some(&mut map, "abacAttributes", &self.abac_attributes);
        put_some(&mut map, "rolePrioritiesCreated", &self.role_priorities_created);
        put_some(&mut map, "customFields", &self.custom_fields);
        put_some(&mut map, "federated", &self.federated);
        put_some(&mut map, "federation", &self.federation);
        put_some(&mut map, "v", &self.v);
        put_some(&mut map, "source", &self.source);
        put_some(&mut map, "servedBy", &self.served_by);
        put_some(&mut map, "departmentId", &self.department_id);
        put_some(&mut map, "onHold", &self.on_hold);
        put_some(&mut map, "waitingResponse", &self.waiting_response);
        put_some(&mut map, "queuedAt", &self.queued_at);
        put_some(&mut map, "tags", &self.tags);
        put_some(&mut map, "livechatData", &self.livechat_data);
        put_some(&mut map, "metrics", &self.metrics);
        put_some(&mut map, "transcriptRequest", &self.transcript_request);
        put_some(&mut map, "priorityId", &self.priority_id);
        put_some(&mut map, "priorityWeight", &self.priority_weight);
        put_some(&mut map, "slaId", &self.sla_id);
        put_some(&mut map, "estimatedWaitingTimeQueue", &self.estimated_waiting_time_queue);
        put_some(&mut map, "contactId", &self.contact_id);
        put_some(&mut map, "verified", &self.verified);
        put_some(&mut map, "sms", &self.sms);
        put_some(&mut map, "code", &self.code);
        put_some(&mut map, "label", &self.label);
        put_some(&mut map, "sentiment", &self.sentiment);
        Json::Object(map)
    }
}

impl Duplicate for Room {
    open spec fn alike(&self, other: &Room) -> bool {
        &&& self.id.alike(&other.id)
        &&& self.updated_at.alike(&other.updated_at)
        &&& self.t.alike(&other.t)
        &&& same_some(self.name, other.name)
        &&& same_some(self.fname, other.fname)
        &&& same_some(self.msgs, other.msgs)
        &&& same_some(self.users_count, other.users_count)
        &&& same_some(self.u, other.u)
        &&& same_some(self.uids, other.uids)
        &&& same_some(self.usernames, other.usernames)
        &&& same_some(self.default, other.default)
        &&& same_some(self.broadcast, other.broadcast)
        &&& same_some(self.featured, other.featured)
        &&& same_some(self.topic, other.topic)
        &&& same_some(self.description, other.description)
        &&& same_some(self.announcement, other.announcement)
        &&& same_some(self.announcement_details, other.announcement_details)
        &&& same_some(self.join_code_required, other.join_code_required)
        &&& same_some(self.encrypted, other.encrypted)
        &&& same_some(self.e2e_key_id, other.e2e_key_id)
        &&& same_some(self.users_waiting_for_e2e_keys, other.users_waiting_for_e2e_keys)
        &&& same_some(self.ro, other.ro)
        &&& same_some(self.react_when_read_only, other.react_when_read_only)
        &&& same_some(self.sys_mes, other.sys_mes)
        &&& same_some(self.cl, other.cl)
        &&& same_some(self.archived, other.archived)
        &&& same_some(self.muted, other.muted)
        &&& same_some(self.unmuted, other.unmuted)
        &&& same_some(self.last_message, other.last_message)
        &&& same_some(self.lm, other.lm)
        &&& same_some(self.ts, other.ts)
        &&& same_some(self.web_rtc_call_start_time, other.web_rtc_call_start_time)
        &&& same_some(self.prid, other.prid)
        &&& same_some(self.avatar_etag, other.avatar_etag)
        &&& same_some(self.team_main, other.team_main)
        &&& same_some(self.team_id, other.team_id)
        &&& same_some(self.team_default, other.team_default)
        &&& same_some(self.open, other.open)
        &&& same_some(self.unread, other.unread)
        &&& same_some(self.alert, other.alert)
        &&& same_some(self.favorite, other.favorite)
        &&& same_some(self.hide_unread_status, other.hide_unread_status)
        &&& same_some(self.hide_mention_status, other.hide_mention_status)
        &&& same_some(self.auto_translate, other.auto_translate)
        &&& same_some(self.auto_translate_language, other.auto_translate_language)
        &&& same_some(self.retention, other.retention)
        &&& same_some(self.abac_attributes, other.abac_attributes)
        &&& same_some(self.role_priorities_created, other.role_priorities_created)
        &&& same_some(self.custom_fields, other.custom_fields)
        &&& same_some(self.federated, other.federated)
        &&& same_some(self.federation, other.federation)
        &&& same_some(self.v, other.v)
        &&& same_some(self.source, other.source)
        &&& same_some(self.served_by, other.served_by)
        &&& same_some(self.department_id, other.department_id)
        &&& same_some(self.on_hold, other.on_hold)
        &&& same_some(self.waiting_response, other.waiting_response)
        &&& same_some(self.queued_at, other.queued_at)
        &&& same_some(self.tags, other.tags)
        &&& same_some(self.livechat_data, other.livechat_data)
        &&& same_some(self.metrics, other.metrics)
        &&& same_some(self.transcript_request, other.transcript_request)
        &&& same_some(self.priority_id, other.priority_id)
        &&& same_some(self.priority_weight, other.priority_weight)
        &&& same_some(self.sla_id, other.sla_id)
        &&& same_some(self.estimated_waiting_time_queue, other.estimated_waiting_time_queue)
        &&& same_some(self.contact_id, other.contact_id)
        &&& same_some(self.verified, other.verified)
        &&& same_some(self.sms, other.sms)
        &&& same_some(self.code, other.code)
        &&& same_some(self.label, other.label)
        &&& same_some(self.sentiment, other.sentiment)
    }

    #[verifier::rlimit(60)]
    fn dup(&self) -> (r: Room) {
        let copy = Room {
            id: self.id.dup(),
            updated_at: self.updated_at.dup(),
            t: self.t.dup(),
            name: dup_some(&self.name),
            fname: dup_some(&self.fname),
            msgs: dup_some(&self.msgs),
            users_count: dup_some(&self.users_count),
            u: dup_some(&self.u),
            uids: dup_some(&self.uids),
            usernames: dup_some(&self.usernames),
            default: dup_some(&self.default),
            broadcast: dup_some(&self.broadcast),
            featured: dup_some(&self.featured),
            topic: dup_some(&self.topic),
            description: dup_some(&self.description),
            announcement: dup_some(&self.announcement),
            announcement_details: dup_some(&self.announcement_details),
            join_code_required: dup_some(&self.join_code_required),
            encrypted: dup_some(&self.encrypted),
            e2e_key_id: dup_some(&self.e2e_key_id),
            users_waiting_for_e2e_keys: dup_some(&self.users_waiting_for_e2e_keys),
            ro: dup_some(&self.ro),
            react_when_read_only: dup_some(&self.react_when_read_only),
            sys_mes: dup_some(&self.sys_mes),
            cl: dup_some(&self.cl),
            archived: dup_some(&self.archived),
            muted: dup_some(&self.muted),
            unmuted: dup_some(&self.unmuted),
            last_message: dup_some(&self.last_message),
            lm: dup_some(&self.lm),
            ts: dup_some(&self.ts),
            web_rtc_call_start_time: dup_some(&self.web_rtc_call_start_time),
            prid: dup_some(&self.prid),
            avatar_etag: dup_some(&self.avatar_etag),
            team_main: dup_some(&self.team_main),
            team_id: dup_some(&self.team_id),
            team_default: dup_some(&self.team_default),
            open: dup_some(&self.open),
            unread: dup_some(&self.unread),
            alert: dup_some(&self.alert),
            favorite: dup_some(&self.favorite),
            hide_unread_status: dup_some(&self.hide_unread_status),
            hide_mention_status: dup_some(&self.hide_mention_status),
            auto_translate: dup_some(&self.auto_translate),
            auto_translate_language: dup_some(&self.auto_translate_language),
            retention: dup_some(&self.retention),
            abac_attributes: dup_some(&self.abac_attributes),
            role_priorities_created: dup_some(&self.role_priorities_created),
            custom_fields: dup_some(&self.custom_fields),
            federated: dup_some(&self.federated),
            federation: dup_some(&self.federation),
            v: dup_some(&self.v),
            source: dup_some(&self.source),
            served_by: dup_some(&self.served_by),
            department_id: dup_some(&self.department_id),
            on_hold: dup_some(&self.on_hold),
            waiting_response: dup_some(&self.waiting_response),
            queued_at: dup_some(&self.queued_at),
            tags: dup_some(&self.tags),
            livechat_data: dup_some(&self.livechat_data),
            metrics: dup_some(&self.metrics),
            transcript_request: dup_some(&self.transcript_request),
            priority_id: dup_some(&self.priority_id),
            priority_weight: dup_some(&self.priority_weight),
            sla_id: dup_some(&self.sla_id),
            estimated_waiting_time_queue: dup_some(&self.estimated_waiting_time_queue),
            contact_id: dup_some(&self.contact_id),
            verified: dup_some(&self.verified),
            sms: dup_some(&self.sms),
            code: dup_some(&self.code),
            label: dup_some(&self.label),
            sentiment: dup_some(&self.sentiment),
        };
        proof {
            lemma_room_same(copy, *self);
        }
        copy
    }
}

impl Room {
    /// Whether this is a direct message room.
    pub fn is_direct(&self) -> (r: bool)
        ensures
            r == (self.t is Direct),
    {
        self.t.is_direct()
    }

    /// Whether this is a direct message room with more than two participants.
    pub fn is_multi_user_direct(&self) -> (r: bool)
        ensures
            r == (self.t is Direct && (self.uids matches Some(uids) && uids@.len() > 2)),
    {
        self.is_direct() && match &self.uids {
            Some(uids) => uids.len() > 2,
            None => false,
        }
    }

    /// Whether this is the main room of a team.
    pub fn is_team(&self) -> (r: bool)
        ensures
            r == (self.team_main == Some(true)),
    {
        match self.team_main {
            Some(b) => b,
            None => false,
        }
    }

    /// Whether this is a discussion.
    pub fn is_discussion(&self) -> (r: bool)
        ensures
            r == (self.prid is Some),
    {
        self.prid.is_some()
    }

    /// The name to show.
    pub fn display_name(&self) -> (r: Option<&str>)
        ensures
            opt_str(r) == first_of(opt_chars(self.fname), opt_chars(self.name)),
    {
        first_text(&self.fname, &self.name)
    }
}

} // verus!
