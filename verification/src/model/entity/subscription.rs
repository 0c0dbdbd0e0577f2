//! A user's relation to a room.
use crate::model::datetime::Timestamp;
use crate::model::entity::enums::{
    NotificationPreference, PreferenceOrigin, RoomType, SubscriptionStatus, UnreadAlert,
};
use crate::model::entity::parts::{OldRoomKey, UserRef};
use crate::model::faithful::subscription::lemma_subscription_same;
use crate::model::id::{MessageId, RoleId, RoomId, SubscriptionId, UserId};
use crate::model::json::{Json, JsonMap, JsonView};
use crate::text::str_eq;
use crate::model::wire::{
    dup_some, has_date, has_optional, has_required, is_date, is_optional, is_required,
    is_shaped, optional, optional_date, put, put_some, required, same_some, shaped, slot, with,
    with_some, Decode, Dict, Duplicate, Encode,
};
use vstd::prelude::*;
use vstd::string::*;

verus! {

/// A user's membership of a room, and every per-user setting attached to it.
#[derive(Clone, Debug, PartialEq)]
pub struct Subscription {
    /// Subscription document id.
    pub id: SubscriptionId,
    /// Last write to the document.
    pub updated_at: Timestamp,
    /// The subscribed room.
    pub rid: RoomId,
    /// The subscribing user.
    pub u: UserRef,
    /// Kind of the subscribed room, denormalised from `Room::t`.
    pub t: RoomType,
    /// When the subscription was created.
    pub ts: Timestamp,
    /// Room name as this user sees it.
    pub name: String,
    /// Whether the room is open in this user's sidebar.
    pub open: bool,
    /// Unread message count.
    pub unread: i64,
    /// Number of unread direct mentions of this user.
    pub user_mentions: i64,
    /// Number of unread `@all` / `@here` mentions.
    pub group_mentions: i64,
    /// Display name of the room, denormalised from `Room::fname`.
    pub fname: Option<String>,
    /// Whether the sidebar entry should be highlighted.
    pub alert: Option<bool>,
    /// Last time this user read the room ("last seen").
    pub ls: Option<Timestamp>,
    /// Last time a message was received in the room ("last received").
    pub lr: Option<Timestamp>,
    /// Whether the room is favourited.
    pub f: Option<bool>,
    /// Suppresses the unread badge.
    pub hide_unread_status: Option<bool>,
    /// Suppresses the mention badge.
    pub hide_mention_status: Option<bool>,
    /// Whether the subscribed room is a team's main channel.
    pub team_main: Option<bool>,
    /// Id of the team the room belongs to.
    pub team_id: Option<String>,
    /// Whether the room is broadcast-only.
    pub broadcast: Option<bool>,
    /// Parent room id, when the subscription is to a discussion.
    pub prid: Option<RoomId>,
    /// Ids of threads with unread replies.
    pub tunread: Option<Vec<MessageId>>,
    /// Threads with unread `@all` / `@here` mentions.
    pub tunread_group: Option<Vec<MessageId>>,
    /// Threads with unread direct mentions of this user.
    pub tunread_user: Option<Vec<MessageId>>,
    /// Room-scoped roles held by this user (`owner`, `moderator`, `leader`, ...).
    pub roles: Option<Vec<RoleId>>,
    /// Whether the omnichannel conversation is on hold.
    pub on_hold: Option<bool>,
    /// Whether the room is end-to-end encrypted.
    pub encrypted: Option<bool>,
    /// The room's E2E key, encrypted for this user.
    pub e2e_key: Option<String>,
    /// A key another member offered while this user's key was still pending.
    pub e2e_suggested_key: Option<String>,
    /// Superseded room keys.
    pub old_room_keys: Option<Vec<OldRoomKey>>,
    /// Superseded keys offered by other members.
    pub suggested_old_room_keys: Option<Vec<OldRoomKey>>,
    /// When the unread badge should appear.
    pub unread_alert: Option<UnreadAlert>,
    /// Desktop notification volume.
    pub desktop_notifications: Option<NotificationPreference>,
    /// Mobile push notification volume.
    pub mobile_push_notifications: Option<NotificationPreference>,
    /// Email notification volume.
    pub email_notifications: Option<NotificationPreference>,
    /// Which layer the desktop preference came from.
    pub desktop_pref_origin: Option<PreferenceOrigin>,
    /// Which layer the mobile preference came from.
    pub mobile_pref_origin: Option<PreferenceOrigin>,
    /// Which layer the email preference came from.
    pub email_pref_origin: Option<PreferenceOrigin>,
    /// Notification sound.
    pub audio_notification_value: Option<String>,
    /// Whether all notifications for the room are off.
    pub disable_notifications: Option<bool>,
    /// Whether `@all` / `@here` are ignored in this room.
    pub mute_group_mentions: Option<bool>,
    /// Extra words that count as a highlight for this user in this room.
    pub user_highlights: Option<Vec<String>>,
    /// Users whose messages this user has chosen to hide.
    pub ignored: Option<Vec<UserId>>,
    /// Whether the room is archived for this user.
    pub archived: Option<bool>,
    /// Whether auto-translation is on for this user in this room.
    pub auto_translate: Option<bool>,
    /// Target language for auto-translation.
    pub auto_translate_language: Option<String>,
    /// Whether this user blocked the other party of a DM.
    pub blocked: Option<Json>,
    /// Whether this user was blocked by the other party.
    pub blocker: Option<Json>,
    /// Unsent message body, synced across this user's devices.
    pub draft: Option<String>,
    /// Unsent thread replies, keyed by thread id.
    pub thread_drafts: Option<Dict<String>>,
    /// Membership state, when it is not a plain active membership.
    pub status: Option<SubscriptionStatus>,
    /// Who invited this user, for an `INVITED` subscription.
    pub inviter: Option<UserRef>,
    /// The omnichannel visitor, on a livechat subscription.
    pub v: Option<Json>,
    /// Omnichannel department.
    pub department: Option<Json>,
    /// Join code / omnichannel code.
    pub code: Option<Json>,
    /// When ABAC access was last re-evaluated for this membership.
    pub abac_last_time_checked: Option<Timestamp>,
    /// Free-form custom fields.
    pub custom_fields: Option<Json>,
}

impl Decode for Subscription {
    open spec fn accepts(j: JsonView) -> bool {
        &&& shaped(j, 58)
        &&& has_required::<SubscriptionId>(slot(j, "_id"@, 0))
        &&& has_required::<Timestamp>(slot(j, "_updatedAt"@, 1))
        &&& has_required::<RoomId>(slot(j, "rid"@, 2))
        &&& has_required::<UserRef>(slot(j, "u"@, 3))
        &&& has_required::<RoomType>(slot(j, "t"@, 4))
        &&& has_required::<Timestamp>(slot(j, "ts"@, 5))
        &&& has_required::<String>(slot(j, "name"@, 6))
        &&& has_required::<bool>(slot(j, "open"@, 7))
        &&& has_required::<i64>(slot(j, "unread"@, 8))
        &&& has_required::<i64>(slot(j, "userMentions"@, 9))
        &&& has_required::<i64>(slot(j, "groupMentions"@, 10))
        &&& has_optional::<String>(slot(j, "fname"@, 11))
        &&& has_optional::<bool>(slot(j, "alert"@, 12))
        &&& has_date(slot(j, "ls"@, 13))
        &&& has_date(slot(j, "lr"@, 14))
        &&& has_optional::<bool>(slot(j, "f"@, 15))
        &&& has_optional::<bool>(slot(j, "hideUnreadStatus"@, 16))
        &&& has_optional::<bool>(slot(j, "hideMentionStatus"@, 17))
        &&& has_optional::<bool>(slot(j, "teamMain"@, 18))
        &&& has_optional::<String>(slot(j, "teamId"@, 19))
        &&& has_optional::<bool>(slot(j, "broadcast"@, 20))
        &&& has_optional::<RoomId>(slot(j, "prid"@, 21))
        &&& has_optional::<Vec<MessageId>>(slot(j, "tunread"@, 22))
        &&& has_optional::<Vec<MessageId>>(slot(j, "tunreadGroup"@, 23))
        &&& has_optional::<Vec<MessageId>>(slot(j, "tunreadUser"@, 24))
        &&& has_optional::<Vec<RoleId>>(slot(j, "roles"@, 25))
        &&& has_optional::<bool>(slot(j, "onHold"@, 26))
        &&& has_optional::<bool>(slot(j, "encrypted"@, 27))
        &&& has_optional::<String>(slot(j, "E2EKey"@, 28))
        &&& has_optional::<String>(slot(j, "E2ESuggestedKey"@, 29))
        &&& has_optional::<Vec<OldRoomKey>>(slot(j, "oldRoomKeys"@, 30))
        &&& has_optional::<Vec<OldRoomKey>>(slot(j, "suggestedOldRoomKeys"@, 31))
        &&& has_optional::<UnreadAlert>(slot(j, "unreadAlert"@, 32))
        &&& has_optional::<NotificationPreference>(slot(j, "desktopNotifications"@, 33))
        &&& has_optional::<NotificationPreference>(slot(j, "mobilePushNotifications"@, 34))
        &&& has_optional::<NotificationPreference>(slot(j, "emailNotifications"@, 35))
        &&& has_optional::<PreferenceOrigin>(slot(j, "desktopPrefOrigin"@, 36))
        &&& has_optional::<PreferenceOrigin>(slot(j, "mobilePrefOrigin"@, 37))
        &&& has_optional::<PreferenceOrigin>(slot(j, "emailPrefOrigin"@, 38))
        &&& has_optional::<String>(slot(j, "audioNotificationValue"@, 39))
        &&& has_optional::<bool>(slot(j, "disableNotifications"@, 40))
        &&& has_optional::<bool>(slot(j, "muteGroupMentions"@, 41))
        &&& has_optional::<Vec<String>>(slot(j, "userHighlights"@, 42))
        &&& has_optional::<Vec<UserId>>(slot(j, "ignored"@, 43))
        &&& has_optional::<bool>(slot(j, "archived"@, 44))
        &&& has_optional::<bool>(slot(j, "autoTranslate"@, 45))
        &&& has_optional::<String>(slot(j, "autoTranslateLanguage"@, 46))
        &&& has_optional::<Json>(slot(j, "blocked"@, 47))
        &&& has_optional::<Json>(slot(j, "blocker"@, 48))
        &&& has_optional::<String>(slot(j, "draft"@, 49))
        &&& has_optional::<Dict<String>>(slot(j, "threadDrafts"@, 50))
        &&& has_optional::<SubscriptionStatus>(slot(j, "status"@, 51))
        &&& has_optional::<UserRef>(slot(j, "inviter"@, 52))
        &&& has_optional::<Json>(slot(j, "v"@, 53))
        &&& has_optional::<Json>(slot(j, "department"@, 54))
        &&& has_optional::<Json>(slot(j, "code"@, 55))
        &&& has_date(slot(j, "abacLastTimeChecked"@, 56))
        &&& has_optional::<Json>(slot(j, "customFields"@, 57))
    }

    open spec fn read_from(&self, j: JsonView) -> bool {
        &&& is_required(self.id, slot(j, "_id"@, 0))
        &&& is_required(self.updated_at, slot(j, "_updatedAt"@, 1))
        &&& is_required(self.rid, slot(j, "rid"@, 2))
        &&& is_required(self.u, slot(j, "u"@, 3))
        &&& is_required(self.t, slot(j, "t"@, 4))
        &&& is_required(self.ts, slot(j, "ts"@, 5))
        &&& is_required(self.name, slot(j, "name"@, 6))
        &&& is_required(self.open, slot(j, "open"@, 7))
        &&& is_required(self.unread, slot(j, "unread"@, 8))
        &&& is_required(self.user_mentions, slot(j, "userMentions"@, 9))
        &&& is_required(self.group_mentions, slot(j, "groupMentions"@, 10))
        &&& is_optional(self.fname, slot(j, "fname"@, 11))
        &&& is_optional(self.alert, slot(j, "alert"@, 12))
        &&& is_date(self.ls, slot(j, "ls"@, 13))
        &&& is_date(self.lr, slot(j, "lr"@, 14))
        &&& is_optional(self.f, slot(j, "f"@, 15))
        &&& is_optional(self.hide_unread_status, slot(j, "hideUnreadStatus"@, 16))
        &&& is_optional(self.hide_mention_status, slot(j, "hideMentionStatus"@, 17))
        &&& is_optional(self.team_main, slot(j, "teamMain"@, 18))
        &&& is_optional(self.team_id, slot(j, "teamId"@, 19))
        &&& is_optional(self.broadcast, slot(j, "broadcast"@, 20))
        &&& is_optional(self.prid, slot(j, "prid"@, 21))
        &&& is_optional(self.tunread, slot(j, "tunread"@, 22))
        &&& is_optional(self.tunread_group, slot(j, "tunreadGroup"@, 23))
        &&& is_optional(self.tunread_user, slot(j, "tunreadUser"@, 24))
        &&& is_optional(self.roles, slot(j, "roles"@, 25))
        &&& is_optional(self.on_hold, slot(j, "onHold"@, 26))
        &&& is_optional(self.encrypted, slot(j, "encrypted"@, 27))
        &&& is_optional(self.e2e_key, slot(j, "E2EKey"@, 28))
        &&& is_optional(self.e2e_suggested_key, slot(j, "E2ESuggestedKey"@, 29))
        &&& is_optional(self.old_room_keys, slot(j, "oldRoomKeys"@, 30))
        &&& is_optional(self.suggested_old_room_keys, slot(j, "suggestedOldRoomKeys"@, 31))
        &&& is_optional(self.unread_alert, slot(j, "unreadAlert"@, 32))
        &&& is_optional(self.desktop_notifications, slot(j, "desktopNotifications"@, 33))
        &&& is_optional(self.mobile_push_notifications, slot(j, "mobilePushNotifications"@, 34))
        &&& is_optional(self.email_notifications, slot(j, "emailNotifications"@, 35))
        &&& is_optional(self.desktop_pref_origin, slot(j, "desktopPrefOrigin"@, 36))
        &&& is_optional(self.mobile_pref_origin, slot(j, "mobilePrefOrigin"@, 37))
        &&& is_optional(self.email_pref_origin, slot(j, "emailPrefOrigin"@, 38))
        &&& is_optional(self.audio_notification_value, slot(j, "audioNotificationValue"@, 39))
        &&& is_optional(self.disable_notifications, slot(j, "disableNotifications"@, 40))
        &&& is_optional(self.mute_group_mentions, slot(j, "muteGroupMentions"@, 41))
        &&& is_optional(self.user_highlights, slot(j, "userHighlights"@, 42))
        &&& is_optional(self.ignored, slot(j, "ignored"@, 43))
        &&& is_optional(self.archived, slot(j, "archived"@, 44))
        &&& is_optional(self.auto_translate, slot(j, "autoTranslate"@, 45))
        &&& is_optional(self.auto_translate_language, slot(j, "autoTranslateLanguage"@, 46))
        &&& is_optional(self.blocked, slot(j, "blocked"@, 47))
        &&& is_optional(self.blocker, slot(j, "blocker"@, 48))
        &&& is_optional(self.draft, slot(j, "draft"@, 49))
        &&& is_optional(self.thread_drafts, slot(j, "threadDrafts"@, 50))
        &&& is_optional(self.status, slot(j, "status"@, 51))
        &&& is_optional(self.inviter, slot(j, "inviter"@, 52))
        &&& is_optional(self.v, slot(j, "v"@, 53))
        &&& is_optional(self.department, slot(j, "department"@, 54))
        &&& is_optional(self.code, slot(j, "code"@, 55))
        &&& is_date(self.abac_last_time_checked, slot(j, "abacLastTimeChecked"@, 56))
        &&& is_optional(self.custom_fields, slot(j, "customFields"@, 57))
    }

    #[verifier::rlimit(60)]
    fn decode(j: &Json) -> (r: Option<Subscription>) {
        if !is_shaped(j, 58) {
            return None;
        }
        let id: SubscriptionId = match required(j, "_id", 0) {
            Some(v) => v,
            None => {
                return None;
            },
        };
        let updated_at: Timestamp = match required(j, "_updatedAt", 1) {
            Some(v) => v,
            None => {
                return None;
            },
        };
        let rid: RoomId = match required(j, "rid", 2) {
            Some(v) => v,
            None => {
                return None;
            },
        };
        let u: UserRef = match required(j, "u", 3) {
            Some(v) => v,
            None => {
                return None;
            },
        };
        let t: RoomType = match required(j, "t", 4) {
            Some(v) => v,
            None => {
                return None;
            },
        };
        let ts: Timestamp = match required(j, "ts", 5) {
            Some(v) => v,
            None => {
                return None;
            },
        };
        let name: String = match required(j, "name", 6) {
            Some(v) => v,
            None => {
                return None;
            },
        };
        let open: bool = match required(j, "open", 7) {
            Some(v) => v,
            None => {
                return None;
            },
        };
        let unread: i64 = match required(j, "unread", 8) {
            Some(v) => v,
            None => {
                return None;
            },
        };
        let user_mentions: i64 = match required(j, "userMentions", 9) {
            Some(v) => v,
            None => {
                return None;
            },
        };
        let group_mentions: i64 = match required(j, "groupMentions", 10) {
            Some(v) => v,
            None => {
                return None;
            },
        };
        let fname: Option<String> = match optional(j, "fname", 11) {
            Some(v) => v,
            None => {
                return None;
            },
        };
        let alert: Option<bool> = match optional(j, "alert", 12) {
            Some(v) => v,
            None => {
                return None;
            },
        };
        let ls: Option<Timestamp> = match optional_date(j, "ls", 13) {
            Some(v) => v,
            None => {
                return None;
            },
        };
        let lr: Option<Timestamp> = match optional_date(j, "lr", 14) {
            Some(v) => v,
            None => {
                return None;
            },
        };
        let f: Option<bool> = match optional(j, "f", 15) {
            Some(v) => v,
            None => {
                return None;
            },
        };
        let hide_unread_status: Option<bool> = match optional(j, "hideUnreadStatus", 16) {
            Some(v) => v,
            None => {
                return None;
            },
        };
        let hide_mention_status: Option<bool> = match optional(j, "hideMentionStatus", 17) {
            Some(v) => v,
            None => {
                return None;
            },
        };
        let team_main: Option<bool> = match optional(j, "teamMain", 18) {
            Some(v) => v,
            None => {
                return None;
            },
        };
        let team_id: Option<String> = match optional(j, "teamId", 19) {
            Some(v) => v,
            None => {
                return None;
            },
        };
        let broadcast: Option<bool> = match optional(j, "broadcast", 20) {
            Some(v) => v,
            None => {
                return None;
            },
        };
        let prid: Option<RoomId> = match optional(j, "prid", 21) {
            Some(v) => v,
            None => {
                return None;
            },
        };
        let tunread: Option<Vec<MessageId>> = match optional(j, "tunread", 22) {
            Some(v) => v,
            None => {
                return None;
            },
        };
        let tunread_group: Option<Vec<MessageId>> = match optional(j, "tunreadGroup", 23) {
            Some(v) => v,
            None => {
                return None;
            },
        };
        let tunread_user: Option<Vec<MessageId>> = match optional(j, "tunreadUser", 24) {
            Some(v) => v,
            None => {
                return None;
            },
        };
        let roles: Option<Vec<RoleId>> = match optional(j, "roles", 25) {
            Some(v) => v,
            None => {
                return None;
            },
        };
        let on_hold: Option<bool> = match optional(j, "onHold", 26) {
            Some(v) => v,
            None => {
                return None;
            },
        };
        let encrypted: Option<bool> = match optional(j, "encrypted", 27) {
            Some(v) => v,
            None => {
                return None;
            },
        };
        let e2e_key: Option<String> = match optional(j, "E2EKey", 28) {
            Some(v) => v,
            None => {
                return None;
            },
        };
        let e2e_suggested_key: Option<String> = match optional(j, "E2ESuggestedKey", 29) {
            Some(v) => v,
            None => {
                return None;
            },
        };
        let old_room_keys: Option<Vec<OldRoomKey>> = match optional(j, "oldRoomKeys", 30) {
            Some(v) => v,
            None => {
                return None;
            },
        };
        let suggested_old_room_keys: Option<Vec<OldRoomKey>> = match optional(j, "suggestedOldRoomKeys", 31) {
            Some(v) => v,
            None => {
                return None;
            },
        };
        let unread_alert: Option<UnreadAlert> = match optional(j, "unreadAlert", 32) {
            Some(v) => v,
            None => {
                return None;
            },
        };
        let desktop_notifications: Option<NotificationPreference> = match optional(j, "desktopNotifications", 33) {
            Some(v) => v,
            None => {
                return None;
            },
        };
        let mobile_push_notifications: Option<NotificationPreference> = match optional(j, "mobilePushNotifications", 34) {
            Some(v) => v,
            None => {
                return None;
            },
        };
        let email_notifications: Option<NotificationPreference> = match optional(j, "emailNotifications", 35) {
            Some(v) => v,
            None => {
                return None;
            },
        };
        let desktop_pref_origin: Option<PreferenceOrigin> = match optional(j, "desktopPrefOrigin", 36) {
            Some(v) => v,
            None => {
                return None;
            },
        };
        let mobile_pref_origin: Option<PreferenceOrigin> = match optional(j, "mobilePrefOrigin", 37) {
            Some(v) => v,
            None => {
                return None;
            },
        };
        let email_pref_origin: Option<PreferenceOrigin> = match optional(j, "emailPrefOrigin", 38) {
            Some(v) => v,
            None => {
                return None;
            },
        };
        let audio_notification_value: Option<String> = match optional(j, "audioNotificationValue", 39) {
            Some(v) => v,
            None => {
                return None;
            },
        };
        let disable_notifications: Option<bool> = match optional(j, "disableNotifications", 40) {
            Some(v) => v,
            None => {
                return None;
            },
        };
        let mute_group_mentions: Option<bool> = match optional(j, "muteGroupMentions", 41) {
            Some(v) => v,
            None => {
                return None;
            },
        };
        let user_highlights: Option<Vec<String>> = match optional(j, "userHighlights", 42) {
            Some(v) => v,
            None => {
                return None;
            },
        };
        let ignored: Option<Vec<UserId>> = match optional(j, "ignored", 43) {
            Some(v) => v,
            None => {
                return None;
            },
        };
        let archived: Option<bool> = match optional(j, "archived", 44) {
            Some(v) => v,
            None => {
                return None;
            },
        };
        let auto_translate: Option<bool> = match optional(j, "autoTranslate", 45) {
            Some(v) => v,
            None => {
                return None;
            },
        };
        let auto_translate_language: Option<String> = match optional(j, "autoTranslateLanguage", 46) {
            Some(v) => v,
            None => {
                return None;
            },
        };
        let blocked: Option<Json> = match optional(j, "blocked", 47) {
            Some(v) => v,
            None => {
                return None;
            },
        };
        let blocker: Option<Json> = match optional(j, "blocker", 48) {
            Some(v) => v,
            None => {
                return None;
            },
        };
        let draft: Option<String> = match optional(j, "draft", 49) {
            Some(v) => v,
            None => {
                return None;
            },
        };
        let thread_drafts: Option<Dict<String>> = match optional(j, "threadDrafts", 50) {
            Some(v) => v,
            None => {
                return None;
            },
        };
        let status: Option<SubscriptionStatus> = match optional(j, "status", 51) {
            Some(v) => v,
            None => {
                return None;
            },
        };
        let inviter: Option<UserRef> = match optional(j, "inviter", 52) {
            Some(v) => v,
            None => {
                return None;
            },
        };
        let v: Option<Json> = match optional(j, "v", 53) {
            Some(v) => v,
            None => {
                return None;
            },
        };
        let department: Option<Json> = match optional(j, "department", 54) {
            Some(v) => v,
            None => {
                return None;
            },
        };
        let code: Option<Json> = match optional(j, "code", 55) {
            Some(v) => v,
            None => {
                return None;
            },
        };
        let abac_last_time_checked: Option<Timestamp> = match optional_date(j, "abacLastTimeChecked", 56) {
            Some(v) => v,
            None => {
                return None;
            },
        };
        let custom_fields: Option<Json> = match optional(j, "customFields", 57) {
            Some(v) => v,
            None => {
                return None;
            },
        };
        Some(
            Subscription {
                id,
                updated_at,
                rid,
                u,
                t,
                ts,
                name,
                open,
                unread,
                user_mentions,
                group_mentions,
                fname,
                alert,
                ls,
                lr,
                f,
                hide_unread_status,
                hide_mention_status,
                team_main,
                team_id,
                broadcast,
                prid,
                tunread,
                tunread_group,
                tunread_user,
                roles,
                on_hold,
                encrypted,
                e2e_key,
                e2e_suggested_key,
                old_room_keys,
                suggested_old_room_keys,
                unread_alert,
                desktop_notifications,
                mobile_push_notifications,
                email_notifications,
                desktop_pref_origin,
                mobile_pref_origin,
                email_pref_origin,
                audio_notification_value,
                disable_notifications,
                mute_group_mentions,
                user_highlights,
                ignored,
                archived,
                auto_translate,
                auto_translate_language,
                blocked,
                blocker,
                draft,
                thread_drafts,
                status,
                inviter,
                v,
                department,
                code,
                abac_last_time_checked,
                custom_fields,
            },
        )
    }
}

impl Encode for Subscription {
    open spec fn doc(&self) -> JsonView {
        let m = Map::empty();
        let m = with(m, "_id"@, self.id.doc());
        let m = with(m, "_updatedAt"@, self.updated_at.doc());
        let m = with(m, "rid"@, self.rid.doc());
        let m = with(m, "u"@, self.u.doc());
        let m = with(m, "t"@, self.t.doc());
        let m = with(m, "ts"@, self.ts.doc());
        let m = with(m, "name"@, self.name.doc());
        let m = with(m, "open"@, self.open.doc());
        let m = with(m, "unread"@, self.unread.doc());
        let m = with(m, "userMentions"@, self.user_mentions.doc());
        let m = with(m, "groupMentions"@, self.group_mentions.doc());
        let m = with_some(m, "fname"@, self.fname);
        let m = with_some(m, "alert"@, self.alert);
        let m = with_some(m, "ls"@, self.ls);
        let m = with_some(m, "lr"@, self.lr);
        let m = with_some(m, "f"@, self.f);
        let m = with_some(m, "hideUnreadStatus"@, self.hide_unread_status);
        let m = with_some(m, "hideMentionStatus"@, self.hide_mention_status);
        let m = with_some(m, "teamMain"@, self.team_main);
        let m = with_some(m, "teamId"@, self.team_id);
        let m = with_some(m, "broadcast"@, self.broadcast);
        let m = with_some(m, "prid"@, self.prid);
        let m = with_some(m, "tunread"@, self.tunread);
        let m = with_some(m, "tunreadGroup"@, self.tunread_group);
        let m = with_some(m, "tunreadUser"@, self.tunread_user);
        let m = with_some(m, "roles"@, self.roles);
        let m = with_some(m, "onHold"@, self.on_hold);
        let m = with_some(m, "encrypted"@, self.encrypted);
        let m = with_some(m, "E2EKey"@, self.e2e_key);
        let m = with_some(m, "E2ESuggestedKey"@, self.e2e_suggested_key);
        let m = with_some(m, "oldRoomKeys"@, self.old_room_keys);
        let m = with_some(m, "suggestedOldRoomKeys"@, self.suggested_old_room_keys);
        let m = with_some(m, "unreadAlert"@, self.unread_alert);
        let m = with_some(m, "desktopNotifications"@, self.desktop_notifications);
        let m = with_some(m, "mobilePushNotifications"@, self.mobile_push_notifications);
        let m = with_some(m, "emailNotifications"@, self.email_notifications);
        let m = with_some(m, "desktopPrefOrigin"@, self.desktop_pref_origin);
        let m = with_some(m, "mobilePrefOrigin"@, self.mobile_pref_origin);
        let m = with_some(m, "emailPrefOrigin"@, self.email_pref_origin);
        let m = with_some(m, "audioNotificationValue"@, self.audio_notification_value);
        let m = with_some(m, "disableNotifications"@, self.disable_notifications);
        let m = with_some(m, "muteGroupMentions"@, self.mute_group_mentions);
        let m = with_some(m, "userHighlights"@, self.user_highlights);
        let m = with_some(m, "ignored"@, self.ignored);
        let m = with_some(m, "archived"@, self.archived);
        let m = with_some(m, "autoTranslate"@, self.auto_translate);
        let m = with_some(m, "autoTranslateLanguage"@, self.auto_translate_language);
        let m = with_some(m, "blocked"@, self.blocked);
        let m = with_some(m, "blocker"@, self.blocker);
        let m = with_some(m, "draft"@, self.draft);
        let m = with_some(m, "threadDrafts"@, self.thread_drafts);
        let m = with_some(m, "status"@, self.status);
        let m = with_some(m, "inviter"@, self.inviter);
        let m = with_some(m, "v"@, self.v);
        let m = with_some(m, "department"@, self.department);
        let m = with_some(m, "code"@, self.code);
        let m = with_some(m, "abacLastTimeChecked"@, self.abac_last_time_checked);
        let m = with_some(m, "customFields"@, self.custom_fields);
        JsonView::Object(m)
    }

    #[verifier::rlimit(60)]
    fn encode(&self) -> (r: Json) {
        let mut map = JsonMap::new();
        put(&mut map, "_id", &self.id);
        put(&mut map, "_updatedAt", &self.updated_at);
        put(&mut map, "rid", &self.rid);
        put(&mut map, "u", &self.u);
        put(&mut map, "t", &self.t);
        put(&mut map, "ts", &self.ts);
        put(&mut map, "name", &self.name);
        put(&mut map, "open", &self.open);
        put(&mut map, "unread", &self.unread);
        put(&mut map, "userMentions", &self.user_mentions);
        put(&mut map, "groupMentions", &self.group_mentions);
        put_some(&mut map, "fname", &self.fname);
        put_some(&mut map, "alert", &self.alert);
        put_some(&mut map, "ls", &self.ls);
        put_some(&mut map, "lr", &self.lr);
        put_some(&mut map, "f", &self.f);
        put_some(&mut map, "hideUnreadStatus", &self.hide_unread_status);
        put_some(&mut map, "hideMentionStatus", &self.hide_mention_status);
        put_some(&mut map, "teamMain", &self.team_main);
        put_some(&mut map, "teamId", &self.team_id);
        put_some(&mut map, "broadcast", &self.broadcast);
        put_some(&mut map, "prid", &self.prid);
        put_some(&mut map, "tunread", &self.tunread);
        put_some(&mut map, "tunreadGroup", &self.tunread_group);
        put_some(&mut map, "tunreadUser", &self.tunread_user);
        put_some(&mut map, "roles", &self.roles);
        put_some(&mut map, "onHold", &self.on_hold);
        put_some(&mut map, "encrypted", &self.encrypted);
        put_some(&mut map, "E2EKey", &self.e2e_key);
        put_some(&mut map, "E2ESuggestedKey", &self.e2e_suggested_key);
        put_some(&mut map, "oldRoomKeys", &self.old_room_keys);
        put_some(&mut map, "suggestedOldRoomKeys", &self.suggested_old_room_keys);
        put_some(&mut map, "unreadAlert", &self.unread_alert);
        put_some(&mut map, "desktopNotifications", &self.desktop_notifications);
        put_some(&mut map, "mobilePushNotifications", &self.mobile_push_notifications);
        put_some(&mut map, "emailNotifications", &self.email_notifications);
        put_some(&mut map, "desktopPrefOrigin", &self.desktop_pref_origin);
        put_some(&mut map, "mobilePrefOrigin", &self.mobile_pref_origin);
        put_some(&mut map, "emailPrefOrigin", &self.email_pref_origin);
        put_some(&mut map, "audioNotificationValue", &self.audio_notification_value);
        put_some(&mut map, "disableNotifications", &self.disable_notifications);
        put_some(&mut map, "muteGroupMentions", &self.mute_group_mentions);
        put_some(&mut map, "userHighlights", &self.user_highlights);
        put_some(&mut map, "ignored", &self.ignored);
        put_some(&mut map, "archived", &self.archived);
        put_some(&mut map, "autoTranslate", &self.auto_translate);
        put_some(&mut map, "autoTranslateLanguage", &self.auto_translate_language);
        put_some(&mut map, "blocked", &self.blocked);
        put_some(&mut map, "blocker", &self.blocker);
        put_some(&mut map, "draft", &self.draft);
        put_some(&mut map, "threadDrafts", &self.thread_drafts);
        put_some(&mut map, "status", &self.status);
        put_some(&mut map, "inviter", &self.inviter);
        put_some(&mut map, "v", &self.v);
        put_some(&mut map, "department", &self.department);
        put_some(&mut map, "code", &self.code);
        put_some(&mut map, "abacLastTimeChecked", &self.abac_last_time_checked);
        put_some(&mut map, "customFields", &self.custom_fields);
        Json::Object(map)
    }
}

impl Duplicate for Subscription {
    open spec fn alike(&self, other: &Subscription) -> bool {
        &&& self.id.alike(&other.id)
        &&& self.updated_at.alike(&other.updated_at)
        &&& self.rid.alike(&other.rid)
        &&& self.u.alike(&other.u)
        &&& self.t.alike(&other.t)
        &&& self.ts.alike(&other.ts)
        &&& self.name.alike(&other.name)
        &&& self.open.alike(&other.open)
        &&& self.unread.alike(&other.unread)
        &&& self.user_mentions.alike(&other.user_mentions)
        &&& self.group_mentions.alike(&other.group_mentions)
        &&& same_some(self.fname, other.fname)
        &&& same_some(self.alert, other.alert)
        &&& same_some(self.ls, other.ls)
        &&& same_some(self.lr, other.lr)
        &&& same_some(self.f, other.f)
        &&& same_some(self.hide_unread_status, other.hide_unread_status)
        &&& same_some(self.hide_mention_status, other.hide_mention_status)
        &&& same_some(self.team_main, other.team_main)
        &&& same_some(self.team_id, other.team_id)
        &&& same_some(self.broadcast, other.broadcast)
        &&& same_some(self.prid, other.prid)
        &&& same_some(self.tunread, other.tunread)
        &&& same_some(self.tunread_group, other.tunread_group)
        &&& same_some(self.tunread_user, other.tunread_user)
        &&& same_some(self.roles, other.roles)
        &&& same_some(self.on_hold, other.on_hold)
        &&& same_some(self.encrypted, other.encrypted)
        &&& same_some(self.e2e_key, other.e2e_key)
        &&& same_some(self.e2e_suggested_key, other.e2e_suggested_key)
        &&& same_some(self.old_room_keys, other.old_room_keys)
        &&& same_some(self.suggested_old_room_keys, other.suggested_old_room_keys)
        &&& same_some(self.unread_alert, other.unread_alert)
        &&& same_some(self.desktop_notifications, other.desktop_notifications)
        &&& same_some(self.mobile_push_notifications, other.mobile_push_notifications)
        &&& same_some(self.email_notifications, other.email_notifications)
        &&& same_some(self.desktop_pref_origin, other.desktop_pref_origin)
        &&& same_some(self.mobile_pref_origin, other.mobile_pref_origin)
        &&& same_some(self.email_pref_origin, other.email_pref_origin)
        &&& same_some(self.audio_notification_value, other.audio_notification_value)
        &&& same_some(self.disable_notifications, other.disable_notifications)
        &&& same_some(self.mute_group_mentions, other.mute_group_mentions)
        &&& same_some(self.user_highlights, other.user_highlights)
        &&& same_some(self.ignored, other.ignored)
        &&& same_some(self.archived, other.archived)
        &&& same_some(self.auto_translate, other.auto_translate)
        &&& same_some(self.auto_translate_language, other.auto_translate_language)
        &&& same_some(self.blocked, other.blocked)
        &&& same_some(self.blocker, other.blocker)
        &&& same_some(self.draft, other.draft)
        &&& same_some(self.thread_drafts, other.thread_drafts)
        &&& same_some(self.status, other.status)
        &&& same_some(self.inviter, other.inviter)
        &&& same_some(self.v, other.v)
        &&& same_some(self.department, other.department)
        &&& same_some(self.code, other.code)
        &&& same_some(self.abac_last_time_checked, other.abac_last_time_checked)
        &&& same_some(self.custom_fields, other.custom_fields)
    }

    fn dup(&self) -> (r: Subscription) {
        let copy = Subscription {
            id: self.id.dup(),
            updated_at: self.updated_at.dup(),
            rid: self.rid.dup(),
            u: self.u.dup(),
            t: self.t.dup(),
            ts: self.ts.dup(),
            name: self.name.dup(),
            open: self.open.dup(),
            unread: self.unread.dup(),
            user_mentions: self.user_mentions.dup(),
            group_mentions: self.group_mentions.dup(),
            fname: dup_some(&self.fname),
            alert: dup_some(&self.alert),
            ls: dup_some(&self.ls),
            lr: dup_some(&self.lr),
            f: dup_some(&self.f),
            hide_unread_status: dup_some(&self.hide_unread_status),
            hide_mention_status: dup_some(&self.hide_mention_status),
            team_main: dup_some(&self.team_main),
            team_id: dup_some(&self.team_id),
            broadcast: dup_some(&self.broadcast),
            prid: dup_some(&self.prid),
            tunread: dup_some(&self.tunread),
            tunread_group: dup_some(&self.tunread_group),
            tunread_user: dup_some(&self.tunread_user),
            roles: dup_some(&self.roles),
            on_hold: dup_some(&self.on_hold),
            encrypted: dup_some(&self.encrypted),
            e2e_key: dup_some(&self.e2e_key),
            e2e_suggested_key: dup_some(&self.e2e_suggested_key),
            old_room_keys: dup_some(&self.old_room_keys),
            suggested_old_room_keys: dup_some(&self.suggested_old_room_keys),
            unread_alert: dup_some(&self.unread_alert),
            desktop_notifications: dup_some(&self.desktop_notifications),
            mobile_push_notifications: dup_some(&self.mobile_push_notifications),
            email_notifications: dup_some(&self.email_notifications),
            desktop_pref_origin: dup_some(&self.desktop_pref_origin),
            mobile_pref_origin: dup_some(&self.mobile_pref_origin),
            email_pref_origin: dup_some(&self.email_pref_origin),
            audio_notification_value: dup_some(&self.audio_notification_value),
            disable_notifications: dup_some(&self.disable_notifications),
            mute_group_mentions: dup_some(&self.mute_group_mentions),
            user_highlights: dup_some(&self.user_highlights),
            ignored: dup_some(&self.ignored),
            archived: dup_some(&self.archived),
            auto_translate: dup_some(&self.auto_translate),
            auto_translate_language: dup_some(&self.auto_translate_language),
            blocked: dup_some(&self.blocked),
            blocker: dup_some(&self.blocker),
            draft: dup_some(&self.draft),
            thread_drafts: dup_some(&self.thread_drafts),
            status: dup_some(&self.status),
            inviter: dup_some(&self.inviter),
            v: dup_some(&self.v),
            department: dup_some(&self.department),
            code: dup_some(&self.code),
            abac_last_time_checked: dup_some(&self.abac_last_time_checked),
            custom_fields: dup_some(&self.custom_fields),
        };
        proof {
            lemma_subscription_same(copy, *self);
        }
        copy
    }
}

/// Whether a document's roles hold one.
pub open spec fn roles_have(roles: Option<Vec<RoleId>>, role: Seq<char>) -> bool {
    roles matches Some(roles) && role_in(roles@, role)
}

/// Whether a list of roles holds one.
pub open spec fn role_in(roles: Seq<RoleId>, role: Seq<char>) -> bool {
    exists|i: int| 0 <= i < roles.len() && (#[trigger] roles[i])@ == role
}

/// Whether a list of roles holds one.
pub fn has_role_in(roles: &Option<Vec<RoleId>>, role: &str) -> (r: bool)
    ensures
        r == roles_have(*roles, role@),
{
    match roles {
        Some(list) => {
            let mut i: usize = 0;
            while i < list.len()
                invariant
                    *roles == Some(*list),
                    i <= list@.len(),
                    forall|k: int| 0 <= k < i ==> (#[trigger] list@[k])@ != role@,
                decreases list@.len() - i,
            {
                if str_eq(list[i].as_str(), role) {
                    assert(list@[i as int]@ == role@);
                    assert(role_in(list@, role@));
                    return true;
                }
                i += 1;
            }
            false
        },
        None => false,
    }
}

/// A sum clamped to `i64`.
pub open spec fn clamp_i64(n: int) -> i64 {
    if n > i64::MAX {
        i64::MAX
    } else if n < i64::MIN {
        i64::MIN
    } else {
        n as i64
    }
}

impl Subscription {
    /// Whether the unread marker is hidden.
    pub fn hides_unread_status(&self) -> (r: bool)
        ensures
            r == (self.hide_unread_status == Some(true)),
    {
        match self.hide_unread_status {
            Some(b) => b,
            None => false,
        }
    }

    /// Whether the mention marker is hidden.
    pub fn hides_mention_status(&self) -> (r: bool)
        ensures
            r == (self.hide_mention_status == Some(true)),
    {
        match self.hide_mention_status {
            Some(b) => b,
            None => false,
        }
    }

    /// Whether the room is a favorite.
    pub fn is_favorite(&self) -> (r: bool)
        ensures
            r == (self.f == Some(true)),
    {
        match self.f {
            Some(b) => b,
            None => false,
        }
    }

    /// Mentions of the user and of groups together, without overflow.
    pub fn total_mentions(&self) -> (r: i64)
        ensures
            r == clamp_i64(self.user_mentions + self.group_mentions),
    {
        let sum: i128 = self.user_mentions as i128 + self.group_mentions as i128;
        if sum > 0x7fff_ffff_ffff_ffff {
            i64::MAX
        } else if sum < -0x8000_0000_0000_0000 {
            i64::MIN
        } else {
            sum as i64
        }
    }

    /// Whether anything is unread.
    pub fn has_unread(&self) -> (r: bool)
        ensures
            r == (self.unread > 0 || self.user_mentions + self.group_mentions > 0),
    {
        self.unread > 0 || self.total_mentions() > 0
    }

    /// Whether the user has a role in the room.
    pub fn has_role(&self, role: &str) -> (r: bool)
        ensures
            r == roles_have(self.roles, role@),
    {
        has_role_in(&self.roles, role)
    }

    /// The name to show.
    pub fn display_name(&self) -> (r: &str)
        ensures
            r@ == (match self.fname {
                Some(fname) => fname@,
                None => self.name@,
            }),
    {
        match &self.fname {
            Some(fname) => fname.as_str(),
            None => self.name.as_str(),
        }
    }
}

/// A count that does not fit is cut to the nearest that does.
pub proof fn law_counts_are_cut_to_fit(n: int)
    ensures
        i64::MIN <= n <= i64::MAX ==> clamp_i64(n) == n,
        n > i64::MAX ==> clamp_i64(n) == i64::MAX,
        n < i64::MIN ==> clamp_i64(n) == i64::MIN,
{
}

/// A subscription has a role where its roles list it.
pub proof fn law_a_role_is_held_where_it_is_listed(roles: Vec<RoleId>, i: int, role: Seq<char>)
    ensures
        0 <= i < roles@.len() ==> roles_have(Some(roles), roles@[i]@),
        !roles_have(None, role),
        roles_have(Some(roles), role) ==> exists|k: int|
            0 <= k < roles@.len() && (#[trigger] roles@[k])@ == role,
{
}

} // verus!
