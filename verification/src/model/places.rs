//! The order of the fields, where a document comes as a list.
use crate::model::entity::message::Message;
use crate::model::entity::parts::{
    AnnouncementDetails, ChannelMention, MessageFile, MessageMention, MessageUrl, OldRoomKey,
    Reaction, Star, UrlHeaders, UserEmail, UserRef,
};
use crate::model::entity::room::Room;
use crate::model::entity::subscription::Subscription;
use crate::model::entity::user::User;
use crate::model::payload::{
    BulkDelete, DesktopNotification, MyMessageMeta, NotificationMessage, NotificationPayload,
    RoleChange, SubscriptionStub, UserDataEvent,
};
use crate::model::event::at;
use crate::model::json::JsonView;
use crate::model::wire::{is_date, is_optional, is_required, Decode};
use vstd::prelude::*;

verus! {

/// A [`Message`] that comes as a list has its fields in this order.
pub proof fn law_places_of_message(x: Message, items: Seq<JsonView>)
    ensures
        Message::accepts(JsonView::Array(items)) ==> items.len() <= 45,
        x.read_from(JsonView::Array(items)) ==> {
            &&& is_required(x.id, at(items, 0))
            &&& is_required(x.updated_at, at(items, 1))
            &&& is_required(x.rid, at(items, 2))
            &&& is_required(x.msg, at(items, 3))
            &&& is_required(x.ts, at(items, 4))
            &&& is_required(x.u, at(items, 5))
            &&& is_optional(x.t, at(items, 6))
            &&& is_date(x.edited_at, at(items, 7))
            &&& is_optional(x.edited_by, at(items, 8))
            &&& is_optional(x.attachments, at(items, 9))
            &&& is_optional(x.mentions, at(items, 10))
            &&& is_optional(x.channels, at(items, 11))
            &&& is_optional(x.md, at(items, 12))
            &&& is_optional(x.blocks, at(items, 13))
            &&& is_optional(x.urls, at(items, 14))
            &&& is_optional(x.reactions, at(items, 15))
            &&& is_optional(x.file, at(items, 16))
            &&& is_optional(x.files, at(items, 17))
            &&& is_optional(x.tmid, at(items, 18))
            &&& is_optional(x.tshow, at(items, 19))
            &&& is_optional(x.tcount, at(items, 20))
            &&& is_date(x.tlm, at(items, 21))
            &&& is_optional(x.replies, at(items, 22))
            &&& is_optional(x.drid, at(items, 23))
            &&& is_optional(x.dcount, at(items, 24))
            &&& is_date(x.dlm, at(items, 25))
            &&& is_optional(x.groupable, at(items, 26))
            &&& is_optional(x.parse_urls, at(items, 27))
            &&& is_optional(x.unread, at(items, 28))
            &&& is_optional(x.pinned, at(items, 29))
            &&& is_date(x.pinned_at, at(items, 30))
            &&& is_optional(x.pinned_by, at(items, 31))
            &&& is_optional(x.starred, at(items, 32))
            &&& is_optional(x.private, at(items, 33))
            &&& is_optional(x.temp, at(items, 34))
            &&& is_optional(x.hidden, at(items, 35))
            &&& is_optional(x.imported, at(items, 36))
            &&& is_optional(x.e2e, at(items, 37))
            &&& is_optional(x.alias, at(items, 38))
            &&& is_optional(x.avatar, at(items, 39))
            &&& is_optional(x.emoji, at(items, 40))
            &&& is_optional(x.role, at(items, 41))
            &&& is_optional(x.bot, at(items, 42))
            &&& is_optional(x.token, at(items, 43))
            &&& is_optional(x.custom_fields, at(items, 44))
        },
{
}

/// A [`Room`] that comes as a list has its fields in this order.
pub proof fn law_places_of_room(x: Room, items: Seq<JsonView>)
    ensures
        Room::accepts(JsonView::Array(items)) ==> items.len() <= 72,
        x.read_from(JsonView::Array(items)) ==> {
            &&& is_required(x.id, at(items, 0))
            &&& is_required(x.updated_at, at(items, 1))
            &&& is_required(x.t, at(items, 2))
            &&& is_optional(x.name, at(items, 3))
            &&& is_optional(x.fname, at(items, 4))
            &&& is_optional(x.msgs, at(items, 5))
            &&& is_optional(x.users_count, at(items, 6))
            &&& is_optional(x.u, at(items, 7))
            &&& is_optional(x.uids, at(items, 8))
            &&& is_optional(x.usernames, at(items, 9))
            &&& is_optional(x.default, at(items, 10))
            &&& is_optional(x.broadcast, at(items, 11))
            &&& is_optional(x.featured, at(items, 12))
            &&& is_optional(x.topic, at(items, 13))
            &&& is_optional(x.description, at(items, 14))
            &&& is_optional(x.announcement, at(items, 15))
            &&& is_optional(x.announcement_details, at(items, 16))
            &&& is_optional(x.join_code_required, at(items, 17))
            &&& is_optional(x.encrypted, at(items, 18))
            &&& is_optional(x.e2e_key_id, at(items, 19))
            &&& is_optional(x.users_waiting_for_e2e_keys, at(items, 20))
            &&& is_optional(x.ro, at(items, 21))
            &&& is_optional(x.react_when_read_only, at(items, 22))
            &&& is_optional(x.sys_mes, at(items, 23))
            &&& is_optional(x.cl, at(items, 24))
            &&& is_optional(x.archived, at(items, 25))
            &&& is_optional(x.muted, at(items, 26))
            &&& is_optional(x.unmuted, at(items, 27))
            &&& is_optional(x.last_message, at(items, 28))
            &&& is_date(x.lm, at(items, 29))
            &&& is_date(x.ts, at(items, 30))
            &&& is_date(x.web_rtc_call_start_time, at(items, 31))
            &&& is_optional(x.prid, at(items, 32))
            &&& is_optional(x.avatar_etag, at(items, 33))
            &&& is_optional(x.team_main, at(items, 34))
            &&& is_optional(x.team_id, at(items, 35))
            &&& is_optional(x.team_default, at(items, 36))
            &&& is_optional(x.open, at(items, 37))
            &&& is_optional(x.unread, at(items, 38))
            &&& is_optional(x.alert, at(items, 39))
            &&& is_optional(x.favorite, at(items, 40))
            &&& is_optional(x.hide_unread_status, at(items, 41))
            &&& is_optional(x.hide_mention_status, at(items, 42))
            &&& is_optional(x.auto_translate, at(items, 43))
            &&& is_optional(x.auto_translate_language, at(items, 44))
            &&& is_optional(x.retention, at(items, 45))
            &&& is_optional(x.abac_attributes, at(items, 46))
            &&& is_optional(x.role_priorities_created, at(items, 47))
            &&& is_optional(x.custom_fields, at(items, 48))
            &&& is_optional(x.federated, at(items, 49))
            &&& is_optional(x.federation, at(items, 50))
            &&& is_optional(x.v, at(items, 51))
            &&& is_optional(x.source, at(items, 52))
            &&& is_optional(x.served_by, at(items, 53))
            &&& is_optional(x.department_id, at(items, 54))
            &&& is_optional(x.on_hold, at(items, 55))
            &&& is_optional(x.waiting_response, at(items, 56))
            &&& is_date(x.queued_at, at(items, 57))
            &&& is_optional(x.tags, at(items, 58))
            &&& is_optional(x.livechat_data, at(items, 59))
            &&& is_optional(x.metrics, at(items, 60))
            &&& is_optional(x.transcript_request, at(items, 61))
            &&& is_optional(x.priority_id, at(items, 62))
            &&& is_optional(x.priority_weight, at(items, 63))
            &&& is_optional(x.sla_id, at(items, 64))
            &&& is_optional(x.estimated_waiting_time_queue, at(items, 65))
            &&& is_optional(x.contact_id, at(items, 66))
            &&& is_optional(x.verified, at(items, 67))
            &&& is_optional(x.sms, at(items, 68))
            &&& is_optional(x.code, at(items, 69))
            &&& is_optional(x.label, at(items, 70))
            &&& is_optional(x.sentiment, at(items, 71))
        },
{
}

/// A [`User`] that comes as a list has its fields in this order.
pub proof fn law_places_of_user(x: User, items: Seq<JsonView>)
    ensures
        User::accepts(JsonView::Array(items)) ==> items.len() <= 45,
        x.read_from(JsonView::Array(items)) ==> {
            &&& is_required(x.id, at(items, 0))
            &&& is_date(x.updated_at, at(items, 1))
            &&& is_date(x.created_at, at(items, 2))
            &&& is_optional(x.username, at(items, 3))
            &&& is_optional(x.name, at(items, 4))
            &&& is_optional(x.nickname, at(items, 5))
            &&& is_optional(x.bio, at(items, 6))
            &&& is_optional(x.roles, at(items, 7))
            &&& is_optional(x.user_type, at(items, 8))
            &&& is_optional(x.active, at(items, 9))
            &&& is_optional(x.inactive_reason, at(items, 10))
            &&& is_optional(x.status, at(items, 11))
            &&& is_optional(x.status_default, at(items, 12))
            &&& is_optional(x.status_connection, at(items, 13))
            &&& is_optional(x.status_text, at(items, 14))
            &&& is_optional(x.status_source, at(items, 15))
            &&& is_date(x.status_expires_at, at(items, 16))
            &&& is_optional(x.status_id, at(items, 17))
            &&& is_date(x.last_login, at(items, 18))
            &&& is_optional(x.emails, at(items, 19))
            &&& is_optional(x.avatar_origin, at(items, 20))
            &&& is_optional(x.avatar_etag, at(items, 21))
            &&& is_optional(x.avatar_url, at(items, 22))
            &&& is_optional(x.utc_offset, at(items, 23))
            &&& is_optional(x.language, at(items, 24))
            &&& is_optional(x.phone, at(items, 25))
            &&& is_optional(x.reason, at(items, 26))
            &&& is_optional(x.e2e, at(items, 27))
            &&& is_optional(x.settings, at(items, 28))
            &&& is_optional(x.custom_fields, at(items, 29))
            &&& is_optional(x.banners, at(items, 30))
            &&& is_optional(x.default_room, at(items, 31))
            &&& is_optional(x.ldap, at(items, 32))
            &&& is_optional(x.require_password_change, at(items, 33))
            &&& is_optional(x.require_password_change_reason, at(items, 34))
            &&& is_optional(x.room_role_priorities, at(items, 35))
            &&& is_optional(x.rooms, at(items, 36))
            &&& is_optional(x.import_ids, at(items, 37))
            &&& is_optional(x.invite_token, at(items, 38))
            &&& is_optional(x.free_switch_extension, at(items, 39))
            &&& is_optional(x.can_view_all_info, at(items, 40))
            &&& is_optional(x.provider_id, at(items, 41))
            &&& is_optional(x.abac_attributes, at(items, 42))
            &&& is_optional(x.federated, at(items, 43))
            &&& is_optional(x.federation, at(items, 44))
        },
{
}

/// A [`Subscription`] that comes as a list has its fields in this order.
pub proof fn law_places_of_subscription(x: Subscription, items: Seq<JsonView>)
    ensures
        Subscription::accepts(JsonView::Array(items)) ==> items.len() <= 58,
        x.read_from(JsonView::Array(items)) ==> {
            &&& is_required(x.id, at(items, 0))
            &&& is_required(x.updated_at, at(items, 1))
            &&& is_required(x.rid, at(items, 2))
            &&& is_required(x.u, at(items, 3))
            &&& is_required(x.t, at(items, 4))
            &&& is_required(x.ts, at(items, 5))
            &&& is_required(x.name, at(items, 6))
            &&& is_required(x.open, at(items, 7))
            &&& is_required(x.unread, at(items, 8))
            &&& is_required(x.user_mentions, at(items, 9))
            &&& is_required(x.group_mentions, at(items, 10))
            &&& is_optional(x.fname, at(items, 11))
            &&& is_optional(x.alert, at(items, 12))
            &&& is_date(x.ls, at(items, 13))
            &&& is_date(x.lr, at(items, 14))
            &&& is_optional(x.f, at(items, 15))
            &&& is_optional(x.hide_unread_status, at(items, 16))
            &&& is_optional(x.hide_mention_status, at(items, 17))
            &&& is_optional(x.team_main, at(items, 18))
            &&& is_optional(x.team_id, at(items, 19))
            &&& is_optional(x.broadcast, at(items, 20))
            &&& is_optional(x.prid, at(items, 21))
            &&& is_optional(x.tunread, at(items, 22))
            &&& is_optional(x.tunread_group, at(items, 23))
            &&& is_optional(x.tunread_user, at(items, 24))
            &&& is_optional(x.roles, at(items, 25))
            &&& is_optional(x.on_hold, at(items, 26))
            &&& is_optional(x.encrypted, at(items, 27))
            &&& is_optional(x.e2e_key, at(items, 28))
            &&& is_optional(x.e2e_suggested_key, at(items, 29))
            &&& is_optional(x.old_room_keys, at(items, 30))
            &&& is_optional(x.suggested_old_room_keys, at(items, 31))
            &&& is_optional(x.unread_alert, at(items, 32))
            &&& is_optional(x.desktop_notifications, at(items, 33))
            &&& is_optional(x.mobile_push_notifications, at(items, 34))
            &&& is_optional(x.email_notifications, at(items, 35))
            &&& is_optional(x.desktop_pref_origin, at(items, 36))
            &&& is_optional(x.mobile_pref_origin, at(items, 37))
            &&& is_optional(x.email_pref_origin, at(items, 38))
            &&& is_optional(x.audio_notification_value, at(items, 39))
            &&& is_optional(x.disable_notifications, at(items, 40))
            &&& is_optional(x.mute_group_mentions, at(items, 41))
            &&& is_optional(x.user_highlights, at(items, 42))
            &&& is_optional(x.ignored, at(items, 43))
            &&& is_optional(x.archived, at(items, 44))
            &&& is_optional(x.auto_translate, at(items, 45))
            &&& is_optional(x.auto_translate_language, at(items, 46))
            &&& is_optional(x.blocked, at(items, 47))
            &&& is_optional(x.blocker, at(items, 48))
            &&& is_optional(x.draft, at(items, 49))
            &&& is_optional(x.thread_drafts, at(items, 50))
            &&& is_optional(x.status, at(items, 51))
            &&& is_optional(x.inviter, at(items, 52))
            &&& is_optional(x.v, at(items, 53))
            &&& is_optional(x.department, at(items, 54))
            &&& is_optional(x.code, at(items, 55))
            &&& is_date(x.abac_last_time_checked, at(items, 56))
            &&& is_optional(x.custom_fields, at(items, 57))
        },
{
}

/// A [`UserRef`] that comes as a list has its fields in this order.
pub proof fn law_places_of_user_ref(x: UserRef, items: Seq<JsonView>)
    ensures
        UserRef::accepts(JsonView::Array(items)) ==> items.len() <= 3,
        x.read_from(JsonView::Array(items)) ==> {
            &&& is_required(x.id, at(items, 0))
            &&& is_optional(x.username, at(items, 1))
            &&& is_optional(x.name, at(items, 2))
        },
{
}

/// A [`MessageMention`] that comes as a list has its fields in this order.
pub proof fn law_places_of_message_mention(x: MessageMention, items: Seq<JsonView>)
    ensures
        MessageMention::accepts(JsonView::Array(items)) ==> items.len() <= 5,
        x.read_from(JsonView::Array(items)) ==> {
            &&& is_required(x.id, at(items, 0))
            &&& is_optional(x.mention_type, at(items, 1))
            &&& is_optional(x.name, at(items, 2))
            &&& is_optional(x.username, at(items, 3))
            &&& is_optional(x.fname, at(items, 4))
        },
{
}

/// A [`ChannelMention`] that comes as a list has its fields in this order.
pub proof fn law_places_of_channel_mention(x: ChannelMention, items: Seq<JsonView>)
    ensures
        ChannelMention::accepts(JsonView::Array(items)) ==> items.len() <= 2,
        x.read_from(JsonView::Array(items)) ==> {
            &&& is_required(x.id, at(items, 0))
            &&& is_optional(x.name, at(items, 1))
        },
{
}

/// A [`MessageUrl`] that comes as a list has its fields in this order.
pub proof fn law_places_of_message_url(x: MessageUrl, items: Seq<JsonView>)
    ensures
        MessageUrl::accepts(JsonView::Array(items)) ==> items.len() <= 6,
        x.read_from(JsonView::Array(items)) ==> {
            &&& is_required(x.url, at(items, 0))
            &&& is_optional(x.source, at(items, 1))
            &&& is_optional(x.headers, at(items, 3))
            &&& is_optional(x.ignore_parse, at(items, 4))
            &&& is_optional(x.parsed_url, at(items, 5))
        },
{
}

/// A [`UrlHeaders`] that comes as a list has its fields in this order.
pub proof fn law_places_of_url_headers(x: UrlHeaders, items: Seq<JsonView>)
    ensures
        UrlHeaders::accepts(JsonView::Array(items)) ==> items.len() <= 2,
        x.read_from(JsonView::Array(items)) ==> {
            &&& is_optional(x.content_length, at(items, 0))
            &&& is_optional(x.content_type, at(items, 1))
        },
{
}

/// A [`Reaction`] that comes as a list has its fields in this order.
pub proof fn law_places_of_reaction(x: Reaction, items: Seq<JsonView>)
    ensures
        Reaction::accepts(JsonView::Array(items)) ==> items.len() <= 3,
        x.read_from(JsonView::Array(items)) ==> {
            &&& is_optional(x.names, at(items, 1))
            &&& is_optional(x.federation_reaction_event_ids, at(items, 2))
        },
{
}

/// A [`Star`] that comes as a list has its fields in this order.
pub proof fn law_places_of_star(x: Star, items: Seq<JsonView>)
    ensures
        Star::accepts(JsonView::Array(items)) ==> items.len() <= 1,
        x.read_from(JsonView::Array(items)) ==> {
            &&& is_required(x.user_id, at(items, 0))
        },
{
}

/// A [`MessageFile`] that comes as a list has its fields in this order.
pub proof fn law_places_of_message_file(x: MessageFile, items: Seq<JsonView>)
    ensures
        MessageFile::accepts(JsonView::Array(items)) ==> items.len() <= 6,
        x.read_from(JsonView::Array(items)) ==> {
            &&& is_required(x.id, at(items, 0))
            &&& is_optional(x.name, at(items, 1))
            &&& is_optional(x.content_type, at(items, 2))
            &&& is_optional(x.format, at(items, 3))
            &&& is_optional(x.size, at(items, 4))
            &&& is_optional(x.type_group, at(items, 5))
        },
{
}

/// A [`AnnouncementDetails`] that comes as a list has its fields in this order.
pub proof fn law_places_of_announcement_details(x: AnnouncementDetails, items: Seq<JsonView>)
    ensures
        AnnouncementDetails::accepts(JsonView::Array(items)) ==> items.len() <= 1,
        x.read_from(JsonView::Array(items)) ==> {
            &&& is_optional(x.style, at(items, 0))
        },
{
}

/// A [`OldRoomKey`] that comes as a list has its fields in this order.
pub proof fn law_places_of_old_room_key(x: OldRoomKey, items: Seq<JsonView>)
    ensures
        OldRoomKey::accepts(JsonView::Array(items)) ==> items.len() <= 3,
        x.read_from(JsonView::Array(items)) ==> {
            &&& is_optional(x.e2e_key_id, at(items, 0))
            &&& is_date(x.ts, at(items, 1))
            &&& is_optional(x.e2e_key, at(items, 2))
        },
{
}

/// A [`UserEmail`] that comes as a list has its fields in this order.
pub proof fn law_places_of_user_email(x: UserEmail, items: Seq<JsonView>)
    ensures
        UserEmail::accepts(JsonView::Array(items)) ==> items.len() <= 2,
        x.read_from(JsonView::Array(items)) ==> {
            &&& is_required(x.address, at(items, 0))
            &&& is_optional(x.verified, at(items, 1))
        },
{
}

/// A [`MyMessageMeta`] that comes as a list has its fields in this order.
pub proof fn law_places_of_my_message_meta(x: MyMessageMeta, items: Seq<JsonView>)
    ensures
        MyMessageMeta::accepts(JsonView::Array(items)) ==> items.len() <= 3,
        x.read_from(JsonView::Array(items)) ==> {
            &&& is_optional(x.room_participant, at(items, 0))
            &&& is_optional(x.room_type, at(items, 1))
            &&& is_optional(x.room_name, at(items, 2))
        },
{
}

/// A [`BulkDelete`] that comes as a list has its fields in this order.
pub proof fn law_places_of_bulk_delete(x: BulkDelete, items: Seq<JsonView>)
    ensures
        BulkDelete::accepts(JsonView::Array(items)) ==> items.len() <= 8,
        x.read_from(JsonView::Array(items)) ==> {
            &&& is_required(x.rid, at(items, 0))
            &&& is_optional(x.ids, at(items, 1))
            &&& is_optional(x.ts, at(items, 2))
            &&& is_optional(x.users, at(items, 3))
            &&& is_optional(x.exclude_pinned, at(items, 4))
            &&& is_optional(x.ignore_discussion, at(items, 5))
            &&& is_optional(x.show_deleted_status, at(items, 6))
            &&& is_optional(x.files_only, at(items, 7))
        },
{
}

/// A [`DesktopNotification`] that comes as a list has its fields in this order.
pub proof fn law_places_of_desktop_notification(x: DesktopNotification, items: Seq<JsonView>)
    ensures
        DesktopNotification::accepts(JsonView::Array(items)) ==> items.len() <= 5,
        x.read_from(JsonView::Array(items)) ==> {
            &&& is_required(x.title, at(items, 0))
            &&& is_required(x.text, at(items, 1))
            &&& is_optional(x.icon, at(items, 2))
            &&& is_optional(x.duration, at(items, 3))
            &&& is_required(x.payload, at(items, 4))
        },
{
}

/// A [`NotificationPayload`] that comes as a list has its fields in this order.
pub proof fn law_places_of_notification_payload(x: NotificationPayload, items: Seq<JsonView>)
    ensures
        NotificationPayload::accepts(JsonView::Array(items)) ==> items.len() <= 8,
        x.read_from(JsonView::Array(items)) ==> {
            &&& is_required(x.id, at(items, 0))
            &&& is_required(x.rid, at(items, 1))
            &&& is_optional(x.tmid, at(items, 2))
            &&& is_optional(x.sender, at(items, 3))
            &&& is_optional(x.room_type, at(items, 4))
            &&& is_optional(x.name, at(items, 5))
            &&& is_optional(x.message, at(items, 6))
            &&& is_optional(x.audio_notification_value, at(items, 7))
        },
{
}

/// A [`NotificationMessage`] that comes as a list has its fields in this order.
pub proof fn law_places_of_notification_message(x: NotificationMessage, items: Seq<JsonView>)
    ensures
        NotificationMessage::accepts(JsonView::Array(items)) ==> items.len() <= 3,
        x.read_from(JsonView::Array(items)) ==> {
            &&& is_optional(x.t, at(items, 1))
            &&& is_optional(x.content, at(items, 2))
        },
{
}

/// A [`UserDataEvent`] that comes as a list has its fields in this order.
pub proof fn law_places_of_user_data_event(x: UserDataEvent, items: Seq<JsonView>)
    ensures
        UserDataEvent::accepts(JsonView::Array(items)) ==> items.len() <= 5,
        x.read_from(JsonView::Array(items)) ==> {
            &&& is_optional(x.id, at(items, 0))
            &&& is_required(x.action, at(items, 1))
            &&& is_optional(x.data, at(items, 2))
            &&& is_optional(x.diff, at(items, 3))
            &&& is_optional(x.unset, at(items, 4))
        },
{
}

/// A [`SubscriptionStub`] that comes as a list has its fields in this order.
pub proof fn law_places_of_subscription_stub(x: SubscriptionStub, items: Seq<JsonView>)
    ensures
        SubscriptionStub::accepts(JsonView::Array(items)) ==> items.len() <= 4,
        x.read_from(JsonView::Array(items)) ==> {
            &&& is_required(x.id, at(items, 0))
            &&& is_optional(x.rid, at(items, 1))
            &&& is_optional(x.u, at(items, 2))
            &&& is_optional(x.t, at(items, 3))
        },
{
}

/// A [`RoleChange`] that comes as a list has its fields in this order.
pub proof fn law_places_of_role_change(x: RoleChange, items: Seq<JsonView>)
    ensures
        RoleChange::accepts(JsonView::Array(items)) ==> items.len() <= 4,
        x.read_from(JsonView::Array(items)) ==> {
            &&& is_required(x.action, at(items, 0))
            &&& is_required(x.id, at(items, 1))
            &&& is_optional(x.u, at(items, 2))
            &&& is_optional(x.scope, at(items, 3))
        },
{
}

/// A list, a text or named values that have a default are empty where they are missing.
pub proof fn law_what_is_missing_is_empty(
    url: MessageUrl,
    reaction: Reaction,
    message: NotificationMessage,
    map: Map<Seq<char>, JsonView>,
    items: Seq<JsonView>,
)
    ensures
        url.read_from(JsonView::Object(map)) ==> if map.dom().contains("meta"@) {
            url.meta.read_from(map["meta"@])
        } else {
            url.meta.entries@.len() == 0
        },
        url.read_from(JsonView::Array(items)) && items.len() > 2 ==> url.meta.read_from(items[2]),
        reaction.read_from(JsonView::Object(map)) ==> if map.dom().contains("usernames"@) {
            reaction.usernames.read_from(map["usernames"@])
        } else {
            reaction.usernames@.len() == 0
        },
        reaction.read_from(JsonView::Array(items)) && items.len() > 0
            ==> reaction.usernames.read_from(items[0]),
        message.read_from(JsonView::Object(map)) ==> if map.dom().contains("msg"@) {
            message.msg.read_from(map["msg"@])
        } else {
            message.msg@.len() == 0
        },
        message.read_from(JsonView::Array(items)) && items.len() > 0 ==> message.msg.read_from(
            items[0],
        ),
{
}

} // verus!
