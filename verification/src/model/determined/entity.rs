//! An entity reads as one value only.
use crate::model::determined::{Determined, lemma_date, lemma_optional, lemma_required, agree_option};
use crate::model::entity::message::Message;
use crate::model::entity::parts::{
    AnnouncementDetails, ChannelMention, MessageFile, MessageMention, MessageUrl, OldRoomKey,
    Reaction, Star, UrlHeaders, UserEmail, UserRef,
};
use crate::model::entity::room::Room;
use crate::model::entity::subscription::Subscription;
use crate::model::entity::user::User;
use crate::model::json::JsonView;
use crate::model::wire::slot;
use vstd::prelude::*;
use vstd::string::*;

verus! {

impl Determined for Message {
    open spec fn agrees(&self, other: &Message) -> bool {
        &&& self.id.agrees(&other.id)
        &&& self.updated_at.agrees(&other.updated_at)
        &&& self.rid.agrees(&other.rid)
        &&& self.msg.agrees(&other.msg)
        &&& self.ts.agrees(&other.ts)
        &&& self.u.agrees(&other.u)
        &&& agree_option(self.t, other.t)
        &&& agree_option(self.edited_at, other.edited_at)
        &&& agree_option(self.edited_by, other.edited_by)
        &&& agree_option(self.attachments, other.attachments)
        &&& agree_option(self.mentions, other.mentions)
        &&& agree_option(self.channels, other.channels)
        &&& agree_option(self.md, other.md)
        &&& agree_option(self.blocks, other.blocks)
        &&& agree_option(self.urls, other.urls)
        &&& agree_option(self.reactions, other.reactions)
        &&& agree_option(self.file, other.file)
        &&& agree_option(self.files, other.files)
        &&& agree_option(self.tmid, other.tmid)
        &&& agree_option(self.tshow, other.tshow)
        &&& agree_option(self.tcount, other.tcount)
        &&& agree_option(self.tlm, other.tlm)
        &&& agree_option(self.replies, other.replies)
        &&& agree_option(self.drid, other.drid)
        &&& agree_option(self.dcount, other.dcount)
        &&& agree_option(self.dlm, other.dlm)
        &&& agree_option(self.groupable, other.groupable)
        &&& agree_option(self.parse_urls, other.parse_urls)
        &&& agree_option(self.unread, other.unread)
        &&& agree_option(self.pinned, other.pinned)
        &&& agree_option(self.pinned_at, other.pinned_at)
        &&& agree_option(self.pinned_by, other.pinned_by)
        &&& agree_option(self.starred, other.starred)
        &&& agree_option(self.private, other.private)
        &&& agree_option(self.temp, other.temp)
        &&& agree_option(self.hidden, other.hidden)
        &&& agree_option(self.imported, other.imported)
        &&& agree_option(self.e2e, other.e2e)
        &&& agree_option(self.alias, other.alias)
        &&& agree_option(self.avatar, other.avatar)
        &&& agree_option(self.emoji, other.emoji)
        &&& agree_option(self.role, other.role)
        &&& agree_option(self.bot, other.bot)
        &&& agree_option(self.token, other.token)
        &&& agree_option(self.custom_fields, other.custom_fields)
    }

    proof fn law_determined(&self, other: &Message, j: JsonView) {
        lemma_required(self.id, other.id, slot(j, "_id"@, 0));
        lemma_required(self.updated_at, other.updated_at, slot(j, "_updatedAt"@, 1));
        lemma_required(self.rid, other.rid, slot(j, "rid"@, 2));
        lemma_required(self.msg, other.msg, slot(j, "msg"@, 3));
        lemma_required(self.ts, other.ts, slot(j, "ts"@, 4));
        lemma_required(self.u, other.u, slot(j, "u"@, 5));
        lemma_optional(self.t, other.t, slot(j, "t"@, 6));
        lemma_date(self.edited_at, other.edited_at, slot(j, "editedAt"@, 7));
        lemma_optional(self.edited_by, other.edited_by, slot(j, "editedBy"@, 8));
        lemma_optional(self.attachments, other.attachments, slot(j, "attachments"@, 9));
        lemma_optional(self.mentions, other.mentions, slot(j, "mentions"@, 10));
        lemma_optional(self.channels, other.channels, slot(j, "channels"@, 11));
        lemma_optional(self.md, other.md, slot(j, "md"@, 12));
        lemma_optional(self.blocks, other.blocks, slot(j, "blocks"@, 13));
        lemma_optional(self.urls, other.urls, slot(j, "urls"@, 14));
        lemma_optional(self.reactions, other.reactions, slot(j, "reactions"@, 15));
        lemma_optional(self.file, other.file, slot(j, "file"@, 16));
        lemma_optional(self.files, other.files, slot(j, "files"@, 17));
        lemma_optional(self.tmid, other.tmid, slot(j, "tmid"@, 18));
        lemma_optional(self.tshow, other.tshow, slot(j, "tshow"@, 19));
        lemma_optional(self.tcount, other.tcount, slot(j, "tcount"@, 20));
        lemma_date(self.tlm, other.tlm, slot(j, "tlm"@, 21));
        lemma_optional(self.replies, other.replies, slot(j, "replies"@, 22));
        lemma_optional(self.drid, other.drid, slot(j, "drid"@, 23));
        lemma_optional(self.dcount, other.dcount, slot(j, "dcount"@, 24));
        lemma_date(self.dlm, other.dlm, slot(j, "dlm"@, 25));
        lemma_optional(self.groupable, other.groupable, slot(j, "groupable"@, 26));
        lemma_optional(self.parse_urls, other.parse_urls, slot(j, "parseUrls"@, 27));
        lemma_optional(self.unread, other.unread, slot(j, "unread"@, 28));
        lemma_optional(self.pinned, other.pinned, slot(j, "pinned"@, 29));
        lemma_date(self.pinned_at, other.pinned_at, slot(j, "pinnedAt"@, 30));
        lemma_optional(self.pinned_by, other.pinned_by, slot(j, "pinnedBy"@, 31));
        lemma_optional(self.starred, other.starred, slot(j, "starred"@, 32));
        lemma_optional(self.private, other.private, slot(j, "private"@, 33));
        lemma_optional(self.temp, other.temp, slot(j, "temp"@, 34));
        lemma_optional(self.hidden, other.hidden, slot(j, "_hidden"@, 35));
        lemma_optional(self.imported, other.imported, slot(j, "imported"@, 36));
        lemma_optional(self.e2e, other.e2e, slot(j, "e2e"@, 37));
        lemma_optional(self.alias, other.alias, slot(j, "alias"@, 38));
        lemma_optional(self.avatar, other.avatar, slot(j, "avatar"@, 39));
        lemma_optional(self.emoji, other.emoji, slot(j, "emoji"@, 40));
        lemma_optional(self.role, other.role, slot(j, "role"@, 41));
        lemma_optional(self.bot, other.bot, slot(j, "bot"@, 42));
        lemma_optional(self.token, other.token, slot(j, "token"@, 43));
        lemma_optional(self.custom_fields, other.custom_fields, slot(j, "customFields"@, 44));
    }
}

impl Determined for UserRef {
    open spec fn agrees(&self, other: &UserRef) -> bool {
        &&& self.id.agrees(&other.id)
        &&& agree_option(self.username, other.username)
        &&& agree_option(self.name, other.name)
    }

    proof fn law_determined(&self, other: &UserRef, j: JsonView) {
        lemma_required(self.id, other.id, slot(j, "_id"@, 0));
        lemma_optional(self.username, other.username, slot(j, "username"@, 1));
        lemma_optional(self.name, other.name, slot(j, "name"@, 2));
    }
}

impl Determined for MessageMention {
    open spec fn agrees(&self, other: &MessageMention) -> bool {
        &&& self.id.agrees(&other.id)
        &&& agree_option(self.mention_type, other.mention_type)
        &&& agree_option(self.name, other.name)
        &&& agree_option(self.username, other.username)
        &&& agree_option(self.fname, other.fname)
    }

    proof fn law_determined(&self, other: &MessageMention, j: JsonView) {
        lemma_required(self.id, other.id, slot(j, "_id"@, 0));
        lemma_optional(self.mention_type, other.mention_type, slot(j, "type"@, 1));
        lemma_optional(self.name, other.name, slot(j, "name"@, 2));
        lemma_optional(self.username, other.username, slot(j, "username"@, 3));
        lemma_optional(self.fname, other.fname, slot(j, "fname"@, 4));
    }
}

impl Determined for ChannelMention {
    open spec fn agrees(&self, other: &ChannelMention) -> bool {
        &&& self.id.agrees(&other.id)
        &&& agree_option(self.name, other.name)
    }

    proof fn law_determined(&self, other: &ChannelMention, j: JsonView) {
        lemma_required(self.id, other.id, slot(j, "_id"@, 0));
        lemma_optional(self.name, other.name, slot(j, "name"@, 1));
    }
}

impl Determined for MessageUrl {
    open spec fn agrees(&self, other: &MessageUrl) -> bool {
        &&& self.url.agrees(&other.url)
        &&& agree_option(self.source, other.source)
        &&& self.meta.agrees(&other.meta)
        &&& agree_option(self.headers, other.headers)
        &&& agree_option(self.ignore_parse, other.ignore_parse)
        &&& agree_option(self.parsed_url, other.parsed_url)
    }

    proof fn law_determined(&self, other: &MessageUrl, j: JsonView) {
        lemma_required(self.url, other.url, slot(j, "url"@, 0));
        lemma_optional(self.source, other.source, slot(j, "source"@, 1));
        if slot(j, "meta"@, 2) is Some {
            self.meta.law_determined(&other.meta, slot(j, "meta"@, 2)->0);
        }
        lemma_optional(self.headers, other.headers, slot(j, "headers"@, 3));
        lemma_optional(self.ignore_parse, other.ignore_parse, slot(j, "ignoreParse"@, 4));
        lemma_optional(self.parsed_url, other.parsed_url, slot(j, "parsedUrl"@, 5));
    }
}

impl Determined for UrlHeaders {
    open spec fn agrees(&self, other: &UrlHeaders) -> bool {
        &&& agree_option(self.content_length, other.content_length)
        &&& agree_option(self.content_type, other.content_type)
    }

    proof fn law_determined(&self, other: &UrlHeaders, j: JsonView) {
        lemma_optional(self.content_length, other.content_length, slot(j, "contentLength"@, 0));
        lemma_optional(self.content_type, other.content_type, slot(j, "contentType"@, 1));
    }
}

impl Determined for Reaction {
    open spec fn agrees(&self, other: &Reaction) -> bool {
        &&& self.usernames.agrees(&other.usernames)
        &&& agree_option(self.names, other.names)
        &&& agree_option(self.federation_reaction_event_ids, other.federation_reaction_event_ids)
    }

    proof fn law_determined(&self, other: &Reaction, j: JsonView) {
        if slot(j, "usernames"@, 0) is Some {
            self.usernames.law_determined(&other.usernames, slot(j, "usernames"@, 0)->0);
        }
        lemma_optional(self.names, other.names, slot(j, "names"@, 1));
        lemma_optional(self.federation_reaction_event_ids, other.federation_reaction_event_ids, slot(j, "federationReactionEventIds"@, 2));
    }
}

impl Determined for Star {
    open spec fn agrees(&self, other: &Star) -> bool {
        &&& self.user_id.agrees(&other.user_id)
    }

    proof fn law_determined(&self, other: &Star, j: JsonView) {
        lemma_required(self.user_id, other.user_id, slot(j, "_id"@, 0));
    }
}

impl Determined for MessageFile {
    open spec fn agrees(&self, other: &MessageFile) -> bool {
        &&& self.id.agrees(&other.id)
        &&& agree_option(self.name, other.name)
        &&& agree_option(self.content_type, other.content_type)
        &&& agree_option(self.format, other.format)
        &&& agree_option(self.size, other.size)
        &&& agree_option(self.type_group, other.type_group)
    }

    proof fn law_determined(&self, other: &MessageFile, j: JsonView) {
        lemma_required(self.id, other.id, slot(j, "_id"@, 0));
        lemma_optional(self.name, other.name, slot(j, "name"@, 1));
        lemma_optional(self.content_type, other.content_type, slot(j, "type"@, 2));
        lemma_optional(self.format, other.format, slot(j, "format"@, 3));
        lemma_optional(self.size, other.size, slot(j, "size"@, 4));
        lemma_optional(self.type_group, other.type_group, slot(j, "typeGroup"@, 5));
    }
}

impl Determined for AnnouncementDetails {
    open spec fn agrees(&self, other: &AnnouncementDetails) -> bool {
        &&& agree_option(self.style, other.style)
    }

    proof fn law_determined(&self, other: &AnnouncementDetails, j: JsonView) {
        lemma_optional(self.style, other.style, slot(j, "style"@, 0));
    }
}

impl Determined for OldRoomKey {
    open spec fn agrees(&self, other: &OldRoomKey) -> bool {
        &&& agree_option(self.e2e_key_id, other.e2e_key_id)
        &&& agree_option(self.ts, other.ts)
        &&& agree_option(self.e2e_key, other.e2e_key)
    }

    proof fn law_determined(&self, other: &OldRoomKey, j: JsonView) {
        lemma_optional(self.e2e_key_id, other.e2e_key_id, slot(j, "e2eKeyId"@, 0));
        lemma_date(self.ts, other.ts, slot(j, "ts"@, 1));
        lemma_optional(self.e2e_key, other.e2e_key, slot(j, "E2EKey"@, 2));
    }
}

impl Determined for UserEmail {
    open spec fn agrees(&self, other: &UserEmail) -> bool {
        &&& self.address.agrees(&other.address)
        &&& agree_option(self.verified, other.verified)
    }

    proof fn law_determined(&self, other: &UserEmail, j: JsonView) {
        lemma_required(self.address, other.address, slot(j, "address"@, 0));
        lemma_optional(self.verified, other.verified, slot(j, "verified"@, 1));
    }
}

impl Determined for Room {
    open spec fn agrees(&self, other: &Room) -> bool {
        &&& self.id.agrees(&other.id)
        &&& self.updated_at.agrees(&other.updated_at)
        &&& self.t.agrees(&other.t)
        &&& agree_option(self.name, other.name)
        &&& agree_option(self.fname, other.fname)
        &&& agree_option(self.msgs, other.msgs)
        &&& agree_option(self.users_count, other.users_count)
        &&& agree_option(self.u, other.u)
        &&& agree_option(self.uids, other.uids)
        &&& agree_option(self.usernames, other.usernames)
        &&& agree_option(self.default, other.default)
        &&& agree_option(self.broadcast, other.broadcast)
        &&& agree_option(self.featured, other.featured)
        &&& agree_option(self.topic, other.topic)
        &&& agree_option(self.description, other.description)
        &&& agree_option(self.announcement, other.announcement)
        &&& agree_option(self.announcement_details, other.announcement_details)
        &&& agree_option(self.join_code_required, other.join_code_required)
        &&& agree_option(self.encrypted, other.encrypted)
        &&& agree_option(self.e2e_key_id, other.e2e_key_id)
        &&& agree_option(self.users_waiting_for_e2e_keys, other.users_waiting_for_e2e_keys)
        &&& agree_option(self.ro, other.ro)
        &&& agree_option(self.react_when_read_only, other.react_when_read_only)
        &&& agree_option(self.sys_mes, other.sys_mes)
        &&& agree_option(self.cl, other.cl)
        &&& agree_option(self.archived, other.archived)
        &&& agree_option(self.muted, other.muted)
        &&& agree_option(self.unmuted, other.unmuted)
        &&& agree_option(self.last_message, other.last_message)
        &&& agree_option(self.lm, other.lm)
        &&& agree_option(self.ts, other.ts)
        &&& agree_option(self.web_rtc_call_start_time, other.web_rtc_call_start_time)
        &&& agree_option(self.prid, other.prid)
        &&& agree_option(self.avatar_etag, other.avatar_etag)
        &&& agree_option(self.team_main, other.team_main)
        &&& agree_option(self.team_id, other.team_id)
        &&& agree_option(self.team_default, other.team_default)
        &&& agree_option(self.open, other.open)
        &&& agree_option(self.unread, other.unread)
        &&& agree_option(self.alert, other.alert)
        &&& agree_option(self.favorite, other.favorite)
        &&& agree_option(self.hide_unread_status, other.hide_unread_status)
        &&& agree_option(self.hide_mention_status, other.hide_mention_status)
        &&& agree_option(self.auto_translate, other.auto_translate)
        &&& agree_option(self.auto_translate_language, other.auto_translate_language)
        &&& agree_option(self.retention, other.retention)
        &&& agree_option(self.abac_attributes, other.abac_attributes)
        &&& agree_option(self.role_priorities_created, other.role_priorities_created)
        &&& agree_option(self.custom_fields, other.custom_fields)
        &&& agree_option(self.federated, other.federated)
        &&& agree_option(self.federation, other.federation)
        &&& agree_option(self.v, other.v)
        &&& agree_option(self.source, other.source)
        &&& agree_option(self.served_by, other.served_by)
        &&& agree_option(self.department_id, other.department_id)
        &&& agree_option(self.on_hold, other.on_hold)
        &&& agree_option(self.waiting_response, other.waiting_response)
        &&& agree_option(self.queued_at, other.queued_at)
        &&& agree_option(self.tags, other.tags)
        &&& agree_option(self.livechat_data, other.livechat_data)
        &&& agree_option(self.metrics, other.metrics)
        &&& agree_option(self.transcript_request, other.transcript_request)
        &&& agree_option(self.priority_id, other.priority_id)
        &&& agree_option(self.priority_weight, other.priority_weight)
        &&& agree_option(self.sla_id, other.sla_id)
        &&& agree_option(self.estimated_waiting_time_queue, other.estimated_waiting_time_queue)
        &&& agree_option(self.contact_id, other.contact_id)
        &&& agree_option(self.verified, other.verified)
        &&& agree_option(self.sms, other.sms)
        &&& agree_option(self.code, other.code)
        &&& agree_option(self.label, other.label)
        &&& agree_option(self.sentiment, other.sentiment)
    }

    proof fn law_determined(&self, other: &Room, j: JsonView) {
        lemma_required(self.id, other.id, slot(j, "_id"@, 0));
        lemma_required(self.updated_at, other.updated_at, slot(j, "_updatedAt"@, 1));
        lemma_required(self.t, other.t, slot(j, "t"@, 2));
        lemma_optional(self.name, other.name, slot(j, "name"@, 3));
        lemma_optional(self.fname, other.fname, slot(j, "fname"@, 4));
        lemma_optional(self.msgs, other.msgs, slot(j, "msgs"@, 5));
        lemma_optional(self.users_count, other.users_count, slot(j, "usersCount"@, 6));
        lemma_optional(self.u, other.u, slot(j, "u"@, 7));
        lemma_optional(self.uids, other.uids, slot(j, "uids"@, 8));
        lemma_optional(self.usernames, other.usernames, slot(j, "usernames"@, 9));
        lemma_optional(self.default, other.default, slot(j, "default"@, 10));
        lemma_optional(self.broadcast, other.broadcast, slot(j, "broadcast"@, 11));
        lemma_optional(self.featured, other.featured, slot(j, "featured"@, 12));
        lemma_optional(self.topic, other.topic, slot(j, "topic"@, 13));
        lemma_optional(self.description, other.description, slot(j, "description"@, 14));
        lemma_optional(self.announcement, other.announcement, slot(j, "announcement"@, 15));
        lemma_optional(self.announcement_details, other.announcement_details, slot(j, "announcementDetails"@, 16));
        lemma_optional(self.join_code_required, other.join_code_required, slot(j, "joinCodeRequired"@, 17));
        lemma_optional(self.encrypted, other.encrypted, slot(j, "encrypted"@, 18));
        lemma_optional(self.e2e_key_id, other.e2e_key_id, slot(j, "e2eKeyId"@, 19));
        lemma_optional(self.users_waiting_for_e2e_keys, other.users_waiting_for_e2e_keys, slot(j, "usersWaitingForE2EKeys"@, 20));
        lemma_optional(self.ro, other.ro, slot(j, "ro"@, 21));
        lemma_optional(self.react_when_read_only, other.react_when_read_only, slot(j, "reactWhenReadOnly"@, 22));
        lemma_optional(self.sys_mes, other.sys_mes, slot(j, "sysMes"@, 23));
        lemma_optional(self.cl, other.cl, slot(j, "cl"@, 24));
        lemma_optional(self.archived, other.archived, slot(j, "archived"@, 25));
        lemma_optional(self.muted, other.muted, slot(j, "muted"@, 26));
        lemma_optional(self.unmuted, other.unmuted, slot(j, "unmuted"@, 27));
        lemma_optional(self.last_message, other.last_message, slot(j, "lastMessage"@, 28));
        lemma_date(self.lm, other.lm, slot(j, "lm"@, 29));
        lemma_date(self.ts, other.ts, slot(j, "ts"@, 30));
        lemma_date(self.web_rtc_call_start_time, other.web_rtc_call_start_time, slot(j, "webRtcCallStartTime"@, 31));
        lemma_optional(self.prid, other.prid, slot(j, "prid"@, 32));
        lemma_optional(self.avatar_etag, other.avatar_etag, slot(j, "avatarETag"@, 33));
        lemma_optional(self.team_main, other.team_main, slot(j, "teamMain"@, 34));
        lemma_optional(self.team_id, other.team_id, slot(j, "teamId"@, 35));
        lemma_optional(self.team_default, other.team_default, slot(j, "teamDefault"@, 36));
        lemma_optional(self.open, other.open, slot(j, "open"@, 37));
        lemma_optional(self.unread, other.unread, slot(j, "unread"@, 38));
        lemma_optional(self.alert, other.alert, slot(j, "alert"@, 39));
        lemma_optional(self.favorite, other.favorite, slot(j, "favorite"@, 40));
        lemma_optional(self.hide_unread_status, other.hide_unread_status, slot(j, "hideUnreadStatus"@, 41));
        lemma_optional(self.hide_mention_status, other.hide_mention_status, slot(j, "hideMentionStatus"@, 42));
        lemma_optional(self.auto_translate, other.auto_translate, slot(j, "autoTranslate"@, 43));
        lemma_optional(self.auto_translate_language, other.auto_translate_language, slot(j, "autoTranslateLanguage"@, 44));
        lemma_optional(self.retention, other.retention, slot(j, "retention"@, 45));
        lemma_optional(self.abac_attributes, other.abac_attributes, slot(j, "abacAttributes"@, 46));
        lemma_optional(self.role_priorities_created, other.role_priorities_created, slot(j, "rolePrioritiesCreated"@, 47));
        lemma_optional(self.custom_fields, other.custom_fields, slot(j, "customFields"@, 48));
        lemma_optional(self.federated, other.federated, slot(j, "federated"@, 49));
        lemma_optional(self.federation, other.federation, slot(j, "federation"@, 50));
        lemma_optional(self.v, other.v, slot(j, "v"@, 51));
        lemma_optional(self.source, other.source, slot(j, "source"@, 52));
        lemma_optional(self.served_by, other.served_by, slot(j, "servedBy"@, 53));
        lemma_optional(self.department_id, other.department_id, slot(j, "departmentId"@, 54));
        lemma_optional(self.on_hold, other.on_hold, slot(j, "onHold"@, 55));
        lemma_optional(self.waiting_response, other.waiting_response, slot(j, "waitingResponse"@, 56));
        lemma_date(self.queued_at, other.queued_at, slot(j, "queuedAt"@, 57));
        lemma_optional(self.tags, other.tags, slot(j, "tags"@, 58));
        lemma_optional(self.livechat_data, other.livechat_data, slot(j, "livechatData"@, 59));
        lemma_optional(self.metrics, other.metrics, slot(j, "metrics"@, 60));
        lemma_optional(self.transcript_request, other.transcript_request, slot(j, "transcriptRequest"@, 61));
        lemma_optional(self.priority_id, other.priority_id, slot(j, "priorityId"@, 62));
        lemma_optional(self.priority_weight, other.priority_weight, slot(j, "priorityWeight"@, 63));
        lemma_optional(self.sla_id, other.sla_id, slot(j, "slaId"@, 64));
        lemma_optional(self.estimated_waiting_time_queue, other.estimated_waiting_time_queue, slot(j, "estimatedWaitingTimeQueue"@, 65));
        lemma_optional(self.contact_id, other.contact_id, slot(j, "contactId"@, 66));
        lemma_optional(self.verified, other.verified, slot(j, "verified"@, 67));
        lemma_optional(self.sms, other.sms, slot(j, "sms"@, 68));
        lemma_optional(self.code, other.code, slot(j, "code"@, 69));
        lemma_optional(self.label, other.label, slot(j, "label"@, 70));
        lemma_optional(self.sentiment, other.sentiment, slot(j, "sentiment"@, 71));
    }
}

impl Determined for Subscription {
    open spec fn agrees(&self, other: &Subscription) -> bool {
        &&& self.id.agrees(&other.id)
        &&& self.updated_at.agrees(&other.updated_at)
        &&& self.rid.agrees(&other.rid)
        &&& self.u.agrees(&other.u)
        &&& self.t.agrees(&other.t)
        &&& self.ts.agrees(&other.ts)
        &&& self.name.agrees(&other.name)
        &&& self.open.agrees(&other.open)
        &&& self.unread.agrees(&other.unread)
        &&& self.user_mentions.agrees(&other.user_mentions)
        &&& self.group_mentions.agrees(&other.group_mentions)
        &&& agree_option(self.fname, other.fname)
        &&& agree_option(self.alert, other.alert)
        &&& agree_option(self.ls, other.ls)
        &&& agree_option(self.lr, other.lr)
        &&& agree_option(self.f, other.f)
        &&& agree_option(self.hide_unread_status, other.hide_unread_status)
        &&& agree_option(self.hide_mention_status, other.hide_mention_status)
        &&& agree_option(self.team_main, other.team_main)
        &&& agree_option(self.team_id, other.team_id)
        &&& agree_option(self.broadcast, other.broadcast)
        &&& agree_option(self.prid, other.prid)
        &&& agree_option(self.tunread, other.tunread)
        &&& agree_option(self.tunread_group, other.tunread_group)
        &&& agree_option(self.tunread_user, other.tunread_user)
        &&& agree_option(self.roles, other.roles)
        &&& agree_option(self.on_hold, other.on_hold)
        &&& agree_option(self.encrypted, other.encrypted)
        &&& agree_option(self.e2e_key, other.e2e_key)
        &&& agree_option(self.e2e_suggested_key, other.e2e_suggested_key)
        &&& agree_option(self.old_room_keys, other.old_room_keys)
        &&& agree_option(self.suggested_old_room_keys, other.suggested_old_room_keys)
        &&& agree_option(self.unread_alert, other.unread_alert)
        &&& agree_option(self.desktop_notifications, other.desktop_notifications)
        &&& agree_option(self.mobile_push_notifications, other.mobile_push_notifications)
        &&& agree_option(self.email_notifications, other.email_notifications)
        &&& agree_option(self.desktop_pref_origin, other.desktop_pref_origin)
        &&& agree_option(self.mobile_pref_origin, other.mobile_pref_origin)
        &&& agree_option(self.email_pref_origin, other.email_pref_origin)
        &&& agree_option(self.audio_notification_value, other.audio_notification_value)
        &&& agree_option(self.disable_notifications, other.disable_notifications)
        &&& agree_option(self.mute_group_mentions, other.mute_group_mentions)
        &&& agree_option(self.user_highlights, other.user_highlights)
        &&& agree_option(self.ignored, other.ignored)
        &&& agree_option(self.archived, other.archived)
        &&& agree_option(self.auto_translate, other.auto_translate)
        &&& agree_option(self.auto_translate_language, other.auto_translate_language)
        &&& agree_option(self.blocked, other.blocked)
        &&& agree_option(self.blocker, other.blocker)
        &&& agree_option(self.draft, other.draft)
        &&& agree_option(self.thread_drafts, other.thread_drafts)
        &&& agree_option(self.status, other.status)
        &&& agree_option(self.inviter, other.inviter)
        &&& agree_option(self.v, other.v)
        &&& agree_option(self.department, other.department)
        &&& agree_option(self.code, other.code)
        &&& agree_option(self.abac_last_time_checked, other.abac_last_time_checked)
        &&& agree_option(self.custom_fields, other.custom_fields)
    }

    proof fn law_determined(&self, other: &Subscription, j: JsonView) {
        lemma_required(self.id, other.id, slot(j, "_id"@, 0));
        lemma_required(self.updated_at, other.updated_at, slot(j, "_updatedAt"@, 1));
        lemma_required(self.rid, other.rid, slot(j, "rid"@, 2));
        lemma_required(self.u, other.u, slot(j, "u"@, 3));
        lemma_required(self.t, other.t, slot(j, "t"@, 4));
        lemma_required(self.ts, other.ts, slot(j, "ts"@, 5));
        lemma_required(self.name, other.name, slot(j, "name"@, 6));
        lemma_required(self.open, other.open, slot(j, "open"@, 7));
        lemma_required(self.unread, other.unread, slot(j, "unread"@, 8));
        lemma_required(self.user_mentions, other.user_mentions, slot(j, "userMentions"@, 9));
        lemma_required(self.group_mentions, other.group_mentions, slot(j, "groupMentions"@, 10));
        lemma_optional(self.fname, other.fname, slot(j, "fname"@, 11));
        lemma_optional(self.alert, other.alert, slot(j, "alert"@, 12));
        lemma_date(self.ls, other.ls, slot(j, "ls"@, 13));
        lemma_date(self.lr, other.lr, slot(j, "lr"@, 14));
        lemma_optional(self.f, other.f, slot(j, "f"@, 15));
        lemma_optional(self.hide_unread_status, other.hide_unread_status, slot(j, "hideUnreadStatus"@, 16));
        lemma_optional(self.hide_mention_status, other.hide_mention_status, slot(j, "hideMentionStatus"@, 17));
        lemma_optional(self.team_main, other.team_main, slot(j, "teamMain"@, 18));
        lemma_optional(self.team_id, other.team_id, slot(j, "teamId"@, 19));
        lemma_optional(self.broadcast, other.broadcast, slot(j, "broadcast"@, 20));
        lemma_optional(self.prid, other.prid, slot(j, "prid"@, 21));
        lemma_optional(self.tunread, other.tunread, slot(j, "tunread"@, 22));
        lemma_optional(self.tunread_group, other.tunread_group, slot(j, "tunreadGroup"@, 23));
        lemma_optional(self.tunread_user, other.tunread_user, slot(j, "tunreadUser"@, 24));
        lemma_optional(self.roles, other.roles, slot(j, "roles"@, 25));
        lemma_optional(self.on_hold, other.on_hold, slot(j, "onHold"@, 26));
        lemma_optional(self.encrypted, other.encrypted, slot(j, "encrypted"@, 27));
        lemma_optional(self.e2e_key, other.e2e_key, slot(j, "E2EKey"@, 28));
        lemma_optional(self.e2e_suggested_key, other.e2e_suggested_key, slot(j, "E2ESuggestedKey"@, 29));
        lemma_optional(self.old_room_keys, other.old_room_keys, slot(j, "oldRoomKeys"@, 30));
        lemma_optional(self.suggested_old_room_keys, other.suggested_old_room_keys, slot(j, "suggestedOldRoomKeys"@, 31));
        lemma_optional(self.unread_alert, other.unread_alert, slot(j, "unreadAlert"@, 32));
        lemma_optional(self.desktop_notifications, other.desktop_notifications, slot(j, "desktopNotifications"@, 33));
        lemma_optional(self.mobile_push_notifications, other.mobile_push_notifications, slot(j, "mobilePushNotifications"@, 34));
        lemma_optional(self.email_notifications, other.email_notifications, slot(j, "emailNotifications"@, 35));
        lemma_optional(self.desktop_pref_origin, other.desktop_pref_origin, slot(j, "desktopPrefOrigin"@, 36));
        lemma_optional(self.mobile_pref_origin, other.mobile_pref_origin, slot(j, "mobilePrefOrigin"@, 37));
        lemma_optional(self.email_pref_origin, other.email_pref_origin, slot(j, "emailPrefOrigin"@, 38));
        lemma_optional(self.audio_notification_value, other.audio_notification_value, slot(j, "audioNotificationValue"@, 39));
        lemma_optional(self.disable_notifications, other.disable_notifications, slot(j, "disableNotifications"@, 40));
        lemma_optional(self.mute_group_mentions, other.mute_group_mentions, slot(j, "muteGroupMentions"@, 41));
        lemma_optional(self.user_highlights, other.user_highlights, slot(j, "userHighlights"@, 42));
        lemma_optional(self.ignored, other.ignored, slot(j, "ignored"@, 43));
        lemma_optional(self.archived, other.archived, slot(j, "archived"@, 44));
        lemma_optional(self.auto_translate, other.auto_translate, slot(j, "autoTranslate"@, 45));
        lemma_optional(self.auto_translate_language, other.auto_translate_language, slot(j, "autoTranslateLanguage"@, 46));
        lemma_optional(self.blocked, other.blocked, slot(j, "blocked"@, 47));
        lemma_optional(self.blocker, other.blocker, slot(j, "blocker"@, 48));
        lemma_optional(self.draft, other.draft, slot(j, "draft"@, 49));
        lemma_optional(self.thread_drafts, other.thread_drafts, slot(j, "threadDrafts"@, 50));
        lemma_optional(self.status, other.status, slot(j, "status"@, 51));
        lemma_optional(self.inviter, other.inviter, slot(j, "inviter"@, 52));
        lemma_optional(self.v, other.v, slot(j, "v"@, 53));
        lemma_optional(self.department, other.department, slot(j, "department"@, 54));
        lemma_optional(self.code, other.code, slot(j, "code"@, 55));
        lemma_date(self.abac_last_time_checked, other.abac_last_time_checked, slot(j, "abacLastTimeChecked"@, 56));
        lemma_optional(self.custom_fields, other.custom_fields, slot(j, "customFields"@, 57));
    }
}

impl Determined for User {
    open spec fn agrees(&self, other: &User) -> bool {
        &&& self.id.agrees(&other.id)
        &&& agree_option(self.updated_at, other.updated_at)
        &&& agree_option(self.created_at, other.created_at)
        &&& agree_option(self.username, other.username)
        &&& agree_option(self.name, other.name)
        &&& agree_option(self.nickname, other.nickname)
        &&& agree_option(self.bio, other.bio)
        &&& agree_option(self.roles, other.roles)
        &&& agree_option(self.user_type, other.user_type)
        &&& agree_option(self.active, other.active)
        &&& agree_option(self.inactive_reason, other.inactive_reason)
        &&& agree_option(self.status, other.status)
        &&& agree_option(self.status_default, other.status_default)
        &&& agree_option(self.status_connection, other.status_connection)
        &&& agree_option(self.status_text, other.status_text)
        &&& agree_option(self.status_source, other.status_source)
        &&& agree_option(self.status_expires_at, other.status_expires_at)
        &&& agree_option(self.status_id, other.status_id)
        &&& agree_option(self.last_login, other.last_login)
        &&& agree_option(self.emails, other.emails)
        &&& agree_option(self.avatar_origin, other.avatar_origin)
        &&& agree_option(self.avatar_etag, other.avatar_etag)
        &&& agree_option(self.avatar_url, other.avatar_url)
        &&& agree_option(self.utc_offset, other.utc_offset)
        &&& agree_option(self.language, other.language)
        &&& agree_option(self.phone, other.phone)
        &&& agree_option(self.reason, other.reason)
        &&& agree_option(self.e2e, other.e2e)
        &&& agree_option(self.settings, other.settings)
        &&& agree_option(self.custom_fields, other.custom_fields)
        &&& agree_option(self.banners, other.banners)
        &&& agree_option(self.default_room, other.default_room)
        &&& agree_option(self.ldap, other.ldap)
        &&& agree_option(self.require_password_change, other.require_password_change)
        &&& agree_option(self.require_password_change_reason, other.require_password_change_reason)
        &&& agree_option(self.room_role_priorities, other.room_role_priorities)
        &&& agree_option(self.rooms, other.rooms)
        &&& agree_option(self.import_ids, other.import_ids)
        &&& agree_option(self.invite_token, other.invite_token)
        &&& agree_option(self.free_switch_extension, other.free_switch_extension)
        &&& agree_option(self.can_view_all_info, other.can_view_all_info)
        &&& agree_option(self.provider_id, other.provider_id)
        &&& agree_option(self.abac_attributes, other.abac_attributes)
        &&& agree_option(self.federated, other.federated)
        &&& agree_option(self.federation, other.federation)
    }

    proof fn law_determined(&self, other: &User, j: JsonView) {
        lemma_required(self.id, other.id, slot(j, "_id"@, 0));
        lemma_date(self.updated_at, other.updated_at, slot(j, "_updatedAt"@, 1));
        lemma_date(self.created_at, other.created_at, slot(j, "createdAt"@, 2));
        lemma_optional(self.username, other.username, slot(j, "username"@, 3));
        lemma_optional(self.name, other.name, slot(j, "name"@, 4));
        lemma_optional(self.nickname, other.nickname, slot(j, "nickname"@, 5));
        lemma_optional(self.bio, other.bio, slot(j, "bio"@, 6));
        lemma_optional(self.roles, other.roles, slot(j, "roles"@, 7));
        lemma_optional(self.user_type, other.user_type, slot(j, "type"@, 8));
        lemma_optional(self.active, other.active, slot(j, "active"@, 9));
        lemma_optional(self.inactive_reason, other.inactive_reason, slot(j, "inactiveReason"@, 10));
        lemma_optional(self.status, other.status, slot(j, "status"@, 11));
        lemma_optional(self.status_default, other.status_default, slot(j, "statusDefault"@, 12));
        lemma_optional(self.status_connection, other.status_connection, slot(j, "statusConnection"@, 13));
        lemma_optional(self.status_text, other.status_text, slot(j, "statusText"@, 14));
        lemma_optional(self.status_source, other.status_source, slot(j, "statusSource"@, 15));
        lemma_date(self.status_expires_at, other.status_expires_at, slot(j, "statusExpiresAt"@, 16));
        lemma_optional(self.status_id, other.status_id, slot(j, "statusId"@, 17));
        lemma_date(self.last_login, other.last_login, slot(j, "lastLogin"@, 18));
        lemma_optional(self.emails, other.emails, slot(j, "emails"@, 19));
        lemma_optional(self.avatar_origin, other.avatar_origin, slot(j, "avatarOrigin"@, 20));
        lemma_optional(self.avatar_etag, other.avatar_etag, slot(j, "avatarETag"@, 21));
        lemma_optional(self.avatar_url, other.avatar_url, slot(j, "avatarUrl"@, 22));
        lemma_optional(self.utc_offset, other.utc_offset, slot(j, "utcOffset"@, 23));
        lemma_optional(self.language, other.language, slot(j, "language"@, 24));
        lemma_optional(self.phone, other.phone, slot(j, "phone"@, 25));
        lemma_optional(self.reason, other.reason, slot(j, "reason"@, 26));
        lemma_optional(self.e2e, other.e2e, slot(j, "e2e"@, 27));
        lemma_optional(self.settings, other.settings, slot(j, "settings"@, 28));
        lemma_optional(self.custom_fields, other.custom_fields, slot(j, "customFields"@, 29));
        lemma_optional(self.banners, other.banners, slot(j, "banners"@, 30));
        lemma_optional(self.default_room, other.default_room, slot(j, "defaultRoom"@, 31));
        lemma_optional(self.ldap, other.ldap, slot(j, "ldap"@, 32));
        lemma_optional(self.require_password_change, other.require_password_change, slot(j, "requirePasswordChange"@, 33));
        lemma_optional(self.require_password_change_reason, other.require_password_change_reason, slot(j, "requirePasswordChangeReason"@, 34));
        lemma_optional(self.room_role_priorities, other.room_role_priorities, slot(j, "roomRolePriorities"@, 35));
        lemma_optional(self.rooms, other.rooms, slot(j, "__rooms"@, 36));
        lemma_optional(self.import_ids, other.import_ids, slot(j, "importIds"@, 37));
        lemma_optional(self.invite_token, other.invite_token, slot(j, "inviteToken"@, 38));
        lemma_optional(self.free_switch_extension, other.free_switch_extension, slot(j, "freeSwitchExtension"@, 39));
        lemma_optional(self.can_view_all_info, other.can_view_all_info, slot(j, "canViewAllInfo"@, 40));
        lemma_optional(self.provider_id, other.provider_id, slot(j, "providerId"@, 41));
        lemma_optional(self.abac_attributes, other.abac_attributes, slot(j, "abacAttributes"@, 42));
        lemma_optional(self.federated, other.federated, slot(j, "federated"@, 43));
        lemma_optional(self.federation, other.federation, slot(j, "federation"@, 44));
    }
}

} // verus!
