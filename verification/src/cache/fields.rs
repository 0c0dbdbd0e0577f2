//! What a merge does to each field of each document.
//!
//! **A field absent from the incoming document never overwrites a cached value**, and one that it
//! carries always wins.
use crate::cache::merge::{is_merged, lemma_overlaid_slot, newer, overlaid};
use crate::model::entity::message::Message;
use crate::model::entity::room::Room;
use crate::model::entity::subscription::Subscription;
use crate::model::entity::user::User;
use crate::model::faithful::message::law_message_members;
use crate::model::faithful::room::law_room_members;
use crate::model::faithful::subscription::law_subscription_members;
use crate::model::faithful::user::law_user_members;
use crate::model::faithful::{lemma_date, lemma_optional, lemma_required, opt_doc, RoundTrip};
use crate::model::json::JsonView;
use crate::model::wire::{same_doc, slot, Decode, Encode};
use vstd::prelude::*;
use vstd::string::*;

verus! {

/// Each member of two [`Room`]s laid over each other is what the newer field is written as.
proof fn lemma_room_slots(cached: Room, incoming: Room, both: JsonView)
    requires
        overlaid(cached.doc(), incoming.doc()) == Some(both),
    ensures
        both is Object,
        slot(both, "_id"@, 0) == Some(incoming.id.doc()),
        slot(both, "_updatedAt"@, 1) == Some(incoming.updated_at.doc()),
        slot(both, "t"@, 2) == Some(incoming.t.doc()),
        slot(both, "name"@, 3) == opt_doc(newer(incoming.name, cached.name)),
        slot(both, "fname"@, 4) == opt_doc(newer(incoming.fname, cached.fname)),
        slot(both, "msgs"@, 5) == opt_doc(newer(incoming.msgs, cached.msgs)),
        slot(both, "usersCount"@, 6) == opt_doc(newer(incoming.users_count, cached.users_count)),
        slot(both, "u"@, 7) == opt_doc(newer(incoming.u, cached.u)),
        slot(both, "uids"@, 8) == opt_doc(newer(incoming.uids, cached.uids)),
        slot(both, "usernames"@, 9) == opt_doc(newer(incoming.usernames, cached.usernames)),
        slot(both, "default"@, 10) == opt_doc(newer(incoming.default, cached.default)),
        slot(both, "broadcast"@, 11) == opt_doc(newer(incoming.broadcast, cached.broadcast)),
        slot(both, "featured"@, 12) == opt_doc(newer(incoming.featured, cached.featured)),
        slot(both, "topic"@, 13) == opt_doc(newer(incoming.topic, cached.topic)),
        slot(both, "description"@, 14) == opt_doc(newer(incoming.description, cached.description)),
        slot(both, "announcement"@, 15) == opt_doc(newer(incoming.announcement, cached.announcement)),
        slot(both, "announcementDetails"@, 16) == opt_doc(newer(incoming.announcement_details, cached.announcement_details)),
        slot(both, "joinCodeRequired"@, 17) == opt_doc(newer(incoming.join_code_required, cached.join_code_required)),
        slot(both, "encrypted"@, 18) == opt_doc(newer(incoming.encrypted, cached.encrypted)),
        slot(both, "e2eKeyId"@, 19) == opt_doc(newer(incoming.e2e_key_id, cached.e2e_key_id)),
        slot(both, "usersWaitingForE2EKeys"@, 20) == opt_doc(newer(incoming.users_waiting_for_e2e_keys, cached.users_waiting_for_e2e_keys)),
        slot(both, "ro"@, 21) == opt_doc(newer(incoming.ro, cached.ro)),
        slot(both, "reactWhenReadOnly"@, 22) == opt_doc(newer(incoming.react_when_read_only, cached.react_when_read_only)),
        slot(both, "sysMes"@, 23) == opt_doc(newer(incoming.sys_mes, cached.sys_mes)),
        slot(both, "cl"@, 24) == opt_doc(newer(incoming.cl, cached.cl)),
        slot(both, "archived"@, 25) == opt_doc(newer(incoming.archived, cached.archived)),
        slot(both, "muted"@, 26) == opt_doc(newer(incoming.muted, cached.muted)),
        slot(both, "unmuted"@, 27) == opt_doc(newer(incoming.unmuted, cached.unmuted)),
        slot(both, "lastMessage"@, 28) == opt_doc(newer(incoming.last_message, cached.last_message)),
        slot(both, "lm"@, 29) == opt_doc(newer(incoming.lm, cached.lm)),
        slot(both, "ts"@, 30) == opt_doc(newer(incoming.ts, cached.ts)),
        slot(both, "webRtcCallStartTime"@, 31) == opt_doc(newer(incoming.web_rtc_call_start_time, cached.web_rtc_call_start_time)),
        slot(both, "prid"@, 32) == opt_doc(newer(incoming.prid, cached.prid)),
        slot(both, "avatarETag"@, 33) == opt_doc(newer(incoming.avatar_etag, cached.avatar_etag)),
        slot(both, "teamMain"@, 34) == opt_doc(newer(incoming.team_main, cached.team_main)),
        slot(both, "teamId"@, 35) == opt_doc(newer(incoming.team_id, cached.team_id)),
        slot(both, "teamDefault"@, 36) == opt_doc(newer(incoming.team_default, cached.team_default)),
        slot(both, "open"@, 37) == opt_doc(newer(incoming.open, cached.open)),
        slot(both, "unread"@, 38) == opt_doc(newer(incoming.unread, cached.unread)),
        slot(both, "alert"@, 39) == opt_doc(newer(incoming.alert, cached.alert)),
        slot(both, "favorite"@, 40) == opt_doc(newer(incoming.favorite, cached.favorite)),
        slot(both, "hideUnreadStatus"@, 41) == opt_doc(newer(incoming.hide_unread_status, cached.hide_unread_status)),
        slot(both, "hideMentionStatus"@, 42) == opt_doc(newer(incoming.hide_mention_status, cached.hide_mention_status)),
        slot(both, "autoTranslate"@, 43) == opt_doc(newer(incoming.auto_translate, cached.auto_translate)),
        slot(both, "autoTranslateLanguage"@, 44) == opt_doc(newer(incoming.auto_translate_language, cached.auto_translate_language)),
        slot(both, "retention"@, 45) == opt_doc(newer(incoming.retention, cached.retention)),
        slot(both, "abacAttributes"@, 46) == opt_doc(newer(incoming.abac_attributes, cached.abac_attributes)),
        slot(both, "rolePrioritiesCreated"@, 47) == opt_doc(newer(incoming.role_priorities_created, cached.role_priorities_created)),
        slot(both, "customFields"@, 48) == opt_doc(newer(incoming.custom_fields, cached.custom_fields)),
        slot(both, "federated"@, 49) == opt_doc(newer(incoming.federated, cached.federated)),
        slot(both, "federation"@, 50) == opt_doc(newer(incoming.federation, cached.federation)),
        slot(both, "v"@, 51) == opt_doc(newer(incoming.v, cached.v)),
        slot(both, "source"@, 52) == opt_doc(newer(incoming.source, cached.source)),
        slot(both, "servedBy"@, 53) == opt_doc(newer(incoming.served_by, cached.served_by)),
        slot(both, "departmentId"@, 54) == opt_doc(newer(incoming.department_id, cached.department_id)),
        slot(both, "onHold"@, 55) == opt_doc(newer(incoming.on_hold, cached.on_hold)),
        slot(both, "waitingResponse"@, 56) == opt_doc(newer(incoming.waiting_response, cached.waiting_response)),
        slot(both, "queuedAt"@, 57) == opt_doc(newer(incoming.queued_at, cached.queued_at)),
        slot(both, "tags"@, 58) == opt_doc(newer(incoming.tags, cached.tags)),
        slot(both, "livechatData"@, 59) == opt_doc(newer(incoming.livechat_data, cached.livechat_data)),
        slot(both, "metrics"@, 60) == opt_doc(newer(incoming.metrics, cached.metrics)),
        slot(both, "transcriptRequest"@, 61) == opt_doc(newer(incoming.transcript_request, cached.transcript_request)),
        slot(both, "priorityId"@, 62) == opt_doc(newer(incoming.priority_id, cached.priority_id)),
        slot(both, "priorityWeight"@, 63) == opt_doc(newer(incoming.priority_weight, cached.priority_weight)),
        slot(both, "slaId"@, 64) == opt_doc(newer(incoming.sla_id, cached.sla_id)),
        slot(both, "estimatedWaitingTimeQueue"@, 65) == opt_doc(newer(incoming.estimated_waiting_time_queue, cached.estimated_waiting_time_queue)),
        slot(both, "contactId"@, 66) == opt_doc(newer(incoming.contact_id, cached.contact_id)),
        slot(both, "verified"@, 67) == opt_doc(newer(incoming.verified, cached.verified)),
        slot(both, "sms"@, 68) == opt_doc(newer(incoming.sms, cached.sms)),
        slot(both, "code"@, 69) == opt_doc(newer(incoming.code, cached.code)),
        slot(both, "label"@, 70) == opt_doc(newer(incoming.label, cached.label)),
        slot(both, "sentiment"@, 71) == opt_doc(newer(incoming.sentiment, cached.sentiment)),
{
    law_room_members(cached);
    law_room_members(incoming);
    lemma_overlaid_slot(cached.doc(), incoming.doc(), both, "_id"@, 0);
    lemma_overlaid_slot(cached.doc(), incoming.doc(), both, "_updatedAt"@, 1);
    lemma_overlaid_slot(cached.doc(), incoming.doc(), both, "t"@, 2);
    lemma_overlaid_slot(cached.doc(), incoming.doc(), both, "name"@, 3);
    lemma_overlaid_slot(cached.doc(), incoming.doc(), both, "fname"@, 4);
    lemma_overlaid_slot(cached.doc(), incoming.doc(), both, "msgs"@, 5);
    lemma_overlaid_slot(cached.doc(), incoming.doc(), both, "usersCount"@, 6);
    lemma_overlaid_slot(cached.doc(), incoming.doc(), both, "u"@, 7);
    lemma_overlaid_slot(cached.doc(), incoming.doc(), both, "uids"@, 8);
    lemma_overlaid_slot(cached.doc(), incoming.doc(), both, "usernames"@, 9);
    lemma_overlaid_slot(cached.doc(), incoming.doc(), both, "default"@, 10);
    lemma_overlaid_slot(cached.doc(), incoming.doc(), both, "broadcast"@, 11);
    lemma_overlaid_slot(cached.doc(), incoming.doc(), both, "featured"@, 12);
    lemma_overlaid_slot(cached.doc(), incoming.doc(), both, "topic"@, 13);
    lemma_overlaid_slot(cached.doc(), incoming.doc(), both, "description"@, 14);
    lemma_overlaid_slot(cached.doc(), incoming.doc(), both, "announcement"@, 15);
    lemma_overlaid_slot(cached.doc(), incoming.doc(), both, "announcementDetails"@, 16);
    lemma_overlaid_slot(cached.doc(), incoming.doc(), both, "joinCodeRequired"@, 17);
    lemma_overlaid_slot(cached.doc(), incoming.doc(), both, "encrypted"@, 18);
    lemma_overlaid_slot(cached.doc(), incoming.doc(), both, "e2eKeyId"@, 19);
    lemma_overlaid_slot(cached.doc(), incoming.doc(), both, "usersWaitingForE2EKeys"@, 20);
    lemma_overlaid_slot(cached.doc(), incoming.doc(), both, "ro"@, 21);
    lemma_overlaid_slot(cached.doc(), incoming.doc(), both, "reactWhenReadOnly"@, 22);
    lemma_overlaid_slot(cached.doc(), incoming.doc(), both, "sysMes"@, 23);
    lemma_overlaid_slot(cached.doc(), incoming.doc(), both, "cl"@, 24);
    lemma_overlaid_slot(cached.doc(), incoming.doc(), both, "archived"@, 25);
    lemma_overlaid_slot(cached.doc(), incoming.doc(), both, "muted"@, 26);
    lemma_overlaid_slot(cached.doc(), incoming.doc(), both, "unmuted"@, 27);
    lemma_overlaid_slot(cached.doc(), incoming.doc(), both, "lastMessage"@, 28);
    lemma_overlaid_slot(cached.doc(), incoming.doc(), both, "lm"@, 29);
    lemma_overlaid_slot(cached.doc(), incoming.doc(), both, "ts"@, 30);
    lemma_overlaid_slot(cached.doc(), incoming.doc(), both, "webRtcCallStartTime"@, 31);
    lemma_overlaid_slot(cached.doc(), incoming.doc(), both, "prid"@, 32);
    lemma_overlaid_slot(cached.doc(), incoming.doc(), both, "avatarETag"@, 33);
    lemma_overlaid_slot(cached.doc(), incoming.doc(), both, "teamMain"@, 34);
    lemma_overlaid_slot(cached.doc(), incoming.doc(), both, "teamId"@, 35);
    lemma_overlaid_slot(cached.doc(), incoming.doc(), both, "teamDefault"@, 36);
    lemma_overlaid_slot(cached.doc(), incoming.doc(), both, "open"@, 37);
    lemma_overlaid_slot(cached.doc(), incoming.doc(), both, "unread"@, 38);
    lemma_overlaid_slot(cached.doc(), incoming.doc(), both, "alert"@, 39);
    lemma_overlaid_slot(cached.doc(), incoming.doc(), both, "favorite"@, 40);
    lemma_overlaid_slot(cached.doc(), incoming.doc(), both, "hideUnreadStatus"@, 41);
    lemma_overlaid_slot(cached.doc(), incoming.doc(), both, "hideMentionStatus"@, 42);
    lemma_overlaid_slot(cached.doc(), incoming.doc(), both, "autoTranslate"@, 43);
    lemma_overlaid_slot(cached.doc(), incoming.doc(), both, "autoTranslateLanguage"@, 44);
    lemma_overlaid_slot(cached.doc(), incoming.doc(), both, "retention"@, 45);
    lemma_overlaid_slot(cached.doc(), incoming.doc(), both, "abacAttributes"@, 46);
    lemma_overlaid_slot(cached.doc(), incoming.doc(), both, "rolePrioritiesCreated"@, 47);
    lemma_overlaid_slot(cached.doc(), incoming.doc(), both, "customFields"@, 48);
    lemma_overlaid_slot(cached.doc(), incoming.doc(), both, "federated"@, 49);
    lemma_overlaid_slot(cached.doc(), incoming.doc(), both, "federation"@, 50);
    lemma_overlaid_slot(cached.doc(), incoming.doc(), both, "v"@, 51);
    lemma_overlaid_slot(cached.doc(), incoming.doc(), both, "source"@, 52);
    lemma_overlaid_slot(cached.doc(), incoming.doc(), both, "servedBy"@, 53);
    lemma_overlaid_slot(cached.doc(), incoming.doc(), both, "departmentId"@, 54);
    lemma_overlaid_slot(cached.doc(), incoming.doc(), both, "onHold"@, 55);
    lemma_overlaid_slot(cached.doc(), incoming.doc(), both, "waitingResponse"@, 56);
    lemma_overlaid_slot(cached.doc(), incoming.doc(), both, "queuedAt"@, 57);
    lemma_overlaid_slot(cached.doc(), incoming.doc(), both, "tags"@, 58);
    lemma_overlaid_slot(cached.doc(), incoming.doc(), both, "livechatData"@, 59);
    lemma_overlaid_slot(cached.doc(), incoming.doc(), both, "metrics"@, 60);
    lemma_overlaid_slot(cached.doc(), incoming.doc(), both, "transcriptRequest"@, 61);
    lemma_overlaid_slot(cached.doc(), incoming.doc(), both, "priorityId"@, 62);
    lemma_overlaid_slot(cached.doc(), incoming.doc(), both, "priorityWeight"@, 63);
    lemma_overlaid_slot(cached.doc(), incoming.doc(), both, "slaId"@, 64);
    lemma_overlaid_slot(cached.doc(), incoming.doc(), both, "estimatedWaitingTimeQueue"@, 65);
    lemma_overlaid_slot(cached.doc(), incoming.doc(), both, "contactId"@, 66);
    lemma_overlaid_slot(cached.doc(), incoming.doc(), both, "verified"@, 67);
    lemma_overlaid_slot(cached.doc(), incoming.doc(), both, "sms"@, 68);
    lemma_overlaid_slot(cached.doc(), incoming.doc(), both, "code"@, 69);
    lemma_overlaid_slot(cached.doc(), incoming.doc(), both, "label"@, 70);
    lemma_overlaid_slot(cached.doc(), incoming.doc(), both, "sentiment"@, 71);
}

/// Two [`Room`]s laid over each other can be read.
proof fn lemma_room_readable(cached: Room, incoming: Room, both: JsonView)
    requires
        cached.writable(),
        incoming.writable(),
        overlaid(cached.doc(), incoming.doc()) == Some(both),
    ensures
        Room::accepts(both),
{
    lemma_room_slots(cached, incoming, both);
    lemma_required(incoming.id, incoming.id);
    lemma_required(incoming.updated_at, incoming.updated_at);
    lemma_required(incoming.t, incoming.t);
    lemma_optional(newer(incoming.name, cached.name), incoming.name);
    lemma_optional(newer(incoming.fname, cached.fname), incoming.fname);
    lemma_optional(newer(incoming.msgs, cached.msgs), incoming.msgs);
    lemma_optional(newer(incoming.users_count, cached.users_count), incoming.users_count);
    lemma_optional(newer(incoming.u, cached.u), incoming.u);
    lemma_optional(newer(incoming.uids, cached.uids), incoming.uids);
    lemma_optional(newer(incoming.usernames, cached.usernames), incoming.usernames);
    lemma_optional(newer(incoming.default, cached.default), incoming.default);
    lemma_optional(newer(incoming.broadcast, cached.broadcast), incoming.broadcast);
    lemma_optional(newer(incoming.featured, cached.featured), incoming.featured);
    lemma_optional(newer(incoming.topic, cached.topic), incoming.topic);
    lemma_optional(newer(incoming.description, cached.description), incoming.description);
    lemma_optional(newer(incoming.announcement, cached.announcement), incoming.announcement);
    lemma_optional(newer(incoming.announcement_details, cached.announcement_details), incoming.announcement_details);
    lemma_optional(newer(incoming.join_code_required, cached.join_code_required), incoming.join_code_required);
    lemma_optional(newer(incoming.encrypted, cached.encrypted), incoming.encrypted);
    lemma_optional(newer(incoming.e2e_key_id, cached.e2e_key_id), incoming.e2e_key_id);
    lemma_optional(newer(incoming.users_waiting_for_e2e_keys, cached.users_waiting_for_e2e_keys), incoming.users_waiting_for_e2e_keys);
    lemma_optional(newer(incoming.ro, cached.ro), incoming.ro);
    lemma_optional(newer(incoming.react_when_read_only, cached.react_when_read_only), incoming.react_when_read_only);
    lemma_optional(newer(incoming.sys_mes, cached.sys_mes), incoming.sys_mes);
    lemma_optional(newer(incoming.cl, cached.cl), incoming.cl);
    lemma_optional(newer(incoming.archived, cached.archived), incoming.archived);
    lemma_optional(newer(incoming.muted, cached.muted), incoming.muted);
    lemma_optional(newer(incoming.unmuted, cached.unmuted), incoming.unmuted);
    lemma_optional(newer(incoming.last_message, cached.last_message), incoming.last_message);
    lemma_date(newer(incoming.lm, cached.lm), incoming.lm);
    lemma_date(newer(incoming.ts, cached.ts), incoming.ts);
    lemma_date(newer(incoming.web_rtc_call_start_time, cached.web_rtc_call_start_time), incoming.web_rtc_call_start_time);
    lemma_optional(newer(incoming.prid, cached.prid), incoming.prid);
    lemma_optional(newer(incoming.avatar_etag, cached.avatar_etag), incoming.avatar_etag);
    lemma_optional(newer(incoming.team_main, cached.team_main), incoming.team_main);
    lemma_optional(newer(incoming.team_id, cached.team_id), incoming.team_id);
    lemma_optional(newer(incoming.team_default, cached.team_default), incoming.team_default);
    lemma_optional(newer(incoming.open, cached.open), incoming.open);
    lemma_optional(newer(incoming.unread, cached.unread), incoming.unread);
    lemma_optional(newer(incoming.alert, cached.alert), incoming.alert);
    lemma_optional(newer(incoming.favorite, cached.favorite), incoming.favorite);
    lemma_optional(newer(incoming.hide_unread_status, cached.hide_unread_status), incoming.hide_unread_status);
    lemma_optional(newer(incoming.hide_mention_status, cached.hide_mention_status), incoming.hide_mention_status);
    lemma_optional(newer(incoming.auto_translate, cached.auto_translate), incoming.auto_translate);
    lemma_optional(newer(incoming.auto_translate_language, cached.auto_translate_language), incoming.auto_translate_language);
    lemma_optional(newer(incoming.retention, cached.retention), incoming.retention);
    lemma_optional(newer(incoming.abac_attributes, cached.abac_attributes), incoming.abac_attributes);
    lemma_optional(newer(incoming.role_priorities_created, cached.role_priorities_created), incoming.role_priorities_created);
    lemma_optional(newer(incoming.custom_fields, cached.custom_fields), incoming.custom_fields);
    lemma_optional(newer(incoming.federated, cached.federated), incoming.federated);
    lemma_optional(newer(incoming.federation, cached.federation), incoming.federation);
    lemma_optional(newer(incoming.v, cached.v), incoming.v);
    lemma_optional(newer(incoming.source, cached.source), incoming.source);
    lemma_optional(newer(incoming.served_by, cached.served_by), incoming.served_by);
    lemma_optional(newer(incoming.department_id, cached.department_id), incoming.department_id);
    lemma_optional(newer(incoming.on_hold, cached.on_hold), incoming.on_hold);
    lemma_optional(newer(incoming.waiting_response, cached.waiting_response), incoming.waiting_response);
    lemma_date(newer(incoming.queued_at, cached.queued_at), incoming.queued_at);
    lemma_optional(newer(incoming.tags, cached.tags), incoming.tags);
    lemma_optional(newer(incoming.livechat_data, cached.livechat_data), incoming.livechat_data);
    lemma_optional(newer(incoming.metrics, cached.metrics), incoming.metrics);
    lemma_optional(newer(incoming.transcript_request, cached.transcript_request), incoming.transcript_request);
    lemma_optional(newer(incoming.priority_id, cached.priority_id), incoming.priority_id);
    lemma_optional(newer(incoming.priority_weight, cached.priority_weight), incoming.priority_weight);
    lemma_optional(newer(incoming.sla_id, cached.sla_id), incoming.sla_id);
    lemma_optional(newer(incoming.estimated_waiting_time_queue, cached.estimated_waiting_time_queue), incoming.estimated_waiting_time_queue);
    lemma_optional(newer(incoming.contact_id, cached.contact_id), incoming.contact_id);
    lemma_optional(newer(incoming.verified, cached.verified), incoming.verified);
    lemma_optional(newer(incoming.sms, cached.sms), incoming.sms);
    lemma_optional(newer(incoming.code, cached.code), incoming.code);
    lemma_optional(newer(incoming.label, cached.label), incoming.label);
    lemma_optional(newer(incoming.sentiment, cached.sentiment), incoming.sentiment);
}

/// Merging a [`Room`] keeps every cached field that the incoming one lacks, and takes every field
/// that it carries.
pub proof fn law_room_merge(cached: Room, incoming: Room, r: Room)
    requires
        cached.writable(),
        incoming.writable(),
        is_merged(cached, incoming, r),
    ensures
        r.id.doc() == incoming.id.doc(),
        r.updated_at.doc() == incoming.updated_at.doc(),
        r.t.doc() == incoming.t.doc(),
        same_doc(r.name, newer(incoming.name, cached.name)),
        same_doc(r.fname, newer(incoming.fname, cached.fname)),
        same_doc(r.msgs, newer(incoming.msgs, cached.msgs)),
        same_doc(r.users_count, newer(incoming.users_count, cached.users_count)),
        same_doc(r.u, newer(incoming.u, cached.u)),
        same_doc(r.uids, newer(incoming.uids, cached.uids)),
        same_doc(r.usernames, newer(incoming.usernames, cached.usernames)),
        same_doc(r.default, newer(incoming.default, cached.default)),
        same_doc(r.broadcast, newer(incoming.broadcast, cached.broadcast)),
        same_doc(r.featured, newer(incoming.featured, cached.featured)),
        same_doc(r.topic, newer(incoming.topic, cached.topic)),
        same_doc(r.description, newer(incoming.description, cached.description)),
        same_doc(r.announcement, newer(incoming.announcement, cached.announcement)),
        same_doc(r.announcement_details, newer(incoming.announcement_details, cached.announcement_details)),
        same_doc(r.join_code_required, newer(incoming.join_code_required, cached.join_code_required)),
        same_doc(r.encrypted, newer(incoming.encrypted, cached.encrypted)),
        same_doc(r.e2e_key_id, newer(incoming.e2e_key_id, cached.e2e_key_id)),
        same_doc(r.users_waiting_for_e2e_keys, newer(incoming.users_waiting_for_e2e_keys, cached.users_waiting_for_e2e_keys)),
        same_doc(r.ro, newer(incoming.ro, cached.ro)),
        same_doc(r.react_when_read_only, newer(incoming.react_when_read_only, cached.react_when_read_only)),
        same_doc(r.sys_mes, newer(incoming.sys_mes, cached.sys_mes)),
        same_doc(r.cl, newer(incoming.cl, cached.cl)),
        same_doc(r.archived, newer(incoming.archived, cached.archived)),
        same_doc(r.muted, newer(incoming.muted, cached.muted)),
        same_doc(r.unmuted, newer(incoming.unmuted, cached.unmuted)),
        same_doc(r.last_message, newer(incoming.last_message, cached.last_message)),
        same_doc(r.lm, newer(incoming.lm, cached.lm)),
        same_doc(r.ts, newer(incoming.ts, cached.ts)),
        same_doc(r.web_rtc_call_start_time, newer(incoming.web_rtc_call_start_time, cached.web_rtc_call_start_time)),
        same_doc(r.prid, newer(incoming.prid, cached.prid)),
        same_doc(r.avatar_etag, newer(incoming.avatar_etag, cached.avatar_etag)),
        same_doc(r.team_main, newer(incoming.team_main, cached.team_main)),
        same_doc(r.team_id, newer(incoming.team_id, cached.team_id)),
        same_doc(r.team_default, newer(incoming.team_default, cached.team_default)),
        same_doc(r.open, newer(incoming.open, cached.open)),
        same_doc(r.unread, newer(incoming.unread, cached.unread)),
        same_doc(r.alert, newer(incoming.alert, cached.alert)),
        same_doc(r.favorite, newer(incoming.favorite, cached.favorite)),
        same_doc(r.hide_unread_status, newer(incoming.hide_unread_status, cached.hide_unread_status)),
        same_doc(r.hide_mention_status, newer(incoming.hide_mention_status, cached.hide_mention_status)),
        same_doc(r.auto_translate, newer(incoming.auto_translate, cached.auto_translate)),
        same_doc(r.auto_translate_language, newer(incoming.auto_translate_language, cached.auto_translate_language)),
        same_doc(r.retention, newer(incoming.retention, cached.retention)),
        same_doc(r.abac_attributes, newer(incoming.abac_attributes, cached.abac_attributes)),
        same_doc(r.role_priorities_created, newer(incoming.role_priorities_created, cached.role_priorities_created)),
        same_doc(r.custom_fields, newer(incoming.custom_fields, cached.custom_fields)),
        same_doc(r.federated, newer(incoming.federated, cached.federated)),
        same_doc(r.federation, newer(incoming.federation, cached.federation)),
        same_doc(r.v, newer(incoming.v, cached.v)),
        same_doc(r.source, newer(incoming.source, cached.source)),
        same_doc(r.served_by, newer(incoming.served_by, cached.served_by)),
        same_doc(r.department_id, newer(incoming.department_id, cached.department_id)),
        same_doc(r.on_hold, newer(incoming.on_hold, cached.on_hold)),
        same_doc(r.waiting_response, newer(incoming.waiting_response, cached.waiting_response)),
        same_doc(r.queued_at, newer(incoming.queued_at, cached.queued_at)),
        same_doc(r.tags, newer(incoming.tags, cached.tags)),
        same_doc(r.livechat_data, newer(incoming.livechat_data, cached.livechat_data)),
        same_doc(r.metrics, newer(incoming.metrics, cached.metrics)),
        same_doc(r.transcript_request, newer(incoming.transcript_request, cached.transcript_request)),
        same_doc(r.priority_id, newer(incoming.priority_id, cached.priority_id)),
        same_doc(r.priority_weight, newer(incoming.priority_weight, cached.priority_weight)),
        same_doc(r.sla_id, newer(incoming.sla_id, cached.sla_id)),
        same_doc(r.estimated_waiting_time_queue, newer(incoming.estimated_waiting_time_queue, cached.estimated_waiting_time_queue)),
        same_doc(r.contact_id, newer(incoming.contact_id, cached.contact_id)),
        same_doc(r.verified, newer(incoming.verified, cached.verified)),
        same_doc(r.sms, newer(incoming.sms, cached.sms)),
        same_doc(r.code, newer(incoming.code, cached.code)),
        same_doc(r.label, newer(incoming.label, cached.label)),
        same_doc(r.sentiment, newer(incoming.sentiment, cached.sentiment)),
{
    let both = overlaid(cached.doc(), incoming.doc())->0;
    lemma_room_readable(cached, incoming, both);
    lemma_room_slots(cached, incoming, both);
    lemma_required(incoming.id, r.id);
    lemma_required(incoming.updated_at, r.updated_at);
    lemma_required(incoming.t, r.t);
    lemma_optional(newer(incoming.name, cached.name), r.name);
    lemma_optional(newer(incoming.fname, cached.fname), r.fname);
    lemma_optional(newer(incoming.msgs, cached.msgs), r.msgs);
    lemma_optional(newer(incoming.users_count, cached.users_count), r.users_count);
    lemma_optional(newer(incoming.u, cached.u), r.u);
    lemma_optional(newer(incoming.uids, cached.uids), r.uids);
    lemma_optional(newer(incoming.usernames, cached.usernames), r.usernames);
    lemma_optional(newer(incoming.default, cached.default), r.default);
    lemma_optional(newer(incoming.broadcast, cached.broadcast), r.broadcast);
    lemma_optional(newer(incoming.featured, cached.featured), r.featured);
    lemma_optional(newer(incoming.topic, cached.topic), r.topic);
    lemma_optional(newer(incoming.description, cached.description), r.description);
    lemma_optional(newer(incoming.announcement, cached.announcement), r.announcement);
    lemma_optional(newer(incoming.announcement_details, cached.announcement_details), r.announcement_details);
    lemma_optional(newer(incoming.join_code_required, cached.join_code_required), r.join_code_required);
    lemma_optional(newer(incoming.encrypted, cached.encrypted), r.encrypted);
    lemma_optional(newer(incoming.e2e_key_id, cached.e2e_key_id), r.e2e_key_id);
    lemma_optional(newer(incoming.users_waiting_for_e2e_keys, cached.users_waiting_for_e2e_keys), r.users_waiting_for_e2e_keys);
    lemma_optional(newer(incoming.ro, cached.ro), r.ro);
    lemma_optional(newer(incoming.react_when_read_only, cached.react_when_read_only), r.react_when_read_only);
    lemma_optional(newer(incoming.sys_mes, cached.sys_mes), r.sys_mes);
    lemma_optional(newer(incoming.cl, cached.cl), r.cl);
    lemma_optional(newer(incoming.archived, cached.archived), r.archived);
    lemma_optional(newer(incoming.muted, cached.muted), r.muted);
    lemma_optional(newer(incoming.unmuted, cached.unmuted), r.unmuted);
    lemma_optional(newer(incoming.last_message, cached.last_message), r.last_message);
    lemma_date(newer(incoming.lm, cached.lm), r.lm);
    lemma_date(newer(incoming.ts, cached.ts), r.ts);
    lemma_date(newer(incoming.web_rtc_call_start_time, cached.web_rtc_call_start_time), r.web_rtc_call_start_time);
    lemma_optional(newer(incoming.prid, cached.prid), r.prid);
    lemma_optional(newer(incoming.avatar_etag, cached.avatar_etag), r.avatar_etag);
    lemma_optional(newer(incoming.team_main, cached.team_main), r.team_main);
    lemma_optional(newer(incoming.team_id, cached.team_id), r.team_id);
    lemma_optional(newer(incoming.team_default, cached.team_default), r.team_default);
    lemma_optional(newer(incoming.open, cached.open), r.open);
    lemma_optional(newer(incoming.unread, cached.unread), r.unread);
    lemma_optional(newer(incoming.alert, cached.alert), r.alert);
    lemma_optional(newer(incoming.favorite, cached.favorite), r.favorite);
    lemma_optional(newer(incoming.hide_unread_status, cached.hide_unread_status), r.hide_unread_status);
    lemma_optional(newer(incoming.hide_mention_status, cached.hide_mention_status), r.hide_mention_status);
    lemma_optional(newer(incoming.auto_translate, cached.auto_translate), r.auto_translate);
    lemma_optional(newer(incoming.auto_translate_language, cached.auto_translate_language), r.auto_translate_language);
    lemma_optional(newer(incoming.retention, cached.retention), r.retention);
    lemma_optional(newer(incoming.abac_attributes, cached.abac_attributes), r.abac_attributes);
    lemma_optional(newer(incoming.role_priorities_created, cached.role_priorities_created), r.role_priorities_created);
    lemma_optional(newer(incoming.custom_fields, cached.custom_fields), r.custom_fields);
    lemma_optional(newer(incoming.federated, cached.federated), r.federated);
    lemma_optional(newer(incoming.federation, cached.federation), r.federation);
    lemma_optional(newer(incoming.v, cached.v), r.v);
    lemma_optional(newer(incoming.source, cached.source), r.source);
    lemma_optional(newer(incoming.served_by, cached.served_by), r.served_by);
    lemma_optional(newer(incoming.department_id, cached.department_id), r.department_id);
    lemma_optional(newer(incoming.on_hold, cached.on_hold), r.on_hold);
    lemma_optional(newer(incoming.waiting_response, cached.waiting_response), r.waiting_response);
    lemma_date(newer(incoming.queued_at, cached.queued_at), r.queued_at);
    lemma_optional(newer(incoming.tags, cached.tags), r.tags);
    lemma_optional(newer(incoming.livechat_data, cached.livechat_data), r.livechat_data);
    lemma_optional(newer(incoming.metrics, cached.metrics), r.metrics);
    lemma_optional(newer(incoming.transcript_request, cached.transcript_request), r.transcript_request);
    lemma_optional(newer(incoming.priority_id, cached.priority_id), r.priority_id);
    lemma_optional(newer(incoming.priority_weight, cached.priority_weight), r.priority_weight);
    lemma_optional(newer(incoming.sla_id, cached.sla_id), r.sla_id);
    lemma_optional(newer(incoming.estimated_waiting_time_queue, cached.estimated_waiting_time_queue), r.estimated_waiting_time_queue);
    lemma_optional(newer(incoming.contact_id, cached.contact_id), r.contact_id);
    lemma_optional(newer(incoming.verified, cached.verified), r.verified);
    lemma_optional(newer(incoming.sms, cached.sms), r.sms);
    lemma_optional(newer(incoming.code, cached.code), r.code);
    lemma_optional(newer(incoming.label, cached.label), r.label);
    lemma_optional(newer(incoming.sentiment, cached.sentiment), r.sentiment);
}

/// Each member of two [`Message`]s laid over each other is what the newer field is written as.
proof fn lemma_message_slots(cached: Message, incoming: Message, both: JsonView)
    requires
        overlaid(cached.doc(), incoming.doc()) == Some(both),
    ensures
        both is Object,
        slot(both, "_id"@, 0) == Some(incoming.id.doc()),
        slot(both, "_updatedAt"@, 1) == Some(incoming.updated_at.doc()),
        slot(both, "rid"@, 2) == Some(incoming.rid.doc()),
        slot(both, "msg"@, 3) == Some(incoming.msg.doc()),
        slot(both, "ts"@, 4) == Some(incoming.ts.doc()),
        slot(both, "u"@, 5) == Some(incoming.u.doc()),
        slot(both, "t"@, 6) == opt_doc(newer(incoming.t, cached.t)),
        slot(both, "editedAt"@, 7) == opt_doc(newer(incoming.edited_at, cached.edited_at)),
        slot(both, "editedBy"@, 8) == opt_doc(newer(incoming.edited_by, cached.edited_by)),
        slot(both, "attachments"@, 9) == opt_doc(newer(incoming.attachments, cached.attachments)),
        slot(both, "mentions"@, 10) == opt_doc(newer(incoming.mentions, cached.mentions)),
        slot(both, "channels"@, 11) == opt_doc(newer(incoming.channels, cached.channels)),
        slot(both, "md"@, 12) == opt_doc(newer(incoming.md, cached.md)),
        slot(both, "blocks"@, 13) == opt_doc(newer(incoming.blocks, cached.blocks)),
        slot(both, "urls"@, 14) == opt_doc(newer(incoming.urls, cached.urls)),
        slot(both, "reactions"@, 15) == opt_doc(newer(incoming.reactions, cached.reactions)),
        slot(both, "file"@, 16) == opt_doc(newer(incoming.file, cached.file)),
        slot(both, "files"@, 17) == opt_doc(newer(incoming.files, cached.files)),
        slot(both, "tmid"@, 18) == opt_doc(newer(incoming.tmid, cached.tmid)),
        slot(both, "tshow"@, 19) == opt_doc(newer(incoming.tshow, cached.tshow)),
        slot(both, "tcount"@, 20) == opt_doc(newer(incoming.tcount, cached.tcount)),
        slot(both, "tlm"@, 21) == opt_doc(newer(incoming.tlm, cached.tlm)),
        slot(both, "replies"@, 22) == opt_doc(newer(incoming.replies, cached.replies)),
        slot(both, "drid"@, 23) == opt_doc(newer(incoming.drid, cached.drid)),
        slot(both, "dcount"@, 24) == opt_doc(newer(incoming.dcount, cached.dcount)),
        slot(both, "dlm"@, 25) == opt_doc(newer(incoming.dlm, cached.dlm)),
        slot(both, "groupable"@, 26) == opt_doc(newer(incoming.groupable, cached.groupable)),
        slot(both, "parseUrls"@, 27) == opt_doc(newer(incoming.parse_urls, cached.parse_urls)),
        slot(both, "unread"@, 28) == opt_doc(newer(incoming.unread, cached.unread)),
        slot(both, "pinned"@, 29) == opt_doc(newer(incoming.pinned, cached.pinned)),
        slot(both, "pinnedAt"@, 30) == opt_doc(newer(incoming.pinned_at, cached.pinned_at)),
        slot(both, "pinnedBy"@, 31) == opt_doc(newer(incoming.pinned_by, cached.pinned_by)),
        slot(both, "starred"@, 32) == opt_doc(newer(incoming.starred, cached.starred)),
        slot(both, "private"@, 33) == opt_doc(newer(incoming.private, cached.private)),
        slot(both, "temp"@, 34) == opt_doc(newer(incoming.temp, cached.temp)),
        slot(both, "_hidden"@, 35) == opt_doc(newer(incoming.hidden, cached.hidden)),
        slot(both, "imported"@, 36) == opt_doc(newer(incoming.imported, cached.imported)),
        slot(both, "e2e"@, 37) == opt_doc(newer(incoming.e2e, cached.e2e)),
        slot(both, "alias"@, 38) == opt_doc(newer(incoming.alias, cached.alias)),
        slot(both, "avatar"@, 39) == opt_doc(newer(incoming.avatar, cached.avatar)),
        slot(both, "emoji"@, 40) == opt_doc(newer(incoming.emoji, cached.emoji)),
        slot(both, "role"@, 41) == opt_doc(newer(incoming.role, cached.role)),
        slot(both, "bot"@, 42) == opt_doc(newer(incoming.bot, cached.bot)),
        slot(both, "token"@, 43) == opt_doc(newer(incoming.token, cached.token)),
        slot(both, "customFields"@, 44) == opt_doc(newer(incoming.custom_fields, cached.custom_fields)),
{
    law_message_members(cached);
    law_message_members(incoming);
    lemma_overlaid_slot(cached.doc(), incoming.doc(), both, "_id"@, 0);
    lemma_overlaid_slot(cached.doc(), incoming.doc(), both, "_updatedAt"@, 1);
    lemma_overlaid_slot(cached.doc(), incoming.doc(), both, "rid"@, 2);
    lemma_overlaid_slot(cached.doc(), incoming.doc(), both, "msg"@, 3);
    lemma_overlaid_slot(cached.doc(), incoming.doc(), both, "ts"@, 4);
    lemma_overlaid_slot(cached.doc(), incoming.doc(), both, "u"@, 5);
    lemma_overlaid_slot(cached.doc(), incoming.doc(), both, "t"@, 6);
    lemma_overlaid_slot(cached.doc(), incoming.doc(), both, "editedAt"@, 7);
    lemma_overlaid_slot(cached.doc(), incoming.doc(), both, "editedBy"@, 8);
    lemma_overlaid_slot(cached.doc(), incoming.doc(), both, "attachments"@, 9);
    lemma_overlaid_slot(cached.doc(), incoming.doc(), both, "mentions"@, 10);
    lemma_overlaid_slot(cached.doc(), incoming.doc(), both, "channels"@, 11);
    lemma_overlaid_slot(cached.doc(), incoming.doc(), both, "md"@, 12);
    lemma_overlaid_slot(cached.doc(), incoming.doc(), both, "blocks"@, 13);
    lemma_overlaid_slot(cached.doc(), incoming.doc(), both, "urls"@, 14);
    lemma_overlaid_slot(cached.doc(), incoming.doc(), both, "reactions"@, 15);
    lemma_overlaid_slot(cached.doc(), incoming.doc(), both, "file"@, 16);
    lemma_overlaid_slot(cached.doc(), incoming.doc(), both, "files"@, 17);
    lemma_overlaid_slot(cached.doc(), incoming.doc(), both, "tmid"@, 18);
    lemma_overlaid_slot(cached.doc(), incoming.doc(), both, "tshow"@, 19);
    lemma_overlaid_slot(cached.doc(), incoming.doc(), both, "tcount"@, 20);
    lemma_overlaid_slot(cached.doc(), incoming.doc(), both, "tlm"@, 21);
    lemma_overlaid_slot(cached.doc(), incoming.doc(), both, "replies"@, 22);
    lemma_overlaid_slot(cached.doc(), incoming.doc(), both, "drid"@, 23);
    lemma_overlaid_slot(cached.doc(), incoming.doc(), both, "dcount"@, 24);
    lemma_overlaid_slot(cached.doc(), incoming.doc(), both, "dlm"@, 25);
    lemma_overlaid_slot(cached.doc(), incoming.doc(), both, "groupable"@, 26);
    lemma_overlaid_slot(cached.doc(), incoming.doc(), both, "parseUrls"@, 27);
    lemma_overlaid_slot(cached.doc(), incoming.doc(), both, "unread"@, 28);
    lemma_overlaid_slot(cached.doc(), incoming.doc(), both, "pinned"@, 29);
    lemma_overlaid_slot(cached.doc(), incoming.doc(), both, "pinnedAt"@, 30);
    lemma_overlaid_slot(cached.doc(), incoming.doc(), both, "pinnedBy"@, 31);
    lemma_overlaid_slot(cached.doc(), incoming.doc(), both, "starred"@, 32);
    lemma_overlaid_slot(cached.doc(), incoming.doc(), both, "private"@, 33);
    lemma_overlaid_slot(cached.doc(), incoming.doc(), both, "temp"@, 34);
    lemma_overlaid_slot(cached.doc(), incoming.doc(), both, "_hidden"@, 35);
    lemma_overlaid_slot(cached.doc(), incoming.doc(), both, "imported"@, 36);
    lemma_overlaid_slot(cached.doc(), incoming.doc(), both, "e2e"@, 37);
    lemma_overlaid_slot(cached.doc(), incoming.doc(), both, "alias"@, 38);
    lemma_overlaid_slot(cached.doc(), incoming.doc(), both, "avatar"@, 39);
    lemma_overlaid_slot(cached.doc(), incoming.doc(), both, "emoji"@, 40);
    lemma_overlaid_slot(cached.doc(), incoming.doc(), both, "role"@, 41);
    lemma_overlaid_slot(cached.doc(), incoming.doc(), both, "bot"@, 42);
    lemma_overlaid_slot(cached.doc(), incoming.doc(), both, "token"@, 43);
    lemma_overlaid_slot(cached.doc(), incoming.doc(), both, "customFields"@, 44);
}

/// Two [`Message`]s laid over each other can be read.
proof fn lemma_message_readable(cached: Message, incoming: Message, both: JsonView)
    requires
        cached.writable(),
        incoming.writable(),
        overlaid(cached.doc(), incoming.doc()) == Some(both),
    ensures
        Message::accepts(both),
{
    lemma_message_slots(cached, incoming, both);
    lemma_required(incoming.id, incoming.id);
    lemma_required(incoming.updated_at, incoming.updated_at);
    lemma_required(incoming.rid, incoming.rid);
    lemma_required(incoming.msg, incoming.msg);
    lemma_required(incoming.ts, incoming.ts);
    lemma_required(incoming.u, incoming.u);
    lemma_optional(newer(incoming.t, cached.t), incoming.t);
    lemma_date(newer(incoming.edited_at, cached.edited_at), incoming.edited_at);
    lemma_optional(newer(incoming.edited_by, cached.edited_by), incoming.edited_by);
    lemma_optional(newer(incoming.attachments, cached.attachments), incoming.attachments);
    lemma_optional(newer(incoming.mentions, cached.mentions), incoming.mentions);
    lemma_optional(newer(incoming.channels, cached.channels), incoming.channels);
    lemma_optional(newer(incoming.md, cached.md), incoming.md);
    lemma_optional(newer(incoming.blocks, cached.blocks), incoming.blocks);
    lemma_optional(newer(incoming.urls, cached.urls), incoming.urls);
    lemma_optional(newer(incoming.reactions, cached.reactions), incoming.reactions);
    lemma_optional(newer(incoming.file, cached.file), incoming.file);
    lemma_optional(newer(incoming.files, cached.files), incoming.files);
    lemma_optional(newer(incoming.tmid, cached.tmid), incoming.tmid);
    lemma_optional(newer(incoming.tshow, cached.tshow), incoming.tshow);
    lemma_optional(newer(incoming.tcount, cached.tcount), incoming.tcount);
    lemma_date(newer(incoming.tlm, cached.tlm), incoming.tlm);
    lemma_optional(newer(incoming.replies, cached.replies), incoming.replies);
    lemma_optional(newer(incoming.drid, cached.drid), incoming.drid);
    lemma_optional(newer(incoming.dcount, cached.dcount), incoming.dcount);
    lemma_date(newer(incoming.dlm, cached.dlm), incoming.dlm);
    lemma_optional(newer(incoming.groupable, cached.groupable), incoming.groupable);
    lemma_optional(newer(incoming.parse_urls, cached.parse_urls), incoming.parse_urls);
    lemma_optional(newer(incoming.unread, cached.unread), incoming.unread);
    lemma_optional(newer(incoming.pinned, cached.pinned), incoming.pinned);
    lemma_date(newer(incoming.pinned_at, cached.pinned_at), incoming.pinned_at);
    lemma_optional(newer(incoming.pinned_by, cached.pinned_by), incoming.pinned_by);
    lemma_optional(newer(incoming.starred, cached.starred), incoming.starred);
    lemma_optional(newer(incoming.private, cached.private), incoming.private);
    lemma_optional(newer(incoming.temp, cached.temp), incoming.temp);
    lemma_optional(newer(incoming.hidden, cached.hidden), incoming.hidden);
    lemma_optional(newer(incoming.imported, cached.imported), incoming.imported);
    lemma_optional(newer(incoming.e2e, cached.e2e), incoming.e2e);
    lemma_optional(newer(incoming.alias, cached.alias), incoming.alias);
    lemma_optional(newer(incoming.avatar, cached.avatar), incoming.avatar);
    lemma_optional(newer(incoming.emoji, cached.emoji), incoming.emoji);
    lemma_optional(newer(incoming.role, cached.role), incoming.role);
    lemma_optional(newer(incoming.bot, cached.bot), incoming.bot);
    lemma_optional(newer(incoming.token, cached.token), incoming.token);
    lemma_optional(newer(incoming.custom_fields, cached.custom_fields), incoming.custom_fields);
}

/// Merging a [`Message`] keeps every cached field that the incoming one lacks, and takes every field
/// that it carries.
pub proof fn law_message_merge(cached: Message, incoming: Message, r: Message)
    requires
        cached.writable(),
        incoming.writable(),
        is_merged(cached, incoming, r),
    ensures
        r.id.doc() == incoming.id.doc(),
        r.updated_at.doc() == incoming.updated_at.doc(),
        r.rid.doc() == incoming.rid.doc(),
        r.msg.doc() == incoming.msg.doc(),
        r.ts.doc() == incoming.ts.doc(),
        r.u.doc() == incoming.u.doc(),
        same_doc(r.t, newer(incoming.t, cached.t)),
        same_doc(r.edited_at, newer(incoming.edited_at, cached.edited_at)),
        same_doc(r.edited_by, newer(incoming.edited_by, cached.edited_by)),
        same_doc(r.attachments, newer(incoming.attachments, cached.attachments)),
        same_doc(r.mentions, newer(incoming.mentions, cached.mentions)),
        same_doc(r.channels, newer(incoming.channels, cached.channels)),
        same_doc(r.md, newer(incoming.md, cached.md)),
        same_doc(r.blocks, newer(incoming.blocks, cached.blocks)),
        same_doc(r.urls, newer(incoming.urls, cached.urls)),
        same_doc(r.reactions, newer(incoming.reactions, cached.reactions)),
        same_doc(r.file, newer(incoming.file, cached.file)),
        same_doc(r.files, newer(incoming.files, cached.files)),
        same_doc(r.tmid, newer(incoming.tmid, cached.tmid)),
        same_doc(r.tshow, newer(incoming.tshow, cached.tshow)),
        same_doc(r.tcount, newer(incoming.tcount, cached.tcount)),
        same_doc(r.tlm, newer(incoming.tlm, cached.tlm)),
        same_doc(r.replies, newer(incoming.replies, cached.replies)),
        same_doc(r.drid, newer(incoming.drid, cached.drid)),
        same_doc(r.dcount, newer(incoming.dcount, cached.dcount)),
        same_doc(r.dlm, newer(incoming.dlm, cached.dlm)),
        same_doc(r.groupable, newer(incoming.groupable, cached.groupable)),
        same_doc(r.parse_urls, newer(incoming.parse_urls, cached.parse_urls)),
        same_doc(r.unread, newer(incoming.unread, cached.unread)),
        same_doc(r.pinned, newer(incoming.pinned, cached.pinned)),
        same_doc(r.pinned_at, newer(incoming.pinned_at, cached.pinned_at)),
        same_doc(r.pinned_by, newer(incoming.pinned_by, cached.pinned_by)),
        same_doc(r.starred, newer(incoming.starred, cached.starred)),
        same_doc(r.private, newer(incoming.private, cached.private)),
        same_doc(r.temp, newer(incoming.temp, cached.temp)),
        same_doc(r.hidden, newer(incoming.hidden, cached.hidden)),
        same_doc(r.imported, newer(incoming.imported, cached.imported)),
        same_doc(r.e2e, newer(incoming.e2e, cached.e2e)),
        same_doc(r.alias, newer(incoming.alias, cached.alias)),
        same_doc(r.avatar, newer(incoming.avatar, cached.avatar)),
        same_doc(r.emoji, newer(incoming.emoji, cached.emoji)),
        same_doc(r.role, newer(incoming.role, cached.role)),
        same_doc(r.bot, newer(incoming.bot, cached.bot)),
        same_doc(r.token, newer(incoming.token, cached.token)),
        same_doc(r.custom_fields, newer(incoming.custom_fields, cached.custom_fields)),
{
    let both = overlaid(cached.doc(), incoming.doc())->0;
    lemma_message_readable(cached, incoming, both);
    lemma_message_slots(cached, incoming, both);
    lemma_required(incoming.id, r.id);
    lemma_required(incoming.updated_at, r.updated_at);
    lemma_required(incoming.rid, r.rid);
    lemma_required(incoming.msg, r.msg);
    lemma_required(incoming.ts, r.ts);
    lemma_required(incoming.u, r.u);
    lemma_optional(newer(incoming.t, cached.t), r.t);
    lemma_date(newer(incoming.edited_at, cached.edited_at), r.edited_at);
    lemma_optional(newer(incoming.edited_by, cached.edited_by), r.edited_by);
    lemma_optional(newer(incoming.attachments, cached.attachments), r.attachments);
    lemma_optional(newer(incoming.mentions, cached.mentions), r.mentions);
    lemma_optional(newer(incoming.channels, cached.channels), r.channels);
    lemma_optional(newer(incoming.md, cached.md), r.md);
    lemma_optional(newer(incoming.blocks, cached.blocks), r.blocks);
    lemma_optional(newer(incoming.urls, cached.urls), r.urls);
    lemma_optional(newer(incoming.reactions, cached.reactions), r.reactions);
    lemma_optional(newer(incoming.file, cached.file), r.file);
    lemma_optional(newer(incoming.files, cached.files), r.files);
    lemma_optional(newer(incoming.tmid, cached.tmid), r.tmid);
    lemma_optional(newer(incoming.tshow, cached.tshow), r.tshow);
    lemma_optional(newer(incoming.tcount, cached.tcount), r.tcount);
    lemma_date(newer(incoming.tlm, cached.tlm), r.tlm);
    lemma_optional(newer(incoming.replies, cached.replies), r.replies);
    lemma_optional(newer(incoming.drid, cached.drid), r.drid);
    lemma_optional(newer(incoming.dcount, cached.dcount), r.dcount);
    lemma_date(newer(incoming.dlm, cached.dlm), r.dlm);
    lemma_optional(newer(incoming.groupable, cached.groupable), r.groupable);
    lemma_optional(newer(incoming.parse_urls, cached.parse_urls), r.parse_urls);
    lemma_optional(newer(incoming.unread, cached.unread), r.unread);
    lemma_optional(newer(incoming.pinned, cached.pinned), r.pinned);
    lemma_date(newer(incoming.pinned_at, cached.pinned_at), r.pinned_at);
    lemma_optional(newer(incoming.pinned_by, cached.pinned_by), r.pinned_by);
    lemma_optional(newer(incoming.starred, cached.starred), r.starred);
    lemma_optional(newer(incoming.private, cached.private), r.private);
    lemma_optional(newer(incoming.temp, cached.temp), r.temp);
    lemma_optional(newer(incoming.hidden, cached.hidden), r.hidden);
    lemma_optional(newer(incoming.imported, cached.imported), r.imported);
    lemma_optional(newer(incoming.e2e, cached.e2e), r.e2e);
    lemma_optional(newer(incoming.alias, cached.alias), r.alias);
    lemma_optional(newer(incoming.avatar, cached.avatar), r.avatar);
    lemma_optional(newer(incoming.emoji, cached.emoji), r.emoji);
    lemma_optional(newer(incoming.role, cached.role), r.role);
    lemma_optional(newer(incoming.bot, cached.bot), r.bot);
    lemma_optional(newer(incoming.token, cached.token), r.token);
    lemma_optional(newer(incoming.custom_fields, cached.custom_fields), r.custom_fields);
}

/// Each member of two [`Subscription`]s laid over each other is what the newer field is written as.
proof fn lemma_subscription_slots(cached: Subscription, incoming: Subscription, both: JsonView)
    requires
        overlaid(cached.doc(), incoming.doc()) == Some(both),
    ensures
        both is Object,
        slot(both, "_id"@, 0) == Some(incoming.id.doc()),
        slot(both, "_updatedAt"@, 1) == Some(incoming.updated_at.doc()),
        slot(both, "rid"@, 2) == Some(incoming.rid.doc()),
        slot(both, "u"@, 3) == Some(incoming.u.doc()),
        slot(both, "t"@, 4) == Some(incoming.t.doc()),
        slot(both, "ts"@, 5) == Some(incoming.ts.doc()),
        slot(both, "name"@, 6) == Some(incoming.name.doc()),
        slot(both, "open"@, 7) == Some(incoming.open.doc()),
        slot(both, "unread"@, 8) == Some(incoming.unread.doc()),
        slot(both, "userMentions"@, 9) == Some(incoming.user_mentions.doc()),
        slot(both, "groupMentions"@, 10) == Some(incoming.group_mentions.doc()),
        slot(both, "fname"@, 11) == opt_doc(newer(incoming.fname, cached.fname)),
        slot(both, "alert"@, 12) == opt_doc(newer(incoming.alert, cached.alert)),
        slot(both, "ls"@, 13) == opt_doc(newer(incoming.ls, cached.ls)),
        slot(both, "lr"@, 14) == opt_doc(newer(incoming.lr, cached.lr)),
        slot(both, "f"@, 15) == opt_doc(newer(incoming.f, cached.f)),
        slot(both, "hideUnreadStatus"@, 16) == opt_doc(newer(incoming.hide_unread_status, cached.hide_unread_status)),
        slot(both, "hideMentionStatus"@, 17) == opt_doc(newer(incoming.hide_mention_status, cached.hide_mention_status)),
        slot(both, "teamMain"@, 18) == opt_doc(newer(incoming.team_main, cached.team_main)),
        slot(both, "teamId"@, 19) == opt_doc(newer(incoming.team_id, cached.team_id)),
        slot(both, "broadcast"@, 20) == opt_doc(newer(incoming.broadcast, cached.broadcast)),
        slot(both, "prid"@, 21) == opt_doc(newer(incoming.prid, cached.prid)),
        slot(both, "tunread"@, 22) == opt_doc(newer(incoming.tunread, cached.tunread)),
        slot(both, "tunreadGroup"@, 23) == opt_doc(newer(incoming.tunread_group, cached.tunread_group)),
        slot(both, "tunreadUser"@, 24) == opt_doc(newer(incoming.tunread_user, cached.tunread_user)),
        slot(both, "roles"@, 25) == opt_doc(newer(incoming.roles, cached.roles)),
        slot(both, "onHold"@, 26) == opt_doc(newer(incoming.on_hold, cached.on_hold)),
        slot(both, "encrypted"@, 27) == opt_doc(newer(incoming.encrypted, cached.encrypted)),
        slot(both, "E2EKey"@, 28) == opt_doc(newer(incoming.e2e_key, cached.e2e_key)),
        slot(both, "E2ESuggestedKey"@, 29) == opt_doc(newer(incoming.e2e_suggested_key, cached.e2e_suggested_key)),
        slot(both, "oldRoomKeys"@, 30) == opt_doc(newer(incoming.old_room_keys, cached.old_room_keys)),
        slot(both, "suggestedOldRoomKeys"@, 31) == opt_doc(newer(incoming.suggested_old_room_keys, cached.suggested_old_room_keys)),
        slot(both, "unreadAlert"@, 32) == opt_doc(newer(incoming.unread_alert, cached.unread_alert)),
        slot(both, "desktopNotifications"@, 33) == opt_doc(newer(incoming.desktop_notifications, cached.desktop_notifications)),
        slot(both, "mobilePushNotifications"@, 34) == opt_doc(newer(incoming.mobile_push_notifications, cached.mobile_push_notifications)),
        slot(both, "emailNotifications"@, 35) == opt_doc(newer(incoming.email_notifications, cached.email_notifications)),
        slot(both, "desktopPrefOrigin"@, 36) == opt_doc(newer(incoming.desktop_pref_origin, cached.desktop_pref_origin)),
        slot(both, "mobilePrefOrigin"@, 37) == opt_doc(newer(incoming.mobile_pref_origin, cached.mobile_pref_origin)),
        slot(both, "emailPrefOrigin"@, 38) == opt_doc(newer(incoming.email_pref_origin, cached.email_pref_origin)),
        slot(both, "audioNotificationValue"@, 39) == opt_doc(newer(incoming.audio_notification_value, cached.audio_notification_value)),
        slot(both, "disableNotifications"@, 40) == opt_doc(newer(incoming.disable_notifications, cached.disable_notifications)),
        slot(both, "muteGroupMentions"@, 41) == opt_doc(newer(incoming.mute_group_mentions, cached.mute_group_mentions)),
        slot(both, "userHighlights"@, 42) == opt_doc(newer(incoming.user_highlights, cached.user_highlights)),
        slot(both, "ignored"@, 43) == opt_doc(newer(incoming.ignored, cached.ignored)),
        slot(both, "archived"@, 44) == opt_doc(newer(incoming.archived, cached.archived)),
        slot(both, "autoTranslate"@, 45) == opt_doc(newer(incoming.auto_translate, cached.auto_translate)),
        slot(both, "autoTranslateLanguage"@, 46) == opt_doc(newer(incoming.auto_translate_language, cached.auto_translate_language)),
        slot(both, "blocked"@, 47) == opt_doc(newer(incoming.blocked, cached.blocked)),
        slot(both, "blocker"@, 48) == opt_doc(newer(incoming.blocker, cached.blocker)),
        slot(both, "draft"@, 49) == opt_doc(newer(incoming.draft, cached.draft)),
        slot(both, "threadDrafts"@, 50) == opt_doc(newer(incoming.thread_drafts, cached.thread_drafts)),
        slot(both, "status"@, 51) == opt_doc(newer(incoming.status, cached.status)),
        slot(both, "inviter"@, 52) == opt_doc(newer(incoming.inviter, cached.inviter)),
        slot(both, "v"@, 53) == opt_doc(newer(incoming.v, cached.v)),
        slot(both, "department"@, 54) == opt_doc(newer(incoming.department, cached.department)),
        slot(both, "code"@, 55) == opt_doc(newer(incoming.code, cached.code)),
        slot(both, "abacLastTimeChecked"@, 56) == opt_doc(newer(incoming.abac_last_time_checked, cached.abac_last_time_checked)),
        slot(both, "customFields"@, 57) == opt_doc(newer(incoming.custom_fields, cached.custom_fields)),
{
    law_subscription_members(cached);
    law_subscription_members(incoming);
    lemma_overlaid_slot(cached.doc(), incoming.doc(), both, "_id"@, 0);
    lemma_overlaid_slot(cached.doc(), incoming.doc(), both, "_updatedAt"@, 1);
    lemma_overlaid_slot(cached.doc(), incoming.doc(), both, "rid"@, 2);
    lemma_overlaid_slot(cached.doc(), incoming.doc(), both, "u"@, 3);
    lemma_overlaid_slot(cached.doc(), incoming.doc(), both, "t"@, 4);
    lemma_overlaid_slot(cached.doc(), incoming.doc(), both, "ts"@, 5);
    lemma_overlaid_slot(cached.doc(), incoming.doc(), both, "name"@, 6);
    lemma_overlaid_slot(cached.doc(), incoming.doc(), both, "open"@, 7);
    lemma_overlaid_slot(cached.doc(), incoming.doc(), both, "unread"@, 8);
    lemma_overlaid_slot(cached.doc(), incoming.doc(), both, "userMentions"@, 9);
    lemma_overlaid_slot(cached.doc(), incoming.doc(), both, "groupMentions"@, 10);
    lemma_overlaid_slot(cached.doc(), incoming.doc(), both, "fname"@, 11);
    lemma_overlaid_slot(cached.doc(), incoming.doc(), both, "alert"@, 12);
    lemma_overlaid_slot(cached.doc(), incoming.doc(), both, "ls"@, 13);
    lemma_overlaid_slot(cached.doc(), incoming.doc(), both, "lr"@, 14);
    lemma_overlaid_slot(cached.doc(), incoming.doc(), both, "f"@, 15);
    lemma_overlaid_slot(cached.doc(), incoming.doc(), both, "hideUnreadStatus"@, 16);
    lemma_overlaid_slot(cached.doc(), incoming.doc(), both, "hideMentionStatus"@, 17);
    lemma_overlaid_slot(cached.doc(), incoming.doc(), both, "teamMain"@, 18);
    lemma_overlaid_slot(cached.doc(), incoming.doc(), both, "teamId"@, 19);
    lemma_overlaid_slot(cached.doc(), incoming.doc(), both, "broadcast"@, 20);
    lemma_overlaid_slot(cached.doc(), incoming.doc(), both, "prid"@, 21);
    lemma_overlaid_slot(cached.doc(), incoming.doc(), both, "tunread"@, 22);
    lemma_overlaid_slot(cached.doc(), incoming.doc(), both, "tunreadGroup"@, 23);
    lemma_overlaid_slot(cached.doc(), incoming.doc(), both, "tunreadUser"@, 24);
    lemma_overlaid_slot(cached.doc(), incoming.doc(), both, "roles"@, 25);
    lemma_overlaid_slot(cached.doc(), incoming.doc(), both, "onHold"@, 26);
    lemma_overlaid_slot(cached.doc(), incoming.doc(), both, "encrypted"@, 27);
    lemma_overlaid_slot(cached.doc(), incoming.doc(), both, "E2EKey"@, 28);
    lemma_overlaid_slot(cached.doc(), incoming.doc(), both, "E2ESuggestedKey"@, 29);
    lemma_overlaid_slot(cached.doc(), incoming.doc(), both, "oldRoomKeys"@, 30);
    lemma_overlaid_slot(cached.doc(), incoming.doc(), both, "suggestedOldRoomKeys"@, 31);
    lemma_overlaid_slot(cached.doc(), incoming.doc(), both, "unreadAlert"@, 32);
    lemma_overlaid_slot(cached.doc(), incoming.doc(), both, "desktopNotifications"@, 33);
    lemma_overlaid_slot(cached.doc(), incoming.doc(), both, "mobilePushNotifications"@, 34);
    lemma_overlaid_slot(cached.doc(), incoming.doc(), both, "emailNotifications"@, 35);
    lemma_overlaid_slot(cached.doc(), incoming.doc(), both, "desktopPrefOrigin"@, 36);
    lemma_overlaid_slot(cached.doc(), incoming.doc(), both, "mobilePrefOrigin"@, 37);
    lemma_overlaid_slot(cached.doc(), incoming.doc(), both, "emailPrefOrigin"@, 38);
    lemma_overlaid_slot(cached.doc(), incoming.doc(), both, "audioNotificationValue"@, 39);
    lemma_overlaid_slot(cached.doc(), incoming.doc(), both, "disableNotifications"@, 40);
    lemma_overlaid_slot(cached.doc(), incoming.doc(), both, "muteGroupMentions"@, 41);
    lemma_overlaid_slot(cached.doc(), incoming.doc(), both, "userHighlights"@, 42);
    lemma_overlaid_slot(cached.doc(), incoming.doc(), both, "ignored"@, 43);
    lemma_overlaid_slot(cached.doc(), incoming.doc(), both, "archived"@, 44);
    lemma_overlaid_slot(cached.doc(), incoming.doc(), both, "autoTranslate"@, 45);
    lemma_overlaid_slot(cached.doc(), incoming.doc(), both, "autoTranslateLanguage"@, 46);
    lemma_overlaid_slot(cached.doc(), incoming.doc(), both, "blocked"@, 47);
    lemma_overlaid_slot(cached.doc(), incoming.doc(), both, "blocker"@, 48);
    lemma_overlaid_slot(cached.doc(), incoming.doc(), both, "draft"@, 49);
    lemma_overlaid_slot(cached.doc(), incoming.doc(), both, "threadDrafts"@, 50);
    lemma_overlaid_slot(cached.doc(), incoming.doc(), both, "status"@, 51);
    lemma_overlaid_slot(cached.doc(), incoming.doc(), both, "inviter"@, 52);
    lemma_overlaid_slot(cached.doc(), incoming.doc(), both, "v"@, 53);
    lemma_overlaid_slot(cached.doc(), incoming.doc(), both, "department"@, 54);
    lemma_overlaid_slot(cached.doc(), incoming.doc(), both, "code"@, 55);
    lemma_overlaid_slot(cached.doc(), incoming.doc(), both, "abacLastTimeChecked"@, 56);
    lemma_overlaid_slot(cached.doc(), incoming.doc(), both, "customFields"@, 57);
}

/// Two [`Subscription`]s laid over each other can be read.
proof fn lemma_subscription_readable(cached: Subscription, incoming: Subscription, both: JsonView)
    requires
        cached.writable(),
        incoming.writable(),
        overlaid(cached.doc(), incoming.doc()) == Some(both),
    ensures
        Subscription::accepts(both),
{
    lemma_subscription_slots(cached, incoming, both);
    lemma_required(incoming.id, incoming.id);
    lemma_required(incoming.updated_at, incoming.updated_at);
    lemma_required(incoming.rid, incoming.rid);
    lemma_required(incoming.u, incoming.u);
    lemma_required(incoming.t, incoming.t);
    lemma_required(incoming.ts, incoming.ts);
    lemma_required(incoming.name, incoming.name);
    lemma_required(incoming.open, incoming.open);
    lemma_required(incoming.unread, incoming.unread);
    lemma_required(incoming.user_mentions, incoming.user_mentions);
    lemma_required(incoming.group_mentions, incoming.group_mentions);
    lemma_optional(newer(incoming.fname, cached.fname), incoming.fname);
    lemma_optional(newer(incoming.alert, cached.alert), incoming.alert);
    lemma_date(newer(incoming.ls, cached.ls), incoming.ls);
    lemma_date(newer(incoming.lr, cached.lr), incoming.lr);
    lemma_optional(newer(incoming.f, cached.f), incoming.f);
    lemma_optional(newer(incoming.hide_unread_status, cached.hide_unread_status), incoming.hide_unread_status);
    lemma_optional(newer(incoming.hide_mention_status, cached.hide_mention_status), incoming.hide_mention_status);
    lemma_optional(newer(incoming.team_main, cached.team_main), incoming.team_main);
    lemma_optional(newer(incoming.team_id, cached.team_id), incoming.team_id);
    lemma_optional(newer(incoming.broadcast, cached.broadcast), incoming.broadcast);
    lemma_optional(newer(incoming.prid, cached.prid), incoming.prid);
    lemma_optional(newer(incoming.tunread, cached.tunread), incoming.tunread);
    lemma_optional(newer(incoming.tunread_group, cached.tunread_group), incoming.tunread_group);
    lemma_optional(newer(incoming.tunread_user, cached.tunread_user), incoming.tunread_user);
    lemma_optional(newer(incoming.roles, cached.roles), incoming.roles);
    lemma_optional(newer(incoming.on_hold, cached.on_hold), incoming.on_hold);
    lemma_optional(newer(incoming.encrypted, cached.encrypted), incoming.encrypted);
    lemma_optional(newer(incoming.e2e_key, cached.e2e_key), incoming.e2e_key);
    lemma_optional(newer(incoming.e2e_suggested_key, cached.e2e_suggested_key), incoming.e2e_suggested_key);
    lemma_optional(newer(incoming.old_room_keys, cached.old_room_keys), incoming.old_room_keys);
    lemma_optional(newer(incoming.suggested_old_room_keys, cached.suggested_old_room_keys), incoming.suggested_old_room_keys);
    lemma_optional(newer(incoming.unread_alert, cached.unread_alert), incoming.unread_alert);
    lemma_optional(newer(incoming.desktop_notifications, cached.desktop_notifications), incoming.desktop_notifications);
    lemma_optional(newer(incoming.mobile_push_notifications, cached.mobile_push_notifications), incoming.mobile_push_notifications);
    lemma_optional(newer(incoming.email_notifications, cached.email_notifications), incoming.email_notifications);
    lemma_optional(newer(incoming.desktop_pref_origin, cached.desktop_pref_origin), incoming.desktop_pref_origin);
    lemma_optional(newer(incoming.mobile_pref_origin, cached.mobile_pref_origin), incoming.mobile_pref_origin);
    lemma_optional(newer(incoming.email_pref_origin, cached.email_pref_origin), incoming.email_pref_origin);
    lemma_optional(newer(incoming.audio_notification_value, cached.audio_notification_value), incoming.audio_notification_value);
    lemma_optional(newer(incoming.disable_notifications, cached.disable_notifications), incoming.disable_notifications);
    lemma_optional(newer(incoming.mute_group_mentions, cached.mute_group_mentions), incoming.mute_group_mentions);
    lemma_optional(newer(incoming.user_highlights, cached.user_highlights), incoming.user_highlights);
    lemma_optional(newer(incoming.ignored, cached.ignored), incoming.ignored);
    lemma_optional(newer(incoming.archived, cached.archived), incoming.archived);
    lemma_optional(newer(incoming.auto_translate, cached.auto_translate), incoming.auto_translate);
    lemma_optional(newer(incoming.auto_translate_language, cached.auto_translate_language), incoming.auto_translate_language);
    lemma_optional(newer(incoming.blocked, cached.blocked), incoming.blocked);
    lemma_optional(newer(incoming.blocker, cached.blocker), incoming.blocker);
    lemma_optional(newer(incoming.draft, cached.draft), incoming.draft);
    lemma_optional(newer(incoming.thread_drafts, cached.thread_drafts), incoming.thread_drafts);
    lemma_optional(newer(incoming.status, cached.status), incoming.status);
    lemma_optional(newer(incoming.inviter, cached.inviter), incoming.inviter);
    lemma_optional(newer(incoming.v, cached.v), incoming.v);
    lemma_optional(newer(incoming.department, cached.department), incoming.department);
    lemma_optional(newer(incoming.code, cached.code), incoming.code);
    lemma_date(newer(incoming.abac_last_time_checked, cached.abac_last_time_checked), incoming.abac_last_time_checked);
    lemma_optional(newer(incoming.custom_fields, cached.custom_fields), incoming.custom_fields);
}

/// Merging a [`Subscription`] keeps every cached field that the incoming one lacks, and takes every field
/// that it carries.
pub proof fn law_subscription_merge(cached: Subscription, incoming: Subscription, r: Subscription)
    requires
        cached.writable(),
        incoming.writable(),
        is_merged(cached, incoming, r),
    ensures
        r.id.doc() == incoming.id.doc(),
        r.updated_at.doc() == incoming.updated_at.doc(),
        r.rid.doc() == incoming.rid.doc(),
        r.u.doc() == incoming.u.doc(),
        r.t.doc() == incoming.t.doc(),
        r.ts.doc() == incoming.ts.doc(),
        r.name.doc() == incoming.name.doc(),
        r.open.doc() == incoming.open.doc(),
        r.unread.doc() == incoming.unread.doc(),
        r.user_mentions.doc() == incoming.user_mentions.doc(),
        r.group_mentions.doc() == incoming.group_mentions.doc(),
        same_doc(r.fname, newer(incoming.fname, cached.fname)),
        same_doc(r.alert, newer(incoming.alert, cached.alert)),
        same_doc(r.ls, newer(incoming.ls, cached.ls)),
        same_doc(r.lr, newer(incoming.lr, cached.lr)),
        same_doc(r.f, newer(incoming.f, cached.f)),
        same_doc(r.hide_unread_status, newer(incoming.hide_unread_status, cached.hide_unread_status)),
        same_doc(r.hide_mention_status, newer(incoming.hide_mention_status, cached.hide_mention_status)),
        same_doc(r.team_main, newer(incoming.team_main, cached.team_main)),
        same_doc(r.team_id, newer(incoming.team_id, cached.team_id)),
        same_doc(r.broadcast, newer(incoming.broadcast, cached.broadcast)),
        same_doc(r.prid, newer(incoming.prid, cached.prid)),
        same_doc(r.tunread, newer(incoming.tunread, cached.tunread)),
        same_doc(r.tunread_group, newer(incoming.tunread_group, cached.tunread_group)),
        same_doc(r.tunread_user, newer(incoming.tunread_user, cached.tunread_user)),
        same_doc(r.roles, newer(incoming.roles, cached.roles)),
        same_doc(r.on_hold, newer(incoming.on_hold, cached.on_hold)),
        same_doc(r.encrypted, newer(incoming.encrypted, cached.encrypted)),
        same_doc(r.e2e_key, newer(incoming.e2e_key, cached.e2e_key)),
        same_doc(r.e2e_suggested_key, newer(incoming.e2e_suggested_key, cached.e2e_suggested_key)),
        same_doc(r.old_room_keys, newer(incoming.old_room_keys, cached.old_room_keys)),
        same_doc(r.suggested_old_room_keys, newer(incoming.suggested_old_room_keys, cached.suggested_old_room_keys)),
        same_doc(r.unread_alert, newer(incoming.unread_alert, cached.unread_alert)),
        same_doc(r.desktop_notifications, newer(incoming.desktop_notifications, cached.desktop_notifications)),
        same_doc(r.mobile_push_notifications, newer(incoming.mobile_push_notifications, cached.mobile_push_notifications)),
        same_doc(r.email_notifications, newer(incoming.email_notifications, cached.email_notifications)),
        same_doc(r.desktop_pref_origin, newer(incoming.desktop_pref_origin, cached.desktop_pref_origin)),
        same_doc(r.mobile_pref_origin, newer(incoming.mobile_pref_origin, cached.mobile_pref_origin)),
        same_doc(r.email_pref_origin, newer(incoming.email_pref_origin, cached.email_pref_origin)),
        same_doc(r.audio_notification_value, newer(incoming.audio_notification_value, cached.audio_notification_value)),
        same_doc(r.disable_notifications, newer(incoming.disable_notifications, cached.disable_notifications)),
        same_doc(r.mute_group_mentions, newer(incoming.mute_group_mentions, cached.mute_group_mentions)),
        same_doc(r.user_highlights, newer(incoming.user_highlights, cached.user_highlights)),
        same_doc(r.ignored, newer(incoming.ignored, cached.ignored)),
        same_doc(r.archived, newer(incoming.archived, cached.archived)),
        same_doc(r.auto_translate, newer(incoming.auto_translate, cached.auto_translate)),
        same_doc(r.auto_translate_language, newer(incoming.auto_translate_language, cached.auto_translate_language)),
        same_doc(r.blocked, newer(incoming.blocked, cached.blocked)),
        same_doc(r.blocker, newer(incoming.blocker, cached.blocker)),
        same_doc(r.draft, newer(incoming.draft, cached.draft)),
        same_doc(r.thread_drafts, newer(incoming.thread_drafts, cached.thread_drafts)),
        same_doc(r.status, newer(incoming.status, cached.status)),
        same_doc(r.inviter, newer(incoming.inviter, cached.inviter)),
        same_doc(r.v, newer(incoming.v, cached.v)),
        same_doc(r.department, newer(incoming.department, cached.department)),
        same_doc(r.code, newer(incoming.code, cached.code)),
        same_doc(r.abac_last_time_checked, newer(incoming.abac_last_time_checked, cached.abac_last_time_checked)),
        same_doc(r.custom_fields, newer(incoming.custom_fields, cached.custom_fields)),
{
    let both = overlaid(cached.doc(), incoming.doc())->0;
    lemma_subscription_readable(cached, incoming, both);
    lemma_subscription_slots(cached, incoming, both);
    lemma_required(incoming.id, r.id);
    lemma_required(incoming.updated_at, r.updated_at);
    lemma_required(incoming.rid, r.rid);
    lemma_required(incoming.u, r.u);
    lemma_required(incoming.t, r.t);
    lemma_required(incoming.ts, r.ts);
    lemma_required(incoming.name, r.name);
    lemma_required(incoming.open, r.open);
    lemma_required(incoming.unread, r.unread);
    lemma_required(incoming.user_mentions, r.user_mentions);
    lemma_required(incoming.group_mentions, r.group_mentions);
    lemma_optional(newer(incoming.fname, cached.fname), r.fname);
    lemma_optional(newer(incoming.alert, cached.alert), r.alert);
    lemma_date(newer(incoming.ls, cached.ls), r.ls);
    lemma_date(newer(incoming.lr, cached.lr), r.lr);
    lemma_optional(newer(incoming.f, cached.f), r.f);
    lemma_optional(newer(incoming.hide_unread_status, cached.hide_unread_status), r.hide_unread_status);
    lemma_optional(newer(incoming.hide_mention_status, cached.hide_mention_status), r.hide_mention_status);
    lemma_optional(newer(incoming.team_main, cached.team_main), r.team_main);
    lemma_optional(newer(incoming.team_id, cached.team_id), r.team_id);
    lemma_optional(newer(incoming.broadcast, cached.broadcast), r.broadcast);
    lemma_optional(newer(incoming.prid, cached.prid), r.prid);
    lemma_optional(newer(incoming.tunread, cached.tunread), r.tunread);
    lemma_optional(newer(incoming.tunread_group, cached.tunread_group), r.tunread_group);
    lemma_optional(newer(incoming.tunread_user, cached.tunread_user), r.tunread_user);
    lemma_optional(newer(incoming.roles, cached.roles), r.roles);
    lemma_optional(newer(incoming.on_hold, cached.on_hold), r.on_hold);
    lemma_optional(newer(incoming.encrypted, cached.encrypted), r.encrypted);
    lemma_optional(newer(incoming.e2e_key, cached.e2e_key), r.e2e_key);
    lemma_optional(newer(incoming.e2e_suggested_key, cached.e2e_suggested_key), r.e2e_suggested_key);
    lemma_optional(newer(incoming.old_room_keys, cached.old_room_keys), r.old_room_keys);
    lemma_optional(newer(incoming.suggested_old_room_keys, cached.suggested_old_room_keys), r.suggested_old_room_keys);
    lemma_optional(newer(incoming.unread_alert, cached.unread_alert), r.unread_alert);
    lemma_optional(newer(incoming.desktop_notifications, cached.desktop_notifications), r.desktop_notifications);
    lemma_optional(newer(incoming.mobile_push_notifications, cached.mobile_push_notifications), r.mobile_push_notifications);
    lemma_optional(newer(incoming.email_notifications, cached.email_notifications), r.email_notifications);
    lemma_optional(newer(incoming.desktop_pref_origin, cached.desktop_pref_origin), r.desktop_pref_origin);
    lemma_optional(newer(incoming.mobile_pref_origin, cached.mobile_pref_origin), r.mobile_pref_origin);
    lemma_optional(newer(incoming.email_pref_origin, cached.email_pref_origin), r.email_pref_origin);
    lemma_optional(newer(incoming.audio_notification_value, cached.audio_notification_value), r.audio_notification_value);
    lemma_optional(newer(incoming.disable_notifications, cached.disable_notifications), r.disable_notifications);
    lemma_optional(newer(incoming.mute_group_mentions, cached.mute_group_mentions), r.mute_group_mentions);
    lemma_optional(newer(incoming.user_highlights, cached.user_highlights), r.user_highlights);
    lemma_optional(newer(incoming.ignored, cached.ignored), r.ignored);
    lemma_optional(newer(incoming.archived, cached.archived), r.archived);
    lemma_optional(newer(incoming.auto_translate, cached.auto_translate), r.auto_translate);
    lemma_optional(newer(incoming.auto_translate_language, cached.auto_translate_language), r.auto_translate_language);
    lemma_optional(newer(incoming.blocked, cached.blocked), r.blocked);
    lemma_optional(newer(incoming.blocker, cached.blocker), r.blocker);
    lemma_optional(newer(incoming.draft, cached.draft), r.draft);
    lemma_optional(newer(incoming.thread_drafts, cached.thread_drafts), r.thread_drafts);
    lemma_optional(newer(incoming.status, cached.status), r.status);
    lemma_optional(newer(incoming.inviter, cached.inviter), r.inviter);
    lemma_optional(newer(incoming.v, cached.v), r.v);
    lemma_optional(newer(incoming.department, cached.department), r.department);
    lemma_optional(newer(incoming.code, cached.code), r.code);
    lemma_date(newer(incoming.abac_last_time_checked, cached.abac_last_time_checked), r.abac_last_time_checked);
    lemma_optional(newer(incoming.custom_fields, cached.custom_fields), r.custom_fields);
}

/// Each member of two [`User`]s laid over each other is what the newer field is written as.
proof fn lemma_user_slots(cached: User, incoming: User, both: JsonView)
    requires
        overlaid(cached.doc(), incoming.doc()) == Some(both),
    ensures
        both is Object,
        slot(both, "_id"@, 0) == Some(incoming.id.doc()),
        slot(both, "_updatedAt"@, 1) == opt_doc(newer(incoming.updated_at, cached.updated_at)),
        slot(both, "createdAt"@, 2) == opt_doc(newer(incoming.created_at, cached.created_at)),
        slot(both, "username"@, 3) == opt_doc(newer(incoming.username, cached.username)),
        slot(both, "name"@, 4) == opt_doc(newer(incoming.name, cached.name)),
        slot(both, "nickname"@, 5) == opt_doc(newer(incoming.nickname, cached.nickname)),
        slot(both, "bio"@, 6) == opt_doc(newer(incoming.bio, cached.bio)),
        slot(both, "roles"@, 7) == opt_doc(newer(incoming.roles, cached.roles)),
        slot(both, "type"@, 8) == opt_doc(newer(incoming.user_type, cached.user_type)),
        slot(both, "active"@, 9) == opt_doc(newer(incoming.active, cached.active)),
        slot(both, "inactiveReason"@, 10) == opt_doc(newer(incoming.inactive_reason, cached.inactive_reason)),
        slot(both, "status"@, 11) == opt_doc(newer(incoming.status, cached.status)),
        slot(both, "statusDefault"@, 12) == opt_doc(newer(incoming.status_default, cached.status_default)),
        slot(both, "statusConnection"@, 13) == opt_doc(newer(incoming.status_connection, cached.status_connection)),
        slot(both, "statusText"@, 14) == opt_doc(newer(incoming.status_text, cached.status_text)),
        slot(both, "statusSource"@, 15) == opt_doc(newer(incoming.status_source, cached.status_source)),
        slot(both, "statusExpiresAt"@, 16) == opt_doc(newer(incoming.status_expires_at, cached.status_expires_at)),
        slot(both, "statusId"@, 17) == opt_doc(newer(incoming.status_id, cached.status_id)),
        slot(both, "lastLogin"@, 18) == opt_doc(newer(incoming.last_login, cached.last_login)),
        slot(both, "emails"@, 19) == opt_doc(newer(incoming.emails, cached.emails)),
        slot(both, "avatarOrigin"@, 20) == opt_doc(newer(incoming.avatar_origin, cached.avatar_origin)),
        slot(both, "avatarETag"@, 21) == opt_doc(newer(incoming.avatar_etag, cached.avatar_etag)),
        slot(both, "avatarUrl"@, 22) == opt_doc(newer(incoming.avatar_url, cached.avatar_url)),
        slot(both, "utcOffset"@, 23) == opt_doc(newer(incoming.utc_offset, cached.utc_offset)),
        slot(both, "language"@, 24) == opt_doc(newer(incoming.language, cached.language)),
        slot(both, "phone"@, 25) == opt_doc(newer(incoming.phone, cached.phone)),
        slot(both, "reason"@, 26) == opt_doc(newer(incoming.reason, cached.reason)),
        slot(both, "e2e"@, 27) == opt_doc(newer(incoming.e2e, cached.e2e)),
        slot(both, "settings"@, 28) == opt_doc(newer(incoming.settings, cached.settings)),
        slot(both, "customFields"@, 29) == opt_doc(newer(incoming.custom_fields, cached.custom_fields)),
        slot(both, "banners"@, 30) == opt_doc(newer(incoming.banners, cached.banners)),
        slot(both, "defaultRoom"@, 31) == opt_doc(newer(incoming.default_room, cached.default_room)),
        slot(both, "ldap"@, 32) == opt_doc(newer(incoming.ldap, cached.ldap)),
        slot(both, "requirePasswordChange"@, 33) == opt_doc(newer(incoming.require_password_change, cached.require_password_change)),
        slot(both, "requirePasswordChangeReason"@, 34) == opt_doc(newer(incoming.require_password_change_reason, cached.require_password_change_reason)),
        slot(both, "roomRolePriorities"@, 35) == opt_doc(newer(incoming.room_role_priorities, cached.room_role_priorities)),
        slot(both, "__rooms"@, 36) == opt_doc(newer(incoming.rooms, cached.rooms)),
        slot(both, "importIds"@, 37) == opt_doc(newer(incoming.import_ids, cached.import_ids)),
        slot(both, "inviteToken"@, 38) == opt_doc(newer(incoming.invite_token, cached.invite_token)),
        slot(both, "freeSwitchExtension"@, 39) == opt_doc(newer(incoming.free_switch_extension, cached.free_switch_extension)),
        slot(both, "canViewAllInfo"@, 40) == opt_doc(newer(incoming.can_view_all_info, cached.can_view_all_info)),
        slot(both, "providerId"@, 41) == opt_doc(newer(incoming.provider_id, cached.provider_id)),
        slot(both, "abacAttributes"@, 42) == opt_doc(newer(incoming.abac_attributes, cached.abac_attributes)),
        slot(both, "federated"@, 43) == opt_doc(newer(incoming.federated, cached.federated)),
        slot(both, "federation"@, 44) == opt_doc(newer(incoming.federation, cached.federation)),
{
    law_user_members(cached);
    law_user_members(incoming);
    lemma_overlaid_slot(cached.doc(), incoming.doc(), both, "_id"@, 0);
    lemma_overlaid_slot(cached.doc(), incoming.doc(), both, "_updatedAt"@, 1);
    lemma_overlaid_slot(cached.doc(), incoming.doc(), both, "createdAt"@, 2);
    lemma_overlaid_slot(cached.doc(), incoming.doc(), both, "username"@, 3);
    lemma_overlaid_slot(cached.doc(), incoming.doc(), both, "name"@, 4);
    lemma_overlaid_slot(cached.doc(), incoming.doc(), both, "nickname"@, 5);
    lemma_overlaid_slot(cached.doc(), incoming.doc(), both, "bio"@, 6);
    lemma_overlaid_slot(cached.doc(), incoming.doc(), both, "roles"@, 7);
    lemma_overlaid_slot(cached.doc(), incoming.doc(), both, "type"@, 8);
    lemma_overlaid_slot(cached.doc(), incoming.doc(), both, "active"@, 9);
    lemma_overlaid_slot(cached.doc(), incoming.doc(), both, "inactiveReason"@, 10);
    lemma_overlaid_slot(cached.doc(), incoming.doc(), both, "status"@, 11);
    lemma_overlaid_slot(cached.doc(), incoming.doc(), both, "statusDefault"@, 12);
    lemma_overlaid_slot(cached.doc(), incoming.doc(), both, "statusConnection"@, 13);
    lemma_overlaid_slot(cached.doc(), incoming.doc(), both, "statusText"@, 14);
    lemma_overlaid_slot(cached.doc(), incoming.doc(), both, "statusSource"@, 15);
    lemma_overlaid_slot(cached.doc(), incoming.doc(), both, "statusExpiresAt"@, 16);
    lemma_overlaid_slot(cached.doc(), incoming.doc(), both, "statusId"@, 17);
    lemma_overlaid_slot(cached.doc(), incoming.doc(), both, "lastLogin"@, 18);
    lemma_overlaid_slot(cached.doc(), incoming.doc(), both, "emails"@, 19);
    lemma_overlaid_slot(cached.doc(), incoming.doc(), both, "avatarOrigin"@, 20);
    lemma_overlaid_slot(cached.doc(), incoming.doc(), both, "avatarETag"@, 21);
    lemma_overlaid_slot(cached.doc(), incoming.doc(), both, "avatarUrl"@, 22);
    lemma_overlaid_slot(cached.doc(), incoming.doc(), both, "utcOffset"@, 23);
    lemma_overlaid_slot(cached.doc(), incoming.doc(), both, "language"@, 24);
    lemma_overlaid_slot(cached.doc(), incoming.doc(), both, "phone"@, 25);
    lemma_overlaid_slot(cached.doc(), incoming.doc(), both, "reason"@, 26);
    lemma_overlaid_slot(cached.doc(), incoming.doc(), both, "e2e"@, 27);
    lemma_overlaid_slot(cached.doc(), incoming.doc(), both, "settings"@, 28);
    lemma_overlaid_slot(cached.doc(), incoming.doc(), both, "customFields"@, 29);
    lemma_overlaid_slot(cached.doc(), incoming.doc(), both, "banners"@, 30);
    lemma_overlaid_slot(cached.doc(), incoming.doc(), both, "defaultRoom"@, 31);
    lemma_overlaid_slot(cached.doc(), incoming.doc(), both, "ldap"@, 32);
    lemma_overlaid_slot(cached.doc(), incoming.doc(), both, "requirePasswordChange"@, 33);
    lemma_overlaid_slot(cached.doc(), incoming.doc(), both, "requirePasswordChangeReason"@, 34);
    lemma_overlaid_slot(cached.doc(), incoming.doc(), both, "roomRolePriorities"@, 35);
    lemma_overlaid_slot(cached.doc(), incoming.doc(), both, "__rooms"@, 36);
    lemma_overlaid_slot(cached.doc(), incoming.doc(), both, "importIds"@, 37);
    lemma_overlaid_slot(cached.doc(), incoming.doc(), both, "inviteToken"@, 38);
    lemma_overlaid_slot(cached.doc(), incoming.doc(), both, "freeSwitchExtension"@, 39);
    lemma_overlaid_slot(cached.doc(), incoming.doc(), both, "canViewAllInfo"@, 40);
    lemma_overlaid_slot(cached.doc(), incoming.doc(), both, "providerId"@, 41);
    lemma_overlaid_slot(cached.doc(), incoming.doc(), both, "abacAttributes"@, 42);
    lemma_overlaid_slot(cached.doc(), incoming.doc(), both, "federated"@, 43);
    lemma_overlaid_slot(cached.doc(), incoming.doc(), both, "federation"@, 44);
}

/// Two [`User`]s laid over each other can be read.
proof fn lemma_user_readable(cached: User, incoming: User, both: JsonView)
    requires
        cached.writable(),
        incoming.writable(),
        overlaid(cached.doc(), incoming.doc()) == Some(both),
    ensures
        User::accepts(both),
{
    lemma_user_slots(cached, incoming, both);
    lemma_required(incoming.id, incoming.id);
    lemma_date(newer(incoming.updated_at, cached.updated_at), incoming.updated_at);
    lemma_date(newer(incoming.created_at, cached.created_at), incoming.created_at);
    lemma_optional(newer(incoming.username, cached.username), incoming.username);
    lemma_optional(newer(incoming.name, cached.name), incoming.name);
    lemma_optional(newer(incoming.nickname, cached.nickname), incoming.nickname);
    lemma_optional(newer(incoming.bio, cached.bio), incoming.bio);
    lemma_optional(newer(incoming.roles, cached.roles), incoming.roles);
    lemma_optional(newer(incoming.user_type, cached.user_type), incoming.user_type);
    lemma_optional(newer(incoming.active, cached.active), incoming.active);
    lemma_optional(newer(incoming.inactive_reason, cached.inactive_reason), incoming.inactive_reason);
    lemma_optional(newer(incoming.status, cached.status), incoming.status);
    lemma_optional(newer(incoming.status_default, cached.status_default), incoming.status_default);
    lemma_optional(newer(incoming.status_connection, cached.status_connection), incoming.status_connection);
    lemma_optional(newer(incoming.status_text, cached.status_text), incoming.status_text);
    lemma_optional(newer(incoming.status_source, cached.status_source), incoming.status_source);
    lemma_date(newer(incoming.status_expires_at, cached.status_expires_at), incoming.status_expires_at);
    lemma_optional(newer(incoming.status_id, cached.status_id), incoming.status_id);
    lemma_date(newer(incoming.last_login, cached.last_login), incoming.last_login);
    lemma_optional(newer(incoming.emails, cached.emails), incoming.emails);
    lemma_optional(newer(incoming.avatar_origin, cached.avatar_origin), incoming.avatar_origin);
    lemma_optional(newer(incoming.avatar_etag, cached.avatar_etag), incoming.avatar_etag);
    lemma_optional(newer(incoming.avatar_url, cached.avatar_url), incoming.avatar_url);
    lemma_optional(newer(incoming.utc_offset, cached.utc_offset), incoming.utc_offset);
    lemma_optional(newer(incoming.language, cached.language), incoming.language);
    lemma_optional(newer(incoming.phone, cached.phone), incoming.phone);
    lemma_optional(newer(incoming.reason, cached.reason), incoming.reason);
    lemma_optional(newer(incoming.e2e, cached.e2e), incoming.e2e);
    lemma_optional(newer(incoming.settings, cached.settings), incoming.settings);
    lemma_optional(newer(incoming.custom_fields, cached.custom_fields), incoming.custom_fields);
    lemma_optional(newer(incoming.banners, cached.banners), incoming.banners);
    lemma_optional(newer(incoming.default_room, cached.default_room), incoming.default_room);
    lemma_optional(newer(incoming.ldap, cached.ldap), incoming.ldap);
    lemma_optional(newer(incoming.require_password_change, cached.require_password_change), incoming.require_password_change);
    lemma_optional(newer(incoming.require_password_change_reason, cached.require_password_change_reason), incoming.require_password_change_reason);
    lemma_optional(newer(incoming.room_role_priorities, cached.room_role_priorities), incoming.room_role_priorities);
    lemma_optional(newer(incoming.rooms, cached.rooms), incoming.rooms);
    lemma_optional(newer(incoming.import_ids, cached.import_ids), incoming.import_ids);
    lemma_optional(newer(incoming.invite_token, cached.invite_token), incoming.invite_token);
    lemma_optional(newer(incoming.free_switch_extension, cached.free_switch_extension), incoming.free_switch_extension);
    lemma_optional(newer(incoming.can_view_all_info, cached.can_view_all_info), incoming.can_view_all_info);
    lemma_optional(newer(incoming.provider_id, cached.provider_id), incoming.provider_id);
    lemma_optional(newer(incoming.abac_attributes, cached.abac_attributes), incoming.abac_attributes);
    lemma_optional(newer(incoming.federated, cached.federated), incoming.federated);
    lemma_optional(newer(incoming.federation, cached.federation), incoming.federation);
}

/// Merging a [`User`] keeps every cached field that the incoming one lacks, and takes every field
/// that it carries.
pub proof fn law_user_merge(cached: User, incoming: User, r: User)
    requires
        cached.writable(),
        incoming.writable(),
        is_merged(cached, incoming, r),
    ensures
        r.id.doc() == incoming.id.doc(),
        same_doc(r.updated_at, newer(incoming.updated_at, cached.updated_at)),
        same_doc(r.created_at, newer(incoming.created_at, cached.created_at)),
        same_doc(r.username, newer(incoming.username, cached.username)),
        same_doc(r.name, newer(incoming.name, cached.name)),
        same_doc(r.nickname, newer(incoming.nickname, cached.nickname)),
        same_doc(r.bio, newer(incoming.bio, cached.bio)),
        same_doc(r.roles, newer(incoming.roles, cached.roles)),
        same_doc(r.user_type, newer(incoming.user_type, cached.user_type)),
        same_doc(r.active, newer(incoming.active, cached.active)),
        same_doc(r.inactive_reason, newer(incoming.inactive_reason, cached.inactive_reason)),
        same_doc(r.status, newer(incoming.status, cached.status)),
        same_doc(r.status_default, newer(incoming.status_default, cached.status_default)),
        same_doc(r.status_connection, newer(incoming.status_connection, cached.status_connection)),
        same_doc(r.status_text, newer(incoming.status_text, cached.status_text)),
        same_doc(r.status_source, newer(incoming.status_source, cached.status_source)),
        same_doc(r.status_expires_at, newer(incoming.status_expires_at, cached.status_expires_at)),
        same_doc(r.status_id, newer(incoming.status_id, cached.status_id)),
        same_doc(r.last_login, newer(incoming.last_login, cached.last_login)),
        same_doc(r.emails, newer(incoming.emails, cached.emails)),
        same_doc(r.avatar_origin, newer(incoming.avatar_origin, cached.avatar_origin)),
        same_doc(r.avatar_etag, newer(incoming.avatar_etag, cached.avatar_etag)),
        same_doc(r.avatar_url, newer(incoming.avatar_url, cached.avatar_url)),
        same_doc(r.utc_offset, newer(incoming.utc_offset, cached.utc_offset)),
        same_doc(r.language, newer(incoming.language, cached.language)),
        same_doc(r.phone, newer(incoming.phone, cached.phone)),
        same_doc(r.reason, newer(incoming.reason, cached.reason)),
        same_doc(r.e2e, newer(incoming.e2e, cached.e2e)),
        same_doc(r.settings, newer(incoming.settings, cached.settings)),
        same_doc(r.custom_fields, newer(incoming.custom_fields, cached.custom_fields)),
        same_doc(r.banners, newer(incoming.banners, cached.banners)),
        same_doc(r.default_room, newer(incoming.default_room, cached.default_room)),
        same_doc(r.ldap, newer(incoming.ldap, cached.ldap)),
        same_doc(r.require_password_change, newer(incoming.require_password_change, cached.require_password_change)),
        same_doc(r.require_password_change_reason, newer(incoming.require_password_change_reason, cached.require_password_change_reason)),
        same_doc(r.room_role_priorities, newer(incoming.room_role_priorities, cached.room_role_priorities)),
        same_doc(r.rooms, newer(incoming.rooms, cached.rooms)),
        same_doc(r.import_ids, newer(incoming.import_ids, cached.import_ids)),
        same_doc(r.invite_token, newer(incoming.invite_token, cached.invite_token)),
        same_doc(r.free_switch_extension, newer(incoming.free_switch_extension, cached.free_switch_extension)),
        same_doc(r.can_view_all_info, newer(incoming.can_view_all_info, cached.can_view_all_info)),
        same_doc(r.provider_id, newer(incoming.provider_id, cached.provider_id)),
        same_doc(r.abac_attributes, newer(incoming.abac_attributes, cached.abac_attributes)),
        same_doc(r.federated, newer(incoming.federated, cached.federated)),
        same_doc(r.federation, newer(incoming.federation, cached.federation)),
{
    let both = overlaid(cached.doc(), incoming.doc())->0;
    lemma_user_readable(cached, incoming, both);
    lemma_user_slots(cached, incoming, both);
    lemma_required(incoming.id, r.id);
    lemma_date(newer(incoming.updated_at, cached.updated_at), r.updated_at);
    lemma_date(newer(incoming.created_at, cached.created_at), r.created_at);
    lemma_optional(newer(incoming.username, cached.username), r.username);
    lemma_optional(newer(incoming.name, cached.name), r.name);
    lemma_optional(newer(incoming.nickname, cached.nickname), r.nickname);
    lemma_optional(newer(incoming.bio, cached.bio), r.bio);
    lemma_optional(newer(incoming.roles, cached.roles), r.roles);
    lemma_optional(newer(incoming.user_type, cached.user_type), r.user_type);
    lemma_optional(newer(incoming.active, cached.active), r.active);
    lemma_optional(newer(incoming.inactive_reason, cached.inactive_reason), r.inactive_reason);
    lemma_optional(newer(incoming.status, cached.status), r.status);
    lemma_optional(newer(incoming.status_default, cached.status_default), r.status_default);
    lemma_optional(newer(incoming.status_connection, cached.status_connection), r.status_connection);
    lemma_optional(newer(incoming.status_text, cached.status_text), r.status_text);
    lemma_optional(newer(incoming.status_source, cached.status_source), r.status_source);
    lemma_date(newer(incoming.status_expires_at, cached.status_expires_at), r.status_expires_at);
    lemma_optional(newer(incoming.status_id, cached.status_id), r.status_id);
    lemma_date(newer(incoming.last_login, cached.last_login), r.last_login);
    lemma_optional(newer(incoming.emails, cached.emails), r.emails);
    lemma_optional(newer(incoming.avatar_origin, cached.avatar_origin), r.avatar_origin);
    lemma_optional(newer(incoming.avatar_etag, cached.avatar_etag), r.avatar_etag);
    lemma_optional(newer(incoming.avatar_url, cached.avatar_url), r.avatar_url);
    lemma_optional(newer(incoming.utc_offset, cached.utc_offset), r.utc_offset);
    lemma_optional(newer(incoming.language, cached.language), r.language);
    lemma_optional(newer(incoming.phone, cached.phone), r.phone);
    lemma_optional(newer(incoming.reason, cached.reason), r.reason);
    lemma_optional(newer(incoming.e2e, cached.e2e), r.e2e);
    lemma_optional(newer(incoming.settings, cached.settings), r.settings);
    lemma_optional(newer(incoming.custom_fields, cached.custom_fields), r.custom_fields);
    lemma_optional(newer(incoming.banners, cached.banners), r.banners);
    lemma_optional(newer(incoming.default_room, cached.default_room), r.default_room);
    lemma_optional(newer(incoming.ldap, cached.ldap), r.ldap);
    lemma_optional(newer(incoming.require_password_change, cached.require_password_change), r.require_password_change);
    lemma_optional(newer(incoming.require_password_change_reason, cached.require_password_change_reason), r.require_password_change_reason);
    lemma_optional(newer(incoming.room_role_priorities, cached.room_role_priorities), r.room_role_priorities);
    lemma_optional(newer(incoming.rooms, cached.rooms), r.rooms);
    lemma_optional(newer(incoming.import_ids, cached.import_ids), r.import_ids);
    lemma_optional(newer(incoming.invite_token, cached.invite_token), r.invite_token);
    lemma_optional(newer(incoming.free_switch_extension, cached.free_switch_extension), r.free_switch_extension);
    lemma_optional(newer(incoming.can_view_all_info, cached.can_view_all_info), r.can_view_all_info);
    lemma_optional(newer(incoming.provider_id, cached.provider_id), r.provider_id);
    lemma_optional(newer(incoming.abac_attributes, cached.abac_attributes), r.abac_attributes);
    lemma_optional(newer(incoming.federated, cached.federated), r.federated);
    lemma_optional(newer(incoming.federation, cached.federation), r.federation);
}

} // verus!
