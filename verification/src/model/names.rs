//! The names on the wire.
//!
//! Each string that the server has a meaning for reads as one variant and no other, and that variant
//! is written as that string.
use crate::model::entity::enums::{
    E2eStatus, MentionType, MessageType, NotificationPreference, PreferenceOrigin, PresenceSource,
    PresenceStatus, RolePrioritiesCreated, RoomType, SubscriptionStatus, SysMes, UnreadAlert,
    UserStatus,
};
use crate::model::faithful::tag;
use crate::model::json::{view_i64, view_u64, JsonView};
use crate::model::payload::{
    Activity, ClientAction, RoleChangeKind,
};
use crate::model::wire::{Decode, Encode};
use vstd::prelude::*;
use vstd::string::*;

verus! {

/// The wire values of a [`MessageType`] differ.
pub(crate) proof fn lemma_message_type_apart()
    ensures
        tag("e2e"@, 0, 1, 9) == 50101003,
        tag("uj"@, 0, 1, 9) == 106117002,
        tag("ui"@, 0, 1, 9) == 105117002,
        tag("uir"@, 0, 1, 9) == 105117003,
        tag("ul"@, 0, 1, 9) == 108117002,
        tag("ru"@, 0, 1, 9) == 117114002,
        tag("au"@, 0, 1, 9) == 117097002,
        tag("mute_unmute"@, 0, 1, 9) == 116117109011,
        tag("r"@, 0, 1, 9) == 114001,
        tag("ut"@, 0, 1, 9) == 116117002,
        tag("wm"@, 0, 1, 9) == 109119002,
        tag("rm"@, 0, 1, 9) == 109114002,
        tag("subscription-role-added"@, 0, 1, 9) == 105117115023,
        tag("subscription-role-removed"@, 0, 1, 9) == 105117115025,
        tag("room-archived"@, 0, 1, 9) == 105111114013,
        tag("room-unarchived"@, 0, 1, 9) == 99111114015,
        tag("room_changed_privacy"@, 0, 1, 9) == 103111114020,
        tag("room_changed_description"@, 0, 1, 9) == 103111114024,
        tag("room_changed_announcement"@, 0, 1, 9) == 103111114025,
        tag("room_changed_avatar"@, 0, 1, 9) == 103111114019,
        tag("room_changed_topic"@, 0, 1, 9) == 103111114018,
        tag("room_e2e_enabled"@, 0, 1, 9) == 101111114016,
        tag("room_e2e_disabled"@, 0, 1, 9) == 100111114017,
        tag("user-muted"@, 0, 1, 9) == 100115117010,
        tag("user-unmuted"@, 0, 1, 9) == 116115117012,
        tag("user-banned"@, 0, 1, 9) == 101115117011,
        tag("user-unbanned"@, 0, 1, 9) == 110115117013,
        tag("room-removed-read-only"@, 0, 1, 9) == 118111114022,
        tag("room-set-read-only"@, 0, 1, 9) == 114111114018,
        tag("room-allowed-reacting"@, 0, 1, 9) == 119111114021,
        tag("room-disallowed-reacting"@, 0, 1, 9) == 108111114024,
        tag("command"@, 0, 1, 9) == 111099007,
        tag("videoconf"@, 0, 1, 9) == 105118009,
        tag("message_pinned"@, 0, 1, 9) == 105101109014,
        tag("message_pinned_e2e"@, 0, 1, 9) == 105101109018,
        tag("new-moderator"@, 0, 1, 9) == 97101110013,
        tag("moderator-removed"@, 0, 1, 9) == 45111109017,
        tag("new-owner"@, 0, 1, 9) == 101110009,
        tag("owner-removed"@, 0, 1, 9) == 111119111013,
        tag("new-leader"@, 0, 1, 9) == 114101110010,
        tag("leader-removed"@, 0, 1, 9) == 109101108014,
        tag("discussion-created"@, 0, 1, 9) == 110105100018,
        tag("abac-removed-user-from-room"@, 0, 1, 9) == 118098097027,
        tag("removed-user-from-team"@, 0, 1, 9) == 115101114022,
        tag("added-user-to-team"@, 0, 1, 9) == 114100097018,
        tag("ult"@, 0, 1, 9) == 108117003,
        tag("user-converted-to-team"@, 0, 1, 9) == 101115117022,
        tag("user-converted-to-channel"@, 0, 1, 9) == 101115117025,
        tag("user-removed-room-from-team"@, 0, 1, 9) == 118115117027,
        tag("user-deleted-room-from-team"@, 0, 1, 9) == 116115117027,
        tag("user-added-room-to-team"@, 0, 1, 9) == 100115117023,
        tag("ujt"@, 0, 1, 9) == 106117003,
        tag("livechat_navigation_history"@, 0, 1, 9) == 110105108027,
        tag("livechat_transfer_history"@, 0, 1, 9) == 116105108025,
        tag("livechat_transcript_history"@, 0, 1, 9) == 116105108027,
        tag("livechat_video_call"@, 0, 1, 9) == 118105108019,
        tag("livechat_transfer_history_fallback"@, 0, 1, 9) == 116105108034,
        tag("livechat-close"@, 0, 1, 9) == 99105108014,
        tag("livechat-started"@, 0, 1, 9) == 115105108016,
        tag("omnichannel_priority_change_history"@, 0, 1, 9) == 101109111035,
        tag("omnichannel_sla_change_history"@, 0, 1, 9) == 101109111030,
        tag("omnichannel_placed_chat_on_hold"@, 0, 1, 9) == 101109111031,
        tag("omnichannel_on_hold_chat_resumed"@, 0, 1, 9) == 101109111032,
{
    assert(tag("e2e"@, 0, 1, 9) == 50101003) by {
        reveal_strlit("e2e");
        assert("e2e"@.len() == 3);
        assert("e2e"@[0] == 'e');
        assert("e2e"@[1] == '2');
    }
    assert(tag("uj"@, 0, 1, 9) == 106117002) by {
        reveal_strlit("uj");
        assert("uj"@.len() == 2);
        assert("uj"@[0] == 'u');
        assert("uj"@[1] == 'j');
    }
    assert(tag("ui"@, 0, 1, 9) == 105117002) by {
        reveal_strlit("ui");
        assert("ui"@.len() == 2);
        assert("ui"@[0] == 'u');
        assert("ui"@[1] == 'i');
    }
    assert(tag("uir"@, 0, 1, 9) == 105117003) by {
        reveal_strlit("uir");
        assert("uir"@.len() == 3);
        assert("uir"@[0] == 'u');
        assert("uir"@[1] == 'i');
    }
    assert(tag("ul"@, 0, 1, 9) == 108117002) by {
        reveal_strlit("ul");
        assert("ul"@.len() == 2);
        assert("ul"@[0] == 'u');
        assert("ul"@[1] == 'l');
    }
    assert(tag("ru"@, 0, 1, 9) == 117114002) by {
        reveal_strlit("ru");
        assert("ru"@.len() == 2);
        assert("ru"@[0] == 'r');
        assert("ru"@[1] == 'u');
    }
    assert(tag("au"@, 0, 1, 9) == 117097002) by {
        reveal_strlit("au");
        assert("au"@.len() == 2);
        assert("au"@[0] == 'a');
        assert("au"@[1] == 'u');
    }
    assert(tag("mute_unmute"@, 0, 1, 9) == 116117109011) by {
        reveal_strlit("mute_unmute");
        assert("mute_unmute"@.len() == 11);
        assert("mute_unmute"@[0] == 'm');
        assert("mute_unmute"@[1] == 'u');
        assert("mute_unmute"@[9] == 't');
    }
    assert(tag("r"@, 0, 1, 9) == 114001) by {
        reveal_strlit("r");
        assert("r"@.len() == 1);
        assert("r"@[0] == 'r');
    }
    assert(tag("ut"@, 0, 1, 9) == 116117002) by {
        reveal_strlit("ut");
        assert("ut"@.len() == 2);
        assert("ut"@[0] == 'u');
        assert("ut"@[1] == 't');
    }
    assert(tag("wm"@, 0, 1, 9) == 109119002) by {
        reveal_strlit("wm");
        assert("wm"@.len() == 2);
        assert("wm"@[0] == 'w');
        assert("wm"@[1] == 'm');
    }
    assert(tag("rm"@, 0, 1, 9) == 109114002) by {
        reveal_strlit("rm");
        assert("rm"@.len() == 2);
        assert("rm"@[0] == 'r');
        assert("rm"@[1] == 'm');
    }
    assert(tag("subscription-role-added"@, 0, 1, 9) == 105117115023) by {
        reveal_strlit("subscription-role-added");
        assert("subscription-role-added"@.len() == 23);
        assert("subscription-role-added"@[0] == 's');
        assert("subscription-role-added"@[1] == 'u');
        assert("subscription-role-added"@[9] == 'i');
    }
    assert(tag("subscription-role-removed"@, 0, 1, 9) == 105117115025) by {
        reveal_strlit("subscription-role-removed");
        assert("subscription-role-removed"@.len() == 25);
        assert("subscription-role-removed"@[0] == 's');
        assert("subscription-role-removed"@[1] == 'u');
        assert("subscription-role-removed"@[9] == 'i');
    }
    assert(tag("room-archived"@, 0, 1, 9) == 105111114013) by {
        reveal_strlit("room-archived");
        assert("room-archived"@.len() == 13);
        assert("room-archived"@[0] == 'r');
        assert("room-archived"@[1] == 'o');
        assert("room-archived"@[9] == 'i');
    }
    assert(tag("room-unarchived"@, 0, 1, 9) == 99111114015) by {
        reveal_strlit("room-unarchived");
        assert("room-unarchived"@.len() == 15);
        assert("room-unarchived"@[0] == 'r');
        assert("room-unarchived"@[1] == 'o');
        assert("room-unarchived"@[9] == 'c');
    }
    assert(tag("room_changed_privacy"@, 0, 1, 9) == 103111114020) by {
        reveal_strlit("room_changed_privacy");
        assert("room_changed_privacy"@.len() == 20);
        assert("room_changed_privacy"@[0] == 'r');
        assert("room_changed_privacy"@[1] == 'o');
        assert("room_changed_privacy"@[9] == 'g');
    }
    assert(tag("room_changed_description"@, 0, 1, 9) == 103111114024) by {
        reveal_strlit("room_changed_description");
        assert("room_changed_description"@.len() == 24);
        assert("room_changed_description"@[0] == 'r');
        assert("room_changed_description"@[1] == 'o');
        assert("room_changed_description"@[9] == 'g');
    }
    assert(tag("room_changed_announcement"@, 0, 1, 9) == 103111114025) by {
        reveal_strlit("room_changed_announcement");
        assert("room_changed_announcement"@.len() == 25);
        assert("room_changed_announcement"@[0] == 'r');
        assert("room_changed_announcement"@[1] == 'o');
        assert("room_changed_announcement"@[9] == 'g');
    }
    assert(tag("room_changed_avatar"@, 0, 1, 9) == 103111114019) by {
        reveal_strlit("room_changed_avatar");
        assert("room_changed_avatar"@.len() == 19);
        assert("room_changed_avatar"@[0] == 'r');
        assert("room_changed_avatar"@[1] == 'o');
        assert("room_changed_avatar"@[9] == 'g');
    }
    assert(tag("room_changed_topic"@, 0, 1, 9) == 103111114018) by {
        reveal_strlit("room_changed_topic");
        assert("room_changed_topic"@.len() == 18);
        assert("room_changed_topic"@[0] == 'r');
        assert("room_changed_topic"@[1] == 'o');
        assert("room_changed_topic"@[9] == 'g');
    }
    assert(tag("room_e2e_enabled"@, 0, 1, 9) == 101111114016) by {
        reveal_strlit("room_e2e_enabled");
        assert("room_e2e_enabled"@.len() == 16);
        assert("room_e2e_enabled"@[0] == 'r');
        assert("room_e2e_enabled"@[1] == 'o');
        assert("room_e2e_enabled"@[9] == 'e');
    }
    assert(tag("room_e2e_disabled"@, 0, 1, 9) == 100111114017) by {
        reveal_strlit("room_e2e_disabled");
        assert("room_e2e_disabled"@.len() == 17);
        assert("room_e2e_disabled"@[0] == 'r');
        assert("room_e2e_disabled"@[1] == 'o');
        assert("room_e2e_disabled"@[9] == 'd');
    }
    assert(tag("user-muted"@, 0, 1, 9) == 100115117010) by {
        reveal_strlit("user-muted");
        assert("user-muted"@.len() == 10);
        assert("user-muted"@[0] == 'u');
        assert("user-muted"@[1] == 's');
        assert("user-muted"@[9] == 'd');
    }
    assert(tag("user-unmuted"@, 0, 1, 9) == 116115117012) by {
        reveal_strlit("user-unmuted");
        assert("user-unmuted"@.len() == 12);
        assert("user-unmuted"@[0] == 'u');
        assert("user-unmuted"@[1] == 's');
        assert("user-unmuted"@[9] == 't');
    }
    assert(tag("user-banned"@, 0, 1, 9) == 101115117011) by {
        reveal_strlit("user-banned");
        assert("user-banned"@.len() == 11);
        assert("user-banned"@[0] == 'u');
        assert("user-banned"@[1] == 's');
        assert("user-banned"@[9] == 'e');
    }
    assert(tag("user-unbanned"@, 0, 1, 9) == 110115117013) by {
        reveal_strlit("user-unbanned");
        assert("user-unbanned"@.len() == 13);
        assert("user-unbanned"@[0] == 'u');
        assert("user-unbanned"@[1] == 's');
        assert("user-unbanned"@[9] == 'n');
    }
    assert(tag("room-removed-read-only"@, 0, 1, 9) == 118111114022) by {
        reveal_strlit("room-removed-read-only");
        assert("room-removed-read-only"@.len() == 22);
        assert("room-removed-read-only"@[0] == 'r');
        assert("room-removed-read-only"@[1] == 'o');
        assert("room-removed-read-only"@[9] == 'v');
    }
    assert(tag("room-set-read-only"@, 0, 1, 9) == 114111114018) by {
        reveal_strlit("room-set-read-only");
        assert("room-set-read-only"@.len() == 18);
        assert("room-set-read-only"@[0] == 'r');
        assert("room-set-read-only"@[1] == 'o');
        assert("room-set-read-only"@[9] == 'r');
    }
    assert(tag("room-allowed-reacting"@, 0, 1, 9) == 119111114021) by {
        reveal_strlit("room-allowed-reacting");
        assert("room-allowed-reacting"@.len() == 21);
        assert("room-allowed-reacting"@[0] == 'r');
        assert("room-allowed-reacting"@[1] == 'o');
        assert("room-allowed-reacting"@[9] == 'w');
    }
    assert(tag("room-disallowed-reacting"@, 0, 1, 9) == 108111114024) by {
        reveal_strlit("room-disallowed-reacting");
        assert("room-disallowed-reacting"@.len() == 24);
        assert("room-disallowed-reacting"@[0] == 'r');
        assert("room-disallowed-reacting"@[1] == 'o');
        assert("room-disallowed-reacting"@[9] == 'l');
    }
    assert(tag("command"@, 0, 1, 9) == 111099007) by {
        reveal_strlit("command");
        assert("command"@.len() == 7);
        assert("command"@[0] == 'c');
        assert("command"@[1] == 'o');
    }
    assert(tag("videoconf"@, 0, 1, 9) == 105118009) by {
        reveal_strlit("videoconf");
        assert("videoconf"@.len() == 9);
        assert("videoconf"@[0] == 'v');
        assert("videoconf"@[1] == 'i');
    }
    assert(tag("message_pinned"@, 0, 1, 9) == 105101109014) by {
        reveal_strlit("message_pinned");
        assert("message_pinned"@.len() == 14);
        assert("message_pinned"@[0] == 'm');
        assert("message_pinned"@[1] == 'e');
        assert("message_pinned"@[9] == 'i');
    }
    assert(tag("message_pinned_e2e"@, 0, 1, 9) == 105101109018) by {
        reveal_strlit("message_pinned_e2e");
        assert("message_pinned_e2e"@.len() == 18);
        assert("message_pinned_e2e"@[0] == 'm');
        assert("message_pinned_e2e"@[1] == 'e');
        assert("message_pinned_e2e"@[9] == 'i');
    }
    assert(tag("new-moderator"@, 0, 1, 9) == 97101110013) by {
        reveal_strlit("new-moderator");
        assert("new-moderator"@.len() == 13);
        assert("new-moderator"@[0] == 'n');
        assert("new-moderator"@[1] == 'e');
        assert("new-moderator"@[9] == 'a');
    }
    assert(tag("moderator-removed"@, 0, 1, 9) == 45111109017) by {
        reveal_strlit("moderator-removed");
        assert("moderator-removed"@.len() == 17);
        assert("moderator-removed"@[0] == 'm');
        assert("moderator-removed"@[1] == 'o');
        assert("moderator-removed"@[9] == '-');
    }
    assert(tag("new-owner"@, 0, 1, 9) == 101110009) by {
        reveal_strlit("new-owner");
        assert("new-owner"@.len() == 9);
        assert("new-owner"@[0] == 'n');
        assert("new-owner"@[1] == 'e');
    }
    assert(tag("owner-removed"@, 0, 1, 9) == 111119111013) by {
        reveal_strlit("owner-removed");
        assert("owner-removed"@.len() == 13);
        assert("owner-removed"@[0] == 'o');
        assert("owner-removed"@[1] == 'w');
        assert("owner-removed"@[9] == 'o');
    }
    assert(tag("new-leader"@, 0, 1, 9) == 114101110010) by {
        reveal_strlit("new-leader");
        assert("new-leader"@.len() == 10);
        assert("new-leader"@[0] == 'n');
        assert("new-leader"@[1] == 'e');
        assert("new-leader"@[9] == 'r');
    }
    assert(tag("leader-removed"@, 0, 1, 9) == 109101108014) by {
        reveal_strlit("leader-removed");
        assert("leader-removed"@.len() == 14);
        assert("leader-removed"@[0] == 'l');
        assert("leader-removed"@[1] == 'e');
        assert("leader-removed"@[9] == 'm');
    }
    assert(tag("discussion-created"@, 0, 1, 9) == 110105100018) by {
        reveal_strlit("discussion-created");
        assert("discussion-created"@.len() == 18);
        assert("discussion-created"@[0] == 'd');
        assert("discussion-created"@[1] == 'i');
        assert("discussion-created"@[9] == 'n');
    }
    assert(tag("abac-removed-user-from-room"@, 0, 1, 9) == 118098097027) by {
        reveal_strlit("abac-removed-user-from-room");
        assert("abac-removed-user-from-room"@.len() == 27);
        assert("abac-removed-user-from-room"@[0] == 'a');
        assert("abac-removed-user-from-room"@[1] == 'b');
        assert("abac-removed-user-from-room"@[9] == 'v');
    }
    assert(tag("removed-user-from-team"@, 0, 1, 9) == 115101114022) by {
        reveal_strlit("removed-user-from-team");
        assert("removed-user-from-team"@.len() == 22);
        assert("removed-user-from-team"@[0] == 'r');
        assert("removed-user-from-team"@[1] == 'e');
        assert("removed-user-from-team"@[9] == 's');
    }
    assert(tag("added-user-to-team"@, 0, 1, 9) == 114100097018) by {
        reveal_strlit("added-user-to-team");
        assert("added-user-to-team"@.len() == 18);
        assert("added-user-to-team"@[0] == 'a');
        assert("added-user-to-team"@[1] == 'd');
        assert("added-user-to-team"@[9] == 'r');
    }
    assert(tag("ult"@, 0, 1, 9) == 108117003) by {
        reveal_strlit("ult");
        assert("ult"@.len() == 3);
        assert("ult"@[0] == 'u');
        assert("ult"@[1] == 'l');
    }
    assert(tag("user-converted-to-team"@, 0, 1, 9) == 101115117022) by {
        reveal_strlit("user-converted-to-team");
        assert("user-converted-to-team"@.len() == 22);
        assert("user-converted-to-team"@[0] == 'u');
        assert("user-converted-to-team"@[1] == 's');
        assert("user-converted-to-team"@[9] == 'e');
    }
    assert(tag("user-converted-to-channel"@, 0, 1, 9) == 101115117025) by {
        reveal_strlit("user-converted-to-channel");
        assert("user-converted-to-channel"@.len() == 25);
        assert("user-converted-to-channel"@[0] == 'u');
        assert("user-converted-to-channel"@[1] == 's');
        assert("user-converted-to-channel"@[9] == 'e');
    }
    assert(tag("user-removed-room-from-team"@, 0, 1, 9) == 118115117027) by {
        reveal_strlit("user-removed-room-from-team");
        assert("user-removed-room-from-team"@.len() == 27);
        assert("user-removed-room-from-team"@[0] == 'u');
        assert("user-removed-room-from-team"@[1] == 's');
        assert("user-removed-room-from-team"@[9] == 'v');
    }
    assert(tag("user-deleted-room-from-team"@, 0, 1, 9) == 116115117027) by {
        reveal_strlit("user-deleted-room-from-team");
        assert("user-deleted-room-from-team"@.len() == 27);
        assert("user-deleted-room-from-team"@[0] == 'u');
        assert("user-deleted-room-from-team"@[1] == 's');
        assert("user-deleted-room-from-team"@[9] == 't');
    }
    assert(tag("user-added-room-to-team"@, 0, 1, 9) == 100115117023) by {
        reveal_strlit("user-added-room-to-team");
        assert("user-added-room-to-team"@.len() == 23);
        assert("user-added-room-to-team"@[0] == 'u');
        assert("user-added-room-to-team"@[1] == 's');
        assert("user-added-room-to-team"@[9] == 'd');
    }
    assert(tag("ujt"@, 0, 1, 9) == 106117003) by {
        reveal_strlit("ujt");
        assert("ujt"@.len() == 3);
        assert("ujt"@[0] == 'u');
        assert("ujt"@[1] == 'j');
    }
    assert(tag("livechat_navigation_history"@, 0, 1, 9) == 110105108027) by {
        reveal_strlit("livechat_navigation_history");
        assert("livechat_navigation_history"@.len() == 27);
        assert("livechat_navigation_history"@[0] == 'l');
        assert("livechat_navigation_history"@[1] == 'i');
        assert("livechat_navigation_history"@[9] == 'n');
    }
    assert(tag("livechat_transfer_history"@, 0, 1, 9) == 116105108025) by {
        reveal_strlit("livechat_transfer_history");
        assert("livechat_transfer_history"@.len() == 25);
        assert("livechat_transfer_history"@[0] == 'l');
        assert("livechat_transfer_history"@[1] == 'i');
        assert("livechat_transfer_history"@[9] == 't');
    }
    assert(tag("livechat_transcript_history"@, 0, 1, 9) == 116105108027) by {
        reveal_strlit("livechat_transcript_history");
        assert("livechat_transcript_history"@.len() == 27);
        assert("livechat_transcript_history"@[0] == 'l');
        assert("livechat_transcript_history"@[1] == 'i');
        assert("livechat_transcript_history"@[9] == 't');
    }
    assert(tag("livechat_video_call"@, 0, 1, 9) == 118105108019) by {
        reveal_strlit("livechat_video_call");
        assert("livechat_video_call"@.len() == 19);
        assert("livechat_video_call"@[0] == 'l');
        assert("livechat_video_call"@[1] == 'i');
        assert("livechat_video_call"@[9] == 'v');
    }
    assert(tag("livechat_transfer_history_fallback"@, 0, 1, 9) == 116105108034) by {
        reveal_strlit("livechat_transfer_history_fallback");
        assert("livechat_transfer_history_fallback"@.len() == 34);
        assert("livechat_transfer_history_fallback"@[0] == 'l');
        assert("livechat_transfer_history_fallback"@[1] == 'i');
        assert("livechat_transfer_history_fallback"@[9] == 't');
    }
    assert(tag("livechat-close"@, 0, 1, 9) == 99105108014) by {
        reveal_strlit("livechat-close");
        assert("livechat-close"@.len() == 14);
        assert("livechat-close"@[0] == 'l');
        assert("livechat-close"@[1] == 'i');
        assert("livechat-close"@[9] == 'c');
    }
    assert(tag("livechat-started"@, 0, 1, 9) == 115105108016) by {
        reveal_strlit("livechat-started");
        assert("livechat-started"@.len() == 16);
        assert("livechat-started"@[0] == 'l');
        assert("livechat-started"@[1] == 'i');
        assert("livechat-started"@[9] == 's');
    }
    assert(tag("omnichannel_priority_change_history"@, 0, 1, 9) == 101109111035) by {
        reveal_strlit("omnichannel_priority_change_history");
        assert("omnichannel_priority_change_history"@.len() == 35);
        assert("omnichannel_priority_change_history"@[0] == 'o');
        assert("omnichannel_priority_change_history"@[1] == 'm');
        assert("omnichannel_priority_change_history"@[9] == 'e');
    }
    assert(tag("omnichannel_sla_change_history"@, 0, 1, 9) == 101109111030) by {
        reveal_strlit("omnichannel_sla_change_history");
        assert("omnichannel_sla_change_history"@.len() == 30);
        assert("omnichannel_sla_change_history"@[0] == 'o');
        assert("omnichannel_sla_change_history"@[1] == 'm');
        assert("omnichannel_sla_change_history"@[9] == 'e');
    }
    assert(tag("omnichannel_placed_chat_on_hold"@, 0, 1, 9) == 101109111031) by {
        reveal_strlit("omnichannel_placed_chat_on_hold");
        assert("omnichannel_placed_chat_on_hold"@.len() == 31);
        assert("omnichannel_placed_chat_on_hold"@[0] == 'o');
        assert("omnichannel_placed_chat_on_hold"@[1] == 'm');
        assert("omnichannel_placed_chat_on_hold"@[9] == 'e');
    }
    assert(tag("omnichannel_on_hold_chat_resumed"@, 0, 1, 9) == 101109111032) by {
        reveal_strlit("omnichannel_on_hold_chat_resumed");
        assert("omnichannel_on_hold_chat_resumed"@.len() == 32);
        assert("omnichannel_on_hold_chat_resumed"@[0] == 'o');
        assert("omnichannel_on_hold_chat_resumed"@[1] == 'm');
        assert("omnichannel_on_hold_chat_resumed"@[9] == 'e');
    }
}

/// Which variant of [`MessageType`] each string reads as; any other string is kept as it is.
pub proof fn law_message_type_reads(x: MessageType, text: Seq<char>)
    requires
        x.read_from(JsonView::String(text)),
    ensures
        text == "e2e"@ <==> x is E2e,
        text == "uj"@ <==> x is Uj,
        text == "ui"@ <==> x is Ui,
        text == "uir"@ <==> x is Uir,
        text == "ul"@ <==> x is Ul,
        text == "ru"@ <==> x is Ru,
        text == "au"@ <==> x is Au,
        text == "mute_unmute"@ <==> x is MuteUnmute,
        text == "r"@ <==> x is R,
        text == "ut"@ <==> x is Ut,
        text == "wm"@ <==> x is Wm,
        text == "rm"@ <==> x is Rm,
        text == "subscription-role-added"@ <==> x is SubscriptionRoleAdded,
        text == "subscription-role-removed"@ <==> x is SubscriptionRoleRemoved,
        text == "room-archived"@ <==> x is RoomArchived,
        text == "room-unarchived"@ <==> x is RoomUnarchived,
        text == "room_changed_privacy"@ <==> x is RoomChangedPrivacy,
        text == "room_changed_description"@ <==> x is RoomChangedDescription,
        text == "room_changed_announcement"@ <==> x is RoomChangedAnnouncement,
        text == "room_changed_avatar"@ <==> x is RoomChangedAvatar,
        text == "room_changed_topic"@ <==> x is RoomChangedTopic,
        text == "room_e2e_enabled"@ <==> x is RoomE2eEnabled,
        text == "room_e2e_disabled"@ <==> x is RoomE2eDisabled,
        text == "user-muted"@ <==> x is UserMuted,
        text == "user-unmuted"@ <==> x is UserUnmuted,
        text == "user-banned"@ <==> x is UserBanned,
        text == "user-unbanned"@ <==> x is UserUnbanned,
        text == "room-removed-read-only"@ <==> x is RoomRemovedReadOnly,
        text == "room-set-read-only"@ <==> x is RoomSetReadOnly,
        text == "room-allowed-reacting"@ <==> x is RoomAllowedReacting,
        text == "room-disallowed-reacting"@ <==> x is RoomDisallowedReacting,
        text == "command"@ <==> x is Command,
        text == "videoconf"@ <==> x is Videoconf,
        text == "message_pinned"@ <==> x is MessagePinned,
        text == "message_pinned_e2e"@ <==> x is MessagePinnedE2e,
        text == "new-moderator"@ <==> x is NewModerator,
        text == "moderator-removed"@ <==> x is ModeratorRemoved,
        text == "new-owner"@ <==> x is NewOwner,
        text == "owner-removed"@ <==> x is OwnerRemoved,
        text == "new-leader"@ <==> x is NewLeader,
        text == "leader-removed"@ <==> x is LeaderRemoved,
        text == "discussion-created"@ <==> x is DiscussionCreated,
        text == "abac-removed-user-from-room"@ <==> x is AbacRemovedUserFromRoom,
        text == "removed-user-from-team"@ <==> x is RemovedUserFromTeam,
        text == "added-user-to-team"@ <==> x is AddedUserToTeam,
        text == "ult"@ <==> x is Ult,
        text == "user-converted-to-team"@ <==> x is UserConvertedToTeam,
        text == "user-converted-to-channel"@ <==> x is UserConvertedToChannel,
        text == "user-removed-room-from-team"@ <==> x is UserRemovedRoomFromTeam,
        text == "user-deleted-room-from-team"@ <==> x is UserDeletedRoomFromTeam,
        text == "user-added-room-to-team"@ <==> x is UserAddedRoomToTeam,
        text == "ujt"@ <==> x is Ujt,
        text == "livechat_navigation_history"@ <==> x is LivechatNavigationHistory,
        text == "livechat_transfer_history"@ <==> x is LivechatTransferHistory,
        text == "livechat_transcript_history"@ <==> x is LivechatTranscriptHistory,
        text == "livechat_video_call"@ <==> x is LivechatVideoCall,
        text == "livechat_transfer_history_fallback"@ <==> x is LivechatTransferHistoryFallback,
        text == "livechat-close"@ <==> x is LivechatClose,
        text == "livechat-started"@ <==> x is LivechatStarted,
        text == "omnichannel_priority_change_history"@ <==> x is OmnichannelPriorityChangeHistory,
        text == "omnichannel_sla_change_history"@ <==> x is OmnichannelSlaChangeHistory,
        text == "omnichannel_placed_chat_on_hold"@ <==> x is OmnichannelPlacedChatOnHold,
        text == "omnichannel_on_hold_chat_resumed"@ <==> x is OmnichannelOnHoldChatResumed,
        x matches MessageType::Unknown(other) ==> other@ == text,
{
    lemma_message_type_apart();
}

/// What each variant of [`MessageType`] is written as.
pub proof fn law_message_type_writes(x: MessageType)
    ensures
        x is E2e ==> x.doc() == JsonView::String("e2e"@),
        x is Uj ==> x.doc() == JsonView::String("uj"@),
        x is Ui ==> x.doc() == JsonView::String("ui"@),
        x is Uir ==> x.doc() == JsonView::String("uir"@),
        x is Ul ==> x.doc() == JsonView::String("ul"@),
        x is Ru ==> x.doc() == JsonView::String("ru"@),
        x is Au ==> x.doc() == JsonView::String("au"@),
        x is MuteUnmute ==> x.doc() == JsonView::String("mute_unmute"@),
        x is R ==> x.doc() == JsonView::String("r"@),
        x is Ut ==> x.doc() == JsonView::String("ut"@),
        x is Wm ==> x.doc() == JsonView::String("wm"@),
        x is Rm ==> x.doc() == JsonView::String("rm"@),
        x is SubscriptionRoleAdded ==> x.doc() == JsonView::String("subscription-role-added"@),
        x is SubscriptionRoleRemoved ==> x.doc() == JsonView::String("subscription-role-removed"@),
        x is RoomArchived ==> x.doc() == JsonView::String("room-archived"@),
        x is RoomUnarchived ==> x.doc() == JsonView::String("room-unarchived"@),
        x is RoomChangedPrivacy ==> x.doc() == JsonView::String("room_changed_privacy"@),
        x is RoomChangedDescription ==> x.doc() == JsonView::String("room_changed_description"@),
        x is RoomChangedAnnouncement ==> x.doc() == JsonView::String("room_changed_announcement"@),
        x is RoomChangedAvatar ==> x.doc() == JsonView::String("room_changed_avatar"@),
        x is RoomChangedTopic ==> x.doc() == JsonView::String("room_changed_topic"@),
        x is RoomE2eEnabled ==> x.doc() == JsonView::String("room_e2e_enabled"@),
        x is RoomE2eDisabled ==> x.doc() == JsonView::String("room_e2e_disabled"@),
        x is UserMuted ==> x.doc() == JsonView::String("user-muted"@),
        x is UserUnmuted ==> x.doc() == JsonView::String("user-unmuted"@),
        x is UserBanned ==> x.doc() == JsonView::String("user-banned"@),
        x is UserUnbanned ==> x.doc() == JsonView::String("user-unbanned"@),
        x is RoomRemovedReadOnly ==> x.doc() == JsonView::String("room-removed-read-only"@),
        x is RoomSetReadOnly ==> x.doc() == JsonView::String("room-set-read-only"@),
        x is RoomAllowedReacting ==> x.doc() == JsonView::String("room-allowed-reacting"@),
        x is RoomDisallowedReacting ==> x.doc() == JsonView::String("room-disallowed-reacting"@),
        x is Command ==> x.doc() == JsonView::String("command"@),
        x is Videoconf ==> x.doc() == JsonView::String("videoconf"@),
        x is MessagePinned ==> x.doc() == JsonView::String("message_pinned"@),
        x is MessagePinnedE2e ==> x.doc() == JsonView::String("message_pinned_e2e"@),
        x is NewModerator ==> x.doc() == JsonView::String("new-moderator"@),
        x is ModeratorRemoved ==> x.doc() == JsonView::String("moderator-removed"@),
        x is NewOwner ==> x.doc() == JsonView::String("new-owner"@),
        x is OwnerRemoved ==> x.doc() == JsonView::String("owner-removed"@),
        x is NewLeader ==> x.doc() == JsonView::String("new-leader"@),
        x is LeaderRemoved ==> x.doc() == JsonView::String("leader-removed"@),
        x is DiscussionCreated ==> x.doc() == JsonView::String("discussion-created"@),
        x is AbacRemovedUserFromRoom ==> x.doc() == JsonView::String("abac-removed-user-from-room"@),
        x is RemovedUserFromTeam ==> x.doc() == JsonView::String("removed-user-from-team"@),
        x is AddedUserToTeam ==> x.doc() == JsonView::String("added-user-to-team"@),
        x is Ult ==> x.doc() == JsonView::String("ult"@),
        x is UserConvertedToTeam ==> x.doc() == JsonView::String("user-converted-to-team"@),
        x is UserConvertedToChannel ==> x.doc() == JsonView::String("user-converted-to-channel"@),
        x is UserRemovedRoomFromTeam ==> x.doc() == JsonView::String("user-removed-room-from-team"@),
        x is UserDeletedRoomFromTeam ==> x.doc() == JsonView::String("user-deleted-room-from-team"@),
        x is UserAddedRoomToTeam ==> x.doc() == JsonView::String("user-added-room-to-team"@),
        x is Ujt ==> x.doc() == JsonView::String("ujt"@),
        x is LivechatNavigationHistory ==> x.doc() == JsonView::String("livechat_navigation_history"@),
        x is LivechatTransferHistory ==> x.doc() == JsonView::String("livechat_transfer_history"@),
        x is LivechatTranscriptHistory ==> x.doc() == JsonView::String("livechat_transcript_history"@),
        x is LivechatVideoCall ==> x.doc() == JsonView::String("livechat_video_call"@),
        x is LivechatTransferHistoryFallback ==> x.doc() == JsonView::String("livechat_transfer_history_fallback"@),
        x is LivechatClose ==> x.doc() == JsonView::String("livechat-close"@),
        x is LivechatStarted ==> x.doc() == JsonView::String("livechat-started"@),
        x is OmnichannelPriorityChangeHistory ==> x.doc() == JsonView::String("omnichannel_priority_change_history"@),
        x is OmnichannelSlaChangeHistory ==> x.doc() == JsonView::String("omnichannel_sla_change_history"@),
        x is OmnichannelPlacedChatOnHold ==> x.doc() == JsonView::String("omnichannel_placed_chat_on_hold"@),
        x is OmnichannelOnHoldChatResumed ==> x.doc() == JsonView::String("omnichannel_on_hold_chat_resumed"@),
        x matches MessageType::Unknown(other) ==> x.doc() == JsonView::String(other@),
{
}

/// The wire values of a [`RoomType`] differ.
pub(crate) proof fn lemma_room_type_apart()
    ensures
        tag("c"@, 0, 1, 2) == 99001,
        tag("p"@, 0, 1, 2) == 112001,
        tag("d"@, 0, 1, 2) == 100001,
        tag("l"@, 0, 1, 2) == 108001,
{
    assert(tag("c"@, 0, 1, 2) == 99001) by {
        reveal_strlit("c");
        assert("c"@.len() == 1);
        assert("c"@[0] == 'c');
    }
    assert(tag("p"@, 0, 1, 2) == 112001) by {
        reveal_strlit("p");
        assert("p"@.len() == 1);
        assert("p"@[0] == 'p');
    }
    assert(tag("d"@, 0, 1, 2) == 100001) by {
        reveal_strlit("d");
        assert("d"@.len() == 1);
        assert("d"@[0] == 'd');
    }
    assert(tag("l"@, 0, 1, 2) == 108001) by {
        reveal_strlit("l");
        assert("l"@.len() == 1);
        assert("l"@[0] == 'l');
    }
}

/// Which variant of [`RoomType`] each string reads as; any other string is kept as it is.
pub proof fn law_room_type_reads(x: RoomType, text: Seq<char>)
    requires
        x.read_from(JsonView::String(text)),
    ensures
        text == "c"@ <==> x is Channel,
        text == "p"@ <==> x is Private,
        text == "d"@ <==> x is Direct,
        text == "l"@ <==> x is Omnichannel,
        x matches RoomType::Unknown(other) ==> other@ == text,
{
    lemma_room_type_apart();
}

/// What each variant of [`RoomType`] is written as.
pub proof fn law_room_type_writes(x: RoomType)
    ensures
        x is Channel ==> x.doc() == JsonView::String("c"@),
        x is Private ==> x.doc() == JsonView::String("p"@),
        x is Direct ==> x.doc() == JsonView::String("d"@),
        x is Omnichannel ==> x.doc() == JsonView::String("l"@),
        x matches RoomType::Unknown(other) ==> x.doc() == JsonView::String(other@),
{
}

/// The wire values of a [`UserStatus`] differ.
pub(crate) proof fn lemma_user_status_apart()
    ensures
        tag("online"@, 0, 1, 2) == 108110111006,
        tag("away"@, 0, 1, 2) == 97119097004,
        tag("busy"@, 0, 1, 2) == 115117098004,
        tag("offline"@, 0, 1, 2) == 102102111007,
        tag("disabled"@, 0, 1, 2) == 115105100008,
{
    assert(tag("online"@, 0, 1, 2) == 108110111006) by {
        reveal_strlit("online");
        assert("online"@.len() == 6);
        assert("online"@[0] == 'o');
        assert("online"@[1] == 'n');
        assert("online"@[2] == 'l');
    }
    assert(tag("away"@, 0, 1, 2) == 97119097004) by {
        reveal_strlit("away");
        assert("away"@.len() == 4);
        assert("away"@[0] == 'a');
        assert("away"@[1] == 'w');
        assert("away"@[2] == 'a');
    }
    assert(tag("busy"@, 0, 1, 2) == 115117098004) by {
        reveal_strlit("busy");
        assert("busy"@.len() == 4);
        assert("busy"@[0] == 'b');
        assert("busy"@[1] == 'u');
        assert("busy"@[2] == 's');
    }
    assert(tag("offline"@, 0, 1, 2) == 102102111007) by {
        reveal_strlit("offline");
        assert("offline"@.len() == 7);
        assert("offline"@[0] == 'o');
        assert("offline"@[1] == 'f');
        assert("offline"@[2] == 'f');
    }
    assert(tag("disabled"@, 0, 1, 2) == 115105100008) by {
        reveal_strlit("disabled");
        assert("disabled"@.len() == 8);
        assert("disabled"@[0] == 'd');
        assert("disabled"@[1] == 'i');
        assert("disabled"@[2] == 's');
    }
}

/// Which variant of [`UserStatus`] each string reads as; any other string is kept as it is.
pub proof fn law_user_status_reads(x: UserStatus, text: Seq<char>)
    requires
        x.read_from(JsonView::String(text)),
    ensures
        text == "online"@ <==> x is Online,
        text == "away"@ <==> x is Away,
        text == "busy"@ <==> x is Busy,
        text == "offline"@ <==> x is Offline,
        text == "disabled"@ <==> x is Disabled,
        x matches UserStatus::Unknown(other) ==> other@ == text,
{
    lemma_user_status_apart();
}

/// What each variant of [`UserStatus`] is written as.
pub proof fn law_user_status_writes(x: UserStatus)
    ensures
        x is Online ==> x.doc() == JsonView::String("online"@),
        x is Away ==> x.doc() == JsonView::String("away"@),
        x is Busy ==> x.doc() == JsonView::String("busy"@),
        x is Offline ==> x.doc() == JsonView::String("offline"@),
        x is Disabled ==> x.doc() == JsonView::String("disabled"@),
        x matches UserStatus::Unknown(other) ==> x.doc() == JsonView::String(other@),
{
}

/// The wire values of a [`PresenceSource`] differ.
pub(crate) proof fn lemma_presence_source_apart()
    ensures
        tag("internal"@, 0, 1, 2) == 116110105008,
        tag("external"@, 0, 1, 2) == 116120101008,
        tag("manual"@, 0, 1, 2) == 110097109006,
{
    assert(tag("internal"@, 0, 1, 2) == 116110105008) by {
        reveal_strlit("internal");
        assert("internal"@.len() == 8);
        assert("internal"@[0] == 'i');
        assert("internal"@[1] == 'n');
        assert("internal"@[2] == 't');
    }
    assert(tag("external"@, 0, 1, 2) == 116120101008) by {
        reveal_strlit("external");
        assert("external"@.len() == 8);
        assert("external"@[0] == 'e');
        assert("external"@[1] == 'x');
        assert("external"@[2] == 't');
    }
    assert(tag("manual"@, 0, 1, 2) == 110097109006) by {
        reveal_strlit("manual");
        assert("manual"@.len() == 6);
        assert("manual"@[0] == 'm');
        assert("manual"@[1] == 'a');
        assert("manual"@[2] == 'n');
    }
}

/// Which variant of [`PresenceSource`] each string reads as; any other string is kept as it is.
pub proof fn law_presence_source_reads(x: PresenceSource, text: Seq<char>)
    requires
        x.read_from(JsonView::String(text)),
    ensures
        text == "internal"@ <==> x is Internal,
        text == "external"@ <==> x is External,
        text == "manual"@ <==> x is Manual,
        x matches PresenceSource::Unknown(other) ==> other@ == text,
{
    lemma_presence_source_apart();
}

/// What each variant of [`PresenceSource`] is written as.
pub proof fn law_presence_source_writes(x: PresenceSource)
    ensures
        x is Internal ==> x.doc() == JsonView::String("internal"@),
        x is External ==> x.doc() == JsonView::String("external"@),
        x is Manual ==> x.doc() == JsonView::String("manual"@),
        x matches PresenceSource::Unknown(other) ==> x.doc() == JsonView::String(other@),
{
}

/// The wire values of a [`E2eStatus`] differ.
pub(crate) proof fn lemma_e2e_status_apart()
    ensures
        tag("pending"@, 0, 1, 2) == 110101112007,
        tag("done"@, 0, 1, 2) == 110111100004,
{
    assert(tag("pending"@, 0, 1, 2) == 110101112007) by {
        reveal_strlit("pending");
        assert("pending"@.len() == 7);
        assert("pending"@[0] == 'p');
        assert("pending"@[1] == 'e');
        assert("pending"@[2] == 'n');
    }
    assert(tag("done"@, 0, 1, 2) == 110111100004) by {
        reveal_strlit("done");
        assert("done"@.len() == 4);
        assert("done"@[0] == 'd');
        assert("done"@[1] == 'o');
        assert("done"@[2] == 'n');
    }
}

/// Which variant of [`E2eStatus`] each string reads as; any other string is kept as it is.
pub proof fn law_e2e_status_reads(x: E2eStatus, text: Seq<char>)
    requires
        x.read_from(JsonView::String(text)),
    ensures
        text == "pending"@ <==> x is Pending,
        text == "done"@ <==> x is Done,
        x matches E2eStatus::Unknown(other) ==> other@ == text,
{
    lemma_e2e_status_apart();
}

/// What each variant of [`E2eStatus`] is written as.
pub proof fn law_e2e_status_writes(x: E2eStatus)
    ensures
        x is Pending ==> x.doc() == JsonView::String("pending"@),
        x is Done ==> x.doc() == JsonView::String("done"@),
        x matches E2eStatus::Unknown(other) ==> x.doc() == JsonView::String(other@),
{
}

/// The wire values of a [`MentionType`] differ.
pub(crate) proof fn lemma_mention_type_apart()
    ensures
        tag("user"@, 0, 1, 2) == 101115117004,
        tag("team"@, 0, 1, 2) == 97101116004,
{
    assert(tag("user"@, 0, 1, 2) == 101115117004) by {
        reveal_strlit("user");
        assert("user"@.len() == 4);
        assert("user"@[0] == 'u');
        assert("user"@[1] == 's');
        assert("user"@[2] == 'e');
    }
    assert(tag("team"@, 0, 1, 2) == 97101116004) by {
        reveal_strlit("team");
        assert("team"@.len() == 4);
        assert("team"@[0] == 't');
        assert("team"@[1] == 'e');
        assert("team"@[2] == 'a');
    }
}

/// Which variant of [`MentionType`] each string reads as; any other string is kept as it is.
pub proof fn law_mention_type_reads(x: MentionType, text: Seq<char>)
    requires
        x.read_from(JsonView::String(text)),
    ensures
        text == "user"@ <==> x is User,
        text == "team"@ <==> x is Team,
        x matches MentionType::Unknown(other) ==> other@ == text,
{
    lemma_mention_type_apart();
}

/// What each variant of [`MentionType`] is written as.
pub proof fn law_mention_type_writes(x: MentionType)
    ensures
        x is User ==> x.doc() == JsonView::String("user"@),
        x is Team ==> x.doc() == JsonView::String("team"@),
        x matches MentionType::Unknown(other) ==> x.doc() == JsonView::String(other@),
{
}

/// The wire values of a [`NotificationPreference`] differ.
pub(crate) proof fn lemma_notification_preference_apart()
    ensures
        tag("all"@, 0, 1, 2) == 108108097003,
        tag("mentions"@, 0, 1, 2) == 110101109008,
        tag("nothing"@, 0, 1, 2) == 116111110007,
{
    assert(tag("all"@, 0, 1, 2) == 108108097003) by {
        reveal_strlit("all");
        assert("all"@.len() == 3);
        assert("all"@[0] == 'a');
        assert("all"@[1] == 'l');
        assert("all"@[2] == 'l');
    }
    assert(tag("mentions"@, 0, 1, 2) == 110101109008) by {
        reveal_strlit("mentions");
        assert("mentions"@.len() == 8);
        assert("mentions"@[0] == 'm');
        assert("mentions"@[1] == 'e');
        assert("mentions"@[2] == 'n');
    }
    assert(tag("nothing"@, 0, 1, 2) == 116111110007) by {
        reveal_strlit("nothing");
        assert("nothing"@.len() == 7);
        assert("nothing"@[0] == 'n');
        assert("nothing"@[1] == 'o');
        assert("nothing"@[2] == 't');
    }
}

/// Which variant of [`NotificationPreference`] each string reads as; any other string is kept as it is.
pub proof fn law_notification_preference_reads(x: NotificationPreference, text: Seq<char>)
    requires
        x.read_from(JsonView::String(text)),
    ensures
        text == "all"@ <==> x is All,
        text == "mentions"@ <==> x is Mentions,
        text == "nothing"@ <==> x is Nothing,
        x matches NotificationPreference::Unknown(other) ==> other@ == text,
{
    lemma_notification_preference_apart();
}

/// What each variant of [`NotificationPreference`] is written as.
pub proof fn law_notification_preference_writes(x: NotificationPreference)
    ensures
        x is All ==> x.doc() == JsonView::String("all"@),
        x is Mentions ==> x.doc() == JsonView::String("mentions"@),
        x is Nothing ==> x.doc() == JsonView::String("nothing"@),
        x matches NotificationPreference::Unknown(other) ==> x.doc() == JsonView::String(other@),
{
}

/// The wire values of a [`PreferenceOrigin`] differ.
pub(crate) proof fn lemma_preference_origin_apart()
    ensures
        tag("subscription"@, 0, 1, 2) == 98117115012,
        tag("user"@, 0, 1, 2) == 101115117004,
{
    assert(tag("subscription"@, 0, 1, 2) == 98117115012) by {
        reveal_strlit("subscription");
        assert("subscription"@.len() == 12);
        assert("subscription"@[0] == 's');
        assert("subscription"@[1] == 'u');
        assert("subscription"@[2] == 'b');
    }
    assert(tag("user"@, 0, 1, 2) == 101115117004) by {
        reveal_strlit("user");
        assert("user"@.len() == 4);
        assert("user"@[0] == 'u');
        assert("user"@[1] == 's');
        assert("user"@[2] == 'e');
    }
}

/// Which variant of [`PreferenceOrigin`] each string reads as; any other string is kept as it is.
pub proof fn law_preference_origin_reads(x: PreferenceOrigin, text: Seq<char>)
    requires
        x.read_from(JsonView::String(text)),
    ensures
        text == "subscription"@ <==> x is Subscription,
        text == "user"@ <==> x is User,
        x matches PreferenceOrigin::Unknown(other) ==> other@ == text,
{
    lemma_preference_origin_apart();
}

/// What each variant of [`PreferenceOrigin`] is written as.
pub proof fn law_preference_origin_writes(x: PreferenceOrigin)
    ensures
        x is Subscription ==> x.doc() == JsonView::String("subscription"@),
        x is User ==> x.doc() == JsonView::String("user"@),
        x matches PreferenceOrigin::Unknown(other) ==> x.doc() == JsonView::String(other@),
{
}

/// The wire values of a [`UnreadAlert`] differ.
pub(crate) proof fn lemma_unread_alert_apart()
    ensures
        tag("default"@, 0, 1, 2) == 102101100007,
        tag("all"@, 0, 1, 2) == 108108097003,
        tag("mentions"@, 0, 1, 2) == 110101109008,
        tag("nothing"@, 0, 1, 2) == 116111110007,
{
    assert(tag("default"@, 0, 1, 2) == 102101100007) by {
        reveal_strlit("default");
        assert("default"@.len() == 7);
        assert("default"@[0] == 'd');
        assert("default"@[1] == 'e');
        assert("default"@[2] == 'f');
    }
    assert(tag("all"@, 0, 1, 2) == 108108097003) by {
        reveal_strlit("all");
        assert("all"@.len() == 3);
        assert("all"@[0] == 'a');
        assert("all"@[1] == 'l');
        assert("all"@[2] == 'l');
    }
    assert(tag("mentions"@, 0, 1, 2) == 110101109008) by {
        reveal_strlit("mentions");
        assert("mentions"@.len() == 8);
        assert("mentions"@[0] == 'm');
        assert("mentions"@[1] == 'e');
        assert("mentions"@[2] == 'n');
    }
    assert(tag("nothing"@, 0, 1, 2) == 116111110007) by {
        reveal_strlit("nothing");
        assert("nothing"@.len() == 7);
        assert("nothing"@[0] == 'n');
        assert("nothing"@[1] == 'o');
        assert("nothing"@[2] == 't');
    }
}

/// Which variant of [`UnreadAlert`] each string reads as; any other string is kept as it is.
pub proof fn law_unread_alert_reads(x: UnreadAlert, text: Seq<char>)
    requires
        x.read_from(JsonView::String(text)),
    ensures
        text == "default"@ <==> x is Default,
        text == "all"@ <==> x is All,
        text == "mentions"@ <==> x is Mentions,
        text == "nothing"@ <==> x is Nothing,
        x matches UnreadAlert::Unknown(other) ==> other@ == text,
{
    lemma_unread_alert_apart();
}

/// What each variant of [`UnreadAlert`] is written as.
pub proof fn law_unread_alert_writes(x: UnreadAlert)
    ensures
        x is Default ==> x.doc() == JsonView::String("default"@),
        x is All ==> x.doc() == JsonView::String("all"@),
        x is Mentions ==> x.doc() == JsonView::String("mentions"@),
        x is Nothing ==> x.doc() == JsonView::String("nothing"@),
        x matches UnreadAlert::Unknown(other) ==> x.doc() == JsonView::String(other@),
{
}

/// The wire values of a [`SubscriptionStatus`] differ.
pub(crate) proof fn lemma_subscription_status_apart()
    ensures
        tag("INVITED"@, 0, 1, 2) == 86078073007,
        tag("BANNED"@, 0, 1, 2) == 78065066006,
{
    assert(tag("INVITED"@, 0, 1, 2) == 86078073007) by {
        reveal_strlit("INVITED");
        assert("INVITED"@.len() == 7);
        assert("INVITED"@[0] == 'I');
        assert("INVITED"@[1] == 'N');
        assert("INVITED"@[2] == 'V');
    }
    assert(tag("BANNED"@, 0, 1, 2) == 78065066006) by {
        reveal_strlit("BANNED");
        assert("BANNED"@.len() == 6);
        assert("BANNED"@[0] == 'B');
        assert("BANNED"@[1] == 'A');
        assert("BANNED"@[2] == 'N');
    }
}

/// Which variant of [`SubscriptionStatus`] each string reads as; any other string is kept as it is.
pub proof fn law_subscription_status_reads(x: SubscriptionStatus, text: Seq<char>)
    requires
        x.read_from(JsonView::String(text)),
    ensures
        text == "INVITED"@ <==> x is Invited,
        text == "BANNED"@ <==> x is Banned,
        x matches SubscriptionStatus::Unknown(other) ==> other@ == text,
{
    lemma_subscription_status_apart();
}

/// What each variant of [`SubscriptionStatus`] is written as.
pub proof fn law_subscription_status_writes(x: SubscriptionStatus)
    ensures
        x is Invited ==> x.doc() == JsonView::String("INVITED"@),
        x is Banned ==> x.doc() == JsonView::String("BANNED"@),
        x matches SubscriptionStatus::Unknown(other) ==> x.doc() == JsonView::String(other@),
{
}

/// The wire values of a [`Activity`] differ.
pub(crate) proof fn lemma_activity_apart()
    ensures
        tag("user-typing"@, 0, 1, 5) == 116115117011,
        tag("user-recording"@, 0, 1, 5) == 114115117014,
        tag("user-uploading"@, 0, 1, 5) == 117115117014,
{
    assert(tag("user-typing"@, 0, 1, 5) == 116115117011) by {
        reveal_strlit("user-typing");
        assert("user-typing"@.len() == 11);
        assert("user-typing"@[0] == 'u');
        assert("user-typing"@[1] == 's');
        assert("user-typing"@[5] == 't');
    }
    assert(tag("user-recording"@, 0, 1, 5) == 114115117014) by {
        reveal_strlit("user-recording");
        assert("user-recording"@.len() == 14);
        assert("user-recording"@[0] == 'u');
        assert("user-recording"@[1] == 's');
        assert("user-recording"@[5] == 'r');
    }
    assert(tag("user-uploading"@, 0, 1, 5) == 117115117014) by {
        reveal_strlit("user-uploading");
        assert("user-uploading"@.len() == 14);
        assert("user-uploading"@[0] == 'u');
        assert("user-uploading"@[1] == 's');
        assert("user-uploading"@[5] == 'u');
    }
}

/// Which variant of [`Activity`] each string reads as; any other string is kept as it is.
pub proof fn law_activity_reads(x: Activity, text: Seq<char>)
    requires
        x.read_from(JsonView::String(text)),
    ensures
        text == "user-typing"@ <==> x is UserTyping,
        text == "user-recording"@ <==> x is UserRecording,
        text == "user-uploading"@ <==> x is UserUploading,
        x matches Activity::Unknown(other) ==> other@ == text,
{
    lemma_activity_apart();
}

/// What each variant of [`Activity`] is written as.
pub proof fn law_activity_writes(x: Activity)
    ensures
        x is UserTyping ==> x.doc() == JsonView::String("user-typing"@),
        x is UserRecording ==> x.doc() == JsonView::String("user-recording"@),
        x is UserUploading ==> x.doc() == JsonView::String("user-uploading"@),
        x matches Activity::Unknown(other) ==> x.doc() == JsonView::String(other@),
{
}

/// The wire values of a [`ClientAction`] differ.
pub(crate) proof fn lemma_client_action_apart()
    ensures
        tag("inserted"@, 0, 1, 2) == 115110105008,
        tag("updated"@, 0, 1, 2) == 100112117007,
        tag("removed"@, 0, 1, 2) == 109101114007,
        tag("changed"@, 0, 1, 2) == 97104099007,
{
    assert(tag("inserted"@, 0, 1, 2) == 115110105008) by {
        reveal_strlit("inserted");
        assert("inserted"@.len() == 8);
        assert("inserted"@[0] == 'i');
        assert("inserted"@[1] == 'n');
        assert("inserted"@[2] == 's');
    }
    assert(tag("updated"@, 0, 1, 2) == 100112117007) by {
        reveal_strlit("updated");
        assert("updated"@.len() == 7);
        assert("updated"@[0] == 'u');
        assert("updated"@[1] == 'p');
        assert("updated"@[2] == 'd');
    }
    assert(tag("removed"@, 0, 1, 2) == 109101114007) by {
        reveal_strlit("removed");
        assert("removed"@.len() == 7);
        assert("removed"@[0] == 'r');
        assert("removed"@[1] == 'e');
        assert("removed"@[2] == 'm');
    }
    assert(tag("changed"@, 0, 1, 2) == 97104099007) by {
        reveal_strlit("changed");
        assert("changed"@.len() == 7);
        assert("changed"@[0] == 'c');
        assert("changed"@[1] == 'h');
        assert("changed"@[2] == 'a');
    }
}

/// Which variant of [`ClientAction`] each string reads as; any other string is kept as it is.
pub proof fn law_client_action_reads(x: ClientAction, text: Seq<char>)
    requires
        x.read_from(JsonView::String(text)),
    ensures
        text == "inserted"@ <==> x is Inserted,
        text == "updated"@ <==> x is Updated,
        text == "removed"@ <==> x is Removed,
        text == "changed"@ <==> x is Changed,
        x matches ClientAction::Unknown(other) ==> other@ == text,
{
    lemma_client_action_apart();
}

/// What each variant of [`ClientAction`] is written as.
pub proof fn law_client_action_writes(x: ClientAction)
    ensures
        x is Inserted ==> x.doc() == JsonView::String("inserted"@),
        x is Updated ==> x.doc() == JsonView::String("updated"@),
        x is Removed ==> x.doc() == JsonView::String("removed"@),
        x is Changed ==> x.doc() == JsonView::String("changed"@),
        x matches ClientAction::Unknown(other) ==> x.doc() == JsonView::String(other@),
{
}

/// The wire values of a [`RoleChangeKind`] differ.
pub(crate) proof fn lemma_role_change_kind_apart()
    ensures
        tag("added"@, 0, 1, 2) == 100100097005,
        tag("removed"@, 0, 1, 2) == 109101114007,
        tag("changed"@, 0, 1, 2) == 97104099007,
{
    assert(tag("added"@, 0, 1, 2) == 100100097005) by {
        reveal_strlit("added");
        assert("added"@.len() == 5);
        assert("added"@[0] == 'a');
        assert("added"@[1] == 'd');
        assert("added"@[2] == 'd');
    }
    assert(tag("removed"@, 0, 1, 2) == 109101114007) by {
        reveal_strlit("removed");
        assert("removed"@.len() == 7);
        assert("removed"@[0] == 'r');
        assert("removed"@[1] == 'e');
        assert("removed"@[2] == 'm');
    }
    assert(tag("changed"@, 0, 1, 2) == 97104099007) by {
        reveal_strlit("changed");
        assert("changed"@.len() == 7);
        assert("changed"@[0] == 'c');
        assert("changed"@[1] == 'h');
        assert("changed"@[2] == 'a');
    }
}

/// Which variant of [`RoleChangeKind`] each string reads as; any other string is kept as it is.
pub proof fn law_role_change_kind_reads(x: RoleChangeKind, text: Seq<char>)
    requires
        x.read_from(JsonView::String(text)),
    ensures
        text == "added"@ <==> x is Added,
        text == "removed"@ <==> x is Removed,
        text == "changed"@ <==> x is Changed,
        x matches RoleChangeKind::Unknown(other) ==> other@ == text,
{
    lemma_role_change_kind_apart();
}

/// What each variant of [`RoleChangeKind`] is written as.
pub proof fn law_role_change_kind_writes(x: RoleChangeKind)
    ensures
        x is Added ==> x.doc() == JsonView::String("added"@),
        x is Removed ==> x.doc() == JsonView::String("removed"@),
        x is Changed ==> x.doc() == JsonView::String("changed"@),
        x matches RoleChangeKind::Unknown(other) ==> x.doc() == JsonView::String(other@),
{
}

/// Which presence each code reads as.
pub proof fn law_presence_status_codes(x: PresenceStatus, j: JsonView)
    requires
        x.read_from(j),
    ensures
        view_u64(j) == Some(0u64) <==> x is Offline,
        view_u64(j) == Some(1u64) <==> x is Online,
        view_u64(j) == Some(2u64) <==> x is Away,
        view_u64(j) == Some(3u64) <==> x is Busy,
        x matches PresenceStatus::Unknown(code) ==> view_u64(j) == Some(code as u64),
{
}

/// What each presence is written as.
pub proof fn law_presence_status_writes(x: PresenceStatus)
    ensures
        x is Offline ==> view_u64(x.doc()) == Some(0u64),
        x is Online ==> view_u64(x.doc()) == Some(1u64),
        x is Away ==> view_u64(x.doc()) == Some(2u64),
        x is Busy ==> view_u64(x.doc()) == Some(3u64),
        x matches PresenceStatus::Unknown(code) ==> view_u64(x.doc()) == Some(code as u64),
{
}

/// A flag reads as whether the system messages are hidden, and a list as which are.
pub proof fn law_sys_mes_reads(x: SysMes, j: JsonView)
    requires
        x.read_from(j),
    ensures
        j is Bool <==> x is Enabled,
        j is Array <==> x is Hidden,
        x matches SysMes::Enabled(b) ==> j == JsonView::Bool(b),
        x matches SysMes::Hidden(kinds) ==> kinds.read_from(j),
{
}

/// A number reads as a version, and a flag as a flag.
pub proof fn law_role_priorities_reads(x: RolePrioritiesCreated, j: JsonView)
    requires
        x.read_from(j),
    ensures
        j is Number <==> x is Version,
        j is Bool <==> x is Flag,
        x matches RolePrioritiesCreated::Version(n) ==> view_i64(j) == Some(n),
        x matches RolePrioritiesCreated::Flag(b) ==> j == JsonView::Bool(b),
{
}

} // verus!
