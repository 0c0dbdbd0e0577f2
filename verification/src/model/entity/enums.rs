//! The string-valued fields of the documents.
//!
//! Each type has one variant per known value plus `Unknown`, so an unrecognised value survives
//! reading and writing unchanged. Newer servers add values to every one of these.
use crate::model::json::{view_i64, view_u64, Json, JsonView, Number};
use crate::model::names::{
    lemma_e2e_status_apart, lemma_mention_type_apart, lemma_message_type_apart,
    lemma_notification_preference_apart, lemma_preference_origin_apart,
    lemma_presence_source_apart, lemma_room_type_apart, lemma_subscription_status_apart,
    lemma_unread_alert_apart, lemma_user_status_apart,
};
use crate::model::wire::{Decode, Duplicate, Encode};
use crate::text::str_eq;
use vstd::prelude::*;
use vstd::string::*;

verus! {

/// The `t` discriminator of a system message.
#[derive(Clone, Debug, PartialEq, Eq, Hash, PartialOrd, Ord)]
pub enum MessageType {
    /// End-to-end encrypted message; the ciphertext is in `msg` or `content`.
    E2e,
    /// User joined the channel.
    Uj,
    /// User invited another user.
    Ui,
    /// User invited another user, who has not yet accepted.
    Uir,
    /// User left the channel.
    Ul,
    /// A user was removed from the room by someone else.
    Ru,
    /// A user was added to the room by someone else.
    Au,
    /// A user was muted or unmuted (legacy combined type).
    MuteUnmute,
    /// Room name changed.
    R,
    /// User joined the conversation (direct/discussion variant of `uj`).
    Ut,
    /// Welcome message.
    Wm,
    /// Message removed.
    Rm,
    /// A room role was granted to a subscription.
    SubscriptionRoleAdded,
    /// A room role was revoked from a subscription.
    SubscriptionRoleRemoved,
    /// Room archived.
    RoomArchived,
    /// Room unarchived.
    RoomUnarchived,
    /// Room switched between public and private.
    RoomChangedPrivacy,
    /// Room description changed.
    RoomChangedDescription,
    /// Room announcement changed.
    RoomChangedAnnouncement,
    /// Room avatar changed.
    RoomChangedAvatar,
    /// Room topic changed.
    RoomChangedTopic,
    /// End-to-end encryption enabled for the room.
    RoomE2eEnabled,
    /// End-to-end encryption disabled for the room.
    RoomE2eDisabled,
    /// A user was muted.
    UserMuted,
    /// A user was unmuted.
    UserUnmuted,
    /// A user was banned.
    UserBanned,
    /// A user was unbanned.
    UserUnbanned,
    /// Read-only was lifted from the room.
    RoomRemovedReadOnly,
    /// The room was set read-only.
    RoomSetReadOnly,
    /// Reacting was allowed in a read-only room.
    RoomAllowedReacting,
    /// Reacting was disallowed in a read-only room.
    RoomDisallowedReacting,
    /// A slash command was run.
    Command,
    /// A video conference was started; the call state lives in a separate collection.
    Videoconf,
    /// A message was pinned; the pinned message is carried in `attachments`.
    MessagePinned,
    /// A message was pinned in an end-to-end encrypted room.
    MessagePinnedE2e,
    /// A user was made moderator.
    NewModerator,
    /// A user's moderator role was removed.
    ModeratorRemoved,
    /// A user was made owner.
    NewOwner,
    /// A user's owner role was removed.
    OwnerRemoved,
    /// A user was made leader.
    NewLeader,
    /// A user's leader role was removed.
    LeaderRemoved,
    /// A discussion was created from this message; see `Message::drid`.
    DiscussionCreated,
    /// A user lost access to an attribute-based-access-control room.
    AbacRemovedUserFromRoom,
    /// A user was removed from the team.
    RemovedUserFromTeam,
    /// A user was added to the team.
    AddedUserToTeam,
    /// A user left the team.
    Ult,
    /// A channel was converted into a team.
    UserConvertedToTeam,
    /// A team was converted back into a channel.
    UserConvertedToChannel,
    /// A room was removed from the team but kept.
    UserRemovedRoomFromTeam,
    /// A room belonging to the team was deleted.
    UserDeletedRoomFromTeam,
    /// An existing room was added to the team.
    UserAddedRoomToTeam,
    /// A user joined the team.
    Ujt,
    /// Visitor page navigation history.
    LivechatNavigationHistory,
    /// The conversation was transferred to another agent or department.
    LivechatTransferHistory,
    /// A transcript was requested or sent.
    LivechatTranscriptHistory,
    /// A video call was placed from the livechat widget.
    LivechatVideoCall,
    /// The transfer fell back to a default department or agent.
    LivechatTransferHistoryFallback,
    /// The livechat conversation was closed.
    LivechatClose,
    /// The livechat conversation was started.
    LivechatStarted,
    /// The conversation priority changed; see the message's `priorityData`.
    OmnichannelPriorityChangeHistory,
    /// The conversation SLA changed; see the message's `slaData`.
    OmnichannelSlaChangeHistory,
    /// The conversation was placed on hold.
    OmnichannelPlacedChatOnHold,
    /// An on-hold conversation was resumed.
    OmnichannelOnHoldChatResumed,
    /// A value this library does not know about. It is written back unchanged.
    Unknown(String),
}

impl MessageType {
    /// The value as it appears on the wire.
    pub open spec fn wire(&self) -> Seq<char> {
        match *self {
            MessageType::E2e => "e2e"@,
            MessageType::Uj => "uj"@,
            MessageType::Ui => "ui"@,
            MessageType::Uir => "uir"@,
            MessageType::Ul => "ul"@,
            MessageType::Ru => "ru"@,
            MessageType::Au => "au"@,
            MessageType::MuteUnmute => "mute_unmute"@,
            MessageType::R => "r"@,
            MessageType::Ut => "ut"@,
            MessageType::Wm => "wm"@,
            MessageType::Rm => "rm"@,
            MessageType::SubscriptionRoleAdded => "subscription-role-added"@,
            MessageType::SubscriptionRoleRemoved => "subscription-role-removed"@,
            MessageType::RoomArchived => "room-archived"@,
            MessageType::RoomUnarchived => "room-unarchived"@,
            MessageType::RoomChangedPrivacy => "room_changed_privacy"@,
            MessageType::RoomChangedDescription => "room_changed_description"@,
            MessageType::RoomChangedAnnouncement => "room_changed_announcement"@,
            MessageType::RoomChangedAvatar => "room_changed_avatar"@,
            MessageType::RoomChangedTopic => "room_changed_topic"@,
            MessageType::RoomE2eEnabled => "room_e2e_enabled"@,
            MessageType::RoomE2eDisabled => "room_e2e_disabled"@,
            MessageType::UserMuted => "user-muted"@,
            MessageType::UserUnmuted => "user-unmuted"@,
            MessageType::UserBanned => "user-banned"@,
            MessageType::UserUnbanned => "user-unbanned"@,
            MessageType::RoomRemovedReadOnly => "room-removed-read-only"@,
            MessageType::RoomSetReadOnly => "room-set-read-only"@,
            MessageType::RoomAllowedReacting => "room-allowed-reacting"@,
            MessageType::RoomDisallowedReacting => "room-disallowed-reacting"@,
            MessageType::Command => "command"@,
            MessageType::Videoconf => "videoconf"@,
            MessageType::MessagePinned => "message_pinned"@,
            MessageType::MessagePinnedE2e => "message_pinned_e2e"@,
            MessageType::NewModerator => "new-moderator"@,
            MessageType::ModeratorRemoved => "moderator-removed"@,
            MessageType::NewOwner => "new-owner"@,
            MessageType::OwnerRemoved => "owner-removed"@,
            MessageType::NewLeader => "new-leader"@,
            MessageType::LeaderRemoved => "leader-removed"@,
            MessageType::DiscussionCreated => "discussion-created"@,
            MessageType::AbacRemovedUserFromRoom => "abac-removed-user-from-room"@,
            MessageType::RemovedUserFromTeam => "removed-user-from-team"@,
            MessageType::AddedUserToTeam => "added-user-to-team"@,
            MessageType::Ult => "ult"@,
            MessageType::UserConvertedToTeam => "user-converted-to-team"@,
            MessageType::UserConvertedToChannel => "user-converted-to-channel"@,
            MessageType::UserRemovedRoomFromTeam => "user-removed-room-from-team"@,
            MessageType::UserDeletedRoomFromTeam => "user-deleted-room-from-team"@,
            MessageType::UserAddedRoomToTeam => "user-added-room-to-team"@,
            MessageType::Ujt => "ujt"@,
            MessageType::LivechatNavigationHistory => "livechat_navigation_history"@,
            MessageType::LivechatTransferHistory => "livechat_transfer_history"@,
            MessageType::LivechatTranscriptHistory => "livechat_transcript_history"@,
            MessageType::LivechatVideoCall => "livechat_video_call"@,
            MessageType::LivechatTransferHistoryFallback => "livechat_transfer_history_fallback"@,
            MessageType::LivechatClose => "livechat-close"@,
            MessageType::LivechatStarted => "livechat-started"@,
            MessageType::OmnichannelPriorityChangeHistory => "omnichannel_priority_change_history"@,
            MessageType::OmnichannelSlaChangeHistory => "omnichannel_sla_change_history"@,
            MessageType::OmnichannelPlacedChatOnHold => "omnichannel_placed_chat_on_hold"@,
            MessageType::OmnichannelOnHoldChatResumed => "omnichannel_on_hold_chat_resumed"@,
            MessageType::Unknown(other) => other@,
        }
    }

    /// Whether a wire value has a variant of its own.
    pub open spec fn known(value: Seq<char>) -> bool {
        ||| value == "e2e"@
        ||| value == "uj"@
        ||| value == "ui"@
        ||| value == "uir"@
        ||| value == "ul"@
        ||| value == "ru"@
        ||| value == "au"@
        ||| value == "mute_unmute"@
        ||| value == "r"@
        ||| value == "ut"@
        ||| value == "wm"@
        ||| value == "rm"@
        ||| value == "subscription-role-added"@
        ||| value == "subscription-role-removed"@
        ||| value == "room-archived"@
        ||| value == "room-unarchived"@
        ||| value == "room_changed_privacy"@
        ||| value == "room_changed_description"@
        ||| value == "room_changed_announcement"@
        ||| value == "room_changed_avatar"@
        ||| value == "room_changed_topic"@
        ||| value == "room_e2e_enabled"@
        ||| value == "room_e2e_disabled"@
        ||| value == "user-muted"@
        ||| value == "user-unmuted"@
        ||| value == "user-banned"@
        ||| value == "user-unbanned"@
        ||| value == "room-removed-read-only"@
        ||| value == "room-set-read-only"@
        ||| value == "room-allowed-reacting"@
        ||| value == "room-disallowed-reacting"@
        ||| value == "command"@
        ||| value == "videoconf"@
        ||| value == "message_pinned"@
        ||| value == "message_pinned_e2e"@
        ||| value == "new-moderator"@
        ||| value == "moderator-removed"@
        ||| value == "new-owner"@
        ||| value == "owner-removed"@
        ||| value == "new-leader"@
        ||| value == "leader-removed"@
        ||| value == "discussion-created"@
        ||| value == "abac-removed-user-from-room"@
        ||| value == "removed-user-from-team"@
        ||| value == "added-user-to-team"@
        ||| value == "ult"@
        ||| value == "user-converted-to-team"@
        ||| value == "user-converted-to-channel"@
        ||| value == "user-removed-room-from-team"@
        ||| value == "user-deleted-room-from-team"@
        ||| value == "user-added-room-to-team"@
        ||| value == "ujt"@
        ||| value == "livechat_navigation_history"@
        ||| value == "livechat_transfer_history"@
        ||| value == "livechat_transcript_history"@
        ||| value == "livechat_video_call"@
        ||| value == "livechat_transfer_history_fallback"@
        ||| value == "livechat-close"@
        ||| value == "livechat-started"@
        ||| value == "omnichannel_priority_change_history"@
        ||| value == "omnichannel_sla_change_history"@
        ||| value == "omnichannel_placed_chat_on_hold"@
        ||| value == "omnichannel_on_hold_chat_resumed"@
    }

    /// Whether two values are the same.
    pub open spec fn same_as(&self, other: &MessageType) -> bool {
        self.wire() == other.wire() && (*self is Unknown <==> *other is Unknown)
    }

    /// The value as it appears on the wire.
    pub fn as_str(&self) -> (r: &str)
        ensures
            r@ == self.wire(),
    {
        match self {
            MessageType::E2e => "e2e",
            MessageType::Uj => "uj",
            MessageType::Ui => "ui",
            MessageType::Uir => "uir",
            MessageType::Ul => "ul",
            MessageType::Ru => "ru",
            MessageType::Au => "au",
            MessageType::MuteUnmute => "mute_unmute",
            MessageType::R => "r",
            MessageType::Ut => "ut",
            MessageType::Wm => "wm",
            MessageType::Rm => "rm",
            MessageType::SubscriptionRoleAdded => "subscription-role-added",
            MessageType::SubscriptionRoleRemoved => "subscription-role-removed",
            MessageType::RoomArchived => "room-archived",
            MessageType::RoomUnarchived => "room-unarchived",
            MessageType::RoomChangedPrivacy => "room_changed_privacy",
            MessageType::RoomChangedDescription => "room_changed_description",
            MessageType::RoomChangedAnnouncement => "room_changed_announcement",
            MessageType::RoomChangedAvatar => "room_changed_avatar",
            MessageType::RoomChangedTopic => "room_changed_topic",
            MessageType::RoomE2eEnabled => "room_e2e_enabled",
            MessageType::RoomE2eDisabled => "room_e2e_disabled",
            MessageType::UserMuted => "user-muted",
            MessageType::UserUnmuted => "user-unmuted",
            MessageType::UserBanned => "user-banned",
            MessageType::UserUnbanned => "user-unbanned",
            MessageType::RoomRemovedReadOnly => "room-removed-read-only",
            MessageType::RoomSetReadOnly => "room-set-read-only",
            MessageType::RoomAllowedReacting => "room-allowed-reacting",
            MessageType::RoomDisallowedReacting => "room-disallowed-reacting",
            MessageType::Command => "command",
            MessageType::Videoconf => "videoconf",
            MessageType::MessagePinned => "message_pinned",
            MessageType::MessagePinnedE2e => "message_pinned_e2e",
            MessageType::NewModerator => "new-moderator",
            MessageType::ModeratorRemoved => "moderator-removed",
            MessageType::NewOwner => "new-owner",
            MessageType::OwnerRemoved => "owner-removed",
            MessageType::NewLeader => "new-leader",
            MessageType::LeaderRemoved => "leader-removed",
            MessageType::DiscussionCreated => "discussion-created",
            MessageType::AbacRemovedUserFromRoom => "abac-removed-user-from-room",
            MessageType::RemovedUserFromTeam => "removed-user-from-team",
            MessageType::AddedUserToTeam => "added-user-to-team",
            MessageType::Ult => "ult",
            MessageType::UserConvertedToTeam => "user-converted-to-team",
            MessageType::UserConvertedToChannel => "user-converted-to-channel",
            MessageType::UserRemovedRoomFromTeam => "user-removed-room-from-team",
            MessageType::UserDeletedRoomFromTeam => "user-deleted-room-from-team",
            MessageType::UserAddedRoomToTeam => "user-added-room-to-team",
            MessageType::Ujt => "ujt",
            MessageType::LivechatNavigationHistory => "livechat_navigation_history",
            MessageType::LivechatTransferHistory => "livechat_transfer_history",
            MessageType::LivechatTranscriptHistory => "livechat_transcript_history",
            MessageType::LivechatVideoCall => "livechat_video_call",
            MessageType::LivechatTransferHistoryFallback => "livechat_transfer_history_fallback",
            MessageType::LivechatClose => "livechat-close",
            MessageType::LivechatStarted => "livechat-started",
            MessageType::OmnichannelPriorityChangeHistory => "omnichannel_priority_change_history",
            MessageType::OmnichannelSlaChangeHistory => "omnichannel_sla_change_history",
            MessageType::OmnichannelPlacedChatOnHold => "omnichannel_placed_chat_on_hold",
            MessageType::OmnichannelOnHoldChatResumed => "omnichannel_on_hold_chat_resumed",
            MessageType::Unknown(other) => other.as_str(),
        }
    }

    /// Whether this value was not recognised by this version of the library.
    pub fn is_unknown(&self) -> (r: bool)
        ensures
            r == (*self is Unknown),
    {
        match self {
            MessageType::Unknown(_) => true,
            _ => false,
        }
    }

    /// Reads a wire value.
    pub fn parse(value: &str) -> (r: MessageType)
        ensures
            value@ == "e2e"@ <==> r is E2e,
            value@ == "uj"@ <==> r is Uj,
            value@ == "ui"@ <==> r is Ui,
            value@ == "uir"@ <==> r is Uir,
            value@ == "ul"@ <==> r is Ul,
            value@ == "ru"@ <==> r is Ru,
            value@ == "au"@ <==> r is Au,
            value@ == "mute_unmute"@ <==> r is MuteUnmute,
            value@ == "r"@ <==> r is R,
            value@ == "ut"@ <==> r is Ut,
            value@ == "wm"@ <==> r is Wm,
            value@ == "rm"@ <==> r is Rm,
            value@ == "subscription-role-added"@ <==> r is SubscriptionRoleAdded,
            value@ == "subscription-role-removed"@ <==> r is SubscriptionRoleRemoved,
            value@ == "room-archived"@ <==> r is RoomArchived,
            value@ == "room-unarchived"@ <==> r is RoomUnarchived,
            value@ == "room_changed_privacy"@ <==> r is RoomChangedPrivacy,
            value@ == "room_changed_description"@ <==> r is RoomChangedDescription,
            value@ == "room_changed_announcement"@ <==> r is RoomChangedAnnouncement,
            value@ == "room_changed_avatar"@ <==> r is RoomChangedAvatar,
            value@ == "room_changed_topic"@ <==> r is RoomChangedTopic,
            value@ == "room_e2e_enabled"@ <==> r is RoomE2eEnabled,
            value@ == "room_e2e_disabled"@ <==> r is RoomE2eDisabled,
            value@ == "user-muted"@ <==> r is UserMuted,
            value@ == "user-unmuted"@ <==> r is UserUnmuted,
            value@ == "user-banned"@ <==> r is UserBanned,
            value@ == "user-unbanned"@ <==> r is UserUnbanned,
            value@ == "room-removed-read-only"@ <==> r is RoomRemovedReadOnly,
            value@ == "room-set-read-only"@ <==> r is RoomSetReadOnly,
            value@ == "room-allowed-reacting"@ <==> r is RoomAllowedReacting,
            value@ == "room-disallowed-reacting"@ <==> r is RoomDisallowedReacting,
            value@ == "command"@ <==> r is Command,
            value@ == "videoconf"@ <==> r is Videoconf,
            value@ == "message_pinned"@ <==> r is MessagePinned,
            value@ == "message_pinned_e2e"@ <==> r is MessagePinnedE2e,
            value@ == "new-moderator"@ <==> r is NewModerator,
            value@ == "moderator-removed"@ <==> r is ModeratorRemoved,
            value@ == "new-owner"@ <==> r is NewOwner,
            value@ == "owner-removed"@ <==> r is OwnerRemoved,
            value@ == "new-leader"@ <==> r is NewLeader,
            value@ == "leader-removed"@ <==> r is LeaderRemoved,
            value@ == "discussion-created"@ <==> r is DiscussionCreated,
            value@ == "abac-removed-user-from-room"@ <==> r is AbacRemovedUserFromRoom,
            value@ == "removed-user-from-team"@ <==> r is RemovedUserFromTeam,
            value@ == "added-user-to-team"@ <==> r is AddedUserToTeam,
            value@ == "ult"@ <==> r is Ult,
            value@ == "user-converted-to-team"@ <==> r is UserConvertedToTeam,
            value@ == "user-converted-to-channel"@ <==> r is UserConvertedToChannel,
            value@ == "user-removed-room-from-team"@ <==> r is UserRemovedRoomFromTeam,
            value@ == "user-deleted-room-from-team"@ <==> r is UserDeletedRoomFromTeam,
            value@ == "user-added-room-to-team"@ <==> r is UserAddedRoomToTeam,
            value@ == "ujt"@ <==> r is Ujt,
            value@ == "livechat_navigation_history"@ <==> r is LivechatNavigationHistory,
            value@ == "livechat_transfer_history"@ <==> r is LivechatTransferHistory,
            value@ == "livechat_transcript_history"@ <==> r is LivechatTranscriptHistory,
            value@ == "livechat_video_call"@ <==> r is LivechatVideoCall,
            value@ == "livechat_transfer_history_fallback"@ <==> r is LivechatTransferHistoryFallback,
            value@ == "livechat-close"@ <==> r is LivechatClose,
            value@ == "livechat-started"@ <==> r is LivechatStarted,
            value@ == "omnichannel_priority_change_history"@ <==> r is OmnichannelPriorityChangeHistory,
            value@ == "omnichannel_sla_change_history"@ <==> r is OmnichannelSlaChangeHistory,
            value@ == "omnichannel_placed_chat_on_hold"@ <==> r is OmnichannelPlacedChatOnHold,
            value@ == "omnichannel_on_hold_chat_resumed"@ <==> r is OmnichannelOnHoldChatResumed,
            r matches MessageType::Unknown(other) ==> other@ == value@,
            r.wire() == value@,
            r is Unknown <==> !MessageType::known(value@),
    {
        proof {
            lemma_message_type_apart();
        }
        if str_eq(value, "e2e") {
            MessageType::E2e
        } else if str_eq(value, "uj") {
            MessageType::Uj
        } else if str_eq(value, "ui") {
            MessageType::Ui
        } else if str_eq(value, "uir") {
            MessageType::Uir
        } else if str_eq(value, "ul") {
            MessageType::Ul
        } else if str_eq(value, "ru") {
            MessageType::Ru
        } else if str_eq(value, "au") {
            MessageType::Au
        } else if str_eq(value, "mute_unmute") {
            MessageType::MuteUnmute
        } else if str_eq(value, "r") {
            MessageType::R
        } else if str_eq(value, "ut") {
            MessageType::Ut
        } else if str_eq(value, "wm") {
            MessageType::Wm
        } else if str_eq(value, "rm") {
            MessageType::Rm
        } else if str_eq(value, "subscription-role-added") {
            MessageType::SubscriptionRoleAdded
        } else if str_eq(value, "subscription-role-removed") {
            MessageType::SubscriptionRoleRemoved
        } else if str_eq(value, "room-archived") {
            MessageType::RoomArchived
        } else if str_eq(value, "room-unarchived") {
            MessageType::RoomUnarchived
        } else if str_eq(value, "room_changed_privacy") {
            MessageType::RoomChangedPrivacy
        } else if str_eq(value, "room_changed_description") {
            MessageType::RoomChangedDescription
        } else if str_eq(value, "room_changed_announcement") {
            MessageType::RoomChangedAnnouncement
        } else if str_eq(value, "room_changed_avatar") {
            MessageType::RoomChangedAvatar
        } else if str_eq(value, "room_changed_topic") {
            MessageType::RoomChangedTopic
        } else if str_eq(value, "room_e2e_enabled") {
            MessageType::RoomE2eEnabled
        } else if str_eq(value, "room_e2e_disabled") {
            MessageType::RoomE2eDisabled
        } else if str_eq(value, "user-muted") {
            MessageType::UserMuted
        } else if str_eq(value, "user-unmuted") {
            MessageType::UserUnmuted
        } else if str_eq(value, "user-banned") {
            MessageType::UserBanned
        } else if str_eq(value, "user-unbanned") {
            MessageType::UserUnbanned
        } else if str_eq(value, "room-removed-read-only") {
            MessageType::RoomRemovedReadOnly
        } else if str_eq(value, "room-set-read-only") {
            MessageType::RoomSetReadOnly
        } else if str_eq(value, "room-allowed-reacting") {
            MessageType::RoomAllowedReacting
        } else if str_eq(value, "room-disallowed-reacting") {
            MessageType::RoomDisallowedReacting
        } else if str_eq(value, "command") {
            MessageType::Command
        } else if str_eq(value, "videoconf") {
            MessageType::Videoconf
        } else if str_eq(value, "message_pinned") {
            MessageType::MessagePinned
        } else if str_eq(value, "message_pinned_e2e") {
            MessageType::MessagePinnedE2e
        } else if str_eq(value, "new-moderator") {
            MessageType::NewModerator
        } else if str_eq(value, "moderator-removed") {
            MessageType::ModeratorRemoved
        } else if str_eq(value, "new-owner") {
            MessageType::NewOwner
        } else if str_eq(value, "owner-removed") {
            MessageType::OwnerRemoved
        } else if str_eq(value, "new-leader") {
            MessageType::NewLeader
        } else if str_eq(value, "leader-removed") {
            MessageType::LeaderRemoved
        } else if str_eq(value, "discussion-created") {
            MessageType::DiscussionCreated
        } else if str_eq(value, "abac-removed-user-from-room") {
            MessageType::AbacRemovedUserFromRoom
        } else if str_eq(value, "removed-user-from-team") {
            MessageType::RemovedUserFromTeam
        } else if str_eq(value, "added-user-to-team") {
            MessageType::AddedUserToTeam
        } else if str_eq(value, "ult") {
            MessageType::Ult
        } else if str_eq(value, "user-converted-to-team") {
            MessageType::UserConvertedToTeam
        } else if str_eq(value, "user-converted-to-channel") {
            MessageType::UserConvertedToChannel
        } else if str_eq(value, "user-removed-room-from-team") {
            MessageType::UserRemovedRoomFromTeam
        } else if str_eq(value, "user-deleted-room-from-team") {
            MessageType::UserDeletedRoomFromTeam
        } else if str_eq(value, "user-added-room-to-team") {
            MessageType::UserAddedRoomToTeam
        } else if str_eq(value, "ujt") {
            MessageType::Ujt
        } else if str_eq(value, "livechat_navigation_history") {
            MessageType::LivechatNavigationHistory
        } else if str_eq(value, "livechat_transfer_history") {
            MessageType::LivechatTransferHistory
        } else if str_eq(value, "livechat_transcript_history") {
            MessageType::LivechatTranscriptHistory
        } else if str_eq(value, "livechat_video_call") {
            MessageType::LivechatVideoCall
        } else if str_eq(value, "livechat_transfer_history_fallback") {
            MessageType::LivechatTransferHistoryFallback
        } else if str_eq(value, "livechat-close") {
            MessageType::LivechatClose
        } else if str_eq(value, "livechat-started") {
            MessageType::LivechatStarted
        } else if str_eq(value, "omnichannel_priority_change_history") {
            MessageType::OmnichannelPriorityChangeHistory
        } else if str_eq(value, "omnichannel_sla_change_history") {
            MessageType::OmnichannelSlaChangeHistory
        } else if str_eq(value, "omnichannel_placed_chat_on_hold") {
            MessageType::OmnichannelPlacedChatOnHold
        } else if str_eq(value, "omnichannel_on_hold_chat_resumed") {
            MessageType::OmnichannelOnHoldChatResumed
        } else {
            MessageType::Unknown(value.to_owned())
        }
    }

    /// Whether two values are the same.
    pub fn same(&self, other: &MessageType) -> (r: bool)
        ensures
            r == self.same_as(other),
    {
        str_eq(self.as_str(), other.as_str()) && self.is_unknown() == other.is_unknown()
    }
}

impl<'a> From<&'a str> for MessageType {
    fn from(value: &'a str) -> (r: MessageType)
        ensures
            r.wire() == value@,
            r is Unknown <==> !MessageType::known(value@),
    {
        MessageType::parse(value)
    }
}

impl<'a> vstd::std_specs::convert::FromSpecImpl<&'a str> for MessageType {
    open spec fn obeys_from_spec() -> bool {
        false
    }

    open spec fn from_spec(value: &'a str) -> MessageType {
        arbitrary()
    }
}

impl From<String> for MessageType {
    fn from(value: String) -> (r: MessageType)
        ensures
            r.wire() == value@,
            r is Unknown <==> !MessageType::known(value@),
    {
        MessageType::parse(value.as_str())
    }
}

impl vstd::std_specs::convert::FromSpecImpl<String> for MessageType {
    open spec fn obeys_from_spec() -> bool {
        false
    }

    open spec fn from_spec(value: String) -> MessageType {
        arbitrary()
    }
}

impl From<MessageType> for String {
    fn from(value: MessageType) -> (r: String)
        ensures
            r@ == value.wire(),
    {
        value.as_str().to_owned()
    }
}

impl vstd::std_specs::convert::FromSpecImpl<MessageType> for String {
    open spec fn obeys_from_spec() -> bool {
        false
    }

    open spec fn from_spec(value: MessageType) -> String {
        arbitrary()
    }
}

impl AsRef<str> for MessageType {
    fn as_ref(&self) -> (r: &str)
        ensures
            r@ == self.wire(),
    {
        self.as_str()
    }
}

impl Decode for MessageType {
    open spec fn accepts(j: JsonView) -> bool {
        j is String
    }

    open spec fn read_from(&self, j: JsonView) -> bool {
        j == JsonView::String(self.wire()) && (*self is Unknown <==> !MessageType::known(self.wire()))
    }

    fn decode(j: &Json) -> (r: Option<MessageType>) {
        match j {
            Json::String(s) => Some(MessageType::parse(s.as_str())),
            _ => None,
        }
    }
}

impl Encode for MessageType {
    open spec fn doc(&self) -> JsonView {
        JsonView::String(self.wire())
    }

    fn encode(&self) -> (r: Json) {
        Json::string(self.as_str())
    }
}

impl Duplicate for MessageType {
    open spec fn alike(&self, other: &MessageType) -> bool {
        self.same_as(other)
    }

    fn dup(&self) -> (r: MessageType) {
        match self {
            MessageType::E2e => MessageType::E2e,
            MessageType::Uj => MessageType::Uj,
            MessageType::Ui => MessageType::Ui,
            MessageType::Uir => MessageType::Uir,
            MessageType::Ul => MessageType::Ul,
            MessageType::Ru => MessageType::Ru,
            MessageType::Au => MessageType::Au,
            MessageType::MuteUnmute => MessageType::MuteUnmute,
            MessageType::R => MessageType::R,
            MessageType::Ut => MessageType::Ut,
            MessageType::Wm => MessageType::Wm,
            MessageType::Rm => MessageType::Rm,
            MessageType::SubscriptionRoleAdded => MessageType::SubscriptionRoleAdded,
            MessageType::SubscriptionRoleRemoved => MessageType::SubscriptionRoleRemoved,
            MessageType::RoomArchived => MessageType::RoomArchived,
            MessageType::RoomUnarchived => MessageType::RoomUnarchived,
            MessageType::RoomChangedPrivacy => MessageType::RoomChangedPrivacy,
            MessageType::RoomChangedDescription => MessageType::RoomChangedDescription,
            MessageType::RoomChangedAnnouncement => MessageType::RoomChangedAnnouncement,
            MessageType::RoomChangedAvatar => MessageType::RoomChangedAvatar,
            MessageType::RoomChangedTopic => MessageType::RoomChangedTopic,
            MessageType::RoomE2eEnabled => MessageType::RoomE2eEnabled,
            MessageType::RoomE2eDisabled => MessageType::RoomE2eDisabled,
            MessageType::UserMuted => MessageType::UserMuted,
            MessageType::UserUnmuted => MessageType::UserUnmuted,
            MessageType::UserBanned => MessageType::UserBanned,
            MessageType::UserUnbanned => MessageType::UserUnbanned,
            MessageType::RoomRemovedReadOnly => MessageType::RoomRemovedReadOnly,
            MessageType::RoomSetReadOnly => MessageType::RoomSetReadOnly,
            MessageType::RoomAllowedReacting => MessageType::RoomAllowedReacting,
            MessageType::RoomDisallowedReacting => MessageType::RoomDisallowedReacting,
            MessageType::Command => MessageType::Command,
            MessageType::Videoconf => MessageType::Videoconf,
            MessageType::MessagePinned => MessageType::MessagePinned,
            MessageType::MessagePinnedE2e => MessageType::MessagePinnedE2e,
            MessageType::NewModerator => MessageType::NewModerator,
            MessageType::ModeratorRemoved => MessageType::ModeratorRemoved,
            MessageType::NewOwner => MessageType::NewOwner,
            MessageType::OwnerRemoved => MessageType::OwnerRemoved,
            MessageType::NewLeader => MessageType::NewLeader,
            MessageType::LeaderRemoved => MessageType::LeaderRemoved,
            MessageType::DiscussionCreated => MessageType::DiscussionCreated,
            MessageType::AbacRemovedUserFromRoom => MessageType::AbacRemovedUserFromRoom,
            MessageType::RemovedUserFromTeam => MessageType::RemovedUserFromTeam,
            MessageType::AddedUserToTeam => MessageType::AddedUserToTeam,
            MessageType::Ult => MessageType::Ult,
            MessageType::UserConvertedToTeam => MessageType::UserConvertedToTeam,
            MessageType::UserConvertedToChannel => MessageType::UserConvertedToChannel,
            MessageType::UserRemovedRoomFromTeam => MessageType::UserRemovedRoomFromTeam,
            MessageType::UserDeletedRoomFromTeam => MessageType::UserDeletedRoomFromTeam,
            MessageType::UserAddedRoomToTeam => MessageType::UserAddedRoomToTeam,
            MessageType::Ujt => MessageType::Ujt,
            MessageType::LivechatNavigationHistory => MessageType::LivechatNavigationHistory,
            MessageType::LivechatTransferHistory => MessageType::LivechatTransferHistory,
            MessageType::LivechatTranscriptHistory => MessageType::LivechatTranscriptHistory,
            MessageType::LivechatVideoCall => MessageType::LivechatVideoCall,
            MessageType::LivechatTransferHistoryFallback => MessageType::LivechatTransferHistoryFallback,
            MessageType::LivechatClose => MessageType::LivechatClose,
            MessageType::LivechatStarted => MessageType::LivechatStarted,
            MessageType::OmnichannelPriorityChangeHistory => MessageType::OmnichannelPriorityChangeHistory,
            MessageType::OmnichannelSlaChangeHistory => MessageType::OmnichannelSlaChangeHistory,
            MessageType::OmnichannelPlacedChatOnHold => MessageType::OmnichannelPlacedChatOnHold,
            MessageType::OmnichannelOnHoldChatResumed => MessageType::OmnichannelOnHoldChatResumed,
            MessageType::Unknown(other) => MessageType::Unknown(other.clone()),
        }
    }
}

/// The kind of a room, the `t` field of `Room` and `Subscription`.
#[derive(Clone, Debug, PartialEq, Eq, Hash, PartialOrd, Ord)]
pub enum RoomType {
    /// Public channel.
    Channel,
    /// Private group.
    Private,
    /// Direct message room.
    Direct,
    /// Omnichannel / livechat conversation.
    Omnichannel,
    /// A value this library does not know about. It is written back unchanged.
    Unknown(String),
}

impl RoomType {
    /// The value as it appears on the wire.
    pub open spec fn wire(&self) -> Seq<char> {
        match *self {
            RoomType::Channel => "c"@,
            RoomType::Private => "p"@,
            RoomType::Direct => "d"@,
            RoomType::Omnichannel => "l"@,
            RoomType::Unknown(other) => other@,
        }
    }

    /// Whether a wire value has a variant of its own.
    pub open spec fn known(value: Seq<char>) -> bool {
        ||| value == "c"@
        ||| value == "p"@
        ||| value == "d"@
        ||| value == "l"@
    }

    /// Whether two values are the same.
    pub open spec fn same_as(&self, other: &RoomType) -> bool {
        self.wire() == other.wire() && (*self is Unknown <==> *other is Unknown)
    }

    /// The value as it appears on the wire.
    pub fn as_str(&self) -> (r: &str)
        ensures
            r@ == self.wire(),
    {
        match self {
            RoomType::Channel => "c",
            RoomType::Private => "p",
            RoomType::Direct => "d",
            RoomType::Omnichannel => "l",
            RoomType::Unknown(other) => other.as_str(),
        }
    }

    /// Whether this value was not recognised by this version of the library.
    pub fn is_unknown(&self) -> (r: bool)
        ensures
            r == (*self is Unknown),
    {
        match self {
            RoomType::Unknown(_) => true,
            _ => false,
        }
    }

    /// Reads a wire value.
    pub fn parse(value: &str) -> (r: RoomType)
        ensures
            value@ == "c"@ <==> r is Channel,
            value@ == "p"@ <==> r is Private,
            value@ == "d"@ <==> r is Direct,
            value@ == "l"@ <==> r is Omnichannel,
            r matches RoomType::Unknown(other) ==> other@ == value@,
            r.wire() == value@,
            r is Unknown <==> !RoomType::known(value@),
    {
        proof {
            lemma_room_type_apart();
        }
        if str_eq(value, "c") {
            RoomType::Channel
        } else if str_eq(value, "p") {
            RoomType::Private
        } else if str_eq(value, "d") {
            RoomType::Direct
        } else if str_eq(value, "l") {
            RoomType::Omnichannel
        } else {
            RoomType::Unknown(value.to_owned())
        }
    }

    /// Whether two values are the same.
    pub fn same(&self, other: &RoomType) -> (r: bool)
        ensures
            r == self.same_as(other),
    {
        str_eq(self.as_str(), other.as_str()) && self.is_unknown() == other.is_unknown()
    }
}

impl<'a> From<&'a str> for RoomType {
    fn from(value: &'a str) -> (r: RoomType)
        ensures
            r.wire() == value@,
            r is Unknown <==> !RoomType::known(value@),
    {
        RoomType::parse(value)
    }
}

impl<'a> vstd::std_specs::convert::FromSpecImpl<&'a str> for RoomType {
    open spec fn obeys_from_spec() -> bool {
        false
    }

    open spec fn from_spec(value: &'a str) -> RoomType {
        arbitrary()
    }
}

impl From<String> for RoomType {
    fn from(value: String) -> (r: RoomType)
        ensures
            r.wire() == value@,
            r is Unknown <==> !RoomType::known(value@),
    {
        RoomType::parse(value.as_str())
    }
}

impl vstd::std_specs::convert::FromSpecImpl<String> for RoomType {
    open spec fn obeys_from_spec() -> bool {
        false
    }

    open spec fn from_spec(value: String) -> RoomType {
        arbitrary()
    }
}

impl From<RoomType> for String {
    fn from(value: RoomType) -> (r: String)
        ensures
            r@ == value.wire(),
    {
        value.as_str().to_owned()
    }
}

impl vstd::std_specs::convert::FromSpecImpl<RoomType> for String {
    open spec fn obeys_from_spec() -> bool {
        false
    }

    open spec fn from_spec(value: RoomType) -> String {
        arbitrary()
    }
}

impl AsRef<str> for RoomType {
    fn as_ref(&self) -> (r: &str)
        ensures
            r@ == self.wire(),
    {
        self.as_str()
    }
}

impl Decode for RoomType {
    open spec fn accepts(j: JsonView) -> bool {
        j is String
    }

    open spec fn read_from(&self, j: JsonView) -> bool {
        j == JsonView::String(self.wire()) && (*self is Unknown <==> !RoomType::known(self.wire()))
    }

    fn decode(j: &Json) -> (r: Option<RoomType>) {
        match j {
            Json::String(s) => Some(RoomType::parse(s.as_str())),
            _ => None,
        }
    }
}

impl Encode for RoomType {
    open spec fn doc(&self) -> JsonView {
        JsonView::String(self.wire())
    }

    fn encode(&self) -> (r: Json) {
        Json::string(self.as_str())
    }
}

impl Duplicate for RoomType {
    open spec fn alike(&self, other: &RoomType) -> bool {
        self.same_as(other)
    }

    fn dup(&self) -> (r: RoomType) {
        match self {
            RoomType::Channel => RoomType::Channel,
            RoomType::Private => RoomType::Private,
            RoomType::Direct => RoomType::Direct,
            RoomType::Omnichannel => RoomType::Omnichannel,
            RoomType::Unknown(other) => RoomType::Unknown(other.clone()),
        }
    }
}

/// A user's presence.
#[derive(Clone, Debug, PartialEq, Eq, Hash, PartialOrd, Ord)]
pub enum UserStatus {
    /// Connected and active.
    Online,
    /// Connected but idle, or manually set to away.
    Away,
    /// Manually set to do-not-disturb.
    Busy,
    /// Not connected.
    Offline,
    /// The account is deactivated.
    Disabled,
    /// A value this library does not know about. It is written back unchanged.
    Unknown(String),
}

impl UserStatus {
    /// The value as it appears on the wire.
    pub open spec fn wire(&self) -> Seq<char> {
        match *self {
            UserStatus::Online => "online"@,
            UserStatus::Away => "away"@,
            UserStatus::Busy => "busy"@,
            UserStatus::Offline => "offline"@,
            UserStatus::Disabled => "disabled"@,
            UserStatus::Unknown(other) => other@,
        }
    }

    /// Whether a wire value has a variant of its own.
    pub open spec fn known(value: Seq<char>) -> bool {
        ||| value == "online"@
        ||| value == "away"@
        ||| value == "busy"@
        ||| value == "offline"@
        ||| value == "disabled"@
    }

    /// Whether two values are the same.
    pub open spec fn same_as(&self, other: &UserStatus) -> bool {
        self.wire() == other.wire() && (*self is Unknown <==> *other is Unknown)
    }

    /// The value as it appears on the wire.
    pub fn as_str(&self) -> (r: &str)
        ensures
            r@ == self.wire(),
    {
        match self {
            UserStatus::Online => "online",
            UserStatus::Away => "away",
            UserStatus::Busy => "busy",
            UserStatus::Offline => "offline",
            UserStatus::Disabled => "disabled",
            UserStatus::Unknown(other) => other.as_str(),
        }
    }

    /// Whether this value was not recognised by this version of the library.
    pub fn is_unknown(&self) -> (r: bool)
        ensures
            r == (*self is Unknown),
    {
        match self {
            UserStatus::Unknown(_) => true,
            _ => false,
        }
    }

    /// Reads a wire value.
    pub fn parse(value: &str) -> (r: UserStatus)
        ensures
            value@ == "online"@ <==> r is Online,
            value@ == "away"@ <==> r is Away,
            value@ == "busy"@ <==> r is Busy,
            value@ == "offline"@ <==> r is Offline,
            value@ == "disabled"@ <==> r is Disabled,
            r matches UserStatus::Unknown(other) ==> other@ == value@,
            r.wire() == value@,
            r is Unknown <==> !UserStatus::known(value@),
    {
        proof {
            lemma_user_status_apart();
        }
        if str_eq(value, "online") {
            UserStatus::Online
        } else if str_eq(value, "away") {
            UserStatus::Away
        } else if str_eq(value, "busy") {
            UserStatus::Busy
        } else if str_eq(value, "offline") {
            UserStatus::Offline
        } else if str_eq(value, "disabled") {
            UserStatus::Disabled
        } else {
            UserStatus::Unknown(value.to_owned())
        }
    }

    /// Whether two values are the same.
    pub fn same(&self, other: &UserStatus) -> (r: bool)
        ensures
            r == self.same_as(other),
    {
        str_eq(self.as_str(), other.as_str()) && self.is_unknown() == other.is_unknown()
    }
}

impl<'a> From<&'a str> for UserStatus {
    fn from(value: &'a str) -> (r: UserStatus)
        ensures
            r.wire() == value@,
            r is Unknown <==> !UserStatus::known(value@),
    {
        UserStatus::parse(value)
    }
}

impl<'a> vstd::std_specs::convert::FromSpecImpl<&'a str> for UserStatus {
    open spec fn obeys_from_spec() -> bool {
        false
    }

    open spec fn from_spec(value: &'a str) -> UserStatus {
        arbitrary()
    }
}

impl From<String> for UserStatus {
    fn from(value: String) -> (r: UserStatus)
        ensures
            r.wire() == value@,
            r is Unknown <==> !UserStatus::known(value@),
    {
        UserStatus::parse(value.as_str())
    }
}

impl vstd::std_specs::convert::FromSpecImpl<String> for UserStatus {
    open spec fn obeys_from_spec() -> bool {
        false
    }

    open spec fn from_spec(value: String) -> UserStatus {
        arbitrary()
    }
}

impl From<UserStatus> for String {
    fn from(value: UserStatus) -> (r: String)
        ensures
            r@ == value.wire(),
    {
        value.as_str().to_owned()
    }
}

impl vstd::std_specs::convert::FromSpecImpl<UserStatus> for String {
    open spec fn obeys_from_spec() -> bool {
        false
    }

    open spec fn from_spec(value: UserStatus) -> String {
        arbitrary()
    }
}

impl AsRef<str> for UserStatus {
    fn as_ref(&self) -> (r: &str)
        ensures
            r@ == self.wire(),
    {
        self.as_str()
    }
}

impl Decode for UserStatus {
    open spec fn accepts(j: JsonView) -> bool {
        j is String
    }

    open spec fn read_from(&self, j: JsonView) -> bool {
        j == JsonView::String(self.wire()) && (*self is Unknown <==> !UserStatus::known(self.wire()))
    }

    fn decode(j: &Json) -> (r: Option<UserStatus>) {
        match j {
            Json::String(s) => Some(UserStatus::parse(s.as_str())),
            _ => None,
        }
    }
}

impl Encode for UserStatus {
    open spec fn doc(&self) -> JsonView {
        JsonView::String(self.wire())
    }

    fn encode(&self) -> (r: Json) {
        Json::string(self.as_str())
    }
}

impl Duplicate for UserStatus {
    open spec fn alike(&self, other: &UserStatus) -> bool {
        self.same_as(other)
    }

    fn dup(&self) -> (r: UserStatus) {
        match self {
            UserStatus::Online => UserStatus::Online,
            UserStatus::Away => UserStatus::Away,
            UserStatus::Busy => UserStatus::Busy,
            UserStatus::Offline => UserStatus::Offline,
            UserStatus::Disabled => UserStatus::Disabled,
            UserStatus::Unknown(other) => UserStatus::Unknown(other.clone()),
        }
    }
}

/// Where a user's status came from.
#[derive(Clone, Debug, PartialEq, Eq, Hash, PartialOrd, Ord)]
pub enum PresenceSource {
    /// Derived by the server from connection activity.
    Internal,
    /// Pushed by an external integration.
    External,
    /// Chosen by the user.
    Manual,
    /// A value this library does not know about. It is written back unchanged.
    Unknown(String),
}

impl PresenceSource {
    /// The value as it appears on the wire.
    pub open spec fn wire(&self) -> Seq<char> {
        match *self {
            PresenceSource::Internal => "internal"@,
            PresenceSource::External => "external"@,
            PresenceSource::Manual => "manual"@,
            PresenceSource::Unknown(other) => other@,
        }
    }

    /// Whether a wire value has a variant of its own.
    pub open spec fn known(value: Seq<char>) -> bool {
        ||| value == "internal"@
        ||| value == "external"@
        ||| value == "manual"@
    }

    /// Whether two values are the same.
    pub open spec fn same_as(&self, other: &PresenceSource) -> bool {
        self.wire() == other.wire() && (*self is Unknown <==> *other is Unknown)
    }

    /// The value as it appears on the wire.
    pub fn as_str(&self) -> (r: &str)
        ensures
            r@ == self.wire(),
    {
        match self {
            PresenceSource::Internal => "internal",
            PresenceSource::External => "external",
            PresenceSource::Manual => "manual",
            PresenceSource::Unknown(other) => other.as_str(),
        }
    }

    /// Whether this value was not recognised by this version of the library.
    pub fn is_unknown(&self) -> (r: bool)
        ensures
            r == (*self is Unknown),
    {
        match self {
            PresenceSource::Unknown(_) => true,
            _ => false,
        }
    }

    /// Reads a wire value.
    pub fn parse(value: &str) -> (r: PresenceSource)
        ensures
            value@ == "internal"@ <==> r is Internal,
            value@ == "external"@ <==> r is External,
            value@ == "manual"@ <==> r is Manual,
            r matches PresenceSource::Unknown(other) ==> other@ == value@,
            r.wire() == value@,
            r is Unknown <==> !PresenceSource::known(value@),
    {
        proof {
            lemma_presence_source_apart();
        }
        if str_eq(value, "internal") {
            PresenceSource::Internal
        } else if str_eq(value, "external") {
            PresenceSource::External
        } else if str_eq(value, "manual") {
            PresenceSource::Manual
        } else {
            PresenceSource::Unknown(value.to_owned())
        }
    }

    /// Whether two values are the same.
    pub fn same(&self, other: &PresenceSource) -> (r: bool)
        ensures
            r == self.same_as(other),
    {
        str_eq(self.as_str(), other.as_str()) && self.is_unknown() == other.is_unknown()
    }
}

impl<'a> From<&'a str> for PresenceSource {
    fn from(value: &'a str) -> (r: PresenceSource)
        ensures
            r.wire() == value@,
            r is Unknown <==> !PresenceSource::known(value@),
    {
        PresenceSource::parse(value)
    }
}

impl<'a> vstd::std_specs::convert::FromSpecImpl<&'a str> for PresenceSource {
    open spec fn obeys_from_spec() -> bool {
        false
    }

    open spec fn from_spec(value: &'a str) -> PresenceSource {
        arbitrary()
    }
}

impl From<String> for PresenceSource {
    fn from(value: String) -> (r: PresenceSource)
        ensures
            r.wire() == value@,
            r is Unknown <==> !PresenceSource::known(value@),
    {
        PresenceSource::parse(value.as_str())
    }
}

impl vstd::std_specs::convert::FromSpecImpl<String> for PresenceSource {
    open spec fn obeys_from_spec() -> bool {
        false
    }

    open spec fn from_spec(value: String) -> PresenceSource {
        arbitrary()
    }
}

impl From<PresenceSource> for String {
    fn from(value: PresenceSource) -> (r: String)
        ensures
            r@ == value.wire(),
    {
        value.as_str().to_owned()
    }
}

impl vstd::std_specs::convert::FromSpecImpl<PresenceSource> for String {
    open spec fn obeys_from_spec() -> bool {
        false
    }

    open spec fn from_spec(value: PresenceSource) -> String {
        arbitrary()
    }
}

impl AsRef<str> for PresenceSource {
    fn as_ref(&self) -> (r: &str)
        ensures
            r@ == self.wire(),
    {
        self.as_str()
    }
}

impl Decode for PresenceSource {
    open spec fn accepts(j: JsonView) -> bool {
        j is String
    }

    open spec fn read_from(&self, j: JsonView) -> bool {
        j == JsonView::String(self.wire()) && (*self is Unknown <==> !PresenceSource::known(self.wire()))
    }

    fn decode(j: &Json) -> (r: Option<PresenceSource>) {
        match j {
            Json::String(s) => Some(PresenceSource::parse(s.as_str())),
            _ => None,
        }
    }
}

impl Encode for PresenceSource {
    open spec fn doc(&self) -> JsonView {
        JsonView::String(self.wire())
    }

    fn encode(&self) -> (r: Json) {
        Json::string(self.as_str())
    }
}

impl Duplicate for PresenceSource {
    open spec fn alike(&self, other: &PresenceSource) -> bool {
        self.same_as(other)
    }

    fn dup(&self) -> (r: PresenceSource) {
        match self {
            PresenceSource::Internal => PresenceSource::Internal,
            PresenceSource::External => PresenceSource::External,
            PresenceSource::Manual => PresenceSource::Manual,
            PresenceSource::Unknown(other) => PresenceSource::Unknown(other.clone()),
        }
    }
}

/// End-to-end encryption state of a message.
#[derive(Clone, Debug, PartialEq, Eq, Hash, PartialOrd, Ord)]
pub enum E2eStatus {
    /// The ciphertext has not been decrypted yet.
    Pending,
    /// The message has been decrypted.
    Done,
    /// A value this library does not know about. It is written back unchanged.
    Unknown(String),
}

impl E2eStatus {
    /// The value as it appears on the wire.
    pub open spec fn wire(&self) -> Seq<char> {
        match *self {
            E2eStatus::Pending => "pending"@,
            E2eStatus::Done => "done"@,
            E2eStatus::Unknown(other) => other@,
        }
    }

    /// Whether a wire value has a variant of its own.
    pub open spec fn known(value: Seq<char>) -> bool {
        ||| value == "pending"@
        ||| value == "done"@
    }

    /// Whether two values are the same.
    pub open spec fn same_as(&self, other: &E2eStatus) -> bool {
        self.wire() == other.wire() && (*self is Unknown <==> *other is Unknown)
    }

    /// The value as it appears on the wire.
    pub fn as_str(&self) -> (r: &str)
        ensures
            r@ == self.wire(),
    {
        match self {
            E2eStatus::Pending => "pending",
            E2eStatus::Done => "done",
            E2eStatus::Unknown(other) => other.as_str(),
        }
    }

    /// Whether this value was not recognised by this version of the library.
    pub fn is_unknown(&self) -> (r: bool)
        ensures
            r == (*self is Unknown),
    {
        match self {
            E2eStatus::Unknown(_) => true,
            _ => false,
        }
    }

    /// Reads a wire value.
    pub fn parse(value: &str) -> (r: E2eStatus)
        ensures
            value@ == "pending"@ <==> r is Pending,
            value@ == "done"@ <==> r is Done,
            r matches E2eStatus::Unknown(other) ==> other@ == value@,
            r.wire() == value@,
            r is Unknown <==> !E2eStatus::known(value@),
    {
        proof {
            lemma_e2e_status_apart();
        }
        if str_eq(value, "pending") {
            E2eStatus::Pending
        } else if str_eq(value, "done") {
            E2eStatus::Done
        } else {
            E2eStatus::Unknown(value.to_owned())
        }
    }

    /// Whether two values are the same.
    pub fn same(&self, other: &E2eStatus) -> (r: bool)
        ensures
            r == self.same_as(other),
    {
        str_eq(self.as_str(), other.as_str()) && self.is_unknown() == other.is_unknown()
    }
}

impl<'a> From<&'a str> for E2eStatus {
    fn from(value: &'a str) -> (r: E2eStatus)
        ensures
            r.wire() == value@,
            r is Unknown <==> !E2eStatus::known(value@),
    {
        E2eStatus::parse(value)
    }
}

impl<'a> vstd::std_specs::convert::FromSpecImpl<&'a str> for E2eStatus {
    open spec fn obeys_from_spec() -> bool {
        false
    }

    open spec fn from_spec(value: &'a str) -> E2eStatus {
        arbitrary()
    }
}

impl From<String> for E2eStatus {
    fn from(value: String) -> (r: E2eStatus)
        ensures
            r.wire() == value@,
            r is Unknown <==> !E2eStatus::known(value@),
    {
        E2eStatus::parse(value.as_str())
    }
}

impl vstd::std_specs::convert::FromSpecImpl<String> for E2eStatus {
    open spec fn obeys_from_spec() -> bool {
        false
    }

    open spec fn from_spec(value: String) -> E2eStatus {
        arbitrary()
    }
}

impl From<E2eStatus> for String {
    fn from(value: E2eStatus) -> (r: String)
        ensures
            r@ == value.wire(),
    {
        value.as_str().to_owned()
    }
}

impl vstd::std_specs::convert::FromSpecImpl<E2eStatus> for String {
    open spec fn obeys_from_spec() -> bool {
        false
    }

    open spec fn from_spec(value: E2eStatus) -> String {
        arbitrary()
    }
}

impl AsRef<str> for E2eStatus {
    fn as_ref(&self) -> (r: &str)
        ensures
            r@ == self.wire(),
    {
        self.as_str()
    }
}

impl Decode for E2eStatus {
    open spec fn accepts(j: JsonView) -> bool {
        j is String
    }

    open spec fn read_from(&self, j: JsonView) -> bool {
        j == JsonView::String(self.wire()) && (*self is Unknown <==> !E2eStatus::known(self.wire()))
    }

    fn decode(j: &Json) -> (r: Option<E2eStatus>) {
        match j {
            Json::String(s) => Some(E2eStatus::parse(s.as_str())),
            _ => None,
        }
    }
}

impl Encode for E2eStatus {
    open spec fn doc(&self) -> JsonView {
        JsonView::String(self.wire())
    }

    fn encode(&self) -> (r: Json) {
        Json::string(self.as_str())
    }
}

impl Duplicate for E2eStatus {
    open spec fn alike(&self, other: &E2eStatus) -> bool {
        self.same_as(other)
    }

    fn dup(&self) -> (r: E2eStatus) {
        match self {
            E2eStatus::Pending => E2eStatus::Pending,
            E2eStatus::Done => E2eStatus::Done,
            E2eStatus::Unknown(other) => E2eStatus::Unknown(other.clone()),
        }
    }
}

/// What a `MessageMention` points at.
#[derive(Clone, Debug, PartialEq, Eq, Hash, PartialOrd, Ord)]
pub enum MentionType {
    /// A user mention.
    User,
    /// A team mention.
    Team,
    /// A value this library does not know about. It is written back unchanged.
    Unknown(String),
}

impl MentionType {
    /// The value as it appears on the wire.
    pub open spec fn wire(&self) -> Seq<char> {
        match *self {
            MentionType::User => "user"@,
            MentionType::Team => "team"@,
            MentionType::Unknown(other) => other@,
        }
    }

    /// Whether a wire value has a variant of its own.
    pub open spec fn known(value: Seq<char>) -> bool {
        ||| value == "user"@
        ||| value == "team"@
    }

    /// Whether two values are the same.
    pub open spec fn same_as(&self, other: &MentionType) -> bool {
        self.wire() == other.wire() && (*self is Unknown <==> *other is Unknown)
    }

    /// The value as it appears on the wire.
    pub fn as_str(&self) -> (r: &str)
        ensures
            r@ == self.wire(),
    {
        match self {
            MentionType::User => "user",
            MentionType::Team => "team",
            MentionType::Unknown(other) => other.as_str(),
        }
    }

    /// Whether this value was not recognised by this version of the library.
    pub fn is_unknown(&self) -> (r: bool)
        ensures
            r == (*self is Unknown),
    {
        match self {
            MentionType::Unknown(_) => true,
            _ => false,
        }
    }

    /// Reads a wire value.
    pub fn parse(value: &str) -> (r: MentionType)
        ensures
            value@ == "user"@ <==> r is User,
            value@ == "team"@ <==> r is Team,
            r matches MentionType::Unknown(other) ==> other@ == value@,
            r.wire() == value@,
            r is Unknown <==> !MentionType::known(value@),
    {
        proof {
            lemma_mention_type_apart();
        }
        if str_eq(value, "user") {
            MentionType::User
        } else if str_eq(value, "team") {
            MentionType::Team
        } else {
            MentionType::Unknown(value.to_owned())
        }
    }

    /// Whether two values are the same.
    pub fn same(&self, other: &MentionType) -> (r: bool)
        ensures
            r == self.same_as(other),
    {
        str_eq(self.as_str(), other.as_str()) && self.is_unknown() == other.is_unknown()
    }
}

impl<'a> From<&'a str> for MentionType {
    fn from(value: &'a str) -> (r: MentionType)
        ensures
            r.wire() == value@,
            r is Unknown <==> !MentionType::known(value@),
    {
        MentionType::parse(value)
    }
}

impl<'a> vstd::std_specs::convert::FromSpecImpl<&'a str> for MentionType {
    open spec fn obeys_from_spec() -> bool {
        false
    }

    open spec fn from_spec(value: &'a str) -> MentionType {
        arbitrary()
    }
}

impl From<String> for MentionType {
    fn from(value: String) -> (r: MentionType)
        ensures
            r.wire() == value@,
            r is Unknown <==> !MentionType::known(value@),
    {
        MentionType::parse(value.as_str())
    }
}

impl vstd::std_specs::convert::FromSpecImpl<String> for MentionType {
    open spec fn obeys_from_spec() -> bool {
        false
    }

    open spec fn from_spec(value: String) -> MentionType {
        arbitrary()
    }
}

impl From<MentionType> for String {
    fn from(value: MentionType) -> (r: String)
        ensures
            r@ == value.wire(),
    {
        value.as_str().to_owned()
    }
}

impl vstd::std_specs::convert::FromSpecImpl<MentionType> for String {
    open spec fn obeys_from_spec() -> bool {
        false
    }

    open spec fn from_spec(value: MentionType) -> String {
        arbitrary()
    }
}

impl AsRef<str> for MentionType {
    fn as_ref(&self) -> (r: &str)
        ensures
            r@ == self.wire(),
    {
        self.as_str()
    }
}

impl Decode for MentionType {
    open spec fn accepts(j: JsonView) -> bool {
        j is String
    }

    open spec fn read_from(&self, j: JsonView) -> bool {
        j == JsonView::String(self.wire()) && (*self is Unknown <==> !MentionType::known(self.wire()))
    }

    fn decode(j: &Json) -> (r: Option<MentionType>) {
        match j {
            Json::String(s) => Some(MentionType::parse(s.as_str())),
            _ => None,
        }
    }
}

impl Encode for MentionType {
    open spec fn doc(&self) -> JsonView {
        JsonView::String(self.wire())
    }

    fn encode(&self) -> (r: Json) {
        Json::string(self.as_str())
    }
}

impl Duplicate for MentionType {
    open spec fn alike(&self, other: &MentionType) -> bool {
        self.same_as(other)
    }

    fn dup(&self) -> (r: MentionType) {
        match self {
            MentionType::User => MentionType::User,
            MentionType::Team => MentionType::Team,
            MentionType::Unknown(other) => MentionType::Unknown(other.clone()),
        }
    }
}

/// Notification volume for a subscription.
#[derive(Clone, Debug, PartialEq, Eq, Hash, PartialOrd, Ord)]
pub enum NotificationPreference {
    /// Notify on every message.
    All,
    /// Notify only on mentions.
    Mentions,
    /// Never notify.
    Nothing,
    /// A value this library does not know about. It is written back unchanged.
    Unknown(String),
}

impl NotificationPreference {
    /// The value as it appears on the wire.
    pub open spec fn wire(&self) -> Seq<char> {
        match *self {
            NotificationPreference::All => "all"@,
            NotificationPreference::Mentions => "mentions"@,
            NotificationPreference::Nothing => "nothing"@,
            NotificationPreference::Unknown(other) => other@,
        }
    }

    /// Whether a wire value has a variant of its own.
    pub open spec fn known(value: Seq<char>) -> bool {
        ||| value == "all"@
        ||| value == "mentions"@
        ||| value == "nothing"@
    }

    /// Whether two values are the same.
    pub open spec fn same_as(&self, other: &NotificationPreference) -> bool {
        self.wire() == other.wire() && (*self is Unknown <==> *other is Unknown)
    }

    /// The value as it appears on the wire.
    pub fn as_str(&self) -> (r: &str)
        ensures
            r@ == self.wire(),
    {
        match self {
            NotificationPreference::All => "all",
            NotificationPreference::Mentions => "mentions",
            NotificationPreference::Nothing => "nothing",
            NotificationPreference::Unknown(other) => other.as_str(),
        }
    }

    /// Whether this value was not recognised by this version of the library.
    pub fn is_unknown(&self) -> (r: bool)
        ensures
            r == (*self is Unknown),
    {
        match self {
            NotificationPreference::Unknown(_) => true,
            _ => false,
        }
    }

    /// Reads a wire value.
    pub fn parse(value: &str) -> (r: NotificationPreference)
        ensures
            value@ == "all"@ <==> r is All,
            value@ == "mentions"@ <==> r is Mentions,
            value@ == "nothing"@ <==> r is Nothing,
            r matches NotificationPreference::Unknown(other) ==> other@ == value@,
            r.wire() == value@,
            r is Unknown <==> !NotificationPreference::known(value@),
    {
        proof {
            lemma_notification_preference_apart();
        }
        if str_eq(value, "all") {
            NotificationPreference::All
        } else if str_eq(value, "mentions") {
            NotificationPreference::Mentions
        } else if str_eq(value, "nothing") {
            NotificationPreference::Nothing
        } else {
            NotificationPreference::Unknown(value.to_owned())
        }
    }

    /// Whether two values are the same.
    pub fn same(&self, other: &NotificationPreference) -> (r: bool)
        ensures
            r == self.same_as(other),
    {
        str_eq(self.as_str(), other.as_str()) && self.is_unknown() == other.is_unknown()
    }
}

impl<'a> From<&'a str> for NotificationPreference {
    fn from(value: &'a str) -> (r: NotificationPreference)
        ensures
            r.wire() == value@,
            r is Unknown <==> !NotificationPreference::known(value@),
    {
        NotificationPreference::parse(value)
    }
}

impl<'a> vstd::std_specs::convert::FromSpecImpl<&'a str> for NotificationPreference {
    open spec fn obeys_from_spec() -> bool {
        false
    }

    open spec fn from_spec(value: &'a str) -> NotificationPreference {
        arbitrary()
    }
}

impl From<String> for NotificationPreference {
    fn from(value: String) -> (r: NotificationPreference)
        ensures
            r.wire() == value@,
            r is Unknown <==> !NotificationPreference::known(value@),
    {
        NotificationPreference::parse(value.as_str())
    }
}

impl vstd::std_specs::convert::FromSpecImpl<String> for NotificationPreference {
    open spec fn obeys_from_spec() -> bool {
        false
    }

    open spec fn from_spec(value: String) -> NotificationPreference {
        arbitrary()
    }
}

impl From<NotificationPreference> for String {
    fn from(value: NotificationPreference) -> (r: String)
        ensures
            r@ == value.wire(),
    {
        value.as_str().to_owned()
    }
}

impl vstd::std_specs::convert::FromSpecImpl<NotificationPreference> for String {
    open spec fn obeys_from_spec() -> bool {
        false
    }

    open spec fn from_spec(value: NotificationPreference) -> String {
        arbitrary()
    }
}

impl AsRef<str> for NotificationPreference {
    fn as_ref(&self) -> (r: &str)
        ensures
            r@ == self.wire(),
    {
        self.as_str()
    }
}

impl Decode for NotificationPreference {
    open spec fn accepts(j: JsonView) -> bool {
        j is String
    }

    open spec fn read_from(&self, j: JsonView) -> bool {
        j == JsonView::String(self.wire()) && (*self is Unknown <==> !NotificationPreference::known(self.wire()))
    }

    fn decode(j: &Json) -> (r: Option<NotificationPreference>) {
        match j {
            Json::String(s) => Some(NotificationPreference::parse(s.as_str())),
            _ => None,
        }
    }
}

impl Encode for NotificationPreference {
    open spec fn doc(&self) -> JsonView {
        JsonView::String(self.wire())
    }

    fn encode(&self) -> (r: Json) {
        Json::string(self.as_str())
    }
}

impl Duplicate for NotificationPreference {
    open spec fn alike(&self, other: &NotificationPreference) -> bool {
        self.same_as(other)
    }

    fn dup(&self) -> (r: NotificationPreference) {
        match self {
            NotificationPreference::All => NotificationPreference::All,
            NotificationPreference::Mentions => NotificationPreference::Mentions,
            NotificationPreference::Nothing => NotificationPreference::Nothing,
            NotificationPreference::Unknown(other) => NotificationPreference::Unknown(other.clone()),
        }
    }
}

/// Which layer a notification preference was resolved from.
#[derive(Clone, Debug, PartialEq, Eq, Hash, PartialOrd, Ord)]
pub enum PreferenceOrigin {
    /// The per-room subscription setting.
    Subscription,
    /// The user's global preference.
    User,
    /// A value this library does not know about. It is written back unchanged.
    Unknown(String),
}

impl PreferenceOrigin {
    /// The value as it appears on the wire.
    pub open spec fn wire(&self) -> Seq<char> {
        match *self {
            PreferenceOrigin::Subscription => "subscription"@,
            PreferenceOrigin::User => "user"@,
            PreferenceOrigin::Unknown(other) => other@,
        }
    }

    /// Whether a wire value has a variant of its own.
    pub open spec fn known(value: Seq<char>) -> bool {
        ||| value == "subscription"@
        ||| value == "user"@
    }

    /// Whether two values are the same.
    pub open spec fn same_as(&self, other: &PreferenceOrigin) -> bool {
        self.wire() == other.wire() && (*self is Unknown <==> *other is Unknown)
    }

    /// The value as it appears on the wire.
    pub fn as_str(&self) -> (r: &str)
        ensures
            r@ == self.wire(),
    {
        match self {
            PreferenceOrigin::Subscription => "subscription",
            PreferenceOrigin::User => "user",
            PreferenceOrigin::Unknown(other) => other.as_str(),
        }
    }

    /// Whether this value was not recognised by this version of the library.
    pub fn is_unknown(&self) -> (r: bool)
        ensures
            r == (*self is Unknown),
    {
        match self {
            PreferenceOrigin::Unknown(_) => true,
            _ => false,
        }
    }

    /// Reads a wire value.
    pub fn parse(value: &str) -> (r: PreferenceOrigin)
        ensures
            value@ == "subscription"@ <==> r is Subscription,
            value@ == "user"@ <==> r is User,
            r matches PreferenceOrigin::Unknown(other) ==> other@ == value@,
            r.wire() == value@,
            r is Unknown <==> !PreferenceOrigin::known(value@),
    {
        proof {
            lemma_preference_origin_apart();
        }
        if str_eq(value, "subscription") {
            PreferenceOrigin::Subscription
        } else if str_eq(value, "user") {
            PreferenceOrigin::User
        } else {
            PreferenceOrigin::Unknown(value.to_owned())
        }
    }

    /// Whether two values are the same.
    pub fn same(&self, other: &PreferenceOrigin) -> (r: bool)
        ensures
            r == self.same_as(other),
    {
        str_eq(self.as_str(), other.as_str()) && self.is_unknown() == other.is_unknown()
    }
}

impl<'a> From<&'a str> for PreferenceOrigin {
    fn from(value: &'a str) -> (r: PreferenceOrigin)
        ensures
            r.wire() == value@,
            r is Unknown <==> !PreferenceOrigin::known(value@),
    {
        PreferenceOrigin::parse(value)
    }
}

impl<'a> vstd::std_specs::convert::FromSpecImpl<&'a str> for PreferenceOrigin {
    open spec fn obeys_from_spec() -> bool {
        false
    }

    open spec fn from_spec(value: &'a str) -> PreferenceOrigin {
        arbitrary()
    }
}

impl From<String> for PreferenceOrigin {
    fn from(value: String) -> (r: PreferenceOrigin)
        ensures
            r.wire() == value@,
            r is Unknown <==> !PreferenceOrigin::known(value@),
    {
        PreferenceOrigin::parse(value.as_str())
    }
}

impl vstd::std_specs::convert::FromSpecImpl<String> for PreferenceOrigin {
    open spec fn obeys_from_spec() -> bool {
        false
    }

    open spec fn from_spec(value: String) -> PreferenceOrigin {
        arbitrary()
    }
}

impl From<PreferenceOrigin> for String {
    fn from(value: PreferenceOrigin) -> (r: String)
        ensures
            r@ == value.wire(),
    {
        value.as_str().to_owned()
    }
}

impl vstd::std_specs::convert::FromSpecImpl<PreferenceOrigin> for String {
    open spec fn obeys_from_spec() -> bool {
        false
    }

    open spec fn from_spec(value: PreferenceOrigin) -> String {
        arbitrary()
    }
}

impl AsRef<str> for PreferenceOrigin {
    fn as_ref(&self) -> (r: &str)
        ensures
            r@ == self.wire(),
    {
        self.as_str()
    }
}

impl Decode for PreferenceOrigin {
    open spec fn accepts(j: JsonView) -> bool {
        j is String
    }

    open spec fn read_from(&self, j: JsonView) -> bool {
        j == JsonView::String(self.wire()) && (*self is Unknown <==> !PreferenceOrigin::known(self.wire()))
    }

    fn decode(j: &Json) -> (r: Option<PreferenceOrigin>) {
        match j {
            Json::String(s) => Some(PreferenceOrigin::parse(s.as_str())),
            _ => None,
        }
    }
}

impl Encode for PreferenceOrigin {
    open spec fn doc(&self) -> JsonView {
        JsonView::String(self.wire())
    }

    fn encode(&self) -> (r: Json) {
        Json::string(self.as_str())
    }
}

impl Duplicate for PreferenceOrigin {
    open spec fn alike(&self, other: &PreferenceOrigin) -> bool {
        self.same_as(other)
    }

    fn dup(&self) -> (r: PreferenceOrigin) {
        match self {
            PreferenceOrigin::Subscription => PreferenceOrigin::Subscription,
            PreferenceOrigin::User => PreferenceOrigin::User,
            PreferenceOrigin::Unknown(other) => PreferenceOrigin::Unknown(other.clone()),
        }
    }
}

/// When a subscription should raise its unread badge.
#[derive(Clone, Debug, PartialEq, Eq, Hash, PartialOrd, Ord)]
pub enum UnreadAlert {
    /// Follow the user's global preference.
    Default,
    /// Any message.
    All,
    /// Mentions only.
    Mentions,
    /// Never.
    Nothing,
    /// A value this library does not know about. It is written back unchanged.
    Unknown(String),
}

impl UnreadAlert {
    /// The value as it appears on the wire.
    pub open spec fn wire(&self) -> Seq<char> {
        match *self {
            UnreadAlert::Default => "default"@,
            UnreadAlert::All => "all"@,
            UnreadAlert::Mentions => "mentions"@,
            UnreadAlert::Nothing => "nothing"@,
            UnreadAlert::Unknown(other) => other@,
        }
    }

    /// Whether a wire value has a variant of its own.
    pub open spec fn known(value: Seq<char>) -> bool {
        ||| value == "default"@
        ||| value == "all"@
        ||| value == "mentions"@
        ||| value == "nothing"@
    }

    /// Whether two values are the same.
    pub open spec fn same_as(&self, other: &UnreadAlert) -> bool {
        self.wire() == other.wire() && (*self is Unknown <==> *other is Unknown)
    }

    /// The value as it appears on the wire.
    pub fn as_str(&self) -> (r: &str)
        ensures
            r@ == self.wire(),
    {
        match self {
            UnreadAlert::Default => "default",
            UnreadAlert::All => "all",
            UnreadAlert::Mentions => "mentions",
            UnreadAlert::Nothing => "nothing",
            UnreadAlert::Unknown(other) => other.as_str(),
        }
    }

    /// Whether this value was not recognised by this version of the library.
    pub fn is_unknown(&self) -> (r: bool)
        ensures
            r == (*self is Unknown),
    {
        match self {
            UnreadAlert::Unknown(_) => true,
            _ => false,
        }
    }

    /// Reads a wire value.
    pub fn parse(value: &str) -> (r: UnreadAlert)
        ensures
            value@ == "default"@ <==> r is Default,
            value@ == "all"@ <==> r is All,
            value@ == "mentions"@ <==> r is Mentions,
            value@ == "nothing"@ <==> r is Nothing,
            r matches UnreadAlert::Unknown(other) ==> other@ == value@,
            r.wire() == value@,
            r is Unknown <==> !UnreadAlert::known(value@),
    {
        proof {
            lemma_unread_alert_apart();
        }
        if str_eq(value, "default") {
            UnreadAlert::Default
        } else if str_eq(value, "all") {
            UnreadAlert::All
        } else if str_eq(value, "mentions") {
            UnreadAlert::Mentions
        } else if str_eq(value, "nothing") {
            UnreadAlert::Nothing
        } else {
            UnreadAlert::Unknown(value.to_owned())
        }
    }

    /// Whether two values are the same.
    pub fn same(&self, other: &UnreadAlert) -> (r: bool)
        ensures
            r == self.same_as(other),
    {
        str_eq(self.as_str(), other.as_str()) && self.is_unknown() == other.is_unknown()
    }
}

impl<'a> From<&'a str> for UnreadAlert {
    fn from(value: &'a str) -> (r: UnreadAlert)
        ensures
            r.wire() == value@,
            r is Unknown <==> !UnreadAlert::known(value@),
    {
        UnreadAlert::parse(value)
    }
}

impl<'a> vstd::std_specs::convert::FromSpecImpl<&'a str> for UnreadAlert {
    open spec fn obeys_from_spec() -> bool {
        false
    }

    open spec fn from_spec(value: &'a str) -> UnreadAlert {
        arbitrary()
    }
}

impl From<String> for UnreadAlert {
    fn from(value: String) -> (r: UnreadAlert)
        ensures
            r.wire() == value@,
            r is Unknown <==> !UnreadAlert::known(value@),
    {
        UnreadAlert::parse(value.as_str())
    }
}

impl vstd::std_specs::convert::FromSpecImpl<String> for UnreadAlert {
    open spec fn obeys_from_spec() -> bool {
        false
    }

    open spec fn from_spec(value: String) -> UnreadAlert {
        arbitrary()
    }
}

impl From<UnreadAlert> for String {
    fn from(value: UnreadAlert) -> (r: String)
        ensures
            r@ == value.wire(),
    {
        value.as_str().to_owned()
    }
}

impl vstd::std_specs::convert::FromSpecImpl<UnreadAlert> for String {
    open spec fn obeys_from_spec() -> bool {
        false
    }

    open spec fn from_spec(value: UnreadAlert) -> String {
        arbitrary()
    }
}

impl AsRef<str> for UnreadAlert {
    fn as_ref(&self) -> (r: &str)
        ensures
            r@ == self.wire(),
    {
        self.as_str()
    }
}

impl Decode for UnreadAlert {
    open spec fn accepts(j: JsonView) -> bool {
        j is String
    }

    open spec fn read_from(&self, j: JsonView) -> bool {
        j == JsonView::String(self.wire()) && (*self is Unknown <==> !UnreadAlert::known(self.wire()))
    }

    fn decode(j: &Json) -> (r: Option<UnreadAlert>) {
        match j {
            Json::String(s) => Some(UnreadAlert::parse(s.as_str())),
            _ => None,
        }
    }
}

impl Encode for UnreadAlert {
    open spec fn doc(&self) -> JsonView {
        JsonView::String(self.wire())
    }

    fn encode(&self) -> (r: Json) {
        Json::string(self.as_str())
    }
}

impl Duplicate for UnreadAlert {
    open spec fn alike(&self, other: &UnreadAlert) -> bool {
        self.same_as(other)
    }

    fn dup(&self) -> (r: UnreadAlert) {
        match self {
            UnreadAlert::Default => UnreadAlert::Default,
            UnreadAlert::All => UnreadAlert::All,
            UnreadAlert::Mentions => UnreadAlert::Mentions,
            UnreadAlert::Nothing => UnreadAlert::Nothing,
            UnreadAlert::Unknown(other) => UnreadAlert::Unknown(other.clone()),
        }
    }
}

/// Membership state of a subscription that is not a plain active membership.
#[derive(Clone, Debug, PartialEq, Eq, Hash, PartialOrd, Ord)]
pub enum SubscriptionStatus {
    /// The user was invited and has not accepted yet.
    Invited,
    /// The user was banned from the room.
    Banned,
    /// A value this library does not know about. It is written back unchanged.
    Unknown(String),
}

impl SubscriptionStatus {
    /// The value as it appears on the wire.
    pub open spec fn wire(&self) -> Seq<char> {
        match *self {
            SubscriptionStatus::Invited => "INVITED"@,
            SubscriptionStatus::Banned => "BANNED"@,
            SubscriptionStatus::Unknown(other) => other@,
        }
    }

    /// Whether a wire value has a variant of its own.
    pub open spec fn known(value: Seq<char>) -> bool {
        ||| value == "INVITED"@
        ||| value == "BANNED"@
    }

    /// Whether two values are the same.
    pub open spec fn same_as(&self, other: &SubscriptionStatus) -> bool {
        self.wire() == other.wire() && (*self is Unknown <==> *other is Unknown)
    }

    /// The value as it appears on the wire.
    pub fn as_str(&self) -> (r: &str)
        ensures
            r@ == self.wire(),
    {
        match self {
            SubscriptionStatus::Invited => "INVITED",
            SubscriptionStatus::Banned => "BANNED",
            SubscriptionStatus::Unknown(other) => other.as_str(),
        }
    }

    /// Whether this value was not recognised by this version of the library.
    pub fn is_unknown(&self) -> (r: bool)
        ensures
            r == (*self is Unknown),
    {
        match self {
            SubscriptionStatus::Unknown(_) => true,
            _ => false,
        }
    }

    /// Reads a wire value.
    pub fn parse(value: &str) -> (r: SubscriptionStatus)
        ensures
            value@ == "INVITED"@ <==> r is Invited,
            value@ == "BANNED"@ <==> r is Banned,
            r matches SubscriptionStatus::Unknown(other) ==> other@ == value@,
            r.wire() == value@,
            r is Unknown <==> !SubscriptionStatus::known(value@),
    {
        proof {
            lemma_subscription_status_apart();
        }
        if str_eq(value, "INVITED") {
            SubscriptionStatus::Invited
        } else if str_eq(value, "BANNED") {
            SubscriptionStatus::Banned
        } else {
            SubscriptionStatus::Unknown(value.to_owned())
        }
    }

    /// Whether two values are the same.
    pub fn same(&self, other: &SubscriptionStatus) -> (r: bool)
        ensures
            r == self.same_as(other),
    {
        str_eq(self.as_str(), other.as_str()) && self.is_unknown() == other.is_unknown()
    }
}

impl<'a> From<&'a str> for SubscriptionStatus {
    fn from(value: &'a str) -> (r: SubscriptionStatus)
        ensures
            r.wire() == value@,
            r is Unknown <==> !SubscriptionStatus::known(value@),
    {
        SubscriptionStatus::parse(value)
    }
}

impl<'a> vstd::std_specs::convert::FromSpecImpl<&'a str> for SubscriptionStatus {
    open spec fn obeys_from_spec() -> bool {
        false
    }

    open spec fn from_spec(value: &'a str) -> SubscriptionStatus {
        arbitrary()
    }
}

impl From<String> for SubscriptionStatus {
    fn from(value: String) -> (r: SubscriptionStatus)
        ensures
            r.wire() == value@,
            r is Unknown <==> !SubscriptionStatus::known(value@),
    {
        SubscriptionStatus::parse(value.as_str())
    }
}

impl vstd::std_specs::convert::FromSpecImpl<String> for SubscriptionStatus {
    open spec fn obeys_from_spec() -> bool {
        false
    }

    open spec fn from_spec(value: String) -> SubscriptionStatus {
        arbitrary()
    }
}

impl From<SubscriptionStatus> for String {
    fn from(value: SubscriptionStatus) -> (r: String)
        ensures
            r@ == value.wire(),
    {
        value.as_str().to_owned()
    }
}

impl vstd::std_specs::convert::FromSpecImpl<SubscriptionStatus> for String {
    open spec fn obeys_from_spec() -> bool {
        false
    }

    open spec fn from_spec(value: SubscriptionStatus) -> String {
        arbitrary()
    }
}

impl AsRef<str> for SubscriptionStatus {
    fn as_ref(&self) -> (r: &str)
        ensures
            r@ == self.wire(),
    {
        self.as_str()
    }
}

impl Decode for SubscriptionStatus {
    open spec fn accepts(j: JsonView) -> bool {
        j is String
    }

    open spec fn read_from(&self, j: JsonView) -> bool {
        j == JsonView::String(self.wire()) && (*self is Unknown <==> !SubscriptionStatus::known(self.wire()))
    }

    fn decode(j: &Json) -> (r: Option<SubscriptionStatus>) {
        match j {
            Json::String(s) => Some(SubscriptionStatus::parse(s.as_str())),
            _ => None,
        }
    }
}

impl Encode for SubscriptionStatus {
    open spec fn doc(&self) -> JsonView {
        JsonView::String(self.wire())
    }

    fn encode(&self) -> (r: Json) {
        Json::string(self.as_str())
    }
}

impl Duplicate for SubscriptionStatus {
    open spec fn alike(&self, other: &SubscriptionStatus) -> bool {
        self.same_as(other)
    }

    fn dup(&self) -> (r: SubscriptionStatus) {
        match self {
            SubscriptionStatus::Invited => SubscriptionStatus::Invited,
            SubscriptionStatus::Banned => SubscriptionStatus::Banned,
            SubscriptionStatus::Unknown(other) => SubscriptionStatus::Unknown(other.clone()),
        }
    }
}

impl RoomType {
    /// Whether this is a direct message room.
    pub fn is_direct(&self) -> (r: bool)
        ensures
            r == (*self is Direct),
    {
        match self {
            RoomType::Direct => true,
            _ => false,
        }
    }

    /// Whether this is a public channel.
    pub fn is_public(&self) -> (r: bool)
        ensures
            r == (*self is Channel),
    {
        match self {
            RoomType::Channel => true,
            _ => false,
        }
    }

    /// Whether this is a private group.
    pub fn is_private(&self) -> (r: bool)
        ensures
            r == (*self is Private),
    {
        match self {
            RoomType::Private => true,
            _ => false,
        }
    }

    /// Whether this is an omnichannel conversation.
    pub fn is_omnichannel(&self) -> (r: bool)
        ensures
            r == (*self is Omnichannel),
    {
        match self {
            RoomType::Omnichannel => true,
            _ => false,
        }
    }

    /// Whether this is a channel or a private group.
    pub fn is_group(&self) -> (r: bool)
        ensures
            r == (*self is Channel || *self is Private),
    {
        match self {
            RoomType::Channel => true,
            RoomType::Private => true,
            _ => false,
        }
    }
}

/// A user's presence, as the presence stream encodes it: a number.
#[derive(Clone, Copy, Debug, PartialEq, Eq, PartialOrd, Ord, Hash, Structural)]
pub enum PresenceStatus {
    /// Not connected.
    Offline,
    /// Connected and active.
    Online,
    /// Connected but idle.
    Away,
    /// Do not disturb.
    Busy,
    /// A code this library does not know about.
    Unknown(u8),
}

impl PresenceStatus {
    /// The code on the wire.
    pub open spec fn wire(self) -> u8 {
        match self {
            PresenceStatus::Offline => 0,
            PresenceStatus::Online => 1,
            PresenceStatus::Away => 2,
            PresenceStatus::Busy => 3,
            PresenceStatus::Unknown(other) => other,
        }
    }

    /// The presence that a code stands for.
    pub open spec fn of(code: u8) -> PresenceStatus {
        if code == 0 {
            PresenceStatus::Offline
        } else if code == 1 {
            PresenceStatus::Online
        } else if code == 2 {
            PresenceStatus::Away
        } else if code == 3 {
            PresenceStatus::Busy
        } else {
            PresenceStatus::Unknown(code)
        }
    }

    /// The code on the wire.
    pub fn code(self) -> (r: u8)
        ensures
            r == self.wire(),
    {
        match self {
            PresenceStatus::Offline => 0,
            PresenceStatus::Online => 1,
            PresenceStatus::Away => 2,
            PresenceStatus::Busy => 3,
            PresenceStatus::Unknown(other) => other,
        }
    }

    /// The presence as a user document spells it; none for an unknown code.
    pub fn as_user_status(self) -> (r: Option<UserStatus>)
        ensures
            match self {
                PresenceStatus::Offline => r == Some(UserStatus::Offline),
                PresenceStatus::Online => r == Some(UserStatus::Online),
                PresenceStatus::Away => r == Some(UserStatus::Away),
                PresenceStatus::Busy => r == Some(UserStatus::Busy),
                PresenceStatus::Unknown(_) => r is None,
            },
    {
        match self {
            PresenceStatus::Offline => Some(UserStatus::Offline),
            PresenceStatus::Online => Some(UserStatus::Online),
            PresenceStatus::Away => Some(UserStatus::Away),
            PresenceStatus::Busy => Some(UserStatus::Busy),
            PresenceStatus::Unknown(_) => None,
        }
    }

    /// Whether the code was not recognised.
    pub fn is_unknown(self) -> (r: bool)
        ensures
            r == (self is Unknown),
    {
        match self {
            PresenceStatus::Unknown(_) => true,
            _ => false,
        }
    }
}

/// The presence that a code denotes.
fn presence_of(code: u8) -> (r: PresenceStatus)
    ensures
        r == PresenceStatus::of(code),
{
    if code == 0 {
        PresenceStatus::Offline
    } else if code == 1 {
        PresenceStatus::Online
    } else if code == 2 {
        PresenceStatus::Away
    } else if code == 3 {
        PresenceStatus::Busy
    } else {
        PresenceStatus::Unknown(code)
    }
}

impl From<u8> for PresenceStatus {
    fn from(value: u8) -> (r: PresenceStatus) {
        presence_of(value)
    }
}

impl vstd::std_specs::convert::FromSpecImpl<u8> for PresenceStatus {
    open spec fn obeys_from_spec() -> bool {
        true
    }

    open spec fn from_spec(value: u8) -> PresenceStatus {
        PresenceStatus::of(value)
    }
}

impl From<PresenceStatus> for u8 {
    fn from(value: PresenceStatus) -> (r: u8) {
        value.code()
    }
}

impl vstd::std_specs::convert::FromSpecImpl<PresenceStatus> for u8 {
    open spec fn obeys_from_spec() -> bool {
        true
    }

    open spec fn from_spec(value: PresenceStatus) -> u8 {
        value.wire()
    }
}

/// Every presence code survives reading and writing.
pub proof fn law_presence_code_round_trip(code: u8)
    ensures
        PresenceStatus::of(code).wire() == code,
{
}

impl Decode for PresenceStatus {
    open spec fn accepts(j: JsonView) -> bool {
        view_u64(j) matches Some(n) && n <= 255
    }

    open spec fn read_from(&self, j: JsonView) -> bool {
        view_u64(j) matches Some(n) && n <= 255 && *self == PresenceStatus::of(n as u8)
    }

    fn decode(j: &Json) -> (r: Option<PresenceStatus>) {
        match j.as_u64() {
            Some(n) => if n <= 255 {
                Some(presence_of(n as u8))
            } else {
                None
            },
            None => None,
        }
    }
}

impl Encode for PresenceStatus {
    open spec fn doc(&self) -> JsonView {
        JsonView::Number(Number::Unsigned(self.wire() as u64))
    }

    fn encode(&self) -> (r: Json) {
        Json::Number(Number::Unsigned(self.code() as u64))
    }
}

/// Which system messages a room hides.
#[derive(Clone, Debug, PartialEq, Eq)]
pub enum SysMes {
    /// `true` shows every system message, `false` hides them all.
    Enabled(bool),
    /// The types that are hidden.
    Hidden(Vec<MessageType>),
}

/// Whether a list of message types holds one.
pub open spec fn types_have(types: Seq<MessageType>, t: MessageType) -> bool {
    exists|i: int| 0 <= i < types.len() && (#[trigger] types[i]).same_as(&t)
}

impl SysMes {
    /// The types that are hidden, where they are listed.
    pub fn hidden_types(&self) -> (r: Option<&Vec<MessageType>>)
        ensures
            match *self {
                SysMes::Hidden(types) => r == Some(&types),
                SysMes::Enabled(_) => r is None,
            },
    {
        match self {
            SysMes::Hidden(types) => Some(types),
            SysMes::Enabled(_) => None,
        }
    }

    /// Whether messages of a type are hidden.
    pub fn hides(&self, t: &MessageType) -> (r: bool)
        ensures
            r == (match *self {
                SysMes::Enabled(enabled) => !enabled,
                SysMes::Hidden(types) => types_have(types@, *t),
            }),
    {
        match self {
            SysMes::Enabled(enabled) => !*enabled,
            SysMes::Hidden(types) => {
                let mut i: usize = 0;
                while i < types.len()
                    invariant
                        *self == SysMes::Hidden(*types),
                        i <= types@.len(),
                        forall|k: int| 0 <= k < i ==> !(#[trigger] types@[k]).same_as(t),
                    decreases types@.len() - i,
                {
                    if types[i].same(t) {
                        assert(types_have(types@, *t));
                        return true;
                    }
                    i += 1;
                }
                false
            },
        }
    }
}

impl Decode for SysMes {
    open spec fn accepts(j: JsonView) -> bool {
        j is Bool || <Vec<MessageType> as Decode>::accepts(j)
    }

    open spec fn read_from(&self, j: JsonView) -> bool {
        match *self {
            SysMes::Enabled(b) => j == JsonView::Bool(b),
            SysMes::Hidden(types) => types.read_from(j),
        }
    }

    fn decode(j: &Json) -> (r: Option<SysMes>) {
        match j {
            Json::Bool(b) => Some(SysMes::Enabled(*b)),
            _ => match <Vec<MessageType> as Decode>::decode(j) {
                Some(types) => Some(SysMes::Hidden(types)),
                None => None,
            },
        }
    }
}

impl Encode for SysMes {
    open spec fn doc(&self) -> JsonView {
        match *self {
            SysMes::Enabled(b) => JsonView::Bool(b),
            SysMes::Hidden(types) => types.doc(),
        }
    }

    fn encode(&self) -> (r: Json) {
        match self {
            SysMes::Enabled(b) => Json::Bool(*b),
            SysMes::Hidden(types) => types.encode(),
        }
    }
}

impl Duplicate for SysMes {
    open spec fn alike(&self, other: &SysMes) -> bool {
        match (*self, *other) {
            (SysMes::Enabled(a), SysMes::Enabled(b)) => a == b,
            (SysMes::Hidden(a), SysMes::Hidden(b)) => a.alike(&b),
            _ => false,
        }
    }

    fn dup(&self) -> (r: SysMes) {
        match self {
            SysMes::Enabled(b) => SysMes::Enabled(*b),
            SysMes::Hidden(types) => SysMes::Hidden(types.dup()),
        }
    }
}

/// How far the migration that fills the role priorities has gone.
#[derive(Clone, Copy, Debug, PartialEq, Eq, Structural)]
pub enum RolePrioritiesCreated {
    /// The version of the migration.
    Version(i64),
    /// Whether it has run.
    Flag(bool),
}

impl Decode for RolePrioritiesCreated {
    open spec fn accepts(j: JsonView) -> bool {
        j is Bool || view_i64(j) is Some
    }

    open spec fn read_from(&self, j: JsonView) -> bool {
        match *self {
            RolePrioritiesCreated::Version(n) => view_i64(j) == Some(n),
            RolePrioritiesCreated::Flag(b) => j == JsonView::Bool(b),
        }
    }

    fn decode(j: &Json) -> (r: Option<RolePrioritiesCreated>) {
        match j.as_bool() {
            Some(b) => Some(RolePrioritiesCreated::Flag(b)),
            None => match j.as_i64() {
                Some(n) => Some(RolePrioritiesCreated::Version(n)),
                None => None,
            },
        }
    }
}

impl Encode for RolePrioritiesCreated {
    open spec fn doc(&self) -> JsonView {
        match *self {
            RolePrioritiesCreated::Version(n) => n.doc(),
            RolePrioritiesCreated::Flag(b) => b.doc(),
        }
    }

    fn encode(&self) -> (r: Json) {
        match self {
            RolePrioritiesCreated::Version(n) => n.encode(),
            RolePrioritiesCreated::Flag(b) => b.encode(),
        }
    }
}

impl Duplicate for RolePrioritiesCreated {
    open spec fn alike(&self, other: &RolePrioritiesCreated) -> bool {
        *self == *other
    }

    fn dup(&self) -> (r: RolePrioritiesCreated) {
        *self
    }
}

} // verus!
