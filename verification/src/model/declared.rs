//! What the catalog says, stream by stream.
use crate::model::catalog::{
    declared, declared_apps, declared_apps_engine, declared_canned_responses, declared_importers,
    declared_integration_history, declared_livechat_inquiry_queue_observer, declared_livechat_room,
    declared_local, declared_notify_all, declared_notify_logged, declared_notify_room,
    declared_notify_room_users, declared_notify_user, declared_roles, declared_room_data,
    declared_room_messages, declared_stream, declared_user_presence, KeyModel, KeyPattern,
    StreamModel,
};
use crate::model::event::bare;
use crate::text::law_a_prefix_is_taken_off;
use crate::text::law_a_text_is_split_at_the_first_occurrence;
use vstd::prelude::*;
use vstd::string::*;

verus! {

/// Whether a stream declares, at a position, an event with this key, these numbers of arguments
/// and this type of them.
pub open spec fn declares(
    stream: StreamModel,
    at: int,
    key: KeyModel,
    arities: Seq<usize>,
    args: Seq<char>,
) -> bool {
    &&& 0 <= at < stream.events.len()
    &&& stream.events[at].key == key
    &&& stream.events[at].arities == arities
    &&& stream.events[at].variadic <==> arities.len() == 0
    &&& stream.events[at].args == args
}

/// A literal key fits one name; one with a suffix or a prefix fits the names that are parted there
/// by their first slash, with something on the free side; and a free key fits every name.
pub proof fn law_what_a_key_fits(head: Seq<char>, rest: Seq<char>, fixed: Seq<char>)
    requires
        !head.contains('/'),
    ensures
        KeyModel::Suffix(fixed).fits(head + seq!['/'] + rest) <==> head.len() > 0 && rest == fixed,
        KeyModel::Prefix(fixed).fits(head + seq!['/'] + rest) <==> head == fixed && rest.len() > 0,
        !KeyModel::Suffix(fixed).fits(head),
        !KeyModel::Prefix(fixed).fits(head),
        KeyModel::Literal(fixed).fits(rest) <==> rest == fixed,
        KeyModel::Any.fits(rest),
{
    law_a_text_is_split_at_the_first_occurrence(head, rest, '/');
}

/// A stream is looked up with or without the prefix of its collection.
pub proof fn law_a_stream_is_looked_up_by_either_name(name: Seq<char>)
    requires
        !(name.len() >= 7 && name.subrange(0, 7) == "stream-"@),
    ensures
        bare(name) == name,
        bare("stream-"@ + name) == name,
        declared_stream("stream-"@ + name) == declared_stream(name),
{
    reveal_strlit("stream-");
    law_a_prefix_is_taken_off("stream-"@, name, name);
    let long = "stream-"@ + name;
    assert(long.subrange(0, 7) =~= "stream-"@);
    assert(long.subrange(7, long.len() as int) =~= name);
}

/// Which streams are declared, in their order.
pub proof fn law_the_declared_streams()
    ensures
        declared().len() == 17,
        declared()[0] == declared_roles(),
        declared_roles().name == "roles"@,
        declared()[1] == declared_notify_room(),
        declared_notify_room().name == "notify-room"@,
        declared()[2] == declared_room_messages(),
        declared_room_messages().name == "room-messages"@,
        declared()[3] == declared_notify_all(),
        declared_notify_all().name == "notify-all"@,
        declared()[4] == declared_notify_user(),
        declared_notify_user().name == "notify-user"@,
        declared()[5] == declared_importers(),
        declared_importers().name == "importers"@,
        declared()[6] == declared_notify_logged(),
        declared_notify_logged().name == "notify-logged"@,
        declared()[7] == declared_room_data(),
        declared_room_data().name == "room-data"@,
        declared()[8] == declared_notify_room_users(),
        declared_notify_room_users().name == "notify-room-users"@,
        declared()[9] == declared_livechat_room(),
        declared_livechat_room().name == "livechat-room"@,
        declared()[10] == declared_user_presence(),
        declared_user_presence().name == "user-presence"@,
        declared()[11] == declared_integration_history(),
        declared_integration_history().name == "integrationHistory"@,
        declared()[12] == declared_canned_responses(),
        declared_canned_responses().name == "canned-responses"@,
        declared()[13] == declared_livechat_inquiry_queue_observer(),
        declared_livechat_inquiry_queue_observer().name == "livechat-inquiry-queue-observer"@,
        declared()[14] == declared_apps(),
        declared_apps().name == "apps"@,
        declared()[15] == declared_apps_engine(),
        declared_apps_engine().name == "apps-engine"@,
        declared()[16] == declared_local(),
        declared_local().name == "local"@,
{
}

/// What the stream `roles` declares.
pub proof fn law_declared_roles()
    ensures
        declared_roles().events.len() == 1,
        declares(declared_roles(), 0, KeyModel::Literal("roles"@), seq![1usize], "[ IRole & { type: 'inserted' | 'updated' | 'removed' | 'changed'; }, ]"@),
{
}

/// What the stream `notify-room` declares.
pub proof fn law_declared_notify_room()
    ensures
        declared_notify_room().events.len() == 8,
        declares(declared_notify_room(), 0, KeyModel::Suffix("user-activity"@), seq![2usize], "[username: string, activities: string[]]"@),
        declares(declared_notify_room(), 1, KeyModel::Suffix("typing"@), seq![2usize], "[username: string, typing: boolean]"@),
        declares(declared_notify_room(), 2, KeyModel::Suffix("deleteMessageBulk"@), seq![1usize], "[ args: { rid: IMessage['rid']; excludePinned: boolean; ignoreDiscussion: boolean; ts: Record<string, Date>; users: string[]; ids?: string[]; showDeletedStatus?: boolean; } & ( | { filesOnly: true; replaceFileAttachmentsWith?: MessageAttachment; } | { filesOnly?: false; } ), ]"@),
        declares(declared_notify_room(), 3, KeyModel::Suffix("deleteMessage"@), seq![1usize], "[{ _id: IMessage['_id'] }]"@),
        declares(declared_notify_room(), 4, KeyModel::Suffix("e2e.keyRequest"@), seq![1usize], "[unknown]"@),
        declares(declared_notify_room(), 5, KeyModel::Suffix("videoconf"@), seq![1usize], "[id: string]"@),
        declares(declared_notify_room(), 6, KeyModel::Suffix("messagesRead"@), seq![1usize], "[{ until: Date; tmid?: string }]"@),
        declares(declared_notify_room(), 7, KeyModel::Suffix("messagesImported"@), seq![1usize], "[null]"@),
{
}

/// What the stream `room-messages` declares.
pub proof fn law_declared_room_messages()
    ensures
        declared_room_messages().events.len() == 2,
        declares(declared_room_messages(), 0, KeyModel::Literal("__my_messages__"@), seq![1usize], "[IMessage]"@),
        declares(declared_room_messages(), 1, KeyModel::Any, seq![1usize, 2usize, 3usize], "[message: IMessage, user?: IUser, room?: IRoom]"@),
{
}

/// What the stream `notify-all` declares.
pub proof fn law_declared_notify_all()
    ensures
        declared_notify_all().events.len() == 5,
        declares(declared_notify_all(), 0, KeyModel::Literal("public-info"@), seq![1usize], "[ | [key: 'public-settings-changed', args: ['inserted' | 'updated' | 'removed' | 'changed', ISetting]] | [key: 'deleteCustomSound', args: [{ soundData: ICustomSound }]] | [key: 'updateCustomSound', args: [{ soundData: ICustomSound }]], ]"@),
        declares(declared_notify_all(), 1, KeyModel::Literal("public-settings-changed"@), seq![2usize], "['inserted' | 'updated' | 'removed' | 'changed', ISetting]"@),
        declares(declared_notify_all(), 2, KeyModel::Literal("deleteCustomSound"@), seq![1usize], "[{ soundData: ICustomSound }]"@),
        declares(declared_notify_all(), 3, KeyModel::Literal("updateCustomSound"@), seq![1usize], "[{ soundData: ICustomSound }]"@),
        declares(declared_notify_all(), 4, KeyModel::Literal("license"@), seq![0usize, 1usize], "[{ preventedActions: Record<LicenseLimitKind, boolean> }] | []"@),
{
}

/// What the stream `notify-user` declares.
pub proof fn law_declared_notify_user()
    ensures
        declared_notify_user().events.len() == 16,
        declares(declared_notify_user(), 0, KeyModel::Suffix("rooms-changed"@), seq![2usize], "['inserted' | 'updated' | 'removed' | 'changed', IRoom]"@),
        declares(declared_notify_user(), 1, KeyModel::Suffix("subscriptions-changed"@), seq![2usize], "| [ 'removed', { _id: string; u?: Pick<IUser, '_id' | 'username' | 'name'>; rid?: string; t?: string; }, ] | [ 'inserted' | 'updated', Pick< ISubscription, | 't' | 'ts' | 'ls' | 'lr' | 'name' | 'fname' | 'rid' | 'code' | 'f' | 'u' | 'open' | 'alert' | 'roles' | 'unread' | 'prid' | 'userMentions' | 'groupMentions' | 'archived' | 'audioNotificationValue' | 'desktopNotifications' | 'mobilePushNotifications' | 'emailNotifications' | 'desktopPrefOrigin' | 'mobilePrefOrigin' | 'emailPrefOrigin' | 'unreadAlert' | '_updatedAt' | 'blocked' | 'blocker' | 'autoTranslate' | 'autoTranslateLanguage' | 'disableNotifications' | 'hideUnreadStatus' | 'hideMentionStatus' | 'muteGroupMentions' | 'ignored' | 'E2EKey' | 'E2ESuggestedKey' | 'oldRoomKeys' | 'tunread' | 'tunreadGroup' | 'tunreadUser' | 'department' | 'v' | 'onHold' >, ]"@),
        declares(declared_notify_user(), 2, KeyModel::Suffix("message"@), seq![1usize], "[IMessage]"@),
        declares(declared_notify_user(), 3, KeyModel::Suffix("force_logout"@), seq![1usize], "[ISession['sessionId'] | undefined]"@),
        declares(declared_notify_user(), 4, KeyModel::Suffix("webdav"@), seq![1usize], "[{ type: 'changed'; account: Partial<IWebdavAccount> } | { type: 'removed'; account: { _id: IWebdavAccount['_id'] } }]"@),
        declares(declared_notify_user(), 5, KeyModel::Suffix("e2ekeyRequest"@), seq![2usize], "[string, string]"@),
        declares(declared_notify_user(), 6, KeyModel::Suffix("notification"@), seq![1usize], "[INotificationDesktop]"@),
        declares(declared_notify_user(), 7, KeyModel::Suffix("call.hangup"@), seq![1usize], "[{ roomId: string }]"@),
        declares(declared_notify_user(), 8, KeyModel::Suffix("uiInteraction"@), seq![1usize], "[UiKit.ServerInteraction]"@),
        declares(declared_notify_user(), 9, KeyModel::Suffix("video-conference"@), seq![1usize], "[{ action: string; params: { callId: VideoConference['_id']; uid: IUser['_id']; rid: IRoom['_id'] } }]"@),
        declares(declared_notify_user(), 10, KeyModel::Suffix("media-signal"@), seq![1usize], "[ServerMediaSignal]"@),
        declares(declared_notify_user(), 11, KeyModel::Suffix("userData"@), seq![1usize], "[IUserDataEvent]"@),
        declares(declared_notify_user(), 12, KeyModel::Suffix("updateInvites"@), seq![1usize], "[unknown]"@),
        declares(declared_notify_user(), 13, KeyModel::Suffix("departmentAgentData"@), seq![1usize], "[unknown]"@),
        declares(declared_notify_user(), 14, KeyModel::Suffix("calendar"@), seq![1usize], "[ICalendarNotification]"@),
        declares(declared_notify_user(), 15, KeyModel::Suffix("banners"@), seq![1usize], "[IBanner]"@),
{
}

/// What the stream `importers` declares.
pub proof fn law_declared_importers()
    ensures
        declared_importers().events.len() == 1,
        declares(declared_importers(), 0, KeyModel::Literal("progress"@), seq![1usize], "[{ rate: number } | IImportProgress]"@),
{
}

/// What the stream `notify-logged` declares.
pub proof fn law_declared_notify_logged()
    ensures
        declared_notify_logged().events.len() == 14,
        declares(declared_notify_logged(), 0, KeyModel::Literal("updateCustomUserStatus"@), seq![1usize], "[ { userStatusData: Omit<ICustomUserStatus, '_updatedAt'>; }, ]"@),
        declares(declared_notify_logged(), 1, KeyModel::Literal("permissions-changed"@), seq![2usize], "['inserted' | 'updated' | 'removed' | 'changed', ISetting]"@),
        declares(declared_notify_logged(), 2, KeyModel::Literal("deleteEmojiCustom"@), seq![1usize], "[{ emojiData: IEmoji }]"@),
        declares(declared_notify_logged(), 3, KeyModel::Literal("updateEmojiCustom"@), seq![1usize], "[{ emojiData: IEmoji }]"@),
        declares(declared_notify_logged(), 4, KeyModel::Literal("new-banner"@), seq![1usize], "[{ bannerId: string }]"@),
        declares(declared_notify_logged(), 5, KeyModel::Literal("banner-changed"@), seq![1usize], "[{ bannerId: string }]"@),
        declares(declared_notify_logged(), 6, KeyModel::Literal("roles-change"@), seq![1usize], "[ { type: 'added' | 'removed' | 'changed'; _id: IRole['_id']; u?: { _id: IUser['_id']; username: IUser['username']; name?: IUser['name'] }; scope?: string; }, ]"@),
        declares(declared_notify_logged(), 7, KeyModel::Literal("Users:NameChanged"@), seq![1usize], "[Pick<IUser, '_id' | 'name' | 'username'>]"@),
        declares(declared_notify_logged(), 8, KeyModel::Literal("private-settings-changed"@), seq![2usize], "['inserted' | 'updated' | 'removed' | 'changed', ISetting]"@),
        declares(declared_notify_logged(), 9, KeyModel::Literal("deleteCustomUserStatus"@), seq![1usize], "[{ userStatusData: Omit<ICustomUserStatus, '_updatedAt'> }]"@),
        declares(declared_notify_logged(), 10, KeyModel::Literal("user-status"@), seq![1usize], "[ [ uid: IUser['_id'], username: IUser['username'], status: PresenceStatusCode, statusText: IUser['statusText'], name: IUser['name'], roles: IUser['roles'], statusSource?: IUser['statusSource'], statusExpiresAt?: IUser['statusExpiresAt'], ], ]"@),
        declares(declared_notify_logged(), 11, KeyModel::Literal("Users:Deleted"@), seq![1usize], "[ | { userId: IUser['_id']; messageErasureType: 'Delete'; replaceByUser?: never; } | { userId: IUser['_id']; messageErasureType: 'Unlink'; replaceByUser?: { _id: IUser['_id']; username: IUser['username']; alias: string }; }, ]"@),
        declares(declared_notify_logged(), 12, KeyModel::Literal("updateAvatar"@), seq![1usize], "[{ username: IUser['username']; etag: IUser['avatarETag'] } | { rid: IRoom['_id']; etag: IRoom['avatarETag'] }]"@),
        declares(declared_notify_logged(), 13, KeyModel::Literal("omnichannel.priority-changed"@), seq![1usize], "[{ id: string; clientAction: ClientAction; name?: string }]"@),
{
}

/// What the stream `room-data` declares.
pub proof fn law_declared_room_data()
    ensures
        declared_room_data().events.len() == 1,
        declares(declared_room_data(), 0, KeyModel::Any, seq![1usize], "[IOmnichannelRoom | Pick<IOmnichannelRoom, '_id'>]"@),
{
}

/// What the stream `notify-room-users` declares.
pub proof fn law_declared_notify_room_users()
    ensures
        declared_notify_room_users().events.len() == 2,
        declares(declared_notify_room_users(), 0, KeyModel::Suffix("video-conference"@), seq![1usize], "[{ action: string; params: { callId: VideoConference['_id']; uid: IUser['_id']; rid: IRoom['_id'] } }]"@),
        declares(declared_notify_room_users(), 1, KeyModel::Suffix("userData"@), Seq::empty(), "unknown[]"@),
{
}

/// What the stream `livechat-room` declares.
pub proof fn law_declared_livechat_room()
    ensures
        declared_livechat_room().events.len() == 1,
        declares(declared_livechat_room(), 0, KeyModel::Any, seq![1usize], "[ | { type: 'agentStatus'; status: string; } | { type: 'queueData'; data: | { [k: string]: unknown; } | undefined; } | { type: 'agentData'; data: ILivechatAgent | undefined | { hiddenInfo: boolean }; } | { type: 'visitorData'; visitor: unknown; }, ]"@),
{
}

/// What the stream `user-presence` declares.
pub proof fn law_declared_user_presence()
    ensures
        declared_user_presence().events.len() == 1,
        declares(declared_user_presence(), 0, KeyModel::Any, seq![1usize], "[ [ username: string, statusChanged?: PresenceStatusCode, statusText?: string, statusSource?: IUser['statusSource'], statusExpiresAt?: IUser['statusExpiresAt'], ], ]"@),
{
}

/// What the stream `integrationHistory` declares.
pub proof fn law_declared_integration_history()
    ensures
        declared_integration_history().events.len() == 1,
        declares(declared_integration_history(), 0, KeyModel::Any, seq![1usize], "[ | { type: 'removed'; id: string } | { id: string; diff: unknown; type: 'updated'; } | { type: 'inserted'; data: Partial<IIntegrationHistory>; }, ]"@),
{
}

/// What the stream `canned-responses` declares.
pub proof fn law_declared_canned_responses()
    ensures
        declared_canned_responses().events.len() == 1,
        declares(declared_canned_responses(), 0, KeyModel::Literal("canned-responses"@), seq![1usize, 2usize], "| [{ type: 'removed'; _id: string }, { agentsId: string }] | [{ type: 'removed'; _id: string }] | [ { type: 'changed' } & Omit<IOmnichannelCannedResponse, '_updatedAt' | '_createdAt'> & { _createdAt?: Date | undefined; }, ] | [{ type: 'changed' } & IOmnichannelCannedResponse, { agentsId: string }]"@),
{
}

/// What the stream `livechat-inquiry-queue-observer` declares.
pub proof fn law_declared_livechat_inquiry_queue_observer()
    ensures
        declared_livechat_inquiry_queue_observer().events.len() == 4,
        declares(declared_livechat_inquiry_queue_observer(), 0, KeyModel::Literal("public"@), seq![1usize], "[ { type: 'added' | 'removed' | 'changed'; } & ILivechatInquiryRecord, ]"@),
        declares(declared_livechat_inquiry_queue_observer(), 1, KeyModel::Prefix("department"@), seq![1usize], "[ { type: 'added' | 'removed' | 'changed'; } & ILivechatInquiryRecord, ]"@),
        declares(declared_livechat_inquiry_queue_observer(), 2, KeyModel::Prefix("agent"@), seq![1usize], "[ { type: 'added' | 'removed' | 'changed'; } & ILivechatInquiryRecord, ]"@),
        declares(declared_livechat_inquiry_queue_observer(), 3, KeyModel::Any, seq![1usize], "[ { _id: string; clientAction: string; }, ]"@),
{
}

/// What the stream `apps` declares.
pub proof fn law_declared_apps()
    ensures
        declared_apps().events.len() == 11,
        declares(declared_apps(), 0, KeyModel::Literal("app/added"@), seq![1usize], "[string]"@),
        declares(declared_apps(), 1, KeyModel::Literal("app/removed"@), seq![1usize], "[string]"@),
        declares(declared_apps(), 2, KeyModel::Literal("app/updated"@), seq![1usize], "[string]"@),
        declares(declared_apps(), 3, KeyModel::Literal("app/statusUpdate"@), seq![1usize], "[ { appId: string; status: AppStatus; }, ]"@),
        declares(declared_apps(), 4, KeyModel::Literal("app/settingUpdated"@), seq![1usize], "[ { appId: string; setting: AppsSetting; }, ]"@),
        declares(declared_apps(), 5, KeyModel::Literal("command/added"@), seq![1usize], "[string]"@),
        declares(declared_apps(), 6, KeyModel::Literal("command/disabled"@), seq![1usize], "[string]"@),
        declares(declared_apps(), 7, KeyModel::Literal("command/updated"@), seq![1usize], "[string]"@),
        declares(declared_apps(), 8, KeyModel::Literal("command/removed"@), seq![1usize], "[string]"@),
        declares(declared_apps(), 9, KeyModel::Literal("actions/changed"@), seq![0usize], "[]"@),
        declares(declared_apps(), 10, KeyModel::Literal("apps"@), seq![1usize], "[ | [key: 'app/added', args: [string]] | [key: 'app/removed', args: [string]] | [key: 'app/updated', args: [string]] | [ key: 'app/statusUpdate', args: [ { appId: string; status: AppStatus; }, ], ] | [ key: 'app/settingUpdated', args: [ { appId: string; setting: AppsSetting; }, ], ] | [key: 'command/added', args: [string]] | [key: 'command/disabled', args: [string]] | [key: 'command/updated', args: [string]] | [key: 'command/removed', args: [string]] | [key: 'actions/changed', args: []], ]"@),
{
}

/// What the stream `apps-engine` declares.
pub proof fn law_declared_apps_engine()
    ensures
        declared_apps_engine().events.len() == 10,
        declares(declared_apps_engine(), 0, KeyModel::Literal("app/added"@), seq![1usize], "[string]"@),
        declares(declared_apps_engine(), 1, KeyModel::Literal("app/removed"@), seq![1usize], "[string]"@),
        declares(declared_apps_engine(), 2, KeyModel::Literal("app/updated"@), seq![1usize], "[string]"@),
        declares(declared_apps_engine(), 3, KeyModel::Literal("app/statusUpdate"@), seq![1usize], "[ { appId: string; status: AppStatus; }, ]"@),
        declares(declared_apps_engine(), 4, KeyModel::Literal("app/settingUpdated"@), seq![1usize], "[ { appId: string; setting: AppsSetting; }, ]"@),
        declares(declared_apps_engine(), 5, KeyModel::Literal("command/added"@), seq![1usize], "[string]"@),
        declares(declared_apps_engine(), 6, KeyModel::Literal("command/disabled"@), seq![1usize], "[string]"@),
        declares(declared_apps_engine(), 7, KeyModel::Literal("command/updated"@), seq![1usize], "[string]"@),
        declares(declared_apps_engine(), 8, KeyModel::Literal("command/removed"@), seq![1usize], "[string]"@),
        declares(declared_apps_engine(), 9, KeyModel::Literal("actions/changed"@), seq![0usize], "[]"@),
{
}

/// What the stream `local` declares.
pub proof fn law_declared_local()
    ensures
        declared_local().events.len() == 1,
        declares(declared_local(), 0, KeyModel::Literal("broadcast"@), Seq::empty(), "any[]"@),
{
}

/// A key is modelled as the kind that it is.
pub proof fn law_declared_keys_are_modelled_as_what_they_are(text: &'static str)
    ensures
        KeyPattern::Literal(text)@ == KeyModel::Literal(text@),
        KeyPattern::Suffix(text)@ == KeyModel::Suffix(text@),
        KeyPattern::Prefix(text)@ == KeyModel::Prefix(text@),
        KeyPattern::Any@ == KeyModel::Any,
{
}

} // verus!
