//! The documents that the server pushes: messages, rooms, subscriptions and users.
pub mod enums;
pub mod message;
pub mod parts;
pub mod room;
pub mod subscription;
pub mod user;
pub use enums::{
    E2eStatus, MentionType, MessageType, NotificationPreference, PreferenceOrigin, PresenceSource,
    PresenceStatus, RolePrioritiesCreated, RoomType, SubscriptionStatus, SysMes, UnreadAlert,
    UserStatus,
};
pub use message::Message;
pub use parts::{
    AnnouncementDetails, ChannelMention, MessageFile, MessageMention, MessageUrl, OldRoomKey,
    Reaction, Star, UrlHeaders, UserEmail, UserRef,
};
pub use room::Room;
pub use subscription::Subscription;
pub use user::User;
