//! A string-valued field reads as one value only.
use crate::model::determined::Determined;
use crate::model::entity::enums::{
    E2eStatus, MentionType, MessageType, NotificationPreference, PreferenceOrigin, PresenceSource,
    PresenceStatus, RolePrioritiesCreated, RoomType, SubscriptionStatus, SysMes, UnreadAlert,
    UserStatus,
};
use crate::model::json::JsonView;
use vstd::prelude::*;

verus! {

impl Determined for MessageType {
    open spec fn agrees(&self, other: &MessageType) -> bool {
        self.same_as(other)
    }

    proof fn law_determined(&self, other: &MessageType, j: JsonView) {
    }
}

impl Determined for RoomType {
    open spec fn agrees(&self, other: &RoomType) -> bool {
        self.same_as(other)
    }

    proof fn law_determined(&self, other: &RoomType, j: JsonView) {
    }
}

impl Determined for UserStatus {
    open spec fn agrees(&self, other: &UserStatus) -> bool {
        self.same_as(other)
    }

    proof fn law_determined(&self, other: &UserStatus, j: JsonView) {
    }
}

impl Determined for PresenceSource {
    open spec fn agrees(&self, other: &PresenceSource) -> bool {
        self.same_as(other)
    }

    proof fn law_determined(&self, other: &PresenceSource, j: JsonView) {
    }
}

impl Determined for E2eStatus {
    open spec fn agrees(&self, other: &E2eStatus) -> bool {
        self.same_as(other)
    }

    proof fn law_determined(&self, other: &E2eStatus, j: JsonView) {
    }
}

impl Determined for MentionType {
    open spec fn agrees(&self, other: &MentionType) -> bool {
        self.same_as(other)
    }

    proof fn law_determined(&self, other: &MentionType, j: JsonView) {
    }
}

impl Determined for NotificationPreference {
    open spec fn agrees(&self, other: &NotificationPreference) -> bool {
        self.same_as(other)
    }

    proof fn law_determined(&self, other: &NotificationPreference, j: JsonView) {
    }
}

impl Determined for PreferenceOrigin {
    open spec fn agrees(&self, other: &PreferenceOrigin) -> bool {
        self.same_as(other)
    }

    proof fn law_determined(&self, other: &PreferenceOrigin, j: JsonView) {
    }
}

impl Determined for UnreadAlert {
    open spec fn agrees(&self, other: &UnreadAlert) -> bool {
        self.same_as(other)
    }

    proof fn law_determined(&self, other: &UnreadAlert, j: JsonView) {
    }
}

impl Determined for SubscriptionStatus {
    open spec fn agrees(&self, other: &SubscriptionStatus) -> bool {
        self.same_as(other)
    }

    proof fn law_determined(&self, other: &SubscriptionStatus, j: JsonView) {
    }
}

impl Determined for PresenceStatus {
    open spec fn agrees(&self, other: &PresenceStatus) -> bool {
        *self == *other
    }

    proof fn law_determined(&self, other: &PresenceStatus, j: JsonView) {
    }
}

impl Determined for SysMes {
    open spec fn agrees(&self, other: &SysMes) -> bool {
        match (*self, *other) {
            (SysMes::Enabled(a), SysMes::Enabled(b)) => a == b,
            (SysMes::Hidden(a), SysMes::Hidden(b)) => a.agrees(&b),
            _ => false,
        }
    }

    proof fn law_determined(&self, other: &SysMes, j: JsonView) {
        match (*self, *other) {
            (SysMes::Hidden(a), SysMes::Hidden(b)) => a.law_determined(&b, j),
            _ => {},
        }
    }
}

impl Determined for RolePrioritiesCreated {
    open spec fn agrees(&self, other: &RolePrioritiesCreated) -> bool {
        *self == *other
    }

    proof fn law_determined(&self, other: &RolePrioritiesCreated, j: JsonView) {
    }
}

} // verus!
