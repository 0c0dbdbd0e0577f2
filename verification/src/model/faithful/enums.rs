//! The string-valued fields come back as they were.
use crate::model::entity::enums::{
    E2eStatus, MentionType, MessageType, NotificationPreference, PreferenceOrigin, PresenceSource,
    PresenceStatus,
    RolePrioritiesCreated, RoomType, SubscriptionStatus, SysMes, UnreadAlert, UserStatus,
};
use crate::model::faithful::{
    RoundTrip, Verbatim,
};
use crate::model::json::JsonView;
use crate::model::wire::{Decode, Encode};
use vstd::prelude::*;
use vstd::string::*;

verus! {

impl Verbatim for MessageType {
    proof fn law_verbatim(&self, j: JsonView) {
    }
}

impl RoundTrip for MessageType {
    open spec fn writable(&self) -> bool {
        true
    }

    proof fn law_round_trip(&self, back: &MessageType) {
    }
}

impl Verbatim for RoomType {
    proof fn law_verbatim(&self, j: JsonView) {
    }
}

impl RoundTrip for RoomType {
    open spec fn writable(&self) -> bool {
        true
    }

    proof fn law_round_trip(&self, back: &RoomType) {
    }
}

impl Verbatim for UserStatus {
    proof fn law_verbatim(&self, j: JsonView) {
    }
}

impl RoundTrip for UserStatus {
    open spec fn writable(&self) -> bool {
        true
    }

    proof fn law_round_trip(&self, back: &UserStatus) {
    }
}

impl Verbatim for PresenceSource {
    proof fn law_verbatim(&self, j: JsonView) {
    }
}

impl RoundTrip for PresenceSource {
    open spec fn writable(&self) -> bool {
        true
    }

    proof fn law_round_trip(&self, back: &PresenceSource) {
    }
}

impl Verbatim for E2eStatus {
    proof fn law_verbatim(&self, j: JsonView) {
    }
}

impl RoundTrip for E2eStatus {
    open spec fn writable(&self) -> bool {
        true
    }

    proof fn law_round_trip(&self, back: &E2eStatus) {
    }
}

impl Verbatim for MentionType {
    proof fn law_verbatim(&self, j: JsonView) {
    }
}

impl RoundTrip for MentionType {
    open spec fn writable(&self) -> bool {
        true
    }

    proof fn law_round_trip(&self, back: &MentionType) {
    }
}

impl Verbatim for NotificationPreference {
    proof fn law_verbatim(&self, j: JsonView) {
    }
}

impl RoundTrip for NotificationPreference {
    open spec fn writable(&self) -> bool {
        true
    }

    proof fn law_round_trip(&self, back: &NotificationPreference) {
    }
}

impl Verbatim for PreferenceOrigin {
    proof fn law_verbatim(&self, j: JsonView) {
    }
}

impl RoundTrip for PreferenceOrigin {
    open spec fn writable(&self) -> bool {
        true
    }

    proof fn law_round_trip(&self, back: &PreferenceOrigin) {
    }
}

impl Verbatim for UnreadAlert {
    proof fn law_verbatim(&self, j: JsonView) {
    }
}

impl RoundTrip for UnreadAlert {
    open spec fn writable(&self) -> bool {
        true
    }

    proof fn law_round_trip(&self, back: &UnreadAlert) {
    }
}

impl Verbatim for SubscriptionStatus {
    proof fn law_verbatim(&self, j: JsonView) {
    }
}

impl RoundTrip for SubscriptionStatus {
    open spec fn writable(&self) -> bool {
        true
    }

    proof fn law_round_trip(&self, back: &SubscriptionStatus) {
    }
}

impl RoundTrip for SysMes {
    open spec fn writable(&self) -> bool {
        true
    }

    proof fn law_round_trip(&self, back: &SysMes) {
        if let SysMes::Hidden(types) = *self {
            match *back {
                SysMes::Hidden(others) => types.law_round_trip(&others),
                SysMes::Enabled(_) => types.law_round_trip(&types),
            }
        }
    }
}

impl RoundTrip for RolePrioritiesCreated {
    open spec fn writable(&self) -> bool {
        true
    }

    proof fn law_round_trip(&self, back: &RolePrioritiesCreated) {
    }
}

impl RoundTrip for PresenceStatus {
    open spec fn writable(&self) -> bool {
        true
    }

    proof fn law_round_trip(&self, back: &PresenceStatus) {
    }
}

} // verus!
